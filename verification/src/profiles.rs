//! The saved profiles, as the settings window lists them.
use vstd::prelude::*;
use vstd::relations::{sorted_by, total_ordering};
use vstd::string::*;
use vstd::utf8::*;

use crate::text::{bytes_in_order, in_order, trim, trimmed};

verus! {

/// The contents of each name.
pub open spec fn names(list: Seq<String>) -> Seq<Seq<char>> {
    list.map_values(|name: String| name@)
}

/// `a` is listed before `b`, or is `b`: names are ordered by their bytes.
pub open spec fn listed_before(a: Seq<char>, b: Seq<char>) -> bool {
    bytes_in_order(encode_utf8(a), encode_utf8(b))
}

/// What the profile list shows: its entries, and whether one can be picked.
#[derive(Debug)]
pub struct ProfileChoices {
    pub entries: Vec<String>,
    pub sensitive: bool,
}

proof fn lemma_reflexive(a: Seq<u8>)
    ensures
        bytes_in_order(a, a),
    decreases a.len(),
{
    if a.len() > 0 {
        lemma_reflexive(a.drop_first());
    }
}

proof fn lemma_connected(a: Seq<u8>, b: Seq<u8>)
    ensures
        bytes_in_order(a, b) || bytes_in_order(b, a),
    decreases a.len(),
{
    if a.len() > 0 && b.len() > 0 && a[0] == b[0] {
        lemma_connected(a.drop_first(), b.drop_first());
    }
}

proof fn lemma_transitive(a: Seq<u8>, b: Seq<u8>, c: Seq<u8>)
    requires
        bytes_in_order(a, b),
        bytes_in_order(b, c),
    ensures
        bytes_in_order(a, c),
    decreases a.len(),
{
    if a.len() > 0 && b.len() > 0 && c.len() > 0 && a[0] == b[0] && b[0] == c[0] {
        lemma_transitive(a.drop_first(), b.drop_first(), c.drop_first());
    }
}

proof fn lemma_antisymmetric(a: Seq<u8>, b: Seq<u8>)
    requires
        bytes_in_order(a, b),
        bytes_in_order(b, a),
    ensures
        a == b,
    decreases a.len(),
{
    if a.len() > 0 && b.len() > 0 {
        lemma_antisymmetric(a.drop_first(), b.drop_first());
        assert(a =~= seq![a[0]] + a.drop_first());
        assert(b =~= seq![b[0]] + b.drop_first());
    } else {
        assert(a =~= b);
    }
}

/// The list order is a total order: any two names are in it one way or the other, and two
/// that are in it both ways are the same name.
pub proof fn list_order_is_total()
    ensures
        total_ordering(|a: Seq<char>, b: Seq<char>| listed_before(a, b)),
{
    let leq = |a: Seq<char>, b: Seq<char>| listed_before(a, b);
    assert forall|a: Seq<char>| #[trigger] leq(a, a) by {
        lemma_reflexive(encode_utf8(a));
    }
    assert forall|a: Seq<char>, b: Seq<char>| #[trigger] leq(a, b) && #[trigger] leq(b, a) implies a
        == b by {
        lemma_antisymmetric(encode_utf8(a), encode_utf8(b));
        encode_utf8_decode_utf8(a);
        encode_utf8_decode_utf8(b);
    }
    assert forall|a: Seq<char>, b: Seq<char>, c: Seq<char>| #[trigger]
        leq(a, b) && #[trigger] leq(b, c) implies leq(a, c) by {
        lemma_transitive(encode_utf8(a), encode_utf8(b), encode_utf8(c));
    }
    assert forall|a: Seq<char>, b: Seq<char>| #[trigger] leq(a, b) || #[trigger] leq(b, a) by {
        lemma_connected(encode_utf8(a), encode_utf8(b));
    }
}

/// Puts a name where it belongs in a sorted list.
fn insert_name(sorted: &mut Vec<String>, name: String)
    requires
        sorted_by(names(old(sorted)@), |a: Seq<char>, b: Seq<char>| listed_before(a, b)),
    ensures
        sorted_by(names(final(sorted)@), |a: Seq<char>, b: Seq<char>| listed_before(a, b)),
        names(final(sorted)@).to_multiset() == names(old(sorted)@).to_multiset().insert(name@),
{
    broadcast use vstd::seq_lib::group_to_multiset_ensures;

    let ghost before = sorted@;
    let ghost key = name@;
    let ghost leq = |a: Seq<char>, b: Seq<char>| listed_before(a, b);
    let mut at: usize = 0;
    while at < sorted.len() && !in_order(name.as_str(), sorted[at].as_str())
        invariant
            at <= sorted@.len(),
            sorted@ == before,
            name@ == key,
            forall|k: int| 0 <= k < at ==> !listed_before(key, (#[trigger] before[k])@),
        decreases sorted@.len() - at,
    {
        at += 1;
    }
    sorted.insert(at, name);
    proof {
        list_order_is_total();
        assert(names(sorted@) =~= names(before).insert(at as int, key));
        let after = names(sorted@);
        let was = names(before);
        assert forall|i: int, j: int| 0 <= i < j < after.len() implies #[trigger] leq(
            after[i],
            after[j],
        ) by {
            if i < at && j == at {
                assert(!leq(key, was[i]));
                assert(leq(was[i], key) || leq(key, was[i]));
            } else if i == at {
                let k = j - 1;
                assert(leq(key, was[at as int]));
                if k > at {
                    assert(leq(was[at as int], was[k]));
                }
            } else {
                let a = if i < at {
                    i
                } else {
                    i - 1
                };
                let b = if j < at {
                    j
                } else {
                    j - 1
                };
                assert(leq(was[a], was[b]));
            }
        }
    }
}

/// The profiles' names in list order.
pub fn profile_names(unsorted: Vec<String>) -> (r: Vec<String>)
    ensures
        sorted_by(names(r@), |a: Seq<char>, b: Seq<char>| listed_before(a, b)),
        names(r@).to_multiset() == names(unsorted@).to_multiset(),
{
    broadcast use vstd::seq_lib::group_to_multiset_ensures;

    let ghost all = names(unsorted@).to_multiset();
    let mut rest = unsorted;
    let mut sorted: Vec<String> = Vec::new();
    proof {
        assert(names(sorted@) =~= Seq::<Seq<char>>::empty());
        assert(names(sorted@).to_multiset().add(names(rest@).to_multiset()) =~= all);
    }
    while rest.len() > 0
        invariant
            sorted_by(names(sorted@), |a: Seq<char>, b: Seq<char>| listed_before(a, b)),
            names(sorted@).to_multiset().add(names(rest@).to_multiset()) == all,
        decreases rest@.len(),
    {
        let ghost held = names(rest@);
        let ghost done = names(sorted@);
        if let Some(name) = rest.pop() {
            let ghost left = names(rest@);
            proof {
                broadcast use vstd::seq_lib::group_to_multiset_ensures;

                assert(held =~= left.push(name@));
                assert(held.to_multiset() =~= left.to_multiset().insert(name@));
                assert(done.to_multiset().insert(name@).add(left.to_multiset())
                    =~= done.to_multiset().add(held.to_multiset()));
            }
            insert_name(&mut sorted, name);
        }
    }
    proof {
        assert(names(rest@) =~= Seq::<Seq<char>>::empty());
        assert(names(sorted@).to_multiset() =~= all);
    }
    sorted
}

/// The list is determined by which profiles there are: two listings of the same profiles
/// are the same, in whatever order they were loaded.
pub proof fn listing_is_determined_by_the_profiles(a: Seq<Seq<char>>, b: Seq<Seq<char>>)
    requires
        sorted_by(a, |x: Seq<char>, y: Seq<char>| listed_before(x, y)),
        sorted_by(b, |x: Seq<char>, y: Seq<char>| listed_before(x, y)),
        a.to_multiset() == b.to_multiset(),
    ensures
        a == b,
{
    list_order_is_total();
    vstd::seq_lib::lemma_sorted_unique(a, b, |x: Seq<char>, y: Seq<char>| listed_before(x, y));
}

/// What the list shows for these profiles.
pub open spec fn choices(list: Seq<Seq<char>>) -> (Seq<Seq<char>>, bool) {
    if list.len() == 0 {
        (seq!["No saved profiles"@], false)
    } else {
        (list, true)
    }
}

/// What the list shows, from the sorted names.
pub fn refresh_profile_combo(sorted: Vec<String>) -> (r: ProfileChoices)
    ensures
        (names(r.entries@), r.sensitive) == choices(names(sorted@)),
{
    if sorted.len() == 0 {
        let entries = vec!["No saved profiles".to_owned()];
        assert(names(entries@) =~= seq!["No saved profiles"@]);
        ProfileChoices { entries, sensitive: false }
    } else {
        ProfileChoices { entries: sorted, sensitive: true }
    }
}

/// The profile with this number in the list, if there is one.
pub fn selected_profile(sorted: &Vec<String>, selected: u32) -> (r: Option<String>)
    ensures
        match r {
            Some(name) => selected < sorted@.len() && name@ == sorted@[selected as int]@,
            None => selected >= sorted@.len(),
        },
{
    if (selected as usize) < sorted.len() {
        Some(sorted[selected as usize].as_str().to_owned())
    } else {
        None
    }
}

/// The name a profile is saved under: what was typed, without white space around it. There
/// is none where nothing else was typed.
pub fn name_to_save(typed: &str) -> (r: Option<String>)
    ensures
        match r {
            Some(name) => name@ == trimmed(typed@) && name@.len() > 0,
            None => trimmed(typed@).len() == 0,
        },
{
    let name = trim(typed);
    if name.as_str().unicode_len() == 0 {
        None
    } else {
        Some(name)
    }
}

/// Picking from the list never picks what is not there: with no profile saved nothing can
/// be picked, and each number below the count picks its own entry.
pub proof fn picking_is_in_range(list: Seq<Seq<char>>, selected: u32)
    ensures
        choices(list).1 <==> list.len() > 0,
        choices(list).0.len() > 0,
        choices(list).1 && selected < list.len() ==> choices(list).0[selected as int]
            == list[selected as int],
{
}

/// Names are listed from the smaller first byte in which they differ to the larger, and a name
/// before any longer one that begins with it.
pub proof fn names_are_listed_in_ascending_order(common: Seq<u8>, a: u8, b: u8, x: Seq<u8>, y: Seq<u8>)
    requires
        a < b,
    ensures
        bytes_in_order(common.push(a) + x, common.push(b) + y),
        !bytes_in_order(common.push(b) + y, common.push(a) + x),
        bytes_in_order(common, common + x),
        x.len() > 0 ==> !bytes_in_order(common + x, common),
    decreases common.len(),
{
    let (low, high) = (common.push(a) + x, common.push(b) + y);
    if common.len() == 0 {
        assert(low[0] == a && high[0] == b);
    } else {
        let rest = common.drop_first();
        names_are_listed_in_ascending_order(rest, a, b, x, y);
        assert(low.drop_first() =~= rest.push(a) + x);
        assert(high.drop_first() =~= rest.push(b) + y);
        assert((common + x).drop_first() =~= rest + x);
        assert(low[0] == common[0] && high[0] == common[0] && (common + x)[0] == common[0]);
    }
}

} // verus!
