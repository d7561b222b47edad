//! The settings that are saved, by name, and what a reset leaves of them.
use vstd::prelude::*;
use vstd::string::*;

use crate::text::same_text;

verus! {

/// A setting as the configuration holds it.
#[derive(Debug)]
pub struct SavedSetting {
    pub name: String,
    pub value: String,
}

/// The value of each name: the last one listed under it.
pub open spec fn stored(list: Seq<SavedSetting>) -> Map<Seq<char>, Seq<char>>
    decreases list.len(),
{
    if list.len() == 0 {
        Map::empty()
    } else {
        stored(list.drop_last()).insert(list.last().name@, list.last().value@)
    }
}

/// No name is listed twice.
pub open spec fn named_once(list: Seq<SavedSetting>) -> bool {
    forall|i: int, j: int|
        0 <= i < j < list.len() ==> (#[trigger] list[i]).name@ != (#[trigger] list[j]).name@
}

/// Replacing the last entry of a name stores its new value.
proof fn lemma_replaced(list: Seq<SavedSetting>, i: int, entry: SavedSetting)
    requires
        0 <= i < list.len(),
        list[i].name@ == entry.name@,
        forall|j: int| i < j < list.len() ==> (#[trigger] list[j]).name@ != entry.name@,
    ensures
        stored(list.update(i, entry)) == stored(list).insert(entry.name@, entry.value@),
    decreases list.len(),
{
    let updated = list.update(i, entry);
    let front = list.drop_last();
    if i == list.len() - 1 {
        assert(updated.drop_last() =~= front);
    } else {
        assert(updated.drop_last() =~= front.update(i, entry));
        assert forall|j: int| i < j < front.len() implies (#[trigger] front[j]).name@
            != entry.name@ by {
            assert(front[j] == list[j]);
        }
        lemma_replaced(front, i, entry);
        assert(list.last() == list[list.len() - 1]);
    }
    assert(stored(updated) =~= stored(list).insert(entry.name@, entry.value@));
}

/// Saves a value under a name, in place of the one that was there.
pub fn save_setting(list: &mut Vec<SavedSetting>, name: String, value: String)
    ensures
        stored(final(list)@) == stored(old(list)@).insert(name@, value@),
        named_once(old(list)@) ==> named_once(final(list)@),
{
    let ghost before = list@;
    let entry = SavedSetting { name, value };
    let mut i: usize = list.len();
    while i > 0
        invariant
            list@ == before,
            before == old(list)@,
            entry.name@ == name@,
            entry.value@ == value@,
            i <= list@.len(),
            forall|j: int| i <= j < list@.len() ==> (#[trigger] list@[j]).name@ != entry.name@,
        decreases i,
    {
        i -= 1;
        if same_text(list[i].name.as_str(), entry.name.as_str()) {
            proof {
                lemma_replaced(before, i as int, entry);
            }
            list.set(i, entry);
            return;
        }
    }
    list.push(entry);
    assert(list@.drop_last() =~= before);
}

/// The settings saved after a reset: each of the running session's (`snapshot`), and the
/// saved ones under names that the session does not have.
pub fn settings_after_reset(saved: Vec<SavedSetting>, snapshot: &Vec<SavedSetting>) -> (r: Vec<
    SavedSetting,
>)
    ensures
        stored(r@) == stored(saved@).union_prefer_right(stored(snapshot@)),
        named_once(saved@) ==> named_once(r@),
{
    let mut merged = saved;
    let mut i: usize = 0;
    assert(snapshot@.take(0) =~= Seq::<SavedSetting>::empty());
    assert(stored(saved@).union_prefer_right(Map::<Seq<char>, Seq<char>>::empty()) =~= stored(
        saved@,
    ));
    while i < snapshot.len()
        invariant
            i <= snapshot@.len(),
            stored(merged@) == stored(saved@).union_prefer_right(
                stored(snapshot@.take(i as int)),
            ),
            named_once(saved@) ==> named_once(merged@),
        decreases snapshot@.len() - i,
    {
        let name = snapshot[i].name.clone();
        let value = snapshot[i].value.clone();
        save_setting(&mut merged, name, value);
        proof {
            let next = snapshot@.take(i + 1);
            assert(next.drop_last() =~= snapshot@.take(i as int));
            assert(next.last() == snapshot@[i as int]);
            assert(stored(merged@) =~= stored(saved@).union_prefer_right(stored(next)));
        }
        i += 1;
    }
    assert(snapshot@.take(i as int) =~= snapshot@);
    merged
}

/// A reset survives a restart: what is loaded again under any name of the session is the
/// session's own value, and nothing else that was saved is lost.
pub proof fn reset_values_survive_a_restart(
    saved: Seq<SavedSetting>,
    snapshot: Seq<SavedSetting>,
    name: Seq<char>,
)
    ensures
        ({
            let loaded = stored(saved).union_prefer_right(stored(snapshot));
            &&& stored(snapshot).dom().contains(name) ==> loaded.dom().contains(name)
                && loaded[name] == stored(snapshot)[name]
            &&& !stored(snapshot).dom().contains(name) ==> (loaded.dom().contains(name) <==> stored(
                saved,
            ).dom().contains(name))
            &&& !stored(snapshot).dom().contains(name) && stored(saved).dom().contains(name)
                ==> loaded[name] == stored(saved)[name]
        }),
{
}

/// A name is found with the value it was listed with last, and only names that are listed are
/// found.
pub proof fn settings_are_found_by_name(list: Seq<SavedSetting>, i: int, name: Seq<char>)
    requires
        0 <= i < list.len(),
        forall|j: int| i < j < list.len() ==> (#[trigger] list[j]).name@ != list[i].name@,
    ensures
        stored(list).dom().contains(list[i].name@),
        stored(list)[list[i].name@] == list[i].value@,
        stored(list).dom().contains(name) ==> exists|k: int|
            0 <= k < list.len() && (#[trigger] list[k]).name@ == name,
{
    lemma_found(list, i);
    lemma_listed(list, name);
}

proof fn lemma_found(list: Seq<SavedSetting>, i: int)
    requires
        0 <= i < list.len(),
        forall|j: int| i < j < list.len() ==> (#[trigger] list[j]).name@ != list[i].name@,
    ensures
        stored(list).dom().contains(list[i].name@),
        stored(list)[list[i].name@] == list[i].value@,
    decreases list.len(),
{
    let front = list.drop_last();
    assert(list.last() == list[list.len() - 1]);
    if i < front.len() {
        assert forall|j: int| i < j < front.len() implies (#[trigger] front[j]).name@
            != front[i].name@ by {
            assert(front[j] == list[j]);
        }
        lemma_found(front, i);
        assert(list[list.len() - 1].name@ != list[i].name@);
    }
}

proof fn lemma_listed(list: Seq<SavedSetting>, name: Seq<char>)
    ensures
        stored(list).dom().contains(name) ==> exists|k: int|
            0 <= k < list.len() && (#[trigger] list[k]).name@ == name,
    decreases list.len(),
{
    if list.len() > 0 && stored(list).dom().contains(name) {
        let front = list.drop_last();
        if list.last().name@ == name {
            assert(list[list.len() - 1].name@ == name);
        } else {
            lemma_listed(front, name);
            let k = choose|k: int| 0 <= k < front.len() && (#[trigger] front[k]).name@ == name;
            assert(list[k].name@ == name);
        }
    }
}

} // verus!
