//! Where the helper executable and its DXVK library are looked for, relative to where this
//! program itself is. Paths are the bytes of Unix paths.
use vstd::prelude::*;
use vstd::string::*;

verus! {

/// The byte between the parts of a path.
pub const SEPARATOR: u8 = 0x2f;

/// `relative` below `base`: an empty base adds nothing, and one that ends in a separator
/// needs no other.
pub open spec fn joined(base: Seq<u8>, relative: Seq<u8>) -> Seq<u8> {
    if base.len() == 0 || base.last() == SEPARATOR {
        base + relative
    } else {
        base.push(SEPARATOR) + relative
    }
}

/// The bytes of each path.
pub open spec fn paths(list: Seq<Vec<u8>>) -> Seq<Seq<u8>> {
    list.map_values(|path: Vec<u8>| path@)
}

/// The bytes of an optional path.
pub open spec fn optional(path: Option<&[u8]>) -> Option<Seq<u8>> {
    match path {
        Some(bytes) => Some(bytes@),
        None => None,
    }
}

/// The directories looked in, in order: the one named explicitly, those beside the
/// program's own directory and that directory itself, and the system's.
pub open spec fn install_dirs(explicit: Option<Seq<u8>>, bin_dir: Option<Seq<u8>>) -> Seq<Seq<u8>> {
    let named = match explicit {
        Some(dir) => seq![dir],
        None => seq![],
    };
    let own = match bin_dir {
        Some(dir) => seq![
            joined(dir, "../lib/neuralforge".spec_bytes()),
            joined(dir, "../lib64/neuralforge".spec_bytes()),
            dir,
        ],
        None => seq![],
    };
    named + own + seq![
        "/usr/lib/neuralforge".spec_bytes(),
        "/usr/lib64/neuralforge".spec_bytes(),
    ]
}

/// The places one file is looked for, in order.
pub open spec fn places(dirs: Seq<Seq<u8>>, relative: Seq<u8>) -> Seq<Seq<u8>> {
    dirs.map_values(|dir: Seq<u8>| joined(dir, relative))
}

/// The first place where the file is.
pub open spec fn first_present(places: Seq<Seq<u8>>, present: Seq<bool>) -> Option<Seq<u8>>
    decreases places.len(),
{
    if places.len() == 0 || present.len() == 0 {
        None
    } else if present.first() {
        Some(places.first())
    } else {
        first_present(places.drop_first(), present.drop_first())
    }
}

/// The helper, below an installation directory.
pub open spec fn helper_name() -> Seq<u8> {
    "helper/neuralforge-helper.exe".spec_bytes()
}

/// The DXVK library, below an installation directory.
pub open spec fn dxvk_name() -> Seq<u8> {
    "dxvk/vulkan-1.dll".spec_bytes()
}

fn copied(bytes: &[u8]) -> (r: Vec<u8>)
    ensures
        r@ == bytes@,
{
    let mut copy: Vec<u8> = Vec::new();
    copy.extend_from_slice(bytes);
    assert(copy@ =~= bytes@);
    copy
}

/// `relative` below `base`.
pub fn join(base: &[u8], relative: &[u8]) -> (r: Vec<u8>)
    ensures
        r@ == joined(base@, relative@),
{
    let mut path = copied(base);
    if base.len() > 0 && base[base.len() - 1] != SEPARATOR {
        path.push(SEPARATOR);
    }
    path.extend_from_slice(relative);
    assert(path@ =~= joined(base@, relative@));
    path
}

/// The directories to look in, from the one named in the environment, if any, and the
/// directory of this program, if it is known.
pub fn candidate_install_dirs(explicit: Option<&[u8]>, bin_dir: Option<&[u8]>) -> (r: Vec<Vec<u8>>)
    ensures
        paths(r@) == install_dirs(optional(explicit), optional(bin_dir)),
{
    let mut dirs: Vec<Vec<u8>> = Vec::new();
    if let Some(dir) = explicit {
        dirs.push(copied(dir));
    }
    if let Some(dir) = bin_dir {
        dirs.push(join(dir, "../lib/neuralforge".as_bytes()));
        dirs.push(join(dir, "../lib64/neuralforge".as_bytes()));
        dirs.push(copied(dir));
    }
    dirs.push(copied("/usr/lib/neuralforge".as_bytes()));
    dirs.push(copied("/usr/lib64/neuralforge".as_bytes()));
    assert(paths(dirs@) =~= install_dirs(optional(explicit), optional(bin_dir)));
    dirs
}

fn all_places(dirs: &Vec<Vec<u8>>, relative: &[u8]) -> (r: Vec<Vec<u8>>)
    ensures
        paths(r@) == places(paths(dirs@), relative@),
{
    let mut found: Vec<Vec<u8>> = Vec::new();
    let mut i: usize = 0;
    while i < dirs.len()
        invariant
            i <= dirs@.len(),
            found@.len() == i,
            forall|k: int|
                0 <= k < i ==> (#[trigger] found@[k])@ == joined(dirs@[k]@, relative@),
        decreases dirs@.len() - i,
    {
        found.push(join(dirs[i].as_slice(), relative));
        i += 1;
    }
    assert(paths(found@) =~= places(paths(dirs@), relative@));
    found
}

fn pick(list: Vec<Vec<u8>>, present: &Vec<bool>) -> (r: Option<Vec<u8>>)
    ensures
        (match r {
            Some(path) => Some(path@),
            None => None,
        }) == first_present(paths(list@), present@),
{
    let ghost all = paths(list@);
    let mut i: usize = 0;
    proof {
        assert(all.skip(0) =~= all);
        assert(present@.skip(0) =~= present@);
    }
    while i < list.len() && i < present.len()
        invariant
            i <= list@.len(),
            i <= present@.len(),
            all == paths(list@),
            first_present(all, present@) == first_present(
                all.skip(i as int),
                present@.skip(i as int),
            ),
        decreases list@.len() - i,
    {
        proof {
            assert(all.skip(i as int).first() == list@[i as int]@);
            assert(all.skip(i as int).drop_first() =~= all.skip(i + 1));
            assert(present@.skip(i as int).drop_first() =~= present@.skip(i + 1));
        }
        if present[i] {
            return Some(copied(list[i].as_slice()));
        }
        i += 1;
    }
    None
}

/// Where the helper is looked for.
pub fn helper_places(dirs: &Vec<Vec<u8>>) -> (r: Vec<Vec<u8>>)
    ensures
        paths(r@) == places(paths(dirs@), helper_name()),
{
    all_places(dirs, "helper/neuralforge-helper.exe".as_bytes())
}

/// Where the DXVK library is looked for.
pub fn dxvk_places(dirs: &Vec<Vec<u8>>) -> (r: Vec<Vec<u8>>)
    ensures
        paths(r@) == places(paths(dirs@), dxvk_name()),
{
    all_places(dirs, "dxvk/vulkan-1.dll".as_bytes())
}

/// The helper executable: the first of its places where there is a file. `present` says so
/// of each place that [`helper_places`] lists.
pub fn helper_exe(dirs: &Vec<Vec<u8>>, present: &Vec<bool>) -> (r: Option<Vec<u8>>)
    ensures
        (match r {
            Some(path) => Some(path@),
            None => None,
        }) == first_present(places(paths(dirs@), helper_name()), present@),
{
    pick(helper_places(dirs), present)
}

/// The DXVK library: the first of its places where there is a file. `present` says so of
/// each place that [`dxvk_places`] lists.
pub fn dxvk_dll(dirs: &Vec<Vec<u8>>, present: &Vec<bool>) -> (r: Option<Vec<u8>>)
    ensures
        (match r {
            Some(path) => Some(path@),
            None => None,
        }) == first_present(places(paths(dirs@), dxvk_name()), present@),
{
    pick(dxvk_places(dirs), present)
}

/// The search succeeds exactly if the file is in one of its places, and then gives the
/// first such place.
pub proof fn the_first_present_place_wins(places: Seq<Seq<u8>>, present: Seq<bool>)
    requires
        places.len() == present.len(),
    ensures
        first_present(places, present) is Some <==> present.contains(true),
        first_present(places, present) matches Some(path) ==> exists|k: int|
            0 <= k < places.len() && places[k] == path && #[trigger] present[k] && forall|i: int|
                0 <= i < k ==> !present[i],
    decreases places.len(),
{
    if places.len() > 0 {
        if present.first() {
            assert(present[0]);
        } else {
            let rest = present.drop_first();
            the_first_present_place_wins(places.drop_first(), rest);
            if rest.contains(true) {
                let k = choose|k: int|
                    0 <= k < places.drop_first().len() && places.drop_first()[k]
                        == first_present(places, present)->0 && #[trigger] rest[k] && forall|i: int|
                        0 <= i < k ==> !rest[i];
                assert(present[k + 1]);
                assert forall|i: int| 0 <= i < k + 1 implies !present[i] by {
                    if i > 0 {
                        assert(rest[i - 1] == present[i]);
                    }
                }
            }
            if present.contains(true) {
                let j = present.index_of(true);
                assert(rest[j - 1] == present[j]);
            }
        }
    }
}

/// A directory named explicitly is looked in before any other.
pub proof fn the_explicit_directory_comes_first(explicit: Seq<u8>, bin_dir: Option<Seq<u8>>)
    ensures
        install_dirs(Some(explicit), bin_dir).first() == explicit,
        install_dirs(Some(explicit), bin_dir).drop_first() == install_dirs(None, bin_dir),
{
    assert(install_dirs(Some(explicit), bin_dir).drop_first() =~= install_dirs(None, bin_dir));
}

/// A joined path is the base and then the relative part, with a single separator between them
/// where the base is not empty.
pub proof fn joined_paths_keep_both_parts(base: Seq<u8>, relative: Seq<u8>)
    ensures
        ({
            let path = joined(base, relative);
            let gap = path.len() - base.len() - relative.len();
            &&& gap == 0 || gap == 1
            &&& path.take(base.len() as int) == base
            &&& path.skip(base.len() + gap) == relative
            &&& gap == 1 ==> path[base.len() as int] == 0x2f && base.len() > 0 && base.last()
                != 0x2f
            &&& base.len() > 0 ==> path[base.len() + gap - 1] == 0x2f
        }),
{
    let path = joined(base, relative);
    assert(path.take(base.len() as int) =~= base);
    assert(path.skip(path.len() - relative.len()) =~= relative);
}

/// A file is looked for in every directory, in their order, under the same name.
pub proof fn every_directory_is_looked_in(dirs: Seq<Seq<u8>>, relative: Seq<u8>, i: int)
    requires
        0 <= i < dirs.len(),
    ensures
        places(dirs, relative).len() == dirs.len(),
        places(dirs, relative)[i].take(dirs[i].len() as int) == dirs[i],
        places(dirs, relative)[i].skip(places(dirs, relative)[i].len() - relative.len())
            == relative,
{
    joined_paths_keep_both_parts(dirs[i], relative);
}

/// What lies beside the program comes before what the system has, and the program's own
/// directory is among it; without it only the system's are looked in.
pub proof fn the_programs_surroundings_come_first(bin_dir: Seq<u8>)
    ensures
        install_dirs(None, Some(bin_dir)).len() == 5,
        install_dirs(None, Some(bin_dir))[2] == bin_dir,
        install_dirs(None, Some(bin_dir))[0].take(bin_dir.len() as int) == bin_dir,
        install_dirs(None, Some(bin_dir))[1].take(bin_dir.len() as int) == bin_dir,
        install_dirs(None, Some(bin_dir)).skip(3) == install_dirs(None, None),
        install_dirs(None, None).len() == 2,
{
    joined_paths_keep_both_parts(bin_dir, "../lib/neuralforge".spec_bytes());
    joined_paths_keep_both_parts(bin_dir, "../lib64/neuralforge".spec_bytes());
    assert(install_dirs(None, Some(bin_dir)).skip(3) =~= install_dirs(None, None));
}

/// The directories beside the program and the system's are these.
pub proof fn the_directories_are_these(bin_dir: Seq<u8>)
    ensures
        install_dirs(None, Some(bin_dir))[0] == joined(bin_dir, "../lib/neuralforge".spec_bytes()),
        install_dirs(None, Some(bin_dir))[1] == joined(
            bin_dir,
            "../lib64/neuralforge".spec_bytes(),
        ),
        install_dirs(None, None)[0] == "/usr/lib/neuralforge".spec_bytes(),
        install_dirs(None, None)[1] == "/usr/lib64/neuralforge".spec_bytes(),
        helper_name() == "helper/neuralforge-helper.exe".spec_bytes(),
        dxvk_name() == "dxvk/vulkan-1.dll".spec_bytes(),
{
}

} // verus!
