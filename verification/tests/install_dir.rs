//! Where the helper and its library are looked for.
use neuralforge::install_dir::{
    candidate_install_dirs, dxvk_dll, dxvk_places, helper_exe, helper_places, join,
};

fn text(list: Vec<Vec<u8>>) -> Vec<String> {
    list.into_iter().map(|path| String::from_utf8(path).unwrap()).collect()
}

#[test]
fn paths_join_as_the_standard_library_joins_them() {
    for (base, relative) in [("/usr/bin", "a/b"), ("/usr/bin/", "a"), ("", "a"), ("/", "x"), ("bin", "../lib")] {
        let expected = std::path::Path::new(base).join(relative);
        let joined = String::from_utf8(join(base.as_bytes(), relative.as_bytes())).unwrap();
        assert_eq!(joined, expected.to_str().unwrap());
    }
}

#[test]
fn directories_are_tried_in_order() {
    let dirs = candidate_install_dirs(Some(b"/opt/nf"), Some(b"/app/usr/bin"));
    assert_eq!(
        text(dirs),
        vec![
            "/opt/nf",
            "/app/usr/bin/../lib/neuralforge",
            "/app/usr/bin/../lib64/neuralforge",
            "/app/usr/bin",
            "/usr/lib/neuralforge",
            "/usr/lib64/neuralforge",
        ]
    );
    let dirs = candidate_install_dirs(None, None);
    assert_eq!(text(dirs), vec!["/usr/lib/neuralforge", "/usr/lib64/neuralforge"]);
}

#[test]
fn the_first_place_that_has_the_file_wins() {
    let dirs = candidate_install_dirs(None, Some(b"/b"));
    assert_eq!(
        text(helper_places(&dirs))[2],
        "/b/helper/neuralforge-helper.exe"
    );
    let present = vec![false, false, true, false, true];
    assert_eq!(
        helper_exe(&dirs, &present),
        Some(b"/b/helper/neuralforge-helper.exe".to_vec())
    );
    assert_eq!(dxvk_dll(&dirs, &present), Some(b"/b/dxvk/vulkan-1.dll".to_vec()));
    assert_eq!(
        text(dxvk_places(&dirs))[4],
        "/usr/lib64/neuralforge/dxvk/vulkan-1.dll"
    );
    assert_eq!(helper_exe(&dirs, &vec![false; 5]), None);
    assert_eq!(helper_exe(&dirs, &Vec::new()), None);
    let named = candidate_install_dirs(Some(b""), None);
    assert_eq!(
        helper_exe(&named, &vec![true, true, true]),
        Some(b"helper/neuralforge-helper.exe".to_vec())
    );
}
