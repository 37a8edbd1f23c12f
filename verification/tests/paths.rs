use synth_host::path::{
    is_path_within_base, normalize_path, remap_prefix as remap, remove_prefix as unprefix,
    VirtualPaths,
};

fn p(components: &[&str]) -> Vec<String> {
    components.iter().map(|c| c.to_string()).collect()
}

#[test]
fn translate() {
    let mut vp = VirtualPaths::default();
    vp.insert(p(&["samples:"]), p(&["/", "samples"]));
    vp.insert(p(&["projects:"]), p(&["/", "projects"]));

    assert_eq!(vp.translate(&p(&["samples:"])), Some(p(&["/", "samples"])));
    assert_eq!(vp.translate(&p(&["projects:"])), Some(p(&["/", "projects"])));
    assert_eq!(vp.translate(&p(&["dsd"])), None);
    assert_eq!(vp.translate_back(&p(&["/", "projects"])), Some(p(&["projects:"])));
}

#[test]
fn remap_prefix() {
    let x = remap(
        &p(&["sample:", "test", "1", "2", "3"]),
        &p(&["sample:", "test"]),
        &p(&["/", "sample"]),
    );
    assert_eq!(x, Some(p(&["/", "sample", "1", "2", "3"])));
}

#[test]
fn remove_prefix() {
    let x = unprefix(&p(&["sample:", "test", "1", "2", "3"]), &p(&["sample:", "test"]));
    assert_eq!(x, p(&["1", "2", "3"]));
}

#[test]
fn remap_prefix_requires_whole_components() {
    // "sam" is not a component-wise prefix of ["sample:"].
    assert_eq!(remap(&p(&["sample:"]), &p(&["sam"]), &p(&["x"])), None);
}

#[test]
fn normalize_resolves_dots() {
    assert_eq!(normalize_path(&p(&["a", ".", "b", "..", "c"])), Some(p(&["a", "c"])));
    assert_eq!(normalize_path(&p(&["/", "a", "..", "b"])), Some(p(&["/", "b"])));
    // Climbing past the start or the root fails.
    assert_eq!(normalize_path(&p(&["a", "..", ".."])), None);
    assert_eq!(normalize_path(&p(&["/", ".."])), None);
}

#[test]
fn path_within_base() {
    assert!(is_path_within_base(&p(&["/", "base", "x", "y"]), &p(&["/", "base"])));
    assert!(is_path_within_base(&p(&["/", "base", "x", "..", "y"]), &p(&["/", "base"])));
    assert!(!is_path_within_base(&p(&["/", "base", "..", "y"]), &p(&["/", "base"])));
    assert!(!is_path_within_base(&p(&["/", "other"]), &p(&["/", "base"])));
}

#[test]
fn insert_replaces_existing_mapping() {
    let mut vp = VirtualPaths::default();
    vp.insert(p(&["samples:"]), p(&["/", "old"]));
    vp.insert(p(&["samples:"]), p(&["/", "new"]));
    assert_eq!(vp.translate(&p(&["samples:", "kick"])), Some(p(&["/", "new", "kick"])));
}
