use sauvegarde::path_prefix::starts_with_components;

#[test]
fn prefix_covers_paths_under_it() {
    assert!(starts_with_components("/data", "/data/a.txt"));
    assert!(starts_with_components("/data", "/data/b/x.txt"));
}

#[test]
fn prefix_covers_the_exact_path() {
    assert!(starts_with_components("/data", "/data"));
}

#[test]
fn partial_component_does_not_match() {
    assert!(!starts_with_components("/dat", "/data/a.txt"));
    assert!(!starts_with_components("/data", "/data2/c.txt"));
}

#[test]
fn unrelated_path_does_not_match() {
    assert!(!starts_with_components("/data", "/other/c.txt"));
}

#[test]
fn longer_prefix_never_matches_shorter_path() {
    assert!(!starts_with_components("/data/a.txt", "/data"));
}

#[test]
fn one_trailing_separator_is_ignored() {
    assert!(starts_with_components("/data/", "/data"));
    assert!(starts_with_components("/data/", "/data/b/x.txt"));
    assert!(!starts_with_components("/data/", "/data2/c.txt"));
    assert!(!starts_with_components("/dat/", "/data/a.txt"));
}

#[test]
fn root_covers_absolute_paths_only() {
    assert!(starts_with_components("/", "/a"));
    assert!(starts_with_components("/", "/"));
    assert!(!starts_with_components("/", "a"));
}

#[test]
fn empty_prefix_covers_everything() {
    assert!(starts_with_components("", "/a"));
    assert!(starts_with_components("", "a"));
    assert!(starts_with_components("", ""));
}
