use globset::{Glob, GlobSet, GlobSetBuilder};
use ss3::filter::{compute_inex, validate_key, Inex};

fn glob_set(patterns: &[&str]) -> GlobSet {
    let mut builder = GlobSetBuilder::new();
    for p in patterns {
        builder.add(Glob::new(p).unwrap());
    }
    builder.build().unwrap()
}

#[test]
fn test_no_sets_includes_everything() {
    assert_eq!(compute_inex("any/key.bin", &None, &None), Inex::Include);
    assert_eq!(compute_inex("", &None, &None), Inex::Include);
}

#[test]
fn test_include_rules_passes_on_match() {
    let inc = Some(glob_set(&["*.txt"]));
    assert_eq!(compute_inex("notes.txt", &inc, &None), Inex::Include);
}

#[test]
fn test_include_rules_fails_silently() {
    let inc = Some(glob_set(&["*.txt"]));
    assert_eq!(compute_inex("image.jpg", &inc, &None), Inex::ExcludeNotInInclude);
}

#[test]
fn test_include_rules_failure_wins_over_exclude() {
    // Not passing the include rules stays the silent outcome even when an
    // exclude pattern also matches the key.
    let inc = Some(glob_set(&["*.txt"]));
    let exc = Some(glob_set(&["*.jpg"]));
    assert_eq!(compute_inex("image.jpg", &inc, &exc), Inex::ExcludeNotInInclude);
}

#[test]
fn test_exclude_match_is_reported() {
    let exc = Some(glob_set(&["*.tmp"]));
    assert_eq!(compute_inex("build/out.tmp", &None, &exc), Inex::ExcludeInExclude);
    let inc = Some(glob_set(&["**/*"]));
    assert_eq!(compute_inex("build/out.tmp", &inc, &exc), Inex::ExcludeInExclude);
}

#[test]
fn test_validate_key() {
    let inc = Some(glob_set(&["*.txt"]));
    let exc = Some(glob_set(&["secret*"]));
    assert!(validate_key("notes.txt", &inc, &exc));
    assert!(!validate_key("secret.txt", &inc, &exc));
    assert!(!validate_key("image.jpg", &inc, &exc));
}
