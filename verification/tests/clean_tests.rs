use ss3::clean::{compute_target_keys, keys_to_clean, CleanOptions};
use ss3::error::Error;
use ss3::sitem::{SItem, SItemType};

fn object(key: &str) -> SItem {
    SItem { typ: SItemType::Object, key: key.to_string(), etag: None, size: 1 }
}

#[test]
fn test_clean_returns_exactly_the_stale_keys() {
    // Local files a.txt and b.txt; remote additionally holds stale.txt.
    let locals = vec!["dir/a.txt".to_string(), "dir/b.txt".to_string()];
    let targets = compute_target_keys(&locals, "dir", "p").unwrap();
    assert_eq!(targets, vec!["p/a.txt", "p/b.txt"]);
    let remote = vec![object("p/a.txt"), object("p/b.txt"), object("p/stale.txt")];
    let stale = keys_to_clean(&remote, &targets);
    assert_eq!(stale, vec!["p/stale.txt"]);
}

#[test]
fn test_clean_with_nothing_stale() {
    let targets = vec!["p/a.txt".to_string()];
    let remote = vec![object("p/a.txt")];
    assert!(keys_to_clean(&remote, &targets).is_empty());
}

#[test]
fn test_clean_with_empty_local_set() {
    let targets = compute_target_keys(&vec![], "dir", "p").unwrap();
    assert!(targets.is_empty());
    let remote = vec![object("p/x.txt")];
    assert_eq!(keys_to_clean(&remote, &targets), vec!["p/x.txt"]);
}

#[test]
fn test_target_keys_fail_on_invalid_file() {
    let locals = vec!["dir/a.txt".to_string(), "..".to_string()];
    let e = compute_target_keys(&locals, "dir", "p").unwrap_err();
    assert!(matches!(e, Error::InvalidPath(p) if p == ".."));
}

#[test]
fn test_clean_options_default() {
    assert!(!CleanOptions::default().force);
}
