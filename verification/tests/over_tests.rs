use ss3::error::Error;
use ss3::over::{
    check_has_and_same_etags, md5_hex, needs_etag_probe, needs_exists_probe, over_mode_from_arg,
    validate_over_for_file_dest, validate_over_for_s3_dest, OverMode,
};
use ss3::sitem::{SItem, SItemType, SItemsCache};

#[test]
fn test_default_mode_is_skip() {
    assert_eq!(OverMode::default(), OverMode::Skip);
}

#[test]
fn test_labels() {
    assert_eq!(OverMode::Write.label(), "Write");
    assert_eq!(OverMode::Skip.label(), "Exists");
    assert_eq!(OverMode::Etag.label(), "Etag");
    assert_eq!(OverMode::Fail.label(), "Fail");
}

#[test]
fn test_over_mode_from_arg() {
    assert_eq!(over_mode_from_arg(None), Some(OverMode::Skip));
    assert_eq!(over_mode_from_arg(Some("write")), Some(OverMode::Write));
    assert_eq!(over_mode_from_arg(Some("skip")), Some(OverMode::Skip));
    assert_eq!(over_mode_from_arg(Some("etag")), Some(OverMode::Etag));
    assert_eq!(over_mode_from_arg(Some("fail")), Some(OverMode::Fail));
    assert_eq!(over_mode_from_arg(Some("other")), None);
}

#[test]
fn test_probe_needs() {
    assert!(needs_exists_probe(&OverMode::Skip));
    assert!(needs_exists_probe(&OverMode::Fail));
    assert!(!needs_exists_probe(&OverMode::Write));
    assert!(!needs_exists_probe(&OverMode::Etag));
    assert!(needs_etag_probe(&OverMode::Etag));
    assert!(!needs_etag_probe(&OverMode::Skip));
}

#[test]
fn test_write_mode_always_proceeds() {
    assert!(validate_over_for_s3_dest("s3://b/k", &OverMode::Write, None, None).unwrap());
    assert!(validate_over_for_file_dest("f", &OverMode::Write, true).unwrap());
}

#[test]
fn test_skip_mode_follows_existence() {
    assert!(validate_over_for_s3_dest("s3://b/k", &OverMode::Skip, Some(false), None).unwrap());
    assert!(!validate_over_for_s3_dest("s3://b/k", &OverMode::Skip, Some(true), None).unwrap());
    assert!(validate_over_for_file_dest("f", &OverMode::Skip, false).unwrap());
    assert!(!validate_over_for_file_dest("f", &OverMode::Skip, true).unwrap());
}

#[test]
fn test_fail_mode_fresh_destination_proceeds() {
    assert!(validate_over_for_s3_dest("s3://b/k", &OverMode::Fail, Some(false), None).unwrap());
    assert!(validate_over_for_file_dest("f", &OverMode::Fail, false).unwrap());
}

#[test]
fn test_fail_mode_existing_destination_errors() {
    let e = validate_over_for_s3_dest("s3://b/k", &OverMode::Fail, Some(true), None).unwrap_err();
    assert!(matches!(e, Error::ObjectExistsOverFailMode(u) if u == "s3://b/k"));
    let e = validate_over_for_file_dest("out.txt", &OverMode::Fail, true).unwrap_err();
    assert!(matches!(e, Error::FileExistsOverFailMode(f) if f == "out.txt"));
}

#[test]
fn test_etag_mode_skips_identical_content() {
    assert!(!validate_over_for_s3_dest("s3://b/k", &OverMode::Etag, None, Some(true)).unwrap());
    assert!(validate_over_for_s3_dest("s3://b/k", &OverMode::Etag, None, Some(false)).unwrap());
}

#[test]
fn test_md5_hex_known_value() {
    let digest = md5_hex(b"abcdefghijklmnopqrstuvwxyz");
    assert_eq!(digest, "c3fcd3d76192e4007dfb496cca67e13b");
    assert_eq!(digest.len(), 32);
}

fn object(key: &str, etag: Option<&str>) -> SItem {
    SItem {
        typ: SItemType::Object,
        key: key.to_string(),
        etag: etag.map(|e| e.to_string()),
        size: 3,
    }
}

#[test]
fn test_etag_idempotence_second_upload_is_identical() {
    // The snapshot holds the digest a first upload left behind; the
    // second upload of unchanged bytes must find identical content.
    let content = b"hello world";
    let digest = md5_hex(content);
    let cache = SItemsCache::from_items(vec![object("p/f.txt", Some(&digest))]);
    let same =
        check_has_and_same_etags(Some(&cache), None, "p/f.txt", &Some(md5_hex(content)));
    assert!(same);
    // And the Etag decision then denies the put.
    assert!(!validate_over_for_s3_dest("s3://b/p/f.txt", &OverMode::Etag, None, Some(same))
        .unwrap());
}

#[test]
fn test_etag_differs_on_changed_content() {
    let cache = SItemsCache::from_items(vec![object("p/f.txt", Some(&md5_hex(b"old")))]);
    assert!(!check_has_and_same_etags(Some(&cache), None, "p/f.txt", &Some(md5_hex(b"new"))));
}

#[test]
fn test_etag_missing_remote_or_local() {
    let no_etag = SItemsCache::from_items(vec![object("k", None)]);
    assert!(!check_has_and_same_etags(Some(&no_etag), None, "k", &Some("x".to_string())));
    let empty_etag = SItemsCache::from_items(vec![object("k", Some(""))]);
    assert!(!check_has_and_same_etags(Some(&empty_etag), None, "k", &Some("".to_string())));
    let cache = SItemsCache::from_items(vec![object("k", Some("abc"))]);
    assert!(!check_has_and_same_etags(Some(&cache), None, "k", &None));
    assert!(!check_has_and_same_etags(None, None, "k", &Some("abc".to_string())));
}

#[test]
fn test_etag_falls_back_to_fetched_item() {
    let fetched = object("k", Some("abc"));
    assert!(check_has_and_same_etags(None, Some(&fetched), "k", &Some("abc".to_string())));
    // A cache hit takes precedence over the fetched item.
    let cache = SItemsCache::from_items(vec![object("k", Some("other"))]);
    assert!(!check_has_and_same_etags(
        Some(&cache),
        Some(&fetched),
        "k",
        &Some("abc".to_string())
    ));
}

#[test]
fn test_cache_lookup() {
    let cache = SItemsCache::from_items(vec![object("a", Some("1")), object("b", Some("2"))]);
    assert_eq!(cache.get("b").unwrap().etag.as_deref(), Some("2"));
    assert!(cache.get("c").is_none());
}
