use ss3::error::Error;
use ss3::keymap::{
    compute_dst_key, compute_dst_path, extension_of, get_file_name, join_key, parent_dir,
    path_type, PathType,
};

#[test]
fn test_round_trip_upload_then_download() {
    let key = compute_dst_key(None, "/a/b/c.txt", "prefix", false).unwrap();
    assert_eq!(key, "prefix/c.txt");
    let dst = compute_dst_path("prefix", &key, "base_dir");
    assert_eq!(dst, "base_dir/c.txt");
}

#[test]
fn test_rename_detection() {
    let key = compute_dst_key(None, "img.jpg", "out/photo.jpg", true).unwrap();
    assert_eq!(key, "out/photo.jpg");
}

#[test]
fn test_rename_is_case_insensitive() {
    let key = compute_dst_key(None, "img.JPG", "out/photo.jpg", true).unwrap();
    assert_eq!(key, "out/photo.jpg");
}

#[test]
fn test_no_rename_without_flag() {
    let key = compute_dst_key(None, "img.jpg", "out/photo.jpg", false).unwrap();
    assert_eq!(key, "out/photo.jpg/img.jpg");
}

#[test]
fn test_no_rename_on_different_extensions() {
    let key = compute_dst_key(None, "img.png", "out/photo.jpg", true).unwrap();
    assert_eq!(key, "out/photo.jpg/img.png");
}

#[test]
fn test_dst_key_relative_to_base_dir() {
    let key = compute_dst_key(Some("dir"), "dir/sub/f.txt", "p", false).unwrap();
    assert_eq!(key, "p/sub/f.txt");
}

#[test]
fn test_dst_key_unrelated_base_dir_falls_back_to_file_name() {
    // pathdiff climbs out of the base with parent steps.
    let key = compute_dst_key(Some("elsewhere"), "dir/f.txt", "p", false).unwrap();
    assert_eq!(key, "p/../dir/f.txt");
}

#[test]
fn test_dst_key_invalid_source() {
    let e = compute_dst_key(None, "..", "p", false).unwrap_err();
    assert!(matches!(e, Error::InvalidPath(p) if p == ".."));
}

#[test]
fn test_dst_key_empty_prefix() {
    let key = compute_dst_key(None, "/tmp/f.txt", "", false).unwrap();
    assert_eq!(key, "f.txt");
}

#[test]
fn test_dst_key_prefix_with_trailing_slash() {
    let key = compute_dst_key(None, "/tmp/f.txt", "p/", false).unwrap();
    assert_eq!(key, "p/f.txt");
}

#[test]
fn test_dst_path_strips_leading_slash_of_suffix() {
    assert_eq!(compute_dst_path("p", "p/x/y.txt", "d"), "d/x/y.txt");
    assert_eq!(compute_dst_path("p/", "p/x.txt", "d"), "d/x.txt");
    assert_eq!(compute_dst_path("", "x.txt", "d"), "d/x.txt");
}

#[test]
fn test_get_file_name() {
    assert_eq!(get_file_name("a/b/c.txt").unwrap(), "c.txt");
    assert_eq!(get_file_name("c.txt").unwrap(), "c.txt");
    assert!(matches!(get_file_name("a/b/").unwrap_err(), Error::InvalidPath(_)));
    assert!(matches!(get_file_name(".").unwrap_err(), Error::InvalidPath(_)));
    assert!(matches!(get_file_name("a/..").unwrap_err(), Error::InvalidPath(_)));
}

#[test]
fn test_extension_of() {
    assert_eq!(extension_of("a/b.tar.gz").unwrap(), "gz");
    assert_eq!(extension_of("a/b"), None);
    assert_eq!(extension_of("a/.hidden"), None);
    assert_eq!(extension_of("a/b."), Some(String::new()));
}

#[test]
fn test_path_type() {
    assert_eq!(path_type("a/b.txt"), PathType::File);
    assert_eq!(path_type("a/b"), PathType::Dir);
    assert_eq!(path_type("a.dir/b"), PathType::Dir);
}

#[test]
fn test_join_key() {
    assert_eq!(join_key("p", "x"), "p/x");
    assert_eq!(join_key("p/", "x"), "p/x");
    assert_eq!(join_key("", "x"), "x");
}

#[test]
fn test_parent_dir() {
    assert_eq!(parent_dir("a/b/c.txt"), Some("a/b".to_string()));
    assert_eq!(parent_dir("c.txt"), None);
}
