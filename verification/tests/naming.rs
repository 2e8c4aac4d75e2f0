use easy_fm::resolve_raw_key;
use easy_fm::str_eq;
use easy_fm::Error;
use easy_fm::{base_name, extension};

#[test]
fn base_name_strips_directories() {
    assert_eq!(base_name("/tmp/a.png"), "a.png");
    assert_eq!(base_name("a.png"), "a.png");
    assert_eq!(base_name("dir/sub/file"), "file");
    assert_eq!(base_name(""), "");
    assert_eq!(base_name("dir/"), "");
}

#[test]
fn extension_takes_suffix_after_last_dot() {
    assert_eq!(extension("a.png"), "png");
    assert_eq!(extension("archive.tar.gz"), "gz");
    assert_eq!(extension("noext"), "");
    assert_eq!(extension(".bashrc"), "");
    assert_eq!(extension("trailing."), "");
    assert_eq!(extension(""), "");
}

#[test]
fn raw_policy_keeps_original_name() {
    let k = resolve_raw_key("raw", "a.png", "png", "u-1").unwrap();
    assert_eq!(k, "a.png");
}

#[test]
fn gid_policy_uses_identifier_alone() {
    let k = resolve_raw_key("gid", "a.png", "png", "u-1").unwrap();
    assert_eq!(k, "u-1");
}

#[test]
fn gide_policy_appends_extension() {
    let k = resolve_raw_key("gide", "a.png", "png", "u-1").unwrap();
    assert_eq!(k, "u-1.png");
}

#[test]
fn gide_policy_with_empty_extension() {
    let k = resolve_raw_key("gide", "name", "", "u-1").unwrap();
    assert_eq!(k, "u-1.");
}

#[test]
fn unknown_policy_is_rejected() {
    let e = resolve_raw_key("nope", "a.png", "png", "u-1").unwrap_err();
    assert!(matches!(e, Error::OperationFailed(_)));
}

#[test]
fn str_eq_compares_contents() {
    assert!(str_eq("abc", "abc"));
    assert!(!str_eq("abc", "abd"));
    assert!(!str_eq("abc", "ab"));
    assert!(str_eq("", ""));
}
