use ghi::errors::ParseError;
use ghi::repo::parse;
use ghi::text::{contains_sub, ends_with_str, file_name_of, split_str, str_eq};

#[test]
fn parse_without_tag_defaults_to_latest() {
    let repo = parse("owner/name").unwrap();
    assert_eq!(repo.owner, "owner");
    assert_eq!(repo.name, "name");
    assert_eq!(repo.tag, "latest");
    assert_eq!(repo.full_name, "owner/name/latest");
}

#[test]
fn parse_with_tag_keeps_it() {
    let repo = parse("owner/name@v1.2.0").unwrap();
    assert_eq!(repo.owner, "owner");
    assert_eq!(repo.name, "name");
    assert_eq!(repo.tag, "v1.2.0");
    assert_eq!(repo.full_name, "owner/name/v1.2.0");
}

#[test]
fn parse_empty_tag_is_refused() {
    assert_eq!(parse("owner/name@").unwrap_err(), ParseError::EmptyTag);
}

#[test]
fn parse_blank_tag_is_refused() {
    assert_eq!(parse("owner/name@   ").unwrap_err(), ParseError::EmptyTag);
}

#[test]
fn parse_single_segment_is_refused() {
    assert_eq!(parse("owner").unwrap_err(), ParseError::WrongSegmentCount);
}

#[test]
fn parse_three_segments_is_refused() {
    assert_eq!(parse("a/b/c").unwrap_err(), ParseError::WrongSegmentCount);
}

#[test]
fn parse_empty_owner_or_name_is_refused() {
    assert_eq!(parse("/name").unwrap_err(), ParseError::WrongSegmentCount);
    assert_eq!(parse("owner/").unwrap_err(), ParseError::WrongSegmentCount);
}

#[test]
fn parse_two_tags_is_refused() {
    assert_eq!(parse("owner/name@v1@v2").unwrap_err(), ParseError::TooManyParts);
}

#[test]
fn parse_segment_count_is_checked_before_tag_count() {
    // The segment check takes precedence over the tag count check.
    assert_eq!(parse("owner@v1@v2").unwrap_err(), ParseError::WrongSegmentCount);
}

#[test]
fn parse_error_messages() {
    assert_eq!(
        ParseError::WrongSegmentCount.message(),
        "Repo must have 2 parts e.g. owner/name"
    );
    assert_eq!(
        ParseError::TooManyParts.message(),
        "Cannot define more than the repo and tag"
    );
    assert_eq!(ParseError::EmptyTag.message(), "Tag cannot be empty");
}

#[test]
fn dir_is_keyed_by_owner_name_tag() {
    let repo = parse("owner/name@v1.2.0").unwrap();
    assert_eq!(repo.dir("/home/u"), "/home/u/.ghi/owner/name/v1.2.0");
    let latest = parse("owner/name").unwrap();
    assert_eq!(latest.dir("/home/u"), "/home/u/.ghi/owner/name/latest");
}

#[test]
fn dir_is_deterministic() {
    let a = parse("owner/name@v1").unwrap();
    let b = parse("owner/name@v1").unwrap();
    assert_eq!(a.dir("/home/u"), b.dir("/home/u"));
}

#[test]
fn split_str_keeps_empty_parts() {
    let parts = split_str("a@b@c", '@');
    assert_eq!(parts, vec!["a", "b", "c"]);
    assert_eq!(split_str("", '/'), vec![""]);
    assert_eq!(split_str("a//b", '/'), vec!["a", "", "b"]);
    assert_eq!(split_str("/a/", '/'), vec!["", "a", ""]);
}

#[test]
fn file_name_of_takes_last_component() {
    assert_eq!(file_name_of("/a/b/mytool"), "mytool");
    assert_eq!(file_name_of("mytool"), "mytool");
    assert_eq!(file_name_of("/a/b/"), "");
}

#[test]
fn ends_with_str_checks_suffix() {
    assert!(ends_with_str("tool.tar.gz", ".tar.gz"));
    assert!(!ends_with_str("tool.zip", ".tar.gz"));
    assert!(!ends_with_str("gz", ".tar.gz"));
}

#[test]
fn contains_sub_finds_substrings() {
    assert!(contains_sub("elf 64-bit executable x86-64", "executable x86"));
    assert!(!contains_sub("ascii text", "executable x86"));
    assert!(contains_sub("abc", ""));
    assert!(!contains_sub("ab", "abc"));
}

#[test]
fn str_eq_compares_characters() {
    assert!(str_eq("abc", "abc"));
    assert!(!str_eq("abc", "abd"));
    assert!(!str_eq("abc", "ab"));
}
