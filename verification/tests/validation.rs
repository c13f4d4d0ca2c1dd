use safebackup::paths::{final_segment, join_path};
use safebackup::validator::is_valid_path;

#[test]
fn rejects_parent_marker_alone() {
    assert!(!is_valid_path(".."));
}

#[test]
fn rejects_leading_parent_component() {
    assert!(!is_valid_path("../etc/passwd"));
}

#[test]
fn rejects_inner_parent_component() {
    assert!(!is_valid_path("a/../b"));
}

#[test]
fn rejects_marker_inside_a_name() {
    assert!(!is_valid_path("a..b"));
}

#[test]
fn accepts_plain_absolute_path() {
    assert!(is_valid_path("/tmp/a.txt"));
}

#[test]
fn accepts_relative_path_with_single_dots() {
    assert!(is_valid_path("./notes/a.b"));
}

#[test]
fn accepts_empty_path() {
    assert!(is_valid_path(""));
}

#[test]
fn final_segment_of_plain_name() {
    assert_eq!(final_segment("a.txt"), Some("a.txt".to_string()));
}

#[test]
fn final_segment_of_absolute_path() {
    assert_eq!(final_segment("/tmp/bk/a.txt"), Some("a.txt".to_string()));
}

#[test]
fn final_segment_ignores_trailing_separators() {
    assert_eq!(final_segment("dir/sub/"), Some("sub".to_string()));
}

#[test]
fn final_segment_of_root_is_none() {
    assert_eq!(final_segment("/"), None);
    assert_eq!(final_segment("//"), None);
}

#[test]
fn final_segment_of_empty_is_none() {
    assert_eq!(final_segment(""), None);
}

#[test]
fn join_into_empty_directory_name() {
    assert_eq!(join_path("", "f.txt"), "f.txt");
}

#[test]
fn join_adds_one_separator() {
    assert_eq!(join_path("/tmp/bk", "f.txt"), "/tmp/bk/f.txt");
}

#[test]
fn join_keeps_existing_separator() {
    assert_eq!(join_path("/tmp/bk/", "f.txt"), "/tmp/bk/f.txt");
}
