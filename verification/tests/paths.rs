use fm::paths::{path_file_name, path_is_root, path_join, path_parent};
use fm::text::{name_key, str_eq, str_le, str_starts_with, u64_to_dec};

#[test]
fn join_under_root() {
    assert_eq!(path_join("/", "etc"), "/etc");
}

#[test]
fn join_nested() {
    assert_eq!(path_join("/home/user", "notes.txt"), "/home/user/notes.txt");
}

#[test]
fn parent_of_nested_path() {
    assert_eq!(path_parent("/home/user/notes.txt"), "/home/user");
    assert_eq!(path_parent("/home"), "/");
    assert_eq!(path_parent("/"), "/");
}

#[test]
fn file_name_of_path() {
    assert_eq!(path_file_name("/home/user/notes.txt"), "notes.txt");
    assert_eq!(path_file_name("notes.txt"), "notes.txt");
    assert_eq!(path_file_name("/notes.txt"), "notes.txt");
}

#[test]
fn root_detection() {
    assert!(path_is_root("/"));
    assert!(!path_is_root("/a"));
    assert!(!path_is_root(""));
}

#[test]
fn name_order_strips_one_leading_dot() {
    // ".bashrc" sorts with key "bashrc", right next to a plain "bashrc"
    assert_eq!(name_key(".bashrc"), "bashrc");
    assert_eq!(name_key("bashrc"), "bashrc");
    assert_eq!(name_key("..a"), ".a");
    assert!(str_le(name_key(".bashrc"), name_key("bashrc")));
    assert!(str_le(name_key("bashrc"), name_key(".bashrc")));
    assert!(str_le(name_key(".a"), name_key("b")));
}

#[test]
fn lexicographic_string_order() {
    assert!(str_le("abc", "abd"));
    assert!(!str_le("abd", "abc"));
    assert!(str_le("ab", "abc"));
    assert!(!str_le("abc", "ab"));
    assert!(str_le("", "a"));
    assert!(str_le("same", "same"));
}

#[test]
fn prefix_and_equality() {
    assert!(str_starts_with("banana", "ban"));
    assert!(!str_starts_with("banana", "bana0"));
    assert!(str_starts_with("banana", ""));
    assert!(!str_starts_with("ba", "ban"));
    assert!(str_eq("x", "x"));
    assert!(!str_eq("x", "y"));
    assert!(!str_eq("x", "xx"));
}

#[test]
fn decimal_rendering() {
    assert_eq!(u64_to_dec(0), "0");
    assert_eq!(u64_to_dec(7), "7");
    assert_eq!(u64_to_dec(105), "105");
    assert_eq!(u64_to_dec(u64::MAX), "18446744073709551615");
}
