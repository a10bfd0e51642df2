use enkel::paths::{is_absolute, join, parent};

#[test]
fn absolute_paths_start_at_the_root() {
    assert!(is_absolute("/"));
    assert!(is_absolute("/res/apple.obj"));
    assert!(!is_absolute(""));
    assert!(!is_absolute("res/apple.obj"));
    assert!(!is_absolute("./res"));
}

#[test]
fn join_appends_relative_paths() {
    assert_eq!(join("/home/game", "res"), "/home/game/res");
    assert_eq!(join("/home/game/", "res"), "/home/game/res");
    assert_eq!(join("res", "apple/apple.obj"), "res/apple/apple.obj");
    assert_eq!(join("/", "res"), "/res");
}

#[test]
fn join_keeps_absolute_paths() {
    assert_eq!(join("/home/game", "/res"), "/res");
    assert_eq!(join("", "/res"), "/res");
}

#[test]
fn join_with_an_empty_side() {
    assert_eq!(join("", "res"), "res");
    assert_eq!(join("/home", ""), "/home/");
    assert_eq!(join("", ""), "");
}

#[test]
fn parent_is_what_precedes_the_last_separator() {
    assert_eq!(parent("res/apple/apple.obj"), Some("res/apple".to_string()));
    assert_eq!(parent("/res/apple.obj"), Some("/res".to_string()));
    assert_eq!(parent("/apple.obj"), Some("/".to_string()));
    assert_eq!(parent("apple.obj"), Some("".to_string()));
}

#[test]
fn root_and_empty_path_have_no_parent() {
    assert_eq!(parent("/"), None);
    assert_eq!(parent(""), None);
}

#[test]
fn parent_counts_characters_not_bytes() {
    assert_eq!(parent("mod\u{e8}les/\u{e4}pfel.obj"), Some("mod\u{e8}les".to_string()));
    assert_eq!(join("mod\u{e8}les", "\u{e4}pfel.obj"), "mod\u{e8}les/\u{e4}pfel.obj");
}

#[test]
fn paths_are_taken_as_written() {
    assert_eq!(parent("a/b/"), Some("a/b".to_string()));
    assert_eq!(parent("a//b"), Some("a/".to_string()));
    assert_eq!(parent("a/./b"), Some("a/.".to_string()));
    assert_eq!(parent("//"), Some("/".to_string()));
    assert_eq!(join("a//", "b/"), "a//b/");
    assert_eq!(join("a", "../b"), "a/../b");
}
