use dotbackup::paths::{expanduser, is_under_root, join_path, map_path, parent_of, str_eq, str_starts_with};

#[test]
fn expanduser_tilde_alone_is_home() {
    assert_eq!(expanduser("~", "/home/u"), "/home/u");
}

#[test]
fn expanduser_tilde_slash_joins_home() {
    assert_eq!(expanduser("~/.vimrc", "/home/u"), "/home/u/.vimrc");
}

#[test]
fn expanduser_nested_path() {
    assert_eq!(expanduser("~/.config/app/conf.toml", "/home/u"), "/home/u/.config/app/conf.toml");
}

#[test]
fn expanduser_absolute_path_unchanged() {
    assert_eq!(expanduser("/etc/passwd", "/home/u"), "/etc/passwd");
}

#[test]
fn expanduser_inner_tilde_unchanged() {
    assert_eq!(expanduser("/data/~/x", "/home/u"), "/data/~/x");
}

#[test]
fn join_path_concatenates_with_slash() {
    assert_eq!(join_path("/a/b", "c.txt"), "/a/b/c.txt");
}

#[test]
fn under_root_exact_and_strict() {
    assert!(is_under_root("/home/u", "/home/u"));
    assert!(is_under_root("/home/u", "/home/u/.vimrc"));
    assert!(!is_under_root("/home/u", "/etc/passwd"));
}

#[test]
fn under_root_respects_component_boundary() {
    assert!(!is_under_root("/home/u", "/home/uu/.vimrc"));
}

#[test]
fn map_path_swaps_root() {
    assert_eq!(map_path("/backup", "/home/u", "/home/u/.config/a"), "/backup/.config/a");
}

#[test]
fn map_path_round_trip_restores() {
    let live = "/home/u/.vimrc";
    let archived = map_path("/backup", "/home/u", live);
    assert_eq!(archived, "/backup/.vimrc");
    let restored = map_path("/home/u", "/backup", &archived);
    assert_eq!(restored, live);
}

#[test]
fn parent_of_cases() {
    assert_eq!(parent_of("/a/b/c"), Some("/a/b".to_string()));
    assert_eq!(parent_of("/a"), Some("/".to_string()));
    assert_eq!(parent_of("nofileslash"), None);
}

#[test]
fn str_helpers() {
    assert!(str_eq("abc", "abc"));
    assert!(!str_eq("abc", "abd"));
    assert!(str_starts_with("abcdef", "abc"));
    assert!(!str_starts_with("ab", "abc"));
}
