use dotbackup::globs::{GlobPattern, is_ignored};

fn pat(s: &str) -> GlobPattern {
    GlobPattern::new(s).expect("pattern should compile")
}

#[test]
fn pattern_compiles_and_keeps_text() {
    let p = pat("*.bak");
    assert_eq!(p.as_text(), "*.bak");
}

#[test]
fn invalid_pattern_is_rejected() {
    assert!(GlobPattern::new("a[").is_err());
}

#[test]
fn wildcard_matches_name_not_identity() {
    // A wrapper that merely handed its argument back could never make
    // "*.bak" match "notes.bak" while refusing "notes.txt".
    let p = pat("*.bak");
    assert!(p.matches("notes.bak"));
    assert!(!p.matches("notes.txt"));
}

#[test]
fn question_mark_matches_single_char() {
    let p = pat("c?t");
    assert!(p.matches("cat"));
    assert!(!p.matches("cart"));
}

#[test]
fn is_ignored_any_pattern() {
    let pats = vec![pat("*.bak"), pat("node_modules")];
    assert!(is_ignored("x.bak", &pats));
    assert!(is_ignored("node_modules", &pats));
    assert!(!is_ignored("main.rs", &pats));
}

#[test]
fn is_ignored_empty_set() {
    let pats: Vec<GlobPattern> = vec![];
    assert!(!is_ignored("anything", &pats));
}
