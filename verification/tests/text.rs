use voiceintel::text::str_eq;

#[test]
fn equal_strings_compare_equal() {
    assert!(str_eq("", ""));
    assert!(str_eq("a", "a"));
    assert!(str_eq("start-recording", "start-recording"));
}

#[test]
fn different_strings_compare_unequal() {
    assert!(!str_eq("a", "b"));
    assert!(!str_eq("a", "ab"));
    assert!(!str_eq("ab", "a"));
    assert!(!str_eq("enter_compact_mode", "exit_compact_mode"));
}

#[test]
fn comparison_is_by_characters_not_bytes() {
    assert!(str_eq("fenêtre", "fenêtre"));
    assert!(!str_eq("fenêtre", "fenetre"));
}
