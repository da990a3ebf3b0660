use inkscape_manager::window::is_inkscape;

#[test]
fn matches_target_class_case_insensitively() {
    assert!(is_inkscape("inkscape"));
    assert!(is_inkscape("Inkscape"));
    assert!(is_inkscape("INKSCAPE"));
    assert!(is_inkscape("org.inkscape.Inkscape"));
}

#[test]
fn rejects_other_classes() {
    assert!(!is_inkscape(""));
    assert!(!is_inkscape("firefox"));
    assert!(!is_inkscape("inkscap"));
    assert!(!is_inkscape("ink scape"));
}
