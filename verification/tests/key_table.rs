use inkscape_manager::keys::Code;
use inkscape_manager::keys::KeyTable;

#[test]
fn known_codes_translate() {
    let t = KeyTable::new();
    assert_eq!(t.code(9), Some(Code::Escape));
    assert_eq!(t.code(24), Some(Code::Q));
    assert_eq!(t.code(38), Some(Code::A));
    assert_eq!(t.code(55), Some(Code::V));
    assert_eq!(t.code(134), Some(Code::LeftSuper));
    assert_eq!(t.code(146), Some(Code::Help));
}

#[test]
fn unassigned_codes_are_unknown() {
    let t = KeyTable::new();
    assert_eq!(t.code(0), Some(Code::Unknown));
    assert_eq!(t.code(8), Some(Code::Unknown));
    assert_eq!(t.code(92), Some(Code::Unknown));
    assert_eq!(t.code(147), Some(Code::Unknown));
    assert_eq!(t.code(200), Some(Code::Unknown));
    assert_eq!(t.code(255), Some(Code::Unknown));
}

#[test]
fn reverse_lookup_finds_assigned_codes() {
    let t = KeyTable::new();
    assert_eq!(t.key_to_code(Code::Escape), Some(9));
    assert_eq!(t.key_to_code(Code::V), Some(55));
    assert_eq!(t.key_to_code(Code::LeftSuper), Some(134));
    // Keys the table never mentions have no scan code.
    assert_eq!(t.key_to_code(Code::F13), None);
    assert_eq!(t.key_to_code(Code::Backslash), None);
}

#[test]
fn round_trip_holds_on_every_assigned_code() {
    let t = KeyTable::new();
    for raw in 0..=255u8 {
        let key = t.code(raw).unwrap();
        if key != Code::Unknown {
            assert_eq!(t.key_to_code(key), Some(raw));
        }
    }
}

#[test]
fn names_parse_to_keys() {
    assert_eq!(Code::from_name("a"), Some(Code::A));
    assert_eq!(Code::from_name("q"), Some(Code::Q));
    assert_eq!(Code::from_name("n1"), Some(Code::N1));
    assert_eq!(Code::from_name("ctrl"), Some(Code::LeftCtrl));
    assert_eq!(Code::from_name("shift"), Some(Code::LeftShift));
    assert_eq!(Code::from_name("left_super"), Some(Code::LeftSuper));
    assert_eq!(Code::from_name("kp_multiply"), Some(Code::KP_Multiply));
    assert_eq!(Code::from_name("escape"), Some(Code::Escape));
    assert_eq!(Code::from_name(""), None);
    assert_eq!(Code::from_name("A"), None);
    assert_eq!(Code::from_name("not_a_key"), None);
}

#[test]
fn keycode_resolves_names_to_scan_codes() {
    let t = KeyTable::new();
    assert_eq!(t.keycode("v"), Some(55));
    assert_eq!(t.keycode("a"), Some(38));
    assert_eq!(t.keycode("q"), Some(24));
    assert_eq!(t.keycode("ctrl"), Some(37));
    assert_eq!(t.keycode("shift"), Some(50));
    // A valid key name without an assigned scan code resolves to nothing.
    assert_eq!(t.keycode("f13"), None);
    // An unknown name resolves to nothing.
    assert_eq!(t.keycode("zz"), None);
}
