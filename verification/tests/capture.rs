use inkscape_manager::keybind::Action;
use inkscape_manager::keybind::Keybind;
use inkscape_manager::keybind::Keybinds;
use inkscape_manager::keys::Code;
use inkscape_manager::keys::KeyTable;
use inkscape_manager::machine::Directive;
use inkscape_manager::machine::Event;
use inkscape_manager::machine::State;
use inkscape_manager::machine::StepError;
use inkscape_manager::machine::step;
use inkscape_manager::style::parse_style_list;

const SCAN_A: u8 = 38;
const SCAN_B: u8 = 56;
const SCAN_Q: u8 = 24;
const SCAN_V: u8 = 55;
const SCAN_SUPER: u8 = 134;

fn fields(detail: u8) -> inkscape_manager::machine::KeyEventFields {
    inkscape_manager::machine::KeyEventFields {
        detail,
        time: 777,
        root: 1,
        event: 2,
        child: 3,
        root_x: 10,
        root_y: 11,
        event_x: 12,
        event_y: 13,
        state: 0,
        same_screen: true,
    }
}

fn table() -> Keybinds {
    let mut binds = Keybinds::new();
    binds.push(Keybind { key: Code::A, action: Action::Style { style: parse_style_list("fill") } });
    binds.push(Keybind { key: Code::B, action: Action::Style { style: parse_style_list("fill:000") } });
    binds.push(Keybind { key: Code::Q, action: Action::Rebind { rebind_to: Code::W } });
    binds.push(Keybind { key: Code::Z, action: Action::Rebind { rebind_to: Code::F13 } });
    binds.push(Keybind { key: Code::LeftSuper, action: Action::Style { style: parse_style_list("fill:f00") } });
    assert_eq!(binds.len(), 5);
    binds
}

fn payload_of(d: &Directive) -> Option<&str> {
    match d {
        Directive::Publish { payload } => Some(payload.as_str()),
        _ => None,
    }
}

#[test]
fn focus_change_grabs_and_ungrabs() {
    let keys = KeyTable::new();
    let binds = table();

    let (st, ds) = step(State::Idle, &Event::FocusChange { target_focused: true }, &binds, &keys).unwrap();
    assert!(matches!(st, State::Idle));
    assert_eq!(ds.len(), 1);
    assert!(matches!(ds[0], Directive::Grab));

    let (st, ds) = step(State::Idle, &Event::FocusChange { target_focused: false }, &binds, &keys).unwrap();
    assert!(matches!(st, State::Idle));
    assert_eq!(ds.len(), 1);
    assert!(matches!(ds[0], Directive::Ungrab));
}

#[test]
fn unbound_key_and_other_events_do_nothing() {
    let keys = KeyTable::new();
    let binds = table();

    let (st, ds) = step(State::Idle, &Event::KeyPress { fields: fields(SCAN_V) }, &binds, &keys).unwrap();
    assert!(matches!(st, State::Idle));
    assert!(ds.is_empty());

    let (st, ds) = step(State::Idle, &Event::Other, &binds, &keys).unwrap();
    assert!(matches!(st, State::Idle));
    assert!(ds.is_empty());
}

#[test]
fn rebind_injects_and_never_publishes() {
    let keys = KeyTable::new();
    let binds = table();

    let (st, ds) = step(State::Idle, &Event::KeyPress { fields: fields(SCAN_Q) }, &binds, &keys).unwrap();
    assert!(matches!(st, State::Idle));
    assert_eq!(ds.len(), 1);
    match &ds[0] {
        Directive::Inject { event } => {
            // The key is substituted, the modifier state and the spatial
            // and temporal fields are kept.
            assert_eq!(event.detail, keys.keycode("w").unwrap());
            assert_eq!(event.state, 0);
            assert_eq!(event.time, 777);
        }
        other => panic!("expected an inject directive, got {:?}", payload_of(other)),
    }
    assert!(ds.iter().all(|d| !matches!(d, Directive::Publish { .. })));
}

#[test]
fn rebind_to_codeless_key_is_fatal() {
    let keys = KeyTable::new();
    let binds = table();

    let r = step(State::Idle, &Event::KeyPress { fields: fields(52) }, &binds, &keys);
    // Scan code 52 is Z; its bind names F13, which has no scan code.
    assert_eq!(r.err(), Some(StepError::RebindTargetUnknown));
}

#[test]
fn complete_style_publishes_at_once() {
    let keys = KeyTable::new();
    let binds = table();

    let (st, ds) = step(State::Idle, &Event::KeyPress { fields: fields(SCAN_B) }, &binds, &keys).unwrap();
    // No second-press wait: the machine stays idle.
    assert!(matches!(st, State::Idle));
    assert_eq!(ds.len(), 2);
    assert_eq!(payload_of(&ds[0]), Some("fill:000"));
    match &ds[1] {
        Directive::Inject { event } => {
            assert_eq!(event.detail, SCAN_V);
            // Control and shift held for the paste stroke.
            assert_eq!(event.state, 5);
            assert_eq!(event.time, 777);
        }
        _ => panic!("expected the paste key stroke"),
    }
}

#[test]
fn missing_parameter_waits_then_second_press_fills() {
    let keys = KeyTable::new();
    let binds = table();

    let (st, ds) = step(State::Idle, &Event::KeyPress { fields: fields(SCAN_A) }, &binds, &keys).unwrap();
    assert!(ds.is_empty());
    assert!(matches!(st, State::AwaitingSecondKey { .. }));

    // The second press resolves to the single, fully specified component
    // of the style bound to `b`; its value fills the missing slot.
    let (st, ds) = step(st, &Event::KeyPress { fields: fields(SCAN_B) }, &binds, &keys).unwrap();
    assert!(matches!(st, State::Idle));
    assert_eq!(ds.len(), 2);
    assert_eq!(payload_of(&ds[0]), Some("fill:000"));
    assert!(matches!(ds[1], Directive::Inject { .. }));
}

#[test]
fn non_matching_event_finalizes_unfilled() {
    let keys = KeyTable::new();
    let binds = table();

    let (st, _) = step(State::Idle, &Event::KeyPress { fields: fields(SCAN_A) }, &binds, &keys).unwrap();
    assert!(matches!(st, State::AwaitingSecondKey { .. }));

    // A focus change is consumed as the second event: the capture still
    // terminates and publishes the style with the parameter unfilled.
    let (st, ds) = step(st, &Event::FocusChange { target_focused: false }, &binds, &keys).unwrap();
    assert!(matches!(st, State::Idle));
    assert_eq!(ds.len(), 2);
    assert_eq!(payload_of(&ds[0]), Some("fill"));
    assert!(matches!(ds[1], Directive::Inject { .. }));
}

#[test]
fn second_press_on_rebind_or_unbound_key_leaves_parameter_unfilled() {
    let keys = KeyTable::new();
    let binds = table();

    // A second press bound to a rebind action supplies nothing.
    let (st, _) = step(State::Idle, &Event::KeyPress { fields: fields(SCAN_A) }, &binds, &keys).unwrap();
    let (_, ds) = step(st, &Event::KeyPress { fields: fields(SCAN_Q) }, &binds, &keys).unwrap();
    assert_eq!(payload_of(&ds[0]), Some("fill"));

    // So does one with no bind at all.
    let (st, _) = step(State::Idle, &Event::KeyPress { fields: fields(SCAN_A) }, &binds, &keys).unwrap();
    let (_, ds) = step(st, &Event::KeyPress { fields: fields(SCAN_V) }, &binds, &keys).unwrap();
    assert_eq!(payload_of(&ds[0]), Some("fill"));

    // And so does a second style action that is itself still missing its
    // parameter.
    let (st, _) = step(State::Idle, &Event::KeyPress { fields: fields(SCAN_A) }, &binds, &keys).unwrap();
    let (_, ds) = step(st, &Event::KeyPress { fields: fields(SCAN_A) }, &binds, &keys).unwrap();
    assert_eq!(payload_of(&ds[0]), Some("fill"));
}

#[test]
fn sentinel_always_ungrabs_despite_its_bind() {
    let keys = KeyTable::new();
    let binds = table();

    // The table binds the sentinel key to a style action; the sentinel
    // still only releases the grab, and nothing is published.
    let (st, ds) = step(State::Idle, &Event::KeyPress { fields: fields(SCAN_SUPER) }, &binds, &keys).unwrap();
    assert!(matches!(st, State::Idle));
    assert_eq!(ds.len(), 1);
    assert!(matches!(ds[0], Directive::Ungrab));
}

#[test]
fn style_publishes_exactly_once_per_capture() {
    let keys = KeyTable::new();
    let binds = table();

    let count_publishes = |ds: &Vec<Directive>| {
        ds.iter().filter(|d| matches!(d, Directive::Publish { .. })).count()
    };

    // Immediate capture: one publish.
    let (_, ds) = step(State::Idle, &Event::KeyPress { fields: fields(SCAN_B) }, &binds, &keys).unwrap();
    assert_eq!(count_publishes(&ds), 1);

    // Two-phase capture: no publish on the first press, exactly one on
    // the second event.
    let (st, ds) = step(State::Idle, &Event::KeyPress { fields: fields(SCAN_A) }, &binds, &keys).unwrap();
    assert_eq!(count_publishes(&ds), 0);
    let (_, ds) = step(st, &Event::Other, &binds, &keys).unwrap();
    assert_eq!(count_publishes(&ds), 1);

    // A rebind never publishes.
    let (_, ds) = step(State::Idle, &Event::KeyPress { fields: fields(SCAN_Q) }, &binds, &keys).unwrap();
    assert_eq!(count_publishes(&ds), 0);
}
