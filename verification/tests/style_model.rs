use inkscape_manager::style::StyleComponent;
use inkscape_manager::style::all_params_present;
use inkscape_manager::style::fill_first_missing_vec;
use inkscape_manager::style::parse_style_list;
use inkscape_manager::style::style_payload_string;

fn comp(kind: &str, value: Option<&str>) -> StyleComponent {
    StyleComponent { kind: kind.to_string(), value: value.map(|v| v.to_string()) }
}

#[test]
fn parses_single_filled_component() {
    let cs = parse_style_list("fill:000");
    assert_eq!(cs.len(), 1);
    assert_eq!(cs[0].kind, "fill");
    assert_eq!(cs[0].value.as_deref(), Some("000"));
    assert!(!cs[0].missing_param());
}

#[test]
fn parses_missing_parameter_forms() {
    let cs = parse_style_list("fill");
    assert_eq!(cs.len(), 1);
    assert_eq!(cs[0].kind, "fill");
    assert!(cs[0].missing_param());

    let cs = parse_style_list("fill:");
    assert_eq!(cs.len(), 1);
    assert_eq!(cs[0].kind, "fill");
    assert!(cs[0].missing_param());
}

#[test]
fn parses_component_lists() {
    let cs = parse_style_list("fill:000;stroke:fff");
    assert_eq!(cs.len(), 2);
    assert_eq!(cs[0].kind, "fill");
    assert_eq!(cs[0].value.as_deref(), Some("000"));
    assert_eq!(cs[1].kind, "stroke");
    assert_eq!(cs[1].value.as_deref(), Some("fff"));

    // A trailing separator adds no component.
    let cs = parse_style_list("fill:000;");
    assert_eq!(cs.len(), 1);

    let cs = parse_style_list("");
    assert_eq!(cs.len(), 0);
}

#[test]
fn serializes_components_in_order() {
    let cs = vec![comp("fill", Some("000")), comp("stroke", Some("fff"))];
    assert_eq!(style_payload_string(&cs), "fill:000;stroke:fff");

    let cs = vec![comp("fill", Some("000"))];
    assert_eq!(style_payload_string(&cs), "fill:000");

    // A missing parameter serializes as the bare kind.
    let cs = vec![comp("fill", None)];
    assert_eq!(style_payload_string(&cs), "fill");

    let cs: Vec<StyleComponent> = vec![];
    assert_eq!(style_payload_string(&cs), "");
}

#[test]
fn parse_then_serialize_round_trips() {
    for text in ["fill:000", "fill", "fill:000;stroke:fff", "stroke-width:2;fill:abc"] {
        let cs = parse_style_list(text);
        assert_eq!(style_payload_string(&cs), *text);
    }
}

#[test]
fn fills_only_the_first_missing_parameter() {
    let cs = vec![comp("fill", None), comp("stroke", None), comp("opacity", Some("1"))];
    let filled = fill_first_missing_vec(&cs, "000");
    assert_eq!(style_payload_string(&filled), "fill:000;stroke;opacity:1");
    assert!(!all_params_present(&filled));

    // With exactly one parameter missing the result is complete.
    let cs = vec![comp("fill", None), comp("opacity", Some("1"))];
    let filled = fill_first_missing_vec(&cs, "000");
    assert!(all_params_present(&filled));
    assert_eq!(style_payload_string(&filled), "fill:000;opacity:1");

    // With nothing missing the components stay as authored.
    let cs = vec![comp("fill", Some("111"))];
    let filled = fill_first_missing_vec(&cs, "000");
    assert_eq!(style_payload_string(&filled), "fill:111");
}

#[test]
fn component_set_and_missing_param() {
    let c = comp("fill", None);
    assert!(c.missing_param());
    let c2 = c.set("0f0");
    assert!(!c2.missing_param());
    assert_eq!(c2.kind, "fill");
    assert_eq!(c2.value.as_deref(), Some("0f0"));
    // Setting replaces an already present parameter.
    let c3 = c2.set("abc");
    assert_eq!(c3.value.as_deref(), Some("abc"));
}
