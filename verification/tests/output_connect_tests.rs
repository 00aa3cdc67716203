use debug_bridge::backend::{commands, invoke_script, state_note};
use debug_bridge::connect::{discovery_fields, resolve_connection};
use debug_bridge::events::list;
use debug_bridge::output::{format_scalar, json_text, render_value, Format, JsonValue};
use debug_bridge::{BridgeError, Config};

fn obj(members: Vec<(&str, JsonValue)>) -> JsonValue {
    JsonValue::Object(members.into_iter().map(|(k, v)| (k.to_string(), v)).collect())
}

#[test]
fn text_format_renders_indented_lines() {
    let v = obj(vec![
        ("a", JsonValue::Number("1".to_string())),
        ("b", obj(vec![("c", JsonValue::String("x".to_string()))])),
    ]);
    let r = render_value(&v, 0);
    assert_eq!(r, "a: 1\nb:\n  c: x\n");
}

#[test]
fn text_format_renders_arrays_with_blank_lines_at_top_level() {
    let v = JsonValue::Array(vec![
        JsonValue::String("one".to_string()),
        JsonValue::String("two".to_string()),
    ]);
    let r = render_value(&v, 0);
    assert_eq!(r, "one\n\ntwo\n\n");
}

#[test]
fn scalars_render_bare() {
    assert_eq!(format_scalar(&JsonValue::Null), "null");
    assert_eq!(format_scalar(&JsonValue::Bool(true)), "true");
    assert_eq!(format_scalar(&JsonValue::Bool(false)), "false");
    assert_eq!(format_scalar(&JsonValue::Number("3".to_string())), "3");
    assert_eq!(format_scalar(&JsonValue::String("hey".to_string())), "hey");
}

#[test]
fn compact_json_text_matches_the_standard_encoding() {
    let v = obj(vec![
        ("s", JsonValue::String("a\"b".to_string())),
        ("l", JsonValue::Array(vec![JsonValue::Null, JsonValue::Bool(true)])),
    ]);
    assert_eq!(json_text(&v), "{\"s\":\"a\\\"b\",\"l\":[null,true]}");
}

#[test]
fn format_labels() {
    assert_eq!(Format::Text.label(), "text");
    assert_eq!(Format::Json.label(), "json");
}

#[test]
fn explicit_token_selects_manual_mode() {
    let r = resolve_connection(None, Some("tok".to_string()), None, None, 0, None).unwrap();
    assert_eq!(r, (9229, Some("tok".to_string())));
    let r2 = resolve_connection(Some(7000), Some("tok".to_string()), None, None, 5, None).unwrap();
    assert_eq!(r2.0, 7000);
}

#[test]
fn requested_app_uses_its_discovery_file() {
    let r = resolve_connection(
        None,
        None,
        Some("demo".to_string()),
        Some((4123, "t0k".to_string())),
        0,
        None,
    )
    .unwrap();
    assert_eq!(r, (4123, Some("t0k".to_string())));
}

#[test]
fn requested_app_without_discovery_file_is_an_error() {
    let r = resolve_connection(None, None, Some("demo".to_string()), None, 0, None);
    assert_eq!(r.unwrap_err(), "no discovery file for app 'demo'");
}

#[test]
fn single_discovered_app_is_used() {
    let r = resolve_connection(None, None, None, None, 1, Some((5555, "tk".to_string()))).unwrap();
    assert_eq!(r, (5555, Some("tk".to_string())));
    // an explicit port overrides the discovered one
    let r2 = resolve_connection(Some(6000), None, None, None, 1, Some((5555, "tk".to_string())))
        .unwrap();
    assert_eq!(r2.0, 6000);
}

#[test]
fn multiple_discovered_apps_demand_a_choice() {
    let r = resolve_connection(None, None, None, None, 2, None);
    assert_eq!(r.unwrap_err(), "multiple apps running - specify --app <identifier>");
}

#[test]
fn no_discovery_falls_back_to_defaults() {
    let r = resolve_connection(None, None, None, None, 0, None).unwrap();
    assert_eq!(r, (9229, None));
}

#[test]
fn discovery_fields_need_both_port_and_token() {
    assert_eq!(discovery_fields(Some(4123), Some("t".to_string())), Some((4123, "t".to_string())));
    assert_eq!(discovery_fields(None, Some("t".to_string())), None);
    assert_eq!(discovery_fields(Some(1), None), None);
}

#[test]
fn event_listing_is_not_implemented() {
    let r = list();
    assert!(matches!(r, Err(BridgeError::NotImplemented(_))));
    assert_eq!(r.unwrap_err().status_code(), 501);
}

#[test]
fn command_listing_is_empty() {
    assert!(commands().is_empty());
}

#[test]
fn state_note_mentions_integration() {
    assert!(state_note().contains("state inspection requires app integration"));
}

#[test]
fn config_defaults_to_the_standard_port() {
    let c = Config::default();
    assert_eq!(c.effective_port(), 9229);
    let c2 = Config { port: Some(1234) };
    assert_eq!(c2.effective_port(), 1234);
}

#[test]
fn invoke_script_survives_odd_command_names() {
    let js = invoke_script("we\"ird", "{}");
    assert!(js.contains("invoke(\"we\\\"ird\", {})"));
}
