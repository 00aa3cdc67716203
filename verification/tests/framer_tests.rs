use debug_bridge::backend::invoke_script;
use debug_bridge::framer::{frame_eval, frame_invoke};
use debug_bridge::webview::{
    click_js, fill_js, looks_like_expression, screenshot_png_from_data_url,
};
use debug_bridge::BridgeError;

#[test]
fn framing_twice_is_byte_identical() {
    let a = frame_eval("0123456789abcdef0123456789abcdef", "document.title");
    let b = frame_eval("0123456789abcdef0123456789abcdef", "document.title");
    assert_eq!(a, b);
    let c = frame_invoke("0123456789abcdef0123456789abcdef", "return 1;");
    let d = frame_invoke("0123456789abcdef0123456789abcdef", "return 1;");
    assert_eq!(c, d);
}

#[test]
fn bare_expression_gets_an_implicit_return() {
    assert!(looks_like_expression("1 + 1"));
    let js = frame_eval("id0", "1 + 1");
    assert!(js.contains("return (1 + 1)"));
}

#[test]
fn statement_is_passed_through_unmodified() {
    assert!(!looks_like_expression("if (true) { return 1 }"));
    let js = frame_eval("id0", "if (true) { return 1 }");
    assert!(js.contains("{ if (true) { return 1 } }"));
    assert!(!js.contains("return (if"));
}

#[test]
fn multi_line_code_is_passed_through_unmodified() {
    let code = "const x = 1;\nx + 1";
    assert!(!looks_like_expression(code));
    let js = frame_eval("id0", code);
    assert!(js.contains(code));
    assert!(!js.contains("return (const"));
}

#[test]
fn expression_heuristic_handles_whitespace_and_keywords() {
    assert!(looks_like_expression("  document.title  "));
    assert!(looks_like_expression("\n 1 + 1 \n"));
    assert!(!looks_like_expression("return 1;"));
    assert!(!looks_like_expression("  let x = 1"));
    assert!(!looks_like_expression("while(true) {}"));
    assert!(!looks_like_expression("async function f() {}"));
    // keywords must open the trimmed code, not merely occur in it
    assert!(looks_like_expression("myreturn + 1"));
    assert!(looks_like_expression("x.class + 1"));
}

#[test]
fn frame_reports_through_the_callback_exactly_once_per_path() {
    let js = frame_eval("feedcafefeedcafefeedcafefeedcafe", "1");
    // one success report and one failure report, each tagged with the id
    assert_eq!(js.matches("'plugin:debug-bridge|eval_callback'").count(), 2);
    assert_eq!(js.matches("{ id: 'feedcafefeedcafefeedcafefeedcafe', success: true").count(), 1);
    assert_eq!(js.matches("{ id: 'feedcafefeedcafefeedcafefeedcafe', success: false").count(), 1);
    assert!(js.contains("window.__TAURI_INTERNALS__.invoke"));
    let inv = frame_invoke("feedcafefeedcafefeedcafefeedcafe", "return 1;");
    assert!(inv.contains("window.__TAURI__.core.invoke"));
}

#[test]
fn click_by_ref_targets_the_marked_element_once() {
    let js = click_js("@e3");
    assert!(js.contains("[data-debug-ref=\"e3\"]"));
    assert!(js.contains("Ref not found: @e3"));
    assert_eq!(js.matches("el.click();").count(), 1);
}

#[test]
fn click_by_css_selector_quotes_it_as_json() {
    let js = click_js("button.primary");
    assert!(js.contains("document.querySelector(\"button.primary\")"));
    assert!(js.contains("Element not found: button.primary"));
}

#[test]
fn fill_encodes_the_text_as_json() {
    let js = fill_js("#name", "a\"b");
    // the quote inside the text arrives escaped, so the script stays intact
    assert!(js.contains("el.value = \"a\\\"b\";"));
    assert!(js.contains("document.querySelector(\"#name\")"));
    assert!(js.contains("new Event('input', {bubbles: true})"));
}

#[test]
fn fill_by_ref_uses_the_marker_attribute() {
    let js = fill_js("@e1", "hello");
    assert!(js.contains("[data-debug-ref=\"e1\"]"));
    assert!(js.contains("el.value = \"hello\";"));
}

#[test]
fn invoke_script_embeds_command_and_args() {
    let js = invoke_script("greet", "{\"name\":\"Ada\"}");
    assert!(js.contains("window.__TAURI__.core.invoke(\"greet\", {\"name\":\"Ada\"})"));
    assert!(js.contains("invoke failed"));
}

#[test]
fn screenshot_data_url_decodes_to_png_bytes() {
    let r = screenshot_png_from_data_url("data:image/png;base64,aGk=").unwrap();
    assert_eq!(r, b"hi".to_vec());
}

#[test]
fn screenshot_rejects_an_unexpected_format() {
    let r = screenshot_png_from_data_url("data:image/jpeg;base64,aGk=");
    assert!(matches!(r, Err(BridgeError::Internal(_))));
    assert_eq!(r.unwrap_err().detail(), "unexpected screenshot format");
}

#[test]
fn screenshot_rejects_invalid_base64() {
    let r = screenshot_png_from_data_url("data:image/png;base64,!!!");
    assert!(matches!(r, Err(BridgeError::Internal(_))));
    assert_eq!(r.unwrap_err().detail(), "base64 decode failed");
}
