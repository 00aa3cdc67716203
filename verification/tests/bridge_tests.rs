use debug_bridge::bridge::BridgeState;
use debug_bridge::registry::CorrelationRegistry;
use debug_bridge::{BridgeError, EvalResult};

fn outcome(success: bool, value: Option<&str>, error: Option<&str>) -> EvalResult {
    EvalResult {
        success,
        value: value.map(|s| s.to_string()),
        error: error.map(|s| s.to_string()),
    }
}

#[test]
fn resolve_then_evict_is_exclusive() {
    let mut reg = CorrelationRegistry::new();
    assert!(reg.register("id1".to_string()));
    assert!(reg.resolve("id1", outcome(true, Some("1"), None)));
    // eviction after resolution reports a benign no-op
    assert!(!reg.evict("id1"));
    assert!(!reg.contains("id1"));
}

#[test]
fn evict_then_resolve_is_exclusive() {
    let mut reg = CorrelationRegistry::new();
    assert!(reg.register("id1".to_string()));
    assert!(reg.evict("id1"));
    // a late callback reports a benign no-op
    assert!(!reg.resolve("id1", outcome(true, Some("1"), None)));
    assert!(!reg.contains("id1"));
}

#[test]
fn double_resolution_is_a_no_op() {
    let mut reg = CorrelationRegistry::new();
    assert!(reg.register("id1".to_string()));
    assert!(reg.resolve("id1", outcome(true, Some("1"), None)));
    assert!(!reg.resolve("id1", outcome(true, Some("2"), None)));
    let got = reg.take_delivered("id1").expect("first outcome is kept");
    assert_eq!(got.value.as_deref(), Some("1"));
}

#[test]
fn register_rejects_a_colliding_id() {
    let mut reg = CorrelationRegistry::new();
    assert!(reg.register("id1".to_string()));
    assert!(!reg.register("id1".to_string()));
    assert_eq!(reg.len(), 1);
}

#[test]
fn timeout_evicts_and_late_callback_leaves_others_alone() {
    let mut bs = BridgeState::new();
    bs.begin_eval_call("a".repeat(32), "1 + 1").unwrap();
    bs.begin_eval_call("b".repeat(32), "2 + 2").unwrap();

    // the first call's deadline passes
    let e = bs.timeout_call(&"a".repeat(32), "eval timed out after 10s".to_string());
    assert!(matches!(e, BridgeError::Timeout(_)));
    assert_eq!(e.status_code(), 504);

    // the late callback for the evicted id is discarded
    assert!(!bs.eval_callback(&"a".repeat(32), true, Some("\"late\"".to_string()), None));
    assert!(bs.take_outcome(&"a".repeat(32)).is_none());

    // the other pending call is untouched and resolves normally
    assert!(bs.eval_callback(&"b".repeat(32), true, Some("4".to_string()), None));
    let got = bs.take_outcome(&"b".repeat(32)).expect("second call resolves");
    assert!(got.success);
    assert_eq!(got.value.as_deref(), Some("4"));
}

#[test]
fn call_returns_the_document_title() {
    let mut bs = BridgeState::new();
    let id = debug_bridge::webview::uuid_v4();
    let js = bs.begin_eval_call(id.clone(), "document.title").unwrap();
    assert!(js.contains("return (document.title)"));
    assert!(js.contains(&id));

    // the sandbox reports the title through the callback channel
    assert!(bs.eval_callback(&id, true, Some("\"Demo\"".to_string()), None));
    let got = bs.take_outcome(&id).expect("callback delivered");
    assert!(got.success);
    assert_eq!(got.value.as_deref(), Some("\"Demo\""));
    assert!(got.error.is_none());
}

#[test]
fn call_surfaces_a_sandbox_failure_as_an_outcome() {
    let mut bs = BridgeState::new();
    let id = debug_bridge::webview::uuid_v4();
    bs.begin_eval_call(id.clone(), "throw new Error('x')").unwrap();
    assert!(bs.eval_callback(&id, false, None, Some("Error: x".to_string())));
    let got = bs.take_outcome(&id).expect("callback delivered");
    assert!(!got.success);
    assert!(got.error.as_deref().unwrap().contains("x"));
}

#[test]
fn injection_failure_evicts_immediately() {
    let mut bs = BridgeState::new();
    let id = "c".repeat(32);
    bs.begin_eval_call(id.clone(), "1").unwrap();
    let e = bs.fail_injection(&id, "window 'main' not found".to_string());
    assert!(matches!(e, BridgeError::InjectionFailed(_)));
    assert_eq!(e.status_code(), 500);
    assert!(!bs.eval_callback(&id, true, Some("1".to_string()), None));
}

#[test]
fn begin_call_rejects_an_inflight_id() {
    let mut bs = BridgeState::new();
    let id = "d".repeat(32);
    assert!(bs.begin_eval_call(id.clone(), "1").is_ok());
    let second = bs.begin_eval_call(id.clone(), "2");
    assert!(matches!(second, Err(BridgeError::Internal(_))));
}

#[test]
fn error_categories_are_stable() {
    assert_eq!(BridgeError::WindowNotFound("w".into()).status_code(), 404);
    assert_eq!(BridgeError::InjectionFailed("e".into()).status_code(), 500);
    assert_eq!(BridgeError::Internal("e".into()).status_code(), 500);
    assert_eq!(BridgeError::Timeout("t".into()).status_code(), 504);
    assert_eq!(BridgeError::Unauthorized.status_code(), 401);
    assert_eq!(BridgeError::MalformedInput("m".into()).status_code(), 400);
    assert_eq!(BridgeError::NotImplemented("n".into()).status_code(), 501);
    assert_eq!(BridgeError::Unauthorized.detail(), "unauthorized");
    assert_eq!(BridgeError::Timeout("eval timed out after 10s".into()).detail(), "eval timed out after 10s");
}

#[test]
fn outcome_constructors_are_consistent() {
    let ok = EvalResult::ok(Some("5".to_string()));
    assert!(ok.success);
    assert_eq!(ok.value.as_deref(), Some("5"));
    assert!(ok.error.is_none());
    let failed = EvalResult::failed("boom".to_string());
    assert!(!failed.success);
    assert!(failed.value.is_none());
    assert_eq!(failed.error.as_deref(), Some("boom"));
}
