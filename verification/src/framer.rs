//! The injection framer: wraps caller-supplied code so that, whatever the
//! code does, the sandbox reports its outcome through the one callback
//! primitive exactly once.
//!
//! The wrapper runs the code inside an async immediately-invoked function,
//! so asynchronous user code is awaited before the outcome is reported;
//! on completion it invokes the host callback with `{id, success: true,
//! value, error: null}`, and on any thrown or rejected failure with
//! `{id, success: false, value: null, error}` — a try/catch guarantees one
//! callback per frame. Bare single-line expressions get an implicit
//! `return`; everything else passes through unmodified and must `return`
//! its own value.

use vstd::prelude::*;

use crate::webview::{looks_like_expression, looks_like_expression_spec};

verus! {

/// The callback route used by code injected through the eval path.
pub open spec fn eval_callback_api() -> Seq<char> {
    "window.__TAURI_INTERNALS__.invoke"@
}

/// The callback route used by code injected through the command-invoke
/// path, where the full host API object is available.
pub open spec fn invoke_callback_api() -> Seq<char> {
    "window.__TAURI__.core.invoke"@
}

/// The wrapped script for callback route `api`, call id `id` and code
/// body `body`: an async wrapper that reports the body's outcome, tagged
/// with `id`, exactly once.
pub open spec fn wrapped_js(api: Seq<char>, id: Seq<char>, body: Seq<char>) -> Seq<char> {
    "(async () => {\n            try {\n                const __result = await (async () => { "@
        + body + " })();\n                await "@ + api
        + "(\n                    'plugin:debug-bridge|eval_callback',\n                    { id: '"@
        + id
        + "', success: true, value: __result, error: null }\n                );\n            } catch(__e) {\n                await "@
        + api
        + "(\n                    'plugin:debug-bridge|eval_callback',\n                    { id: '"@
        + id
        + "', success: false, value: null, error: __e.toString() }\n                );\n            }\n        })()"@
}

/// The body the eval path frames: a bare expression gains an implicit
/// `return`, anything else passes through unmodified.
pub open spec fn framed_body(code: Seq<char>) -> Seq<char> {
    if looks_like_expression_spec(code) {
        "return ("@ + code + ")"@
    } else {
        code
    }
}

/// What the eval path injects for call id `id` and user code `code`.
pub open spec fn frame_eval_spec(id: Seq<char>, code: Seq<char>) -> Seq<char> {
    wrapped_js(eval_callback_api(), id, framed_body(code))
}

/// What the command-invoke path injects for call id `id` and the invoke
/// script `code` (the invoke script is never a bare expression, so no
/// heuristic applies).
pub open spec fn frame_invoke_spec(id: Seq<char>, code: Seq<char>) -> Seq<char> {
    wrapped_js(invoke_callback_api(), id, code)
}

fn build_wrapped(api: &str, id: &str, body: &str) -> (r: String)
    ensures
        r@ == wrapped_js(api@, id@, body@),
{
    let mut s = String::new();
    s.append("(async () => {\n            try {\n                const __result = await (async () => { ");
    s.append(body);
    s.append(" })();\n                await ");
    s.append(api);
    s.append("(\n                    'plugin:debug-bridge|eval_callback',\n                    { id: '");
    s.append(id);
    s.append("', success: true, value: __result, error: null }\n                );\n            } catch(__e) {\n                await ");
    s.append(api);
    s.append("(\n                    'plugin:debug-bridge|eval_callback',\n                    { id: '");
    s.append(id);
    s.append("', success: false, value: null, error: __e.toString() }\n                );\n            }\n        })()");
    s
}

/// Frame user code for the eval path: wrap it so its outcome comes back
/// through the callback tagged with `id`, adding an implicit `return` when
/// the code is a bare expression.
pub fn frame_eval(id: &str, code: &str) -> (r: String)
    ensures
        r@ == frame_eval_spec(id@, code@),
{
    if looks_like_expression(code) {
        let mut body = String::new();
        body.append("return (");
        body.append(code);
        body.append(")");
        build_wrapped("window.__TAURI_INTERNALS__.invoke", id, body.as_str())
    } else {
        build_wrapped("window.__TAURI_INTERNALS__.invoke", id, code)
    }
}

/// Frame an invoke script: as `frame_eval`, but reporting through the full
/// host API object and with no expression heuristic.
pub fn frame_invoke(id: &str, code: &str) -> (r: String)
    ensures
        r@ == frame_invoke_spec(id@, code@),
{
    build_wrapped("window.__TAURI__.core.invoke", id, code)
}

/// Framing is a pure function of the `(id, code)` pair: two framings of
/// the same pair yield character-identical wrapped output.
pub proof fn lemma_framing_deterministic(
    id: Seq<char>,
    code: Seq<char>,
    r1: Seq<char>,
    r2: Seq<char>,
)
    requires
        r1 == frame_eval_spec(id, code),
        r2 == frame_eval_spec(id, code),
    ensures
        r1 == r2,
{
}

} // verus!
