//! Webview-facing pieces: the expression heuristic, call-id generation,
//! the click/fill script builders, and screenshot decoding.

use vstd::prelude::*;

use base64::Engine;

use crate::BridgeError;
use crate::hex::{hex32, is_hex_char, lemma_hex_seq_wf};
use crate::strutil::{
    contains_char, range_contains_char, range_starts_with, spec_starts_with, trim_bounds,
    trim_spec,
};

verus! {

/// Request to evaluate code in the sandboxed environment.
#[derive(Debug)]
pub struct EvalRequest {
    /// The code to run.
    pub js: String,
    /// Optional window label. Defaults to "main".
    pub window: Option<String>,
}

/// Request to click an element, addressed by `@ref` or CSS selector.
#[derive(Debug)]
pub struct ClickRequest {
    /// `@eN` snapshot reference or CSS selector.
    pub selector: String,
    /// Optional window label. Defaults to "main".
    pub window: Option<String>,
}

/// Request to fill an input element with text.
#[derive(Debug)]
pub struct FillRequest {
    /// `@eN` snapshot reference or CSS selector.
    pub selector: String,
    /// The text to fill in.
    pub text: String,
    /// Optional window label. Defaults to "main".
    pub window: Option<String>,
}

/// Whether trimmed code opens with a statement-introducing keyword, so that
/// it cannot be treated as a bare expression.
pub open spec fn statement_keyword_start(t: Seq<char>) -> bool {
    ||| spec_starts_with(t, "return "@)
    ||| spec_starts_with(t, "return;"@)
    ||| spec_starts_with(t, "const "@)
    ||| spec_starts_with(t, "let "@)
    ||| spec_starts_with(t, "var "@)
    ||| spec_starts_with(t, "if "@)
    ||| spec_starts_with(t, "if("@)
    ||| spec_starts_with(t, "for "@)
    ||| spec_starts_with(t, "for("@)
    ||| spec_starts_with(t, "while "@)
    ||| spec_starts_with(t, "while("@)
    ||| spec_starts_with(t, "switch "@)
    ||| spec_starts_with(t, "switch("@)
    ||| spec_starts_with(t, "throw "@)
    ||| spec_starts_with(t, "try "@)
    ||| spec_starts_with(t, "try{"@)
    ||| spec_starts_with(t, "class "@)
    ||| spec_starts_with(t, "function "@)
    ||| spec_starts_with(t, "async function"@)
}

/// The auto-`return` heuristic: code is a bare expression exactly when,
/// after trimming surrounding whitespace, it spans a single line and does
/// not open with a statement-introducing keyword. A convenience, not a
/// security boundary: multi-statement snippets must `return` explicitly.
pub open spec fn looks_like_expression_spec(code: Seq<char>) -> bool {
    let t = trim_spec(code);
    !contains_char(t, '\n') && !statement_keyword_start(t)
}

/// Detect whether code is a simple expression (no statements), so that its
/// value can be reported by an implicit `return`.
pub fn looks_like_expression(code: &str) -> (r: bool)
    ensures
        r == looks_like_expression_spec(code@),
{
    let (lo, hi) = trim_bounds(code);
    if range_contains_char(code, lo, hi, '\n') {
        return false;
    }
    let kw = range_starts_with(code, lo, hi, "return ")
        || range_starts_with(code, lo, hi, "return;")
        || range_starts_with(code, lo, hi, "const ")
        || range_starts_with(code, lo, hi, "let ")
        || range_starts_with(code, lo, hi, "var ")
        || range_starts_with(code, lo, hi, "if ")
        || range_starts_with(code, lo, hi, "if(")
        || range_starts_with(code, lo, hi, "for ")
        || range_starts_with(code, lo, hi, "for(")
        || range_starts_with(code, lo, hi, "while ")
        || range_starts_with(code, lo, hi, "while(")
        || range_starts_with(code, lo, hi, "switch ")
        || range_starts_with(code, lo, hi, "switch(")
        || range_starts_with(code, lo, hi, "throw ")
        || range_starts_with(code, lo, hi, "try ")
        || range_starts_with(code, lo, hi, "try{")
        || range_starts_with(code, lo, hi, "class ")
        || range_starts_with(code, lo, hi, "function ")
        || range_starts_with(code, lo, hi, "async function");
    !kw
}

/// Relies on `std::time::SystemTime::now` and `duration_since`: the clock
/// reading as nanoseconds since the Unix epoch, or 0 should the clock read
/// before the epoch. Nothing is assumed of the value.
#[verifier::external_body]
fn now_unix_nanos() -> u128 {
    match std::time::SystemTime::now().duration_since(std::time::UNIX_EPOCH) {
        Ok(d) => d.as_nanos(),
        Err(_) => 0,
    }
}

/// A fresh correlation id: the current time in nanoseconds as 32 hex
/// digits. Collision-free among in-flight calls as long as the clock does
/// not repeat a nanosecond reading.
pub fn uuid_v4() -> (r: String)
    ensures
        r@.len() == 32,
        forall|i: int| 0 <= i < r@.len() ==> is_hex_char(#[trigger] r@[i]),
{
    let t = now_unix_nanos();
    proof {
        lemma_hex_seq_wf(t as int, 32);
    }
    hex32(t)
}

/// The JSON string literal (quoted and escaped) for `s`.
pub uninterp spec fn json_quoted(s: Seq<char>) -> Seq<char>;

/// Relies on `serde_json::to_string` on a string slice: the JSON string
/// literal for `s`, a function of the characters alone. Serializing a
/// string slice into an in-memory buffer cannot fail.
#[verifier::external_body]
pub(crate) fn json_quote(s: &str) -> (r: String)
    ensures
        r@ == json_quoted(s@),
{
    match serde_json::to_string(s) {
        Ok(r) => r,
        Err(_) => String::new(),
    }
}

/// The decoded bytes of standard-alphabet base64 text, or `None` when the
/// text is not valid base64.
pub uninterp spec fn base64_standard_decoded(s: Seq<char>) -> Option<Seq<u8>>;

/// Relies on base64's `STANDARD` engine `decode`: the decoded bytes of
/// `s`, or `None` exactly when `s` is rejected; a function of the
/// characters alone.
#[verifier::external_body]
fn base64_decode(s: &str) -> (r: Option<Vec<u8>>)
    ensures
        match r {
            Some(v) => base64_standard_decoded(s@) == Some(v@),
            None => base64_standard_decoded(s@) is None,
        },
{
    match base64::engine::general_purpose::STANDARD.decode(s) {
        Ok(v) => Some(v),
        Err(_) => None,
    }
}

/// The data-URL prefix a canvas PNG export starts with.
pub open spec fn png_data_url_prefix() -> Seq<char> {
    "data:image/png;base64,"@
}

/// Extract the PNG bytes from a `data:image/png;base64,` URL, as the
/// screenshot path receives it from the sandbox.
pub fn screenshot_png_from_data_url(data_url: &str) -> (r: Result<Vec<u8>, BridgeError>)
    ensures
        match r {
            Ok(png) => {
                &&& spec_starts_with(data_url@, png_data_url_prefix())
                &&& base64_standard_decoded(
                    data_url@.skip(png_data_url_prefix().len() as int),
                ) == Some(png@)
            },
            Err(e) => {
                &&& !spec_starts_with(data_url@, png_data_url_prefix()) ==> (
                e matches BridgeError::Internal(d) && d@ == "unexpected screenshot format"@)
                &&& spec_starts_with(data_url@, png_data_url_prefix()) ==> {
                    &&& base64_standard_decoded(
                        data_url@.skip(png_data_url_prefix().len() as int),
                    ) is None
                    &&& e matches BridgeError::Internal(d) && d@ == "base64 decode failed"@
                }
            },
        },
{
    let n = data_url.unicode_len();
    let prefix = "data:image/png;base64,";
    let plen = prefix.unicode_len();
    proof {
        assert(data_url@.subrange(0, n as int) =~= data_url@);
    }
    if !range_starts_with(data_url, 0, n, prefix) {
        return Err(BridgeError::Internal(String::from_str("unexpected screenshot format")));
    }
    let rest = data_url.substring_char(plen, n);
    proof {
        assert(rest@ =~= data_url@.skip(png_data_url_prefix().len() as int));
    }
    match base64_decode(rest) {
        Some(png) => Ok(png),
        None => Err(BridgeError::Internal(String::from_str("base64 decode failed"))),
    }
}

/// The script a click request injects. An `@`-selector is resolved through
/// the snapshot ref attribute; anything else is a CSS selector, embedded
/// as a JSON string literal. Either way the element is scrolled into view
/// and clicked once.
pub open spec fn click_js_spec(sel: Seq<char>) -> Seq<char> {
    if sel.len() > 0 && sel[0] == '@' {
        "\n            const el = document.querySelector('[data-debug-ref=\""@ + sel.drop_first()
            + "\"]');\n            if (!el) throw new Error('Ref not found: "@ + sel
            + "');\n            el.scrollIntoView({block: 'center'});\n            el.click();\n            return true;\n            "@
    } else {
        "\n            const el = document.querySelector("@ + json_quoted(sel)
            + ");\n            if (!el) throw new Error('Element not found: "@ + sel
            + "');\n            el.scrollIntoView({block: 'center'});\n            el.click();\n            return true;\n            "@
    }
}

/// Build the script that clicks the element `sel` addresses.
pub fn click_js(sel: &str) -> (r: String)
    ensures
        r@ == click_js_spec(sel@),
{
    let n = sel.unicode_len();
    let mut s = String::new();
    if n > 0 && sel.get_char(0) == '@' {
        s.append("\n            const el = document.querySelector('[data-debug-ref=\"");
        let refname = sel.substring_char(1, n);
        proof {
            assert(refname@ =~= sel@.drop_first());
        }
        s.append(refname);
        s.append("\"]');\n            if (!el) throw new Error('Ref not found: ");
        s.append(sel);
        s.append("');\n            el.scrollIntoView({block: 'center'});\n            el.click();\n            return true;\n            ");
    } else {
        s.append("\n            const el = document.querySelector(");
        let quoted = json_quote(sel);
        s.append(quoted.as_str());
        s.append(");\n            if (!el) throw new Error('Element not found: ");
        s.append(sel);
        s.append("');\n            el.scrollIntoView({block: 'center'});\n            el.click();\n            return true;\n            ");
    }
    s
}

/// The script a fill request injects: the element is focused, its value
/// set to the JSON-encoded text, and `input` and `change` events are
/// dispatched so the application reacts as to real typing.
pub open spec fn fill_js_spec(sel: Seq<char>, text: Seq<char>) -> Seq<char> {
    if sel.len() > 0 && sel[0] == '@' {
        "\n            const el = document.querySelector('[data-debug-ref=\""@ + sel.drop_first()
            + "\"]');\n            if (!el) throw new Error('Ref not found: "@ + sel
            + "');\n            el.scrollIntoView({block: 'center'});\n            el.focus();\n            el.value = "@
            + json_quoted(text)
            + ";\n            el.dispatchEvent(new Event('input', {bubbles: true}));\n            el.dispatchEvent(new Event('change', {bubbles: true}));\n            return true;\n            "@
    } else {
        "\n            const el = document.querySelector("@ + json_quoted(sel)
            + ");\n            if (!el) throw new Error('Element not found: "@ + sel
            + "');\n            el.scrollIntoView({block: 'center'});\n            el.focus();\n            el.value = "@
            + json_quoted(text)
            + ";\n            el.dispatchEvent(new Event('input', {bubbles: true}));\n            el.dispatchEvent(new Event('change', {bubbles: true}));\n            return true;\n            "@
    }
}

/// Build the script that fills the element `sel` addresses with `text`.
pub fn fill_js(sel: &str, text: &str) -> (r: String)
    ensures
        r@ == fill_js_spec(sel@, text@),
{
    let n = sel.unicode_len();
    let quoted_text = json_quote(text);
    let mut s = String::new();
    if n > 0 && sel.get_char(0) == '@' {
        s.append("\n            const el = document.querySelector('[data-debug-ref=\"");
        let refname = sel.substring_char(1, n);
        proof {
            assert(refname@ =~= sel@.drop_first());
        }
        s.append(refname);
        s.append("\"]');\n            if (!el) throw new Error('Ref not found: ");
        s.append(sel);
        s.append("');\n            el.scrollIntoView({block: 'center'});\n            el.focus();\n            el.value = ");
    } else {
        s.append("\n            const el = document.querySelector(");
        let quoted_sel = json_quote(sel);
        s.append(quoted_sel.as_str());
        s.append(");\n            if (!el) throw new Error('Element not found: ");
        s.append(sel);
        s.append("');\n            el.scrollIntoView({block: 'center'});\n            el.focus();\n            el.value = ");
    }
    s.append(quoted_text.as_str());
    s.append(";\n            el.dispatchEvent(new Event('input', {bubbles: true}));\n            el.dispatchEvent(new Event('change', {bubbles: true}));\n            return true;\n            ");
    s
}

} // verus!
