//! Output formatting for the controller front end: the output format
//! selector, a plain model of JSON values, and the text renderer that
//! turns one into indented lines.

use vstd::prelude::*;

use crate::webview::{json_quote, json_quoted};

verus! {

/// Output format for controller responses.
#[derive(Clone, Copy, PartialEq, Eq, Structural, Debug)]
pub enum Format {
    /// Human-readable text.
    Text,
    /// JSON output for programmatic consumption.
    Json,
}

impl Format {
    /// The format's name, as shown in help text.
    pub fn label(&self) -> (r: &'static str)
        ensures
            self is Text ==> r@ == "text"@,
            self is Json ==> r@ == "json"@,
    {
        match self {
            Format::Text => "text",
            Format::Json => "json",
        }
    }
}

/// A JSON value, held as plain data: a number keeps its literal text, an
/// object its members in order.
pub enum JsonValue {
    /// JSON `null`.
    Null,
    /// A boolean.
    Bool(bool),
    /// A number, as its literal text.
    Number(String),
    /// A string.
    String(String),
    /// An array.
    Array(Vec<JsonValue>),
    /// An object: members in order.
    Object(Vec<(String, JsonValue)>),
}

/// Nodes of a JSON value; bounds the renderer's indentation depth.
pub open spec fn json_size(v: JsonValue) -> nat
    decreases v, 1int,
{
    match v {
        JsonValue::Array(items) => 1 + json_sizes(items@),
        JsonValue::Object(members) => 1 + json_member_sizes(members@),
        _ => 1,
    }
}

/// Nodes of a sequence of JSON values.
pub open spec fn json_sizes(s: Seq<JsonValue>) -> nat
    decreases s, 0int,
{
    if s.len() == 0 {
        0
    } else {
        json_size(s.first()) + json_sizes(s.drop_first())
    }
}

/// Nodes of a sequence of object members.
pub open spec fn json_member_sizes(s: Seq<(String, JsonValue)>) -> nat
    decreases s, 0int,
{
    if s.len() == 0 {
        0
    } else {
        json_size(s.first().1) + json_member_sizes(s.drop_first())
    }
}

/// The compact JSON text of a value: no spaces, members in order,
/// strings and keys as JSON string literals.
pub open spec fn json_text_spec(v: JsonValue) -> Seq<char>
    decreases v, 1int,
{
    match v {
        JsonValue::Null => "null"@,
        JsonValue::Bool(b) => if b {
            "true"@
        } else {
            "false"@
        },
        JsonValue::Number(n) => n@,
        JsonValue::String(s) => json_quoted(s@),
        JsonValue::Array(items) => "["@ + json_items_text_spec(items@) + "]"@,
        JsonValue::Object(members) => "{"@ + json_members_text_spec(members@) + "}"@,
    }
}

/// The comma-separated compact text of array items.
pub open spec fn json_items_text_spec(s: Seq<JsonValue>) -> Seq<char>
    decreases s, 0int,
{
    if s.len() == 0 {
        Seq::empty()
    } else if s.len() == 1 {
        json_text_spec(s.first())
    } else {
        json_text_spec(s.first()) + ","@ + json_items_text_spec(s.drop_first())
    }
}

/// The comma-separated compact text of object members.
pub open spec fn json_members_text_spec(s: Seq<(String, JsonValue)>) -> Seq<char>
    decreases s, 0int,
{
    if s.len() == 0 {
        Seq::empty()
    } else {
        let head = json_quoted(s.first().0@) + ":"@ + json_text_spec(s.first().1);
        if s.len() == 1 {
            head
        } else {
            head + ","@ + json_members_text_spec(s.drop_first())
        }
    }
}

/// The compact JSON text of `v`.
pub fn json_text(v: &JsonValue) -> (r: String)
    ensures
        r@ == json_text_spec(*v),
    decreases *v, 1int, 0int,
{
    match v {
        JsonValue::Null => String::from_str("null"),
        JsonValue::Bool(b) => {
            if *b {
                String::from_str("true")
            } else {
                String::from_str("false")
            }
        },
        JsonValue::Number(n) => n.clone(),
        JsonValue::String(s) => json_quote(s.as_str()),
        JsonValue::Array(items) => {
            proof {
                assert(items@.skip(0) =~= items@);
            }
            let mut s = String::new();
            s.append("[");
            let inner = json_items_text(items, 0);
            s.append(inner.as_str());
            s.append("]");
            s
        },
        JsonValue::Object(members) => {
            proof {
                assert(members@.skip(0) =~= members@);
            }
            let mut s = String::new();
            s.append("{");
            let inner = json_members_text(members, 0);
            s.append(inner.as_str());
            s.append("}");
            s
        },
    }
}

fn json_items_text(items: &Vec<JsonValue>, from: usize) -> (r: String)
    requires
        from <= items@.len(),
    ensures
        r@ == json_items_text_spec(items@.skip(from as int)),
    decreases *items, 0int, items@.len() - from,
{
    proof {
        broadcast use vstd::std_specs::vec::axiom_vec_index_decreases;

    }
    let ghost tail = items@.skip(from as int);
    if from == items.len() {
        let r = String::new();
        proof {
            assert(tail.len() == 0);
        }
        return r;
    }
    proof {
        assert(tail.first() == items@[from as int]);
        assert(tail.drop_first() =~= items@.skip(from as int + 1));
    }
    let mut s = json_text(&items[from]);
    if from + 1 < items.len() {
        s.append(",");
        let rest = json_items_text(items, from + 1);
        s.append(rest.as_str());
    }
    s
}

fn json_members_text(members: &Vec<(String, JsonValue)>, from: usize) -> (r: String)
    requires
        from <= members@.len(),
    ensures
        r@ == json_members_text_spec(members@.skip(from as int)),
    decreases *members, 0int, members@.len() - from,
{
    proof {
        broadcast use vstd::std_specs::vec::axiom_vec_index_decreases;

    }
    let ghost tail = members@.skip(from as int);
    if from == members.len() {
        let r = String::new();
        proof {
            assert(tail.len() == 0);
        }
        return r;
    }
    proof {
        assert(tail.first() == members@[from as int]);
        assert(tail.drop_first() =~= members@.skip(from as int + 1));
    }
    let mut s = json_quote(members[from].0.as_str());
    s.append(":");
    let val = json_text(&members[from].1);
    s.append(val.as_str());
    if from + 1 < members.len() {
        s.append(",");
        let rest = json_members_text(members, from + 1);
        s.append(rest.as_str());
    }
    s
}

/// The one-line text of a scalar: a string shows bare, `null` and
/// booleans by name, a number as its literal; a nested structure falls
/// back to its compact JSON text.
pub open spec fn format_scalar_spec(v: JsonValue) -> Seq<char> {
    match v {
        JsonValue::String(s) => s@,
        JsonValue::Null => "null"@,
        JsonValue::Bool(b) => if b {
            "true"@
        } else {
            "false"@
        },
        JsonValue::Number(n) => n@,
        _ => json_text_spec(v),
    }
}

/// Render a scalar for the text format.
pub fn format_scalar(v: &JsonValue) -> (r: String)
    ensures
        r@ == format_scalar_spec(*v),
{
    match v {
        JsonValue::String(s) => s.clone(),
        JsonValue::Null => String::from_str("null"),
        JsonValue::Bool(b) => {
            if *b {
                String::from_str("true")
            } else {
                String::from_str("false")
            }
        },
        JsonValue::Number(n) => n.clone(),
        _ => json_text(v),
    }
}

/// Two spaces per indentation level.
pub open spec fn pad_spec(indent: nat) -> Seq<char>
    decreases indent,
{
    if indent == 0 {
        Seq::empty()
    } else {
        pad_spec((indent - 1) as nat) + "  "@
    }
}

fn pad(indent: usize) -> (r: String)
    ensures
        r@ == pad_spec(indent as nat),
    decreases indent,
{
    if indent == 0 {
        String::new()
    } else {
        let mut s = pad(indent - 1);
        s.append("  ");
        s
    }
}

/// The text-format rendering of a value at an indentation level, one
/// line per scalar: an object writes each member as `key: value`, or
/// `key:` above the member's own indented rendering when the member is
/// itself structured; an array writes its items in turn, with a blank
/// line after each top-level item; a scalar writes one padded line.
pub open spec fn render_spec(v: JsonValue, indent: nat) -> Seq<char>
    decreases v, 1int,
{
    match v {
        JsonValue::Object(members) => render_members_spec(members@, indent),
        JsonValue::Array(items) => render_items_spec(items@, indent),
        _ => pad_spec(indent) + format_scalar_spec(v) + "\n"@,
    }
}

/// The rendering of an object's members, in order.
pub open spec fn render_members_spec(s: Seq<(String, JsonValue)>, indent: nat) -> Seq<char>
    decreases s, 0int,
{
    if s.len() == 0 {
        Seq::empty()
    } else {
        let k = s.first().0@;
        let v = s.first().1;
        let line = match v {
            JsonValue::Object(_) => pad_spec(indent) + k + ":\n"@ + render_spec(v, indent + 1),
            JsonValue::Array(_) => pad_spec(indent) + k + ":\n"@ + render_spec(v, indent + 1),
            _ => pad_spec(indent) + k + ": "@ + format_scalar_spec(v) + "\n"@,
        };
        line + render_members_spec(s.drop_first(), indent)
    }
}

/// The rendering of an array's items, in order, with a blank line after
/// each top-level item.
pub open spec fn render_items_spec(s: Seq<JsonValue>, indent: nat) -> Seq<char>
    decreases s, 0int,
{
    if s.len() == 0 {
        Seq::empty()
    } else {
        let item = render_spec(s.first(), indent) + if indent == 0 {
            "\n"@
        } else {
            Seq::<char>::empty()
        };
        item + render_items_spec(s.drop_first(), indent)
    }
}

/// Render `v` for the text format at `indent` levels.
pub fn render_value(v: &JsonValue, indent: usize) -> (r: String)
    requires
        indent + json_size(*v) <= usize::MAX,
    ensures
        r@ == render_spec(*v, indent as nat),
    decreases *v, 1int, 0int,
{
    match v {
        JsonValue::Object(members) => {
            proof {
                assert(members@.skip(0) =~= members@);
            }
            render_members(members, 0, indent)
        },
        JsonValue::Array(items) => {
            proof {
                assert(items@.skip(0) =~= items@);
            }
            render_items(items, 0, indent)
        },
        _ => {
            let mut s = pad(indent);
            let scalar = format_scalar(v);
            s.append(scalar.as_str());
            s.append("\n");
            s
        },
    }
}

fn render_members(members: &Vec<(String, JsonValue)>, from: usize, indent: usize) -> (r: String)
    requires
        from <= members@.len(),
        indent + 1 + json_member_sizes(members@.skip(from as int)) <= usize::MAX,
    ensures
        r@ == render_members_spec(members@.skip(from as int), indent as nat),
    decreases *members, 0int, members@.len() - from,
{
    proof {
        broadcast use vstd::std_specs::vec::axiom_vec_index_decreases;

    }
    let ghost tail = members@.skip(from as int);
    if from == members.len() {
        proof {
            assert(tail.len() == 0);
        }
        return String::new();
    }
    proof {
        assert(tail.first() == members@[from as int]);
        assert(tail.drop_first() =~= members@.skip(from as int + 1));
        assert(json_member_sizes(tail) == json_size(tail.first().1) + json_member_sizes(
            tail.drop_first(),
        ));
    }
    let k = &members[from].0;
    let v = &members[from].1;
    let mut s = pad(indent);
    s.append(k.as_str());
    let structured = matches!(v, JsonValue::Object(_)) || matches!(v, JsonValue::Array(_));
    if structured {
        s.append(":\n");
        let sub = render_value(v, indent + 1);
        s.append(sub.as_str());
    } else {
        s.append(": ");
        let scalar = format_scalar(v);
        s.append(scalar.as_str());
        s.append("\n");
    }
    let rest = render_members(members, from + 1, indent);
    s.append(rest.as_str());
    s
}

fn render_items(items: &Vec<JsonValue>, from: usize, indent: usize) -> (r: String)
    requires
        from <= items@.len(),
        indent + json_sizes(items@.skip(from as int)) <= usize::MAX,
    ensures
        r@ == render_items_spec(items@.skip(from as int), indent as nat),
    decreases *items, 0int, items@.len() - from,
{
    proof {
        broadcast use vstd::std_specs::vec::axiom_vec_index_decreases;

    }
    let ghost tail = items@.skip(from as int);
    if from == items.len() {
        proof {
            assert(tail.len() == 0);
        }
        return String::new();
    }
    proof {
        assert(tail.first() == items@[from as int]);
        assert(tail.drop_first() =~= items@.skip(from as int + 1));
        assert(json_sizes(tail) == json_size(tail.first()) + json_sizes(tail.drop_first()));
    }
    let mut s = render_value(&items[from], indent);
    if indent == 0 {
        s.append("\n");
    }
    let rest = render_items(items, from + 1, indent);
    s.append(rest.as_str());
    s
}

} // verus!
