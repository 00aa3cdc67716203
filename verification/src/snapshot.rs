//! The accessibility snapshot walker: deterministically converts a
//! document tree into a compact, referenceable tree of interactive
//! elements.
//!
//! The walk is depth-first in document order. Invisible nodes and
//! non-visual tags are skipped; interactive elements (by tag, semantic
//! role, explicit focus order, or click handler) get sequential reference
//! ids `e1`, `e2`, …, stable for the lifetime of one snapshot; purely
//! structural wrappers — non-interactive, no direct text, no explicit
//! role, at most one surviving child — are collapsed away. Reference
//! numbering depends only on traversal order, never on timing: the walk
//! is a pure function of the input tree.

use vstd::prelude::*;

use crate::hex::{dec_seq, dec_str};
use crate::strutil::{str_eq, trim_bounds, trim_spec};

verus! {

/// What the walker reads of one live document element: its tag (lower
/// case), attributes, visibility, direct text, and element children in
/// document order. The host converts its document nodes into this form.
pub struct DomNode {
    /// Lowercase tag name.
    pub tag: String,
    /// The `role` attribute, if the attribute is present.
    pub role: Option<String>,
    /// The `aria-label` attribute, if present.
    pub aria_label: Option<String>,
    /// The `name` attribute, if present.
    pub name_attr: Option<String>,
    /// The `placeholder` attribute, if present.
    pub placeholder: Option<String>,
    /// The element's current value, where the element holds one.
    pub value: Option<String>,
    /// Whether a `tabindex` attribute is present.
    pub has_tabindex: bool,
    /// Whether a click handler is attached.
    pub has_onclick: bool,
    /// Whether the element is rendered (not display:none, hidden,
    /// zero-opacity or layout-detached).
    pub visible: bool,
    /// Direct text-node children, in order, untrimmed.
    pub texts: Vec<String>,
    /// Element children, in document order.
    pub children: Vec<DomNode>,
}

/// `DomNode` as contracts see it.
#[verifier::ext_equal]
pub struct DomNodeV {
    /// Lowercase tag name.
    pub tag: Seq<char>,
    /// The `role` attribute, if present.
    pub role: Option<Seq<char>>,
    /// The `aria-label` attribute, if present.
    pub aria_label: Option<Seq<char>>,
    /// The `name` attribute, if present.
    pub name_attr: Option<Seq<char>>,
    /// The `placeholder` attribute, if present.
    pub placeholder: Option<Seq<char>>,
    /// The element's current value, where it holds one.
    pub value: Option<Seq<char>>,
    /// Whether a `tabindex` attribute is present.
    pub has_tabindex: bool,
    /// Whether a click handler is attached.
    pub has_onclick: bool,
    /// Whether the element is rendered.
    pub visible: bool,
    /// Direct text-node children.
    pub texts: Seq<Seq<char>>,
    /// Element children.
    pub children: Seq<DomNodeV>,
}

/// One node of the snapshot tree.
#[derive(Debug)]
pub struct SnapshotElement {
    /// Lowercase tag name.
    pub tag: String,
    /// The snapshot reference id; present exactly when `interactive`.
    pub ref_id: Option<String>,
    /// The explicit semantic role, when one is present.
    pub role: Option<String>,
    /// Direct text content, trimmed and joined; absent when empty.
    pub text: Option<String>,
    /// Accessible name: label, name or placeholder, first match wins.
    pub name: Option<String>,
    /// The element's current value, when nonempty.
    pub value: Option<String>,
    /// Whether the element was classified interactive.
    pub interactive: bool,
    /// Surviving children, in document order.
    pub children: Vec<SnapshotElement>,
}

/// `SnapshotElement` as contracts see it.
#[verifier::ext_equal]
pub struct SnapshotElementV {
    /// Lowercase tag name.
    pub tag: Seq<char>,
    /// The snapshot reference id; present exactly when `interactive`.
    pub ref_id: Option<Seq<char>>,
    /// The explicit semantic role, when present.
    pub role: Option<Seq<char>>,
    /// Direct text content; absent when empty.
    pub text: Option<Seq<char>>,
    /// Accessible name.
    pub name: Option<Seq<char>>,
    /// The element's current value, when nonempty.
    pub value: Option<Seq<char>>,
    /// Whether the element was classified interactive.
    pub interactive: bool,
    /// Surviving children.
    pub children: Seq<SnapshotElementV>,
}

/// One whole snapshot: document title, location, and the element tree.
#[derive(Debug)]
pub struct SnapshotResponse {
    /// The document title.
    pub title: String,
    /// The document location.
    pub url: String,
    /// The snapshot tree, roots in document order.
    pub elements: Vec<SnapshotElement>,
}

/// The view of an optional string.
pub open spec fn opt_view(o: Option<String>) -> Option<Seq<char>> {
    match o {
        Some(s) => Some(s@),
        None => None,
    }
}

/// The view of a document node.
pub open spec fn dom_view(n: DomNode) -> DomNodeV
    decreases n, 1int,
{
    DomNodeV {
        tag: n.tag@,
        role: opt_view(n.role),
        aria_label: opt_view(n.aria_label),
        name_attr: opt_view(n.name_attr),
        placeholder: opt_view(n.placeholder),
        value: opt_view(n.value),
        has_tabindex: n.has_tabindex,
        has_onclick: n.has_onclick,
        visible: n.visible,
        texts: Seq::new(n.texts@.len(), |i: int| n.texts@[i]@),
        children: doms_view(n.children@),
    }
}

/// The views of a sequence of document nodes.
pub open spec fn doms_view(s: Seq<DomNode>) -> Seq<DomNodeV>
    decreases s, 0int,
{
    if s.len() == 0 {
        Seq::empty()
    } else {
        seq![dom_view(s.first())] + doms_view(s.drop_first())
    }
}

/// `doms_view` maps the view over the sequence, element by element.
pub proof fn lemma_doms_view(s: Seq<DomNode>)
    ensures
        doms_view(s).len() == s.len(),
        forall|i: int| 0 <= i < s.len() ==> #[trigger] doms_view(s)[i] == dom_view(s[i]),
    decreases s.len(),
{
    if s.len() > 0 {
        lemma_doms_view(s.drop_first());
    }
}

/// The view of a snapshot element.
pub open spec fn elem_view(e: SnapshotElement) -> SnapshotElementV
    decreases e, 1int,
{
    SnapshotElementV {
        tag: e.tag@,
        ref_id: opt_view(e.ref_id),
        role: opt_view(e.role),
        text: opt_view(e.text),
        name: opt_view(e.name),
        value: opt_view(e.value),
        interactive: e.interactive,
        children: elems_view(e.children@),
    }
}

/// The views of a sequence of snapshot elements.
pub open spec fn elems_view(s: Seq<SnapshotElement>) -> Seq<SnapshotElementV>
    decreases s, 0int,
{
    if s.len() == 0 {
        Seq::empty()
    } else {
        seq![elem_view(s.first())] + elems_view(s.drop_first())
    }
}

/// `elems_view` maps the view over the sequence, element by element.
pub proof fn lemma_elems_view(s: Seq<SnapshotElement>)
    ensures
        elems_view(s).len() == s.len(),
        forall|i: int| 0 <= i < s.len() ==> #[trigger] elems_view(s)[i] == elem_view(s[i]),
    decreases s.len(),
{
    if s.len() > 0 {
        lemma_elems_view(s.drop_first());
    }
}

/// Non-visual tags the walk skips outright.
pub open spec fn is_skip_tag(t: Seq<char>) -> bool {
    t == "script"@ || t == "style"@ || t == "noscript"@ || t == "template"@
}

/// The fixed allow-list of interactive tags.
pub open spec fn is_interactive_tag(t: Seq<char>) -> bool {
    ||| t == "a"@
    ||| t == "button"@
    ||| t == "input"@
    ||| t == "select"@
    ||| t == "textarea"@
    ||| t == "details"@
    ||| t == "summary"@
    ||| t == "label"@
    ||| t == "option"@
}

/// The fixed allow-list of interactive semantic roles.
pub open spec fn is_interactive_role(r: Seq<char>) -> bool {
    ||| r == "button"@
    ||| r == "link"@
    ||| r == "textbox"@
    ||| r == "checkbox"@
    ||| r == "radio"@
    ||| r == "combobox"@
    ||| r == "listbox"@
    ||| r == "menuitem"@
    ||| r == "tab"@
    ||| r == "switch"@
    ||| r == "slider"@
    ||| r == "spinbutton"@
    ||| r == "searchbox"@
    ||| r == "option"@
    ||| r == "menuitemcheckbox"@
    ||| r == "menuitemradio"@
    ||| r == "treeitem"@
}

/// An optional string counts only when present and nonempty.
pub open spec fn nonempty_opt(o: Option<Seq<char>>) -> Option<Seq<char>> {
    match o {
        Some(s) => if s.len() > 0 {
            Some(s)
        } else {
            None
        },
        None => None,
    }
}

/// The node's explicit semantic role: the `role` attribute when nonempty.
pub open spec fn node_role(n: DomNodeV) -> Option<Seq<char>> {
    nonempty_opt(n.role)
}

/// Interactive classification: allow-listed tag, allow-listed semantic
/// role, explicit focus order, or an attached click handler.
pub open spec fn spec_interactive(n: DomNodeV) -> bool {
    ||| is_interactive_tag(n.tag)
    ||| (node_role(n) matches Some(r) && is_interactive_role(r))
    ||| n.has_tabindex
    ||| n.has_onclick
}

/// Direct text content: each text child trimmed, empty ones dropped, the
/// rest joined with single spaces, in order.
pub open spec fn join_texts(ts: Seq<Seq<char>>) -> Seq<char>
    decreases ts.len(),
{
    if ts.len() == 0 {
        Seq::empty()
    } else {
        let rest = join_texts(ts.drop_last());
        let t = trim_spec(ts.last());
        if t.len() == 0 {
            rest
        } else if rest.len() == 0 {
            t
        } else {
            rest + " "@ + t
        }
    }
}

/// The node's direct text, absent when empty.
pub open spec fn node_text(n: DomNodeV) -> Option<Seq<char>> {
    if join_texts(n.texts).len() > 0 {
        Some(join_texts(n.texts))
    } else {
        None
    }
}

/// The accessible name: aria-label, the `name` attribute, then the
/// placeholder — first nonempty match wins.
pub open spec fn node_name(n: DomNodeV) -> Option<Seq<char>> {
    if nonempty_opt(n.aria_label) is Some {
        nonempty_opt(n.aria_label)
    } else if nonempty_opt(n.name_attr) is Some {
        nonempty_opt(n.name_attr)
    } else {
        nonempty_opt(n.placeholder)
    }
}

/// The reference id assigned to the `k`-th interactive element found.
pub open spec fn ref_label(k: nat) -> Seq<char> {
    "e"@ + dec_seq(k)
}

/// Number of nodes of a tree; bounds how far the ref counter can move.
pub open spec fn size(n: DomNodeV) -> nat
    decreases n,
{
    1 + sizes(n.children)
}

/// Number of nodes of a forest.
pub open spec fn sizes(s: Seq<DomNodeV>) -> nat
    decreases s,
{
    if s.len() == 0 {
        0
    } else {
        size(s.first()) + sizes(s.drop_first())
    }
}

/// One walk step: the emitted node (or nothing) and the advanced ref
/// counter. Mirrors the walk exactly; see the module documentation.
pub open spec fn walk_spec(n: DomNodeV, counter: nat) -> (Option<SnapshotElementV>, nat)
    decreases n, 1int,
{
    if !n.visible || is_skip_tag(n.tag) {
        (None, counter)
    } else {
        let interactive = spec_interactive(n);
        let counter1 = if interactive {
            counter + 1
        } else {
            counter
        };
        let ref_id = if interactive {
            Some(ref_label(counter + 1))
        } else {
            None
        };
        let (children, counter2) = walk_children_spec(n.children, counter1);
        let text = node_text(n);
        if !interactive && text is None && children.len() <= 1 && node_role(n) is None {
            if children.len() == 1 {
                (Some(children[0]), counter2)
            } else {
                (None, counter2)
            }
        } else {
            (
                Some(
                    SnapshotElementV {
                        tag: n.tag,
                        ref_id,
                        role: node_role(n),
                        text,
                        name: node_name(n),
                        value: nonempty_opt(n.value),
                        interactive,
                        children,
                    },
                ),
                counter2,
            )
        }
    }
}

/// Walk a forest left to right, threading the ref counter and keeping the
/// surviving nodes in document order.
pub open spec fn walk_children_spec(s: Seq<DomNodeV>, counter: nat) -> (
    Seq<SnapshotElementV>,
    nat,
)
    decreases s, 0int,
{
    if s.len() == 0 {
        (Seq::empty(), counter)
    } else {
        let (head, c1) = walk_spec(s.first(), counter);
        let (rest, c2) = walk_children_spec(s.drop_first(), c1);
        (
            match head {
                Some(e) => seq![e] + rest,
                None => rest,
            },
            c2,
        )
    }
}

/// The ref counter only grows, and by at most the number of nodes walked.
pub proof fn lemma_walk_counter_bound(n: DomNodeV, counter: nat)
    ensures
        counter <= walk_spec(n, counter).1 <= counter + size(n),
    decreases n, 1int,
{
    if !n.visible || is_skip_tag(n.tag) {
    } else {
        let counter1 = if spec_interactive(n) {
            counter + 1
        } else {
            counter
        };
        lemma_walk_children_counter_bound(n.children, counter1);
    }
}

/// As `lemma_walk_counter_bound`, for a forest.
pub proof fn lemma_walk_children_counter_bound(s: Seq<DomNodeV>, counter: nat)
    ensures
        counter <= walk_children_spec(s, counter).1 <= counter + sizes(s),
    decreases s, 0int,
{
    if s.len() > 0 {
        lemma_walk_counter_bound(s.first(), counter);
        lemma_walk_children_counter_bound(s.drop_first(), walk_spec(s.first(), counter).1);
    }
}

/// A node carries a ref exactly when it is interactive, and so does every
/// node below it.
pub open spec fn tree_ref_wf(e: SnapshotElementV) -> bool
    decreases e, 1int,
{
    (e.ref_id is Some <==> e.interactive) && forest_ref_wf(e.children)
}

/// `tree_ref_wf` over a forest.
pub open spec fn forest_ref_wf(s: Seq<SnapshotElementV>) -> bool
    decreases s, 0int,
{
    forall|i: int| 0 <= i < s.len() ==> tree_ref_wf(#[trigger] s[i])
}

/// Every node the walk emits satisfies the ref-iff-interactive invariant,
/// throughout its subtree.
pub proof fn lemma_walk_ref_wf(n: DomNodeV, counter: nat)
    ensures
        walk_spec(n, counter).0 matches Some(e) ==> tree_ref_wf(e),
    decreases n, 1int,
{
    if !n.visible || is_skip_tag(n.tag) {
    } else {
        let counter1 = if spec_interactive(n) {
            counter + 1
        } else {
            counter
        };
        lemma_walk_children_ref_wf(n.children, counter1);
    }
}

/// As `lemma_walk_ref_wf`, for a forest.
pub proof fn lemma_walk_children_ref_wf(s: Seq<DomNodeV>, counter: nat)
    ensures
        forest_ref_wf(walk_children_spec(s, counter).0),
    decreases s, 0int,
{
    if s.len() > 0 {
        lemma_walk_ref_wf(s.first(), counter);
        let (head, c1) = walk_spec(s.first(), counter);
        lemma_walk_children_ref_wf(s.drop_first(), c1);
        let (rest, c2) = walk_children_spec(s.drop_first(), c1);
        match head {
            Some(e) => {
                assert forall|i: int|
                    0 <= i < (seq![e] + rest).len() implies tree_ref_wf(
                    #[trigger] (seq![e] + rest)[i],
                ) by {
                    if i > 0 {
                        assert((seq![e] + rest)[i] == rest[i - 1]);
                    }
                }
            },
            None => {},
        }
    }
}

/// A node carries semantic content — it is interactive, has direct text,
/// an explicit role, or at least one child — and so does every node below
/// it.
pub open spec fn tree_content_wf(e: SnapshotElementV) -> bool
    decreases e, 1int,
{
    &&& (e.interactive || e.text is Some || e.role is Some || e.children.len() > 0)
    &&& forest_content_wf(e.children)
}

/// `tree_content_wf` over a forest.
pub open spec fn forest_content_wf(s: Seq<SnapshotElementV>) -> bool
    decreases s, 0int,
{
    forall|i: int| 0 <= i < s.len() ==> tree_content_wf(#[trigger] s[i])
}

/// The collapse rule leaves no purely structural node behind: every node
/// the walk emits carries semantic content, throughout its subtree.
pub proof fn lemma_walk_content_wf(n: DomNodeV, counter: nat)
    ensures
        walk_spec(n, counter).0 matches Some(e) ==> tree_content_wf(e),
    decreases n, 1int,
{
    if !n.visible || is_skip_tag(n.tag) {
    } else {
        let counter1 = if spec_interactive(n) {
            counter + 1
        } else {
            counter
        };
        lemma_walk_children_content_wf(n.children, counter1);
    }
}

/// As `lemma_walk_content_wf`, for a forest.
pub proof fn lemma_walk_children_content_wf(s: Seq<DomNodeV>, counter: nat)
    ensures
        forest_content_wf(walk_children_spec(s, counter).0),
    decreases s, 0int,
{
    if s.len() > 0 {
        lemma_walk_content_wf(s.first(), counter);
        let (head, c1) = walk_spec(s.first(), counter);
        lemma_walk_children_content_wf(s.drop_first(), c1);
        let (rest, c2) = walk_children_spec(s.drop_first(), c1);
        match head {
            Some(e) => {
                assert forall|i: int|
                    0 <= i < (seq![e] + rest).len() implies tree_content_wf(
                    #[trigger] (seq![e] + rest)[i],
                ) by {
                    if i > 0 {
                        assert((seq![e] + rest)[i] == rest[i - 1]);
                    }
                }
            },
            None => {},
        }
    }
}

/// Walking the same unchanged tree twice yields identical ref assignments
/// and identical tree shape: the walk is a pure function of the tree.
pub proof fn lemma_walk_deterministic(
    n: DomNodeV,
    counter: nat,
    r1: (Option<SnapshotElementV>, nat),
    r2: (Option<SnapshotElementV>, nat),
)
    requires
        r1 == walk_spec(n, counter),
        r2 == walk_spec(n, counter),
    ensures
        r1 == r2,
{
}

fn exec_is_skip_tag(tag: &str) -> (r: bool)
    ensures
        r == is_skip_tag(tag@),
{
    str_eq(tag, "script") || str_eq(tag, "style") || str_eq(tag, "noscript") || str_eq(
        tag,
        "template",
    )
}

fn exec_interactive(n: &DomNode) -> (r: bool)
    ensures
        r == spec_interactive(dom_view(*n)),
{
    if str_eq(n.tag.as_str(), "a") || str_eq(n.tag.as_str(), "button") || str_eq(
        n.tag.as_str(),
        "input",
    ) || str_eq(n.tag.as_str(), "select") || str_eq(n.tag.as_str(), "textarea") || str_eq(
        n.tag.as_str(),
        "details",
    ) || str_eq(n.tag.as_str(), "summary") || str_eq(n.tag.as_str(), "label") || str_eq(
        n.tag.as_str(),
        "option",
    ) {
        return true;
    }
    if n.has_tabindex || n.has_onclick {
        return true;
    }
    match &n.role {
        Some(r) => {
            let r = r.as_str();
            if r.unicode_len() == 0 {
                proof {
                    assert(node_role(dom_view(*n)) is None);
                }
                return false;
            }
            proof {
                assert(node_role(dom_view(*n)) == Some(r@));
            }
            str_eq(r, "button") || str_eq(r, "link") || str_eq(r, "textbox") || str_eq(
                r,
                "checkbox",
            ) || str_eq(r, "radio") || str_eq(r, "combobox") || str_eq(r, "listbox") || str_eq(
                r,
                "menuitem",
            ) || str_eq(r, "tab") || str_eq(r, "switch") || str_eq(r, "slider") || str_eq(
                r,
                "spinbutton",
            ) || str_eq(r, "searchbox") || str_eq(r, "option") || str_eq(r, "menuitemcheckbox")
                || str_eq(r, "menuitemradio") || str_eq(r, "treeitem")
        },
        None => false,
    }
}

/// A present-and-nonempty optional string, cloned.
fn exec_nonempty_opt(o: &Option<String>) -> (r: Option<String>)
    ensures
        opt_view(r) == nonempty_opt(match o {
            Some(s) => Some(s@),
            None => None,
        }),
{
    match o {
        Some(s) => {
            if s.as_str().unicode_len() > 0 {
                Some(s.clone())
            } else {
                None
            }
        },
        None => None,
    }
}

fn exec_node_text(texts: &Vec<String>) -> (r: Option<String>)
    ensures
        opt_view(r) == ({
            let j = join_texts(Seq::new(texts@.len(), |i: int| texts@[i]@));
            if j.len() > 0 {
                Some(j)
            } else {
                None
            }
        }),
{
    let ghost ts = Seq::new(texts@.len(), |i: int| texts@[i]@);
    let mut acc = String::new();
    let n = texts.len();
    let mut i: usize = 0;
    while i < n
        invariant
            i <= n,
            n == texts@.len(),
            acc@ == join_texts(ts.take(i as int)),
        decreases n - i,
    {
        proof {
            assert(ts.take(i + 1).drop_last() =~= ts.take(i as int));
            assert(ts.take(i + 1).last() == texts@[i as int]@);
        }
        let t = texts[i].as_str();
        let (lo, hi) = trim_bounds(t);
        if hi > lo {
            let trimmed = t.substring_char(lo, hi);
            if acc.as_str().unicode_len() == 0 {
                acc = trimmed.to_owned();
            } else {
                acc.append(" ");
                acc.append(trimmed);
            }
        }
        i += 1;
    }
    proof {
        assert(ts.take(n as int) =~= ts);
    }
    if acc.as_str().unicode_len() == 0 {
        None
    } else {
        Some(acc)
    }
}

fn walk_node(n: &DomNode, counter: u64) -> (r: (Option<SnapshotElement>, u64))
    requires
        counter + size(dom_view(*n)) <= u64::MAX,
    ensures
        ({
            let (se, c) = walk_spec(dom_view(*n), counter as nat);
            &&& r.1 == c
            &&& match r.0 {
                Some(e) => se == Some(elem_view(e)),
                None => se is None,
            }
        }),
    decreases *n, 1int, 0int,
{
    let ghost nv = dom_view(*n);
    if !n.visible {
        return (None, counter);
    }
    if exec_is_skip_tag(n.tag.as_str()) {
        return (None, counter);
    }
    let interactive = exec_interactive(n);
    let mut counter1 = counter;
    let mut ref_id: Option<String> = None;
    if interactive {
        counter1 = counter + 1;
        let mut label = String::new();
        label.append("e");
        let digits = dec_str(counter1);
        label.append(digits.as_str());
        proof {
            assert(label@ =~= ref_label((counter + 1) as nat));
        }
        ref_id = Some(label);
    }
    proof {
        lemma_walk_children_counter_bound(nv.children, counter1 as nat);
        assert(nv.children == doms_view(n.children@));
        assert(doms_view(n.children@).skip(0) =~= doms_view(n.children@));
        assert(size(nv) == 1 + sizes(nv.children));
    }
    let (mut children, counter2) = walk_children_from(&n.children, 0, counter1);
    proof {
        assert(elems_view(children@) == walk_children_spec(nv.children, counter1 as nat).0);
        lemma_elems_view(children@);
    }
    let text = exec_node_text(&n.texts);
    let role = exec_nonempty_opt(&n.role);
    proof {
        assert(Seq::new(n.texts@.len(), |i: int| n.texts@[i]@) =~= nv.texts);
        assert(opt_view(text) == node_text(nv));
        assert(opt_view(role) == node_role(nv));
    }
    if !interactive && text.is_none() && children.len() <= 1 && role.is_none() {
        if children.len() == 1 {
            let ghost ch_pre = children@;
            if let Some(e) = children.pop() {
                proof {
                    assert(e == ch_pre[0]);
                    lemma_elems_view(ch_pre);
                    assert(elems_view(ch_pre)[0] == elem_view(e));
                }
                return (Some(e), counter2);
            } else {
                return (None, counter2);
            }
        } else {
            return (None, counter2);
        }
    }
    let name = if let Some(nm) = exec_nonempty_opt(&n.aria_label) {
        Some(nm)
    } else if let Some(nm) = exec_nonempty_opt(&n.name_attr) {
        Some(nm)
    } else {
        exec_nonempty_opt(&n.placeholder)
    };
    let value = exec_nonempty_opt(&n.value);
    let e = SnapshotElement {
        tag: n.tag.clone(),
        ref_id,
        role,
        text,
        name,
        value,
        interactive,
        children,
    };
    proof {
        assert(elem_view(e) == walk_spec(nv, counter as nat).0->0);
    }
    (Some(e), counter2)
}

fn walk_children_from(cs: &Vec<DomNode>, from: usize, counter: u64) -> (r: (
    Vec<SnapshotElement>,
    u64,
))
    requires
        from <= cs@.len(),
        counter + sizes(doms_view(cs@).skip(from as int)) <= u64::MAX,
    ensures
        ({
            let (es, c) = walk_children_spec(doms_view(cs@).skip(from as int), counter as nat);
            &&& r.1 == c
            &&& elems_view(r.0@) == es
        }),
    decreases *cs, 0int, cs@.len() - from,
{
    proof {
        broadcast use vstd::std_specs::vec::axiom_vec_index_decreases;

        lemma_doms_view(cs@);
    }
    let ghost views = doms_view(cs@);
    if from == cs.len() {
        let r: Vec<SnapshotElement> = Vec::new();
        proof {
            assert(views.skip(from as int).len() == 0);
            assert(views.skip(from as int) =~= Seq::<DomNodeV>::empty());
            assert(elems_view(r@) == walk_children_spec(views.skip(from as int), counter as nat).0);
        }
        return (r, counter);
    }
    let ghost tail = views.skip(from as int);
    proof {
        assert(tail.first() == views[from as int]);
        assert(views[from as int] == dom_view(cs@[from as int]));
        assert(tail.drop_first() =~= views.skip(from as int + 1));
        assert(sizes(tail) == size(tail.first()) + sizes(tail.drop_first()));
        lemma_walk_counter_bound(tail.first(), counter as nat);
    }
    let (head, c1) = walk_node(&cs[from], counter);
    let (rest, c2) = walk_children_from(cs, from + 1, c1);
    match head {
        Some(e) => {
            let ghost rest_snap = rest@;
            let mut out = rest;
            out.insert(0, e);
            proof {
                assert(out@.first() == e);
                assert(out@.drop_first() =~= rest_snap);
                assert(out@.len() == rest_snap.len() + 1);
                assert(elems_view(out@) == seq![elem_view(e)] + elems_view(rest_snap));
            }
            (out, c2)
        },
        None => (rest, c2),
    }
}

/// Walk a document tree into a snapshot. The walk is a pure function of
/// the tree: an unchanged document yields an identical snapshot with
/// identical refs. When the root survives and kept children of its own,
/// its children are the snapshot's roots, as the root element itself is
/// only a container.
pub fn walk_snapshot(root: &DomNode, title: String, url: String) -> (r: SnapshotResponse)
    requires
        size(dom_view(*root)) <= u64::MAX,
    ensures
        r.title == title,
        r.url == url,
        elems_view(r.elements@) == ({
            let (t, c) = walk_spec(dom_view(*root), 0);
            match t {
                Some(e) => if e.children.len() > 0 {
                    e.children
                } else {
                    seq![e]
                },
                None => Seq::<SnapshotElementV>::empty(),
            }
        }),
{
    let (tree, _counter) = walk_node(root, 0);
    let elements: Vec<SnapshotElement> = match tree {
        Some(e) => {
            if e.children.len() > 0 {
                proof {
                    assert(elems_view(e.children@) =~= walk_spec(
                        dom_view(*root),
                        0,
                    ).0->0.children);
                }
                e.children
            } else {
                let mut v: Vec<SnapshotElement> = Vec::new();
                v.push(e);
                proof {
                    lemma_elems_view(v@);
                    assert(v@[0] == e);
                    assert(elems_view(v@) =~= seq![elem_view(e)]);
                }
                v
            }
        },
        None => {
            let v: Vec<SnapshotElement> = Vec::new();
            proof {
                assert(elems_view(v@) =~= Seq::<SnapshotElementV>::empty());
            }
            v
        },
    };
    SnapshotResponse { title, url, elements }
}

} // verus!
