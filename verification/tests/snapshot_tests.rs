use debug_bridge::snapshot::{walk_snapshot, DomNode};

fn el(tag: &str, texts: Vec<&str>, children: Vec<DomNode>) -> DomNode {
    DomNode {
        tag: tag.to_string(),
        role: None,
        aria_label: None,
        name_attr: None,
        placeholder: None,
        value: None,
        has_tabindex: false,
        has_onclick: false,
        visible: true,
        texts: texts.into_iter().map(|t| t.to_string()).collect(),
        children,
    }
}

#[test]
fn structural_wrappers_collapse_to_the_inner_node() {
    // <div><div><span>text</span></div></div>
    let tree = el("div", vec![], vec![el("div", vec![], vec![el("span", vec!["text"], vec![])])]);
    let snap = walk_snapshot(&tree, "t".to_string(), "u".to_string());
    assert_eq!(snap.elements.len(), 1);
    let only = &snap.elements[0];
    assert_eq!(only.tag, "span");
    assert_eq!(only.text.as_deref(), Some("text"));
    assert!(!only.interactive);
    assert!(only.ref_id.is_none());
    assert!(only.children.is_empty());
}

#[test]
fn walking_twice_yields_identical_refs_and_shape() {
    let tree = el(
        "body",
        vec![],
        vec![
            el("button", vec!["Save"], vec![]),
            el("div", vec![], vec![el("a", vec!["Home"], vec![])]),
            el("input", vec![], vec![]),
        ],
    );
    let first = walk_snapshot(&tree, "t".to_string(), "u".to_string());
    let second = walk_snapshot(&tree, "t".to_string(), "u".to_string());
    assert_eq!(format!("{:?}", first), format!("{:?}", second));
    // refs are sequential in document order
    assert_eq!(first.elements[0].ref_id.as_deref(), Some("e1"));
    assert_eq!(first.elements[1].ref_id.as_deref(), Some("e2"));
    assert_eq!(first.elements[2].ref_id.as_deref(), Some("e3"));
}

#[test]
fn interactive_elements_get_refs_and_only_they_do() {
    let mut link = el("a", vec!["go"], vec![]);
    link.role = None;
    let mut clicky = el("div", vec!["click me"], vec![]);
    clicky.has_onclick = true;
    let mut role_button = el("div", vec!["ok"], vec![]);
    role_button.role = Some("button".to_string());
    let plain = el("p", vec!["hello"], vec![]);
    let tree = el("body", vec![], vec![link, clicky, role_button, plain]);
    let snap = walk_snapshot(&tree, "t".to_string(), "u".to_string());
    assert_eq!(snap.elements.len(), 4);
    for e in &snap.elements {
        assert_eq!(e.ref_id.is_some(), e.interactive, "ref exactly when interactive");
    }
    assert_eq!(snap.elements[0].ref_id.as_deref(), Some("e1"));
    assert_eq!(snap.elements[1].ref_id.as_deref(), Some("e2"));
    assert_eq!(snap.elements[2].ref_id.as_deref(), Some("e3"));
    assert!(snap.elements[3].ref_id.is_none());
}

#[test]
fn invisible_and_non_visual_nodes_are_skipped() {
    let mut hidden = el("button", vec!["hidden"], vec![]);
    hidden.visible = false;
    let script = el("script", vec!["var x = 1;"], vec![]);
    let shown = el("button", vec!["shown"], vec![]);
    let tree = el("body", vec![], vec![hidden, script, shown]);
    let snap = walk_snapshot(&tree, "t".to_string(), "u".to_string());
    assert_eq!(snap.elements.len(), 1);
    assert_eq!(snap.elements[0].text.as_deref(), Some("shown"));
    // the skipped button consumed no ref
    assert_eq!(snap.elements[0].ref_id.as_deref(), Some("e1"));
}

#[test]
fn text_is_trimmed_and_joined_with_single_spaces() {
    let tree = el("body", vec![], vec![el("p", vec!["  a  ", "", "b", "   "], vec![])]);
    let snap = walk_snapshot(&tree, "t".to_string(), "u".to_string());
    assert_eq!(snap.elements[0].text.as_deref(), Some("a b"));
}

#[test]
fn accessible_name_prefers_aria_label() {
    let mut input = el("input", vec![], vec![]);
    input.aria_label = Some("Search".to_string());
    input.placeholder = Some("type here".to_string());
    input.value = Some("query".to_string());
    let tree = el("body", vec![], vec![input]);
    let snap = walk_snapshot(&tree, "t".to_string(), "u".to_string());
    let e = &snap.elements[0];
    assert_eq!(e.name.as_deref(), Some("Search"));
    assert_eq!(e.value.as_deref(), Some("query"));
    assert_eq!(e.tag, "input");
    assert!(e.interactive);
}

#[test]
fn placeholder_names_when_labels_are_empty() {
    let mut input = el("input", vec![], vec![]);
    input.aria_label = Some("".to_string());
    input.placeholder = Some("type here".to_string());
    let tree = el("body", vec![], vec![input]);
    let snap = walk_snapshot(&tree, "t".to_string(), "u".to_string());
    assert_eq!(snap.elements[0].name.as_deref(), Some("type here"));
}

#[test]
fn a_role_blocks_collapsing() {
    let mut wrapper = el("div", vec![], vec![el("span", vec!["x"], vec![])]);
    wrapper.role = Some("group".to_string());
    let tree = el("body", vec![], vec![wrapper, el("button", vec!["ok"], vec![])]);
    let snap = walk_snapshot(&tree, "t".to_string(), "u".to_string());
    assert_eq!(snap.elements.len(), 2);
    assert_eq!(snap.elements[0].tag, "div");
    assert_eq!(snap.elements[0].role.as_deref(), Some("group"));
    assert_eq!(snap.elements[0].children.len(), 1);
    assert_eq!(snap.elements[0].children[0].tag, "span");
}

#[test]
fn snapshot_carries_title_and_url() {
    let tree = el("body", vec![], vec![]);
    let snap = walk_snapshot(&tree, "Demo".to_string(), "app://main".to_string());
    assert_eq!(snap.title, "Demo");
    assert_eq!(snap.url, "app://main");
    assert!(snap.elements.is_empty());
}

#[test]
fn surviving_root_without_children_is_the_single_element() {
    let tree = el("button", vec!["lone"], vec![]);
    let snap = walk_snapshot(&tree, "t".to_string(), "u".to_string());
    assert_eq!(snap.elements.len(), 1);
    assert_eq!(snap.elements[0].tag, "button");
}
