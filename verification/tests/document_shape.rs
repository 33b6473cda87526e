//! The document transformer on concrete HTML fragments.

use import_wp::html_to_mobiledoc;
use import_wp::document::mobiledoc_revision;

fn assert_leaf_fixed(leaf: &import_wp::document::TextLeaf) {
    assert_eq!(leaf.detail, 0);
    assert_eq!(leaf.format_flags, 0);
    assert_eq!(leaf.mode_name, "normal");
    assert_eq!(leaf.style, "");
    assert_eq!(leaf.node_type, "extended-text");
    assert_eq!(leaf.version, 1);
}

#[test]
fn two_paragraphs_keep_segments_in_order() {
    let d = html_to_mobiledoc("<p>Hello <b>World</b></p><p>Second</p>");
    assert_eq!(d.node_type, "root");
    assert_eq!(d.direction, "ltr");
    assert_eq!(d.format_label, "");
    assert_eq!(d.indent, 0);
    assert_eq!(d.version, 1);
    assert_eq!(d.children.len(), 2);

    let first = &d.children[0];
    assert_eq!(first.node_type, "paragraph");
    assert_eq!(first.direction, "ltr");
    assert_eq!(first.children.len(), 2);
    assert_eq!(first.children[0].text, "Hello ");
    assert_eq!(first.children[1].text, "World");
    assert_leaf_fixed(&first.children[0]);
    assert_leaf_fixed(&first.children[1]);

    let second = &d.children[1];
    assert_eq!(second.children.len(), 1);
    assert_eq!(second.children[0].text, "Second");
    assert_leaf_fixed(&second.children[0]);
}

#[test]
fn no_paragraphs_yield_empty_root() {
    let d = html_to_mobiledoc("<div>only a division</div>");
    assert_eq!(d.children.len(), 0);
    assert_eq!(d.node_type, "root");
}

#[test]
fn empty_html_yields_empty_root() {
    let d = html_to_mobiledoc("");
    assert_eq!(d.children.len(), 0);
}

#[test]
fn empty_paragraph_yields_node_without_leaves() {
    let d = html_to_mobiledoc("<p></p><p>x</p>");
    assert_eq!(d.children.len(), 2);
    assert_eq!(d.children[0].children.len(), 0);
    assert_eq!(d.children[1].children.len(), 1);
    assert_eq!(d.children[1].children[0].text, "x");
}

#[test]
fn unmatched_markup_degrades_gracefully() {
    let d = html_to_mobiledoc("<p>open only");
    assert_eq!(d.children.len(), 1);
    assert_eq!(d.children[0].children[0].text, "open only");
}

#[test]
fn revision_string_embeds_html_verbatim() {
    let s = mobiledoc_revision("<p>Hi</p>");
    assert_eq!(
        s,
        "{\"version\":\"0.3.1\",\"atoms\":[],\"cards\":[],\"markups\":[],\"sections\":[[1,\"p\",[[0,[],0,\"<p>Hi</p>\"]]]]}"
    );
}

#[test]
fn revision_string_of_empty_html() {
    let s = mobiledoc_revision("");
    assert_eq!(
        s,
        "{\"version\":\"0.3.1\",\"atoms\":[],\"cards\":[],\"markups\":[],\"sections\":[[1,\"p\",[[0,[],0,\"\"]]]]}"
    );
}
