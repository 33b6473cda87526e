//! The target store's structured rich-text document, and the crude legacy
//! revision envelope kept beside it for archival compatibility.
//!
//! A document is a root node holding one paragraph node per `<p>` element
//! of the source HTML, each paragraph holding one text leaf per text
//! segment, in source order. All other markup is deliberately ignored.

use vstd::prelude::*;
use vstd::string::StringExecFns;

verus! {

/// One text segment of a paragraph. Besides the text itself, a leaf
/// carries only fixed metadata: format flags cleared, empty style, the
/// plain-text type tag, schema version 1.
pub struct TextLeaf {
    pub detail: u32,
    pub format_flags: u32,
    pub mode_name: String,
    pub style: String,
    pub text: String,
    pub node_type: String,
    pub version: u32,
}

/// One paragraph of the document, with its fixed node metadata.
pub struct ParagraphNode {
    pub children: Vec<TextLeaf>,
    pub direction: String,
    pub format_label: String,
    pub indent: u32,
    pub node_type: String,
    pub version: u32,
}

/// The document root: left-to-right direction, no indentation, schema
/// version 1, and the paragraph nodes as children.
pub struct DocumentRoot {
    pub children: Vec<ParagraphNode>,
    pub direction: String,
    pub format_label: String,
    pub indent: u32,
    pub node_type: String,
    pub version: u32,
}

impl TextLeaf {
    /// The fixed leaf metadata of the target format.
    pub open spec fn wf(self) -> bool {
        &&& self.detail == 0
        &&& self.format_flags == 0
        &&& self.mode_name@ == "normal"@
        &&& self.style@ == ""@
        &&& self.node_type@ == "extended-text"@
        &&& self.version == 1
    }

    /// Wraps one text segment in a leaf node.
    pub fn new(text: String) -> (leaf: TextLeaf)
        ensures
            leaf.wf(),
            leaf.text == text,
    {
        TextLeaf {
            detail: 0,
            format_flags: 0,
            mode_name: String::from_str("normal"),
            style: String::from_str(""),
            text,
            node_type: String::from_str("extended-text"),
            version: 1,
        }
    }
}

impl ParagraphNode {
    /// The fixed paragraph metadata, and well-formed leaves.
    pub open spec fn wf(self) -> bool {
        &&& self.direction@ == "ltr"@
        &&& self.format_label@ == ""@
        &&& self.indent == 0
        &&& self.node_type@ == "paragraph"@
        &&& self.version == 1
        &&& forall|i: int| 0 <= i < self.children@.len() ==> (#[trigger] self.children@[i]).wf()
    }

    /// The texts of this paragraph's leaves, in order.
    pub open spec fn segments(self) -> Seq<Seq<char>> {
        self.children@.map(|i: int, leaf: TextLeaf| leaf.text@)
    }

    /// Wraps the leaves of one paragraph in a paragraph node.
    pub fn new(children: Vec<TextLeaf>) -> (p: ParagraphNode)
        requires
            forall|i: int| 0 <= i < children@.len() ==> (#[trigger] children@[i]).wf(),
        ensures
            p.wf(),
            p.children == children,
    {
        ParagraphNode {
            children,
            direction: String::from_str("ltr"),
            format_label: String::from_str(""),
            indent: 0,
            node_type: String::from_str("paragraph"),
            version: 1,
        }
    }
}

impl DocumentRoot {
    /// The fixed root metadata, and well-formed paragraphs.
    pub open spec fn wf(self) -> bool {
        &&& self.direction@ == "ltr"@
        &&& self.format_label@ == ""@
        &&& self.indent == 0
        &&& self.node_type@ == "root"@
        &&& self.version == 1
        &&& forall|i: int| 0 <= i < self.children@.len() ==> (#[trigger] self.children@[i]).wf()
    }

    /// The text segments of the whole document: one inner sequence per
    /// paragraph, in source order.
    pub open spec fn segments(self) -> Seq<Seq<Seq<char>>> {
        self.children@.map(|i: int, p: ParagraphNode| p.segments())
    }

    /// Wraps the paragraph nodes in a root node.
    pub fn new(children: Vec<ParagraphNode>) -> (d: DocumentRoot)
        requires
            forall|i: int| 0 <= i < children@.len() ==> (#[trigger] children@[i]).wf(),
        ensures
            d.wf(),
            d.children == children,
    {
        DocumentRoot {
            children,
            direction: String::from_str("ltr"),
            format_label: String::from_str(""),
            indent: 0,
            node_type: String::from_str("root"),
            version: 1,
        }
    }
}

/// The text segments that the HTML parser finds: one inner sequence per
/// `<p>` element in document order, holding that paragraph's text
/// segments in order. A function of the HTML text alone.
pub uninterp spec fn paragraph_texts_of(html: Seq<char>) -> Seq<Seq<Seq<char>>>;

/// Relies on `scraper::Html::parse_document`, `Html::select` with the
/// `p` selector, and `ElementRef::text`: the text segments of every
/// `<p>` element, in document order. Parsing is deterministic, so the
/// result depends on the HTML text alone.
#[verifier::external_body]
pub(crate) fn extract_paragraph_texts(html: &str) -> (r: Vec<Vec<String>>)
    ensures
        r.deep_view() == paragraph_texts_of(html@),
{
    let document = scraper::Html::parse_document(html);
    let paragraph = scraper::Selector::parse("p").unwrap();
    document
        .select(&paragraph)
        .map(|p| p.text().map(|t| t.to_string()).collect())
        .collect()
}

/// Builds the structured document for the given paragraph texts: one
/// paragraph node per input paragraph, one leaf per text segment, in
/// order. No input is rejected; no paragraphs yield an empty root.
pub fn build_document(paragraphs: Vec<Vec<String>>) -> (d: DocumentRoot)
    ensures
        d.wf(),
        d.segments() == paragraphs.deep_view(),
        d.children@.len() == paragraphs@.len(),
{
    let mut nodes: Vec<ParagraphNode> = Vec::new();
    let mut i: usize = 0;
    while i < paragraphs.len()
        invariant
            i <= paragraphs@.len(),
            nodes@.len() == i,
            forall|k: int| 0 <= k < i ==> (#[trigger] nodes@[k]).wf(),
            forall|k: int| 0 <= k < i ==> (#[trigger] nodes@[k]).segments()
                == paragraphs.deep_view()[k],
        decreases paragraphs@.len() - i,
    {
        let segment_texts = &paragraphs[i];
        let mut leaves: Vec<TextLeaf> = Vec::new();
        let mut j: usize = 0;
        while j < segment_texts.len()
            invariant
                j <= segment_texts@.len(),
                leaves@.len() == j,
                forall|k: int| 0 <= k < j ==> (#[trigger] leaves@[k]).wf(),
                forall|k: int| 0 <= k < j ==> (#[trigger] leaves@[k]).text@
                    == segment_texts.deep_view()[k],
            decreases segment_texts@.len() - j,
        {
            leaves.push(TextLeaf::new(segment_texts[j].clone()));
            j += 1;
        }
        let node = ParagraphNode::new(leaves);
        assert(node.segments() =~= segment_texts.deep_view());
        nodes.push(node);
        i += 1;
    }
    let d = DocumentRoot::new(nodes);
    assert(d.segments() =~= paragraphs.deep_view());
    d
}

/// The pieces of the legacy single-section revision envelope: everything
/// before the embedded HTML, and everything after it.
pub open spec fn revision_prefix() -> Seq<char> {
    "{\"version\":\"0.3.1\",\"atoms\":[],\"cards\":[],\"markups\":[],\"sections\":[[1,\"p\",[[0,[],0,\""@
}

/// The closing piece of the legacy revision envelope.
pub open spec fn revision_suffix() -> Seq<char> {
    "\"]]]]}"@
}

/// Produces the minimal serialized revision string: the fixed envelope
/// with the entire unparsed HTML embedded verbatim — deliberately crude,
/// kept for archival compatibility. Never fails.
pub fn mobiledoc_revision(html: &str) -> (s: String)
    ensures
        s@ == revision_prefix() + html@ + revision_suffix(),
{
    let mut s = String::from_str(
        "{\"version\":\"0.3.1\",\"atoms\":[],\"cards\":[],\"markups\":[],\"sections\":[[1,\"p\",[[0,[],0,\"",
    );
    s.append(html);
    s.append("\"]]]]}");
    s
}

} // verus!
