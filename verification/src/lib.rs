//! Content migration pipeline for importing legacy blog posts into a
//! structured content store.
//!
//! The crate turns an inbound post payload into the full set of rows the
//! target store needs — the post itself, its author and tag associations,
//! two revision records and a metadata record — together with the
//! structured rich-text document derived from the post's HTML body.
//! Everything that decides or computes lives here and is verified; the
//! HTTP and SQL plumbing around it stays outside the crate.

pub mod authors;
pub mod document;
pub mod health;
pub mod image;
pub mod posts;
pub mod rows;
pub mod tags;
pub mod text;

use vstd::prelude::*;
use vstd::string::StrSliceExecFns;
use vstd::string::StringExecFns;

verus! {

/// Relies on `uuid::Uuid::new_v4` and the `Simple` formatter: a random
/// 128-bit value rendered as 32 lowercase hexadecimal characters.
#[verifier::external_body]
fn random_simple_hex() -> (s: String)
    ensures
        s@.len() == 32,
        forall|i: int| 0 <= i < s@.len() ==> crate::text::is_lower_hex_digit(#[trigger] s@[i]),
{
    uuid::Uuid::new_v4().as_simple().to_string()
}

/// Relies on `uuid::Uuid::new_v4` and the `Display` of `Uuid` (its
/// `Hyphenated` formatter): a random 128-bit value rendered as 36
/// characters, hyphens at the four fixed positions, lowercase
/// hexadecimal elsewhere.
#[verifier::external_body]
pub(crate) fn random_hyphenated_uuid() -> (s: String)
    ensures
        crate::text::is_hyphenated_uuid(s@),
{
    uuid::Uuid::new_v4().to_string()
}

/// Produces the fixed-width opaque identifier used as the primary key of
/// every record this crate creates: the first 24 characters of the
/// hexadecimal rendering of a fresh random 128-bit value.
pub fn generate_truncated_uuid() -> (s: String)
    ensures
        crate::text::is_record_id(s@),
{
    let hex = random_simple_hex();
    let head = hex.as_str().substring_char(0, 24);
    String::from_str(head)
}

/// Converts a flat HTML fragment into the structured document: one
/// paragraph node per `<p>` element, one text leaf per text segment, in
/// source order; all other markup is ignored. HTML with no paragraphs
/// yields a root with no children, never an error.
pub fn html_to_mobiledoc(html: &str) -> (d: crate::document::DocumentRoot)
    ensures
        d.wf(),
        d.segments() == crate::document::paragraph_texts_of(html@),
        d.children@.len() == crate::document::paragraph_texts_of(html@).len(),
{
    let paragraphs = crate::document::extract_paragraph_texts(html);
    crate::document::build_document(paragraphs)
}

} // verus!
