//! The post ingestion writer: the orchestrating core of the migration
//! pipeline.
//!
//! Given the resolved internal author identity and the inbound payload,
//! [`insert_post`] computes every record the target store needs and the
//! order they are written in. The caller drives the writes: the post row
//! is the single critical insert, and everything after it is best-effort
//! except an unparseable `created_at`, which aborts the remaining steps
//! and is reported as a client input error.

use vstd::prelude::*;
use vstd::string::StrSliceExecFns;
use vstd::string::StringExecFns;

use crate::document::DocumentRoot;
use crate::document::paragraph_texts_of;
use crate::document::revision_prefix;
use crate::document::revision_suffix;
use crate::text::comma_free;
use crate::text::is_hyphenated_uuid;
use crate::text::is_record_id;
use crate::text::join_commas;

verus! {

/// An inbound post payload. `author_id` carries the external author
/// reference of the legacy source, not an internal identity; `tags` is
/// the comma-joined label string.
pub struct Post {
    pub id: Option<u64>,
    pub title: String,
    pub slug: String,
    pub html: String,
    pub excerpt: String,
    pub created_at: String,
    pub updated_at: String,
    pub author_id: String,
    pub image_url: Option<String>,
    pub meta_title: Option<String>,
    pub tags: String,
}

/// The success reply of the pipeline: assembled from the new post id,
/// the payload, and the resolved internal author id.
pub struct PostReply {
    pub id: String,
    pub title: String,
    pub slug: String,
    pub created_at: String,
    pub updated_at: String,
    pub author_id: String,
}

/// The post row itself: the single critical insert of the pipeline.
pub struct PostRecord {
    pub id: String,
    pub uuid: String,
    pub title: String,
    pub slug: String,
    pub html: String,
    pub lexical: DocumentRoot,
    pub created_at: String,
    pub updated_at: String,
    pub created_by: String,
    pub published_by: String,
    pub published_at: String,
    pub feature_image: String,
    pub status: String,
    pub visibility: String,
}

/// The best-effort update of the post's excerpt column.
pub struct ExcerptUpdate {
    pub post_id: String,
    pub excerpt: String,
}

/// The single author association of a post: this pipeline imports
/// single-author posts only.
pub struct PostAuthorAssociation {
    pub id: String,
    pub post_id: String,
    pub author_id: String,
    pub sort_order: u32,
}

/// The archival document revision: the crude serialized envelope and the
/// epoch seconds parsed from `created_at`.
pub struct DocumentRevisionRecord {
    pub id: String,
    pub post_id: String,
    pub serialized_document: String,
    pub created_at: String,
    pub created_at_epoch: i64,
}

/// The post revision row, marked published.
pub struct PostRevisionRecord {
    pub id: String,
    pub post_id: String,
    pub created_at_epoch: i64,
    pub created_at: String,
    pub serialized_document: String,
    pub title: String,
    pub status: String,
    pub author_id: String,
    pub reason: String,
}

/// The post metadata row: the derived meta title and the excerpt as
/// description.
pub struct PostMetaRecord {
    pub id: String,
    pub post_id: String,
    pub meta_title: String,
    pub meta_description: String,
}

/// The records that are only written when `created_at` parses: both
/// revision rows and the metadata row.
pub struct PostWriteTail {
    pub document_revision: DocumentRevisionRecord,
    pub post_revision: PostRevisionRecord,
    pub meta: PostMetaRecord,
}

/// Everything one pipeline run writes, in write order: the critical post
/// insert, then the best-effort excerpt update and author association,
/// then one slug lookup per tag label, then — only when `created_at`
/// parsed, witnessed by `tail` — the revision and metadata rows. A
/// `None` tail means the run ends as a client input error after the
/// earlier best-effort steps.
pub struct PostWritePlan {
    pub post: PostRecord,
    pub excerpt_update: ExcerptUpdate,
    pub author_link: PostAuthorAssociation,
    pub tag_labels: Vec<String>,
    pub tail: Option<PostWriteTail>,
    pub reply: PostReply,
}

/// The epoch seconds that the fixed `%Y-%m-%d %H:%M:%S` layout reads out
/// of a timestamp text, or nothing when the text does not parse. A
/// function of the text alone.
pub uninterp spec fn epoch_of_datetime_text(s: Seq<char>) -> Option<i64>;

/// Relies on `chrono::NaiveDateTime::parse_from_str` with the
/// `%Y-%m-%d %H:%M:%S` layout, and `DateTime::<Utc>::timestamp`: the
/// parse is deterministic and timezone-free, so the result depends on
/// the text alone.
#[verifier::external_body]
pub(crate) fn parse_created_at(s: &str) -> (r: Option<i64>)
    ensures
        r == epoch_of_datetime_text(s@),
{
    chrono::NaiveDateTime::parse_from_str(s, "%Y-%m-%d %H:%M:%S")
        .ok()
        .map(|dt| dt.and_utc().timestamp())
}

/// The feature-image column: the url rewritten with the fixed
/// internal-reference prefix when one was supplied, empty otherwise.
pub open spec fn spec_feature_image(image_url: Option<Seq<char>>) -> Seq<char> {
    match image_url {
        Some(u) => "__GHOST_URL__"@ + u,
        None => Seq::empty(),
    }
}

fn feature_image_of(image_url: &Option<String>) -> (r: String)
    ensures
        r@ == spec_feature_image(image_url.deep_view()),
{
    match image_url {
        Some(u) => {
            let mut s = String::from_str("__GHOST_URL__");
            s.append(u.as_str());
            s
        },
        None => {
            proof {
                reveal_strlit("");
            }
            String::from_str("")
        },
    }
}

/// The derived meta title: an explicit meta title verbatim when one was
/// supplied; otherwise the title itself when it is at most 30 characters
/// long, and the empty fallback for a longer title.
pub open spec fn spec_meta_title(title: Seq<char>, explicit: Option<Seq<char>>) -> Seq<char> {
    match explicit {
        Some(m) => m,
        None => if title.len() > 30 {
            Seq::empty()
        } else {
            title
        },
    }
}

/// Computes the meta title of a post, as [`spec_meta_title`] states.
pub fn get_meta_title(post: &Post) -> (r: String)
    ensures
        r@ == spec_meta_title(post.title@, post.meta_title.deep_view()),
{
    match &post.meta_title {
        Some(m) => m.clone(),
        None => {
            if post.title.as_str().unicode_len() > 30 {
                String::new()
            } else {
                post.title.clone()
            }
        },
    }
}

/// Computes the full write plan of one pipeline run from the resolved
/// internal author identity and the payload. Pure record construction:
/// every field of every record is pinned to the payload, the author, the
/// derived document, and fresh identifiers. Never fails — an unparseable
/// `created_at` is recorded as an empty tail, which the caller reports
/// as a client input error after the earlier best-effort steps.
pub fn insert_post(author_id: String, post: Post) -> (plan: PostWritePlan)
    ensures
        is_record_id(plan.post.id@),
        is_hyphenated_uuid(plan.post.uuid@),
        plan.post.title == post.title,
        plan.post.slug == post.slug,
        plan.post.html == post.html,
        plan.post.lexical.wf(),
        plan.post.lexical.segments() == paragraph_texts_of(post.html@),
        plan.post.created_at == post.created_at,
        plan.post.updated_at == post.updated_at,
        plan.post.created_by == author_id,
        plan.post.published_by == author_id,
        plan.post.published_at == post.created_at,
        plan.post.feature_image@ == spec_feature_image(post.image_url.deep_view()),
        plan.post.status@ == "published"@,
        plan.post.visibility@ == "public"@,
        plan.excerpt_update.post_id == plan.post.id,
        plan.excerpt_update.excerpt == post.excerpt,
        is_record_id(plan.author_link.id@),
        plan.author_link.post_id == plan.post.id,
        plan.author_link.author_id == author_id,
        plan.author_link.sort_order == 0,
        plan.tag_labels@.len() >= 1,
        join_commas(plan.tag_labels.deep_view()) == post.tags@,
        comma_free(plan.tag_labels.deep_view()),
        plan.tail is Some <==> epoch_of_datetime_text(post.created_at@) is Some,
        match plan.tail {
            None => true,
            Some(t) => {
                &&& epoch_of_datetime_text(post.created_at@) == Some(
                    t.document_revision.created_at_epoch,
                )
                &&& is_record_id(t.document_revision.id@)
                &&& t.document_revision.post_id == plan.post.id
                &&& t.document_revision.serialized_document@ == revision_prefix() + post.html@
                    + revision_suffix()
                &&& t.document_revision.created_at == post.created_at
                &&& is_record_id(t.post_revision.id@)
                &&& t.post_revision.post_id == plan.post.id
                &&& t.post_revision.created_at_epoch == t.document_revision.created_at_epoch
                &&& t.post_revision.created_at == post.created_at
                &&& t.post_revision.serialized_document == t.document_revision.serialized_document
                &&& t.post_revision.title == post.title
                &&& t.post_revision.status@ == "published"@
                &&& t.post_revision.author_id == author_id
                &&& t.post_revision.reason@ == "published"@
                &&& is_record_id(t.meta.id@)
                &&& t.meta.post_id == plan.post.id
                &&& t.meta.meta_title@ == spec_meta_title(
                    post.title@,
                    post.meta_title.deep_view(),
                )
                &&& t.meta.meta_description == post.excerpt
            },
        },
        plan.reply.id == plan.post.id,
        plan.reply.title == post.title,
        plan.reply.slug == post.slug,
        plan.reply.created_at == post.created_at,
        plan.reply.updated_at == post.updated_at,
        plan.reply.author_id == author_id,
{
    let post_id = crate::generate_truncated_uuid();
    let uuid = crate::random_hyphenated_uuid();
    let content = crate::html_to_mobiledoc(post.html.as_str());
    let feature_image = feature_image_of(&post.image_url);
    let record = PostRecord {
        id: post_id.clone(),
        uuid,
        title: post.title.clone(),
        slug: post.slug.clone(),
        html: post.html.clone(),
        lexical: content,
        created_at: post.created_at.clone(),
        updated_at: post.updated_at.clone(),
        created_by: author_id.clone(),
        published_by: author_id.clone(),
        published_at: post.created_at.clone(),
        feature_image,
        status: String::from_str("published"),
        visibility: String::from_str("public"),
    };
    let excerpt_update = ExcerptUpdate {
        post_id: post_id.clone(),
        excerpt: post.excerpt.clone(),
    };
    let author_link = PostAuthorAssociation {
        id: crate::generate_truncated_uuid(),
        post_id: post_id.clone(),
        author_id: author_id.clone(),
        sort_order: 0,
    };
    let tag_labels = crate::text::split_commas(post.tags.as_str());
    let tail = match parse_created_at(post.created_at.as_str()) {
        Some(epoch) => {
            let serialized = crate::document::mobiledoc_revision(post.html.as_str());
            let meta_title = get_meta_title(&post);
            Some(
                PostWriteTail {
                    document_revision: DocumentRevisionRecord {
                        id: crate::generate_truncated_uuid(),
                        post_id: post_id.clone(),
                        serialized_document: serialized.clone(),
                        created_at: post.created_at.clone(),
                        created_at_epoch: epoch,
                    },
                    post_revision: PostRevisionRecord {
                        id: crate::generate_truncated_uuid(),
                        post_id: post_id.clone(),
                        created_at_epoch: epoch,
                        created_at: post.created_at.clone(),
                        serialized_document: serialized,
                        title: post.title.clone(),
                        status: String::from_str("published"),
                        author_id: author_id.clone(),
                        reason: String::from_str("published"),
                    },
                    meta: PostMetaRecord {
                        id: crate::generate_truncated_uuid(),
                        post_id: post_id.clone(),
                        meta_title,
                        meta_description: post.excerpt.clone(),
                    },
                },
            )
        },
        None => None,
    };
    let reply = PostReply {
        id: post_id,
        title: post.title,
        slug: post.slug,
        created_at: post.created_at,
        updated_at: post.updated_at,
        author_id,
    };
    PostWritePlan { post: record, excerpt_update, author_link, tag_labels, tail, reply }
}

} // verus!
