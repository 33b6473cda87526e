//! Tag payloads and the tag-resolution policy of the post pipeline.
//!
//! A post carries its tags as one comma-joined label string. Each label
//! is looked up by slug; a hit yields one association row, a miss is
//! skipped silently and never aborts the remaining labels or the post.

use vstd::prelude::*;
use vstd::string::StringExecFns;

verus! {

/// An inbound tag payload; the id is filled by the store on creation.
pub struct Tag {
    pub id: Option<u64>,
    pub name: String,
    pub slug: String,
}

/// One post-to-tag association row: one per label whose slug lookup hit.
pub struct PostTagAssociation {
    pub id: String,
    pub post_id: String,
    pub tag_id: String,
    pub sort_order: u32,
}

/// The tag ids that the slug lookups produced, hits only, in label
/// order: the misses are skipped.
pub open spec fn resolved_tag_ids(lookups: Seq<Option<Seq<char>>>) -> Seq<Seq<char>>
    decreases lookups.len(),
{
    if lookups.len() == 0 {
        Seq::empty()
    } else {
        let head = resolved_tag_ids(lookups.drop_last());
        match lookups.last() {
            Some(id) => head.push(id),
            None => head,
        }
    }
}

/// Builds the association rows for a post from the per-label lookup
/// results, in label order: one row with a fresh id per hit, nothing for
/// a miss. A miss never aborts the remaining labels.
pub fn tag_associations(post_id: &str, lookups: Vec<Option<String>>) -> (links: Vec<
    PostTagAssociation,
>)
    ensures
        links@.len() == resolved_tag_ids(lookups.deep_view()).len(),
        forall|k: int|
            0 <= k < links@.len() ==> {
                &&& (#[trigger] links@[k]).tag_id@ == resolved_tag_ids(lookups.deep_view())[k]
                &&& links@[k].post_id@ == post_id@
                &&& links@[k].sort_order == 0
                &&& crate::text::is_record_id(links@[k].id@)
            },
{
    let mut links: Vec<PostTagAssociation> = Vec::new();
    let mut i: usize = 0;
    while i < lookups.len()
        invariant
            i <= lookups@.len(),
            links@.len() == resolved_tag_ids(lookups.deep_view().subrange(0, i as int)).len(),
            forall|k: int|
                0 <= k < links@.len() ==> {
                    &&& (#[trigger] links@[k]).tag_id@ == resolved_tag_ids(
                        lookups.deep_view().subrange(0, i as int),
                    )[k]
                    &&& links@[k].post_id@ == post_id@
                    &&& links@[k].sort_order == 0
                    &&& crate::text::is_record_id(links@[k].id@)
                },
        decreases lookups@.len() - i,
    {
        proof {
            let prefix = lookups.deep_view().subrange(0, (i + 1) as int);
            assert(prefix.drop_last() =~= lookups.deep_view().subrange(0, i as int));
            assert(prefix.last() == lookups.deep_view()[i as int]);
        }
        match &lookups[i] {
            Some(tag_id) => {
                let link = PostTagAssociation {
                    id: crate::generate_truncated_uuid(),
                    post_id: String::from_str(post_id),
                    tag_id: tag_id.clone(),
                    sort_order: 0,
                };
                links.push(link);
            },
            None => {},
        }
        i += 1;
    }
    proof {
        assert(lookups.deep_view().subrange(0, lookups.deep_view().len() as int)
            =~= lookups.deep_view());
    }
    links
}

} // verus!
