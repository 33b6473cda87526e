//! The post ingestion pipeline on concrete payloads.

use import_wp::authors::resolve_author;
use import_wp::generate_truncated_uuid;
use import_wp::posts::get_meta_title;
use import_wp::posts::insert_post;
use import_wp::posts::Post;
use import_wp::tags::tag_associations;
use import_wp::text::split_commas;

fn payload() -> Post {
    Post {
        id: None,
        title: String::from("Hello World"),
        slug: String::from("hello-world"),
        html: String::from("<p>Hello World</p>"),
        excerpt: String::from("a greeting"),
        created_at: String::from("2024-01-15 10:30:00"),
        updated_at: String::from("2024-01-16 08:00:00"),
        author_id: String::from("legacy-77"),
        image_url: None,
        meta_title: None,
        tags: String::from("rust,verus"),
    }
}

fn is_record_id(s: &str) -> bool {
    s.len() == 24 && s.chars().all(|c| c.is_ascii_hexdigit() && !c.is_ascii_uppercase())
}

#[test]
fn identifier_is_24_lowercase_hex() {
    for _ in 0..50 {
        let id = generate_truncated_uuid();
        assert!(is_record_id(&id), "bad identifier: {id}");
    }
}

#[test]
fn successive_identifiers_differ() {
    let a = generate_truncated_uuid();
    let b = generate_truncated_uuid();
    assert_ne!(a, b);
}

#[test]
fn mapped_author_resolves_to_mapped_id() {
    let resolved = resolve_author(Some(String::from("internal-42")));
    assert_eq!(resolved, "internal-42");
}

#[test]
fn unmapped_author_falls_back_to_default() {
    let resolved = resolve_author(None);
    assert_eq!(resolved, "1");
}

#[test]
fn labels_split_on_commas_verbatim() {
    let segments = split_commas("a,b,c");
    assert_eq!(segments, vec!["a", "b", "c"]);
    let spaced = split_commas("a, b");
    assert_eq!(spaced, vec!["a", " b"]);
}

#[test]
fn empty_label_string_yields_one_empty_segment() {
    let segments = split_commas("");
    assert_eq!(segments, vec![""]);
}

#[test]
fn trailing_and_doubled_commas_keep_empty_segments() {
    assert_eq!(split_commas("a,"), vec!["a", ""]);
    assert_eq!(split_commas(",a"), vec!["", "a"]);
    assert_eq!(split_commas("a,,b"), vec!["a", "", "b"]);
}

#[test]
fn two_imports_get_distinct_post_ids() {
    let first = insert_post(String::from("author-7"), payload());
    let second = insert_post(String::from("author-7"), payload());
    assert_ne!(first.post.id, second.post.id);
    assert_ne!(first.post.uuid, second.post.uuid);
}

#[test]
fn missing_tag_is_skipped_silently() {
    let lookups = vec![
        Some(String::from("tag-a")),
        None,
        Some(String::from("tag-c")),
    ];
    let links = tag_associations("post-1", lookups);
    assert_eq!(links.len(), 2);
    assert_eq!(links[0].tag_id, "tag-a");
    assert_eq!(links[1].tag_id, "tag-c");
    for link in &links {
        assert_eq!(link.post_id, "post-1");
        assert_eq!(link.sort_order, 0);
        assert!(is_record_id(&link.id));
    }
}

#[test]
fn all_tags_missing_yield_no_associations() {
    let links = tag_associations("post-1", vec![None, None]);
    assert!(links.is_empty());
}

#[test]
fn epoch_is_computed_and_shared_by_both_revisions() {
    let plan = insert_post(String::from("author-7"), payload());
    let tail = plan.tail.expect("created_at parses");
    assert_eq!(tail.document_revision.created_at_epoch, 1705314600);
    assert_eq!(tail.post_revision.created_at_epoch, 1705314600);
    assert_eq!(
        tail.document_revision.serialized_document,
        tail.post_revision.serialized_document
    );
    assert_eq!(tail.document_revision.created_at, "2024-01-15 10:30:00");
}

#[test]
fn unparseable_created_at_drops_the_tail() {
    let mut post = payload();
    post.created_at = String::from("not-a-date");
    let plan = insert_post(String::from("author-7"), post);
    assert!(plan.tail.is_none());
    assert!(is_record_id(&plan.post.id));
    assert_eq!(plan.reply.created_at, "not-a-date");
}

#[test]
fn long_title_without_meta_title_yields_empty() {
    let mut post = payload();
    post.title = String::from("0123456789012345678901234567890123456789");
    assert_eq!(post.title.len(), 40);
    assert_eq!(get_meta_title(&post), "");
}

#[test]
fn short_title_without_meta_title_falls_back_to_title() {
    let mut post = payload();
    post.title = String::from("0123456789");
    assert_eq!(get_meta_title(&post), "0123456789");
}

#[test]
fn explicit_meta_title_wins_verbatim() {
    let mut post = payload();
    post.title = String::from("0123456789012345678901234567890123456789");
    post.meta_title = Some(String::from("chosen"));
    assert_eq!(get_meta_title(&post), "chosen");
}

#[test]
fn post_record_carries_fixed_publication_fields() {
    let plan = insert_post(String::from("author-7"), payload());
    assert_eq!(plan.post.status, "published");
    assert_eq!(plan.post.visibility, "public");
    assert_eq!(plan.post.created_by, "author-7");
    assert_eq!(plan.post.published_by, "author-7");
    assert_eq!(plan.post.published_at, "2024-01-15 10:30:00");
    assert_eq!(plan.post.feature_image, "");
    assert_eq!(plan.post.uuid.len(), 36);
    assert_eq!(&plan.post.uuid[8..9], "-");
    assert_eq!(&plan.post.uuid[13..14], "-");
    assert_eq!(&plan.post.uuid[18..19], "-");
    assert_eq!(&plan.post.uuid[23..24], "-");
}

#[test]
fn feature_image_url_gets_internal_prefix() {
    let mut post = payload();
    post.image_url = Some(String::from("/wp-content/uploads/2024/01/cover.png"));
    let plan = insert_post(String::from("author-7"), post);
    assert_eq!(
        plan.post.feature_image,
        "__GHOST_URL__/wp-content/uploads/2024/01/cover.png"
    );
}

#[test]
fn revision_tail_marks_the_post_published() {
    let plan = insert_post(String::from("author-7"), payload());
    let tail = plan.tail.expect("created_at parses");
    assert_eq!(tail.post_revision.status, "published");
    assert_eq!(tail.post_revision.reason, "published");
    assert_eq!(tail.post_revision.title, "Hello World");
    assert_eq!(tail.post_revision.author_id, "author-7");
    assert_eq!(tail.meta.meta_title, "Hello World");
    assert_eq!(tail.meta.meta_description, "a greeting");
}

#[test]
fn import_round_trip_with_two_tags_and_mapped_author() {
    let author_id = resolve_author(Some(String::from("internal-9")));
    let plan = insert_post(author_id, payload());

    assert!(is_record_id(&plan.reply.id));
    assert_eq!(plan.reply.id, plan.post.id);
    assert_eq!(plan.reply.slug, "hello-world");
    assert_eq!(plan.reply.author_id, "internal-9");

    assert_eq!(plan.author_link.post_id, plan.post.id);
    assert_eq!(plan.author_link.author_id, "internal-9");
    assert_eq!(plan.author_link.sort_order, 0);

    assert_eq!(plan.tag_labels, vec!["rust", "verus"]);
    let lookups = plan
        .tag_labels
        .iter()
        .map(|label| Some(format!("id-of-{label}")))
        .collect::<Vec<_>>();
    let links = tag_associations(&plan.post.id, lookups);
    assert_eq!(links.len(), 2);
    assert_eq!(links[0].tag_id, "id-of-rust");
    assert_eq!(links[1].tag_id, "id-of-verus");
    assert!(links.iter().all(|l| l.post_id == plan.post.id));

    assert_eq!(plan.excerpt_update.post_id, plan.post.id);
    assert_eq!(plan.excerpt_update.excerpt, "a greeting");

    assert_eq!(plan.post.lexical.children.len(), 1);
    assert_eq!(plan.post.lexical.children[0].children[0].text, "Hello World");
}
