//! Image upload payloads and the pure part of image storage: decoding
//! the transported bytes and deriving the on-disk and public paths from
//! the legacy upload path.

use vstd::prelude::*;
use vstd::string::StrSliceExecFns;
use vstd::string::StringExecFns;

use crate::text::find_sub;
use crate::text::first_match;
use crate::text::is_first_match;
use crate::text::lemma_first_match_props;
use crate::text::remove_all;
use crate::text::strip_pattern;

verus! {

/// An image for an author's profile, with its transported content.
pub struct ImageAuthor {
    pub author_id: String,
    pub path_image: String,
    pub base64: String,
}

/// An image for a post's feature slot, with its transported content.
pub struct ImagePost {
    pub post_id: String,
    pub path_image: String,
    pub base64: String,
}

/// The storage request common to both image kinds.
pub struct ImageRequest {
    pub path_image: String,
    pub base64: String,
}

/// The reply of a stored image: its public url.
pub struct ImageReply {
    pub image: String,
}

/// The legacy upload-path marker that both path derivations key on.
pub open spec fn uploads_prefix() -> Seq<char> {
    "wp-content/uploads/"@
}

/// The file name of an image: its legacy path with every upload-path
/// marker stripped out.
pub fn replace_name(original: String) -> (r: String)
    ensures
        r@ == remove_all(original@, uploads_prefix()),
{
    proof {
        reveal_strlit("wp-content/uploads/");
    }
    strip_pattern(original.as_str(), "wp-content/uploads/")
}

/// The year-and-month folder of an image path: when the legacy marker
/// occurs and two more slashes follow it, the text up to the second of
/// those slashes, wrapped in slashes; any other shape is returned
/// unchanged.
pub open spec fn spec_folder_year(s: Seq<char>) -> Seq<char> {
    match first_match(s, uploads_prefix()) {
        None => s,
        Some(st) => {
            let after = s.subrange(st + uploads_prefix().len(), s.len() as int);
            match first_match(after, seq!['/']) {
                None => s,
                Some(e) => {
                    let rest = after.subrange(e + 1, after.len() as int);
                    match first_match(rest, seq!['/']) {
                        None => s,
                        Some(e2) => seq!['/'] + after.subrange(0, e + e2 + 1) + seq!['/'],
                    }
                },
            }
        },
    }
}

/// Derives the year-and-month folder of an image path, as
/// [`spec_folder_year`] states.
pub fn folder_year(original: String) -> (r: String)
    ensures
        r@ == spec_folder_year(original@),
{
    proof {
        reveal_strlit("/");
        assert("/"@ =~= seq!['/']);
    }
    let s = original.as_str();
    let n: usize = s.unicode_len();
    let found = find_sub(s, "wp-content/uploads/");
    match found {
        None => original,
        Some(st) => {
            proof {
                lemma_first_match_props(s@, uploads_prefix());
            }
            let plen: usize = "wp-content/uploads/".unicode_len();
            let after = s.substring_char(st + plen, n);
            let after_len: usize = n - (st + plen);
            let e_found = find_sub(after, "/");
            match e_found {
                None => original,
                Some(e) => {
                    proof {
                        lemma_first_match_props(after@, "/"@);
                        assert(is_first_match(after@, seq!['/'], e as int));
                    }
                    let rest = after.substring_char(e + 1, after_len);
                    let e2_found = find_sub(rest, "/");
                    match e2_found {
                        None => original,
                        Some(e2) => {
                            proof {
                                lemma_first_match_props(rest@, "/"@);
                                assert(is_first_match(rest@, seq!['/'], e2 as int));
                            }
                            let date_part = after.substring_char(0, e + e2 + 1);
                            let mut out = String::from_str("/");
                            out.append(date_part);
                            out.append("/");
                            out
                        },
                    }
                },
            }
        },
    }
}

/// The decoded bytes of a base64 text, or nothing when the text is not
/// valid base64 under the standard alphabet with padding. A function of
/// the text alone.
pub uninterp spec fn base64_decoding(s: Seq<char>) -> Option<Seq<u8>>;

/// Relies on `base64::engine::general_purpose::STANDARD` and
/// `Engine::decode`: deterministic decoding under the standard alphabet
/// with padding, rejecting any text that is not valid base64.
#[verifier::external_body]
fn decode_base64(s: &str) -> (r: Option<Vec<u8>>)
    ensures
        r.deep_view() == base64_decoding(s@),
{
    base64::Engine::decode(&base64::engine::general_purpose::STANDARD, s).ok()
}

/// Everything the storage of one image needs: the decoded bytes, the
/// derived file name, the folder to create, the full file path to
/// write, and the public url to answer and persist.
pub struct ImagePlan {
    pub bytes: Vec<u8>,
    pub file_name: String,
    pub folder: String,
    pub file_path: String,
    pub image_url: String,
}

/// Computes the storage plan of one image request. Fails exactly when
/// the transported content is not valid base64; the path derivations
/// never fail.
pub fn save_image_plan(image: &ImageRequest) -> (r: Option<ImagePlan>)
    ensures
        r is Some <==> base64_decoding(image.base64@) is Some,
        match r {
            Some(p) => {
                &&& Some(p.bytes@) == base64_decoding(image.base64@)
                &&& p.file_name@ == remove_all(image.path_image@, uploads_prefix())
                &&& p.file_path@ == "/opt/ghost/content/images"@ + p.file_name@
                &&& p.folder@ == "/opt/ghost/content/images"@ + spec_folder_year(
                    image.path_image@,
                )
                &&& p.image_url@ == "/content/images"@ + p.file_name@
            },
            None => true,
        },
{
    let bytes = match decode_base64(image.base64.as_str()) {
        Some(bytes) => bytes,
        None => {
            return None;
        },
    };
    let file_name = replace_name(image.path_image.clone());
    let save_path = folder_year(image.path_image.clone());
    let mut file_path = String::from_str("/opt/ghost/content/images");
    file_path.append(file_name.as_str());
    let mut folder = String::from_str("/opt/ghost/content/images");
    folder.append(save_path.as_str());
    let mut image_url = String::from_str("/content/images");
    image_url.append(file_name.as_str());
    Some(ImagePlan { bytes, file_name, folder, file_path, image_url })
}

} // verus!
