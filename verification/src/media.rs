//! Images and rich-text facets given to the posting tools.
//!
//! Each image needs alt text and either inline base64 data or a path to a
//! file in the workspace.  Inline images are decoded here; files are
//! returned as requests for the caller to resolve and read, in order.

use vstd::prelude::*;
use base64::Engine;
use crate::text::{decimal, decimal_string};
use crate::bluesky::{ImageInput, PostRef, mime_from_extension, mime_of, path_extension};
use crate::json::{JsonValue, lookup_member, member, member_text, string_opt, string_text, first_missing, required_params};

verus! {

// ---------------------------------------------------------------------------
// Decoding
// ---------------------------------------------------------------------------

/// What decoding `text` as standard base64 (with padding) gives: the bytes,
/// or the text of the decoding error.
pub uninterp spec fn base64_decoding(text: Seq<char>) -> Result<Seq<u8>, Seq<char>>;

/// Calls `decode` of `base64::engine::general_purpose::STANDARD` on the
/// text; an error is turned into its display text.  The contract names the
/// outcome.
#[verifier::external_body]
fn decode_base64(text: &str) -> (r: Result<Vec<u8>, String>)
    ensures
        match r {
            Ok(b) => base64_decoding(text@) == Ok::<Seq<u8>, Seq<char>>(b@),
            Err(e) => base64_decoding(text@) == Err::<Seq<u8>, Seq<char>>(e@),
        },
{
    match base64::engine::general_purpose::STANDARD.decode(text) {
        Ok(b) => Ok(b),
        Err(e) => Err(e.to_string()),
    }
}

// ---------------------------------------------------------------------------
// Images
// ---------------------------------------------------------------------------

/// One image to attach to a post.
pub enum ImageRequest {
    /// Bytes given inline, decoded.
    Inline(ImageInput),
    /// A file in the workspace, to be resolved and read by the caller; the
    /// MIME type when one was given.
    File { path: String, mime_type: Option<String>, alt: String },
}

/// The string member `key` of an image description.
pub open spec fn str_member(img: JsonValue, key: Seq<char>) -> Option<Seq<char>> {
    match img.field(key) {
        Some(v) => string_text(v),
        None => None,
    }
}

/// The `images[i]: ` prefix of the messages about image `i`.
pub open spec fn image_prefix(i: nat) -> Seq<char> {
    "images["@ + decimal(i) + "]: "@
}

/// Why image `i` cannot be taken, if it cannot: it has no alt text, names a
/// file while no workspace is set, has data that is not base64, or has
/// neither a path nor data.
pub open spec fn image_error(img: JsonValue, i: nat, workspace_set: bool) -> Option<Seq<char>> {
    if str_member(img, "alt"@) is None {
        Some(image_prefix(i) + "missing 'alt' field"@)
    } else if str_member(img, "path"@) is Some {
        if workspace_set {
            None
        } else {
            Some(image_prefix(i) + "file paths require WINTER_WORKSPACE to be set"@)
        }
    } else if str_member(img, "data"@) is Some {
        match base64_decoding(str_member(img, "data"@)->0) {
            Ok(_) => None,
            Err(e) => Some(image_prefix(i) + "invalid base64: "@ + e),
        }
    } else {
        Some(image_prefix(i) + "must provide either 'path' (workspace file) or 'data' (base64)"@)
    }
}

/// `r` is the request for an image that can be taken: a file request when
/// it names a path, else its decoded data with the given MIME type or
/// `image/jpeg`.
pub open spec fn image_request_for(r: ImageRequest, img: JsonValue) -> bool {
    let alt = str_member(img, "alt"@)->0;
    let mime = str_member(img, "mime_type"@);
    if str_member(img, "path"@) is Some {
        r matches ImageRequest::File { path, mime_type, alt: a } && path@ == str_member(img, "path"@)->0
            && string_opt(mime_type) == mime && a@ == alt
    } else {
        r matches ImageRequest::Inline(im) && im.alt@ == alt && im.mime_type@ == (match mime {
            Some(m) => m,
            None => "image/jpeg"@,
        }) && base64_decoding(str_member(img, "data"@)->0) == Ok::<Seq<u8>, Seq<char>>(im.data@)
    }
}

fn str_field<'a>(img: &'a JsonValue, key: &str) -> (r: Option<&'a str>)
    ensures
        match r {
            Some(s) => str_member(*img, key@) == Some(s@),
            None => str_member(*img, key@) is None,
        },
{
    match img.get(key) {
        Some(v) => v.as_str(),
        None => None,
    }
}

fn prefixed(i: usize, what: &str) -> (r: String)
    ensures
        r@ == image_prefix(i as nat) + what@,
{
    let mut s = String::from_str("images[");
    let d = decimal_string(i as u64);
    s.append(d.as_str());
    s.append("]: ");
    s.append(what);
    s
}

/// The request for image `i`, or why it cannot be taken.
pub fn image_request(img: &JsonValue, i: usize, workspace_set: bool) -> (r: Result<ImageRequest, String>)
    ensures
        match r {
            Ok(req) => image_error(*img, i as nat, workspace_set) is None && image_request_for(req, *img),
            Err(e) => image_error(*img, i as nat, workspace_set) == Some(e@),
        },
{
    let alt = match str_field(img, "alt") {
        Some(a) => a,
        None => {
            return Err(prefixed(i, "missing 'alt' field"));
        },
    };
    let mime = str_field(img, "mime_type");
    match str_field(img, "path") {
        Some(path) => {
            if !workspace_set {
                return Err(prefixed(i, "file paths require WINTER_WORKSPACE to be set"));
            }
            let mime_type = match mime {
                Some(m) => Some(String::from_str(m)),
                None => None,
            };
            Ok(ImageRequest::File { path: String::from_str(path), mime_type, alt: String::from_str(alt) })
        },
        None => match str_field(img, "data") {
            Some(data) => match decode_base64(data) {
                Ok(bytes) => {
                    let mime_type = match mime {
                        Some(m) => String::from_str(m),
                        None => String::from_str("image/jpeg"),
                    };
                    Ok(ImageRequest::Inline(ImageInput { data: bytes, mime_type, alt: String::from_str(alt) }))
                },
                Err(e) => {
                    let mut msg = prefixed(i, "invalid base64: ");
                    msg.append(e.as_str());
                    Err(msg)
                },
            },
            None => Err(prefixed(i, "must provide either 'path' (workspace file) or 'data' (base64)")),
        },
    }
}

/// The images of a post, in order, up to the first that cannot be taken,
/// and why that one cannot.  The caller reads the file requests in order
/// and reports a failure there before `error`.
pub struct ImagePlan {
    pub requests: Vec<ImageRequest>,
    pub error: Option<String>,
}

/// Image `j` can be taken, and `req` is its request.
pub open spec fn image_taken(img: JsonValue, j: int, workspace_set: bool, req: ImageRequest) -> bool {
    image_error(img, j as nat, workspace_set) is None && image_request_for(req, img)
}

/// The image descriptions in the `images` argument; none when it is absent
/// or not an array.
pub open spec fn image_list(arguments: Seq<(String, JsonValue)>) -> Seq<JsonValue> {
    match lookup_member(arguments, "images"@) {
        Some(v) => match v.items() {
            Some(a) => a,
            None => Seq::empty(),
        },
        None => Seq::empty(),
    }
}

/// Parse the images of a post from the tool arguments; `workspace_set`
/// tells whether a workspace directory is configured for image files.
pub fn parse_images(arguments: &Vec<(String, JsonValue)>, workspace_set: bool) -> (r: ImagePlan)
    ensures
        r.requests@.len() <= image_list(arguments@).len(),
        forall|j: int|
            0 <= j < r.requests@.len() ==> image_taken(image_list(arguments@)[j], j, workspace_set, #[trigger] r.requests@[j]),
        r.error is None ==> r.requests@.len() == image_list(arguments@).len(),
        r.error is Some ==> r.requests@.len() < image_list(arguments@).len() && string_opt(r.error)
            == image_error(image_list(arguments@)[r.requests@.len() as int], r.requests@.len(), workspace_set),
{
    let mut requests: Vec<ImageRequest> = Vec::new();
    let images = match member(arguments, "images") {
        Some(v) => match v.as_array() {
            Some(a) => a,
            None => {
                return ImagePlan { requests, error: None };
            },
        },
        None => {
            return ImagePlan { requests, error: None };
        },
    };
    let ghost list = image_list(arguments@);
    assert(list == images@);
    let mut i: usize = 0;
    while i < images.len()
        invariant
            i <= images@.len(),
            list == images@,
            list == image_list(arguments@),
            requests@.len() == i,
            forall|j: int| 0 <= j < i ==> image_taken(list[j], j, workspace_set, #[trigger] requests@[j]),
        decreases images.len() - i,
    {
        match image_request(&images[i], i, workspace_set) {
            Ok(req) => {
                let ghost before = requests@;
                requests.push(req);
                proof {
                    assert forall|j: int| 0 <= j < i + 1 implies image_taken(list[j], j, workspace_set, #[trigger] requests@[j]) by {
                        if j < i {
                            assert(requests@[j] == before[j]);
                        }
                    }
                }
            },
            Err(e) => {
                return ImagePlan { requests, error: Some(e) };
            },
        }
        i = i + 1;
    }
    ImagePlan { requests, error: None }
}

/// The MIME type of an image file: the one given, else the one of the
/// resolved file's extension.
pub open spec fn file_mime(given: Option<Seq<char>>, resolved: Seq<char>) -> Option<Seq<char>> {
    match given {
        Some(m) => Some(m),
        None => match mime_of(path_extension(resolved)) {
            Some(m) => Some(m@),
            None => None,
        },
    }
}

/// The MIME type of image file `i`, or the message that it cannot be
/// inferred.
pub fn image_file_mime(i: usize, path: &str, given: Option<&str>, resolved: &str) -> (r: Result<String, String>)
    ensures
        match r {
            Ok(m) => file_mime(
                match given {
                    Some(g) => Some(g@),
                    None => None,
                },
                resolved@,
            ) == Some(m@),
            Err(e) => file_mime(
                match given {
                    Some(g) => Some(g@),
                    None => None,
                },
                resolved@,
            ) is None && e@ == image_prefix(i as nat) + "cannot infer MIME type from '"@ + path@
                + "' \u{2014} set mime_type explicitly"@,
        },
{
    match given {
        Some(m) => Ok(String::from_str(m)),
        None => match mime_from_extension(resolved) {
            Some(m) => Ok(String::from_str(m)),
            None => {
                let mut msg = prefixed(i, "cannot infer MIME type from '");
                msg.append(path);
                msg.append("' \u{2014} set mime_type explicitly");
                Err(msg)
            },
        },
    }
}

// ---------------------------------------------------------------------------
// Workspace paths
// ---------------------------------------------------------------------------

/// Whether the path `p` starts with the path `base`, component by
/// component, as `Path::starts_with` decides.
pub uninterp spec fn path_within(p: Seq<char>, base: Seq<char>) -> bool;

/// Calls `std::path::Path::starts_with`; the contract names its result.
#[verifier::external_body]
fn path_starts_with(p: &str, base: &str) -> (r: bool)
    ensures
        r == path_within(p@, base@),
{
    std::path::Path::new(p).starts_with(base)
}

/// Check that a resolved (canonical) path lies inside the workspace; the
/// error names the path as it was given.
pub fn check_in_workspace(path: &str, resolved: &str, workspace: &str) -> (r: Result<(), String>)
    ensures
        r is Ok <==> path_within(resolved@, workspace@),
        r matches Err(e) ==> e@ == "path '"@ + path@ + "' is outside the workspace"@,
{
    if path_starts_with(resolved, workspace) {
        Ok(())
    } else {
        let mut msg = String::from_str("path '");
        msg.append(path);
        msg.append("' is outside the workspace");
        Err(msg)
    }
}

// ---------------------------------------------------------------------------
// Facets
// ---------------------------------------------------------------------------

/// A range of bytes in a post's text.
#[derive(Debug, Clone, Copy, PartialEq, Eq, Structural)]
pub struct ByteSlice {
    pub byte_start: u64,
    pub byte_end: u64,
}

/// What a facet marks in a post's text.
#[derive(Debug, Clone)]
pub enum FacetFeature {
    Mention { did: String },
    Link { uri: String },
    Tag { tag: String },
}

/// A rich-text annotation of a byte range.
#[derive(Debug, Clone)]
pub struct Facet {
    pub index: ByteSlice,
    pub features: Vec<FacetFeature>,
}

/// A feature as its kind (mention, link, tag) and its text.
pub open spec fn feature_model(f: FacetFeature) -> (int, Seq<char>) {
    match f {
        FacetFeature::Mention { did } => (0, did@),
        FacetFeature::Link { uri } => (1, uri@),
        FacetFeature::Tag { tag } => (2, tag@),
    }
}

/// The features a facet description asks for: a mention, a link and a
/// tag, in that order, each where its member is a string.
pub open spec fn facet_features(f: JsonValue) -> Seq<(int, Seq<char>)> {
    let m = match str_member(f, "mention_did"@) {
        Some(d) => seq![(0int, d)],
        None => Seq::empty(),
    };
    let l = match str_member(f, "link_uri"@) {
        Some(u) => m.push((1int, u)),
        None => m,
    };
    match str_member(f, "tag"@) {
        Some(t) => l.push((2int, t)),
        None => l,
    }
}

/// The unsigned integer member `key`.
pub open spec fn u64_member(f: JsonValue, key: Seq<char>) -> Option<u64> {
    match f.field(key) {
        Some(v) => v.u64_of(),
        None => None,
    }
}

/// A facet description is taken when it has both byte offsets and at least
/// one feature.
pub open spec fn facet_valid(f: JsonValue) -> bool {
    u64_member(f, "byte_start"@) is Some && u64_member(f, "byte_end"@) is Some && facet_features(f).len() > 0
}

/// `out` is the facet that the description `f` asks for.
pub open spec fn facet_is(out: Facet, f: JsonValue) -> bool {
    Some(out.index.byte_start) == u64_member(f, "byte_start"@) && Some(out.index.byte_end) == u64_member(
        f,
        "byte_end"@,
    ) && out.features@.map_values(|x: FacetFeature| feature_model(x)) == facet_features(f)
}

/// The descriptions that are taken, in order.
pub open spec fn valid_facets(fs: Seq<JsonValue>) -> Seq<JsonValue>
    decreases fs.len(),
{
    if fs.len() == 0 {
        Seq::empty()
    } else if facet_valid(fs.last()) {
        valid_facets(fs.drop_last()).push(fs.last())
    } else {
        valid_facets(fs.drop_last())
    }
}

fn facet_from(f: &JsonValue) -> (r: Option<Facet>)
    ensures
        match r {
            Some(out) => facet_valid(*f) && facet_is(out, *f),
            None => !facet_valid(*f),
        },
{
    let start = match f.get("byte_start") {
        Some(v) => match v.as_u64() {
            Some(n) => n,
            None => {
                return None;
            },
        },
        None => {
            return None;
        },
    };
    let end = match f.get("byte_end") {
        Some(v) => match v.as_u64() {
            Some(n) => n,
            None => {
                return None;
            },
        },
        None => {
            return None;
        },
    };
    let mut features: Vec<FacetFeature> = Vec::new();
    match str_field(f, "mention_did") {
        Some(d) => {
            features.push(FacetFeature::Mention { did: String::from_str(d) });
        },
        None => {},
    }
    let ghost m = features@.map_values(|x: FacetFeature| feature_model(x));
    assert(m =~= match str_member(*f, "mention_did"@) {
        Some(d) => seq![(0int, d)],
        None => Seq::<(int, Seq<char>)>::empty(),
    });
    match str_field(f, "link_uri") {
        Some(u) => {
            features.push(FacetFeature::Link { uri: String::from_str(u) });
            assert(features@.map_values(|x: FacetFeature| feature_model(x)) =~= m.push((1int, u@)));
        },
        None => {},
    }
    let ghost l = features@.map_values(|x: FacetFeature| feature_model(x));
    match str_field(f, "tag") {
        Some(t) => {
            features.push(FacetFeature::Tag { tag: String::from_str(t) });
            assert(features@.map_values(|x: FacetFeature| feature_model(x)) =~= l.push((2int, t@)));
        },
        None => {},
    }
    assert(features@.map_values(|x: FacetFeature| feature_model(x)) =~= facet_features(*f));
    if features.len() == 0 {
        return None;
    }
    Some(Facet { index: ByteSlice { byte_start: start, byte_end: end }, features })
}

/// The facet descriptions in the `facets` argument, when it is an array.
pub open spec fn facet_list(arguments: Seq<(String, JsonValue)>) -> Option<Seq<JsonValue>> {
    match lookup_member(arguments, "facets"@) {
        Some(v) => v.items(),
        None => None,
    }
}

/// Parse the facets of a post from the tool arguments: the descriptions
/// with both byte offsets and at least one feature; none when there are
/// no such descriptions.
pub fn parse_facets(arguments: &Vec<(String, JsonValue)>) -> (r: Option<Vec<Facet>>)
    ensures
        match facet_list(arguments@) {
            None => r is None,
            Some(fs) => match r {
                None => valid_facets(fs).len() == 0,
                Some(v) => v@.len() == valid_facets(fs).len() > 0 && forall|k: int|
                    0 <= k < v@.len() ==> facet_is(#[trigger] v@[k], valid_facets(fs)[k]),
            },
        },
{
    let fs = match member(arguments, "facets") {
        Some(v) => match v.as_array() {
            Some(a) => a,
            None => {
                return None;
            },
        },
        None => {
            return None;
        },
    };
    let ghost list = fs@;
    assert(facet_list(arguments@) == Some(list));
    let mut out: Vec<Facet> = Vec::new();
    let mut i: usize = 0;
    while i < fs.len()
        invariant
            i <= fs@.len(),
            list == fs@,
            out@.len() == valid_facets(list.subrange(0, i as int)).len(),
            forall|k: int|
                0 <= k < out@.len() ==> facet_is(#[trigger] out@[k], valid_facets(list.subrange(0, i as int))[k]),
        decreases fs.len() - i,
    {
        let ghost before = out@;
        let ghost prev = valid_facets(list.subrange(0, i as int));
        let ghost next = list.subrange(0, i + 1);
        proof {
            assert(next.drop_last() =~= list.subrange(0, i as int));
            assert(next.last() == list[i as int]);
        }
        match facet_from(&fs[i]) {
            Some(f) => {
                out.push(f);
                proof {
                    assert(valid_facets(next) == prev.push(list[i as int]));
                    assert forall|k: int| 0 <= k < out@.len() implies facet_is(
                        #[trigger] out@[k],
                        valid_facets(next)[k],
                    ) by {
                        if k < before.len() {
                            assert(out@[k] == before[k]);
                        }
                    }
                }
            },
            None => {
                assert(valid_facets(next) == prev);
            },
        }
        i = i + 1;
    }
    assert(list.subrange(0, list.len() as int) =~= list);
    if out.len() == 0 {
        None
    } else {
        Some(out)
    }
}

// ---------------------------------------------------------------------------
// Replies
// ---------------------------------------------------------------------------

/// The parameters a reply needs, in the order they are checked.
pub open spec fn reply_keys() -> Seq<Seq<char>> {
    seq!["text"@, "parent_uri"@, "parent_cid"@, "root_uri"@, "root_cid"@]
}

/// The text of a reply and the posts it answers: its parent and the root
/// of the thread.  The first missing parameter refuses the reply.
pub fn reply_request(arguments: &Vec<(String, JsonValue)>) -> (r: Result<(String, PostRef, PostRef), String>)
    ensures
        match r {
            Ok((text, parent, root)) => first_missing(arguments@, reply_keys()) is None
                && member_text(arguments@, "text"@) == Some(text@)
                && member_text(arguments@, "parent_uri"@) == Some(parent.uri@)
                && member_text(arguments@, "parent_cid"@) == Some(parent.cid@)
                && member_text(arguments@, "root_uri"@) == Some(root.uri@)
                && member_text(arguments@, "root_cid"@) == Some(root.cid@),
            Err(e) => first_missing(arguments@, reply_keys()) matches Some(k) && e@
                == "Missing required parameter: "@ + k,
        },
{
    let keys: Vec<&str> = vec!["text", "parent_uri", "parent_cid", "root_uri", "root_cid"];
    assert(keys@.map_values(|k: &str| k@) =~= reply_keys());
    let mut v = match required_params(arguments, &keys) {
        Ok(v) => v,
        Err(e) => {
            return Err(e);
        },
    };
    let ghost all = v@;
    assert(member_text(arguments@, keys@[4]@) == Some(all[4]@));
    assert(member_text(arguments@, keys@[3]@) == Some(all[3]@));
    assert(member_text(arguments@, keys@[2]@) == Some(all[2]@));
    assert(member_text(arguments@, keys@[1]@) == Some(all[1]@));
    assert(member_text(arguments@, keys@[0]@) == Some(all[0]@));
    let root_cid = v.pop().unwrap();
    let root_uri = v.pop().unwrap();
    let parent_cid = v.pop().unwrap();
    let parent_uri = v.pop().unwrap();
    let text = v.pop().unwrap();
    Ok((text, PostRef { uri: parent_uri, cid: parent_cid }, PostRef { uri: root_uri, cid: root_cid }))
}

} // verus!
