//! Bluesky types and the client's rules: notification reasons, errors,
//! image limits, and the participation metrics of a thread.

use vstd::prelude::*;
use crate::text::{seq_lt, str_eq, str_lt, str_contains, contains_seq};
use crate::strset::string_views;

verus! {

/// Reference to a Bluesky post (needed for replies and threading).
#[derive(Debug, Clone)]
pub struct PostRef {
    /// AT URI (e.g., at://did:plc:xxx/app.bsky.feed.post/xxx)
    pub uri: String,
    /// Content hash
    pub cid: String,
}

/// Input for posting an image to Bluesky.
#[derive(Debug, Clone)]
pub struct ImageInput {
    /// Raw image bytes.
    pub data: Vec<u8>,
    /// MIME type (e.g., "image/jpeg", "image/png").
    pub mime_type: String,
    /// Alt text description (required for accessibility).
    pub alt: String,
}

/// Reason for a Bluesky notification.
#[derive(Debug, Clone, Copy, PartialEq, Eq, Structural)]
pub enum NotificationReason {
    /// Someone mentioned this account
    Mention,
    /// Someone replied to this account's post
    Reply,
    /// Someone followed this account
    Follow,
    /// Someone liked this account's post
    Like,
    /// Someone reposted this account's post
    Repost,
    /// Someone quoted this account's post
    Quote,
}

/// The reason named by a Bluesky API reason string.
pub open spec fn reason_of(s: Seq<char>) -> Option<NotificationReason> {
    if s == "mention"@ {
        Some(NotificationReason::Mention)
    } else if s == "reply"@ {
        Some(NotificationReason::Reply)
    } else if s == "follow"@ {
        Some(NotificationReason::Follow)
    } else if s == "like"@ {
        Some(NotificationReason::Like)
    } else if s == "repost"@ {
        Some(NotificationReason::Repost)
    } else if s == "quote"@ {
        Some(NotificationReason::Quote)
    } else {
        None
    }
}

/// The lowercase name of a reason, as the API and serialization use it.
pub open spec fn reason_name(r: NotificationReason) -> Seq<char> {
    match r {
        NotificationReason::Mention => "mention"@,
        NotificationReason::Reply => "reply"@,
        NotificationReason::Follow => "follow"@,
        NotificationReason::Like => "like"@,
        NotificationReason::Repost => "repost"@,
        NotificationReason::Quote => "quote"@,
    }
}

impl NotificationReason {
    /// Parse from the Bluesky API reason string.
    pub fn parse(s: &str) -> (r: Option<NotificationReason>)
        ensures
            r == reason_of(s@),
    {
        if str_eq(s, "mention") {
            Some(NotificationReason::Mention)
        } else if str_eq(s, "reply") {
            Some(NotificationReason::Reply)
        } else if str_eq(s, "follow") {
            Some(NotificationReason::Follow)
        } else if str_eq(s, "like") {
            Some(NotificationReason::Like)
        } else if str_eq(s, "repost") {
            Some(NotificationReason::Repost)
        } else if str_eq(s, "quote") {
            Some(NotificationReason::Quote)
        } else {
            None
        }
    }

    /// The lowercase name of the reason.
    pub fn name(&self) -> (r: &'static str)
        ensures
            r@ == reason_name(*self),
    {
        match self {
            NotificationReason::Mention => "mention",
            NotificationReason::Reply => "reply",
            NotificationReason::Follow => "follow",
            NotificationReason::Like => "like",
            NotificationReason::Repost => "repost",
            NotificationReason::Quote => "quote",
        }
    }

    /// Returns true if this notification type should wake the agent:
    /// mentions, replies and quotes.
    pub fn triggers_wakeup(&self) -> (r: bool)
        ensures
            r == (*self == NotificationReason::Mention || *self == NotificationReason::Reply
                || *self == NotificationReason::Quote),
    {
        match self {
            NotificationReason::Mention | NotificationReason::Reply | NotificationReason::Quote => true,
            _ => false,
        }
    }
}

/// Parsing the name of a reason gives the reason back.
pub proof fn law_reason_name_round_trip(r: NotificationReason)
    ensures
        reason_of(reason_name(r)) == Some(r),
{
    reveal_strlit("mention");
    reveal_strlit("reply");
    reveal_strlit("follow");
    reveal_strlit("like");
    reveal_strlit("repost");
    reveal_strlit("quote");
    assert("reply"@[0] != "mention"@[0]);
    assert("follow"@[0] != "mention"@[0] && "follow"@[0] != "reply"@[0]);
    assert("like"@[0] != "mention"@[0] && "like"@[0] != "reply"@[0] && "like"@[0] != "follow"@[0]);
    assert("repost"@[0] != "mention"@[0] && "repost"@[3] != "reply"@[3] && "repost"@[0]
        != "follow"@[0] && "repost"@[0] != "like"@[0]);
    assert("quote"@[0] != "mention"@[0] && "quote"@[0] != "reply"@[0] && "quote"@[0]
        != "follow"@[0] && "quote"@[0] != "like"@[0] && "quote"@[0] != "repost"@[0]);
}

/// A conversation (DM thread).
#[derive(Debug, Clone)]
pub struct Conversation {
    /// Conversation ID.
    pub id: String,
    /// Members of the conversation.
    pub members: Vec<ConvoMember>,
    /// Number of unread messages.
    pub unread_count: i64,
}

/// A member of a conversation.
#[derive(Debug, Clone)]
pub struct ConvoMember {
    /// DID of the member.
    pub did: String,
    /// Handle of the member.
    pub handle: String,
    /// Display name (optional).
    pub display_name: Option<String>,
}

/// A post from the timeline (following feed).
#[derive(Debug, Clone)]
pub struct TimelinePost {
    pub uri: String,
    pub cid: String,
    pub author_did: String,
    pub author_handle: String,
    pub author_name: Option<String>,
    pub text: Option<String>,
    pub created_at: Option<String>,
    pub like_count: Option<i64>,
    pub repost_count: Option<i64>,
    pub reply_count: Option<i64>,
}

/// A post from Bluesky search results.
#[derive(Debug, Clone)]
pub struct SearchPost {
    pub uri: String,
    pub cid: String,
    pub author_did: String,
    pub author_handle: String,
    pub author_name: Option<String>,
    pub text: Option<String>,
    pub created_at: Option<String>,
    pub like_count: Option<i64>,
    pub repost_count: Option<i64>,
    pub reply_count: Option<i64>,
}

/// A user from Bluesky search results.
#[derive(Debug, Clone)]
pub struct SearchUser {
    pub did: String,
    pub handle: String,
    pub display_name: Option<String>,
    pub description: Option<String>,
    pub avatar: Option<String>,
}

/// A post in a thread tree.
#[derive(Debug, Clone)]
pub struct ThreadPost {
    /// AT URI of the post
    pub uri: String,
    /// Content hash
    pub cid: String,
    /// DID of the author
    pub author_did: String,
    /// Handle of the author
    pub author_handle: String,
    /// Post text content
    pub text: Option<String>,
    /// When the post was created
    pub created_at: Option<String>,
    /// Number of replies to this post
    pub reply_count: Option<i64>,
    /// Parent post URI if this is a reply
    pub parent_uri: Option<String>,
    /// Depth in the thread tree (0 = root)
    pub depth: u32,
}

/// Full thread context with metadata and participation metrics.
#[derive(Debug, Clone)]
pub struct ThreadContext {
    /// The root post of the thread
    pub root: ThreadPost,
    /// All posts in the thread (flattened tree)
    pub posts: Vec<ThreadPost>,
    /// Unique participant DIDs
    pub participants: Vec<String>,
    /// Total number of replies in the thread
    pub total_replies: usize,
    /// Number of replies by the querying account
    pub my_reply_count: usize,
    /// Timestamp of the querying account's last reply
    pub my_last_reply_at: Option<String>,
    /// Number of posts added after the querying account's last reply
    pub posts_since_my_last_reply: usize,
}

/// A Bluesky user profile.
#[derive(Debug, Clone)]
pub struct Profile {
    pub did: String,
    pub handle: String,
    pub display_name: Option<String>,
    pub description: Option<String>,
    pub avatar: Option<String>,
    pub banner: Option<String>,
    pub followers_count: Option<i64>,
    pub follows_count: Option<i64>,
    pub posts_count: Option<i64>,
    pub indexed_at: Option<String>,
}

/// A post from an author's feed.
#[derive(Debug, Clone)]
pub struct FeedPost {
    pub uri: String,
    pub cid: String,
    pub text: Option<String>,
    pub created_at: Option<String>,
    pub like_count: Option<i64>,
    pub repost_count: Option<i64>,
    pub reply_count: Option<i64>,
    pub is_reply: bool,
    pub is_repost: bool,
}

/// Information about a follow relationship.
#[derive(Debug, Clone)]
pub struct FollowInfo {
    pub did: String,
    pub handle: String,
    pub display_name: Option<String>,
    pub description: Option<String>,
    pub avatar: Option<String>,
}

// ---------------------------------------------------------------------------
// Errors
// ---------------------------------------------------------------------------

/// The most images a post may carry.
pub const MAX_IMAGES: usize = 4;

/// The largest image accepted, in bytes.
pub const MAX_IMAGE_SIZE: usize = 1000000;

/// Errors that can occur when interacting with Bluesky.
#[derive(Debug)]
pub enum BlueskyError {
    Auth(String),
    Api(String),
    RateLimited {
        /// The endpoint that was rate limited (optional).
        endpoint: Option<String>,
    },
    NotConfigured,
    TooManyImages { count: usize, max: usize },
    ImageTooLarge { size: usize, max: usize },
    InvalidMimeType(String),
}

/// The human-readable text of an error.
pub open spec fn bluesky_error_text(e: BlueskyError) -> Seq<char> {
    match e {
        BlueskyError::Auth(m) => "authentication failed: "@ + m@,
        BlueskyError::Api(m) => "API error: "@ + m@,
        BlueskyError::RateLimited { endpoint } => match endpoint {
            Some(ep) => "rate limited"@ + " on "@ + ep@,
            None => "rate limited"@,
        },
        BlueskyError::NotConfigured => "not configured"@,
        BlueskyError::TooManyImages { count, max } => "too many images: "@ + crate::text::decimal(
            count as nat,
        ) + " exceeds maximum of "@ + crate::text::decimal(max as nat),
        BlueskyError::ImageTooLarge { size, max } => "image too large: "@ + crate::text::decimal(
            size as nat,
        ) + " bytes exceeds maximum of "@ + crate::text::decimal(max as nat) + " bytes"@,
        BlueskyError::InvalidMimeType(m) => "invalid image MIME type: "@ + m@,
    }
}

impl BlueskyError {
    /// The human-readable text of the error.
    pub fn message(&self) -> (r: String)
        ensures
            r@ == bluesky_error_text(*self),
    {
        match self {
            BlueskyError::Auth(m) => {
                let mut out = String::from_str("authentication failed: ");
                out.append(m.as_str());
                assert(out@ == bluesky_error_text(*self));
                out
            },
            BlueskyError::Api(m) => {
                let mut out = String::from_str("API error: ");
                out.append(m.as_str());
                assert(out@ == bluesky_error_text(*self));
                out
            },
            BlueskyError::RateLimited { endpoint } => {
                let mut out = String::from_str("rate limited");
                match endpoint {
                    Some(ep) => {
                        out.append(" on ");
                        out.append(ep.as_str());
                    },
                    None => {},
                }
                assert(out@ == bluesky_error_text(*self));
                out
            },
            BlueskyError::NotConfigured => String::from_str("not configured"),
            BlueskyError::TooManyImages { count, max } => {
                let mut out = String::from_str("too many images: ");
                let c = crate::text::decimal_string(*count as u64);
                out.append(c.as_str());
                out.append(" exceeds maximum of ");
                let m = crate::text::decimal_string(*max as u64);
                out.append(m.as_str());
                assert(out@ == bluesky_error_text(*self));
                out
            },
            BlueskyError::ImageTooLarge { size, max } => {
                let mut out = String::from_str("image too large: ");
                let s = crate::text::decimal_string(*size as u64);
                out.append(s.as_str());
                out.append(" bytes exceeds maximum of ");
                let m = crate::text::decimal_string(*max as u64);
                out.append(m.as_str());
                out.append(" bytes");
                assert(out@ == bluesky_error_text(*self));
                out
            },
            BlueskyError::InvalidMimeType(m) => {
                let mut out = String::from_str("invalid image MIME type: ");
                out.append(m.as_str());
                assert(out@ == bluesky_error_text(*self));
                out
            },
        }
    }
}

/// An API failure: a rate limit when the error text mentions
/// `RateLimitExceeded` or `429`, otherwise a plain API error.
pub open spec fn api_error_spec(text: Seq<char>, endpoint: Seq<char>, e: BlueskyError) -> bool {
    if contains_seq(text, "RateLimitExceeded"@) || contains_seq(text, "429"@) {
        e matches BlueskyError::RateLimited { endpoint: Some(ep) } && ep@ == endpoint
    } else {
        e matches BlueskyError::Api(m) && m@ == text
    }
}

/// Classify the text of a failed API call made to `endpoint`.
pub fn classify_api_error(text: String, endpoint: &str) -> (r: BlueskyError)
    ensures
        api_error_spec(text@, endpoint@, r),
{
    if str_contains(text.as_str(), "RateLimitExceeded") || str_contains(text.as_str(), "429") {
        BlueskyError::RateLimited { endpoint: Some(String::from_str(endpoint)) }
    } else {
        BlueskyError::Api(text)
    }
}

/// The MIME types accepted for images.
pub open spec fn allowed_mime(m: Seq<char>) -> bool {
    m == "image/jpeg"@ || m == "image/png"@ || m == "image/webp"@ || m == "image/gif"@
}

/// Check the number of images of a post.
pub fn check_image_count(count: usize) -> (r: Result<(), BlueskyError>)
    ensures
        count <= MAX_IMAGES ==> r is Ok,
        count > MAX_IMAGES ==> (r matches Err(BlueskyError::TooManyImages { count: c, max: m })
            && c == count && m == MAX_IMAGES),
{
    if count > MAX_IMAGES {
        Err(BlueskyError::TooManyImages { count, max: MAX_IMAGES })
    } else {
        Ok(())
    }
}

/// Check one image before upload: the MIME type first, then the size.
pub fn check_image(size: usize, mime_type: &str) -> (r: Result<(), BlueskyError>)
    ensures
        !allowed_mime(mime_type@) ==> (r matches Err(BlueskyError::InvalidMimeType(m)) && m@
            == mime_type@),
        allowed_mime(mime_type@) && size > MAX_IMAGE_SIZE ==> (r matches Err(
            BlueskyError::ImageTooLarge { size: s, max: m },
        ) && s == size && m == MAX_IMAGE_SIZE),
        allowed_mime(mime_type@) && size <= MAX_IMAGE_SIZE ==> r is Ok,
{
    if !(str_eq(mime_type, "image/jpeg") || str_eq(mime_type, "image/png") || str_eq(
        mime_type,
        "image/webp",
    ) || str_eq(mime_type, "image/gif")) {
        return Err(BlueskyError::InvalidMimeType(String::from_str(mime_type)));
    }
    if size > MAX_IMAGE_SIZE {
        return Err(BlueskyError::ImageTooLarge { size, max: MAX_IMAGE_SIZE });
    }
    Ok(())
}

// ---------------------------------------------------------------------------
// Thread participation
// ---------------------------------------------------------------------------

/// The creation times of the posts written by `did`, in order.
pub open spec fn times_by(posts: Seq<ThreadPost>, did: Seq<char>) -> Seq<Seq<char>>
    decreases posts.len(),
{
    if posts.len() == 0 {
        Seq::empty()
    } else {
        let prev = times_by(posts.drop_last(), did);
        let p = posts.last();
        if p.author_did@ == did && p.created_at is Some {
            prev.push(p.created_at->0@)
        } else {
            prev
        }
    }
}

/// The number of posts written by `did`.
pub open spec fn count_by(posts: Seq<ThreadPost>, did: Seq<char>) -> nat
    decreases posts.len(),
{
    if posts.len() == 0 {
        0
    } else {
        count_by(posts.drop_last(), did) + if posts.last().author_did@ == did {
            1nat
        } else {
            0nat
        }
    }
}

/// The greatest string, in `String`'s order.
pub open spec fn max_string(s: Seq<Seq<char>>) -> Option<Seq<char>>
    decreases s.len(),
{
    if s.len() == 0 {
        None
    } else {
        match max_string(s.drop_last()) {
            None => Some(s.last()),
            Some(m) => if seq_lt(s.last(), m) {
                Some(m)
            } else {
                Some(s.last())
            },
        }
    }
}

/// The number of posts created strictly after `t`.
pub open spec fn count_after(posts: Seq<ThreadPost>, t: Seq<char>) -> nat
    decreases posts.len(),
{
    if posts.len() == 0 {
        0
    } else {
        count_after(posts.drop_last(), t) + if posts.last().created_at matches Some(c) && seq_lt(
            t,
            c@,
        ) {
            1nat
        } else {
            0nat
        }
    }
}

/// The participation metrics of the querying account in a thread:
/// its number of posts, the time of its last one, and how many posts
/// came after it.  Without an account, all are empty.
pub open spec fn metrics_spec(posts: Seq<ThreadPost>, my_did: Option<Seq<char>>) -> (
    nat,
    Option<Seq<char>>,
    nat,
) {
    match my_did {
        None => (0, None, 0),
        Some(did) => {
            let last = max_string(times_by(posts, did));
            (
                count_by(posts, did),
                last,
                match last {
                    Some(t) => count_after(posts, t),
                    None => 0,
                },
            )
        },
    }
}

/// A copy of an optional string.
fn copy_opt(s: &Option<String>) -> (r: Option<String>)
    ensures
        r == *s,
{
    match s {
        Some(x) => Some(x.clone()),
        None => None,
    }
}

/// Count the posts of `did` and find the creation time of its last one.
fn my_posts(posts: &Vec<ThreadPost>, did: &str) -> (r: (usize, Option<String>))
    ensures
        r.0 == count_by(posts@, did@),
        match r.1 {
            Some(t) => max_string(times_by(posts@, did@)) == Some(t@),
            None => max_string(times_by(posts@, did@)) is None,
        },
{
    let mut count: usize = 0;
    let mut last: Option<String> = None;
    let mut i: usize = 0;
    while i < posts.len()
        invariant
            i <= posts@.len(),
            count == count_by(posts@.take(i as int), did@),
            count <= i,
            match last {
                Some(t) => max_string(times_by(posts@.take(i as int), did@)) == Some(t@),
                None => max_string(times_by(posts@.take(i as int), did@)) is None,
            },
        decreases posts@.len() - i,
    {
        let p = &posts[i];
        assert(posts@.take(i + 1).drop_last() =~= posts@.take(i as int));
        assert(posts@.take(i + 1).last() == posts@[i as int]);
        if str_eq(p.author_did.as_str(), did) {
            count = count + 1;
            match &p.created_at {
                Some(t) => {
                    let ghost ts = times_by(posts@.take(i as int), did@);
                    assert(times_by(posts@.take(i + 1), did@) == ts.push(t@));
                    assert(ts.push(t@).drop_last() =~= ts);
                    let keep = match &last {
                        Some(m) => str_lt(t.as_str(), m.as_str()),
                        None => false,
                    };
                    if !keep {
                        last = Some(t.clone());
                    }
                },
                None => {},
            }
        }
        i = i + 1;
    }
    assert(posts@.take(i as int) =~= posts@);
    (count, last)
}

/// The number of posts created strictly after `t`.
fn posts_after(posts: &Vec<ThreadPost>, t: &str) -> (r: usize)
    ensures
        r == count_after(posts@, t@),
{
    let mut count: usize = 0;
    let mut i: usize = 0;
    while i < posts.len()
        invariant
            i <= posts@.len(),
            count == count_after(posts@.take(i as int), t@),
            count <= i,
        decreases posts@.len() - i,
    {
        assert(posts@.take(i + 1).drop_last() =~= posts@.take(i as int));
        assert(posts@.take(i + 1).last() == posts@[i as int]);
        match &posts[i].created_at {
            Some(c) => {
                if str_lt(t, c.as_str()) {
                    count = count + 1;
                }
            },
            None => {},
        }
        i = i + 1;
    }
    assert(posts@.take(i as int) =~= posts@);
    count
}

/// The participation metrics of the querying account in a thread.
pub fn participation_metrics(posts: &Vec<ThreadPost>, my_did: Option<&str>) -> (r: (
    usize,
    Option<String>,
    usize,
))
    ensures
        (r.0 as nat, match r.1 {
            Some(t) => Some(t@),
            None => None,
        }, r.2 as nat) == metrics_spec(
            posts@,
            match my_did {
                Some(d) => Some(d@),
                None => None,
            },
        ),
{
    match my_did {
        None => (0, None, 0),
        Some(did) => {
            let (count, last) = my_posts(posts, did);
            let since = match &last {
                Some(t) => posts_after(posts, t.as_str()),
                None => 0,
            };
            (count, last, since)
        },
    }
}

/// The distinct authors of the posts, in order of first appearance.
pub fn thread_participants(posts: &Vec<ThreadPost>) -> (r: Vec<String>)
    ensures
        string_views(r@).no_duplicates(),
        forall|d: Seq<char>|
            string_views(r@).contains(d) <==> exists|i: int|
                0 <= i < posts@.len() && (#[trigger] posts@[i]).author_did@ == d,
{
    let mut out: Vec<String> = Vec::new();
    let mut i: usize = 0;
    while i < posts.len()
        invariant
            i <= posts@.len(),
            string_views(out@).no_duplicates(),
            forall|d: Seq<char>|
                string_views(out@).contains(d) <==> exists|k: int|
                    0 <= k < i && (#[trigger] posts@[k]).author_did@ == d,
        decreases posts@.len() - i,
    {
        let did = &posts[i].author_did;
        match crate::strset::position_in(&out, did.as_str()) {
            Some(_) => {
                proof {
                    assert forall|d: Seq<char>|
                        string_views(out@).contains(d) <==> exists|k: int|
                            0 <= k < i + 1 && (#[trigger] posts@[k]).author_did@ == d by {
                        if exists|k: int| 0 <= k < i + 1 && (#[trigger] posts@[k]).author_did@ == d {
                            let k = choose|k: int|
                                0 <= k < i + 1 && (#[trigger] posts@[k]).author_did@ == d;
                            if k == i {
                                assert(string_views(out@).contains(did@));
                            }
                        }
                    }
                }
            },
            None => {
                let ghost before = out@;
                out.push(did.clone());
                proof {
                    let sv = string_views(out@);
                    crate::strset::lemma_map_push(before, *did, |s: String| s@);
                    assert(sv == string_views(before).push(did@));
                    assert forall|a: int, b: int|
                        0 <= a < sv.len() && 0 <= b < sv.len() && a != b implies sv[a] != sv[b] by {
                        if a < sv.len() - 1 && b < sv.len() - 1 {
                            assert(sv[a] == string_views(before)[a]);
                            assert(sv[b] == string_views(before)[b]);
                        } else if a < sv.len() - 1 {
                            assert(sv[a] == string_views(before)[a]);
                            assert(string_views(before).contains(sv[a]));
                        } else {
                            assert(sv[b] == string_views(before)[b]);
                            assert(string_views(before).contains(sv[b]));
                        }
                    }
                    assert forall|d: Seq<char>|
                        sv.contains(d) <==> exists|k: int|
                            0 <= k < i + 1 && (#[trigger] posts@[k]).author_did@ == d by {
                        if sv.contains(d) {
                            let j = choose|j: int| 0 <= j < sv.len() && sv[j] == d;
                            if j < sv.len() - 1 {
                                assert(string_views(before)[j] == d);
                                assert(string_views(before).contains(d));
                            } else {
                                assert(posts@[i as int].author_did@ == d);
                            }
                        }
                        if exists|k: int| 0 <= k < i + 1 && (#[trigger] posts@[k]).author_did@ == d {
                            let k = choose|k: int|
                                0 <= k < i + 1 && (#[trigger] posts@[k]).author_did@ == d;
                            if k < i {
                                assert(string_views(before).contains(d));
                                let j = choose|j: int|
                                    0 <= j < string_views(before).len() && string_views(before)[j]
                                        == d;
                                assert(sv[j] == d);
                            } else {
                                assert(sv[sv.len() - 1] == d);
                            }
                        }
                    }
                }
            },
        }
        i = i + 1;
    }
    out
}

/// A copy of a thread post.
fn copy_post(p: &ThreadPost) -> (r: ThreadPost)
    ensures
        r == *p,
{
    ThreadPost {
        uri: p.uri.clone(),
        cid: p.cid.clone(),
        author_did: p.author_did.clone(),
        author_handle: p.author_handle.clone(),
        text: copy_opt(&p.text),
        created_at: copy_opt(&p.created_at),
        reply_count: p.reply_count,
        parent_uri: copy_opt(&p.parent_uri),
        depth: p.depth,
    }
}

/// Whether `c` is the context of the flattened, non-empty thread `posts`
/// for the querying account `my_did`: its root is the first post, it holds
/// the posts, each author once as a participant, every post but the root as
/// a reply, and the account's participation.
pub open spec fn is_thread_context(c: ThreadContext, posts: Seq<ThreadPost>, my_did: Option<Seq<char>>) -> bool {
    &&& c.root == posts[0]
    &&& c.posts@ == posts
    &&& string_views(c.participants@).no_duplicates()
    &&& forall|d: Seq<char>|
        string_views(c.participants@).contains(d) <==> exists|i: int|
            0 <= i < posts.len() && (#[trigger] posts[i]).author_did@ == d
    &&& c.total_replies == posts.len() - 1
    &&& (c.my_reply_count as nat, match c.my_last_reply_at {
        Some(t) => Some(t@),
        None => None,
    }, c.posts_since_my_last_reply as nat) == metrics_spec(posts, my_did)
}

/// The context of a thread from its flattened posts, root first: the
/// participants, the number of replies (all posts but the root) and the
/// participation metrics of the querying account.
pub fn build_thread_context(posts: Vec<ThreadPost>, my_did: Option<&str>) -> (r: Result<
    ThreadContext,
    BlueskyError,
>)
    ensures
        posts@.len() == 0 ==> (r matches Err(BlueskyError::Api(m)) && m@ == "Empty thread"@),
        posts@.len() > 0 ==> (r matches Ok(c) && is_thread_context(
            c,
            posts@,
            match my_did {
                Some(d) => Some(d@),
                None => None,
            },
        )),
{
    if posts.len() == 0 {
        return Err(BlueskyError::Api(String::from_str("Empty thread")));
    }
    let root = copy_post(&posts[0]);
    let participants = thread_participants(&posts);
    let total_replies = posts.len() - 1;
    let (my_reply_count, my_last_reply_at, posts_since_my_last_reply) = participation_metrics(
        &posts,
        my_did,
    );
    Ok(
        ThreadContext {
            root,
            posts,
            participants,
            total_replies,
            my_reply_count,
            my_last_reply_at,
            posts_since_my_last_reply,
        },
    )
}

// ---------------------------------------------------------------------------
// Image files
// ---------------------------------------------------------------------------

/// The extension of the file named by a path, as `Path::extension`
/// gives it (when it is valid UTF-8).
pub uninterp spec fn path_extension(path: Seq<char>) -> Option<Seq<char>>;

/// Calls `std::path::Path::extension` on the path; the contract names
/// its result.
#[verifier::external_body]
fn file_extension(path: &str) -> (r: Option<String>)
    ensures
        match r {
            Some(e) => path_extension(path@) == Some(e@),
            None => path_extension(path@) is None,
        },
{
    std::path::Path::new(path).extension().and_then(|e| e.to_str()).map(|e| e.to_string())
}

/// The image MIME type for a file extension.
pub open spec fn mime_of(ext: Option<Seq<char>>) -> Option<&'static str> {
    match ext {
        Some(e) => if e == "jpg"@ || e == "jpeg"@ {
            Some("image/jpeg")
        } else if e == "png"@ {
            Some("image/png")
        } else if e == "webp"@ {
            Some("image/webp")
        } else if e == "gif"@ {
            Some("image/gif")
        } else {
            None
        },
        None => None,
    }
}

/// The image MIME type for a file extension, if it is a known image type.
pub fn mime_for_extension(ext: Option<&str>) -> (r: Option<&'static str>)
    ensures
        r == mime_of(
            match ext {
                Some(e) => Some(e@),
                None => None,
            },
        ),
{
    match ext {
        Some(e) => if str_eq(e, "jpg") || str_eq(e, "jpeg") {
            Some("image/jpeg")
        } else if str_eq(e, "png") {
            Some("image/png")
        } else if str_eq(e, "webp") {
            Some("image/webp")
        } else if str_eq(e, "gif") {
            Some("image/gif")
        } else {
            None
        },
        None => None,
    }
}

/// The image MIME type of a file, from its extension.
pub fn mime_from_extension(path: &str) -> (r: Option<&'static str>)
    ensures
        r == mime_of(path_extension(path@)),
{
    let ext = file_extension(path);
    match &ext {
        Some(e) => mime_for_extension(Some(e.as_str())),
        None => mime_for_extension(None),
    }
}

} // verus!
