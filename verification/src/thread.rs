//! The posts of a thread view, flattened.
//!
//! A thread view holds the requested post, the chain of its parents up to
//! the root (as far as they can be seen), and the tree of replies below it.
//! Flattened, the ancestors come first, root first, then the requested
//! post, then the replies: each level of replies lists its posts in order,
//! and then the replies below them follow, those of the last post first.
//! Every post carries its depth (the root has depth 0) and its parent's URI.

use vstd::prelude::*;
use crate::bluesky::{build_thread_context, is_thread_context, BlueskyError, ThreadContext, ThreadPost};

verus! {

/// What a thread view shows of one post.
#[derive(Debug, Clone)]
pub struct ThreadPostData {
    pub uri: String,
    pub cid: String,
    pub author_did: String,
    pub author_handle: String,
    pub text: Option<String>,
    pub created_at: Option<String>,
    pub reply_count: Option<i64>,
}

/// A post of a thread view with the replies the view holds below it.
#[derive(Debug)]
pub struct ThreadNode {
    pub post: ThreadPostData,
    pub replies: Vec<ThreadReply>,
}

/// A reply in a thread view: a post, or one that cannot be seen (blocked
/// or not found), which is left out of the flattened thread.
#[derive(Debug)]
pub enum ThreadReply {
    Post(Box<ThreadNode>),
    Unavailable,
}

/// What a thread request returned.
#[derive(Debug)]
pub enum ThreadView {
    /// The requested post; its visible parents, nearest first; its replies.
    Post { parents: Vec<ThreadPostData>, node: ThreadNode },
    Blocked,
    NotFound,
    Unknown,
}

/// A post of the flattened thread.
pub open spec fn post_at(p: ThreadPostData, parent: Option<String>, depth: int) -> ThreadPost {
    ThreadPost {
        uri: p.uri,
        cid: p.cid,
        author_did: p.author_did,
        author_handle: p.author_handle,
        text: p.text,
        created_at: p.created_at,
        reply_count: p.reply_count,
        parent_uri: parent,
        depth: depth as u32,
    }
}

/// The posts of one level of replies under `parent`, in order.
pub open spec fn level_posts(rs: Seq<ThreadReply>, parent: String, depth: int) -> Seq<ThreadPost>
    decreases rs.len(),
{
    if rs.len() == 0 {
        Seq::empty()
    } else {
        level_posts(rs.drop_last(), parent, depth) + match rs.last() {
            ThreadReply::Post(n) => seq![post_at(n.post, Some(parent), depth)],
            ThreadReply::Unavailable => Seq::empty(),
        }
    }
}

/// The flattened replies under `parent`: the level itself, then what lies
/// below its posts.
pub open spec fn reply_posts(rs: Seq<ThreadReply>, parent: String, depth: int) -> Seq<ThreadPost>
    decreases rs, 1int,
{
    level_posts(rs, parent, depth) + below_level(rs, depth)
}

/// What lies below the posts of a level, below its last post first.
pub open spec fn below_level(rs: Seq<ThreadReply>, depth: int) -> Seq<ThreadPost>
    decreases rs, 0int,
{
    if rs.len() == 0 {
        Seq::empty()
    } else {
        (match rs.last() {
            ThreadReply::Post(n) => {
                proof {
                    assert(decreases_to!(rs => rs[rs.len() - 1]));
                }
                reply_posts(n.replies@, n.post.uri, depth + 1)
            },
            ThreadReply::Unavailable => Seq::empty(),
        }) + below_level(rs.subrange(0, rs.len() - 1), depth)
    }
}

/// How many levels of posts a tree of replies holds.
pub open spec fn height(rs: Seq<ThreadReply>) -> nat
    decreases rs,
{
    if rs.len() == 0 {
        0
    } else {
        let rest = height(rs.subrange(0, rs.len() - 1));
        let here: nat = match rs.last() {
            ThreadReply::Post(n) => {
                proof {
                    assert(decreases_to!(rs => rs[rs.len() - 1]));
                }
                1 + height(n.replies@)
            },
            ThreadReply::Unavailable => 0,
        };
        if rest >= here {
            rest
        } else {
            here
        }
    }
}

/// The parents of a post, root first, each with its depth and parent.
pub open spec fn ancestor_posts(ancestors: Seq<ThreadPostData>) -> Seq<ThreadPost> {
    Seq::new(
        ancestors.len(),
        |i: int| post_at(ancestors[i], if i == 0 { None } else { Some(ancestors[i - 1].uri) }, i),
    )
}

/// The flattened thread of a requested post with its parents (root first).
pub open spec fn thread_posts(ancestors: Seq<ThreadPostData>, node: ThreadNode) -> Seq<ThreadPost> {
    let d = ancestors.len() as int;
    ancestor_posts(ancestors) + seq![
        post_at(node.post, if d == 0 { None } else { Some(ancestors[d - 1].uri) }, d),
    ] + reply_posts(node.replies@, node.post.uri, d + 1)
}

/// A post under a reply is one level below it: the height of a level
/// exceeds that of the replies under each of its posts.
pub proof fn lemma_height_child(rs: Seq<ThreadReply>, i: int)
    requires
        0 <= i < rs.len(),
        rs[i] is Post,
    ensures
        height(rs) >= 1 + height(rs[i]->Post_0.replies@),
    decreases rs.len(),
{
    if i < rs.len() - 1 {
        let init = rs.subrange(0, rs.len() - 1);
        assert(init[i] == rs[i]);
        lemma_height_child(init, i);
    }
}

/// The data of a post, copied.
fn copy_data(p: &ThreadPostData) -> (r: ThreadPostData)
    ensures
        r == *p,
{
    ThreadPostData {
        uri: p.uri.clone(),
        cid: p.cid.clone(),
        author_did: p.author_did.clone(),
        author_handle: p.author_handle.clone(),
        text: p.text.clone(),
        created_at: p.created_at.clone(),
        reply_count: p.reply_count,
    }
}

/// A post of the flattened thread, built.
fn make_post(p: &ThreadPostData, parent: Option<String>, depth: u32) -> (r: ThreadPost)
    ensures
        r == post_at(*p, parent, depth as int),
{
    let d = copy_data(p);
    ThreadPost {
        uri: d.uri,
        cid: d.cid,
        author_did: d.author_did,
        author_handle: d.author_handle,
        text: d.text,
        created_at: d.created_at,
        reply_count: d.reply_count,
        parent_uri: parent,
        depth,
    }
}

/// Appends the flattened replies under `parent` to `out`.
fn push_replies(rs: &Vec<ThreadReply>, parent: &String, depth: u32, out: &mut Vec<ThreadPost>)
    requires
        depth + height(rs@) <= u32::MAX,
    ensures
        final(out)@ == old(out)@ + reply_posts(rs@, *parent, depth as int),
    decreases rs@,
{
    let ghost start = out@;
    let mut i: usize = 0;
    while i < rs.len()
        invariant
            i <= rs@.len(),
            out@ == start + level_posts(rs@.take(i as int), *parent, depth as int),
        decreases rs@.len() - i,
    {
        let ghost before = out@;
        assert(rs@.take(i + 1).drop_last() =~= rs@.take(i as int));
        match &rs[i] {
            ThreadReply::Post(n) => {
                let p = make_post(&n.post, Some(parent.clone()), depth);
                out.push(p);
            },
            ThreadReply::Unavailable => {},
        }
        assert(out@ =~= start + level_posts(rs@.take(i + 1), *parent, depth as int));
        i = i + 1;
    }
    assert(rs@.take(rs@.len() as int) =~= rs@);
    let ghost level = out@;
    let mut j: usize = rs.len();
    assert(rs@.take(j as int) =~= rs@);
    while j > 0
        invariant
            j <= rs@.len(),
            depth + height(rs@) <= u32::MAX,
            level == start + level_posts(rs@, *parent, depth as int),
            out@ + below_level(rs@.take(j as int), depth as int) == level + below_level(rs@, depth as int),
        decreases j,
    {
        let ghost t = rs@.take(j as int);
        assert(t.subrange(0, t.len() - 1) =~= rs@.take(j - 1));
        assert(t.last() == rs@[j - 1]);
        match &rs[j - 1] {
            ThreadReply::Post(n) => {
                proof {
                    lemma_height_child(rs@, j - 1);
                    assert(decreases_to!(rs@ => rs@[j - 1]));
                }
                let ghost mid = out@;
                push_replies(&n.replies, &n.post.uri, depth + 1, out);
                assert(out@ + below_level(rs@.take(j - 1), depth as int) =~= mid + below_level(
                    t,
                    depth as int,
                ));
            },
            ThreadReply::Unavailable => {
                assert(below_level(t, depth as int) =~= below_level(rs@.take(j - 1), depth as int));
            },
        }
        j = j - 1;
    }
    assert(below_level(rs@.take(0), depth as int) =~= Seq::<ThreadPost>::empty());
    assert(out@ =~= start + reply_posts(rs@, *parent, depth as int));
}

/// The flattened thread of `node` under its parents, given nearest first.
pub fn flatten_thread(parents: &Vec<ThreadPostData>, node: &ThreadNode) -> (r: Vec<ThreadPost>)
    requires
        parents@.len() + 1 + height(node.replies@) <= u32::MAX,
    ensures
        r@ == thread_posts(parents@.reverse(), *node),
{
    let ghost anc = parents@.reverse();
    let n = parents.len();
    let mut out: Vec<ThreadPost> = Vec::new();
    let mut k: usize = 0;
    while k < n
        invariant
            n == parents@.len(),
            k <= n,
            n + 1 + height(node.replies@) <= u32::MAX,
            anc == parents@.reverse(),
            out@ == ancestor_posts(anc).take(k as int),
        decreases n - k,
    {
        let parent: Option<String> = if k == 0 {
            None
        } else {
            Some(parents[n - k].uri.clone())
        };
        let p = make_post(&parents[n - 1 - k], parent, k as u32);
        out.push(p);
        assert(out@ =~= ancestor_posts(anc).take(k + 1));
        k = k + 1;
    }
    assert(ancestor_posts(anc).take(n as int) =~= ancestor_posts(anc));
    let parent: Option<String> = if n == 0 {
        None
    } else {
        Some(parents[0].uri.clone())
    };
    let p = make_post(&node.post, parent, n as u32);
    out.push(p);
    push_replies(&node.replies, &node.post.uri, (n + 1) as u32, &mut out);
    assert(out@ =~= thread_posts(anc, *node));
    out
}

/// The context of a thread request: an error for a blocked, missing or
/// unknown thread; otherwise the flattened thread with its participants
/// and the querying account's participation.
pub fn thread_context(view: ThreadView, my_did: Option<&str>) -> (r: Result<ThreadContext, BlueskyError>)
    requires
        view matches ThreadView::Post { parents, node } ==> parents@.len() + 1 + height(
            node.replies@,
        ) <= u32::MAX,
    ensures
        view is Blocked ==> (r matches Err(BlueskyError::Api(m)) && m@ == "Thread is blocked"@),
        view is NotFound ==> (r matches Err(BlueskyError::Api(m)) && m@ == "Thread not found"@),
        view is Unknown ==> (r matches Err(BlueskyError::Api(m)) && m@ == "Unknown thread type"@),
        view matches ThreadView::Post { parents, node } ==> (r matches Ok(c) && is_thread_context(
            c,
            thread_posts(parents@.reverse(), node),
            match my_did {
                Some(d) => Some(d@),
                None => None,
            },
        )),
{
    match view {
        ThreadView::Post { parents, node } => {
            let posts = flatten_thread(&parents, &node);
            build_thread_context(posts, my_did)
        },
        ThreadView::Blocked => Err(BlueskyError::Api(String::from_str("Thread is blocked"))),
        ThreadView::NotFound => Err(BlueskyError::Api(String::from_str("Thread not found"))),
        ThreadView::Unknown => Err(BlueskyError::Api(String::from_str("Unknown thread type"))),
    }
}

/// `child` replies to `parent`: it names it as its parent and lies one
/// level below it.
pub open spec fn replies_to(parent: ThreadPost, child: ThreadPost) -> bool {
    child.parent_uri == Some(parent.uri) && child.depth == parent.depth + 1
}

/// The post at index `k` replies to a post listed before it.
pub open spec fn parent_listed_before(s: Seq<ThreadPost>, k: int) -> bool {
    exists|j: int| 0 <= j < k && replies_to(s[j], s[k])
}

/// From index `from` on, every post replies to a post listed before it.
pub open spec fn parents_listed_first(s: Seq<ThreadPost>, from: int) -> bool {
    forall|k: int| from <= k < s.len() ==> #[trigger] parent_listed_before(s, k)
}

/// `s` lists, before index `end`, a post with URI `uri` at `depth`.
pub open spec fn listed(s: Seq<ThreadPost>, end: int, uri: String, depth: int) -> bool {
    exists|j: int| 0 <= j < end && j < s.len() && s[j].uri == uri && s[j].depth == depth
}

/// The posts of a level reply to `parent`, and each post of the level is
/// listed in it at `depth`.
proof fn lemma_level_links(rs: Seq<ThreadReply>, parent: String, depth: int)
    requires
        0 <= depth <= u32::MAX,
    ensures
        forall|k: int| 0 <= k < level_posts(rs, parent, depth).len() ==> {
            &&& (#[trigger] level_posts(rs, parent, depth)[k]).parent_uri == Some(parent)
            &&& level_posts(rs, parent, depth)[k].depth == depth
        },
        forall|i: int| 0 <= i < rs.len() && (#[trigger] rs[i]) is Post ==> listed(
            level_posts(rs, parent, depth),
            level_posts(rs, parent, depth).len() as int,
            rs[i]->Post_0.post.uri,
            depth,
        ),
    decreases rs.len(),
{
    if rs.len() > 0 {
        let init = rs.drop_last();
        lemma_level_links(init, parent, depth);
        let l = level_posts(rs, parent, depth);
        let li = level_posts(init, parent, depth);
        assert forall|i: int| 0 <= i < rs.len() && (#[trigger] rs[i]) is Post implies listed(
            l,
            l.len() as int,
            rs[i]->Post_0.post.uri,
            depth,
        ) by {
            if i < rs.len() - 1 {
                assert(init[i] == rs[i]);
                let j = choose|j: int| 0 <= j < li.len() && j < li.len() && li[j].uri == init[i]->Post_0.post.uri && li[j].depth == depth;
                assert(l[j] == li[j]);
            } else {
                assert(l[li.len() as int] == post_at(rs.last()->Post_0.post, Some(parent), depth));
            }
        }
    }
}

/// Extending a list whose posts from `from` on reply to earlier posts by
/// posts that reply to earlier posts keeps the property.
proof fn lemma_links_extend(a: Seq<ThreadPost>, b: Seq<ThreadPost>, from: int)
    requires
        0 <= from <= a.len(),
        parents_listed_first(a, from),
        parents_listed_first(a + b, a.len() as int),
    ensures
        parents_listed_first(a + b, from),
{
    let ab = a + b;
    assert forall|k: int| from <= k < ab.len() implies #[trigger] parent_listed_before(ab, k) by {
        if k < a.len() {
            assert(parent_listed_before(a, k));
            let j = choose|j: int| 0 <= j < k && replies_to(a[j], a[k]);
            assert(ab[k] == a[k]);
            assert(ab[j] == a[j]);
            assert(replies_to(ab[j], ab[k]));
        } else {
            assert(parent_listed_before(a + b, k));
        }
    }
}

/// Replies appended after `pre`, which lists their parent one level up,
/// each reply to a post listed before them.
proof fn lemma_reply_links(pre: Seq<ThreadPost>, rs: Seq<ThreadReply>, parent: String, depth: int)
    requires
        1 <= depth,
        depth + height(rs) <= u32::MAX,
        listed(pre, pre.len() as int, parent, depth - 1),
        parents_listed_first(pre, pre.len() as int),
    ensures
        parents_listed_first(pre + reply_posts(rs, parent, depth), pre.len() as int),
    decreases rs, 1int,
{
    let level = level_posts(rs, parent, depth);
    lemma_level_links(rs, parent, depth);
    let p2 = pre + level;
    let jp = choose|j: int| 0 <= j < pre.len() && j < pre.len() && pre[j].uri == parent && pre[j].depth == depth - 1;
    assert forall|k: int| pre.len() <= k < p2.len() implies #[trigger] parent_listed_before(p2, k) by {
        assert(p2[jp] == pre[jp]);
        assert(p2[k] == level[k - pre.len()]);
        assert(replies_to(p2[jp], p2[k]));
    }
    assert forall|i: int| 0 <= i < rs.len() && (#[trigger] rs[i]) is Post implies listed(
        p2,
        p2.len() as int,
        rs[i]->Post_0.post.uri,
        depth,
    ) by {
        let j = choose|j: int| 0 <= j < level.len() && j < level.len() && level[j].uri == rs[i]->Post_0.post.uri && level[j].depth == depth;
        assert(p2[pre.len() + j] == level[j]);
    }
    lemma_below_links(p2, rs, depth);
    lemma_links_extend(p2, below_level(rs, depth), pre.len() as int);
    assert(pre + reply_posts(rs, parent, depth) =~= p2 + below_level(rs, depth));
}

/// What lies below a level, appended after `pre`, which lists the posts of
/// the level: each post replies to a post listed before it.
proof fn lemma_below_links(pre: Seq<ThreadPost>, rs: Seq<ThreadReply>, depth: int)
    requires
        0 <= depth,
        depth + height(rs) <= u32::MAX,
        forall|i: int| 0 <= i < rs.len() && (#[trigger] rs[i]) is Post ==> listed(
            pre,
            pre.len() as int,
            rs[i]->Post_0.post.uri,
            depth,
        ),
        parents_listed_first(pre, pre.len() as int),
    ensures
        parents_listed_first(pre + below_level(rs, depth), pre.len() as int),
    decreases rs, 0int,
{
    if rs.len() == 0 {
        assert(pre + below_level(rs, depth) =~= pre);
    } else {
        let init = rs.subrange(0, rs.len() - 1);
        let head: Seq<ThreadPost> = match rs.last() {
            ThreadReply::Post(n) => reply_posts(n.replies@, n.post.uri, depth + 1),
            ThreadReply::Unavailable => Seq::empty(),
        };
        match rs.last() {
            ThreadReply::Post(n) => {
                assert(decreases_to!(rs => rs[rs.len() - 1]));
                lemma_height_child(rs, rs.len() - 1);
                assert(rs[rs.len() - 1] is Post);
                lemma_reply_links(pre, n.replies@, n.post.uri, depth + 1);
            },
            ThreadReply::Unavailable => {
                assert(pre + head =~= pre);
            },
        }
        let p3 = pre + head;
        assert(height(init) <= height(rs));
        assert forall|i: int| 0 <= i < init.len() && (#[trigger] init[i]) is Post implies listed(
            p3,
            p3.len() as int,
            init[i]->Post_0.post.uri,
            depth,
        ) by {
            assert(rs[i] == init[i]);
            let j = choose|j: int| 0 <= j < pre.len() && j < pre.len() && pre[j].uri == rs[i]->Post_0.post.uri && pre[j].depth == depth;
            assert(p3[j] == pre[j]);
        }
        lemma_below_links(p3, init, depth);
        lemma_links_extend(p3, below_level(init, depth), pre.len() as int);
        assert(pre + below_level(rs, depth) =~= p3 + below_level(init, depth));
    }
}

/// In a flattened thread every post but the first replies to a post
/// listed before it: its parent comes first, one level up.
pub proof fn law_parents_listed_first(ancestors: Seq<ThreadPostData>, node: ThreadNode)
    requires
        ancestors.len() + 1 + height(node.replies@) <= u32::MAX,
    ensures
        parents_listed_first(thread_posts(ancestors, node), 1),
{
    let d = ancestors.len() as int;
    let anc = ancestor_posts(ancestors);
    let pre = anc + seq![post_at(node.post, if d == 0 { None } else { Some(ancestors[d - 1].uri) }, d)];
    assert forall|k: int| 1 <= k < pre.len() implies #[trigger] parent_listed_before(pre, k) by {
        assert(replies_to(pre[k - 1], pre[k]));
    }
    assert(pre[d] == post_at(node.post, if d == 0 { None } else { Some(ancestors[d - 1].uri) }, d));
    assert(listed(pre, pre.len() as int, node.post.uri, d));
    lemma_reply_links(pre, node.replies@, node.post.uri, d + 1);
    lemma_links_extend(pre, reply_posts(node.replies@, node.post.uri, d + 1), 1);
    assert(thread_posts(ancestors, node) =~= pre + reply_posts(node.replies@, node.post.uri, d + 1));
}

/// A flattened post carries the data of the thread-view post it comes
/// from: its URI, CID, author, text, creation time and reply count.
pub open spec fn keeps_data(post: ThreadPost, p: ThreadPostData) -> bool {
    &&& post.uri == p.uri
    &&& post.cid == p.cid
    &&& post.author_did == p.author_did
    &&& post.author_handle == p.author_handle
    &&& post.text == p.text
    &&& post.created_at == p.created_at
    &&& post.reply_count == p.reply_count
}

/// Post `k` of a level of replies carries the data of one of the replies.
pub open spec fn level_post_kept(rs: Seq<ThreadReply>, parent: String, depth: int, k: int) -> bool {
    exists|j: int|
        0 <= j < rs.len() && ((#[trigger] rs[j]) matches ThreadReply::Post(n) && keeps_data(
            level_posts(rs, parent, depth)[k],
            n.post,
        ))
}

/// Flattening keeps each post's data: the ancestors, root first, and the
/// requested post appear with the data the view gave them, and every post
/// of the first level of replies carries the data of one of those replies.
pub proof fn law_flattened_posts_keep_their_data(ancestors: Seq<ThreadPostData>, node: ThreadNode)
    ensures
        forall|i: int| 0 <= i < ancestors.len() ==> keeps_data(
            #[trigger] thread_posts(ancestors, node)[i],
            ancestors[i],
        ),
        keeps_data(thread_posts(ancestors, node)[ancestors.len() as int], node.post),
        forall|k: int|
            0 <= k < level_posts(node.replies@, node.post.uri, ancestors.len() + 1int).len()
                ==> #[trigger] level_post_kept(node.replies@, node.post.uri, ancestors.len() + 1int, k),
{
    let d = ancestors.len() as int;
    let all = thread_posts(ancestors, node);
    let anc = ancestor_posts(ancestors);
    assert forall|i: int| 0 <= i < ancestors.len() implies keeps_data(#[trigger] all[i], ancestors[i]) by {
        assert(all[i] == anc[i]);
    }
    assert(all[d] == post_at(node.post, if d == 0 { None } else { Some(ancestors[d - 1].uri) }, d));
    lemma_level_keeps_data(node.replies@, node.post.uri, ancestors.len() + 1int);
}

/// Each post of a level of replies carries the data of one of the replies.
proof fn lemma_level_keeps_data(rs: Seq<ThreadReply>, parent: String, depth: int)
    ensures
        forall|k: int|
            0 <= k < level_posts(rs, parent, depth).len() ==> #[trigger] level_post_kept(rs, parent, depth, k),
    decreases rs.len(),
{
    if rs.len() > 0 {
        let init = rs.drop_last();
        lemma_level_keeps_data(init, parent, depth);
        let l = level_posts(rs, parent, depth);
        let li = level_posts(init, parent, depth);
        assert forall|k: int| 0 <= k < l.len() implies #[trigger] level_post_kept(rs, parent, depth, k) by {
            if k < li.len() {
                assert(level_post_kept(init, parent, depth, k));
                assert(l[k] == li[k]);
                let j = choose|j: int|
                    0 <= j < init.len() && ((#[trigger] init[j]) matches ThreadReply::Post(n) && keeps_data(
                        li[k],
                        n.post,
                    ));
                assert(rs[j] == init[j]);
            } else {
                let j = rs.len() - 1;
                assert(rs[j] matches ThreadReply::Post(n) && keeps_data(l[k], n.post));
            }
        }
    }
}

} // verus!
