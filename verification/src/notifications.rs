//! New notifications from a batch the Bluesky API returned: those already
//! seen (indexed no later than the last one seen) and those of unknown
//! reasons are dropped, and the batch's newest time becomes the last seen.

use vstd::prelude::*;
use crate::bluesky::{NotificationReason, PostRef, reason_of};
use crate::media::Facet;
use crate::json::string_opt;

verus! {

/// A notification as the API lists it, with the post data taken from its
/// record.
#[derive(Debug)]
pub struct RawNotification {
    pub reason: String,
    pub author_did: String,
    pub author_handle: String,
    /// When the service indexed it, in RFC 3339.
    pub indexed_at: String,
    pub uri: String,
    pub cid: String,
    pub text: Option<String>,
    pub parent: Option<PostRef>,
    pub root: Option<PostRef>,
    pub facets: Vec<Facet>,
}

/// A notification for the agent.
#[derive(Debug)]
pub struct BlueskyNotification {
    pub reason: NotificationReason,
    pub author_did: String,
    pub author_handle: String,
    pub text: Option<String>,
    pub uri: String,
    pub cid: String,
    pub parent: Option<PostRef>,
    pub root: Option<PostRef>,
    pub facets: Vec<Facet>,
}

/// The instant an RFC 3339 timestamp denotes, as `chrono` parses it: the
/// seconds since the Unix epoch and the nanoseconds past that second; none
/// when the text does not parse.
pub uninterp spec fn rfc3339_instant(s: Seq<char>) -> Option<(i64, u32)>;

/// Calls `chrono::DateTime::parse_from_rfc3339` and gives the parsed
/// instant by its `timestamp` and `timestamp_subsec_nanos`; the contract
/// names the result.
#[verifier::external_body]
fn parse_instant(s: &str) -> (r: Option<(i64, u32)>)
    ensures
        r == rfc3339_instant(s@),
{
    match chrono::DateTime::parse_from_rfc3339(s) {
        Ok(d) => Some((d.timestamp(), d.timestamp_subsec_nanos())),
        Err(_) => None,
    }
}

/// Instant `a` is not after instant `b`.
pub open spec fn not_after(a: (i64, u32), b: (i64, u32)) -> bool {
    a.0 < b.0 || (a.0 == b.0 && a.1 <= b.1)
}

/// A notification indexed at `indexed` was seen before: both times parse
/// and it is not after the last one seen.
pub open spec fn seen(indexed: Seq<char>, last_seen: Option<Seq<char>>) -> bool {
    match last_seen {
        Some(l) => match (rfc3339_instant(indexed), rfc3339_instant(l)) {
            (Some(a), Some(b)) => not_after(a, b),
            _ => false,
        },
        None => false,
    }
}

/// A notification is kept when it was not seen and its reason is known.
pub open spec fn kept(n: RawNotification, last_seen: Option<Seq<char>>) -> bool {
    !seen(n.indexed_at@, last_seen) && reason_of(n.reason@) is Some
}

/// `b` is `n` for the agent.
pub open spec fn delivered_as(n: RawNotification, b: BlueskyNotification) -> bool {
    &&& reason_of(n.reason@) == Some(b.reason)
    &&& b.author_did == n.author_did
    &&& b.author_handle == n.author_handle
    &&& b.text == n.text
    &&& b.uri == n.uri
    &&& b.cid == n.cid
    &&& b.parent == n.parent
    &&& b.root == n.root
    &&& b.facets == n.facets
}

/// The positions of the kept notifications, in order.
pub open spec fn kept_positions(batch: Seq<RawNotification>, last_seen: Option<Seq<char>>) -> Seq<int>
    decreases batch.len(),
{
    if batch.len() == 0 {
        Seq::empty()
    } else {
        let rest = kept_positions(batch.drop_last(), last_seen);
        if kept(batch.last(), last_seen) {
            rest.push(batch.len() - 1)
        } else {
            rest
        }
    }
}

proof fn lemma_kept_positions_bounded(batch: Seq<RawNotification>, last_seen: Option<Seq<char>>)
    ensures
        forall|k: int|
            0 <= k < kept_positions(batch, last_seen).len() ==> 0 <= #[trigger] kept_positions(
                batch,
                last_seen,
            )[k] < batch.len(),
    decreases batch.len(),
{
    if batch.len() > 0 {
        let t = batch.drop_last();
        lemma_kept_positions_bounded(t, last_seen);
        let rest = kept_positions(t, last_seen);
        let all = kept_positions(batch, last_seen);
        assert forall|k: int| 0 <= k < all.len() implies 0 <= #[trigger] all[k] < batch.len() by {
            if k < rest.len() {
                assert(all[k] == rest[k]);
            }
        }
    }
}

/// The new notifications of a batch (newest first, as the API lists
/// them), in order, and the last seen time after it: the first one's
/// index time, or the one before for an empty batch.
pub fn fresh_notifications(batch: Vec<RawNotification>, last_seen_at: Option<String>) -> (r: (
    Vec<BlueskyNotification>,
    Option<String>,
))
    ensures
        ({
            let last = string_opt(last_seen_at);
            let pos = kept_positions(batch@, last);
            &&& r.0@.len() == pos.len()
            &&& forall|k: int| 0 <= k < pos.len() ==> delivered_as(batch@[pos[k]], #[trigger] r.0@[k])
            &&& string_opt(r.1) == if batch@.len() > 0 {
                Some(batch@[0].indexed_at@)
            } else {
                string_opt(last_seen_at)
            }
        }),
{
    let ghost all = batch@;
    let ghost last = string_opt(last_seen_at);
    let last_instant = match &last_seen_at {
        Some(l) => parse_instant(l.as_str()),
        None => None,
    };
    let newest = if batch.len() > 0 {
        Some(batch[0].indexed_at.clone())
    } else {
        None
    };
    let mut out: Vec<BlueskyNotification> = Vec::new();
    let n_all = batch.len();
    let mut rest = batch;
    let mut i: usize = 0;
    assert(rest@ =~= all.subrange(0, all.len() as int));
    while rest.len() > 0
        invariant
            i + rest@.len() == all.len(),
            all.len() == n_all,
            rest@ =~= all.subrange(i as int, all.len() as int),
            last_instant == match last {
                Some(l) => rfc3339_instant(l),
                None => None,
            },
            out@.len() == kept_positions(all.take(i as int), last).len(),
            forall|k: int|
                0 <= k < out@.len() ==> delivered_as(
                    all[kept_positions(all.take(i as int), last)[k]],
                    #[trigger] out@[k],
                ),
        decreases rest@.len(),
    {
        let ghost before = out@;
        let n = rest.remove(0);
        proof {
            assert(n == all[i as int]);
            assert(rest@ =~= all.subrange(i + 1, all.len() as int));
            assert(all.take(i + 1).drop_last() =~= all.take(i as int));
            assert(all.take(i + 1).last() == all[i as int]);
            lemma_kept_positions_bounded(all.take(i as int), last);
        }
        let indexed = parse_instant(n.indexed_at.as_str());
        let is_seen = match (indexed, last_instant) {
            (Some(a), Some(b)) => a.0 < b.0 || (a.0 == b.0 && a.1 <= b.1),
            _ => false,
        };
        assert(is_seen == seen(n.indexed_at@, last));
        if !is_seen {
            match NotificationReason::parse(n.reason.as_str()) {
                Some(reason) => {
                    let b = BlueskyNotification {
                        reason,
                        author_did: n.author_did,
                        author_handle: n.author_handle,
                        text: n.text,
                        uri: n.uri,
                        cid: n.cid,
                        parent: n.parent,
                        root: n.root,
                        facets: n.facets,
                    };
                    out.push(b);
                    proof {
                        let p = kept_positions(all.take(i + 1), last);
                        assert(p == kept_positions(all.take(i as int), last).push(i as int));
                        assert forall|k: int| 0 <= k < out@.len() implies delivered_as(
                            all[p[k]],
                            #[trigger] out@[k],
                        ) by {
                            if k < before.len() {
                                assert(out@[k] == before[k]);
                                assert(p[k] == kept_positions(all.take(i as int), last)[k]);
                                assert(all.take(i as int)[kept_positions(all.take(i as int), last)[k]] == all[p[k]]);
                            }
                        }
                    }
                },
                None => {
                    proof {
                        assert(kept_positions(all.take(i + 1), last) == kept_positions(all.take(i as int), last));
                    }
                },
            }
        } else {
            proof {
                assert(kept_positions(all.take(i + 1), last) == kept_positions(all.take(i as int), last));
            }
        }
        i = i + 1;
    }
    assert(all.take(i as int) =~= all);
    let cursor = match newest {
        Some(t) => Some(t),
        None => last_seen_at,
    };
    (out, cursor)
}

/// Only new notifications of known reasons are delivered: each one kept
/// from a batch is not seen (indexed after the last one seen, where both
/// times parse) and has a known reason, and they keep the batch's order.
pub proof fn law_only_unseen_delivered(batch: Seq<RawNotification>, last_seen: Option<Seq<char>>)
    ensures
        forall|k: int|
            0 <= k < kept_positions(batch, last_seen).len() ==> {
                let p = #[trigger] kept_positions(batch, last_seen)[k];
                &&& 0 <= p < batch.len()
                &&& !seen(batch[p].indexed_at@, last_seen)
                &&& reason_of(batch[p].reason@) is Some
            },
        forall|a: int, b: int|
            0 <= a < b < kept_positions(batch, last_seen).len() ==> kept_positions(batch, last_seen)[a]
                < kept_positions(batch, last_seen)[b],
    decreases batch.len(),
{
    if batch.len() > 0 {
        let t = batch.drop_last();
        law_only_unseen_delivered(t, last_seen);
        lemma_kept_positions_bounded(t, last_seen);
        let rest = kept_positions(t, last_seen);
        let all = kept_positions(batch, last_seen);
        assert forall|k: int| 0 <= k < all.len() implies {
            let p = #[trigger] all[k];
            &&& 0 <= p < batch.len()
            &&& !seen(batch[p].indexed_at@, last_seen)
            &&& reason_of(batch[p].reason@) is Some
        } by {
            if k < rest.len() {
                assert(all[k] == rest[k]);
                assert(t[rest[k]] == batch[rest[k]]);
            }
        }
        assert forall|a: int, b: int| 0 <= a < b < all.len() implies all[a] < all[b] by {
            if b < rest.len() {
                assert(all[a] == rest[a] && all[b] == rest[b]);
            } else {
                assert(all[a] == rest[a]);
                assert(rest[a] < t.len());
            }
        }
    }
}

} // verus!
