//! The inbox of the persistent session: items (notifications, DMs, jobs,
//! system messages) that the daemon pushes and the agent reads and
//! acknowledges.  Items stay until acknowledged; the agent sees them all,
//! most urgent first.

use vstd::prelude::*;
use crate::text::str_eq;
use crate::strset::string_views;

verus! {

/// Default maximum inbox size before overflow trimming starts.
pub const DEFAULT_MAX_SIZE: usize = 200;

/// The kind of inbox item.
#[derive(Debug, Clone, Copy, PartialEq, Eq, Structural)]
pub enum InboxItemKind {
    Notification,
    DirectMessage,
    Job,
    System,
}

/// The snake-case name of a kind.
pub open spec fn kind_name(k: InboxItemKind) -> Seq<char> {
    match k {
        InboxItemKind::Notification => "notification"@,
        InboxItemKind::DirectMessage => "direct_message"@,
        InboxItemKind::Job => "job"@,
        InboxItemKind::System => "system"@,
    }
}

impl InboxItemKind {
    /// The snake-case name of the kind.
    pub fn name(&self) -> (r: &'static str)
        ensures
            r@ == kind_name(*self),
    {
        match self {
            InboxItemKind::Notification => "notification",
            InboxItemKind::DirectMessage => "direct_message",
            InboxItemKind::Job => "job",
            InboxItemKind::System => "system",
        }
    }
}

/// A reference to a post (URI + CID).
#[derive(Debug, Clone)]
pub struct PostRef {
    pub uri: String,
    pub cid: String,
}

/// A single inbox item: work for the agent to consider, with its
/// type-specific payload.
#[derive(Debug)]
pub struct InboxItem<P> {
    /// Unique ID (TID-based).
    pub id: String,
    /// What kind of item this is.
    pub kind: InboxItemKind,
    /// Priority hint (200 = operator DM, 100 = notification, 50 = job).
    pub priority: u8,
    /// When the item was added, in microseconds since the epoch.
    pub created_at: i64,
    /// Tag for thought scoping (e.g. `notification:{uri}:root={root}`).
    pub context_tag: String,
    /// Full type-specific data.
    pub payload: P,
}

impl<P> InboxItem<P> {
    /// A notification about the post `uri` in the thread rooted at
    /// `root_uri` (the post itself when it is the root).
    pub fn notification(id: String, created_at: i64, uri: &str, root_uri: Option<&str>, payload: P) -> (r: InboxItem<P>)
        ensures
            r.id == id && r.created_at == created_at && r.payload == payload,
            r.kind == InboxItemKind::Notification,
            r.priority == 100,
            r.context_tag@ == "notification:"@ + uri@ + ":root="@ + match root_uri {
                Some(x) => x@,
                None => uri@,
            },
    {
        let mut tag = String::from_str("notification:");
        tag.append(uri);
        tag.append(":root=");
        match root_uri {
            Some(x) => tag.append(x),
            None => tag.append(uri),
        }
        InboxItem { id, kind: InboxItemKind::Notification, priority: 100, created_at, context_tag: tag, payload }
    }

    /// A direct message `message_id` of conversation `convo_id`.
    pub fn direct_message(id: String, created_at: i64, convo_id: &str, message_id: &str, payload: P) -> (r: InboxItem<P>)
        ensures
            r.id == id && r.created_at == created_at && r.payload == payload,
            r.kind == InboxItemKind::DirectMessage,
            r.priority == 200,
            r.context_tag@ == "dm:"@ + convo_id@ + ":"@ + message_id@,
    {
        let mut tag = String::from_str("dm:");
        tag.append(convo_id);
        tag.append(":");
        tag.append(message_id);
        InboxItem { id, kind: InboxItemKind::DirectMessage, priority: 200, created_at, context_tag: tag, payload }
    }

    /// A scheduled job called `name`.
    pub fn job(id: String, created_at: i64, name: &str, payload: P) -> (r: InboxItem<P>)
        ensures
            r.id == id && r.created_at == created_at && r.payload == payload,
            r.kind == InboxItemKind::Job,
            r.priority == 50,
            r.context_tag@ == "job:"@ + name@,
    {
        let mut tag = String::from_str("job:");
        tag.append(name);
        InboxItem { id, kind: InboxItemKind::Job, priority: 50, created_at, context_tag: tag, payload }
    }

    /// The operator approved the custom tool `tool_rkey`.
    pub fn tool_approved(id: String, created_at: i64, tool_rkey: &str, payload: P) -> (r: InboxItem<P>)
        ensures
            r.id == id && r.created_at == created_at && r.payload == payload,
            r.kind == InboxItemKind::System,
            r.priority == 75,
            r.context_tag@ == "tool_approved:"@ + tool_rkey@,
    {
        let mut tag = String::from_str("tool_approved:");
        tag.append(tool_rkey);
        InboxItem { id, kind: InboxItemKind::System, priority: 75, created_at, context_tag: tag, payload }
    }

    /// A system message.
    pub fn system(id: String, created_at: i64, payload: P) -> (r: InboxItem<P>)
        ensures
            r.id == id && r.created_at == created_at && r.payload == payload,
            r.kind == InboxItemKind::System,
            r.priority == 50,
            r.context_tag@ == "system"@,
    {
        InboxItem { id, kind: InboxItemKind::System, priority: 50, created_at, context_tag: String::from_str("system"), payload }
    }
}

// ---------------------------------------------------------------------------
// Overflow
// ---------------------------------------------------------------------------

/// The lowest priority among the items (255 for none).
pub open spec fn min_priority<P>(s: Seq<InboxItem<P>>) -> u8
    decreases s.len(),
{
    if s.len() == 0 {
        255
    } else {
        let m = min_priority(s.drop_last());
        if s.last().priority < m {
            s.last().priority
        } else {
            m
        }
    }
}

/// The first position of an item with priority `p`, or `s.len()`.
pub open spec fn first_with_priority<P>(s: Seq<InboxItem<P>>, p: u8, k: int) -> int
    decreases s.len() - k,
{
    if k >= s.len() {
        s.len() as int
    } else if s[k].priority == p {
        k
    } else {
        first_with_priority(s, p, k + 1)
    }
}

/// The items after pushing `item`: when there are then more than `max`,
/// the oldest item of the lowest priority present leaves.
pub open spec fn pushed<P>(old: Seq<InboxItem<P>>, item: InboxItem<P>, max: nat) -> Seq<InboxItem<P>> {
    let s = old.push(item);
    if s.len() > max {
        s.remove(first_with_priority(s, min_priority(s), 0))
    } else {
        s
    }
}

/// Some item holds the lowest priority.
proof fn lemma_min_priority_present<P>(s: Seq<InboxItem<P>>)
    requires
        s.len() > 0,
    ensures
        exists|i: int| 0 <= i < s.len() && s[i].priority == min_priority(s),
    decreases s.len(),
{
    if s.len() == 1 {
        assert(s[0].priority == min_priority(s));
    } else {
        lemma_min_priority_present(s.drop_last());
        if s.last().priority < min_priority(s.drop_last()) {
            assert(s[s.len() - 1].priority == min_priority(s));
        } else {
            let i = choose|i: int|
                0 <= i < s.drop_last().len() && s.drop_last()[i].priority == min_priority(
                    s.drop_last(),
                );
            assert(s[i] == s.drop_last()[i]);
        }
    }
}

/// A search from `k` finds any item of the priority at or after `k`.
proof fn lemma_first_with_priority_found<P>(s: Seq<InboxItem<P>>, p: u8, k: int, i: int)
    requires
        0 <= k <= i < s.len(),
        s[i].priority == p,
    ensures
        k <= first_with_priority(s, p, k) <= i,
        s[first_with_priority(s, p, k)].priority == p,
    decreases s.len() - k,
{
    if s[k].priority != p {
        lemma_first_with_priority_found(s, p, k + 1, i);
    }
}

// ---------------------------------------------------------------------------
// Order
// ---------------------------------------------------------------------------

/// `a` comes before `b`: higher priority first, then older first.
pub open spec fn comes_before<P>(a: InboxItem<P>, b: InboxItem<P>) -> bool {
    a.priority > b.priority || (a.priority == b.priority && a.created_at < b.created_at)
}

/// Where `x` goes in `l`: before the first item that it comes before.
pub open spec fn insert_position<P>(l: Seq<InboxItem<P>>, x: InboxItem<P>, k: int) -> int
    decreases l.len() - k,
{
    if k >= l.len() {
        l.len() as int
    } else if comes_before(x, l[k]) {
        k
    } else {
        insert_position(l, x, k + 1)
    }
}

/// The items in order (priority descending, then time ascending), equal
/// items keeping their order: a stable insertion sort.
pub open spec fn sorted_items<P>(s: Seq<InboxItem<P>>) -> Seq<InboxItem<P>>
    decreases s.len(),
{
    if s.len() == 0 {
        Seq::empty()
    } else {
        let l = sorted_items(s.drop_last());
        l.insert(insert_position(l, s.last(), 0), s.last())
    }
}

/// No item comes before an item placed ahead of it.
pub open spec fn in_order<P>(s: Seq<InboxItem<P>>) -> bool {
    forall|i: int, j: int| 0 <= i < j < s.len() ==> !comes_before(#[trigger] s[j], #[trigger] s[i])
}

proof fn lemma_insert_position_bounds<P>(l: Seq<InboxItem<P>>, x: InboxItem<P>, k: int)
    requires
        0 <= k <= l.len(),
    ensures
        k <= insert_position(l, x, k) <= l.len(),
        forall|j: int| k <= j < insert_position(l, x, k) ==> !comes_before(x, #[trigger] l[j]),
        insert_position(l, x, k) < l.len() ==> comes_before(x, l[insert_position(l, x, k)]),
    decreases l.len() - k,
{
    if k < l.len() && !comes_before(x, l[k]) {
        lemma_insert_position_bounds(l, x, k + 1);
    }
}

/// The sorted items are in order.
pub proof fn law_sorted_in_order<P>(s: Seq<InboxItem<P>>)
    ensures
        in_order(sorted_items(s)),
        sorted_items(s).len() == s.len(),
    decreases s.len(),
{
    if s.len() > 0 {
        let l = sorted_items(s.drop_last());
        law_sorted_in_order(s.drop_last());
        let x = s.last();
        let p = insert_position(l, x, 0);
        lemma_insert_position_bounds(l, x, 0);
        let r = l.insert(p, x);
        assert forall|i: int, j: int| 0 <= i < j < r.len() implies !comes_before(
            #[trigger] r[j],
            #[trigger] r[i],
        ) by {
            if j < p {
                assert(r[i] == l[i] && r[j] == l[j]);
            } else if j == p {
                assert(r[i] == l[i]);
                assert(!comes_before(x, l[i]));
                if comes_before(l[i], x) {
                    // l[i] is strictly ahead of x; nothing more to show
                }
            } else if i < p {
                assert(r[i] == l[i] && r[j] == l[j - 1]);
            } else if i == p {
                assert(r[j] == l[j - 1]);
                assert(comes_before(x, l[p]));
                if j - 1 > p {
                    assert(!comes_before(l[j - 1], l[p]));
                }
            } else {
                assert(r[i] == l[i - 1] && r[j] == l[j - 1]);
            }
        }
    }
}

/// Sorting keeps exactly the items that were there.
pub proof fn law_sorted_permutation<P>(s: Seq<InboxItem<P>>)
    ensures
        sorted_items(s).to_multiset() == s.to_multiset(),
    decreases s.len(),
{
    broadcast use vstd::seq_lib::group_to_multiset_ensures;

    if s.len() > 0 {
        let l = sorted_items(s.drop_last());
        law_sorted_permutation(s.drop_last());
        let x = s.last();
        let p = insert_position(l, x, 0);
        lemma_insert_position_bounds(l, x, 0);
        vstd::seq_lib::lemma_seq_union_to_multiset_commutative(l.subrange(0, p), seq![x]);
        assert(l.insert(p, x) =~= l.subrange(0, p) + seq![x] + l.subrange(p, l.len() as int));
        assert(l =~= l.subrange(0, p) + l.subrange(p, l.len() as int));
        vstd::seq_lib::lemma_multiset_commutative(l.subrange(0, p) + seq![x], l.subrange(p, l.len() as int));
        vstd::seq_lib::lemma_multiset_commutative(l.subrange(0, p), seq![x]);
        vstd::seq_lib::lemma_multiset_commutative(l.subrange(0, p), l.subrange(p, l.len() as int));
        assert(s =~= s.drop_last().push(x));
    }
}

// ---------------------------------------------------------------------------
// The inbox
// ---------------------------------------------------------------------------

/// The items that no listed ID names, in order.
pub open spec fn unacknowledged<P>(s: Seq<InboxItem<P>>, ids: Seq<Seq<char>>) -> Seq<InboxItem<P>> {
    s.filter(|it: InboxItem<P>| !ids.contains(it.id@))
}

/// In-memory inbox that holds pending items.  Not a queue: the agent
/// sees all items at once.
#[derive(Debug)]
pub struct Inbox<P> {
    items: Vec<InboxItem<P>>,
    max_size: usize,
}

impl<P> Inbox<P> {
    /// The items, in the order they arrived.
    pub closed spec fn contents(&self) -> Seq<InboxItem<P>> {
        self.items@
    }

    /// The size above which items are dropped.
    pub closed spec fn capacity(&self) -> nat {
        self.max_size as nat
    }

    /// A new inbox with the default maximum size.
    pub fn new() -> (r: Inbox<P>)
        ensures
            r.contents() == Seq::<InboxItem<P>>::empty(),
            r.capacity() == DEFAULT_MAX_SIZE,
    {
        Inbox { items: Vec::new(), max_size: DEFAULT_MAX_SIZE }
    }

    /// A new inbox with a custom maximum size.
    pub fn with_max_size(max_size: usize) -> (r: Inbox<P>)
        ensures
            r.contents() == Seq::<InboxItem<P>>::empty(),
            r.capacity() == max_size,
    {
        Inbox { items: Vec::new(), max_size }
    }

    /// Push an item; past the maximum size, the oldest item of the lowest
    /// priority present is dropped.
    pub fn push(&mut self, item: InboxItem<P>)
        ensures
            final(self).contents() == pushed(old(self).contents(), item, old(self).capacity()),
            final(self).capacity() == old(self).capacity(),
    {
        let ghost s = self.items@.push(item);
        self.items.push(item);
        if self.items.len() > self.max_size {
            let mut m: u8 = 255;
            let mut i: usize = 0;
            while i < self.items.len()
                invariant
                    self.items@ == s,
                    i <= s.len(),
                    m == min_priority(s.take(i as int)),
                decreases s.len() - i,
            {
                assert(s.take(i + 1).drop_last() =~= s.take(i as int));
                assert(s.take(i + 1).last() == s[i as int]);
                if self.items[i].priority < m {
                    m = self.items[i].priority;
                }
                i = i + 1;
            }
            assert(s.take(i as int) =~= s);
            let mut k: usize = 0;
            while k < self.items.len() && self.items[k].priority != m
                invariant
                    self.items@ == s,
                    k <= s.len(),
                    first_with_priority(s, m, 0) == first_with_priority(s, m, k as int),
                decreases s.len() - k,
            {
                k = k + 1;
            }
            proof {
                lemma_min_priority_present(s);
                let w = choose|w: int| 0 <= w < s.len() && s[w].priority == min_priority(s);
                lemma_first_with_priority_found(s, m, 0, w);
            }
            self.items.remove(k);
        }
    }

    /// The pending items, most urgent first: priority descending, then
    /// time ascending, equal items in the order they arrived.
    pub fn items(&self) -> (r: Vec<&InboxItem<P>>)
        ensures
            r@.map_values(|x: &InboxItem<P>| *x) == sorted_items(self.contents()),
    {
        let mut out: Vec<&InboxItem<P>> = Vec::new();
        let mut i: usize = 0;
        while i < self.items.len()
            invariant
                i <= self.items@.len(),
                out@.map_values(|x: &InboxItem<P>| *x) == sorted_items(self.items@.take(i as int)),
            decreases self.items@.len() - i,
        {
            let x = &self.items[i];
            let ghost l = out@.map_values(|y: &InboxItem<P>| *y);
            assert(self.items@.take(i + 1).drop_last() =~= self.items@.take(i as int));
            assert(self.items@.take(i + 1).last() == *x);
            let mut k: usize = 0;
            while k < out.len() && !(x.priority > out[k].priority || (x.priority == out[k].priority
                && x.created_at < out[k].created_at))
                invariant
                    k <= out@.len(),
                    l == out@.map_values(|y: &InboxItem<P>| *y),
                    insert_position(l, *x, 0) == insert_position(l, *x, k as int),
                decreases out@.len() - k,
            {
                assert(l[k as int] == *out@[k as int]);
                k = k + 1;
            }
            proof {
                if k < out@.len() {
                    assert(l[k as int] == *out@[k as int]);
                }
            }
            let ghost before = out@;
            out.insert(k, x);
            assert(out@.map_values(|y: &InboxItem<P>| *y) =~= l.insert(k as int, *x));
            i = i + 1;
        }
        assert(self.items@.take(i as int) =~= self.items@);
        out
    }

    /// Remove the items with the given IDs; returns how many were removed.
    pub fn acknowledge(&mut self, ids: &[String]) -> (r: usize)
        ensures
            final(self).contents() == unacknowledged(old(self).contents(), string_views(ids@)),
            r == old(self).contents().len() - final(self).contents().len(),
            final(self).capacity() == old(self).capacity(),
    {
        let ghost old_items = self.items@;
        let ghost idv = string_views(ids@);
        let ghost pred = |it: InboxItem<P>| !idv.contains(it.id@);
        let before = self.items.len();
        let mut i: usize = 0;
        let ghost mut j: int = 0;
        proof {
            assert(old_items.take(0).filter(pred) =~= Seq::<InboxItem<P>>::empty()) by {
                reveal(Seq::filter);
            }
            assert(self.items@ =~= old_items.take(0).filter(pred) + old_items.skip(0));
        }
        while i < self.items.len()
            invariant
                0 <= j <= old_items.len(),
                idv == string_views(ids@),
                pred == (|it: InboxItem<P>| !idv.contains(it.id@)),
                i as int == old_items.take(j).filter(pred).len(),
                self.items@ == old_items.take(j).filter(pred) + old_items.skip(j),
                self.max_size == old(self).max_size,
            decreases self.items@.len() - i,
        {
            let ghost t1 = old_items.take(j + 1);
            assert(self.items@[i as int] == old_items[j]);
            assert(t1.drop_last() =~= old_items.take(j));
            assert(t1.last() == old_items[j]);
            assert(t1.filter(pred) == (if pred(old_items[j]) {
                old_items.take(j).filter(pred).push(old_items[j])
            } else {
                old_items.take(j).filter(pred)
            })) by {
                reveal(Seq::filter);
            }
            let mut listed = false;
            let mut q: usize = 0;
            while q < ids.len()
                invariant
                    q <= ids@.len(),
                    idv == string_views(ids@),
                    listed == exists|z: int| 0 <= z < q && idv[z] == self.items@[i as int].id@,
                    i < self.items@.len(),
                decreases ids@.len() - q,
            {
                assert(idv[q as int] == ids@[q as int]@);
                if str_eq(ids[q].as_str(), self.items[i].id.as_str()) {
                    listed = true;
                }
                q = q + 1;
            }
            assert(listed == idv.contains(old_items[j].id@));
            if listed {
                self.items.remove(i);
                assert(self.items@ =~= old_items.take(j + 1).filter(pred) + old_items.skip(j + 1));
            } else {
                assert(self.items@ =~= old_items.take(j + 1).filter(pred) + old_items.skip(j + 1));
                i = i + 1;
            }
            proof {
                j = j + 1;
            }
        }
        proof {
            assert(old_items.skip(j).len() == 0);
            assert(j == old_items.len());
            assert(old_items.take(j) =~= old_items);
            assert(self.items@ =~= old_items.filter(pred));
            old_items.lemma_filter_len(pred);
        }
        before - self.items.len()
    }

    /// The number of pending items.
    pub fn len(&self) -> (r: usize)
        ensures
            r == self.contents().len(),
    {
        self.items.len()
    }

    /// Whether no item is pending.
    pub fn is_empty(&self) -> (r: bool)
        ensures
            r == (self.contents().len() == 0),
    {
        self.items.len() == 0
    }

    /// Whether some pending item has at least the given priority.
    pub fn has_urgent(&self, min_priority: u8) -> (r: bool)
        ensures
            r == exists|i: int| 0 <= i < self.contents().len() && #[trigger] self.contents()[i].priority >= min_priority,
    {
        let mut i: usize = 0;
        while i < self.items.len()
            invariant
                i <= self.items@.len(),
                forall|k: int| 0 <= k < i ==> self.items@[k].priority < min_priority,
            decreases self.items@.len() - i,
        {
            if self.items[i].priority >= min_priority {
                return true;
            }
            i = i + 1;
        }
        false
    }
}

/// An inbox at or below its maximum size stays there after a push.
pub proof fn law_push_bounded<P>(old: Seq<InboxItem<P>>, item: InboxItem<P>, max: nat)
    requires
        old.len() <= max,
    ensures
        pushed(old, item, max).len() <= max,
        old.len() < max ==> pushed(old, item, max) == old.push(item),
{
    let s = old.push(item);
    if s.len() > max {
        lemma_min_priority_present(s);
        let w = choose|w: int| 0 <= w < s.len() && s[w].priority == min_priority(s);
        lemma_first_with_priority_found(s, min_priority(s), 0, w);
    }
}

/// The items that `check_inbox` shows: of the listed kinds (all kinds
/// when none are listed), at or above the priority, in sorted order.
pub open spec fn shown<P>(sorted: Seq<InboxItem<P>>, kinds: Option<Seq<Seq<char>>>, min_priority: u8) -> Seq<InboxItem<P>> {
    sorted.filter(|it: InboxItem<P>| (match kinds {
        Some(ks) => ks.contains(kind_name(it.kind)),
        None => true,
    }) && it.priority >= min_priority)
}

/// The items to show for `check_inbox`.
pub fn filter_items<'a, P>(
    sorted: &Vec<&'a InboxItem<P>>,
    kinds: Option<&Vec<String>>,
    min_priority: u8,
) -> (r: Vec<&'a InboxItem<P>>)
    ensures
        r@.map_values(|x: &InboxItem<P>| *x) == shown(
            sorted@.map_values(|x: &InboxItem<P>| *x),
            match kinds {
                Some(ks) => Some(string_views(ks@)),
                None => None,
            },
            min_priority,
        ),
{
    let ghost sv = sorted@.map_values(|x: &InboxItem<P>| *x);
    let ghost kv = match kinds {
        Some(ks) => Some(string_views(ks@)),
        None => None,
    };
    let ghost pred = |it: InboxItem<P>| (match kv {
        Some(ks) => ks.contains(kind_name(it.kind)),
        None => true,
    }) && it.priority >= min_priority;
    let mut out: Vec<&'a InboxItem<P>> = Vec::new();
    let mut i: usize = 0;
    proof {
        assert(sv.take(0).filter(pred) =~= Seq::<InboxItem<P>>::empty()) by {
            reveal(Seq::filter);
        }
        assert(out@.map_values(|x: &InboxItem<P>| *x) =~= Seq::<InboxItem<P>>::empty());
    }
    while i < sorted.len()
        invariant
            i <= sorted@.len(),
            sv == sorted@.map_values(|x: &InboxItem<P>| *x),
            kv == (match kinds {
                Some(ks) => Some(string_views(ks@)),
                None => None,
            }),
            pred == (|it: InboxItem<P>| (match kv {
                Some(ks) => ks.contains(kind_name(it.kind)),
                None => true,
            }) && it.priority >= min_priority),
            out@.map_values(|x: &InboxItem<P>| *x) == sv.take(i as int).filter(pred),
        decreases sorted@.len() - i,
    {
        let it = sorted[i];
        let ghost t1 = sv.take(i + 1);
        assert(t1.drop_last() =~= sv.take(i as int));
        assert(t1.last() == *it);
        assert(t1.filter(pred) == (if pred(*it) {
            sv.take(i as int).filter(pred).push(*it)
        } else {
            sv.take(i as int).filter(pred)
        })) by {
            reveal(Seq::filter);
        }
        let kind_ok = match kinds {
            None => true,
            Some(ks) => {
                let name = it.kind.name();
                let mut found = false;
                let mut q: usize = 0;
                while q < ks.len()
                    invariant
                        q <= ks@.len(),
                        found == exists|z: int| 0 <= z < q && string_views(ks@)[z] == name@,
                    decreases ks@.len() - q,
                {
                    assert(string_views(ks@)[q as int] == ks@[q as int]@);
                    if str_eq(ks[q].as_str(), name) {
                        found = true;
                    }
                    q = q + 1;
                }
                found
            },
        };
        if kind_ok && it.priority >= min_priority {
            let ghost before = out@;
            out.push(it);
            assert(out@.map_values(|x: &InboxItem<P>| *x) =~= before.map_values(
                |x: &InboxItem<P>| *x,
            ).push(*it));
        }
        i = i + 1;
    }
    assert(sv.take(i as int) =~= sv);
    out
}

/// The items `check_inbox` shows for a requested minimum priority of any
/// size (0 when none is requested): a minimum above every priority an item
/// can have shows nothing.
pub fn items_at_least<'a, P>(
    sorted: &Vec<&'a InboxItem<P>>,
    kinds: Option<&Vec<String>>,
    min_priority: Option<u64>,
) -> (r: Vec<&'a InboxItem<P>>)
    ensures
        ({
            let min: u64 = match min_priority {
                Some(m) => m,
                None => 0,
            };
            &&& r@.map_values(|x: &InboxItem<P>| *x) == if min > 255 {
                Seq::<InboxItem<P>>::empty()
            } else {
                shown(
                    sorted@.map_values(|x: &InboxItem<P>| *x),
                    match kinds {
                        Some(ks) => Some(string_views(ks@)),
                        None => None,
                    },
                    min as u8,
                )
            }
            &&& forall|k: int| 0 <= k < r@.len() ==> (#[trigger] r@[k]).priority >= min
        }),
{
    let min: u64 = match min_priority {
        Some(m) => m,
        None => 0,
    };
    if min > 255 {
        let e: Vec<&'a InboxItem<P>> = Vec::new();
        assert(e@.map_values(|x: &InboxItem<P>| *x) =~= Seq::<InboxItem<P>>::empty());
        return e;
    }
    let r = filter_items(sorted, kinds, min as u8);
    proof {
        let sv = sorted@.map_values(|x: &InboxItem<P>| *x);
        let kv = match kinds {
            Some(ks) => Some(string_views(ks@)),
            None => None,
        };
        let pred = |it: InboxItem<P>| (match kv {
            Some(ks) => ks.contains(kind_name(it.kind)),
            None => true,
        }) && it.priority >= (min as u8);
        assert forall|k: int| 0 <= k < r@.len() implies (#[trigger] r@[k]).priority >= min by {
            assert(r@.map_values(|x: &InboxItem<P>| *x)[k] == *r@[k]);
            sv.lemma_filter_pred(pred, k);
        }
    }
    r
}

} // verus!
