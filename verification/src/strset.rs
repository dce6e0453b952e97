//! An ordered set of strings.
//!
//! The set keeps its members in a vector, strictly increasing in the
//! lexicographic order of `text::seq_lt`; so every member occurs once and
//! the members are always listed in sorted order.
//!
//! vstd specifies `std::collections::HashSet` only for key types that obey
//! its key model, which it establishes for integers and `bool` but not for
//! `String`, and its `StringHashSet` offers no way to walk the members; a
//! sorted vector gives exact contracts for membership, union, difference
//! and listing.

use vstd::prelude::*;
use crate::text::{seq_lt, str_eq, str_lt, lemma_lt_irreflexive, lemma_lt_transitive, lemma_lt_total};

verus! {

/// Every element is strictly less than every later one.
pub open spec fn strictly_sorted(s: Seq<Seq<char>>) -> bool {
    forall|i: int, j: int| 0 <= i < j < s.len() ==> seq_lt(#[trigger] s[i], #[trigger] s[j])
}

/// The views of a sequence of strings.
pub open spec fn string_views(v: Seq<String>) -> Seq<Seq<char>> {
    v.map_values(|s: String| s@)
}

/// A strictly sorted sequence has no duplicates.
pub proof fn lemma_sorted_no_duplicates(s: Seq<Seq<char>>)
    requires
        strictly_sorted(s),
    ensures
        s.no_duplicates(),
{
    assert forall|i: int, j: int| 0 <= i < s.len() && 0 <= j < s.len() && i != j implies s[i]
        != s[j] by {
        if i < j {
            lemma_lt_irreflexive(s[i]);
        } else {
            lemma_lt_irreflexive(s[j]);
        }
    }
}

/// Two strictly sorted sequences with the same members are equal.
pub proof fn lemma_sorted_unique(a: Seq<Seq<char>>, b: Seq<Seq<char>>)
    requires
        strictly_sorted(a),
        strictly_sorted(b),
        a.to_set() == b.to_set(),
    ensures
        a == b,
    decreases a.len(),
{
    if a.len() == 0 {
        if b.len() > 0 {
            assert(b.to_set().contains(b[0]));
        }
        assert(a =~= b);
    } else {
        assert(a.to_set().contains(a[0]));
        assert(b.len() > 0);
        assert(b.to_set().contains(b[0]));
        let ia = choose|i: int| 0 <= i < a.len() && a[i] == b[0];
        let ib = choose|i: int| 0 <= i < b.len() && b[i] == a[0];
        if ia > 0 {
            assert(seq_lt(a[0], a[ia]));
            if ib > 0 {
                assert(seq_lt(b[0], b[ib]));
                lemma_lt_transitive(a[0], b[0], a[0]);
                lemma_lt_irreflexive(a[0]);
            }
        }
        if ib > 0 && ia == 0 {
            lemma_lt_irreflexive(b[0]);
        }
        assert(a[0] == b[0]);
        lemma_sorted_no_duplicates(a);
        lemma_sorted_no_duplicates(b);
        let ta = a.drop_first();
        let tb = b.drop_first();
        assert forall|x: Seq<char>| ta.to_set().contains(x) implies tb.to_set().contains(x) by {
            let k = choose|k: int| 0 <= k < ta.len() && ta[k] == x;
            assert(a[k + 1] == x);
            assert(a.to_set().contains(x));
            let m = choose|m: int| 0 <= m < b.len() && b[m] == x;
            assert(m != 0);
            assert(tb[m - 1] == x);
        }
        assert forall|x: Seq<char>| tb.to_set().contains(x) implies ta.to_set().contains(x) by {
            let k = choose|k: int| 0 <= k < tb.len() && tb[k] == x;
            assert(b[k + 1] == x);
            assert(b.to_set().contains(x));
            let m = choose|m: int| 0 <= m < a.len() && a[m] == x;
            assert(m != 0);
            assert(ta[m - 1] == x);
        }
        assert(ta.to_set() =~= tb.to_set());
        lemma_sorted_unique(ta, tb);
        assert forall|i: int| 0 <= i < a.len() implies a[i] == b[i] by {
            if i > 0 {
                assert(a[i] == ta[i - 1]);
                assert(b[i] == tb[i - 1]);
            }
        }
        assert(a =~= b);
    }
}

/// Mapping commutes with appending.
pub proof fn lemma_map_push<A, B>(s: Seq<A>, x: A, f: spec_fn(A) -> B)
    ensures
        s.push(x).map_values(f) == s.map_values(f).push(f(x)),
{
    assert(s.push(x).map_values(f) =~= s.map_values(f).push(f(x)));
}

/// The members of a set listed in strictly increasing order.
pub open spec fn sorted_list(s: Set<Seq<char>>) -> Seq<Seq<char>> {
    choose|q: Seq<Seq<char>>| strictly_sorted(q) && q.to_set() == s
}

/// The members of a prefix grow by one element at a time.
pub proof fn lemma_take_to_set<A>(s: Seq<A>, i: int)
    requires
        0 <= i < s.len(),
    ensures
        s.take(i + 1).to_set() == s.take(i).to_set().insert(s[i]),
{
    assert forall|x: A| #[trigger] s.take(i + 1).to_set().contains(x) <==> s.take(i).to_set().insert(
        s[i],
    ).contains(x) by {
        if s.take(i + 1).contains(x) {
            let k = choose|k: int| 0 <= k < i + 1 && #[trigger] s.take(i + 1)[k] == x;
            if k < i {
                assert(s.take(i)[k] == x);
            }
        }
        if s.take(i).contains(x) {
            let k = choose|k: int| 0 <= k < i && #[trigger] s.take(i)[k] == x;
            assert(s.take(i + 1)[k] == x);
        }
        if x == s[i] {
            assert(s.take(i + 1)[i] == x);
        }
    }
    assert(s.take(i + 1).to_set() =~= s.take(i).to_set().insert(s[i]));
}

/// A finite set of strings, listed in strictly increasing order.
#[derive(Debug, Clone, PartialEq, Eq)]
pub struct StrSet {
    items: Vec<String>,
}

impl View for StrSet {
    type V = Set<Seq<char>>;

    open spec fn view(&self) -> Set<Seq<char>> {
        self.elems().to_set()
    }
}

impl StrSet {
    /// The members, in increasing order.
    pub closed spec fn elems(&self) -> Seq<Seq<char>> {
        string_views(self.items@)
    }

    /// Well-formedness: the members are strictly increasing.
    pub open spec fn wf(&self) -> bool {
        strictly_sorted(self.elems())
    }

    /// A well-formed set lists its members as `sorted_list` does.
    pub proof fn lemma_elems_sorted(&self)
        requires
            self.wf(),
        ensures
            self.elems() == sorted_list(self@),
    {
        let q = sorted_list(self@);
        assert(strictly_sorted(self.elems()) && self.elems().to_set() == self@);
        lemma_sorted_unique(q, self.elems());
    }

    /// The empty set.
    pub fn new() -> (r: StrSet)
        ensures
            r.wf(),
            r.elems() == Seq::<Seq<char>>::empty(),
            r@ == Set::<Seq<char>>::empty(),
    {
        let r = StrSet { items: Vec::new() };
        assert(r.elems() =~= Seq::<Seq<char>>::empty());
        assert(r@ =~= Set::<Seq<char>>::empty());
        r
    }

    /// Number of members.
    pub fn len(&self) -> (r: usize)
        ensures
            r == self.elems().len(),
    {
        self.items.len()
    }

    /// Whether the set has no member.
    pub fn is_empty(&self) -> (r: bool)
        ensures
            r == (self.elems().len() == 0),
            r == (self@ == Set::<Seq<char>>::empty()),
    {
        let r = self.items.len() == 0;
        if r {
            assert(self@ =~= Set::<Seq<char>>::empty());
        } else {
            assert(self@.contains(self.elems()[0]));
        }
        r
    }

    /// The member at position `i` in increasing order.
    pub fn get(&self, i: usize) -> (r: &String)
        requires
            i < self.elems().len(),
        ensures
            r@ == self.elems()[i as int],
    {
        &self.items[i]
    }

    /// The position of `s` among the members, if it is one.
    pub fn position(&self, s: &str) -> (r: Option<usize>)
        ensures
            match r {
                Some(i) => i < self.elems().len() && self.elems()[i as int] == s@,
                None => !self@.contains(s@),
            },
    {
        let mut i: usize = 0;
        while i < self.items.len()
            invariant
                i <= self.items.len(),
                forall|k: int| 0 <= k < i ==> self.elems()[k] != s@,
            decreases self.items.len() - i,
        {
            if str_eq(self.items[i].as_str(), s) {
                return Some(i);
            }
            i = i + 1;
        }
        None
    }

    /// Whether `s` is a member.
    pub fn contains(&self, s: &str) -> (r: bool)
        ensures
            r == self@.contains(s@),
    {
        match self.position(s) {
            Some(_) => true,
            None => false,
        }
    }

    /// A copy with the same members in the same order.
    pub fn duplicate(&self) -> (r: StrSet)
        ensures
            r.elems() == self.elems(),
            r@ == self@,
    {
        let mut items: Vec<String> = Vec::new();
        let mut i: usize = 0;
        while i < self.items.len()
            invariant
                i <= self.items.len(),
                items@.len() == i,
                string_views(items@) == self.elems().take(i as int),
            decreases self.items.len() - i,
        {
            let ghost before = items@;
            items.push(self.items[i].clone());
            assert(items@ == before.push(self.items@[i as int]));
            assert forall|k: int| 0 <= k < i + 1 implies string_views(items@)[k] == self.elems().take(
                i + 1,
            )[k] by {
                if k < i {
                    assert(items@[k] == before[k]);
                    assert(string_views(before)[k] == self.elems().take(i as int)[k]);
                }
            }
            assert(string_views(items@) =~= self.elems().take(i + 1));
            i = i + 1;
        }
        assert(self.elems().take(i as int) =~= self.elems());
        StrSet { items }
    }

    /// The members as a vector of strings, in increasing order.
    pub fn to_vec(&self) -> (r: Vec<String>)
        ensures
            string_views(r@) == self.elems(),
    {
        let d = self.duplicate();
        d.items
    }

    /// Adds `s`; returns whether it was not a member before.
    pub fn insert(&mut self, s: String) -> (r: bool)
        requires
            old(self).wf(),
        ensures
            final(self).wf(),
            final(self)@ == old(self)@.insert(s@),
            r == !old(self)@.contains(s@),
    {
        let ghost old_elems = self.elems();
        let mut i: usize = 0;
        while i < self.items.len() && str_lt(self.items[i].as_str(), s.as_str())
            invariant
                i <= self.items.len(),
                self.elems() == old_elems,
                forall|k: int| 0 <= k < i ==> seq_lt(#[trigger] old_elems[k], s@),
            decreases self.items.len() - i,
        {
            i = i + 1;
        }
        if i < self.items.len() && str_eq(self.items[i].as_str(), s.as_str()) {
            assert(old_elems[i as int] == s@);
            assert(old_elems.to_set().insert(s@) =~= old_elems.to_set());
            return false;
        }
        proof {
            if i < old_elems.len() {
                lemma_lt_total(old_elems[i as int], s@);
            }
            assert forall|k: int| i <= k < old_elems.len() implies seq_lt(s@, old_elems[k]) by {
                if k > i {
                    lemma_lt_transitive(s@, old_elems[i as int], old_elems[k]);
                }
            }
            assert forall|k: int| 0 <= k < old_elems.len() implies old_elems[k] != s@ by {
                if k < i {
                    lemma_lt_irreflexive(s@);
                } else {
                    lemma_lt_irreflexive(s@);
                }
            }
        }
        let ghost sv = s@;
        let ghost sg: String = s;
        let ghost old_items = self.items@;
        self.items.insert(i, s);
        let ghost ne = old_elems.insert(i as int, sv);
        assert(self.items@ == old_items.insert(i as int, sg));
        assert forall|k: int| 0 <= k < ne.len() implies self.elems()[k] == ne[k] by {
            if k < i {
                assert(self.items@[k] == old_items[k]);
            } else if k == i {
            } else {
                assert(self.items@[k] == old_items[k - 1]);
            }
        }
        assert(self.elems() =~= ne);
        assert forall|a: int, b: int| 0 <= a < b < ne.len() implies seq_lt(ne[a], ne[b]) by {
            if b < i {
            } else if b == i {
            } else if a < i {
                lemma_lt_transitive(ne[a], sv, ne[b]);
            } else if a == i {
            } else {
            }
        }
        assert forall|x: Seq<char>| #[trigger] ne.to_set().contains(x) <==> old_elems.to_set().insert(
            sv,
        ).contains(x) by {
            if ne.contains(x) {
                let k = choose|k: int| 0 <= k < ne.len() && #[trigger] ne[k] == x;
                if k < i {
                    assert(old_elems[k] == x);
                } else if k > i {
                    assert(old_elems[k - 1] == x);
                }
            }
            if old_elems.contains(x) {
                let k = choose|k: int| 0 <= k < old_elems.len() && #[trigger] old_elems[k] == x;
                if k < i {
                    assert(ne[k] == x);
                } else {
                    assert(ne[k + 1] == x);
                }
            }
            if x == sv {
                assert(ne[i as int] == x);
            }
        }
        assert(ne.to_set() =~= old_elems.to_set().insert(sv));
        true
    }

    /// The set of the given strings.
    pub fn from_strings(v: Vec<String>) -> (r: StrSet)
        ensures
            r.wf(),
            r@ == string_views(v@).to_set(),
    {
        let mut r = StrSet::new();
        let mut i: usize = 0;
        let n = v.len();
        let mut v = v;
        let ghost vv = string_views(v@);
        while i < n
            invariant
                n == vv.len(),
                i <= n,
                v@.len() == n,
                string_views(v@) == vv,
                r.wf(),
                r@ == vv.take(i as int).to_set(),
            decreases n - i,
        {
            let s = v[i].clone();
            assert(s@ == vv[i as int]);
            r.insert(s);
            proof { lemma_take_to_set(vv, i as int); }
            i = i + 1;
        }
        assert(vv.take(n as int) =~= vv);
        r
    }

    /// Whether every member of `self` is a member of `other`.
    pub fn is_subset(&self, other: &StrSet) -> (r: bool)
        ensures
            r == self@.subset_of(other@),
    {
        let mut i: usize = 0;
        while i < self.items.len()
            invariant
                i <= self.items.len(),
                forall|k: int| 0 <= k < i ==> other@.contains(#[trigger] self.elems()[k]),
            decreases self.items.len() - i,
        {
            if !other.contains(self.items[i].as_str()) {
                assert(self@.contains(self.elems()[i as int]));
                return false;
            }
            i = i + 1;
        }
        true
    }

    /// The members of either set.
    pub fn union(&self, other: &StrSet) -> (r: StrSet)
        requires
            self.wf(),
        ensures
            r.wf(),
            r@ == self@.union(other@),
    {
        let mut r = self.duplicate();
        let mut i: usize = 0;
        while i < other.items.len()
            invariant
                i <= other.items.len(),
                r.wf(),
                r@ == self@.union(other.elems().take(i as int).to_set()),
            decreases other.items.len() - i,
        {
            r.insert(other.items[i].clone());
            proof { lemma_take_to_set(other.elems(), i as int); }
            assert(self@.union(other.elems().take(i + 1).to_set()) =~= self@.union(
                other.elems().take(i as int).to_set(),
            ).insert(other.elems()[i as int]));
            i = i + 1;
        }
        assert(other.elems().take(i as int) =~= other.elems());
        assert(self@.union(other@) =~= self@.union(other.elems().take(i as int).to_set()));
        r
    }

    /// The members of `self` that are not members of `other`, in order.
    pub fn difference(&self, other: &StrSet) -> (r: StrSet)
        requires
            self.wf(),
        ensures
            r.wf(),
            r.elems() == self.elems().filter(|x: Seq<char>| !other@.contains(x)),
            r@ == self@.difference(other@),
    {
        let ghost pred = |x: Seq<char>| !other@.contains(x);
        let ghost se = self.elems();
        let mut items: Vec<String> = Vec::new();
        let mut i: usize = 0;
        while i < self.items.len()
            invariant
                i <= self.items.len(),
                se == self.elems(),
                se.len() == self.items@.len(),
                strictly_sorted(se),
                pred == (|x: Seq<char>| !other@.contains(x)),
                string_views(items@) == se.take(i as int).filter(pred),
                strictly_sorted(string_views(items@)),
                forall|k: int, m: int|
                    0 <= k < items@.len() && i <= m < se.len() ==> seq_lt(
                        #[trigger] string_views(items@)[k],
                        #[trigger] se[m],
                    ),
            decreases self.items.len() - i,
        {
            let ghost before = string_views(items@);
            let ghost t1 = se.take(i + 1);
            assert(t1.drop_last() =~= se.take(i as int));
            assert(t1.last() == se[i as int]);
            assert(t1.filter(pred) == (if pred(se[i as int]) {
                se.take(i as int).filter(pred).push(se[i as int])
            } else {
                se.take(i as int).filter(pred)
            })) by {
                reveal(Seq::filter);
            }
            let keep = !other.contains(self.items[i].as_str());
            assert(keep == pred(se[i as int]));
            if keep {
                let ghost old_items = items@;
                items.push(self.items[i].clone());
                assert(items@ == old_items.push(self.items@[i as int]));
                let ghost after = string_views(items@);
                assert(after =~= before.push(se[i as int]));
                assert forall|a: int, b: int| 0 <= a < b < after.len() implies seq_lt(
                    after[a],
                    after[b],
                ) by {
                    if b == after.len() - 1 {
                        assert(after[a] == before[a]);
                        assert(seq_lt(before[a], se[i as int]));
                    } else {
                        assert(after[a] == before[a] && after[b] == before[b]);
                    }
                }
                assert forall|k: int, m: int|
                    0 <= k < after.len() && i + 1 <= m < se.len() implies seq_lt(
                    after[k],
                    se[m],
                ) by {
                    if k < before.len() {
                        assert(after[k] == before[k]);
                    } else {
                        assert(after[k] == se[i as int]);
                    }
                }
            }
            i = i + 1;
        }
        assert(se.take(i as int) =~= se);
        let r = StrSet { items };
        proof {
            assert forall|x: Seq<char>| r@.contains(x) <==> self@.difference(other@).contains(x) by {
                if r@.contains(x) {
                    let k = choose|k: int| 0 <= k < r.elems().len() && r.elems()[k] == x;
                    se.lemma_filter_pred(pred, k);
                    se.lemma_filter_contains_rev(pred, x);
                }
                if self@.difference(other@).contains(x) {
                    let m = choose|m: int| 0 <= m < se.len() && se[m] == x;
                    se.lemma_filter_contains(pred, m);
                }
            }
            assert(r@ =~= self@.difference(other@));
        }
        r
    }
}

/// The first position of `s` in a vector of strings, if it occurs.
pub fn position_in(v: &Vec<String>, s: &str) -> (r: Option<usize>)
    ensures
        match r {
            Some(i) => i < v@.len() && string_views(v@)[i as int] == s@,
            None => !string_views(v@).contains(s@),
        },
{
    let mut i: usize = 0;
    while i < v.len()
        invariant
            i <= v@.len(),
            forall|k: int| 0 <= k < i ==> string_views(v@)[k] != s@,
        decreases v@.len() - i,
    {
        if str_eq(v[i].as_str(), s) {
            return Some(i);
        }
        i = i + 1;
    }
    None
}

// ---------------------------------------------------------------------------
// Vectors of string-keyed entries
// ---------------------------------------------------------------------------

/// No two entries have the same key.
pub open spec fn keys_distinct<V>(v: Seq<(String, V)>) -> bool {
    forall|i: int, j: int| 0 <= i < v.len() && 0 <= j < v.len() && i != j ==> v[i].0@ != v[j].0@
}

/// The keys of the entries.
pub open spec fn entry_keys<V>(v: Seq<(String, V)>) -> Seq<Seq<char>> {
    v.map_values(|e: (String, V)| e.0@)
}

/// The map from the keys of the entries to the views of their values.
pub open spec fn entries_map<V: View>(v: Seq<(String, V)>) -> Map<Seq<char>, V::V> {
    Map::new(
        |k: Seq<char>| exists|i: int| 0 <= i < v.len() && v[i].0@ == k,
        |k: Seq<char>| v[choose|i: int| 0 <= i < v.len() && v[i].0@ == k].1@,
    )
}

/// With distinct keys, the entry with a key gives the map's value there.
pub proof fn lemma_entries_map_at<V: View>(v: Seq<(String, V)>, i: int)
    requires
        keys_distinct(v),
        0 <= i < v.len(),
    ensures
        entries_map(v).contains_key(v[i].0@),
        entries_map(v)[v[i].0@] == v[i].1@,
{
    let k = v[i].0@;
    assert(exists|j: int| 0 <= j < v.len() && v[j].0@ == k);
    let j = choose|j: int| 0 <= j < v.len() && v[j].0@ == k;
    assert(j == i);
}

/// Appending an entry with a new key adds it to the map.
pub proof fn lemma_entries_map_push<V: View>(v: Seq<(String, V)>, e: (String, V))
    requires
        keys_distinct(v),
        !entries_map(v).contains_key(e.0@),
    ensures
        keys_distinct(v.push(e)),
        entries_map(v.push(e)) == entries_map(v).insert(e.0@, e.1@),
{
    let w = v.push(e);
    assert forall|i: int| 0 <= i < v.len() implies v[i].0@ != e.0@ by {
        if v[i].0@ == e.0@ {
            assert(entries_map(v).contains_key(e.0@));
        }
    }
    assert(keys_distinct(w));
    let a = entries_map(w);
    let b = entries_map(v).insert(e.0@, e.1@);
    assert forall|k: Seq<char>| #[trigger] a.contains_key(k) <==> b.contains_key(k) by {
        if a.contains_key(k) {
            let i = choose|i: int| 0 <= i < w.len() && w[i].0@ == k;
            if i < v.len() {
                assert(v[i].0@ == k);
            }
        }
        if entries_map(v).contains_key(k) {
            let i = choose|i: int| 0 <= i < v.len() && v[i].0@ == k;
            assert(w[i].0@ == k);
        }
        if k == e.0@ {
            assert(w[v.len() as int].0@ == k);
        }
    }
    assert forall|k: Seq<char>| #[trigger] a.contains_key(k) implies a[k] == b[k] by {
        let i = choose|i: int| 0 <= i < w.len() && w[i].0@ == k;
        lemma_entries_map_at(w, i);
        if i < v.len() {
            lemma_entries_map_at(v, i);
        }
    }
    assert(a =~= b);
}

/// Replacing the value of an entry changes the map there only.
pub proof fn lemma_entries_map_update<V: View>(v: Seq<(String, V)>, i: int, e: (String, V))
    requires
        keys_distinct(v),
        0 <= i < v.len(),
        e.0@ == v[i].0@,
    ensures
        keys_distinct(v.update(i, e)),
        entries_map(v.update(i, e)) == entries_map(v).insert(e.0@, e.1@),
{
    let w = v.update(i, e);
    assert(keys_distinct(w));
    let a = entries_map(w);
    let b = entries_map(v).insert(e.0@, e.1@);
    lemma_entries_map_at(v, i);
    assert forall|k: Seq<char>| #[trigger] a.contains_key(k) <==> b.contains_key(k) by {
        if a.contains_key(k) {
            let j = choose|j: int| 0 <= j < w.len() && w[j].0@ == k;
            assert(v[j].0@ == k);
        }
        if entries_map(v).contains_key(k) {
            let j = choose|j: int| 0 <= j < v.len() && v[j].0@ == k;
            assert(w[j].0@ == k);
        }
    }
    assert forall|k: Seq<char>| #[trigger] a.contains_key(k) implies a[k] == b[k] by {
        let j = choose|j: int| 0 <= j < w.len() && w[j].0@ == k;
        lemma_entries_map_at(w, j);
        if j != i {
            lemma_entries_map_at(v, j);
        }
    }
    assert(a =~= b);
}

/// Removing an entry removes its key from the map.
pub proof fn lemma_entries_map_remove<V: View>(v: Seq<(String, V)>, i: int)
    requires
        keys_distinct(v),
        0 <= i < v.len(),
    ensures
        keys_distinct(v.remove(i)),
        entries_map(v.remove(i)) == entries_map(v).remove(v[i].0@),
{
    let w = v.remove(i);
    let key = v[i].0@;
    assert forall|a: int, b: int| 0 <= a < w.len() && 0 <= b < w.len() && a != b implies w[a].0@
        != w[b].0@ by {
        let a2 = if a < i { a } else { a + 1 };
        let b2 = if b < i { b } else { b + 1 };
        assert(w[a] == v[a2] && w[b] == v[b2]);
    }
    let ma = entries_map(w);
    let mb = entries_map(v).remove(key);
    assert forall|k: Seq<char>| #[trigger] ma.contains_key(k) <==> mb.contains_key(k) by {
        if ma.contains_key(k) {
            let j = choose|j: int| 0 <= j < w.len() && w[j].0@ == k;
            let j2 = if j < i { j } else { j + 1 };
            assert(v[j2].0@ == k);
            assert(j2 != i);
        }
        if mb.contains_key(k) {
            let j = choose|j: int| 0 <= j < v.len() && v[j].0@ == k;
            assert(j != i);
            if j < i {
                assert(w[j].0@ == k);
            } else {
                assert(w[j - 1].0@ == k);
            }
        }
    }
    assert forall|k: Seq<char>| #[trigger] ma.contains_key(k) implies ma[k] == mb[k] by {
        let j = choose|j: int| 0 <= j < w.len() && w[j].0@ == k;
        let j2 = if j < i { j } else { j + 1 };
        assert(w[j] == v[j2]);
        lemma_entries_map_at(w, j);
        lemma_entries_map_at(v, j2);
    }
    assert(ma =~= mb);
}

} // verus!
