//! Names for the custom tools a tool may chain to, so that its code can
//! call them by name instead of by AT URI.
//!
//! The allowed AT URIs are resolved to tool names: local tools by record
//! key, the others by fetching their record from the owner's PDS.  A name
//! that resolves to more than one AT URI is ambiguous and left out; code
//! must use the AT URIs to tell such tools apart.

use vstd::prelude::*;
use crate::text::str_eq;
use crate::permissions::{CustomTool, at_uri_parts, parse_at_uri};
use crate::approval::opt_str;

verus! {

/// An allowed AT URI with its DID and record key.
pub open spec fn target_view(t: (String, String, String)) -> (Seq<char>, Seq<char>, Seq<char>) {
    (t.0@, t.1@, t.2@)
}

/// The AT URIs among the allowed tools, each with its DID and record key.
pub open spec fn uri_targets(allowed: Seq<Seq<char>>) -> Seq<(Seq<char>, Seq<char>, Seq<char>)>
    decreases allowed.len(),
{
    if allowed.len() == 0 {
        Seq::empty()
    } else {
        let rest = uri_targets(allowed.drop_last());
        match at_uri_parts(allowed.last()) {
            Some((d, _c, k)) => rest.push((allowed.last(), d, k)),
            None => rest,
        }
    }
}

/// The AT URIs among the allowed tools, each with its DID and record key.
pub fn allowed_tool_uris(allowed: &Vec<String>) -> (r: Vec<(String, String, String)>)
    ensures
        r@.map_values(|t: (String, String, String)| target_view(t)) == uri_targets(
            allowed@.map_values(|s: String| s@),
        ),
{
    let ghost av = allowed@.map_values(|s: String| s@);
    let mut out: Vec<(String, String, String)> = Vec::new();
    let mut i: usize = 0;
    while i < allowed.len()
        invariant
            i <= allowed@.len(),
            av == allowed@.map_values(|s: String| s@),
            out@.map_values(|t: (String, String, String)| target_view(t)) == uri_targets(av.subrange(0, i as int)),
        decreases allowed.len() - i,
    {
        let ghost before = out@.map_values(|t: (String, String, String)| target_view(t));
        proof {
            let next = av.subrange(0, i + 1);
            assert(next.drop_last() =~= av.subrange(0, i as int));
            assert(next.last() == av[i as int]);
            assert(av[i as int] == allowed@[i as int]@);
        }
        match parse_at_uri(allowed[i].as_str()) {
            Some((d, _c, k)) => {
                let t = (allowed[i].clone(), String::from_str(d), String::from_str(k));
                out.push(t);
                assert(out@.map_values(|t: (String, String, String)| target_view(t)) =~= before.push(target_view(t)));
            },
            None => {},
        }
        i = i + 1;
    }
    assert(av.subrange(0, av.len() as int) =~= av);
    out
}

/// The targets to fetch from their owner's PDS: those whose DID is not ours.
pub open spec fn remote_of(targets: Seq<(Seq<char>, Seq<char>, Seq<char>)>, did: Option<Seq<char>>) -> Seq<(Seq<char>, Seq<char>, Seq<char>)>
    decreases targets.len(),
{
    if targets.len() == 0 {
        Seq::empty()
    } else {
        let rest = remote_of(targets.drop_last(), did);
        if did == Some(targets.last().1) {
            rest
        } else {
            rest.push(targets.last())
        }
    }
}

/// The allowed AT URIs on another PDS than ours, to be fetched there.
pub fn remote_targets(targets: &Vec<(String, String, String)>, our_did: Option<&str>) -> (r: Vec<(String, String, String)>)
    ensures
        r@.map_values(|t: (String, String, String)| target_view(t)) == remote_of(
            targets@.map_values(|t: (String, String, String)| target_view(t)),
            opt_str(our_did),
        ),
{
    let ghost tv = targets@.map_values(|t: (String, String, String)| target_view(t));
    let mut out: Vec<(String, String, String)> = Vec::new();
    let mut i: usize = 0;
    while i < targets.len()
        invariant
            i <= targets@.len(),
            tv == targets@.map_values(|t: (String, String, String)| target_view(t)),
            out@.map_values(|t: (String, String, String)| target_view(t)) == remote_of(
                tv.subrange(0, i as int),
                opt_str(our_did),
            ),
        decreases targets.len() - i,
    {
        let ghost before = out@.map_values(|t: (String, String, String)| target_view(t));
        proof {
            let next = tv.subrange(0, i + 1);
            assert(next.drop_last() =~= tv.subrange(0, i as int));
            assert(next.last() == tv[i as int]);
            assert(tv[i as int] == target_view(targets@[i as int]));
        }
        let ours = match our_did {
            Some(d) => str_eq(d, targets[i].1.as_str()),
            None => false,
        };
        if !ours {
            let t = (targets[i].0.clone(), targets[i].1.clone(), targets[i].2.clone());
            out.push(t);
            assert(out@.map_values(|t: (String, String, String)| target_view(t)) =~= before.push(target_view(t)));
        }
        i = i + 1;
    }
    assert(tv.subrange(0, tv.len() as int) =~= tv);
    out
}

/// The (name, AT URI) pairs of one local tool: one for each target with
/// its record key, whatever the target's DID.
pub open spec fn pairs_for(name: Seq<char>, key: Seq<char>, targets: Seq<(Seq<char>, Seq<char>, Seq<char>)>) -> Seq<(Seq<char>, Seq<char>)>
    decreases targets.len(),
{
    if targets.len() == 0 {
        Seq::empty()
    } else {
        let rest = pairs_for(name, key, targets.drop_last());
        if targets.last().2 == key {
            rest.push((name, targets.last().0))
        } else {
            rest
        }
    }
}

/// The (name, AT URI) pairs of the local tools, tool by tool.
pub open spec fn local_pairs(local: Seq<(String, CustomTool)>, targets: Seq<(Seq<char>, Seq<char>, Seq<char>)>) -> Seq<(Seq<char>, Seq<char>)>
    decreases local.len(),
{
    if local.len() == 0 {
        Seq::empty()
    } else {
        local_pairs(local.drop_last(), targets) + pairs_for(local.last().1.name@, local.last().0@, targets)
    }
}

/// A pair of strings by their views.
pub open spec fn pair_view(p: (String, String)) -> (Seq<char>, Seq<char>) {
    (p.0@, p.1@)
}

/// Resolve allowed AT URIs to the names of the local tools with their record keys.
pub fn local_name_pairs(local: &Vec<(String, CustomTool)>, targets: &Vec<(String, String, String)>) -> (r: Vec<(String, String)>)
    ensures
        r@.map_values(|p: (String, String)| pair_view(p)) == local_pairs(
            local@,
            targets@.map_values(|t: (String, String, String)| target_view(t)),
        ),
{
    let ghost tv = targets@.map_values(|t: (String, String, String)| target_view(t));
    let mut out: Vec<(String, String)> = Vec::new();
    let mut i: usize = 0;
    while i < local.len()
        invariant
            i <= local@.len(),
            tv == targets@.map_values(|t: (String, String, String)| target_view(t)),
            out@.map_values(|p: (String, String)| pair_view(p)) == local_pairs(local@.subrange(0, i as int), tv),
        decreases local.len() - i,
    {
        let ghost start = out@.map_values(|p: (String, String)| pair_view(p));
        let mut j: usize = 0;
        while j < targets.len()
            invariant
                i < local@.len(),
                j <= targets@.len(),
                tv == targets@.map_values(|t: (String, String, String)| target_view(t)),
                out@.map_values(|p: (String, String)| pair_view(p)) == start + pairs_for(
                    local@[i as int].1.name@,
                    local@[i as int].0@,
                    tv.subrange(0, j as int),
                ),
            decreases targets.len() - j,
        {
            let ghost before = out@.map_values(|p: (String, String)| pair_view(p));
            proof {
                let next = tv.subrange(0, j + 1);
                assert(next.drop_last() =~= tv.subrange(0, j as int));
                assert(next.last() == tv[j as int]);
                assert(tv[j as int] == target_view(targets@[j as int]));
            }
            if str_eq(targets[j].2.as_str(), local[i].0.as_str()) {
                let p = (local[i].1.name.clone(), targets[j].0.clone());
                out.push(p);
                assert(out@.map_values(|p: (String, String)| pair_view(p)) =~= before.push(pair_view(p)));
            }
            j = j + 1;
        }
        proof {
            assert(tv.subrange(0, tv.len() as int) =~= tv);
            let next = local@.subrange(0, i + 1);
            assert(next.drop_last() =~= local@.subrange(0, i as int));
            assert(next.last() == local@[i as int]);
        }
        i = i + 1;
    }
    assert(local@.subrange(0, local@.len() as int) =~= local@);
    out
}

// ---------------------------------------------------------------------------
// The map
// ---------------------------------------------------------------------------

/// Some pair among the first `n` gives `name` an AT URI other than `uri`.
pub open spec fn conflict_before(pairs: Seq<(Seq<char>, Seq<char>)>, n: int, name: Seq<char>, uri: Seq<char>) -> bool {
    exists|i: int| 0 <= i < n && pairs[i].0 == name && pairs[i].1 != uri
}

/// Some pair gives `name` an AT URI other than `uri`.
pub open spec fn other_uri(pairs: Seq<(Seq<char>, Seq<char>)>, name: Seq<char>, uri: Seq<char>) -> bool {
    conflict_before(pairs, pairs.len() as int, name, uri)
}

/// The name map: each name of the pairs, in the order of first occurrence,
/// with its AT URI, unless some pair gives it another one.
pub open spec fn name_map_spec(pairs: Seq<(Seq<char>, Seq<char>)>) -> Seq<(Seq<char>, Seq<char>)> {
    first_uris(pairs, pairs.len() as int).filter(|e: (Seq<char>, Seq<char>)| !other_uri(pairs, e.0, e.1))
}

/// Each name among the first `n` pairs, with the AT URI of its first pair.
pub open spec fn first_uris(pairs: Seq<(Seq<char>, Seq<char>)>, n: int) -> Seq<(Seq<char>, Seq<char>)>
    decreases n,
{
    if n <= 0 {
        Seq::empty()
    } else {
        let rest = first_uris(pairs, n - 1);
        if exists|k: int| 0 <= k < rest.len() && rest[k].0 == pairs[n - 1].0 {
            rest
        } else {
            rest.push(pairs[n - 1])
        }
    }
}

proof fn lemma_first_uris(pairs: Seq<(Seq<char>, Seq<char>)>, n: int)
    requires
        0 <= n <= pairs.len(),
    ensures
        forall|a: int, b: int|
            0 <= a < b < first_uris(pairs, n).len() ==> first_uris(pairs, n)[a].0 != first_uris(pairs, n)[b].0,
        forall|k: int|
            0 <= k < first_uris(pairs, n).len() ==> exists|i: int|
                0 <= i < n && pairs[i] == #[trigger] first_uris(pairs, n)[k],
        forall|i: int|
            #![trigger pairs[i]]
            0 <= i < n ==> exists|k: int|
                0 <= k < first_uris(pairs, n).len() && #[trigger] first_uris(pairs, n)[k].0 == pairs[i].0,
    decreases n,
{
    if n > 0 {
        lemma_first_uris(pairs, n - 1);
        let rest = first_uris(pairs, n - 1);
        let cur = first_uris(pairs, n);
        if !(exists|k: int| 0 <= k < rest.len() && rest[k].0 == pairs[n - 1].0) {
            assert(cur == rest.push(pairs[n - 1]));
            assert forall|a: int, b: int| 0 <= a < b < cur.len() implies cur[a].0 != cur[b].0 by {
                if b == rest.len() {
                    assert(cur[a] == rest[a]);
                }
            }
            assert forall|k: int| 0 <= k < cur.len() implies exists|i: int| 0 <= i < n && pairs[i] == #[trigger] cur[k] by {
                if k < rest.len() {
                    assert(cur[k] == rest[k]);
                } else {
                    assert(pairs[n - 1] == cur[k]);
                }
            }
            assert forall|i: int| #![trigger pairs[i]] 0 <= i < n implies exists|k: int| 0 <= k < cur.len() && #[trigger] cur[k].0 == pairs[i].0 by {
                if i < n - 1 {
                    let k = choose|k: int| 0 <= k < rest.len() && #[trigger] rest[k].0 == pairs[i].0;
                    assert(cur[k] == rest[k]);
                } else {
                    assert(cur[rest.len() as int].0 == pairs[i].0);
                }
            }
        } else {
            assert(cur == rest);
        }
    }
}

/// A name with its first AT URI and whether it conflicts, by views.
pub open spec fn entry_view(e: (String, String, bool)) -> (Seq<char>, Seq<char>, bool) {
    (e.0@, e.1@, e.2)
}

/// Each name among the first `n` pairs, with the AT URI of its first pair
/// and whether one of those pairs gives it another.
pub open spec fn entries_model(pairs: Seq<(Seq<char>, Seq<char>)>, n: int) -> Seq<(Seq<char>, Seq<char>, bool)> {
    first_uris(pairs, n).map_values(
        |e: (Seq<char>, Seq<char>)| (e.0, e.1, conflict_before(pairs, n, e.0, e.1)),
    )
}

/// A pair with a new name adds an entry for it, without conflict.
#[verifier::spinoff_prover]
proof fn lemma_entries_new(pairs: Seq<(Seq<char>, Seq<char>)>, n: int)
    requires
        0 <= n < pairs.len(),
        forall|k: int| 0 <= k < entries_model(pairs, n).len() ==> entries_model(pairs, n)[k].0 != pairs[n].0,
    ensures
        entries_model(pairs, n + 1) == entries_model(pairs, n).push((pairs[n].0, pairs[n].1, false)),
{
    lemma_first_uris(pairs, n);
    let fu = first_uris(pairs, n);
    let em = entries_model(pairs, n);
    let em1 = entries_model(pairs, n + 1);
    let x = pairs[n];
    assert(!(exists|k: int| 0 <= k < fu.len() && fu[k].0 == x.0)) by {
        if exists|k: int| 0 <= k < fu.len() && fu[k].0 == x.0 {
            let k = choose|k: int| 0 <= k < fu.len() && fu[k].0 == x.0;
            assert(em[k].0 == fu[k].0);
        }
    }
    assert(first_uris(pairs, n + 1) == fu.push(x));
    assert forall|k: int| 0 <= k < em1.len() implies em1[k] == em.push((x.0, x.1, false))[k] by {
        if k < fu.len() {
            assert(fu[k].0 != x.0) by {
                assert(em[k].0 == fu[k].0);
            }
            if conflict_before(pairs, n + 1, fu[k].0, fu[k].1) {
                let i = choose|i: int| 0 <= i < n + 1 && pairs[i].0 == fu[k].0 && pairs[i].1 != fu[k].1;
                assert(i < n);
            }
        } else {
            if conflict_before(pairs, n + 1, x.0, x.1) {
                let i = choose|i: int| 0 <= i < n + 1 && pairs[i].0 == x.0 && pairs[i].1 != x.1;
                assert(i != n);
                let k2 = choose|k2: int| 0 <= k2 < fu.len() && #[trigger] fu[k2].0 == pairs[i].0;
                assert(em[k2].0 == fu[k2].0);
            }
        }
    }
    assert(em1 =~= em.push((x.0, x.1, false)));
}

/// A pair with a known name keeps the entries, its entry conflicting once
/// the pair gives another AT URI.
#[verifier::spinoff_prover]
proof fn lemma_entries_known(pairs: Seq<(Seq<char>, Seq<char>)>, n: int, k: int)
    requires
        0 <= n < pairs.len(),
        0 <= k < entries_model(pairs, n).len(),
        entries_model(pairs, n)[k].0 == pairs[n].0,
    ensures
        entries_model(pairs, n + 1) == entries_model(pairs, n).update(
            k,
            (
                entries_model(pairs, n)[k].0,
                entries_model(pairs, n)[k].1,
                entries_model(pairs, n)[k].2 || pairs[n].1 != entries_model(pairs, n)[k].1,
            ),
        ),
{
    lemma_first_uris(pairs, n);
    let fu = first_uris(pairs, n);
    let em = entries_model(pairs, n);
    let em1 = entries_model(pairs, n + 1);
    let x = pairs[n];
    assert(fu[k].0 == x.0);
    assert(exists|q: int| 0 <= q < fu.len() && fu[q].0 == x.0);
    assert(first_uris(pairs, n + 1) == fu);
    let target = em.update(k, (em[k].0, em[k].1, em[k].2 || x.1 != em[k].1));
    assert forall|q: int| 0 <= q < em1.len() implies em1[q] == target[q] by {
        if q != k {
            assert(fu[q].0 != fu[k].0);
            if conflict_before(pairs, n + 1, fu[q].0, fu[q].1) {
                let i = choose|i: int| 0 <= i < n + 1 && pairs[i].0 == fu[q].0 && pairs[i].1 != fu[q].1;
                assert(i < n);
            }
        } else {
            if conflict_before(pairs, n + 1, fu[k].0, fu[k].1) && !conflict_before(pairs, n, fu[k].0, fu[k].1) {
                let i = choose|i: int| 0 <= i < n + 1 && pairs[i].0 == fu[k].0 && pairs[i].1 != fu[k].1;
                assert(i == n);
            }
            if x.1 != fu[k].1 {
                assert(pairs[n].0 == fu[k].0 && pairs[n].1 != fu[k].1);
            }
        }
    }
    assert(em1 =~= target);
}

/// The index of the entry for `name` among `entries`, if any.
fn entry_index(entries: &Vec<(String, String, bool)>, name: &str) -> (r: Option<usize>)
    ensures
        match r {
            Some(k) => k < entries@.len() && entries@[k as int].0@ == name@,
            None => forall|k: int| 0 <= k < entries@.len() ==> (#[trigger] entries@[k]).0@ != name@,
        },
{
    let mut k: usize = 0;
    while k < entries.len()
        invariant
            k <= entries@.len(),
            forall|q: int| 0 <= q < k ==> (#[trigger] entries@[q]).0@ != name@,
        decreases entries.len() - k,
    {
        if str_eq(entries[k].0.as_str(), name) {
            return Some(k);
        }
        k = k + 1;
    }
    None
}

/// The names of the pairs with their AT URIs, leaving out every name that
/// resolves to more than one AT URI.
pub fn tool_name_map(pairs: &Vec<(String, String)>) -> (r: Vec<(String, String)>)
    ensures
        r@.map_values(|p: (String, String)| pair_view(p)) == name_map_spec(
            pairs@.map_values(|p: (String, String)| pair_view(p)),
        ),
{
    let ghost pv = pairs@.map_values(|p: (String, String)| pair_view(p));
    // Each name with the AT URI of its first pair, and whether another pair
    // gave it a different one.
    let mut entries: Vec<(String, String, bool)> = Vec::new();
    let mut i: usize = 0;
    while i < pairs.len()
        invariant
            i <= pairs@.len(),
            pv == pairs@.map_values(|p: (String, String)| pair_view(p)),
            entries@.map_values(|e: (String, String, bool)| entry_view(e)) == entries_model(pv, i as int),
        decreases pairs.len() - i,
    {
        let ghost before = entries@.map_values(|e: (String, String, bool)| entry_view(e));
        proof {
            assert(pv[i as int] == pair_view(pairs@[i as int]));
        }
        match entry_index(&entries, pairs[i].0.as_str()) {
            Some(k) => {
                assert(before[k as int].0 == pv[i as int].0);
                proof {
                    lemma_entries_known(pv, i as int, k as int);
                }
                let differs = !str_eq(entries[k].1.as_str(), pairs[i].1.as_str());
                if differs {
                    let e = (entries[k].0.clone(), entries[k].1.clone(), true);
                    entries.set(k, e);
                    assert(entries@.map_values(|e: (String, String, bool)| entry_view(e)) =~= before.update(
                        k as int,
                        entry_view(e),
                    ));
                } else {
                    assert(before.update(k as int, before[k as int]) =~= before);
                }
            },
            None => {
                assert forall|q: int| 0 <= q < before.len() implies before[q].0 != pv[i as int].0 by {
                    assert(before[q] == entry_view(entries@[q]));
                }
                proof {
                    lemma_entries_new(pv, i as int);
                }
                let e = (pairs[i].0.clone(), pairs[i].1.clone(), false);
                entries.push(e);
                assert(entries@.map_values(|e: (String, String, bool)| entry_view(e)) =~= before.push(entry_view(e)));
            },
        }
        i = i + 1;
    }
    // Keep the names no other AT URI was given.
    let ghost fu = first_uris(pv, pv.len() as int);
    let ghost keep = |e: (Seq<char>, Seq<char>)| !other_uri(pv, e.0, e.1);
    assert(entries@.map_values(|e: (String, String, bool)| entry_view(e)).len() == entries@.len());
    assert(pv.len() == pairs@.len());
    let mut out: Vec<(String, String)> = Vec::new();
    let mut k: usize = 0;
    while k < entries.len()
        invariant
            k <= entries@.len(),
            pv == pairs@.map_values(|p: (String, String)| pair_view(p)),
            i == pairs@.len(),
            pv.len() == pairs@.len(),
            fu == first_uris(pv, pv.len() as int),
            fu.len() == entries@.len(),
            keep == (|e: (Seq<char>, Seq<char>)| !other_uri(pv, e.0, e.1)),
            entries@.map_values(|e: (String, String, bool)| entry_view(e)) == entries_model(pv, pv.len() as int),
            out@.map_values(|p: (String, String)| pair_view(p)) == fu.subrange(0, k as int).filter(keep),
        decreases entries.len() - k,
    {
        let ghost before = out@.map_values(|p: (String, String)| pair_view(p));
        proof {
            let next = fu.subrange(0, k + 1);
            assert(next.drop_last() =~= fu.subrange(0, k as int));
            assert(next.last() == fu[k as int]);
            reveal(Seq::filter);
            assert(next.filter(keep) == if keep(fu[k as int]) {
                fu.subrange(0, k as int).filter(keep).push(fu[k as int])
            } else {
                fu.subrange(0, k as int).filter(keep)
            });
        }
        proof {
            assert(entry_view(entries@[k as int]) == entries_model(pv, pv.len() as int)[k as int]);
            assert(keep(fu[k as int]) == !other_uri(pv, fu[k as int].0, fu[k as int].1));
        }
        if !entries[k].2 {
            let p = (entries[k].0.clone(), entries[k].1.clone());
            out.push(p);
            proof {
                assert(pair_view(p) == fu[k as int]);
                assert(keep(fu[k as int]));
                assert(out@.map_values(|p: (String, String)| pair_view(p)) =~= before.push(pair_view(p)));
            }
        } else {
            proof {
                assert(!keep(fu[k as int]));
            }
        }
        k = k + 1;
    }
    assert(fu.subrange(0, fu.len() as int) =~= fu);
    out
}

/// The name map holds exactly the names that resolve to a single AT URI,
/// each with that AT URI: an ambiguous name is never mapped.
pub proof fn law_name_map_unambiguous(pairs: Seq<(Seq<char>, Seq<char>)>)
    ensures
        forall|k: int|
            0 <= k < name_map_spec(pairs).len() ==> pairs.contains(#[trigger] name_map_spec(pairs)[k])
                && !other_uri(pairs, name_map_spec(pairs)[k].0, name_map_spec(pairs)[k].1),
        forall|i: int|
            0 <= i < pairs.len() && !other_uri(pairs, pairs[i].0, pairs[i].1) ==> name_map_spec(pairs).contains(
                #[trigger] pairs[i],
            ),
{
    let n = pairs.len() as int;
    let fu = first_uris(pairs, n);
    let keep = |e: (Seq<char>, Seq<char>)| !other_uri(pairs, e.0, e.1);
    let m = name_map_spec(pairs);
    assert(m == fu.filter(keep));
    lemma_first_uris(pairs, n);
    assert forall|k: int| 0 <= k < m.len() implies pairs.contains(#[trigger] m[k]) && !other_uri(pairs, m[k].0, m[k].1) by {
        assert(m.contains(m[k]));
        fu.lemma_filter_contains_rev(keep, m[k]);
        fu.lemma_filter_pred(keep, k);
        assert(fu.contains(m[k]));
        let q = choose|q: int| 0 <= q < fu.len() && fu[q] == m[k];
        let i = choose|i: int| 0 <= i < n && pairs[i] == #[trigger] fu[q];
        assert(pairs[i] == m[k]);
        assert(keep(m[k]));
    }
    assert forall|i: int| 0 <= i < pairs.len() && !other_uri(pairs, pairs[i].0, pairs[i].1) implies m.contains(
        #[trigger] pairs[i],
    ) by {
        let k = choose|k: int| 0 <= k < fu.len() && #[trigger] fu[k].0 == pairs[i].0;
        let j = choose|j: int| 0 <= j < n && pairs[j] == #[trigger] fu[k];
        if fu[k].1 != pairs[i].1 {
            assert(pairs[j].0 == pairs[i].0 && pairs[j].1 != pairs[i].1);
        }
        assert(fu[k] == pairs[i]);
        assert(keep(fu[k]));
        fu.lemma_filter_contains(keep, k);
    }
}

} // verus!
