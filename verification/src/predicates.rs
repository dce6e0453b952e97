//! The catalogue of predicates that `list_predicates` shows: the predicates
//! used by stored facts, the metadata predicates every fact has, and the
//! signatures of the derived ones, each filtered by a search text.

use vstd::prelude::*;
use crate::text::{join_with, join_strings, str_eq, contains_ignoring_case, contains_ignore_case};
use crate::strset::{string_views, position_in};

verus! {

/// A name passes the search when there is none, or when it contains the
/// search text, ignoring case.
pub open spec fn search_ok(name: Seq<char>, search: Option<Seq<char>>) -> bool {
    match search {
        Some(s) => contains_ignoring_case(name, s),
        None => true,
    }
}

fn passes_search(name: &str, search: Option<&str>) -> (r: bool)
    ensures
        r == search_ok(
            name@,
            match search {
                Some(s) => Some(s@),
                None => None,
            },
        ),
{
    match search {
        Some(s) => contains_ignore_case(name, s),
        None => true,
    }
}

/// The view of an optional search text.
pub open spec fn opt_view(s: Option<&str>) -> Option<Seq<char>> {
    match s {
        Some(t) => Some(t@),
        None => None,
    }
}

// ---------------------------------------------------------------------------
// Predicates of stored facts
// ---------------------------------------------------------------------------

/// The predicates of the `_fact(R, P, C)` rows (their second cell), each
/// once, in the order of first occurrence, without the derived ones and
/// those that fail the search.
pub open spec fn user_predicates_spec(
    rows: Seq<Seq<Seq<char>>>,
    derived: Seq<Seq<char>>,
    search: Option<Seq<char>>,
) -> Seq<Seq<char>>
    decreases rows.len(),
{
    if rows.len() == 0 {
        Seq::empty()
    } else {
        let rest = user_predicates_spec(rows.drop_last(), derived, search);
        let row = rows.last();
        if row.len() >= 2 && !derived.contains(row[1]) && search_ok(row[1], search) && !rest.contains(
            row[1],
        ) {
            rest.push(row[1])
        } else {
            rest
        }
    }
}

/// The views of the rows.
pub open spec fn rows_view(rows: Seq<Vec<String>>) -> Seq<Seq<Seq<char>>> {
    rows.map_values(|r: Vec<String>| string_views(r@))
}

/// The user predicates among the rows of `_fact(R, P, C)`: each predicate
/// once, in the order of first occurrence, leaving out the derived ones
/// (`derived`) and those that fail the search.
pub fn user_predicates(rows: &Vec<Vec<String>>, derived: &Vec<String>, search: Option<&str>) -> (r: Vec<String>)
    ensures
        string_views(r@) == user_predicates_spec(rows_view(rows@), string_views(derived@), opt_view(search)),
        forall|a: int, b: int| 0 <= a < b < r@.len() ==> r@[a]@ != r@[b]@,
{
    let ghost rv = rows_view(rows@);
    let ghost dv = string_views(derived@);
    let mut out: Vec<String> = Vec::new();
    let mut i: usize = 0;
    assert(rv.take(0) =~= Seq::<Seq<Seq<char>>>::empty());
    while i < rows.len()
        invariant
            i <= rows@.len(),
            rv == rows_view(rows@),
            dv == string_views(derived@),
            string_views(out@) == user_predicates_spec(rv.take(i as int), dv, opt_view(search)),
            forall|a: int, b: int| 0 <= a < b < out@.len() ==> out@[a]@ != out@[b]@,
        decreases rows@.len() - i,
    {
        let ghost before = string_views(out@);
        assert(rv.take(i + 1).drop_last() =~= rv.take(i as int));
        assert(rv.take(i + 1).last() == string_views(rows@[i as int]@));
        let row = &rows[i];
        if row.len() >= 2 {
            let p = row[1].as_str();
            assert(string_views(row@)[1] == p@);
            let is_derived = match position_in(derived, p) {
                Some(j) => {
                    assert(dv[j as int] == p@);
                    true
                },
                None => false,
            };
            if !is_derived && passes_search(p, search) {
                match position_in(&out, p) {
                    Some(j) => {
                        assert(before[j as int] == p@);
                    },
                    None => {
                        let ghost old_out = out@;
                        out.push(String::from_str(p));
                        proof {
                            assert(string_views(out@) =~= before.push(p@));
                            assert forall|a: int, b: int| 0 <= a < b < out@.len() implies out@[a]@ != out@[b]@ by {
                                if b == old_out.len() {
                                    assert(out@[a] == old_out[a]);
                                    assert(before[a] == old_out[a]@);
                                }
                            }
                        }
                    },
                }
            }
        }
        i = i + 1;
    }
    assert(rv.take(i as int) =~= rv);
    out
}

/// What a listing suggests for finding a user predicate's arity.
pub fn user_predicate_tip(pred: &str) -> (r: String)
    ensures
        r@ == "To check arity, query: "@ + pred@ + "(A, B, ...) or check "@ + pred@ + ".facts TSV file"@,
{
    let mut t = String::from_str("To check arity, query: ");
    t.append(pred);
    t.append("(A, B, ...) or check ");
    t.append(pred);
    t.append(".facts TSV file");
    t
}

// ---------------------------------------------------------------------------
// Metadata predicates
// ---------------------------------------------------------------------------

/// The metadata predicates, with their arities and the description of
/// their arguments.
pub open spec fn metadata_table() -> Seq<(Seq<char>, nat, Seq<char>)> {
    seq![
        ("_fact"@, 3nat, "rkey, predicate, cid"@),
        ("_confidence"@, 2nat, "rkey, value"@),
        ("_source"@, 2nat, "rkey, source_cid"@),
        ("_supersedes"@, 2nat, "new_rkey, old_rkey"@),
        ("_created_at"@, 2nat, "rkey, timestamp"@),
        ("_expires_at"@, 2nat, "rkey, timestamp"@),
        ("_now"@, 1nat, "timestamp (auto-injected at query time)"@),
        ("_expired"@, 1nat, "rkey (derived: facts past expiration)"@),
    ]
}

/// The view of a metadata entry.
pub open spec fn metadata_view(e: (&str, usize, &str)) -> (Seq<char>, nat, Seq<char>) {
    (e.0@, e.1 as nat, e.2@)
}

fn metadata_entries() -> (r: Vec<(&'static str, usize, &'static str)>)
    ensures
        r@.map_values(|e: (&str, usize, &str)| metadata_view(e)) == metadata_table(),
{
    let r: Vec<(&'static str, usize, &'static str)> = vec![
        ("_fact", 3, "rkey, predicate, cid"),
        ("_confidence", 2, "rkey, value"),
        ("_source", 2, "rkey, source_cid"),
        ("_supersedes", 2, "new_rkey, old_rkey"),
        ("_created_at", 2, "rkey, timestamp"),
        ("_expires_at", 2, "rkey, timestamp"),
        ("_now", 1, "timestamp (auto-injected at query time)"),
        ("_expired", 1, "rkey (derived: facts past expiration)"),
    ];
    assert(r@.map_values(|e: (&str, usize, &str)| metadata_view(e)) =~= metadata_table());
    r
}

/// `name(args)`.
pub open spec fn signature(name: Seq<char>, args: Seq<char>) -> Seq<char> {
    name + "("@ + args + ")"@
}

/// The metadata predicates that pass the search, in table order, as name,
/// arity and signature.
pub open spec fn metadata_listing(search: Option<Seq<char>>) -> Seq<(Seq<char>, nat, Seq<char>)> {
    metadata_table().filter(|e: (Seq<char>, nat, Seq<char>)| search_ok(e.0, search)).map_values(
        |e: (Seq<char>, nat, Seq<char>)| (e.0, e.1, signature(e.0, e.2)),
    )
}

/// The metadata predicates that pass the search, with their signatures.
pub fn metadata_predicates(search: Option<&str>) -> (r: Vec<(&'static str, usize, String)>)
    ensures
        r@.map_values(|e: (&str, usize, String)| (e.0@, e.1 as nat, e.2@)) == metadata_listing(
            opt_view(search),
        ),
{
    let table = metadata_entries();
    let ghost tv = table@.map_values(|e: (&str, usize, &str)| metadata_view(e));
    let ghost keep = |e: (Seq<char>, nat, Seq<char>)| search_ok(e.0, opt_view(search));
    let ghost shape = |e: (Seq<char>, nat, Seq<char>)| (e.0, e.1, signature(e.0, e.2));
    let mut out: Vec<(&'static str, usize, String)> = Vec::new();
    let mut i: usize = 0;
    proof {
        reveal(Seq::filter);
    }
    assert(tv.take(0).filter(keep) =~= Seq::<(Seq<char>, nat, Seq<char>)>::empty());
    while i < table.len()
        invariant
            i <= table@.len(),
            tv == table@.map_values(|e: (&str, usize, &str)| metadata_view(e)),
            keep == (|e: (Seq<char>, nat, Seq<char>)| search_ok(e.0, opt_view(search))),
            shape == (|e: (Seq<char>, nat, Seq<char>)| (e.0, e.1, signature(e.0, e.2))),
            out@.map_values(|e: (&str, usize, String)| (e.0@, e.1 as nat, e.2@)) == tv.take(i as int).filter(
                keep,
            ).map_values(shape),
        decreases table@.len() - i,
    {
        let ghost before = out@.map_values(|e: (&str, usize, String)| (e.0@, e.1 as nat, e.2@));
        let (name, arity, args) = table[i];
        let pass = passes_search(name, search);
        proof {
            let t1 = tv.take(i + 1);
            let last = (name@, arity as nat, args@);
            assert(t1.drop_last() =~= tv.take(i as int));
            assert(t1.last() == last);
            assert(keep(last) == pass);
            reveal(Seq::filter);
            assert(t1.filter(keep) == if pass {
                tv.take(i as int).filter(keep).push(last)
            } else {
                tv.take(i as int).filter(keep)
            });
        }
        if pass {
            let mut sig = String::from_str(name);
            sig.append("(");
            sig.append(args);
            sig.append(")");
            out.push((name, arity, sig));
            proof {
                assert(out@.map_values(|e: (&str, usize, String)| (e.0@, e.1 as nat, e.2@)) =~= before.push(
                    (name@, arity as nat, signature(name@, args@)),
                ));
                assert(tv.take(i + 1).filter(keep).map_values(shape) =~= tv.take(i as int).filter(keep).map_values(
                    shape,
                ).push(shape((name@, arity as nat, args@))));
            }
        }
        i = i + 1;
    }
    assert(tv.take(i as int) =~= tv);
    out
}

// ---------------------------------------------------------------------------
// Derived predicates
// ---------------------------------------------------------------------------

/// The signatures of a derived predicate with the given argument names: the
/// current form and the `_all_` form that includes superseded and expired
/// facts.
pub fn derived_signatures(name: &str, args: &Vec<String>) -> (r: (String, String))
    ensures
        r.0@ == signature(name@, join_with(string_views(args@), ", "@)),
        r.1@ == signature("_all_"@ + name@, join_with(string_views(args@), ", "@)),
{
    let joined = join_strings(args, ", ");
    let mut current = String::from_str(name);
    current.append("(");
    current.append(joined.as_str());
    current.append(")");
    let mut all = String::from_str("_all_");
    all.append(name);
    all.append("(");
    all.append(joined.as_str());
    all.append(")");
    (current, all)
}

/// The note shown with a derived predicate: only `is_followed_by`, which
/// comes from an outside API, has no record key as its last argument.
pub fn derived_note(name: &str) -> (r: &'static str)
    ensures
        r@ == if name@ == "is_followed_by"@ {
            "No rkey (from external API)"@
        } else {
            "Last arg is rkey"@
        },
{
    if str_eq(name, "is_followed_by") {
        "No rkey (from external API)"
    } else {
        "Last arg is rkey"
    }
}

// ---------------------------------------------------------------------------
// Validation errors
// ---------------------------------------------------------------------------

/// Cell `k` of a row, or the empty text where the row is shorter.
pub open spec fn cell(row: Seq<Seq<char>>, k: int) -> Seq<char> {
    if k < row.len() {
        row[k]
    } else {
        Seq::empty()
    }
}

fn cell_of(row: &Vec<String>, k: usize) -> (r: String)
    ensures
        r@ == cell(string_views(row@), k as int),
{
    if k < row.len() {
        row[k].clone()
    } else {
        String::new()
    }
}

/// The rows of `_validation_error(R, P, E)` as record key, predicate and
/// error, each empty where the row lacks it.
pub fn validation_errors(rows: &Vec<Vec<String>>) -> (r: Vec<(String, String, String)>)
    ensures
        r@.len() == rows@.len(),
        forall|i: int|
            0 <= i < rows@.len() ==> {
                let row = string_views(rows@[i]@);
                &&& (#[trigger] r@[i]).0@ == cell(row, 0)
                &&& r@[i].1@ == cell(row, 1)
                &&& r@[i].2@ == cell(row, 2)
            },
{
    let mut out: Vec<(String, String, String)> = Vec::new();
    let mut i: usize = 0;
    while i < rows.len()
        invariant
            i <= rows@.len(),
            out@.len() == i,
            forall|j: int|
                0 <= j < i ==> {
                    let row = string_views(rows@[j]@);
                    &&& (#[trigger] out@[j]).0@ == cell(row, 0)
                    &&& out@[j].1@ == cell(row, 1)
                    &&& out@[j].2@ == cell(row, 2)
                },
        decreases rows@.len() - i,
    {
        let row = &rows[i];
        let e = (cell_of(row, 0), cell_of(row, 1), cell_of(row, 2));
        let ghost before = out@;
        out.push(e);
        assert forall|j: int| 0 <= j < i + 1 implies {
            let row = string_views(rows@[j]@);
            &&& (#[trigger] out@[j]).0@ == cell(row, 0)
            &&& out@[j].1@ == cell(row, 1)
            &&& out@[j].2@ == cell(row, 2)
        } by {
            if j < i {
                assert(out@[j] == before[j]);
            }
        }
        i = i + 1;
    }
    out
}

} // verus!
