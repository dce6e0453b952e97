//! Datalog query handling for `query_facts`: parsing a query into its
//! predicate and arguments, parsing predicate declarations, generating the
//! wrapper rule that collects the results, and the input limits.

use vstd::prelude::*;
use crate::text::{
    first_from, last_before, find_char_from, rfind_char, trim, trim_bounds, str_chars, sub_chars,
    join_with, decimal, decimal_string, join_strings, contains_seq, has_prefix,
    utf8_len, total_utf8_len,
};
use crate::json::{JsonValue, lookup_member, member, member_text, member_str, string_items};
use crate::custom_tools::collect_strings;
use crate::strset::{
    StrSet, string_views, keys_distinct, entries_map, lemma_entries_map_at, lemma_map_push,
    lemma_entries_map_push,
};

verus! {

/// Maximum query length to prevent abuse.
pub const MAX_QUERY_LENGTH: usize = 4096;

/// Patterns that could indicate shell injection attempts.  `>` and `<` are
/// allowed (datalog comparisons), and so are line breaks (multi-line rules).
pub open spec fn forbidden_patterns_spec() -> Seq<Seq<char>> {
    seq!["$("@, "`"@, "&&"@, "||"@, ";"@, "|"@]
}

/// The patterns that a query or extra input may not contain.
pub fn forbidden_patterns() -> (r: Vec<&'static str>)
    ensures
        r@.map_values(|s: &str| s@) == forbidden_patterns_spec(),
{
    let r: Vec<&'static str> = vec!["$(", "`", "&&", "||", ";", "|"];
    assert(r@.map_values(|s: &str| s@) =~= forbidden_patterns_spec());
    r
}

/// Whether a character is uppercase, as `char::is_uppercase` decides
/// (the Unicode Uppercase property).
pub uninterp spec fn char_is_uppercase(c: char) -> bool;

/// Calls `char::is_uppercase`; the contract names its result.
#[verifier::external_body]
fn is_uppercase(c: char) -> (r: bool)
    ensures
        r == char_is_uppercase(c),
{
    c.is_uppercase()
}

// ---------------------------------------------------------------------------
// Query arguments
// ---------------------------------------------------------------------------

/// The content of a query argument.
pub enum QueryArgModel {
    Variable(Seq<char>),
    Constant(Seq<char>),
}

/// A query argument: either a variable or a constant.
#[derive(Debug, Clone, PartialEq)]
pub enum QueryArg {
    Variable(String),
    Constant(String),
}

impl View for QueryArg {
    type V = QueryArgModel;

    open spec fn view(&self) -> QueryArgModel {
        match self {
            QueryArg::Variable(v) => QueryArgModel::Variable(v@),
            QueryArg::Constant(c) => QueryArgModel::Constant(c@),
        }
    }
}

/// A quoted string is a constant; a name starting with an uppercase
/// letter or `_` is a variable (datalog convention); anything else, such
/// as a number, is a constant.
pub open spec fn single_arg_model(arg: Seq<char>) -> QueryArgModel {
    let t = trim(arg);
    if t.len() >= 1 && t[0] == '"' && t[t.len() - 1] == '"' {
        QueryArgModel::Constant(t)
    } else if t.len() >= 1 && (char_is_uppercase(t[0]) || t[0] == '_') {
        QueryArgModel::Variable(t)
    } else {
        QueryArgModel::Constant(t)
    }
}

/// Parse a single argument to determine if it's a variable or constant.
pub fn parse_single_arg(arg: &str) -> (r: QueryArg)
    ensures
        r@ == single_arg_model(arg@),
{
    let v = str_chars(arg);
    let (a, b) = trim_bounds(&v);
    let t = arg.substring_char(a, b);
    let ghost tv = trim(arg@);
    assert(t@ == tv);
    if b > a && v[a] == '"' && v[b - 1] == '"' {
        assert(tv[0] == v@[a as int] && tv[tv.len() - 1] == v@[b - 1]);
        return QueryArg::Constant(String::from_str(t));
    }
    if b > a && (is_uppercase(v[a]) || v[a] == '_') {
        assert(tv[0] == v@[a as int]);
        return QueryArg::Variable(String::from_str(t));
    }
    proof {
        if tv.len() >= 1 {
            assert(tv[0] == v@[a as int] && tv[tv.len() - 1] == v@[b - 1]);
        }
    }
    QueryArg::Constant(String::from_str(t))
}

/// The state of the argument scanner after some characters.
pub struct ArgScan {
    pub args: Seq<QueryArgModel>,
    pub start: int,
    pub in_string: bool,
    pub depth: int,
}

/// One step of the scanner over `a[j]`: a `"` at depth 0 opens or closes a
/// string, parentheses change the depth, and a comma outside strings and
/// parentheses ends an argument (kept when not blank).
pub open spec fn scan_step(st: ArgScan, a: Seq<char>, j: int) -> ArgScan {
    let c = a[j];
    if c == '"' && st.depth == 0 {
        ArgScan { args: st.args, start: st.start, in_string: !st.in_string, depth: st.depth }
    } else if c == '(' {
        ArgScan { args: st.args, start: st.start, in_string: st.in_string, depth: st.depth + 1 }
    } else if c == ')' {
        ArgScan { args: st.args, start: st.start, in_string: st.in_string, depth: st.depth - 1 }
    } else if c == ',' && !st.in_string && st.depth == 0 {
        let arg = trim(a.subrange(st.start, j));
        ArgScan {
            args: if arg.len() > 0 {
                st.args.push(single_arg_model(arg))
            } else {
                st.args
            },
            start: j + 1,
            in_string: st.in_string,
            depth: st.depth,
        }
    } else {
        st
    }
}

/// The scanner state after the first `i` characters of `a`.
pub open spec fn scan(a: Seq<char>, i: nat) -> ArgScan
    decreases i,
{
    if i == 0 {
        ArgScan { args: Seq::empty(), start: 0, in_string: false, depth: 0 }
    } else {
        scan_step(scan(a, (i - 1) as nat), a, i - 1)
    }
}

/// The arguments of an argument list: the scanned ones and the last one.
pub open spec fn scan_args(a: Seq<char>) -> Seq<QueryArgModel> {
    let st = scan(a, a.len());
    let last = trim(a.subrange(st.start, a.len() as int));
    if last.len() > 0 {
        st.args.push(single_arg_model(last))
    } else {
        st.args
    }
}

/// A query's arguments lie between its first `(` and its last `)`; they
/// can be taken only when that `)` does not come before the `(`.
pub open spec fn parens_ordered(q: Seq<char>) -> bool {
    let p = first_from(q, '(', 0);
    let c = last_before(q, ')', q.len() as int);
    p < q.len() && c >= 0 ==> c > p
}

/// A query parsed into its predicate name and arguments: the name is the
/// text before the first `(`, the arguments are split at top-level commas
/// between it and the last `)`.  `None` without both parentheses.
pub open spec fn parse_query_spec(q: Seq<char>) -> Option<(Seq<char>, Seq<QueryArgModel>)> {
    let p = first_from(q, '(', 0);
    let c = last_before(q, ')', q.len() as int);
    if p >= q.len() || c < 0 {
        None
    } else {
        let name = trim(q.subrange(0, p));
        let a = q.subrange(p + 1, c);
        if trim(a).len() == 0 {
            Some((name, Seq::empty()))
        } else {
            Some((name, scan_args(a)))
        }
    }
}

/// The variables among the arguments, in order.
pub open spec fn arg_variables(args: Seq<QueryArgModel>) -> Seq<Seq<char>>
    decreases args.len(),
{
    if args.len() == 0 {
        Seq::empty()
    } else {
        let prev = arg_variables(args.drop_last());
        match args.last() {
            QueryArgModel::Variable(v) => prev.push(v),
            QueryArgModel::Constant(_) => prev,
        }
    }
}

/// Parsed query with predicate name and arguments.
#[derive(Debug)]
pub struct ParsedQuery {
    pub name: String,
    pub args: Vec<QueryArg>,
}

impl View for ParsedQuery {
    type V = (Seq<char>, Seq<QueryArgModel>);

    open spec fn view(&self) -> (Seq<char>, Seq<QueryArgModel>) {
        (self.name@, self.args@.map_values(|a: QueryArg| a@))
    }
}

impl ParsedQuery {
    /// The variables of the query, in order (for the result predicate).
    pub fn variables(&self) -> (r: Vec<&str>)
        ensures
            r@.map_values(|s: &str| s@) == arg_variables(self@.1),
    {
        let ghost av = self@.1;
        let mut out: Vec<&str> = Vec::new();
        let mut i: usize = 0;
        while i < self.args.len()
            invariant
                i <= self.args@.len(),
                av == self.args@.map_values(|a: QueryArg| a@),
                out@.map_values(|s: &str| s@) == arg_variables(av.take(i as int)),
            decreases self.args@.len() - i,
        {
            assert(av.take(i + 1).drop_last() =~= av.take(i as int));
            assert(av.take(i + 1).last() == self.args@[i as int]@);
            match &self.args[i] {
                QueryArg::Variable(v) => {
                    let ghost before = out@;
                    out.push(v.as_str());
                    assert(out@.map_values(|s: &str| s@) =~= before.map_values(|s: &str| s@).push(
                        v@,
                    ));
                },
                QueryArg::Constant(_) => {},
            }
            i = i + 1;
        }
        assert(av.take(i as int) =~= av);
        out
    }

    /// The arity (number of arguments).
    pub fn arity(&self) -> (r: usize)
        ensures
            r == self@.1.len(),
    {
        self.args.len()
    }
}

/// Parse a query to extract predicate name and typed arguments, e.g.
/// `follows(X, Y)` has name `follows` and the variables `X` and `Y`.
pub fn parse_query(query: &str) -> (r: Option<ParsedQuery>)
    requires
        parens_ordered(query@),
        query@.len() < 0x8000_0000_0000_0000,
    ensures
        match r {
            Some(p) => parse_query_spec(query@) == Some(p@),
            None => parse_query_spec(query@) is None,
        },
{
    let q = str_chars(query);
    let p = find_char_from(&q, '(', 0);
    if p >= q.len() {
        return None;
    }
    let c = match rfind_char(&q, ')') {
        Some(c) => c,
        None => {
            return None;
        },
    };
    let head = sub_chars(&q, 0, p);
    let (na, nb) = trim_bounds(&head);
    let name = String::from_str(query.substring_char(na, nb));
    assert(name@ == trim(q@.subrange(0, p as int))) by {
        assert(head@.subrange(na as int, nb as int) =~= q@.subrange(na as int, nb as int));
    }
    let a = sub_chars(&q, p + 1, c);
    let (ta, tb) = trim_bounds(&a);
    if ta == tb {
        assert(trim(a@).len() == 0);
        let r = ParsedQuery { name, args: Vec::new() };
        assert(r@.1 =~= Seq::<QueryArgModel>::empty());
        return Some(r);
    }
    let off = p + 1;
    let mut args: Vec<QueryArg> = Vec::new();
    let mut start: usize = 0;
    let mut in_string = false;
    let mut depth: i64 = 0;
    let mut i: usize = 0;
    assert(args@.map_values(|x: QueryArg| x@) =~= Seq::<QueryArgModel>::empty());
    while i < a.len()
        invariant
            off <= c <= q@.len(),
            a@ == q@.subrange(off as int, c as int),
            q@ == query@,
            off + a@.len() <= q@.len(),
            q@.len() < 0x8000_0000_0000_0000,
            i <= a.len(),
            start <= i,
            -(i as int) <= depth <= i,
            (ArgScan {
                args: args@.map_values(|x: QueryArg| x@),
                start: start as int,
                in_string,
                depth: depth as int,
            }) == scan(a@, i as nat),
        decreases a.len() - i,
    {
        let ch = a[i];
        if ch == '"' && depth == 0 {
            in_string = !in_string;
        } else if ch == '(' {
            depth = depth + 1;
        } else if ch == ')' {
            depth = depth - 1;
        } else if ch == ',' && !in_string && depth == 0 {
            let seg = sub_chars(&a, start, i);
            let (sa, sb) = trim_bounds(&seg);
            if sa < sb {
                assert(off + start + sb <= q@.len());
                let piece = query.substring_char(off + start + sa, off + start + sb);
                assert(piece@ == trim(a@.subrange(start as int, i as int))) by {
                    assert(seg@.subrange(sa as int, sb as int) =~= q@.subrange(
                        off + start + sa,
                        off + start + sb,
                    ));
                }
                let ghost before = args@;
                let parsed = parse_single_arg(piece);
                args.push(parsed);
                assert(args@.map_values(|x: QueryArg| x@) =~= before.map_values(|x: QueryArg| x@).push(
                    single_arg_model(piece@),
                ));
            }
            start = i + 1;
        }
        i = i + 1;
    }
    let seg = sub_chars(&a, start, a.len());
    let (sa, sb) = trim_bounds(&seg);
    if sa < sb {
        assert(off + start + sb <= q@.len());
        let piece = query.substring_char(off + start + sa, off + start + sb);
        assert(piece@ == trim(a@.subrange(start as int, a@.len() as int))) by {
            assert(seg@.subrange(sa as int, sb as int) =~= q@.subrange(
                off + start + sa,
                off + start + sb,
            ));
        }
        let ghost before = args@;
        let parsed = parse_single_arg(piece);
        args.push(parsed);
        assert(args@.map_values(|x: QueryArg| x@) =~= before.map_values(|x: QueryArg| x@).push(
            single_arg_model(piece@),
        ));
    }
    Some(ParsedQuery { name, args })
}

// ---------------------------------------------------------------------------
// Declarations
// ---------------------------------------------------------------------------

/// The pieces found so far when splitting `a` at commas, and where the
/// current piece starts.
pub open spec fn split_scan(a: Seq<char>, i: nat) -> (Seq<Seq<char>>, int)
    decreases i,
{
    if i == 0 {
        (Seq::empty(), 0)
    } else {
        let (ps, st) = split_scan(a, (i - 1) as nat);
        if a[i - 1] == ',' {
            (ps.push(a.subrange(st, i - 1)), i as int)
        } else {
            (ps, st)
        }
    }
}

/// `a` split at every comma, as `str::split(',')` gives it.
pub open spec fn split_commas(a: Seq<char>) -> Seq<Seq<char>> {
    let (ps, st) = split_scan(a, a.len());
    ps.push(a.subrange(st, a.len() as int))
}

/// The type of one declared argument: the text after its first colon, or
/// `symbol` when it has none.
pub open spec fn declared_type(piece: Seq<char>) -> Seq<char> {
    let a = trim(piece);
    let k = first_from(a, ':', 0);
    if k < a.len() {
        trim(a.subrange(k + 1, a.len() as int))
    } else {
        "symbol"@
    }
}

/// The declaration without its `.decl ` keyword (after trimming), or the
/// whole text when it has none.
pub open spec fn decl_body(decl: Seq<char>) -> Seq<char> {
    let t = trim(decl);
    if has_prefix(t, ".decl "@) {
        t.subrange(6, t.len() as int)
    } else {
        decl
    }
}

/// A declaration's argument types lie between its first `(` and its last
/// `)`, once its name is found non-empty; they can be taken only when that
/// `)` does not come first.
pub open spec fn decl_parens_ordered(decl: Seq<char>) -> bool {
    let d = decl_body(decl);
    let p = first_from(d, '(', 0);
    let c = last_before(d, ')', d.len() as int);
    p < d.len() && c >= 0 && trim(d.subrange(0, p)).len() > 0 ==> c > p
}

/// A declaration such as `tool_calls(n: number)` parsed into its name and
/// argument types; `None` without parentheses or without a name.
pub open spec fn decl_types_spec(decl: Seq<char>) -> Option<(Seq<char>, Seq<Seq<char>>)> {
    let d = decl_body(decl);
    let p = first_from(d, '(', 0);
    let c = last_before(d, ')', d.len() as int);
    if p >= d.len() || c < 0 {
        None
    } else {
        let name = trim(d.subrange(0, p));
        if name.len() == 0 {
            None
        } else {
            let a = d.subrange(p + 1, c);
            if trim(a).len() == 0 {
                Some((name, Seq::empty()))
            } else {
                Some((name, split_commas(a).map_values(|x: Seq<char>| declared_type(x))))
            }
        }
    }
}

/// The type named by one declared argument.
fn piece_type(piece: &Vec<char>) -> (r: String)
    ensures
        r@ == declared_type(piece@),
{
    let a = crate::text::trim_chars(piece);
    let k = find_char_from(&a, ':', 0);
    if k < a.len() {
        let rest = sub_chars(&a, k + 1, a.len());
        let t = crate::text::trim_chars(&rest);
        crate::text::string_from_chars(t.as_slice())
    } else {
        String::from_str("symbol")
    }
}

/// Parse a declaration string like `tool_calls(n: number)` into (name, types).
pub fn parse_declaration_types(decl: &str) -> (r: Option<(String, Vec<String>)>)
    requires
        decl_parens_ordered(decl@),
    ensures
        match r {
            Some((name, types)) => decl_types_spec(decl@) == Some((name@, string_views(types@))),
            None => decl_types_spec(decl@) is None,
        },
{
    let whole = str_chars(decl);
    let t = crate::text::trim_chars(&whole);
    let prefix = str_chars(".decl ");
    proof {
        reveal_strlit(".decl ");
    }
    let d = if crate::text::chars_occur_at(&t, &prefix, 0) {
        assert(has_prefix(t@, ".decl "@));
        sub_chars(&t, 6, t.len())
    } else {
        assert(!has_prefix(t@, ".decl "@)) by {
            if has_prefix(t@, ".decl "@) {
                assert(crate::text::occurs_at(t@, prefix@, 0));
            }
        }
        whole
    };
    assert(d@ == decl_body(decl@));
    let p = find_char_from(&d, '(', 0);
    if p >= d.len() {
        return None;
    }
    let c = match rfind_char(&d, ')') {
        Some(c) => c,
        None => {
            return None;
        },
    };
    let head = sub_chars(&d, 0, p);
    let name_chars = crate::text::trim_chars(&head);
    if name_chars.len() == 0 {
        return None;
    }
    let name = crate::text::string_from_chars(name_chars.as_slice());
    let a = sub_chars(&d, p + 1, c);
    let (ta, tb) = trim_bounds(&a);
    if ta == tb {
        let types: Vec<String> = Vec::new();
        assert(string_views(types@) =~= Seq::<Seq<char>>::empty());
        return Some((name, types));
    }
    let ghost pieces = split_commas(a@);
    let mut types: Vec<String> = Vec::new();
    let mut start: usize = 0;
    let mut i: usize = 0;
    assert(string_views(types@) =~= Seq::<Seq<char>>::empty());
    while i < a.len()
        invariant
            i <= a.len(),
            start <= i,
            string_views(types@) == split_scan(a@, i as nat).0.map_values(
                |x: Seq<char>| declared_type(x),
            ),
            start as int == split_scan(a@, i as nat).1,
        decreases a.len() - i,
    {
        if a[i] == ',' {
            let piece = sub_chars(&a, start, i);
            let ty = piece_type(&piece);
            let ghost before = types@;
            types.push(ty);
            proof {
                let ps = split_scan(a@, i as nat).0;
                assert(types@ == before.push(ty));
                lemma_map_push(before, ty, |s: String| s@);
                lemma_map_push(ps, piece@, |x: Seq<char>| declared_type(x));
                assert(split_scan(a@, (i + 1) as nat).0 == ps.push(piece@));
            }
            start = i + 1;
        }
        i = i + 1;
    }
    let piece = sub_chars(&a, start, a.len());
    let ty = piece_type(&piece);
    let ghost before = types@;
    types.push(ty);
    proof {
        let ps = split_scan(a@, a@.len()).0;
        assert(types@ == before.push(ty));
        lemma_map_push(before, ty, |s: String| s@);
        lemma_map_push(ps, piece@, |x: Seq<char>| declared_type(x));
    }
    Some((name, types))
}

// ---------------------------------------------------------------------------
// The wrapper rule
// ---------------------------------------------------------------------------

/// The type of the argument at `pos` of the source predicate, `symbol`
/// when the predicate's types are unknown or too short.
pub open spec fn type_at(source: Option<Seq<Seq<char>>>, pos: int) -> Seq<char> {
    match source {
        Some(ts) => if 0 <= pos < ts.len() {
            ts[pos]
        } else {
            "symbol"@
        },
        None => "symbol"@,
    }
}

/// `argI: T` for position `i` and type `t`.
pub open spec fn param(i: int, t: Seq<char>) -> Seq<char> {
    "arg"@ + decimal(i as nat) + ": "@ + t
}

/// The parameter list for the given types, joined by `, `.
pub open spec fn params_text(types: Seq<Seq<char>>) -> Seq<char> {
    join_with(Seq::new(types.len(), |i: int| param(i, types[i])), ", "@)
}

/// The column types of the variables other than `_`, in order.
pub open spec fn variable_column_types(
    args: Seq<QueryArgModel>,
    source: Option<Seq<Seq<char>>>,
    n: nat,
) -> Seq<Seq<char>>
    decreases n,
{
    if n == 0 {
        Seq::empty()
    } else {
        let prev = variable_column_types(args, source, (n - 1) as nat);
        match args[n - 1] {
            QueryArgModel::Variable(v) => if v != "_"@ {
                prev.push(type_at(source, n - 1))
            } else {
                prev
            },
            QueryArgModel::Constant(_) => prev,
        }
    }
}

/// Argument `a` is a variable that names a result column: any variable
/// but `_`.
pub open spec fn names_column(a: QueryArgModel) -> bool {
    a matches QueryArgModel::Variable(v) && v != "_"@
}

/// How many of the first `p` arguments name result columns.
pub open spec fn columns_before(args: Seq<QueryArgModel>, p: nat) -> nat
    decreases p,
{
    if p == 0 {
        0
    } else {
        columns_before(args, (p - 1) as nat) + if names_column(args[p - 1]) {
            1nat
        } else {
            0nat
        }
    }
}

/// Each result column takes the type of the argument position it comes
/// from: the variable at position `p` gives the column numbered by the
/// variables before it, and that column has the source predicate's type at
/// `p` (`symbol` when unknown); there is one column per such variable.
pub proof fn law_column_type_from_argument_position(
    args: Seq<QueryArgModel>,
    source: Option<Seq<Seq<char>>>,
    n: nat,
    p: nat,
)
    requires
        n <= args.len(),
        p < n,
        names_column(args[p as int]),
    ensures
        variable_column_types(args, source, n).len() == columns_before(args, n),
        variable_column_types(args, source, n)[columns_before(args, p) as int] == match source {
            Some(ts) => if p < ts.len() {
                ts[p as int]
            } else {
                "symbol"@
            },
            None => "symbol"@,
        },
    decreases n,
{
    lemma_column_count(args, source, n);
    if p < n - 1 {
        law_column_type_from_argument_position(args, source, (n - 1) as nat, p);
        lemma_columns_before_grows(args, (p + 1) as nat, (n - 1) as nat);
    }
}

/// There is one column per variable other than `_`.
proof fn lemma_column_count(args: Seq<QueryArgModel>, source: Option<Seq<Seq<char>>>, n: nat)
    requires
        n <= args.len(),
    ensures
        variable_column_types(args, source, n).len() == columns_before(args, n),
    decreases n,
{
    if n > 0 {
        lemma_column_count(args, source, (n - 1) as nat);
    }
}

/// The count of columns does not shrink as arguments are added.
proof fn lemma_columns_before_grows(args: Seq<QueryArgModel>, a: nat, b: nat)
    requires
        a <= b,
    ensures
        columns_before(args, a) <= columns_before(args, b),
    decreases b,
{
    if a < b {
        lemma_columns_before_grows(args, a, (b - 1) as nat);
    }
}

/// The text of an argument as written.
pub open spec fn arg_text(a: QueryArgModel) -> Seq<char> {
    match a {
        QueryArgModel::Variable(v) => v,
        QueryArgModel::Constant(c) => c,
    }
}

/// The wrapper rule and output declaration for a query, with the arity of
/// the result predicate.  The result collects the query's variables, or,
/// when it has none, its constants so the user sees what matched.  When
/// the declared predicates are given and the queried predicate is not
/// among them, it is declared too (with its known types, or as symbols).
pub open spec fn wrapper_spec(
    q: Seq<char>,
    declared: Option<Set<Seq<char>>>,
    types: Map<Seq<char>, Seq<String>>,
) -> (Seq<char>, nat) {
    match parse_query_spec(q) {
        None => (
            ".decl _query_result()\n.output _query_result\n_query_result() :- "@ + q + ".\n"@,
            0,
        ),
        Some((name, args)) => {
            let vars = arg_variables(args);
            let arity = if vars.len() == 0 {
                args.len()
            } else {
                vars.len()
            };
            let source = if types.contains_key(name) {
                Some(string_views(types[name]))
            } else {
                None
            };
            let columns = if vars.len() == 0 {
                Seq::new(args.len(), |pos: int| type_at(source, pos))
            } else {
                variable_column_types(args, source, args.len())
            };
            let decl = if arity > 0 {
                ".decl _query_result("@ + params_text(columns) + ")\n"@
            } else {
                ".decl _query_result()\n"@
            };
            let head_args = if vars.len() == 0 {
                join_with(args.map_values(|a: QueryArgModel| arg_text(a)), ", "@)
            } else {
                join_with(vars, ", "@)
            };
            let head = if head_args.len() == 0 {
                "_query_result()"@
            } else {
                "_query_result("@ + head_args + ")"@
            };
            let base_decl = match declared {
                Some(d) => if !d.contains(name) && args.len() > 0 {
                    let base_types = match source {
                        Some(ts) => ts,
                        None => Seq::new(args.len(), |i: int| "symbol"@),
                    };
                    ".decl "@ + name + "("@ + params_text(base_types) + ")\n"@
                } else {
                    Seq::empty()
                },
                None => Seq::empty(),
            };
            (base_decl + decl + ".output _query_result\n"@ + head + " :- "@ + q + ".\n"@, arity)
        },
    }
}

/// `argI: T` for each type, joined by `, `.
fn params_string(types: &Vec<String>) -> (r: String)
    ensures
        r@ == params_text(string_views(types@)),
{
    let ghost tv = string_views(types@);
    let mut parts: Vec<String> = Vec::new();
    let mut i: usize = 0;
    while i < types.len()
        invariant
            i <= types@.len(),
            tv == string_views(types@),
            string_views(parts@) == Seq::new(i as nat, |k: int| param(k, tv[k])),
        decreases types@.len() - i,
    {
        let mut p = String::from_str("arg");
        let digits = decimal_string(i as u64);
        p.append(digits.as_str());
        p.append(": ");
        p.append(types[i].as_str());
        let ghost before = parts@;
        parts.push(p);
        proof {
            lemma_map_push(before, p, |s: String| s@);
            assert(string_views(parts@) =~= Seq::new((i + 1) as nat, |k: int| param(k, tv[k])));
        }
        i = i + 1;
    }
    assert(Seq::new(i as nat, |k: int| param(k, tv[k])) =~= Seq::new(
        tv.len(),
        |k: int| param(k, tv[k]),
    ));
    join_strings(&parts, ", ")
}

/// The position of `name` among the entries, if any.
fn find_types(types: &Vec<(String, Vec<String>)>, name: &str) -> (r: Option<usize>)
    requires
        keys_distinct(types@),
    ensures
        match r {
            Some(i) => i < types@.len() && entries_map(types@).contains_key(name@)
                && entries_map(types@)[name@] == types@[i as int].1@,
            None => !entries_map(types@).contains_key(name@),
        },
{
    let mut i: usize = 0;
    while i < types.len()
        invariant
            keys_distinct(types@),
            i <= types@.len(),
            forall|k: int| 0 <= k < i ==> types@[k].0@ != name@,
        decreases types@.len() - i,
    {
        if crate::text::str_eq(types[i].0.as_str(), name) {
            proof {
                lemma_entries_map_at(types@, i as int);
            }
            return Some(i);
        }
        i = i + 1;
    }
    None
}

/// The type at `pos` of the source predicate, or `symbol`.
fn type_at_string(source: Option<&Vec<String>>, pos: usize) -> (r: String)
    ensures
        r@ == type_at(
            match source {
                Some(ts) => Some(string_views(ts@)),
                None => None,
            },
            pos as int,
        ),
{
    match source {
        Some(ts) => if pos < ts.len() {
            ts[pos].clone()
        } else {
            String::from_str("symbol")
        },
        None => String::from_str("symbol"),
    }
}

/// Generate a wrapper rule and output declaration for a query, so that
/// constants in the query act as filters; returns it with the arity of
/// the result predicate.
pub fn generate_query_wrapper(
    query: &str,
    declared_predicates: Option<&StrSet>,
    predicate_types: &Vec<(String, Vec<String>)>,
) -> (r: (String, usize))
    requires
        parens_ordered(query@),
        query@.len() < 0x8000_0000_0000_0000,
        keys_distinct(predicate_types@),
    ensures
        (r.0@, r.1 as nat) == wrapper_spec(
            query@,
            match declared_predicates {
                Some(d) => Some(d@),
                None => None,
            },
            entries_map(predicate_types@),
        ),
{
    let parsed = match parse_query(query) {
        Some(p) => p,
        None => {
            let mut w = String::from_str(".decl _query_result()\n.output _query_result\n_query_result() :- ");
            w.append(query);
            w.append(".\n");
            return (w, 0);
        },
    };
    let ghost name = parsed@.0;
    let ghost args = parsed@.1;
    let variables = parsed.variables();
    let arity = parsed.arity();
    let result_arity = if variables.len() == 0 {
        arity
    } else {
        variables.len()
    };
    let source: Option<&Vec<String>> = match find_types(predicate_types, parsed.name.as_str()) {
        Some(i) => Some(&predicate_types[i].1),
        None => None,
    };
    let ghost sv = match source {
        Some(ts) => Some(string_views(ts@)),
        None => None,
    };
    // The column types of the result predicate.
    let mut columns: Vec<String> = Vec::new();
    if variables.len() == 0 {
        let mut pos: usize = 0;
        while pos < arity
            invariant
                pos <= arity,
                string_views(columns@) == Seq::new(pos as nat, |k: int| type_at(sv, k)),
                sv == (match source {
                    Some(ts) => Some(string_views(ts@)),
                    None => None,
                }),
            decreases arity - pos,
        {
            let t = type_at_string(source, pos);
            let ghost before = columns@;
            columns.push(t);
            proof {
                lemma_map_push(before, t, |s: String| s@);
                assert(string_views(columns@) =~= Seq::new((pos + 1) as nat, |k: int| type_at(sv, k)));
            }
            pos = pos + 1;
        }
    } else {
        let mut pos: usize = 0;
        assert(string_views(columns@) =~= Seq::<Seq<char>>::empty());
        while pos < arity
            invariant
                pos <= arity,
                arity == parsed.args@.len(),
                args == parsed@.1,
                string_views(columns@) == variable_column_types(args, sv, pos as nat),
                sv == (match source {
                    Some(ts) => Some(string_views(ts@)),
                    None => None,
                }),
            decreases arity - pos,
        {
            assert(args[pos as int] == parsed.args@[pos as int]@);
            match &parsed.args[pos] {
                QueryArg::Variable(v) => {
                    if !crate::text::str_eq(v.as_str(), "_") {
                        let t = type_at_string(source, pos);
                        let ghost before = columns@;
                        columns.push(t);
                        proof {
                            lemma_map_push(before, t, |s: String| s@);
                        }
                    }
                },
                QueryArg::Constant(_) => {},
            }
            pos = pos + 1;
        }
    }
    // The declaration of the result predicate.
    let decl = if result_arity > 0 {
        let mut d = String::from_str(".decl _query_result(");
        let ps = params_string(&columns);
        d.append(ps.as_str());
        d.append(")\n");
        d
    } else {
        String::from_str(".decl _query_result()\n")
    };
    // The head of the wrapper rule.
    let mut head_parts: Vec<String> = Vec::new();
    if variables.len() == 0 {
        let mut k: usize = 0;
        assert(string_views(head_parts@) =~= Seq::<Seq<char>>::empty());
        while k < parsed.args.len()
            invariant
                k <= parsed.args@.len(),
                args == parsed@.1,
                string_views(head_parts@) == args.take(k as int).map_values(
                    |a: QueryArgModel| arg_text(a),
                ),
            decreases parsed.args@.len() - k,
        {
            let text = match &parsed.args[k] {
                QueryArg::Constant(c) => c.clone(),
                QueryArg::Variable(v) => v.clone(),
            };
            let ghost before = head_parts@;
            head_parts.push(text);
            proof {
                lemma_map_push(before, text, |s: String| s@);
                lemma_map_push(args.take(k as int), args[k as int], |a: QueryArgModel| arg_text(a));
                assert(args.take(k + 1) =~= args.take(k as int).push(args[k as int]));
            }
            k = k + 1;
        }
        assert(args.take(k as int) =~= args);
    } else {
        let mut k: usize = 0;
        assert(string_views(head_parts@) =~= Seq::<Seq<char>>::empty());
        while k < variables.len()
            invariant
                k <= variables@.len(),
                variables@.map_values(|s: &str| s@) == arg_variables(args),
                string_views(head_parts@) == arg_variables(args).take(k as int),
            decreases variables@.len() - k,
        {
            let text = String::from_str(variables[k]);
            let ghost before = head_parts@;
            head_parts.push(text);
            proof {
                lemma_map_push(before, text, |s: String| s@);
                assert(string_views(head_parts@) =~= arg_variables(args).take(k + 1));
            }
            k = k + 1;
        }
        assert(arg_variables(args).take(k as int) =~= arg_variables(args));
    }
    let head_args = join_strings(&head_parts, ", ");
    let head = if head_args.unicode_len() == 0 {
        String::from_str("_query_result()")
    } else {
        let mut h = String::from_str("_query_result(");
        h.append(head_args.as_str());
        h.append(")");
        h
    };
    // The declaration of the queried predicate, when it is not declared.
    let base_decl = match declared_predicates {
        Some(declared) => {
            if !declared.contains(parsed.name.as_str()) && arity > 0 {
                let mut b = String::from_str(".decl ");
                b.append(parsed.name.as_str());
                b.append("(");
                let ps = match source {
                    Some(ts) => params_string(ts),
                    None => {
                        let mut syms: Vec<String> = Vec::new();
                        let mut k: usize = 0;
                        while k < arity
                            invariant
                                k <= arity,
                                string_views(syms@) == Seq::new(k as nat, |i: int| "symbol"@),
                            decreases arity - k,
                        {
                            let t = String::from_str("symbol");
                            let ghost before = syms@;
                            syms.push(t);
                            proof {
                                lemma_map_push(before, t, |s: String| s@);
                                assert(string_views(syms@) =~= Seq::new(
                                    (k + 1) as nat,
                                    |i: int| "symbol"@,
                                ));
                            }
                            k = k + 1;
                        }
                        params_string(&syms)
                    },
                };
                b.append(ps.as_str());
                b.append(")\n");
                b
            } else {
                String::new()
            }
        },
        None => String::new(),
    };
    let mut wrapper = base_decl;
    wrapper.append(decl.as_str());
    wrapper.append(".output _query_result\n");
    wrapper.append(head.as_str());
    wrapper.append(" :- ");
    wrapper.append(query);
    wrapper.append(".\n");
    (wrapper, result_arity)
}

// ---------------------------------------------------------------------------
// Input limits
// ---------------------------------------------------------------------------

/// The first forbidden pattern, in list order from `k` on, that occurs in `s`.
pub open spec fn forbidden_from(s: Seq<char>, k: int) -> Option<Seq<char>>
    decreases forbidden_patterns_spec().len() - k,
{
    if k < 0 || k >= forbidden_patterns_spec().len() {
        None
    } else if contains_seq(s, forbidden_patterns_spec()[k]) {
        Some(forbidden_patterns_spec()[k])
    } else {
        forbidden_from(s, k + 1)
    }
}

/// The first forbidden pattern that occurs in `s`, if any.
pub open spec fn forbidden_in(s: Seq<char>) -> Option<Seq<char>> {
    forbidden_from(s, 0)
}

/// The first string, in order, that holds a forbidden pattern, and the pattern.
pub open spec fn forbidden_in_any(v: Seq<Seq<char>>) -> Option<Seq<char>>
    decreases v.len(),
{
    if v.len() == 0 {
        None
    } else {
        match forbidden_in(v[0]) {
            Some(p) => Some(p),
            None => forbidden_in_any(v.drop_first()),
        }
    }
}

/// `label: "pattern"`, as the pattern's `Debug` form prints it.
pub open spec fn pattern_message(label: Seq<char>, p: Seq<char>) -> Seq<char> {
    label + ": \""@ + p + "\""@
}

/// `label: N chars (max 4096)`.
pub open spec fn length_message(label: Seq<char>, n: nat) -> Seq<char> {
    label + ": "@ + decimal(n) + " chars (max 4096)"@
}

/// The verdict on the inputs of a query: the trimmed query, the extra
/// rules, facts and declarations must each stay within the length limit
/// (facts and declarations in total) and hold no forbidden pattern.
pub open spec fn query_input_verdict(
    query: Seq<char>,
    rules: Option<Seq<char>>,
    facts: Option<Seq<Seq<char>>>,
    decls: Option<Seq<Seq<char>>>,
) -> Result<(), Seq<char>> {
    let q = trim(query);
    if utf8_len(q) > 4096 {
        Err(length_message("Query too long"@, utf8_len(q)))
    } else if forbidden_in(q) is Some {
        Err(pattern_message("Query contains forbidden pattern"@, forbidden_in(q)->0))
    } else if rules is Some && utf8_len(rules->0) > 4096 {
        Err(length_message("Extra rules too long"@, utf8_len(rules->0)))
    } else if rules is Some && forbidden_in(rules->0) is Some {
        Err(pattern_message("Extra rules contain forbidden pattern"@, forbidden_in(rules->0)->0))
    } else if facts is Some && total_utf8_len(facts->0) > 4096 {
        Err(length_message("Extra facts too long"@, total_utf8_len(facts->0)))
    } else if facts is Some && forbidden_in_any(facts->0) is Some {
        Err(pattern_message("Extra fact contains forbidden pattern"@, forbidden_in_any(facts->0)->0))
    } else if decls is Some && total_utf8_len(decls->0) > 4096 {
        Err(length_message("Extra declarations too long"@, total_utf8_len(decls->0)))
    } else if decls is Some && forbidden_in_any(decls->0) is Some {
        Err(
            pattern_message(
                "Extra declaration contains forbidden pattern"@,
                forbidden_in_any(decls->0)->0,
            ),
        )
    } else {
        Ok(())
    }
}

/// The first forbidden pattern that occurs in `s`.
fn find_forbidden(s: &str) -> (r: Option<&'static str>)
    ensures
        match r {
            Some(p) => forbidden_in(s@) == Some(p@),
            None => forbidden_in(s@) is None,
        },
{
    let pats = forbidden_patterns();
    let mut k: usize = 0;
    while k < pats.len()
        invariant
            k <= pats@.len(),
            pats@.map_values(|x: &str| x@) == forbidden_patterns_spec(),
            forbidden_in(s@) == forbidden_from(s@, k as int),
        decreases pats@.len() - k,
    {
        assert(pats@[k as int]@ == forbidden_patterns_spec()[k as int]);
        if crate::text::str_contains(s, pats[k]) {
            return Some(pats[k]);
        }
        k = k + 1;
    }
    None
}

/// The first string holding a forbidden pattern, and the pattern.
fn find_forbidden_any(v: &Vec<String>) -> (r: Option<&'static str>)
    ensures
        match r {
            Some(p) => forbidden_in_any(string_views(v@)) == Some(p@),
            None => forbidden_in_any(string_views(v@)) is None,
        },
{
    let ghost sv = string_views(v@);
    let mut i: usize = 0;
    assert(sv.skip(0) =~= sv);
    while i < v.len()
        invariant
            i <= v@.len(),
            sv == string_views(v@),
            forbidden_in_any(sv) == forbidden_in_any(sv.skip(i as int)),
        decreases v@.len() - i,
    {
        assert(sv.skip(i as int)[0] == v@[i as int]@);
        assert(sv.skip(i as int).drop_first() =~= sv.skip(i + 1));
        match find_forbidden(v[i].as_str()) {
            Some(p) => {
                return Some(p);
            },
            None => {},
        }
        i = i + 1;
    }
    None
}

/// The total UTF-8 length of the strings.
fn total_len(v: &Vec<String>) -> (r: usize)
    requires
        total_utf8_len(string_views(v@)) <= usize::MAX,
    ensures
        r == total_utf8_len(string_views(v@)),
{
    let ghost sv = string_views(v@);
    let mut total: usize = 0;
    let mut i: usize = 0;
    proof {
        lemma_total_monotone(sv, 0);
    }
    while i < v.len()
        invariant
            i <= v@.len(),
            sv == string_views(v@),
            total_utf8_len(sv) <= usize::MAX,
            total == total_utf8_len(sv.take(i as int)),
            total_utf8_len(sv.take(i as int)) <= total_utf8_len(sv),
        decreases v@.len() - i,
    {
        assert(sv.take(i + 1).drop_last() =~= sv.take(i as int));
        assert(sv.take(i + 1).last() == v@[i as int]@);
        proof {
            lemma_total_monotone(sv, i + 1);
        }
        total = total + v[i].as_str().as_bytes().len();
        i = i + 1;
    }
    assert(sv.take(i as int) =~= sv);
    total
}

/// The total of a prefix is at most the total.
proof fn lemma_total_monotone(v: Seq<Seq<char>>, i: int)
    requires
        0 <= i <= v.len(),
    ensures
        total_utf8_len(v.take(i)) <= total_utf8_len(v),
    decreases v.len() - i,
{
    if i < v.len() {
        lemma_total_monotone(v, i + 1);
        assert(v.take(i + 1).drop_last() =~= v.take(i));
    } else {
        assert(v.take(i) =~= v);
    }
}

fn pattern_error(label: &str, p: &str) -> (r: String)
    ensures
        r@ == pattern_message(label@, p@),
{
    let mut m = String::from_str(label);
    m.append(": \"");
    m.append(p);
    m.append("\"");
    m
}

fn length_error(label: &str, n: usize) -> (r: String)
    ensures
        r@ == length_message(label@, n as nat),
{
    let mut m = String::from_str(label);
    m.append(": ");
    let digits = decimal_string(n as u64);
    m.append(digits.as_str());
    m.append(" chars (max 4096)");
    m
}

/// Check the inputs of a query against the length limit and the forbidden
/// patterns; the error is the message shown to the caller.
pub fn check_query_input(
    query: &str,
    extra_rules: Option<&str>,
    extra_facts: Option<&Vec<String>>,
    extra_declarations: Option<&Vec<String>>,
) -> (r: Result<(), String>)
    requires
        extra_facts matches Some(f) ==> total_utf8_len(string_views(f@)) <= usize::MAX,
        extra_declarations matches Some(d) ==> total_utf8_len(string_views(d@)) <= usize::MAX,
    ensures
        match r {
            Ok(()) => query_input_verdict(
                query@,
                match extra_rules {
                    Some(x) => Some(x@),
                    None => None,
                },
                match extra_facts {
                    Some(f) => Some(string_views(f@)),
                    None => None,
                },
                match extra_declarations {
                    Some(d) => Some(string_views(d@)),
                    None => None,
                },
            ) is Ok,
            Err(m) => query_input_verdict(
                query@,
                match extra_rules {
                    Some(x) => Some(x@),
                    None => None,
                },
                match extra_facts {
                    Some(f) => Some(string_views(f@)),
                    None => None,
                },
                match extra_declarations {
                    Some(d) => Some(string_views(d@)),
                    None => None,
                },
            ) == Err::<(), Seq<char>>(m@),
        },
{
    let qv = str_chars(query);
    let (a, b) = trim_bounds(&qv);
    let q = query.substring_char(a, b);
    assert(q@ == trim(query@));
    let qlen = q.as_bytes().len();
    if qlen > MAX_QUERY_LENGTH {
        return Err(length_error("Query too long", qlen));
    }
    match find_forbidden(q) {
        Some(p) => {
            return Err(pattern_error("Query contains forbidden pattern", p));
        },
        None => {},
    }
    match extra_rules {
        Some(rules) => {
            let rlen = rules.as_bytes().len();
            if rlen > MAX_QUERY_LENGTH {
                return Err(length_error("Extra rules too long", rlen));
            }
            match find_forbidden(rules) {
                Some(p) => {
                    return Err(pattern_error("Extra rules contain forbidden pattern", p));
                },
                None => {},
            }
        },
        None => {},
    }
    match extra_facts {
        Some(facts) => {
            let total = total_len(facts);
            if total > MAX_QUERY_LENGTH {
                return Err(length_error("Extra facts too long", total));
            }
            match find_forbidden_any(facts) {
                Some(p) => {
                    return Err(pattern_error("Extra fact contains forbidden pattern", p));
                },
                None => {},
            }
        },
        None => {},
    }
    match extra_declarations {
        Some(decls) => {
            let total = total_len(decls);
            if total > MAX_QUERY_LENGTH {
                return Err(length_error("Extra declarations too long", total));
            }
            match find_forbidden_any(decls) {
                Some(p) => {
                    return Err(pattern_error("Extra declaration contains forbidden pattern", p));
                },
                None => {},
            }
        },
        None => {},
    }
    Ok(())
}

// ---------------------------------------------------------------------------
// Extra declarations, facts and ad-hoc rules of a program
// ---------------------------------------------------------------------------

/// `n` parameters of type `symbol`.
pub open spec fn symbols(n: nat) -> Seq<Seq<char>> {
    Seq::new(n, |i: int| "symbol"@)
}

/// The declarations of the heads of ad-hoc rules, in order: a head not
/// declared yet is declared with `symbol` arguments (and counts as
/// declared from then on).  The text and the declared predicates after.
pub open spec fn heads_fold(heads: Seq<(Seq<char>, nat)>, declared: Set<Seq<char>>) -> (Seq<char>, Set<Seq<char>>)
    decreases heads.len(),
{
    if heads.len() == 0 {
        (Seq::empty(), declared)
    } else {
        let (t, d) = heads_fold(heads.drop_last(), declared);
        let (n, a) = heads.last();
        if d.contains(n) {
            (t, d)
        } else {
            (t + ".decl "@ + n + "("@ + params_text(symbols(a)) + ")\n"@, d.insert(n))
        }
    }
}

/// `.decl name(params)` and a line break.
fn decl_line(name: &str, types: &Vec<String>) -> (r: String)
    ensures
        r@ == ".decl "@ + name@ + "("@ + params_text(string_views(types@)) + ")\n"@,
{
    let mut line = String::from_str(".decl ");
    line.append(name);
    line.append("(");
    let ps = params_string(types);
    line.append(ps.as_str());
    line.append(")\n");
    line
}

/// The program text for ad-hoc rules: a declaration for each head not yet
/// declared (see `heads_fold`), then the rules under a comment.  The heads
/// are the names and arities of the rules' head predicates.
pub fn adhoc_rules_program(extra: &str, heads: &Vec<(String, usize)>, declared: &mut StrSet) -> (r: String)
    requires
        old(declared).wf(),
    ensures
        final(declared).wf(),
        ({
            let (t, d) = heads_fold(heads@.map_values(|h: (String, usize)| (h.0@, h.1 as nat)), old(declared)@);
            &&& r@ == t + "// Ad-hoc rules\n"@ + extra@ + "\n\n"@
            &&& final(declared)@ == d
        }),
{
    let ghost hv = heads@.map_values(|h: (String, usize)| (h.0@, h.1 as nat));
    let mut out = String::new();
    let mut i: usize = 0;
    assert(hv.take(0) =~= Seq::<(Seq<char>, nat)>::empty());
    while i < heads.len()
        invariant
            i <= heads@.len(),
            hv == heads@.map_values(|h: (String, usize)| (h.0@, h.1 as nat)),
            declared.wf(),
            (out@, declared@) == heads_fold(hv.take(i as int), old(declared)@),
        decreases heads@.len() - i,
    {
        assert(hv.take(i + 1).drop_last() =~= hv.take(i as int));
        assert(hv.take(i + 1).last() == (heads@[i as int].0@, heads@[i as int].1 as nat));
        let name = heads[i].0.as_str();
        let arity = heads[i].1;
        if !declared.contains(name) {
            let mut types: Vec<String> = Vec::new();
            let mut j: usize = 0;
            while j < arity
                invariant
                    j <= arity,
                    string_views(types@) == symbols(j as nat),
                decreases arity - j,
            {
                let ghost before = types@;
                types.push(String::from_str("symbol"));
                proof {
                    lemma_map_push(before, types@.last(), |s: String| s@);
                    assert(types@ == before.push(types@.last()));
                    assert(string_views(types@) =~= symbols((j + 1) as nat));
                }
                j = j + 1;
            }
            let line = decl_line(name, &types);
            out.append(line.as_str());
            declared.insert(String::from_str(name));
        }
        i = i + 1;
    }
    assert(hv.take(i as int) =~= hv);
    out.append("// Ad-hoc rules\n");
    out.append(extra);
    out.append("\n\n");
    out
}

/// The types recorded for each predicate, as a map to their views.
pub open spec fn types_model(v: Seq<(String, Vec<String>)>) -> Map<Seq<char>, Seq<Seq<char>>> {
    Map::new(
        |k: Seq<char>| entries_map(v).contains_key(k),
        |k: Seq<char>| string_views(entries_map(v)[k]),
    )
}

/// The extra declarations of a query, in order: each that parses declares
/// its predicate when it is not declared yet, and records its types when
/// none are recorded.  Declarations that do not parse are skipped.  The
/// text, the declared predicates and the recorded types after.
pub open spec fn decls_fold(
    decls: Seq<Seq<char>>,
    declared: Set<Seq<char>>,
    types: Map<Seq<char>, Seq<Seq<char>>>,
) -> (Seq<char>, Set<Seq<char>>, Map<Seq<char>, Seq<Seq<char>>>)
    decreases decls.len(),
{
    if decls.len() == 0 {
        (Seq::empty(), declared, types)
    } else {
        let (t, d, m) = decls_fold(decls.drop_last(), declared, types);
        match decl_types_spec(decls.last()) {
            None => (t, d, m),
            Some((name, tys)) => {
                let t2 = if d.contains(name) {
                    t
                } else {
                    t + ".decl "@ + name + "("@ + params_text(tys) + ")\n"@
                };
                let m2 = if m.contains_key(name) {
                    m
                } else {
                    m.insert(name, tys)
                };
                (t2, d.insert(name), m2)
            },
        }
    }
}

/// The program text for the extra declarations of a query (see
/// `decls_fold`); `declared` and `types` gain what they declare.
pub fn extra_declarations_program(
    decls: &Vec<String>,
    declared: &mut StrSet,
    types: &mut Vec<(String, Vec<String>)>,
) -> (r: String)
    requires
        old(declared).wf(),
        keys_distinct(old(types)@),
        forall|i: int| 0 <= i < decls@.len() ==> decl_parens_ordered(#[trigger] decls@[i]@),
    ensures
        final(declared).wf(),
        keys_distinct(final(types)@),
        ({
            let (t, d, m) = decls_fold(string_views(decls@), old(declared)@, types_model(old(types)@));
            &&& r@ == t
            &&& final(declared)@ == d
            &&& types_model(final(types)@) == m
        }),
{
    let ghost dv = string_views(decls@);
    let mut out = String::new();
    let mut i: usize = 0;
    assert(dv.take(0) =~= Seq::<Seq<char>>::empty());
    while i < decls.len()
        invariant
            i <= decls@.len(),
            dv == string_views(decls@),
            forall|k: int| 0 <= k < decls@.len() ==> decl_parens_ordered(#[trigger] decls@[k]@),
            declared.wf(),
            keys_distinct(types@),
            ({
                let (t, d, m) = decls_fold(dv.take(i as int), old(declared)@, types_model(old(types)@));
                out@ == t && declared@ == d && types_model(types@) == m
            }),
        decreases decls@.len() - i,
    {
        assert(dv.take(i + 1).drop_last() =~= dv.take(i as int));
        assert(dv.take(i + 1).last() == decls@[i as int]@);
        assert(decl_parens_ordered(decls@[i as int]@));
        match parse_declaration_types(decls[i].as_str()) {
            Some((name, tys)) => {
                if !declared.contains(name.as_str()) {
                    let line = decl_line(name.as_str(), &tys);
                    out.append(line.as_str());
                }
                match find_types(types, name.as_str()) {
                    Some(_) => {},
                    None => {
                        let ghost before = types@;
                        let ghost tv = string_views(tys@);
                        let ghost nv = name@;
                        let key = name.clone();
                        types.push((key, tys));
                        proof {
                            lemma_entries_map_push(before, types@.last());
                            assert(types_model(types@) =~= types_model(before).insert(nv, tv));
                        }
                    },
                }
                declared.insert(name);
            },
            None => {},
        }
        i = i + 1;
    }
    assert(dv.take(i as int) =~= dv);
    out
}

/// One fact per line, each ended by `.`.
pub open spec fn facts_text(facts: Seq<Seq<char>>) -> Seq<char>
    decreases facts.len(),
{
    if facts.len() == 0 {
        Seq::empty()
    } else {
        facts_text(facts.drop_last()) + facts.last() + ".\n"@
    }
}

/// The program text for the extra facts of a query.
pub fn extra_facts_program(facts: &Vec<String>) -> (r: String)
    ensures
        r@ == facts_text(string_views(facts@)),
{
    let ghost fv = string_views(facts@);
    let mut out = String::new();
    let mut i: usize = 0;
    assert(fv.take(0) =~= Seq::<Seq<char>>::empty());
    while i < facts.len()
        invariant
            i <= facts@.len(),
            fv == string_views(facts@),
            out@ == facts_text(fv.take(i as int)),
        decreases facts@.len() - i,
    {
        assert(fv.take(i + 1).drop_last() =~= fv.take(i as int));
        assert(fv.take(i + 1).last() == facts@[i as int]@);
        out.append(facts[i].as_str());
        out.append(".\n");
        i = i + 1;
    }
    assert(fv.take(i as int) =~= fv);
    out
}

// ---------------------------------------------------------------------------
// The arguments of `query_facts`
// ---------------------------------------------------------------------------

/// The strings of the array member `key`, where it is an array.
pub open spec fn string_array(m: Seq<(String, JsonValue)>, key: Seq<char>) -> Option<Seq<Seq<char>>> {
    match lookup_member(m, key) {
        Some(v) => match v.items() {
            Some(a) => Some(string_items(a)),
            None => None,
        },
        None => None,
    }
}

/// What a query asks for once its arguments are checked: the trimmed
/// query, and the ad-hoc rules, facts and declarations given with it.
#[derive(Debug)]
pub struct QueryFactsRequest {
    pub query: String,
    pub extra_rules: Option<String>,
    pub extra_facts: Option<Vec<String>>,
    pub extra_declarations: Option<Vec<String>>,
}

/// Why the arguments of `query_facts` are refused, if they are: a query
/// string is required, and then the limits of `query_input_verdict` hold.
pub open spec fn query_request_error(m: Seq<(String, JsonValue)>) -> Option<Seq<char>> {
    match member_text(m, "query"@) {
        None => Some("Missing required parameter: query"@),
        Some(q) => match query_input_verdict(
            q,
            member_text(m, "extra_rules"@),
            string_array(m, "extra_facts"@),
            string_array(m, "extra_declarations"@),
        ) {
            Err(e) => Some(e),
            Ok(()) => None,
        },
    }
}

fn string_array_of(m: &Vec<(String, JsonValue)>, key: &str) -> (r: Option<Vec<String>>)
    ensures
        match r {
            Some(v) => string_array(m@, key@) == Some(string_views(v@)),
            None => string_array(m@, key@) is None,
        },
{
    match member(m, key) {
        Some(v) => match v.as_array() {
            Some(a) => Some(collect_strings(a)),
            None => None,
        },
        None => None,
    }
}

/// Check the arguments of `query_facts`, before any query runs: the query
/// must be given, and it, the extra rules, facts and declarations must
/// keep to the length limit and hold no forbidden pattern.
pub fn query_facts_request(arguments: &Vec<(String, JsonValue)>) -> (r: Result<QueryFactsRequest, String>)
    requires
        string_array(arguments@, "extra_facts"@) matches Some(f) ==> total_utf8_len(f) <= usize::MAX,
        string_array(arguments@, "extra_declarations"@) matches Some(d) ==> total_utf8_len(d) <= usize::MAX,
    ensures
        match r {
            Ok(q) => query_request_error(arguments@) is None
                && (member_text(arguments@, "query"@) matches Some(t) && q.query@ == trim(t))
                && string_opt_view(q.extra_rules) == member_text(arguments@, "extra_rules"@)
                && (match q.extra_facts {
                    Some(v) => string_array(arguments@, "extra_facts"@) == Some(string_views(v@)),
                    None => string_array(arguments@, "extra_facts"@) is None,
                })
                && (match q.extra_declarations {
                    Some(v) => string_array(arguments@, "extra_declarations"@) == Some(string_views(v@)),
                    None => string_array(arguments@, "extra_declarations"@) is None,
                }),
            Err(e) => query_request_error(arguments@) == Some(e@),
        },
{
    let query = match member_str(arguments, "query") {
        Some(q) => q,
        None => {
            return Err(String::from_str("Missing required parameter: query"));
        },
    };
    let rules = member_str(arguments, "extra_rules");
    let facts = string_array_of(arguments, "extra_facts");
    let decls = string_array_of(arguments, "extra_declarations");
    let checked = check_query_input(
        query,
        rules,
        match &facts {
            Some(f) => Some(f),
            None => None,
        },
        match &decls {
            Some(d) => Some(d),
            None => None,
        },
    );
    match checked {
        Err(e) => Err(e),
        Ok(()) => {
            let v = str_chars(query);
            let t = crate::text::trim_chars(&v);
            let trimmed = crate::text::string_from_chars(t.as_slice());
            Ok(
                QueryFactsRequest {
                    query: trimmed,
                    extra_rules: match rules {
                        Some(x) => Some(String::from_str(x)),
                        None => None,
                    },
                    extra_facts: facts,
                    extra_declarations: decls,
                },
            )
        },
    }
}

/// The view of an optional string.
pub open spec fn string_opt_view(o: Option<String>) -> Option<Seq<char>> {
    match o {
        Some(s) => Some(s@),
        None => None,
    }
}

/// Whether a `)` comes before the first `(` of the query, where there are
/// both; the wrapper cannot be generated then.
pub fn parens_in_order(q: &str) -> (r: bool)
    ensures
        r == parens_ordered(q@),
{
    let v = str_chars(q);
    let p = find_char_from(&v, '(', 0);
    match rfind_char(&v, ')') {
        Some(c) => p >= v.len() || c > p,
        None => true,
    }
}

/// The wrapper rule for a query (see `generate_query_wrapper`), or nothing
/// when the query's last `)` comes before its first `(`, or the query is
/// too long to index.
pub fn checked_query_wrapper(
    query: &str,
    declared_predicates: Option<&StrSet>,
    predicate_types: &Vec<(String, Vec<String>)>,
) -> (r: Option<(String, usize)>)
    requires
        keys_distinct(predicate_types@),
    ensures
        match r {
            Some((w, n)) => parens_ordered(query@) && wrapper_spec(
                query@,
                match declared_predicates {
                    Some(d) => Some(d@),
                    None => None,
                },
                entries_map(predicate_types@),
            ) == (w@, n as nat),
            None => !parens_ordered(query@) || query@.len() >= 0x8000_0000_0000_0000,
        },
{
    if !parens_in_order(query) {
        return None;
    }
    let n = query.unicode_len();
    if n as u64 >= 0x8000_0000_0000_0000u64 {
        return None;
    }
    Some(generate_query_wrapper(query, declared_predicates, predicate_types))
}

/// Whether a declaration's last `)` comes after its first `(`, where the
/// types can be taken at all (see `decl_parens_ordered`).
pub fn decl_parens_in_order(decl: &str) -> (r: bool)
    ensures
        r == decl_parens_ordered(decl@),
{
    let whole = str_chars(decl);
    let t = crate::text::trim_chars(&whole);
    let prefix = str_chars(".decl ");
    proof {
        reveal_strlit(".decl ");
    }
    let d = if crate::text::chars_occur_at(&t, &prefix, 0) {
        assert(has_prefix(t@, ".decl "@));
        sub_chars(&t, 6, t.len())
    } else {
        assert(!has_prefix(t@, ".decl "@)) by {
            if has_prefix(t@, ".decl "@) {
                assert(crate::text::occurs_at(t@, prefix@, 0));
            }
        }
        whole
    };
    assert(d@ == decl_body(decl@));
    let p = find_char_from(&d, '(', 0);
    if p >= d.len() {
        return true;
    }
    let c = match rfind_char(&d, ')') {
        Some(c) => c,
        None => {
            return true;
        },
    };
    let head = sub_chars(&d, 0, p);
    let name_chars = crate::text::trim_chars(&head);
    if name_chars.len() == 0 {
        return true;
    }
    c > p
}

/// The program text for the extra declarations of a query (see
/// `extra_declarations_program`), or nothing, with `declared` and `types`
/// unchanged, when one of them has its last `)` before its first `(`.
pub fn checked_extra_declarations_program(
    decls: &Vec<String>,
    declared: &mut StrSet,
    types: &mut Vec<(String, Vec<String>)>,
) -> (r: Option<String>)
    requires
        old(declared).wf(),
        keys_distinct(old(types)@),
    ensures
        final(declared).wf(),
        keys_distinct(final(types)@),
        match r {
            Some(text) => (forall|i: int| 0 <= i < decls@.len() ==> decl_parens_ordered(#[trigger] decls@[i]@))
                && ({
                let (t, d, m) = decls_fold(string_views(decls@), old(declared)@, types_model(old(types)@));
                &&& text@ == t
                &&& final(declared)@ == d
                &&& types_model(final(types)@) == m
            }),
            None => (exists|i: int| 0 <= i < decls@.len() && !decl_parens_ordered(#[trigger] decls@[i]@))
                && final(declared)@ == old(declared)@ && final(types)@ == old(types)@,
        },
{
    let mut i: usize = 0;
    while i < decls.len()
        invariant
            i <= decls@.len(),
            *declared == *old(declared),
            *types == *old(types),
            declared.wf(),
            keys_distinct(types@),
            forall|k: int| 0 <= k < i ==> decl_parens_ordered(#[trigger] decls@[k]@),
        decreases decls@.len() - i,
    {
        if !decl_parens_in_order(decls[i].as_str()) {
            return None;
        }
        i = i + 1;
    }
    Some(extra_declarations_program(decls, declared, types))
}

} // verus!
