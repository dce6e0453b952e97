//! The rules of `query_and_enrich`, which chains a datalog query with
//! Bluesky API lookups: enrichment types and failure modes, the cache keys
//! that deduplicate lookups, column checks, input checks, and the response
//! built from the lookups' outcomes: which are taken before a halt, the
//! errors, and which tuples are reported with which results.

use vstd::prelude::*;
use crate::text::{str_eq, str_starts_with, has_prefix, decimal, decimal_string};
use crate::json::{JsonValue, lookup_member, member, member_text, member_str};
use crate::query::{string_array, string_opt_view};
use crate::strset::string_views;

verus! {

/// Types of enrichment available.
#[derive(Debug, Clone, Copy, PartialEq, Eq, Structural, Hash)]
pub enum EnrichmentType {
    /// Get a user's profile (expects DID)
    Profile,
    /// Get a user's recent posts (expects DID)
    AuthorFeed,
    /// Search for posts (expects query string)
    SearchPosts,
    /// Get thread context (expects post URI)
    ThreadContext,
    /// Get a user's followers (expects DID)
    Followers,
    /// Get accounts a user follows (expects DID)
    Follows,
}

/// The snake-case name of an enrichment type.
pub open spec fn enrichment_name(t: EnrichmentType) -> Seq<char> {
    match t {
        EnrichmentType::Profile => "profile"@,
        EnrichmentType::AuthorFeed => "author_feed"@,
        EnrichmentType::SearchPosts => "search_posts"@,
        EnrichmentType::ThreadContext => "thread_context"@,
        EnrichmentType::Followers => "followers"@,
        EnrichmentType::Follows => "follows"@,
    }
}

impl EnrichmentType {
    /// The snake-case name of the type.
    pub fn as_str(&self) -> (r: &'static str)
        ensures
            r@ == enrichment_name(*self),
    {
        match self {
            EnrichmentType::Profile => "profile",
            EnrichmentType::AuthorFeed => "author_feed",
            EnrichmentType::SearchPosts => "search_posts",
            EnrichmentType::ThreadContext => "thread_context",
            EnrichmentType::Followers => "followers",
            EnrichmentType::Follows => "follows",
        }
    }
}

/// How to handle failures for an enrichment.
#[derive(Debug, Clone, Copy, PartialEq, Eq, Structural)]
pub enum FailureMode {
    /// Log error, include in result, continue processing
    Continue,
    /// Omit the tuple from results if this enrichment fails
    SkipTuple,
    /// Stop entire operation, return error with partial results
    Halt,
}

impl Default for FailureMode {
    /// Failures are reported and processing continues.
    fn default() -> (r: FailureMode)
        ensures
            r == FailureMode::Continue,
    {
        FailureMode::Continue
    }
}

/// The failure mode named by `continue`, `skip_tuple` or `halt`.
pub open spec fn failure_mode_of(s: Seq<char>) -> Option<FailureMode> {
    if s == "continue"@ {
        Some(FailureMode::Continue)
    } else if s == "skip_tuple"@ {
        Some(FailureMode::SkipTuple)
    } else if s == "halt"@ {
        Some(FailureMode::Halt)
    } else {
        None
    }
}

/// Parse a failure mode from its name.
pub fn parse_failure_mode(s: &str) -> (r: Option<FailureMode>)
    ensures
        r == failure_mode_of(s@),
{
    if str_eq(s, "continue") {
        Some(FailureMode::Continue)
    } else if str_eq(s, "skip_tuple") {
        Some(FailureMode::SkipTuple)
    } else if str_eq(s, "halt") {
        Some(FailureMode::Halt)
    } else {
        None
    }
}

/// Options for enrichment calls.
#[derive(Debug, Clone, PartialEq, Eq, Hash)]
pub struct EnrichmentOptions {
    /// Limit for list results (author_feed, search_posts, followers, follows)
    pub limit: Option<u8>,
    /// Since timestamp for search_posts
    pub since: Option<String>,
    /// Depth for thread_context
    pub depth: Option<u16>,
}

impl Default for EnrichmentOptions {
    /// No options.
    fn default() -> (r: EnrichmentOptions)
        ensures
            r.limit is None,
            r.since is None,
            r.depth is None,
    {
        EnrichmentOptions { limit: None, since: None, depth: None }
    }
}

/// Specification for a single enrichment.
#[derive(Debug, Clone)]
pub struct EnrichmentSpec {
    /// Which column (0-indexed) to use as the enrichment key
    pub column: usize,
    /// Type of enrichment to perform
    pub enrichment_type: EnrichmentType,
    /// Options for the enrichment (e.g., limit)
    pub options: EnrichmentOptions,
    /// How to handle failures (defaults to global setting)
    pub on_failure: Option<FailureMode>,
    /// Number of retries before applying on_failure (reserved).
    pub max_retries: u32,
}

/// The failure mode of an enrichment: its own, or the global one.
pub open spec fn mode_of(spec: EnrichmentSpec, global: FailureMode) -> FailureMode {
    match spec.on_failure {
        Some(m) => m,
        None => global,
    }
}

/// The failure mode that applies to an enrichment.
pub fn effective_failure_mode(spec: &EnrichmentSpec, global: FailureMode) -> (r: FailureMode)
    ensures
        r == mode_of(*spec, global),
        spec.on_failure matches Some(m) ==> r == m,
        spec.on_failure is None ==> r == global,
{
    match spec.on_failure {
        Some(m) => m,
        None => global,
    }
}

/// The key under which one lookup is cached: the column, the key value,
/// the enrichment type and the options, so that equal lookups are made once.
#[derive(Debug, Clone, PartialEq, Eq, Hash)]
pub struct CacheKey {
    pub column: usize,
    pub key: String,
    pub enrichment_type: EnrichmentType,
    pub options: EnrichmentOptions,
}

/// Two sets of options are the same.
pub open spec fn same_options(a: EnrichmentOptions, b: EnrichmentOptions) -> bool {
    a.limit == b.limit && a.depth == b.depth && match (a.since, b.since) {
        (Some(x), Some(y)) => x@ == y@,
        (None, None) => true,
        _ => false,
    }
}

/// Two cache keys name the same lookup.
pub open spec fn same_key(a: CacheKey, b: CacheKey) -> bool {
    a.column == b.column && a.key@ == b.key@ && a.enrichment_type == b.enrichment_type
        && same_options(a.options, b.options)
}

fn copy_options(o: &EnrichmentOptions) -> (r: EnrichmentOptions)
    ensures
        same_options(r, *o),
        r.limit == o.limit,
        r.depth == o.depth,
{
    EnrichmentOptions {
        limit: o.limit,
        since: match &o.since {
            Some(s) => Some(s.clone()),
            None => None,
        },
        depth: o.depth,
    }
}

impl CacheKey {
    /// The cache key of looking up `key` from `column` as `spec` says.
    pub fn new(column: usize, key: &str, spec: &EnrichmentSpec) -> (r: CacheKey)
        ensures
            r.column == column,
            r.key@ == key@,
            r.enrichment_type == spec.enrichment_type,
            same_options(r.options, spec.options),
    {
        CacheKey {
            column,
            key: String::from_str(key),
            enrichment_type: spec.enrichment_type,
            options: copy_options(&spec.options),
        }
    }

    /// Whether two keys name the same lookup.
    pub fn same(&self, other: &CacheKey) -> (r: bool)
        ensures
            r == same_key(*self, *other),
    {
        let opts = self.options.limit == other.options.limit && self.options.depth
            == other.options.depth && match (&self.options.since, &other.options.since) {
            (Some(x), Some(y)) => str_eq(x.as_str(), y.as_str()),
            (None, None) => true,
            _ => false,
        };
        self.column == other.column && str_eq(self.key.as_str(), other.key.as_str())
            && self.enrichment_type == other.enrichment_type && opts
    }
}

/// Looking up the same key the same way gives equal cache keys, whatever
/// the failure settings of the enrichment.
pub proof fn law_cache_key_determined(
    c1: usize,
    k1: Seq<char>,
    s1: EnrichmentSpec,
    r1: CacheKey,
    c2: usize,
    k2: Seq<char>,
    s2: EnrichmentSpec,
    r2: CacheKey,
)
    requires
        r1.column == c1 && r1.key@ == k1 && r1.enrichment_type == s1.enrichment_type
            && same_options(r1.options, s1.options),
        r2.column == c2 && r2.key@ == k2 && r2.enrichment_type == s2.enrichment_type
            && same_options(r2.options, s2.options),
    ensures
        same_key(r1, r2) <==> (c1 == c2 && k1 == k2 && s1.enrichment_type == s2.enrichment_type
            && same_options(s1.options, s2.options)),
{
}

// ---------------------------------------------------------------------------
// Checks
// ---------------------------------------------------------------------------

/// The greatest tuple length.
pub open spec fn max_len(tuples: Seq<Vec<String>>) -> nat
    decreases tuples.len(),
{
    if tuples.len() == 0 {
        0
    } else {
        let m = max_len(tuples.drop_last());
        if tuples.last()@.len() > m {
            tuples.last()@.len()
        } else {
            m
        }
    }
}

/// The first enrichment whose column lies beyond every tuple, with the
/// largest column index there is (the widest tuple's last, or 0).
pub open spec fn column_error(tuples: Seq<Vec<String>>, specs: Seq<EnrichmentSpec>) -> Option<
    Seq<char>,
> {
    let max_column: nat = if max_len(tuples) == 0 {
        0
    } else {
        (max_len(tuples) - 1) as nat
    };
    if exists|i: int| 0 <= i < specs.len() && specs[i].column > max_column {
        let i = choose|i: int|
            0 <= i < specs.len() && specs[i].column > max_column && forall|j: int|
                0 <= j < i ==> specs[j].column <= max_column;
        Some(
            "Enrichment column "@ + decimal(specs[i].column as nat) + " exceeds tuple size (max: "@
                + decimal(max_column) + ")"@,
        )
    } else {
        None
    }
}

/// Check that every enrichment's column exists in some tuple.
pub fn check_columns(tuples: &Vec<Vec<String>>, specs: &Vec<EnrichmentSpec>) -> (r: Result<
    (),
    String,
>)
    ensures
        match r {
            Ok(()) => column_error(tuples@, specs@) is None,
            Err(m) => column_error(tuples@, specs@) == Some(m@),
        },
{
    let mut longest: usize = 0;
    let mut i: usize = 0;
    while i < tuples.len()
        invariant
            i <= tuples@.len(),
            longest == max_len(tuples@.take(i as int)),
        decreases tuples@.len() - i,
    {
        assert(tuples@.take(i + 1).drop_last() =~= tuples@.take(i as int));
        assert(tuples@.take(i + 1).last() == tuples@[i as int]);
        if tuples[i].len() > longest {
            longest = tuples[i].len();
        }
        i = i + 1;
    }
    assert(tuples@.take(i as int) =~= tuples@);
    let max_column: usize = if longest == 0 {
        0
    } else {
        longest - 1
    };
    let mut k: usize = 0;
    while k < specs.len()
        invariant
            k <= specs@.len(),
            max_column as nat == (if max_len(tuples@) == 0 {
                0
            } else {
                (max_len(tuples@) - 1) as nat
            }),
            forall|j: int| 0 <= j < k ==> specs@[j].column <= max_column,
        decreases specs@.len() - k,
    {
        if specs[k].column > max_column {
            let mut m = String::from_str("Enrichment column ");
            let c = decimal_string(specs[k].column as u64);
            m.append(c.as_str());
            m.append(" exceeds tuple size (max: ");
            let x = decimal_string(max_column as u64);
            m.append(x.as_str());
            m.append(")");
            proof {
                let w = choose|i: int|
                    0 <= i < specs@.len() && specs@[i].column > max_column && forall|j: int|
                        0 <= j < i ==> specs@[j].column <= max_column;
                assert(w == k) by {
                    if w < k {
                        assert(specs@[w].column <= max_column);
                    }
                    if w > k {
                        assert(specs@[k as int].column <= max_column);
                    }
                }
            }
            return Err(m);
        }
        k = k + 1;
    }
    Ok(())
}

/// Why a key does not fit its enrichment: profiles, feeds, followers and
/// follows take a DID, threads an AT URI; searches take any text.
pub open spec fn input_problem(t: EnrichmentType, key: Seq<char>) -> Option<Seq<char>> {
    match t {
        EnrichmentType::SearchPosts => None,
        EnrichmentType::ThreadContext => if has_prefix(key, "at://"@) {
            None
        } else {
            Some("thread_context enrichment expects an AT URI, got: "@ + key)
        },
        _ => if has_prefix(key, "did:"@) {
            None
        } else {
            Some(enrichment_name(t) + " enrichment expects a DID, got: "@ + key)
        },
    }
}

/// Check the key of a lookup before calling the API.
pub fn check_enrichment_input(t: EnrichmentType, key: &str) -> (r: Option<String>)
    ensures
        match r {
            Some(m) => input_problem(t, key@) == Some(m@),
            None => input_problem(t, key@) is None,
        },
{
    match t {
        EnrichmentType::SearchPosts => None,
        EnrichmentType::ThreadContext => {
            if str_starts_with(key, "at://") {
                None
            } else {
                let mut m = String::from_str("thread_context enrichment expects an AT URI, got: ");
                m.append(key);
                Some(m)
            }
        },
        _ => {
            if str_starts_with(key, "did:") {
                None
            } else {
                let mut m = String::from_str(t.as_str());
                m.append(" enrichment expects a DID, got: ");
                m.append(key);
                Some(m)
            }
        },
    }
}

// ---------------------------------------------------------------------------
// Deduplication and results
// ---------------------------------------------------------------------------

/// Whether a cache key is among the keys.
fn key_position(keys: &Vec<CacheKey>, k: &CacheKey) -> (r: Option<usize>)
    ensures
        match r {
            Some(i) => i < keys@.len() && same_key(keys@[i as int], *k),
            None => forall|i: int| 0 <= i < keys@.len() ==> !same_key(#[trigger] keys@[i], *k),
        },
{
    let mut i: usize = 0;
    while i < keys.len()
        invariant
            i <= keys@.len(),
            forall|j: int| 0 <= j < i ==> !same_key(#[trigger] keys@[j], *k),
        decreases keys@.len() - i,
    {
        if keys[i].same(k) {
            return Some(i);
        }
        i = i + 1;
    }
    None
}

/// `k` is the lookup that enrichment `s` needs for tuple `t`.
pub open spec fn lookup_for(
    tuples: Seq<Vec<String>>,
    specs: Seq<EnrichmentSpec>,
    t: int,
    s: int,
    k: CacheKey,
) -> bool {
    &&& 0 <= t < tuples.len()
    &&& 0 <= s < specs.len()
    &&& specs[s].column < tuples[t]@.len()
    &&& k.column == specs[s].column
    &&& k.key@ == tuples[t]@[specs[s].column as int]@
    &&& k.enrichment_type == specs[s].enrichment_type
    &&& same_options(k.options, specs[s].options)
}

/// Some key among `keys` is the lookup that enrichment `s` needs for tuple `t`.
pub open spec fn lookup_covered(
    tuples: Seq<Vec<String>>,
    specs: Seq<EnrichmentSpec>,
    keys: Seq<CacheKey>,
    t: int,
    s: int,
) -> bool {
    exists|i: int| 0 <= i < keys.len() && #[trigger] lookup_for(tuples, specs, t, s, keys[i])
}

/// `k` is a lookup that some enrichment needs for some tuple.
pub open spec fn lookup_needed(
    tuples: Seq<Vec<String>>,
    specs: Seq<EnrichmentSpec>,
    k: CacheKey,
) -> bool {
    exists|t: int, s: int| #[trigger] lookup_for(tuples, specs, t, s, k)
}

/// Keys naming the same lookup serve the same needs.
proof fn lemma_same_key_serves(
    tuples: Seq<Vec<String>>,
    specs: Seq<EnrichmentSpec>,
    t: int,
    s: int,
    a: CacheKey,
    k: CacheKey,
)
    requires
        same_key(a, k),
        lookup_for(tuples, specs, t, s, k),
    ensures
        lookup_for(tuples, specs, t, s, a),
{
}

/// The distinct lookups needed for the tuples: one per column, value,
/// type and options, in order of first need.
pub fn unique_lookups(tuples: &Vec<Vec<String>>, specs: &Vec<EnrichmentSpec>) -> (r: Vec<
    CacheKey,
>)
    ensures
        forall|i: int, j: int|
            0 <= i < j < r@.len() ==> !same_key(#[trigger] r@[i], #[trigger] r@[j]),
        forall|i: int|
            0 <= i < r@.len() ==> lookup_needed(tuples@, specs@, #[trigger] r@[i]),
        forall|t: int, s: int|
            0 <= t < tuples@.len() && 0 <= s < specs@.len() && specs@[s].column
                < tuples@[t]@.len() ==> #[trigger] lookup_covered(tuples@, specs@, r@, t, s),
{
    let mut keys: Vec<CacheKey> = Vec::new();
    let mut t: usize = 0;
    while t < tuples.len()
        invariant
            t <= tuples@.len(),
            forall|i: int, j: int|
                0 <= i < j < keys@.len() ==> !same_key(#[trigger] keys@[i], #[trigger] keys@[j]),
            forall|i: int|
                0 <= i < keys@.len() ==> lookup_needed(tuples@, specs@, #[trigger] keys@[i]),
            forall|tt: int, ss: int|
                0 <= tt < t && 0 <= ss < specs@.len() && specs@[ss].column < tuples@[tt]@.len()
                    ==> #[trigger] lookup_covered(tuples@, specs@, keys@, tt, ss),
        decreases tuples@.len() - t,
    {
        let tuple = &tuples[t];
        let mut s: usize = 0;
        while s < specs.len()
            invariant
                t < tuples@.len(),
                *tuple == tuples@[t as int],
                s <= specs@.len(),
                forall|i: int, j: int|
                    0 <= i < j < keys@.len() ==> !same_key(#[trigger] keys@[i], #[trigger] keys@[j]),
                forall|i: int|
                    0 <= i < keys@.len() ==> lookup_needed(tuples@, specs@, #[trigger] keys@[i]),
                forall|tt: int, ss: int|
                    ((0 <= tt < t && 0 <= ss < specs@.len()) || (tt == t && 0 <= ss < s))
                        && specs@[ss].column < tuples@[tt]@.len() ==> #[trigger] lookup_covered(
                        tuples@,
                        specs@,
                        keys@,
                        tt,
                        ss,
                    ),
            decreases specs@.len() - s,
        {
            let spec = &specs[s];
            if spec.column < tuple.len() {
                let k = CacheKey::new(spec.column, tuple[spec.column].as_str(), spec);
                assert(lookup_for(tuples@, specs@, t as int, s as int, k));
                let ghost before = keys@;
                match key_position(&keys, &k) {
                    Some(p) => {
                        proof {
                            lemma_same_key_serves(tuples@, specs@, t as int, s as int, keys@[p as int], k);
                        }
                    },
                    None => {
                        keys.push(k);
                        proof {
                            assert(keys@[before.len() as int] == k);
                            assert forall|i: int, j: int|
                                0 <= i < j < keys@.len() implies !same_key(
                                #[trigger] keys@[i],
                                #[trigger] keys@[j],
                            ) by {
                                if j == keys@.len() - 1 {
                                    assert(keys@[i] == before[i]);
                                } else {
                                    assert(keys@[i] == before[i] && keys@[j] == before[j]);
                                }
                            }
                            assert forall|i: int|
                                0 <= i < keys@.len() implies lookup_needed(
                                tuples@,
                                specs@,
                                #[trigger] keys@[i],
                            ) by {
                                if i < before.len() {
                                    assert(keys@[i] == before[i]);
                                    let (tt, ss) = choose|tt: int, ss: int|
                                        lookup_for(tuples@, specs@, tt, ss, before[i]);
                                    assert(lookup_for(tuples@, specs@, tt, ss, keys@[i]));
                                } else {
                                    assert(lookup_for(tuples@, specs@, t as int, s as int, keys@[i]));
                                }
                            }
                            assert forall|tt: int, ss: int|
                                ((0 <= tt < t && 0 <= ss < specs@.len()) || (tt == t && 0 <= ss
                                    < s)) && specs@[ss].column < tuples@[tt]@.len() implies #[trigger]
                                lookup_covered(tuples@, specs@, keys@, tt, ss) by {
                                assert(lookup_covered(tuples@, specs@, before, tt, ss));
                                let i = choose|i: int|
                                    0 <= i < before.len() && #[trigger] lookup_for(
                                        tuples@,
                                        specs@,
                                        tt,
                                        ss,
                                        before[i],
                                    );
                                assert(keys@[i] == before[i]);
                            }
                        }
                    },
                }
                assert(lookup_covered(tuples@, specs@, keys@, t as int, s as int)) by {
                    if keys@.len() > before.len() {
                        assert(lookup_for(tuples@, specs@, t as int, s as int, keys@[before.len() as int]));
                    }
                }
            }
            s = s + 1;
        }
        t = t + 1;
    }
    keys
}

/// The outcome of one lookup: whether it succeeded.
pub struct LookupOutcome {
    pub key: CacheKey,
    pub success: bool,
}

/// Lookup `o` failed, and it is the one that enrichment `s`, under
/// `skip_tuple`, needs for `tuple`.
pub open spec fn skip_failure(
    tuple: Seq<String>,
    specs: Seq<EnrichmentSpec>,
    global: FailureMode,
    outcomes: Seq<LookupOutcome>,
    s: int,
    o: int,
) -> bool {
    &&& 0 <= s < specs.len()
    &&& 0 <= o < outcomes.len()
    &&& specs[s].column < tuple.len()
    &&& mode_of(specs[s], global) == FailureMode::SkipTuple
    &&& !outcomes[o].success
    &&& outcomes[o].key.column == specs[s].column
    &&& outcomes[o].key.key@ == tuple[specs[s].column as int]@
    &&& outcomes[o].key.enrichment_type == specs[s].enrichment_type
    &&& same_options(outcomes[o].key.options, specs[s].options)
}

/// A tuple is dropped when one of its lookups failed under `skip_tuple`.
pub open spec fn tuple_dropped(
    tuple: Seq<String>,
    specs: Seq<EnrichmentSpec>,
    global: FailureMode,
    outcomes: Seq<LookupOutcome>,
) -> bool {
    exists|s: int, o: int| #[trigger] skip_failure(tuple, specs, global, outcomes, s, o)
}

/// Whether a tuple is dropped from the results.
pub fn drop_tuple(
    tuple: &Vec<String>,
    specs: &Vec<EnrichmentSpec>,
    global: FailureMode,
    outcomes: &Vec<LookupOutcome>,
) -> (r: bool)
    ensures
        r == tuple_dropped(tuple@, specs@, global, outcomes@),
{
    let mut s: usize = 0;
    while s < specs.len()
        invariant
            s <= specs@.len(),
            forall|ss: int, o: int|
                0 <= ss < s ==> !#[trigger] skip_failure(tuple@, specs@, global, outcomes@, ss, o),
        decreases specs@.len() - s,
    {
        let spec = &specs[s];
        if spec.column < tuple.len() && effective_failure_mode(spec, global)
            == FailureMode::SkipTuple {
            let k = CacheKey::new(spec.column, tuple[spec.column].as_str(), spec);
            let mut o: usize = 0;
            while o < outcomes.len()
                invariant
                    s < specs@.len(),
                    *spec == specs@[s as int],
                    spec.column < tuple@.len(),
                    mode_of(*spec, global) == FailureMode::SkipTuple,
                    k.column == spec.column && k.key@ == tuple@[spec.column as int]@
                        && k.enrichment_type == spec.enrichment_type && same_options(
                        k.options,
                        spec.options,
                    ),
                    o <= outcomes@.len(),
                    forall|oo: int|
                        0 <= oo < o ==> !#[trigger] skip_failure(
                            tuple@,
                            specs@,
                            global,
                            outcomes@,
                            s as int,
                            oo,
                        ),
                decreases outcomes@.len() - o,
            {
                let failed_here = !outcomes[o].success && outcomes[o].key.same(&k);
                if failed_here {
                    assert(skip_failure(tuple@, specs@, global, outcomes@, s as int, o as int));
                    return true;
                }
                o = o + 1;
            }
            proof {
                assert forall|ss: int, oo: int|
                    0 <= ss < s + 1 implies !#[trigger] skip_failure(
                    tuple@,
                    specs@,
                    global,
                    outcomes@,
                    ss,
                    oo,
                ) by {
                    if ss == s && 0 <= oo < outcomes@.len() {
                        assert(!skip_failure(tuple@, specs@, global, outcomes@, s as int, oo));
                    }
                }
            }
        } else {
            proof {
                assert forall|ss: int, oo: int|
                    0 <= ss < s + 1 implies !#[trigger] skip_failure(
                    tuple@,
                    specs@,
                    global,
                    outcomes@,
                    ss,
                    oo,
                ) by {
                    if ss == s {
                        assert(specs@[ss] == *spec);
                    }
                }
            }
        }
        s = s + 1;
    }
    false
}

/// What one lookup gave: its data, or why it failed.
#[derive(Debug)]
pub struct EnrichmentResult {
    pub success: bool,
    pub data: Option<JsonValue>,
    pub error: Option<String>,
}

impl EnrichmentResult {
    /// A lookup that gave `data`.
    pub fn success(data: JsonValue) -> (r: EnrichmentResult)
        ensures
            r.success,
            r.data == Some(data),
            r.error is None,
    {
        EnrichmentResult { success: true, data: Some(data), error: None }
    }

    /// A lookup that failed with `msg`.
    pub fn error(msg: String) -> (r: EnrichmentResult)
        ensures
            !r.success,
            r.data is None,
            r.error == Some(msg),
    {
        EnrichmentResult { success: false, data: None, error: Some(msg) }
    }
}

// ---------------------------------------------------------------------------
// The arguments of `query_and_enrich`
// ---------------------------------------------------------------------------

/// What `query_and_enrich` does once its arguments are checked.
#[derive(Debug)]
pub struct EnrichRequest {
    /// The query, trimmed.
    pub query: String,
    pub enrichments: Vec<EnrichmentSpec>,
    pub extra_rules: Option<String>,
    pub extra_facts: Option<Vec<String>>,
    /// How many lookups may run at once: 1 to 20, 5 by default.
    pub max_parallel: usize,
    /// What a failed lookup does unless its enrichment says otherwise.
    pub on_failure: FailureMode,
}

/// The number of lookups at once: the `max_parallel` argument clamped to
/// `1..=20`, or 5.
pub open spec fn max_parallel_of(m: Seq<(String, JsonValue)>) -> usize {
    match lookup_member(m, "max_parallel"@) {
        Some(v) => match v.u64_of() {
            Some(n) => if n < 1 {
                1
            } else if n > 20 {
                20
            } else {
                n as usize
            },
            None => 5,
        },
        None => 5,
    }
}

/// The failure mode of the `on_failure` argument; `continue` when it is
/// absent or names none.
pub open spec fn global_failure_mode(m: Seq<(String, JsonValue)>) -> FailureMode {
    match member_text(m, "on_failure"@) {
        Some(t) => match failure_mode_of(t) {
            Some(f) => f,
            None => FailureMode::Continue,
        },
        None => FailureMode::Continue,
    }
}

/// Why the arguments of `query_and_enrich` are refused, if they are, before
/// any query or lookup: the query is required, then the enrichments, which
/// must read as a list of enrichments (`parsed`, the result of reading the
/// `enrichments` member) and not be empty.
pub open spec fn enrich_request_error(
    m: Seq<(String, JsonValue)>,
    parsed: Result<Seq<EnrichmentSpec>, Seq<char>>,
) -> Option<Seq<char>> {
    if member_text(m, "query"@) is None {
        Some("Missing required parameter: query"@)
    } else if lookup_member(m, "enrichments"@) is None {
        Some("Missing required parameter: enrichments"@)
    } else {
        match parsed {
            Err(e) => Some("Invalid enrichments: "@ + e),
            Ok(specs) => if specs.len() == 0 {
                Some("enrichments array cannot be empty"@)
            } else {
                None
            },
        }
    }
}

/// Check the arguments of `query_and_enrich`.  `parsed` is the
/// `enrichments` member read as a list of enrichments, or the reader's
/// error; it is looked at only when the query and that member are given.
pub fn enrich_request(
    arguments: &Vec<(String, JsonValue)>,
    parsed: Result<Vec<EnrichmentSpec>, String>,
) -> (r: Result<EnrichRequest, String>)
    ensures
        ({
            let pv = match parsed {
                Ok(v) => Ok(v@),
                Err(e) => Err(e@),
            };
            match r {
                Ok(q) => enrich_request_error(arguments@, pv) is None
                    && (member_text(arguments@, "query"@) matches Some(t) && q.query@ == crate::text::trim(t))
                    && parsed == Ok::<Vec<EnrichmentSpec>, String>(q.enrichments)
                    && string_opt_view(q.extra_rules) == member_text(arguments@, "extra_rules"@)
                    && (match q.extra_facts {
                        Some(v) => string_array(arguments@, "extra_facts"@) == Some(string_views(v@)),
                        None => string_array(arguments@, "extra_facts"@) is None,
                    })
                    && q.max_parallel == max_parallel_of(arguments@)
                    && q.on_failure == global_failure_mode(arguments@),
                Err(e) => enrich_request_error(arguments@, pv) == Some(e@),
            }
        }),
{
    let query = match member_str(arguments, "query") {
        Some(q) => q,
        None => {
            return Err(String::from_str("Missing required parameter: query"));
        },
    };
    if member(arguments, "enrichments").is_none() {
        return Err(String::from_str("Missing required parameter: enrichments"));
    }
    let enrichments = match parsed {
        Ok(v) => v,
        Err(e) => {
            let mut msg = String::from_str("Invalid enrichments: ");
            msg.append(e.as_str());
            return Err(msg);
        },
    };
    if enrichments.len() == 0 {
        return Err(String::from_str("enrichments array cannot be empty"));
    }
    let extra_rules = match member_str(arguments, "extra_rules") {
        Some(x) => Some(String::from_str(x)),
        None => None,
    };
    let extra_facts = match member(arguments, "extra_facts") {
        Some(v) => match v.as_array() {
            Some(a) => Some(crate::custom_tools::collect_strings(a)),
            None => None,
        },
        None => None,
    };
    let max_parallel: usize = match member(arguments, "max_parallel") {
        Some(v) => match v.as_u64() {
            Some(n) => if n < 1 {
                1
            } else if n > 20 {
                20
            } else {
                n as usize
            },
            None => 5,
        },
        None => 5,
    };
    let on_failure = match member_str(arguments, "on_failure") {
        Some(t) => match parse_failure_mode(t) {
            Some(f) => f,
            None => FailureMode::Continue,
        },
        None => FailureMode::Continue,
    };
    let v = crate::text::str_chars(query);
    let t = crate::text::trim_chars(&v);
    let trimmed = crate::text::string_from_chars(t.as_slice());
    Ok(EnrichRequest { query: trimmed, enrichments, extra_rules, extra_facts, max_parallel, on_failure })
}

// ---------------------------------------------------------------------------
// The response of `query_and_enrich`
// ---------------------------------------------------------------------------

/// Lookup `k` is one that enrichment `spec` makes: same column, type and
/// options.
pub open spec fn made_by(spec: EnrichmentSpec, k: CacheKey) -> bool {
    k.column == spec.column && k.enrichment_type == spec.enrichment_type && same_options(
        k.options,
        spec.options,
    )
}

/// The first enrichment from index `i` on that makes lookup `k`; the number
/// of enrichments when none does.
pub open spec fn first_maker(specs: Seq<EnrichmentSpec>, k: CacheKey, i: int) -> int
    decreases specs.len() - i,
{
    if i >= specs.len() {
        specs.len() as int
    } else if made_by(specs[i], k) {
        i
    } else {
        first_maker(specs, k, i + 1)
    }
}

/// Outcome `o` is a failure of a lookup whose enrichment says `halt` (the
/// first enrichment that makes the lookup decides).
pub open spec fn halts_at(
    specs: Seq<EnrichmentSpec>,
    global: FailureMode,
    outcomes: Seq<(CacheKey, EnrichmentResult)>,
    o: int,
) -> bool {
    !outcomes[o].1.success && mode_of(specs[first_maker(specs, outcomes[o].0, 0)], global)
        == FailureMode::Halt
}

/// The first outcome from index `i` on that halts; the number of outcomes
/// when none does.
pub open spec fn first_halt(
    specs: Seq<EnrichmentSpec>,
    global: FailureMode,
    outcomes: Seq<(CacheKey, EnrichmentResult)>,
    i: int,
) -> int
    decreases outcomes.len() - i,
{
    if i >= outcomes.len() {
        outcomes.len() as int
    } else if halts_at(specs, global, outcomes, i) {
        i
    } else {
        first_halt(specs, global, outcomes, i + 1)
    }
}

/// How many outcomes are taken, in arrival order: up to and including the
/// first that halts, or all of them.
pub open spec fn processed_count(
    specs: Seq<EnrichmentSpec>,
    global: FailureMode,
    outcomes: Seq<(CacheKey, EnrichmentResult)>,
) -> int {
    let h = first_halt(specs, global, outcomes, 0);
    if h < outcomes.len() {
        h + 1
    } else {
        outcomes.len() as int
    }
}

/// The indices of the failed outcomes among the first `n`, in order.
pub open spec fn failed_before(outcomes: Seq<(CacheKey, EnrichmentResult)>, n: int) -> Seq<usize>
    decreases n,
{
    if n <= 0 {
        Seq::empty()
    } else {
        failed_before(outcomes, n - 1) + if !outcomes[n - 1].1.success {
            seq![(n - 1) as usize]
        } else {
            Seq::empty()
        }
    }
}

/// Lookup `k` is the one enrichment `spec` makes for `tuple`.
pub open spec fn answers(tuple: Seq<String>, spec: EnrichmentSpec, k: CacheKey) -> bool {
    spec.column < tuple.len() && made_by(spec, k) && k.key@ == tuple[spec.column as int]@
}

/// The first of the taken outcomes, from index `i` on, that answers
/// enrichment `spec` for `tuple`; `p` when none does.
pub open spec fn first_answer(
    tuple: Seq<String>,
    spec: EnrichmentSpec,
    outcomes: Seq<(CacheKey, EnrichmentResult)>,
    p: int,
    i: int,
) -> int
    decreases p - i,
{
    if i >= p {
        p
    } else if answers(tuple, spec, outcomes[i].0) {
        i
    } else {
        first_answer(tuple, spec, outcomes, p, i + 1)
    }
}

/// Enrichment `s` failed for `tuple` under `skip_tuple`.
pub open spec fn skipped_by(
    tuple: Seq<String>,
    specs: Seq<EnrichmentSpec>,
    global: FailureMode,
    outcomes: Seq<(CacheKey, EnrichmentResult)>,
    p: int,
    s: int,
) -> bool {
    let o = first_answer(tuple, specs[s], outcomes, p, 0);
    0 <= s < specs.len() && mode_of(specs[s], global) == FailureMode::SkipTuple && o < p
        && !outcomes[o].1.success
}

/// A tuple is left out of the results: one of its enrichments failed under
/// `skip_tuple`.
pub open spec fn left_out(
    tuple: Seq<String>,
    specs: Seq<EnrichmentSpec>,
    global: FailureMode,
    outcomes: Seq<(CacheKey, EnrichmentResult)>,
    p: int,
) -> bool {
    exists|s: int| #[trigger] skipped_by(tuple, specs, global, outcomes, p, s)
}

/// The results of the first `n` enrichments for `tuple`: for each one with
/// a taken outcome, its column, its type and the outcome's index.
pub open spec fn tuple_results(
    tuple: Seq<String>,
    specs: Seq<EnrichmentSpec>,
    outcomes: Seq<(CacheKey, EnrichmentResult)>,
    p: int,
    n: int,
) -> Seq<(usize, EnrichmentType, usize)>
    decreases n,
{
    if n <= 0 {
        Seq::empty()
    } else {
        let o = first_answer(tuple, specs[n - 1], outcomes, p, 0);
        tuple_results(tuple, specs, outcomes, p, n - 1) + if o < p {
            seq![(specs[n - 1].column, specs[n - 1].enrichment_type, o as usize)]
        } else {
            Seq::empty()
        }
    }
}

/// No later result has the same column and type as result `i`.
pub open spec fn last_of_kind(es: Seq<(usize, EnrichmentType, usize)>, i: int) -> bool {
    forall|j: int| i < j < es.len() ==> !((#[trigger] es[j]).0 == es[i].0 && es[j].1 == es[i].1)
}

/// The first `n` results, keeping for each column and type only the last.
pub open spec fn last_per_kind(es: Seq<(usize, EnrichmentType, usize)>, n: int) -> Seq<
    (usize, EnrichmentType, usize),
>
    decreases n,
{
    if n <= 0 {
        Seq::empty()
    } else {
        last_per_kind(es, n - 1) + if last_of_kind(es, n - 1) {
            seq![es[n - 1]]
        } else {
            Seq::empty()
        }
    }
}

/// The enrichments reported for a tuple: by column and type, the outcome
/// of the last enrichment of that column and type that has one.
pub open spec fn reported_results(
    tuple: Seq<String>,
    specs: Seq<EnrichmentSpec>,
    outcomes: Seq<(CacheKey, EnrichmentResult)>,
    p: int,
) -> Seq<(usize, EnrichmentType, usize)> {
    let es = tuple_results(tuple, specs, outcomes, p, specs.len() as int);
    last_per_kind(es, es.len() as int)
}

/// The results for the first `n` tuples: each tuple not left out, by its
/// index, with its reported enrichments.
pub open spec fn enriched_tuples(
    tuples: Seq<Vec<String>>,
    specs: Seq<EnrichmentSpec>,
    global: FailureMode,
    outcomes: Seq<(CacheKey, EnrichmentResult)>,
    p: int,
    n: int,
) -> Seq<(usize, Seq<(usize, EnrichmentType, usize)>)>
    decreases n,
{
    if n <= 0 {
        Seq::empty()
    } else {
        enriched_tuples(tuples, specs, global, outcomes, p, n - 1) + if left_out(
            tuples[n - 1]@,
            specs,
            global,
            outcomes,
            p,
        ) {
            Seq::empty()
        } else {
            seq![((n - 1) as usize, reported_results(tuples[n - 1]@, specs, outcomes, p))]
        }
    }
}

/// One tuple of the response: its index among the query's tuples, and its
/// enrichments as column, type and the index of the outcome.
#[derive(Debug)]
pub struct EnrichedTuple {
    pub tuple: usize,
    pub enrichments: Vec<(usize, EnrichmentType, usize)>,
}

/// The response of `query_and_enrich` once the lookups are done; outcomes
/// are named by their index in arrival order.
#[derive(Debug)]
pub struct EnrichResponse {
    pub query: String,
    pub count: usize,
    pub results: Vec<EnrichedTuple>,
    /// The failed outcomes that were taken, in order.
    pub errors: Vec<usize>,
    pub unique_keys: usize,
    pub total_lookups: usize,
    pub halted: bool,
}

/// The enrichment that makes lookup `k`.
fn maker_of(specs: &Vec<EnrichmentSpec>, k: &CacheKey) -> (r: usize)
    ensures
        r == first_maker(specs@, *k, 0),
{
    let mut i: usize = specs.len();
    let mut r: usize = specs.len();
    while i > 0
        invariant
            i <= specs@.len(),
            r == first_maker(specs@, *k, i as int),
        decreases i,
    {
        let s = &specs[i - 1];
        let opts = s.options.limit == k.options.limit && s.options.depth == k.options.depth
            && match (&k.options.since, &s.options.since) {
            (Some(x), Some(y)) => str_eq(x.as_str(), y.as_str()),
            (None, None) => true,
            _ => false,
        };
        if k.column == s.column && k.enrichment_type == s.enrichment_type && opts {
            r = i - 1;
        }
        i = i - 1;
    }
    r
}

/// The first taken outcome that answers enrichment `spec` for `tuple`.
fn answer_of(
    tuple: &Vec<String>,
    spec: &EnrichmentSpec,
    outcomes: &Vec<(CacheKey, EnrichmentResult)>,
    p: usize,
) -> (r: usize)
    requires
        p <= outcomes@.len(),
    ensures
        r == first_answer(tuple@, *spec, outcomes@, p as int, 0),
{
    if spec.column >= tuple.len() {
        proof {
            lemma_no_answer(tuple@, *spec, outcomes@, p as int, 0);
        }
        return p;
    }
    let want = CacheKey::new(spec.column, tuple[spec.column].as_str(), spec);
    let mut i: usize = p;
    let mut r: usize = p;
    while i > 0
        invariant
            i <= p <= outcomes@.len(),
            spec.column < tuple@.len(),
            want.column == spec.column && want.key@ == tuple@[spec.column as int]@
                && want.enrichment_type == spec.enrichment_type && same_options(
                want.options,
                spec.options,
            ),
            r == first_answer(tuple@, *spec, outcomes@, p as int, i as int),
        decreases i,
    {
        if outcomes[i - 1].0.same(&want) {
            r = i - 1;
        }
        i = i - 1;
    }
    r
}

/// A column past the tuple's end gives no answer.
proof fn lemma_no_answer(
    tuple: Seq<String>,
    spec: EnrichmentSpec,
    outcomes: Seq<(CacheKey, EnrichmentResult)>,
    p: int,
    i: int,
)
    requires
        spec.column >= tuple.len(),
    ensures
        first_answer(tuple, spec, outcomes, p, i) == p,
    decreases p - i,
{
    if i < p {
        lemma_no_answer(tuple, spec, outcomes, p, i + 1);
    }
}

/// Whether a tuple is left out.
fn is_left_out(
    tuple: &Vec<String>,
    specs: &Vec<EnrichmentSpec>,
    global: FailureMode,
    outcomes: &Vec<(CacheKey, EnrichmentResult)>,
    p: usize,
) -> (r: bool)
    requires
        p <= outcomes@.len(),
    ensures
        r == left_out(tuple@, specs@, global, outcomes@, p as int),
{
    let mut s: usize = 0;
    while s < specs.len()
        invariant
            s <= specs@.len(),
            p <= outcomes@.len(),
            forall|j: int| 0 <= j < s ==> !#[trigger] skipped_by(tuple@, specs@, global, outcomes@, p as int, j),
        decreases specs@.len() - s,
    {
        if effective_failure_mode(&specs[s], global) == FailureMode::SkipTuple {
            let o = answer_of(tuple, &specs[s], outcomes, p);
            if o < p && !outcomes[o].1.success {
                assert(skipped_by(tuple@, specs@, global, outcomes@, p as int, s as int));
                return true;
            }
        }
        s = s + 1;
    }
    assert forall|j: int| !#[trigger] skipped_by(tuple@, specs@, global, outcomes@, p as int, j) by {
        if 0 <= j < specs@.len() {
        }
    }
    false
}

/// The enrichments reported for a tuple.
fn reported(
    tuple: &Vec<String>,
    specs: &Vec<EnrichmentSpec>,
    outcomes: &Vec<(CacheKey, EnrichmentResult)>,
    p: usize,
) -> (r: Vec<(usize, EnrichmentType, usize)>)
    requires
        p <= outcomes@.len(),
    ensures
        r@ == reported_results(tuple@, specs@, outcomes@, p as int),
{
    let mut es: Vec<(usize, EnrichmentType, usize)> = Vec::new();
    let mut s: usize = 0;
    while s < specs.len()
        invariant
            s <= specs@.len(),
            p <= outcomes@.len(),
            es@ == tuple_results(tuple@, specs@, outcomes@, p as int, s as int),
        decreases specs@.len() - s,
    {
        let o = answer_of(tuple, &specs[s], outcomes, p);
        if o < p {
            es.push((specs[s].column, specs[s].enrichment_type, o));
        }
        s = s + 1;
    }
    let mut out: Vec<(usize, EnrichmentType, usize)> = Vec::new();
    let mut i: usize = 0;
    while i < es.len()
        invariant
            i <= es@.len(),
            out@ == last_per_kind(es@, i as int),
        decreases es@.len() - i,
    {
        let mut last = true;
        let mut j: usize = i + 1;
        while j < es.len()
            invariant
                i < es@.len(),
                i + 1 <= j <= es@.len(),
                last == forall|m: int| i < m < j ==> !((#[trigger] es@[m]).0 == es@[i as int].0 && es@[m].1
                    == es@[i as int].1),
            decreases es@.len() - j,
        {
            if es[j].0 == es[i].0 && es[j].1 == es[i].1 {
                last = false;
            }
            j = j + 1;
        }
        assert(last == last_of_kind(es@, i as int));
        if last {
            out.push(es[i]);
        }
        i = i + 1;
    }
    out
}

/// The response of `query_and_enrich` from the query's tuples, the
/// enrichments, the global failure mode and the lookup outcomes in the
/// order they arrived: outcomes are taken up to and including the first
/// failure under `halt`; the taken failures are the errors; every tuple
/// not left out by a `skip_tuple` failure is reported with its taken
/// results by column and type.
pub fn enrich_response(
    query: &str,
    tuples: &Vec<Vec<String>>,
    specs: &Vec<EnrichmentSpec>,
    global: FailureMode,
    outcomes: &Vec<(CacheKey, EnrichmentResult)>,
) -> (r: EnrichResponse)
    requires
        tuples@.len() * specs@.len() <= usize::MAX,
        forall|o: int| 0 <= o < outcomes@.len() ==> first_maker(specs@, #[trigger] outcomes@[o].0, 0) < specs@.len(),
    ensures
        r.query@ == query@,
        r.halted == (first_halt(specs@, global, outcomes@, 0) < outcomes@.len()),
        r.errors@ == failed_before(outcomes@, processed_count(specs@, global, outcomes@)),
        r.results@.map_values(|e: EnrichedTuple| (e.tuple, e.enrichments@)) == enriched_tuples(
            tuples@,
            specs@,
            global,
            outcomes@,
            processed_count(specs@, global, outcomes@),
            tuples@.len() as int,
        ),
        r.count == r.results@.len(),
        r.unique_keys == outcomes@.len(),
        r.total_lookups == tuples@.len() * specs@.len(),
{
    let n = outcomes.len();
    let mut h: usize = n;
    let mut i: usize = n;
    while i > 0
        invariant
            i <= n == outcomes@.len(),
            h == first_halt(specs@, global, outcomes@, i as int),
            forall|o: int| 0 <= o < outcomes@.len() ==> first_maker(specs@, #[trigger] outcomes@[o].0, 0) < specs@.len(),
        decreases i,
    {
        if !outcomes[i - 1].1.success {
            let m = maker_of(specs, &outcomes[i - 1].0);
            assert(first_maker(specs@, outcomes@[i - 1].0, 0) < specs@.len());
            if effective_failure_mode(&specs[m], global) == FailureMode::Halt {
                h = i - 1;
            }
        }
        i = i - 1;
    }
    let halted = h < n;
    let p: usize = if h < n { h + 1 } else { n };
    let mut errors: Vec<usize> = Vec::new();
    let mut k: usize = 0;
    while k < p
        invariant
            k <= p <= n == outcomes@.len(),
            errors@ == failed_before(outcomes@, k as int),
        decreases p - k,
    {
        if !outcomes[k].1.success {
            errors.push(k);
        }
        k = k + 1;
    }
    let mut results: Vec<EnrichedTuple> = Vec::new();
    let mut t: usize = 0;
    while t < tuples.len()
        invariant
            t <= tuples@.len(),
            p <= outcomes@.len(),
            results@.map_values(|e: EnrichedTuple| (e.tuple, e.enrichments@)) == enriched_tuples(
                tuples@,
                specs@,
                global,
                outcomes@,
                p as int,
                t as int,
            ),
        decreases tuples@.len() - t,
    {
        let ghost before = results@;
        if !is_left_out(&tuples[t], specs, global, outcomes, p) {
            let e = reported(&tuples[t], specs, outcomes, p);
            results.push(EnrichedTuple { tuple: t, enrichments: e });
        }
        assert(results@.map_values(|e: EnrichedTuple| (e.tuple, e.enrichments@)) =~= enriched_tuples(
            tuples@,
            specs@,
            global,
            outcomes@,
            p as int,
            t + 1,
        ));
        t = t + 1;
    }
    let total = tuples.len() * specs.len();
    EnrichResponse {
        query: String::from_str(query),
        count: results.len(),
        results,
        errors,
        unique_keys: n,
        total_lookups: total,
        halted,
    }
}

/// An outcome found by `first_halt` halts.
proof fn lemma_first_halt_halts(
    specs: Seq<EnrichmentSpec>,
    global: FailureMode,
    outcomes: Seq<(CacheKey, EnrichmentResult)>,
    i: int,
)
    requires
        0 <= i,
        first_halt(specs, global, outcomes, i) < outcomes.len(),
    ensures
        i <= first_halt(specs, global, outcomes, i),
        halts_at(specs, global, outcomes, first_halt(specs, global, outcomes, i)),
    decreases outcomes.len() - i,
{
    if i < outcomes.len() && !halts_at(specs, global, outcomes, i) {
        lemma_first_halt_halts(specs, global, outcomes, i + 1);
    }
}

/// The failures among the first `n` outcomes lie before `n`.
proof fn lemma_failed_before_bound(outcomes: Seq<(CacheKey, EnrichmentResult)>, n: int)
    requires
        0 <= n <= usize::MAX,
    ensures
        forall|i: int| 0 <= i < failed_before(outcomes, n).len() ==> #[trigger] failed_before(outcomes, n)[i] < n,
    decreases n,
{
    if n > 0 {
        lemma_failed_before_bound(outcomes, n - 1);
        let prev = failed_before(outcomes, n - 1);
        let all = failed_before(outcomes, n);
        assert forall|i: int| 0 <= i < all.len() implies #[trigger] all[i] < n by {
            if i < prev.len() {
                assert(all[i] == prev[i]);
            } else {
                assert(all[i] == (n - 1) as usize);
            }
        }
    }
}

/// A halt stops the work: the failure that halts is the last error
/// reported, and every error comes before it.
pub proof fn law_halt_is_last_error(
    specs: Seq<EnrichmentSpec>,
    global: FailureMode,
    outcomes: Seq<(CacheKey, EnrichmentResult)>,
)
    requires
        outcomes.len() <= usize::MAX,
        first_halt(specs, global, outcomes, 0) < outcomes.len(),
    ensures
        ({
            let h = first_halt(specs, global, outcomes, 0);
            let errors = failed_before(outcomes, processed_count(specs, global, outcomes));
            &&& errors.len() > 0
            &&& errors.last() == h as usize
            &&& forall|i: int| 0 <= i < errors.len() ==> #[trigger] errors[i] <= h
        }),
{
    let h = first_halt(specs, global, outcomes, 0);
    lemma_first_halt_halts(specs, global, outcomes, 0);
    lemma_failed_before_bound(outcomes, h + 1);
}

/// An enrichment that sets its own failure mode gets exactly that mode,
/// whatever the global one; the global mode applies only to enrichments
/// that set none.
pub proof fn law_own_failure_mode_wins(spec: EnrichmentSpec, global: FailureMode)
    ensures
        forall|m: FailureMode| spec.on_failure == Some(m) ==> mode_of(spec, global) == m,
        spec.on_failure == None::<FailureMode> ==> mode_of(spec, global) == global,
{
}

/// When every enrichment says `continue`, no tuple is dropped, whatever the
/// global mode and whichever lookups failed.
pub proof fn law_continue_never_drops(
    tuple: Seq<String>,
    specs: Seq<EnrichmentSpec>,
    global: FailureMode,
    outcomes: Seq<LookupOutcome>,
    taken: Seq<(CacheKey, EnrichmentResult)>,
    p: int,
)
    requires
        forall|s: int| 0 <= s < specs.len() ==> (#[trigger] specs[s]).on_failure == Some(FailureMode::Continue),
    ensures
        !tuple_dropped(tuple, specs, global, outcomes),
        !left_out(tuple, specs, global, taken, p),
{
    assert forall|s: int, o: int| !#[trigger] skip_failure(tuple, specs, global, outcomes, s, o) by {
        if 0 <= s < specs.len() {
            assert(specs[s].on_failure == Some(FailureMode::Continue));
        }
    }
    assert forall|s: int| !#[trigger] skipped_by(tuple, specs, global, taken, p, s) by {
        if 0 <= s < specs.len() {
            assert(specs[s].on_failure == Some(FailureMode::Continue));
        }
    }
}

} // verus!
