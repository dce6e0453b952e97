//! Local secret storage for custom tools: the in-memory store and its
//! rules.  Secret values never leave the local machine; reading and
//! writing the secrets file happens outside the library.

use vstd::prelude::*;
use crate::text::{str_eq, str_chars, utf8_len};
use crate::strset::{
    string_views, keys_distinct, entries_map, lemma_entries_map_at, lemma_entries_map_push,
    lemma_entries_map_update, lemma_entries_map_remove,
};

verus! {

/// The prefix of the environment variables that carry secrets to tools.
pub open spec fn env_prefix() -> Seq<char> {
    "WINTER_SECRET_"@
}

/// Errors from secret management operations.
#[derive(Debug)]
pub enum SecretError {
    /// No secret has this name.
    NotFound(String),
    /// The name breaks the naming rules; the text says which.
    InvalidName(String),
}

/// The text of a secret error.
pub open spec fn secret_error_text(e: SecretError) -> Seq<char> {
    match e {
        SecretError::NotFound(n) => "secret not found: "@ + n@,
        SecretError::InvalidName(why) => "invalid secret name: "@ + why@,
    }
}

impl SecretError {
    /// The human-readable text of the error.
    pub fn message(&self) -> (r: String)
        ensures
            r@ == secret_error_text(*self),
    {
        match self {
            SecretError::NotFound(n) => {
                let mut m = String::from_str("secret not found: ");
                m.append(n.as_str());
                m
            },
            SecretError::InvalidName(why) => {
                let mut m = String::from_str("invalid secret name: ");
                m.append(why.as_str());
                m
            },
        }
    }
}

/// An ASCII letter or digit, or an underscore.
pub open spec fn name_char_ok(c: char) -> bool {
    ('0' <= c && c <= '9') || ('a' <= c && c <= 'z') || ('A' <= c && c <= 'Z') || c == '_'
}

/// Why a secret name is refused, if it is: it must be non-empty, at most
/// 64 bytes long, and made of ASCII letters, digits and underscores.
pub open spec fn name_problem(name: Seq<char>) -> Option<Seq<char>> {
    if name.len() == 0 {
        Some("name cannot be empty"@)
    } else if utf8_len(name) > 64 {
        Some("name too long (max 64 chars)"@)
    } else if !(forall|i: int| 0 <= i < name.len() ==> name_char_ok(#[trigger] name[i])) {
        Some("name must be alphanumeric with underscores only"@)
    } else {
        None
    }
}

/// Validate a secret name.
pub fn validate_name(name: &str) -> (r: Result<(), SecretError>)
    ensures
        match name_problem(name@) {
            None => r is Ok,
            Some(why) => r matches Err(SecretError::InvalidName(w)) && w@ == why,
        },
{
    let v = str_chars(name);
    if v.len() == 0 {
        return Err(SecretError::InvalidName(String::from_str("name cannot be empty")));
    }
    let nbytes = name.as_bytes().len();
    assert(nbytes == utf8_len(name@));
    if nbytes > 64 {
        return Err(SecretError::InvalidName(String::from_str("name too long (max 64 chars)")));
    }
    let mut i: usize = 0;
    while i < v.len()
        invariant
            i <= v@.len(),
            v@ == name@,
            name@.len() > 0,
            utf8_len(name@) <= 64,
            forall|k: int| 0 <= k < i ==> name_char_ok(#[trigger] v@[k]),
        decreases v@.len() - i,
    {
        let c = v[i];
        if !(('0' <= c && c <= '9') || ('a' <= c && c <= 'z') || ('A' <= c && c <= 'Z') || c
            == '_') {
            assert(!name_char_ok(name@[i as int]));
            return Err(
                SecretError::InvalidName(
                    String::from_str("name must be alphanumeric with underscores only"),
                ),
            );
        }
        i = i + 1;
    }
    Ok(())
}

/// Manager for local secret storage.  Only approved secrets are passed to
/// tools, through `get_subset`.
#[derive(Debug)]
pub struct SecretManager {
    secrets: Vec<(String, String)>,
}

impl View for SecretManager {
    type V = Map<Seq<char>, Seq<char>>;

    closed spec fn view(&self) -> Map<Seq<char>, Seq<char>> {
        entries_map(self.secrets@)
    }
}

impl SecretManager {
    /// Well-formedness: one entry per name.
    pub closed spec fn wf(&self) -> bool {
        keys_distinct(self.secrets@)
    }

    /// An empty store.
    pub fn new() -> (r: SecretManager)
        ensures
            r.wf(),
            r@ == Map::<Seq<char>, Seq<char>>::empty(),
    {
        let r = SecretManager { secrets: Vec::new() };
        assert(r@ =~= Map::<Seq<char>, Seq<char>>::empty());
        r
    }

    /// A store holding the given secrets (as loaded from the secrets file).
    pub fn from_secrets(secrets: Vec<(String, String)>) -> (r: SecretManager)
        requires
            keys_distinct(secrets@),
        ensures
            r.wf(),
            r@ == entries_map(secrets@),
    {
        SecretManager { secrets }
    }

    /// All entries, for persisting them.
    pub fn entries(&self) -> (r: &Vec<(String, String)>)
        requires
            self.wf(),
        ensures
            keys_distinct(r@),
            entries_map(r@) == self@,
    {
        &self.secrets
    }

    /// The position of the secret `name`, if any.
    fn find(&self, name: &str) -> (r: Option<usize>)
        requires
            self.wf(),
        ensures
            match r {
                Some(i) => i < self.secrets@.len() && self.secrets@[i as int].0@ == name@
                    && self@.contains_key(name@) && self@[name@] == self.secrets@[i as int].1@,
                None => !self@.contains_key(name@),
            },
    {
        let mut i: usize = 0;
        while i < self.secrets.len()
            invariant
                keys_distinct(self.secrets@),
                i <= self.secrets@.len(),
                forall|k: int| 0 <= k < i ==> self.secrets@[k].0@ != name@,
            decreases self.secrets@.len() - i,
        {
            if str_eq(self.secrets[i].0.as_str(), name) {
                proof {
                    lemma_entries_map_at(self.secrets@, i as int);
                }
                return Some(i);
            }
            i = i + 1;
        }
        None
    }

    /// Get a secret value by name.
    pub fn get(&self, name: &str) -> (r: Option<&str>)
        requires
            self.wf(),
        ensures
            match r {
                Some(v) => self@.contains_key(name@) && v@ == self@[name@],
                None => !self@.contains_key(name@),
            },
    {
        match self.find(name) {
            Some(i) => Some(self.secrets[i].1.as_str()),
            None => None,
        }
    }

    /// Check if a secret exists.
    pub fn has(&self, name: &str) -> (r: bool)
        requires
            self.wf(),
        ensures
            r == self@.contains_key(name@),
    {
        self.find(name).is_some()
    }

    /// Set a secret value, after validating the name.
    pub fn set(&mut self, name: &str, value: &str) -> (r: Result<(), SecretError>)
        requires
            old(self).wf(),
        ensures
            final(self).wf(),
            match name_problem(name@) {
                None => r is Ok && final(self)@ == old(self)@.insert(name@, value@),
                Some(why) => r matches Err(SecretError::InvalidName(w)) && w@ == why
                    && final(self)@ == old(self)@,
            },
    {
        match validate_name(name) {
            Err(e) => {
                return Err(e);
            },
            Ok(()) => {},
        }
        let entry = (String::from_str(name), String::from_str(value));
        match self.find(name) {
            Some(i) => {
                proof {
                    lemma_entries_map_update(self.secrets@, i as int, entry);
                }
                self.secrets.set(i, entry);
            },
            None => {
                proof {
                    lemma_entries_map_push(self.secrets@, entry);
                }
                self.secrets.push(entry);
            },
        }
        Ok(())
    }

    /// Delete a secret.
    pub fn delete(&mut self, name: &str) -> (r: Result<(), SecretError>)
        requires
            old(self).wf(),
        ensures
            final(self).wf(),
            old(self)@.contains_key(name@) ==> (r is Ok && final(self)@ == old(self)@.remove(name@)),
            !old(self)@.contains_key(name@) ==> (r matches Err(SecretError::NotFound(n)) && n@
                == name@) && final(self)@ == old(self)@,
    {
        match self.find(name) {
            Some(i) => {
                proof {
                    lemma_entries_map_remove(self.secrets@, i as int);
                }
                self.secrets.remove(i);
                Ok(())
            },
            None => Err(SecretError::NotFound(String::from_str(name))),
        }
    }

    /// List all secret names, each once.
    pub fn list_names(&self) -> (r: Vec<String>)
        requires
            self.wf(),
        ensures
            string_views(r@).no_duplicates(),
            string_views(r@).to_set() == self@.dom(),
    {
        let mut out: Vec<String> = Vec::new();
        let mut i: usize = 0;
        while i < self.secrets.len()
            invariant
                keys_distinct(self.secrets@),
                i <= self.secrets@.len(),
                out@.len() == i,
                forall|k: int| 0 <= k < i ==> (#[trigger] string_views(out@)[k]) == self.secrets@[k].0@,
            decreases self.secrets@.len() - i,
        {
            let ghost before = out@;
            out.push(self.secrets[i].0.clone());
            assert(out@ == before.push(self.secrets@[i as int].0));
            assert forall|k: int| 0 <= k < i + 1 implies (#[trigger] string_views(out@)[k])
                == self.secrets@[k].0@ by {
                if k < i {
                    assert(out@[k] == before[k]);
                    assert(string_views(before)[k] == self.secrets@[k].0@);
                } else {
                    assert(out@[k] == self.secrets@[k].0);
                }
            }
            i = i + 1;
        }
        proof {
            let sv = string_views(out@);
            assert forall|x: Seq<char>| sv.to_set().contains(x) <==> self@.dom().contains(x) by {
                if sv.contains(x) {
                    let k = choose|k: int| 0 <= k < sv.len() && sv[k] == x;
                    assert(sv[k] == self.secrets@[k].0@);
                }
                if self@.dom().contains(x) {
                    let k = choose|k: int|
                        0 <= k < self.secrets@.len() && self.secrets@[k].0@ == x;
                    assert(sv[k] == x);
                }
            }
            assert(sv.to_set() =~= self@.dom());
        }
        out
    }

    /// The requested secrets that exist, each under its environment
    /// variable name `WINTER_SECRET_<name>`.
    pub fn get_subset(&self, names: &[String]) -> (r: Vec<(String, String)>)
        requires
            self.wf(),
        ensures
            keys_distinct(r@),
            forall|k: Seq<char>|
                #![trigger entries_map(r@).contains_key(k)]
                entries_map(r@).contains_key(k) <==> exists|n: Seq<char>|
                    #![trigger self@.contains_key(n)]
                    string_views(names@).contains(n) && self@.contains_key(n) && k == env_prefix()
                        + n,
            forall|n: Seq<char>|
                #![trigger self@.contains_key(n)]
                string_views(names@).contains(n) && self@.contains_key(n) ==> entries_map(
                    r@,
                )[env_prefix() + n] == self@[n],
    {
        let mut out: Vec<(String, String)> = Vec::new();
        let mut i: usize = 0;
        proof {
            reveal_strlit("WINTER_SECRET_");
        }
        assert(entries_map(out@) =~= Map::<Seq<char>, Seq<char>>::empty());
        while i < names.len()
            invariant
                self.wf(),
                i <= names@.len(),
                keys_distinct(out@),
                forall|k: Seq<char>|
                    #![trigger entries_map(out@).contains_key(k)]
                    entries_map(out@).contains_key(k) <==> exists|n: Seq<char>|
                        #![trigger self@.contains_key(n)]
                        string_views(names@).take(i as int).contains(n) && self@.contains_key(n)
                            && k == env_prefix() + n,
                forall|n: Seq<char>|
                    #![trigger self@.contains_key(n)]
                    string_views(names@).take(i as int).contains(n) && self@.contains_key(n)
                        ==> entries_map(out@)[env_prefix() + n] == self@[n],
            decreases names@.len() - i,
        {
            let name = &names[i];
            let ghost nv = name@;
            let ghost before = out@;
            let ghost taken = string_views(names@).take(i as int);
            let ghost taken1 = string_views(names@).take(i + 1);
            assert(taken1 =~= taken.push(nv));
            match self.get(name.as_str()) {
                Some(value) => {
                    let mut env_name = String::from_str("WINTER_SECRET_");
                    env_name.append(name.as_str());
                    let ghost key = env_name@;
                    let entry = (env_name, String::from_str(value));
                    match position_of_key(&out, entry.0.as_str()) {
                        Some(j) => {
                            proof {
                                lemma_entries_map_update(out@, j as int, entry);
                            }
                            out.set(j, entry);
                        },
                        None => {
                            proof {
                                lemma_entries_map_push(out@, entry);
                            }
                            out.push(entry);
                        },
                    }
                    proof {
                        assert forall|k: Seq<char>|
                            #![trigger entries_map(out@).contains_key(k)]
                            entries_map(out@).contains_key(k) <==> exists|n: Seq<char>|
                                #![trigger self@.contains_key(n)]
                                taken1.contains(n) && self@.contains_key(n) && k == env_prefix()
                                    + n by {
                            if k == key {
                                assert(taken1[i as int] == nv);
                                assert(taken1.contains(nv) && self@.contains_key(nv));
                            } else if entries_map(before).contains_key(k) {
                                let n = choose|n: Seq<char>|
                                    taken.contains(n) && self@.contains_key(n) && k == env_prefix()
                                        + n;
                                assert(taken1.contains(n));
                            }
                            if exists|n: Seq<char>|
                                taken1.contains(n) && self@.contains_key(n) && k == env_prefix()
                                    + n {
                                let n = choose|n: Seq<char>|
                                    taken1.contains(n) && self@.contains_key(n) && k == env_prefix()
                                        + n;
                                if n != nv {
                                    let q = choose|q: int| 0 <= q < taken1.len() && taken1[q] == n;
                                    assert(taken[q] == n);
                                    assert(taken.contains(n));
                                }
                            }
                        }
                        assert forall|n: Seq<char>|
                            #![trigger self@.contains_key(n)]
                            taken1.contains(n) && self@.contains_key(n) implies entries_map(
                                out@,
                            )[env_prefix() + n] == self@[n] by {
                            if n != nv {
                                let q = choose|q: int| 0 <= q < taken1.len() && taken1[q] == n;
                                assert(taken[q] == n);
                                lemma_prefix_injective(n, nv);
                            }
                        }
                    }
                },
                None => {
                    proof {
                        assert forall|k: Seq<char>|
                            #![trigger entries_map(out@).contains_key(k)]
                            entries_map(out@).contains_key(k) <==> exists|n: Seq<char>|
                                #![trigger self@.contains_key(n)]
                                taken1.contains(n) && self@.contains_key(n) && k == env_prefix()
                                    + n by {
                            if entries_map(out@).contains_key(k) {
                                let n = choose|n: Seq<char>|
                                    taken.contains(n) && self@.contains_key(n) && k == env_prefix()
                                        + n;
                                assert(taken1.contains(n));
                            }
                            if exists|n: Seq<char>|
                                taken1.contains(n) && self@.contains_key(n) && k == env_prefix()
                                    + n {
                                let n = choose|n: Seq<char>|
                                    taken1.contains(n) && self@.contains_key(n) && k == env_prefix()
                                        + n;
                                let q = choose|q: int| 0 <= q < taken1.len() && taken1[q] == n;
                                assert(n != nv);
                                assert(taken[q] == n);
                            }
                        }
                        assert forall|n: Seq<char>|
                            #![trigger self@.contains_key(n)]
                            taken1.contains(n) && self@.contains_key(n) implies entries_map(
                                out@,
                            )[env_prefix() + n] == self@[n] by {
                            let q = choose|q: int| 0 <= q < taken1.len() && taken1[q] == n;
                            assert(n != nv);
                            assert(taken[q] == n);
                        }
                    }
                },
            }
            i = i + 1;
        }
        assert(string_views(names@).take(i as int) =~= string_views(names@));
        out
    }
}

/// Different names give different environment variable names.
proof fn lemma_prefix_injective(a: Seq<char>, b: Seq<char>)
    requires
        a != b,
    ensures
        env_prefix() + a != env_prefix() + b,
{
    reveal_strlit("WINTER_SECRET_");
    let p = env_prefix();
    assert((p + a).subrange(p.len() as int, (p + a).len() as int) =~= a);
    assert((p + b).subrange(p.len() as int, (p + b).len() as int) =~= b);
}

/// The position of the entry with `key`, if any.
fn position_of_key(v: &Vec<(String, String)>, key: &str) -> (r: Option<usize>)
    ensures
        match r {
            Some(i) => i < v@.len() && v@[i as int].0@ == key@,
            None => !entries_map(v@).contains_key(key@),
        },
{
    let mut i: usize = 0;
    while i < v.len()
        invariant
            i <= v@.len(),
            forall|k: int| 0 <= k < i ==> v@[k].0@ != key@,
        decreases v@.len() - i,
    {
        if str_eq(v[i].0.as_str(), key) {
            return Some(i);
        }
        i = i + 1;
    }
    None
}

/// A secret that was set is read back; setting it again replaces it.
pub proof fn law_get_after_set(m: Map<Seq<char>, Seq<char>>, name: Seq<char>, value: Seq<char>)
    ensures
        m.insert(name, value).contains_key(name),
        m.insert(name, value)[name] == value,
{
}

/// A deleted secret is gone; the others stay.
pub proof fn law_delete_removes(m: Map<Seq<char>, Seq<char>>, name: Seq<char>, other: Seq<char>)
    requires
        other != name,
    ensures
        !m.remove(name).contains_key(name),
        m.remove(name).contains_key(other) == m.contains_key(other),
{
}

} // verus!
