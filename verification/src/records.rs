//! Small rules about records: record keys of AT URIs and directive kinds.

use vstd::prelude::*;
use crate::text::{str_eq, str_chars, last_before, rfind_char};

verus! {

/// The text after the last `/` of a URI (the whole URI without one).
pub open spec fn rkey_of(uri: Seq<char>) -> Seq<char> {
    let k = last_before(uri, '/', uri.len() as int);
    uri.subrange(k + 1, uri.len() as int)
}

/// Extract the record key from an AT URI: the text after its last `/`.
pub fn extract_rkey(uri: &str) -> (r: String)
    ensures
        r@ == rkey_of(uri@),
{
    let v = str_chars(uri);
    let start: usize = match rfind_char(&v, '/') {
        Some(k) => k + 1,
        None => 0,
    };
    String::from_str(uri.substring_char(start, v.len()))
}

/// The kind of a directive, an element of the agent's identity.
#[derive(Debug, Clone, Copy, PartialEq, Eq, Structural)]
pub enum DirectiveKind {
    Value,
    Interest,
    Belief,
    Guideline,
    SelfConcept,
    Boundary,
    Aspiration,
}

/// The kind named by a string, in its snake-case form.
pub open spec fn directive_kind_of(s: Seq<char>) -> Option<DirectiveKind> {
    if s == "value"@ {
        Some(DirectiveKind::Value)
    } else if s == "interest"@ {
        Some(DirectiveKind::Interest)
    } else if s == "belief"@ {
        Some(DirectiveKind::Belief)
    } else if s == "guideline"@ {
        Some(DirectiveKind::Guideline)
    } else if s == "self_concept"@ {
        Some(DirectiveKind::SelfConcept)
    } else if s == "boundary"@ {
        Some(DirectiveKind::Boundary)
    } else if s == "aspiration"@ {
        Some(DirectiveKind::Aspiration)
    } else {
        None
    }
}

/// Parse a directive kind from its name.
pub fn parse_directive_kind(s: &str) -> (r: Option<DirectiveKind>)
    ensures
        r == directive_kind_of(s@),
{
    if str_eq(s, "value") {
        Some(DirectiveKind::Value)
    } else if str_eq(s, "interest") {
        Some(DirectiveKind::Interest)
    } else if str_eq(s, "belief") {
        Some(DirectiveKind::Belief)
    } else if str_eq(s, "guideline") {
        Some(DirectiveKind::Guideline)
    } else if str_eq(s, "self_concept") {
        Some(DirectiveKind::SelfConcept)
    } else if str_eq(s, "boundary") {
        Some(DirectiveKind::Boundary)
    } else if str_eq(s, "aspiration") {
        Some(DirectiveKind::Aspiration)
    } else {
        None
    }
}

/// The snake-case name of a directive kind.
pub open spec fn directive_kind_name(k: DirectiveKind) -> Seq<char> {
    match k {
        DirectiveKind::Value => "value"@,
        DirectiveKind::Interest => "interest"@,
        DirectiveKind::Belief => "belief"@,
        DirectiveKind::Guideline => "guideline"@,
        DirectiveKind::SelfConcept => "self_concept"@,
        DirectiveKind::Boundary => "boundary"@,
        DirectiveKind::Aspiration => "aspiration"@,
    }
}

impl DirectiveKind {
    /// The snake-case name of the kind.
    pub fn name(&self) -> (r: &'static str)
        ensures
            r@ == directive_kind_name(*self),
    {
        match self {
            DirectiveKind::Value => "value",
            DirectiveKind::Interest => "interest",
            DirectiveKind::Belief => "belief",
            DirectiveKind::Guideline => "guideline",
            DirectiveKind::SelfConcept => "self_concept",
            DirectiveKind::Boundary => "boundary",
            DirectiveKind::Aspiration => "aspiration",
        }
    }
}

/// A kind's name parses back to the kind.
pub proof fn law_directive_kind_round_trip(k: DirectiveKind)
    ensures
        directive_kind_of(directive_kind_name(k)) == Some(k),
{
    reveal_strlit("value");
    reveal_strlit("interest");
    reveal_strlit("belief");
    reveal_strlit("guideline");
    reveal_strlit("self_concept");
    reveal_strlit("boundary");
    reveal_strlit("aspiration");
    assert("interest"@[0] != "value"@[0]);
    assert("belief"@[0] != "value"@[0] && "belief"@[0] != "interest"@[0]);
    assert("guideline"@[0] != "value"@[0] && "guideline"@[0] != "interest"@[0] && "guideline"@[0]
        != "belief"@[0]);
    assert("self_concept"@[0] != "value"@[0] && "self_concept"@[0] != "interest"@[0]
        && "self_concept"@[0] != "belief"@[0] && "self_concept"@[0] != "guideline"@[0]);
    assert("boundary"@[0] != "value"@[0] && "boundary"@[0] != "interest"@[0] && "boundary"@[1]
        != "belief"@[1] && "boundary"@[0] != "guideline"@[0] && "boundary"@[0]
        != "self_concept"@[0]);
    assert("aspiration"@[0] != "value"@[0] && "aspiration"@[0] != "interest"@[0]
        && "aspiration"@[0] != "belief"@[0] && "aspiration"@[0] != "guideline"@[0]
        && "aspiration"@[0] != "self_concept"@[0] && "aspiration"@[0] != "boundary"@[0]);
}

} // verus!
