//! Raw record access and where a DID's records live: the checks on the
//! arguments of the raw PDS tools, the URL of a DID document, the PDS
//! endpoint that a document names, and whether an approval found on the
//! operator's PDS is taken.

use vstd::prelude::*;
use crate::text::{has_prefix, str_starts_with, str_eq};
use crate::json::{JsonValue, lookup_member, member, member_text, member_str, string_opt};
use crate::custom_tools::take_member;

verus! {

// ---------------------------------------------------------------------------
// Arguments of the raw record tools
// ---------------------------------------------------------------------------

/// The page size asked for: the `limit` argument clamped to `1..=100`, or
/// 50 without one.
pub open spec fn list_limit_of(m: Seq<(String, JsonValue)>) -> u32 {
    match lookup_member(m, "limit"@) {
        Some(v) => match v.u64_of() {
            Some(l) => if l < 1 {
                1
            } else if l > 100 {
                100
            } else {
                l as u32
            },
            None => 50,
        },
        None => 50,
    }
}

/// What `pds_list_records` asks the PDS for.
#[derive(Debug)]
pub struct ListRequest {
    pub collection: String,
    pub limit: u32,
    pub cursor: Option<String>,
}

/// Check the arguments of `pds_list_records`: a collection is required;
/// the page size and the cursor are optional.
pub fn pds_list_request(arguments: &Vec<(String, JsonValue)>) -> (r: Result<ListRequest, String>)
    ensures
        match r {
            Ok(q) => member_text(arguments@, "collection"@) == Some(q.collection@) && q.limit == list_limit_of(
                arguments@,
            ) && string_opt(q.cursor) == member_text(arguments@, "cursor"@),
            Err(e) => member_text(arguments@, "collection"@) is None && e@
                == "Missing required parameter: collection"@,
        },
{
    let collection = match member_str(arguments, "collection") {
        Some(c) => String::from_str(c),
        None => {
            return Err(String::from_str("Missing required parameter: collection"));
        },
    };
    let limit: u32 = match member(arguments, "limit") {
        Some(v) => match v.as_u64() {
            Some(l) => if l < 1 {
                1
            } else if l > 100 {
                100
            } else {
                l as u32
            },
            None => 50,
        },
        None => 50,
    };
    let cursor = match member_str(arguments, "cursor") {
        Some(c) => Some(String::from_str(c)),
        None => None,
    };
    Ok(ListRequest { collection, limit, cursor })
}

/// Why the arguments naming one record are refused, if they are.
pub open spec fn record_target_error(m: Seq<(String, JsonValue)>) -> Option<Seq<char>> {
    if member_text(m, "collection"@) is None {
        Some("Missing required parameter: collection"@)
    } else if member_text(m, "rkey"@) is None {
        Some("Missing required parameter: rkey"@)
    } else {
        None
    }
}

/// The collection and record key that `pds_get_record` and
/// `pds_delete_record` act on.
pub fn pds_record_target(arguments: &Vec<(String, JsonValue)>) -> (r: Result<(String, String), String>)
    ensures
        match r {
            Ok((c, k)) => record_target_error(arguments@) is None && member_text(arguments@, "collection"@)
                == Some(c@) && member_text(arguments@, "rkey"@) == Some(k@),
            Err(e) => record_target_error(arguments@) == Some(e@),
        },
{
    let collection = match member_str(arguments, "collection") {
        Some(c) => String::from_str(c),
        None => {
            return Err(String::from_str("Missing required parameter: collection"));
        },
    };
    let rkey = match member_str(arguments, "rkey") {
        Some(k) => String::from_str(k),
        None => {
            return Err(String::from_str("Missing required parameter: rkey"));
        },
    };
    Ok((collection, rkey))
}

/// Why the arguments of `pds_put_record` are refused, if they are.
pub open spec fn put_request_error(m: Seq<(String, JsonValue)>) -> Option<Seq<char>> {
    match record_target_error(m) {
        Some(e) => Some(e),
        None => match lookup_member(m, "record"@) {
            Some(JsonValue::Object(_)) => None,
            Some(_) => Some("Parameter 'record' must be an object"@),
            None => Some("Missing required parameter: record"@),
        },
    }
}

/// The collection, record key and record (an object) that
/// `pds_put_record` writes.
pub fn pds_put_request(arguments: Vec<(String, JsonValue)>) -> (r: Result<(String, String, JsonValue), String>)
    ensures
        match r {
            Ok((c, k, v)) => put_request_error(arguments@) is None && member_text(arguments@, "collection"@)
                == Some(c@) && member_text(arguments@, "rkey"@) == Some(k@) && lookup_member(
                arguments@,
                "record"@,
            ) == Some(v),
            Err(e) => put_request_error(arguments@) == Some(e@),
        },
{
    let (collection, rkey) = match pds_record_target(&arguments) {
        Ok(t) => t,
        Err(e) => {
            return Err(e);
        },
    };
    let mut m = arguments;
    match take_member(&mut m, "record") {
        Some(v) => match v {
            JsonValue::Object(_) => Ok((collection, rkey, v)),
            _ => Err(String::from_str("Parameter 'record' must be an object")),
        },
        None => Err(String::from_str("Missing required parameter: record")),
    }
}

// ---------------------------------------------------------------------------
// Where a DID's records live
// ---------------------------------------------------------------------------

/// The URL of the DID document of `did`: the PLC directory for `did:plc:`,
/// the well-known path of the domain for `did:web:`; none for other
/// methods.
pub open spec fn did_document_url_spec(did: Seq<char>) -> Option<Seq<char>> {
    if has_prefix(did, "did:plc:"@) {
        Some("https://plc.directory/"@ + did)
    } else if has_prefix(did, "did:web:"@) {
        Some("https://"@ + did.skip(8) + "/.well-known/did.json"@)
    } else {
        None
    }
}

/// The URL of the DID document of `did`, where its method has one.
pub fn did_document_url(did: &str) -> (r: Option<String>)
    ensures
        match r {
            Some(u) => did_document_url_spec(did@) == Some(u@),
            None => did_document_url_spec(did@) is None,
        },
{
    if str_starts_with(did, "did:plc:") {
        let mut u = String::from_str("https://plc.directory/");
        u.append(did);
        Some(u)
    } else if str_starts_with(did, "did:web:") {
        proof {
            reveal_strlit("did:web:");
        }
        let n = did.unicode_len();
        let domain = did.substring_char(8, n);
        assert(domain@ == did@.skip(8));
        let mut u = String::from_str("https://");
        u.append(domain);
        u.append("/.well-known/did.json");
        Some(u)
    } else {
        None
    }
}

/// `s` without the `/` characters at its end.
pub open spec fn trim_trailing_slashes(s: Seq<char>) -> Seq<char>
    decreases s.len(),
{
    if s.len() > 0 && s.last() == '/' {
        trim_trailing_slashes(s.drop_last())
    } else {
        s
    }
}

/// The endpoint of the first service of type `AtprotoPersonalDataServer`,
/// without trailing slashes.  A service before it without a string type
/// ends the search with nothing, as does a PDS service without a string
/// endpoint.
pub open spec fn endpoint_from(services: Seq<JsonValue>) -> Option<Seq<char>>
    decreases services.len(),
{
    if services.len() == 0 {
        None
    } else {
        match services[0].field("type"@) {
            Some(JsonValue::String(t)) => if t@ == "AtprotoPersonalDataServer"@ {
                match services[0].field("serviceEndpoint"@) {
                    Some(JsonValue::String(e)) => Some(trim_trailing_slashes(e@)),
                    _ => None,
                }
            } else {
                endpoint_from(services.drop_first())
            },
            _ => None,
        }
    }
}

/// The PDS endpoint that a DID document names in its `service` array.
pub open spec fn pds_endpoint_spec(doc: JsonValue) -> Option<Seq<char>> {
    match doc.field("service"@) {
        Some(JsonValue::Array(a)) => endpoint_from(a@),
        _ => None,
    }
}

fn trim_slashes(s: &str) -> (r: String)
    ensures
        r@ == trim_trailing_slashes(s@),
{
    let mut n = s.unicode_len();
    assert(s@.subrange(0, n as int) =~= s@);
    while n > 0 && s.get_char(n - 1) == '/'
        invariant
            n <= s@.len(),
            trim_trailing_slashes(s@) == trim_trailing_slashes(s@.subrange(0, n as int)),
        decreases n,
    {
        assert(s@.subrange(0, n as int).drop_last() =~= s@.subrange(0, n - 1));
        n = n - 1;
    }
    assert(n > 0 ==> s@.subrange(0, n as int).last() == s@[n - 1]);
    String::from_str(s.substring_char(0, n))
}

/// The PDS endpoint that a DID document names, without trailing slashes.
pub fn pds_endpoint(doc: &JsonValue) -> (r: Option<String>)
    ensures
        match r {
            Some(e) => pds_endpoint_spec(*doc) == Some(e@),
            None => pds_endpoint_spec(*doc) is None,
        },
{
    let services = match doc.get("service") {
        Some(JsonValue::Array(a)) => a,
        _ => {
            return None;
        },
    };
    let mut i: usize = 0;
    assert(services@.skip(0) =~= services@);
    while i < services.len()
        invariant
            i <= services@.len(),
            pds_endpoint_spec(*doc) == endpoint_from(services@.skip(i as int)),
        decreases services.len() - i,
    {
        let s = &services[i];
        assert(services@.skip(i as int)[0] == services@[i as int]);
        assert(services@.skip(i as int).drop_first() =~= services@.skip(i + 1));
        let t = match s.get("type") {
            Some(JsonValue::String(t)) => t,
            _ => {
                return None;
            },
        };
        if str_eq(t.as_str(), "AtprotoPersonalDataServer") {
            return match s.get("serviceEndpoint") {
                Some(JsonValue::String(e)) => Some(trim_slashes(e.as_str())),
                _ => None,
            };
        }
        i = i + 1;
    }
    None
}

/// The public `getRecord` URL of record `rkey` of `collection` in the
/// repository of `repo`, on the PDS at `pds_url`.
pub open spec fn get_record_url_spec(pds_url: Seq<char>, repo: Seq<char>, collection: Seq<char>, rkey: Seq<char>) -> Seq<char> {
    pds_url + "/xrpc/com.atproto.repo.getRecord?repo="@ + repo + "&collection="@ + collection + "&rkey="@ + rkey
}

/// The public `getRecord` URL of a record.
pub fn get_record_url(pds_url: &str, repo: &str, collection: &str, rkey: &str) -> (r: String)
    ensures
        r@ == get_record_url_spec(pds_url@, repo@, collection@, rkey@),
{
    let mut u = String::from_str(pds_url);
    u.append("/xrpc/com.atproto.repo.getRecord?repo=");
    u.append(repo);
    u.append("&collection=");
    u.append(collection);
    u.append("&rkey=");
    u.append(rkey);
    u
}

/// The URL that fetches the approval of tool `rkey` from the operator's
/// PDS.
pub fn operator_approval_url(pds_url: &str, operator_did: &str, tool_rkey: &str) -> (r: String)
    ensures
        r@ == get_record_url_spec(pds_url@, operator_did@, "diy.razorgirl.winter.toolApproval"@, tool_rkey@),
{
    get_record_url(pds_url, operator_did, "diy.razorgirl.winter.toolApproval", tool_rkey)
}

/// The URL that fetches custom tool `rkey` of another agent `did` from its
/// PDS, for a chained call to a remote tool.
pub fn remote_tool_url(pds_url: &str, did: &str, rkey: &str) -> (r: String)
    ensures
        r@ == get_record_url_spec(pds_url@, did@, "diy.razorgirl.winter.tool"@, rkey@),
{
    get_record_url(pds_url, did, "diy.razorgirl.winter.tool", rkey)
}

/// An approval from the operator's PDS is taken unless it is bound to
/// another agent: its `winter_did`, where it has one, must be this agent's
/// DID, where that is known.
pub open spec fn operator_approval_taken(winter_did: Option<Seq<char>>, our_did: Option<Seq<char>>) -> bool {
    match (winter_did, our_did) {
        (Some(w), Some(o)) => w == o,
        _ => true,
    }
}

/// Whether an approval found on the operator's PDS is taken; when it is
/// not, the agent's own PDS is asked instead.
pub fn accept_operator_approval(winter_did: Option<&str>, our_did: Option<&str>) -> (r: bool)
    ensures
        r == operator_approval_taken(
            match winter_did {
                Some(w) => Some(w@),
                None => None,
            },
            match our_did {
                Some(o) => Some(o@),
                None => None,
            },
        ),
{
    match (winter_did, our_did) {
        (Some(w), Some(o)) => str_eq(w, o),
        _ => true,
    }
}

} // verus!
