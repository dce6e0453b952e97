//! What every tool call ends with: the passive inbox nudge appended to a
//! result, and the answer of `check_interruption`.

use vstd::prelude::*;
use crate::protocol::{CallToolResult, ToolContent};
use crate::text::{decimal, decimal_string, str_eq};
use crate::json::{JsonValue, lookup_member, member};

verus! {

/// Tools that report on the inbox or the session themselves; their
/// results carry no nudge.
pub open spec fn nudge_exempt(name: Seq<char>) -> bool {
    ||| name == "check_inbox"@
    ||| name == "acknowledge_inbox"@
    ||| name == "check_interruption"@
    ||| name == "session_stats"@
}

/// The text appended to a result while `pending` items wait in the inbox.
pub open spec fn nudge_suffix(pending: nat) -> Seq<char> {
    "\n\n_inbox_pending: "@ + decimal(pending)
}

/// The text that a content item carries.
pub open spec fn content_text(c: ToolContent) -> Seq<char> {
    match c {
        ToolContent::Text { text } => text@,
    }
}

/// Whether a result of tool `name` gets the nudge: the tool is not exempt,
/// something waits, and the result has a content item to append to.
pub open spec fn nudged(name: Seq<char>, pending: nat, content_len: nat) -> bool {
    !nudge_exempt(name) && pending > 0 && content_len > 0
}

/// Whether results of tool `name` carry no nudge.
pub fn is_nudge_exempt(name: &str) -> (r: bool)
    ensures
        r == nudge_exempt(name@),
{
    str_eq(name, "check_inbox") || str_eq(name, "acknowledge_inbox")
        || str_eq(name, "check_interruption") || str_eq(name, "session_stats")
}

/// Appends the inbox nudge to the last content item of `result`, when
/// `nudged` holds; otherwise leaves the result as it was. Only the text of
/// the last item changes.
pub fn apply_inbox_nudge(name: &str, result: &mut CallToolResult, pending: u64)
    ensures
        final(result).is_error == old(result).is_error,
        final(result).content.len() == old(result).content.len(),
        !nudged(name@, pending as nat, old(result).content.len() as nat)
            ==> final(result).content@ == old(result).content@,
        nudged(name@, pending as nat, old(result).content.len() as nat) ==> {
            let n = old(result).content.len() - 1;
            &&& forall|i: int|
                0 <= i < n ==> #[trigger] final(result).content@[i] == old(result).content@[i]
            &&& content_text(final(result).content@[n]) == content_text(old(result).content@[n])
                + nudge_suffix(pending as nat)
        },
{
    if is_nudge_exempt(name) || pending == 0 || result.content.len() == 0 {
        return;
    }
    let n = result.content.len() - 1;
    let mut text = match &result.content[n] {
        ToolContent::Text { text } => text.clone(),
    };
    let digits = decimal_string(pending);
    text.append("\n\n_inbox_pending: ");
    text.append(digits.as_str());
    result.content.set(n, ToolContent::Text { text });
}

/// The answer of `check_interruption`.
#[derive(Debug, Clone, PartialEq, Eq)]
pub struct InterruptionStatus {
    pub interrupted: bool,
    pub reason: Option<String>,
    pub urgent: bool,
    pub inbox_pending: u64,
}

/// The answer of `check_interruption` from what the inbox reports
/// (`pending` items, `inbox_urgent` when an urgent one waits) and, where
/// the session can be interrupted, from its state (`Some((interrupted,
/// reason))`). Without interruption state nothing is interrupted; the
/// call is urgent when the inbox is, or when an interruption was asked for.
pub fn interruption_status(
    pending: u64,
    inbox_urgent: bool,
    interruption: Option<(bool, Option<String>)>,
) -> (r: InterruptionStatus)
    ensures
        r.inbox_pending == pending,
        match interruption {
            Some((interrupted, reason)) => {
                &&& r.interrupted == interrupted
                &&& r.reason == reason
                &&& r.urgent == (inbox_urgent || interrupted)
            },
            None => {
                &&& !r.interrupted
                &&& r.reason is None
                &&& r.urgent == inbox_urgent
            },
        },
{
    match interruption {
        Some((interrupted, reason)) => InterruptionStatus {
            interrupted,
            reason,
            urgent: inbox_urgent || interrupted,
            inbox_pending: pending,
        },
        None => InterruptionStatus {
            interrupted: false,
            reason: None,
            urgent: inbox_urgent,
            inbox_pending: pending,
        },
    }
}

/// The context that `set_active_context` stores: an empty or missing
/// context clears it.
pub open spec fn active_context_spec(context: Option<Seq<char>>) -> Option<Seq<char>> {
    match context {
        Some(c) => if c.len() == 0 { None } else { Some(c) },
        None => None,
    }
}

/// The context to store, and the status line reported back:
/// `context set to <context>`, or `context set to (cleared)`.
pub fn active_context(context: Option<&str>) -> (r: (Option<String>, String))
    ensures
        match r.0 {
            Some(c) => active_context_spec(opt_view(context)) == Some(c@),
            None => active_context_spec(opt_view(context)) is None,
        },
        r.1@ == "context set to "@ + match active_context_spec(opt_view(context)) {
            Some(c) => c,
            None => "(cleared)"@,
        },
{
    let stored: Option<String> = match context {
        Some(c) => if c.unicode_len() == 0 { None } else { Some(String::from_str(c)) },
        None => None,
    };
    let mut status = String::from_str("context set to ");
    match &stored {
        Some(c) => status.append(c.as_str()),
        None => status.append("(cleared)"),
    }
    (stored, status)
}

/// The view of an optional string slice.
pub open spec fn opt_view(s: Option<&str>) -> Option<Seq<char>> {
    match s {
        Some(c) => Some(c@),
        None => None,
    }
}

/// The counters of a session that every tool call updates; the clock and
/// token counts of a session are kept beside them by the caller.
#[derive(Debug, Clone, Copy, PartialEq, Eq)]
pub struct SessionCounters {
    pub tool_call_count: u64,
    pub tool_error_count: u64,
    pub inbox_items_acknowledged: u64,
}

/// How many inbox items a call acknowledges: the length of the `ids`
/// array of an `acknowledge_inbox` call, and none for other calls.
pub open spec fn acknowledged_by(name: Seq<char>, m: Seq<(String, JsonValue)>) -> nat {
    if name == "acknowledge_inbox"@ {
        match lookup_member(m, "ids"@) {
            Some(v) => match v.items() {
                Some(a) => a.len(),
                None => 0,
            },
            None => 0,
        }
    } else {
        0
    }
}

/// Count a finished tool call: one more call, one more error when the
/// result is an error, and the items an `acknowledge_inbox` call names.
pub fn record_tool_call(
    counters: &mut SessionCounters,
    name: &str,
    is_error: Option<bool>,
    arguments: &Vec<(String, JsonValue)>,
)
    requires
        old(counters).tool_call_count < u64::MAX,
        old(counters).tool_error_count < u64::MAX,
        old(counters).inbox_items_acknowledged + acknowledged_by(name@, arguments@) <= u64::MAX,
    ensures
        final(counters).tool_call_count == old(counters).tool_call_count + 1,
        final(counters).tool_error_count == old(counters).tool_error_count + if is_error == Some(true) {
            1int
        } else {
            0int
        },
        final(counters).inbox_items_acknowledged == old(counters).inbox_items_acknowledged + acknowledged_by(
            name@,
            arguments@,
        ),
{
    counters.tool_call_count = counters.tool_call_count + 1;
    if is_error == Some(true) {
        counters.tool_error_count = counters.tool_error_count + 1;
    }
    if str_eq(name, "acknowledge_inbox") {
        match member(arguments, "ids") {
            Some(v) => match v.as_array() {
                Some(a) => {
                    counters.inbox_items_acknowledged = counters.inbox_items_acknowledged + a.len() as u64;
                },
                None => {},
            },
            None => {},
        }
    }
}

/// The trigger a tool-call thought is recorded under: in a persistent
/// session, the active context (the inbox item being worked on), or
/// `persistent` without one; otherwise the call's own trigger, or
/// `internal:tool_call` without one.
pub open spec fn thought_trigger_spec(trigger: Option<Seq<char>>, active: Option<Seq<char>>) -> Seq<char> {
    match trigger {
        Some(t) => if t == "persistent"@ {
            match active {
                Some(a) => a,
                None => "persistent"@,
            }
        } else {
            t
        },
        None => "internal:tool_call"@,
    }
}

/// The trigger a tool-call thought is recorded under.
pub fn thought_trigger(trigger: Option<&str>, active_context: Option<&str>) -> (r: String)
    ensures
        r@ == thought_trigger_spec(opt_view(trigger), opt_view(active_context)),
{
    match trigger {
        Some(t) => if str_eq(t, "persistent") {
            match active_context {
                Some(a) => String::from_str(a),
                None => String::from_str("persistent"),
            }
        } else {
            String::from_str(t)
        },
        None => String::from_str("internal:tool_call"),
    }
}

} // verus!
