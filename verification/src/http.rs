//! The interruption signal shared by the daemon and the agent's session,
//! and the bodies of the HTTP endpoints that set and report it.

use vstd::prelude::*;

verus! {

/// Whether the current session should stop, and why.  The daemon sets it
/// when work queues up; the agent reads it through `check_interruption`.
#[derive(Debug)]
pub struct InterruptionState {
    /// Whether the current session should interrupt.
    pub should_interrupt: bool,
    /// Reason for interruption (e.g. `queue_pressure`).
    pub reason: Option<String>,
}

/// What a check reports for a state: the reason only while interrupted.
pub open spec fn check_spec(should_interrupt: bool, reason: Option<String>) -> (bool, Option<
    Seq<char>,
>) {
    if should_interrupt {
        (
            true,
            match reason {
                Some(r) => Some(r@),
                None => None,
            },
        )
    } else {
        (false, None)
    }
}

impl InterruptionState {
    /// A state with no pending interrupt.
    pub fn new() -> (r: InterruptionState)
        ensures
            !r.should_interrupt,
            r.reason is None,
    {
        InterruptionState { should_interrupt: false, reason: None }
    }

    /// Signal that the session should interrupt, for `reason`.
    pub fn set_interrupt(&mut self, reason: &str)
        ensures
            final(self).should_interrupt,
            final(self).reason matches Some(r) && r@ == reason@,
    {
        self.should_interrupt = true;
        self.reason = Some(String::from_str(reason));
    }

    /// Whether the session is interrupted, and the reason.
    pub fn check(&self) -> (r: (bool, Option<String>))
        ensures
            (r.0, match r.1 {
                Some(x) => Some(x@),
                None => None,
            }) == check_spec(self.should_interrupt, self.reason),
    {
        if self.should_interrupt {
            let reason = match &self.reason {
                Some(r) => Some(r.clone()),
                None => None,
            };
            (true, reason)
        } else {
            (false, None)
        }
    }

    /// Clear the interruption state.
    pub fn clear(&mut self)
        ensures
            !final(self).should_interrupt,
            final(self).reason is None,
    {
        self.should_interrupt = false;
        self.reason = None;
    }
}

/// After an interrupt is set, a check reports it with its reason; after
/// the state is cleared, a check reports nothing.
pub proof fn law_interrupt_round_trip(reason: String, other: Option<String>)
    ensures
        check_spec(true, Some(reason)) == (true, Some(reason@)),
        check_spec(false, other) == (false, None::<Seq<char>>),
{
}

/// Request body for setting interruption.
#[derive(Debug)]
pub struct InterruptRequest {
    /// Reason for interruption (e.g. `queue_pressure`).
    pub reason: String,
}

/// Response for interruption endpoints.
#[derive(Debug)]
pub struct InterruptResponse {
    pub success: bool,
    pub interrupted: bool,
    pub reason: Option<String>,
}

/// Set the interruption from a request and report the state.
pub fn handle_interrupt(state: &mut InterruptionState, request: &InterruptRequest) -> (r: InterruptResponse)
    ensures
        final(state).should_interrupt,
        final(state).reason matches Some(x) && x@ == request.reason@,
        r.success && r.interrupted,
        r.reason matches Some(x) && x@ == request.reason@,
{
    state.set_interrupt(request.reason.as_str());
    let (interrupted, reason) = state.check();
    InterruptResponse { success: true, interrupted, reason }
}

/// Clear the interruption and report that nothing is pending.
pub fn handle_clear_interrupt(state: &mut InterruptionState) -> (r: InterruptResponse)
    ensures
        !final(state).should_interrupt,
        final(state).reason is None,
        r.success && !r.interrupted && r.reason is None,
{
    state.clear();
    InterruptResponse { success: true, interrupted: false, reason: None }
}

/// Response for built-in tool call recording.
#[derive(Debug)]
pub struct BuiltinToolCallResponse {
    pub success: bool,
}

/// Health check response type.
#[derive(Debug)]
pub struct HealthResponse {
    pub status: String,
}

/// The health check's answer.
pub fn health() -> (r: HealthResponse)
    ensures
        r.status@ == "ok"@,
{
    HealthResponse { status: String::from_str("ok") }
}

} // verus!
