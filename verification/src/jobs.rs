//! Scheduled jobs: the checks on the arguments of a one-off or recurring
//! job, the names of job states, and which jobs a listing shows.

use vstd::prelude::*;
use crate::text::{str_eq, contains_ignoring_case, contains_ignore_case};
use crate::json::{JsonValue, lookup_member, member, member_text, member_str};

verus! {

/// Where a job stands.
#[derive(Debug, Clone, Copy, PartialEq, Eq, Structural)]
pub enum JobStatusKind {
    Pending,
    Running,
    Completed,
    Failed,
}

/// The name of a job state, as listings filter by it.
pub open spec fn status_name(s: JobStatusKind) -> Seq<char> {
    match s {
        JobStatusKind::Pending => "pending"@,
        JobStatusKind::Running => "running"@,
        JobStatusKind::Completed => "completed"@,
        JobStatusKind::Failed => "failed"@,
    }
}

impl JobStatusKind {
    /// The name of the state.
    pub fn name(&self) -> (r: &'static str)
        ensures
            r@ == status_name(*self),
    {
        match self {
            JobStatusKind::Pending => "pending",
            JobStatusKind::Running => "running",
            JobStatusKind::Completed => "completed",
            JobStatusKind::Failed => "failed",
        }
    }
}

/// Why the arguments of a one-off job are refused, if they are.
pub open spec fn once_error(m: Seq<(String, JsonValue)>) -> Option<Seq<char>> {
    if member_text(m, "name"@) is None {
        Some("Missing required parameter: name"@)
    } else if member_text(m, "instructions"@) is None {
        Some("Missing required parameter: instructions"@)
    } else if member_text(m, "run_at"@) is None {
        Some("Missing required parameter: run_at"@)
    } else {
        None
    }
}

/// Check the arguments of a one-off job: its name, instructions and the
/// text of the time to run it (which the caller parses).
pub fn check_once_job(arguments: &Vec<(String, JsonValue)>) -> (r: Result<(String, String, String), String>)
    ensures
        match r {
            Ok((n, i, t)) => once_error(arguments@) is None && member_text(arguments@, "name"@) == Some(n@)
                && member_text(arguments@, "instructions"@) == Some(i@) && member_text(arguments@, "run_at"@)
                == Some(t@),
            Err(e) => once_error(arguments@) == Some(e@),
        },
{
    let name = match member_str(arguments, "name") {
        Some(n) => n,
        None => {
            return Err(String::from_str("Missing required parameter: name"));
        },
    };
    let instructions = match member_str(arguments, "instructions") {
        Some(i) => i,
        None => {
            return Err(String::from_str("Missing required parameter: instructions"));
        },
    };
    let run_at = match member_str(arguments, "run_at") {
        Some(t) => t,
        None => {
            return Err(String::from_str("Missing required parameter: run_at"));
        },
    };
    Ok((String::from_str(name), String::from_str(instructions), String::from_str(run_at)))
}

/// The interval argument, when it is an unsigned integer.
pub open spec fn interval_of(m: Seq<(String, JsonValue)>) -> Option<u64> {
    match lookup_member(m, "interval_seconds"@) {
        Some(v) => v.u64_of(),
        None => None,
    }
}

/// Why the arguments of a recurring job are refused, if they are.
pub open spec fn recurring_error(m: Seq<(String, JsonValue)>) -> Option<Seq<char>> {
    if member_text(m, "name"@) is None {
        Some("Missing required parameter: name"@)
    } else if member_text(m, "instructions"@) is None {
        Some("Missing required parameter: instructions"@)
    } else {
        match interval_of(m) {
            Some(0) => Some("interval_seconds must be greater than 0"@),
            Some(_) => None,
            None => Some("Missing required parameter: interval_seconds"@),
        }
    }
}

/// Check the arguments of a recurring job: its name, instructions and
/// interval in seconds.
pub fn check_recurring_job(arguments: &Vec<(String, JsonValue)>) -> (r: Result<(String, String, u64), String>)
    ensures
        match r {
            Ok((n, i, s)) => recurring_error(arguments@) is None && member_text(arguments@, "name"@) == Some(n@)
                && member_text(arguments@, "instructions"@) == Some(i@) && interval_of(arguments@) == Some(s),
            Err(e) => recurring_error(arguments@) == Some(e@),
        },
{
    let name = match member_str(arguments, "name") {
        Some(n) => n,
        None => {
            return Err(String::from_str("Missing required parameter: name"));
        },
    };
    let instructions = match member_str(arguments, "instructions") {
        Some(i) => i,
        None => {
            return Err(String::from_str("Missing required parameter: instructions"));
        },
    };
    let interval = match member(arguments, "interval_seconds") {
        Some(v) => v.as_u64(),
        None => None,
    };
    match interval {
        Some(0) => Err(String::from_str("interval_seconds must be greater than 0")),
        Some(s) => Ok((String::from_str(name), String::from_str(instructions), s)),
        None => Err(String::from_str("Missing required parameter: interval_seconds")),
    }
}

/// A job is listed: its state has the name asked for, if any, and its name
/// contains the given text, ignoring case, if one is given.
pub open spec fn job_listed(name: Seq<char>, status: JobStatusKind, status_filter: Option<Seq<char>>, name_filter: Option<Seq<char>>) -> bool {
    &&& (status_filter matches Some(f) ==> status_name(status) == f)
    &&& (name_filter matches Some(n) ==> contains_ignoring_case(name, n))
}

/// Whether a job is listed for the given filters.
pub fn job_is_listed(name: &str, status: JobStatusKind, status_filter: Option<&str>, name_filter: Option<&str>) -> (r: bool)
    ensures
        r == job_listed(
            name@,
            status,
            match status_filter {
                Some(f) => Some(f@),
                None => None,
            },
            match name_filter {
                Some(n) => Some(n@),
                None => None,
            },
        ),
{
    match status_filter {
        Some(f) => if !str_eq(status.name(), f) {
            return false;
        },
        None => {},
    }
    match name_filter {
        Some(n) => contains_ignore_case(name, n),
        None => true,
    }
}

} // verus!
