//! The reload decisions: which path a reload request acts on, and the
//! outcome reported for each way of validating, signalling or starting the
//! external process.

use vstd::prelude::*;

use crate::text::concat2;

verus! {

/// What reading the pid file and probing the process found.
#[derive(Clone, Debug)]
pub enum PidStatus {
    /// A pid was recovered and the process answers.
    Running(i32),
    /// A pid was recovered but the process is gone.
    Stale(i32),
    /// No pid could be recovered; the text says why.
    Unavailable(String),
}

/// What a reload request must do next about the process.
#[derive(Clone, Copy, Debug, PartialEq, Eq, Structural)]
pub enum ReloadPlan {
    /// Send the reload signal to the live process.
    Signal(i32),
    /// Start a fresh process.
    Start,
}

/// The answer to a reload request.
#[derive(Clone, Debug)]
pub struct ReloadOutcome {
    pub success: bool,
    pub message: String,
    pub pid: i32,
}

/// The path a reload request acts on: the requested one, or the server's
/// own when the request leaves it empty.
pub fn effective_path(requested: &String, fallback: &String) -> (r: String)
    ensures
        r@ == (if requested@.len() == 0 {
            fallback@
        } else {
            requested@
        }),
{
    if requested.as_str().is_empty() {
        fallback.clone()
    } else {
        requested.clone()
    }
}

/// Decides what to do about the process: signal it while it lives, start a
/// fresh one otherwise.
pub fn plan_reload(status: &PidStatus) -> (r: ReloadPlan)
    ensures
        r == (match status {
            PidStatus::Running(p) => ReloadPlan::Signal(*p),
            PidStatus::Stale(_) => ReloadPlan::Start,
            PidStatus::Unavailable(_) => ReloadPlan::Start,
        }),
{
    match status {
        PidStatus::Running(p) => ReloadPlan::Signal(*p),
        PidStatus::Stale(_) => ReloadPlan::Start,
        PidStatus::Unavailable(_) => ReloadPlan::Start,
    }
}

/// The outcome of a validate-only request, from the validator's diagnostic:
/// `None` stands for a valid configuration.
pub fn validate_only_outcome(diagnostic: &Option<String>) -> (r: ReloadOutcome)
    ensures
        r.pid == 0,
        diagnostic is None ==> r.success && r.message@ == "Configuration is valid"@,
        diagnostic is Some ==> !r.success && r.message@ == "Config validation failed: "@
            + diagnostic->Some_0@,
{
    match diagnostic {
        None => ReloadOutcome {
            success: true,
            message: "Configuration is valid".to_owned(),
            pid: 0,
        },
        Some(e) => ReloadOutcome {
            success: false,
            message: concat2("Config validation failed: ", e.as_str()),
            pid: 0,
        },
    }
}

/// The outcome of signalling the live process `pid` to reload: `error` is
/// the text of the signal failure, if there was one.
pub fn signal_outcome(pid: i32, error: &Option<String>) -> (r: ReloadOutcome)
    ensures
        error is None ==> r.success && r.message@ == "Configuration reloaded successfully"@
            && r.pid == pid,
        error is Some ==> !r.success && r.message@ == "Failed to reload stunnel: "@
            + error->Some_0@ && r.pid == 0,
{
    match error {
        None => ReloadOutcome {
            success: true,
            message: "Configuration reloaded successfully".to_owned(),
            pid,
        },
        Some(e) => ReloadOutcome {
            success: false,
            message: concat2("Failed to reload stunnel: ", e.as_str()),
            pid: 0,
        },
    }
}

/// The outcome of starting a fresh process, after a stale pid or none:
/// `result` carries the new pid or the failure text.
pub fn start_outcome(had_stale_pid: bool, result: &Result<i32, String>) -> (r: ReloadOutcome)
    ensures
        result is Ok ==> r.success && r.pid == result->Ok_0 && r.message@ == (if had_stale_pid {
            "Stunnel restarted successfully (stale pid)"@
        } else {
            "Stunnel started successfully"@
        }),
        result is Err ==> !r.success && r.pid == 0 && r.message@ == (if had_stale_pid {
            "Failed to start stunnel after stale pid: "@
        } else {
            "Failed to start stunnel: "@
        }) + result->Err_0@,
{
    match result {
        Ok(p) => ReloadOutcome {
            success: true,
            message: if had_stale_pid {
                "Stunnel restarted successfully (stale pid)".to_owned()
            } else {
                "Stunnel started successfully".to_owned()
            },
            pid: *p,
        },
        Err(e) => ReloadOutcome {
            success: false,
            message: if had_stale_pid {
                concat2("Failed to start stunnel after stale pid: ", e.as_str())
            } else {
                concat2("Failed to start stunnel: ", e.as_str())
            },
            pid: 0,
        },
    }
}

} // verus!
