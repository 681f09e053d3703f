//! The bootstrap sequence itself: the fixed-order plan of registrations, the
//! setup-callback decision, and the full launch outcome for given host
//! responses.

use vstd::prelude::*;

use crate::model::BootError;
use crate::model::BuildMode;
use crate::model::Directive;
use crate::model::Severity;

verus! {

/// The calls a launch makes when every step succeeds, in order: the
/// data-access capability first, then (in a debug build only) the logging
/// capability at minimum severity `Informational`, then the run loop.
pub open spec fn planned_calls(mode: BuildMode) -> Seq<Directive> {
    if mode is Debug {
        seq![
            Directive::RegisterDataAccess,
            Directive::RegisterLogging { min_severity: Severity::Informational },
            Directive::EnterRunLoop,
        ]
    } else {
        seq![Directive::RegisterDataAccess, Directive::EnterRunLoop]
    }
}

/// The calls a launch actually makes when the host answers the logging
/// registration with `logging`: the plan, cut short before the run loop when
/// a debug build's logging registration fails.
pub open spec fn observed_calls(mode: BuildMode, logging: Result<(), String>) -> Seq<Directive> {
    if mode is Debug && logging is Err {
        seq![
            Directive::RegisterDataAccess,
            Directive::RegisterLogging { min_severity: Severity::Informational },
        ]
    } else {
        planned_calls(mode)
    }
}

/// The launch result determined by the run loop alone.
pub open spec fn run_loop_outcome(run_loop: Result<(), String>) -> Result<(), BootError> {
    match run_loop {
        Ok(()) => Ok(()),
        Err(m) => Err(BootError::Run { message: m }),
    }
}

/// The launch result for given host responses: a debug build whose logging
/// registration fails aborts with a setup error carrying the host's message;
/// otherwise the run loop decides.
pub open spec fn boot_outcome(
    mode: BuildMode,
    logging: Result<(), String>,
    run_loop: Result<(), String>,
) -> Result<(), BootError> {
    if mode is Debug {
        match logging {
            Ok(()) => run_loop_outcome(run_loop),
            Err(m) => Err(BootError::Setup { message: m }),
        }
    } else {
        run_loop_outcome(run_loop)
    }
}

/// What one launch did: the calls it made, in order, and how it ended.
pub struct BootReport {
    /// The observable call sequence, in order.
    pub calls: Vec<Directive>,
    /// Normal shutdown, or the fatal error.
    pub outcome: Result<(), BootError>,
}

/// The fixed-order registration plan for `mode`.
pub fn startup_plan(mode: BuildMode) -> (plan: Vec<Directive>)
    ensures
        plan@ == planned_calls(mode),
{
    let mut plan: Vec<Directive> = Vec::new();
    plan.push(Directive::RegisterDataAccess);
    if mode.is_debug() {
        plan.push(Directive::RegisterLogging { min_severity: Severity::Informational });
    }
    plan.push(Directive::EnterRunLoop);
    proof {
        assert(plan@ =~= planned_calls(mode));
    }
    plan
}

/// Whether the setup callback must register the logging capability: in a
/// debug build yes, in a release build it does nothing.
pub fn setup_registers_logging(mode: BuildMode) -> (b: bool)
    ensures
        b == (mode is Debug),
{
    mode.is_debug()
}

/// The minimum severity the logging capability is configured with.
pub fn logging_min_severity() -> (s: Severity)
    ensures
        s == Severity::Informational,
{
    Severity::Informational
}

/// The fixed diagnostic the process reports when the run loop fails.
pub fn fatal_diagnostic() -> (s: String)
    ensures
        s@ == "error while running application"@,
{
    String::from_str("error while running application")
}

/// Run one launch against scripted host responses: `logging` is what the
/// host answers if the logging registration is attempted, `run_loop` what
/// the run loop returns if it is entered. The report records exactly the
/// calls of `observed_calls` and ends as `boot_outcome` says.
pub fn bootstrap_run(
    mode: BuildMode,
    logging: Result<(), String>,
    run_loop: Result<(), String>,
) -> (r: BootReport)
    ensures
        r.calls@ == observed_calls(mode, logging),
        r.outcome == boot_outcome(mode, logging, run_loop),
{
    let mut calls: Vec<Directive> = Vec::new();
    calls.push(Directive::RegisterDataAccess);
    if mode.is_debug() {
        calls.push(Directive::RegisterLogging { min_severity: Severity::Informational });
        match logging {
            Ok(()) => {},
            Err(message) => {
                proof {
                    assert(calls@ =~= observed_calls(mode, logging));
                }
                return BootReport { calls, outcome: Err(BootError::Setup { message }) };
            },
        }
    }
    calls.push(Directive::EnterRunLoop);
    proof {
        assert(calls@ =~= observed_calls(mode, logging));
    }
    let outcome: Result<(), BootError> = match run_loop {
        Ok(()) => Ok(()),
        Err(message) => Err(BootError::Run { message }),
    };
    BootReport { calls, outcome }
}

} // verus!
