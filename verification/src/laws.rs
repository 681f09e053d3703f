//! Properties of the bootstrap sequence, proved once for every build mode
//! and every host response.

use vstd::prelude::*;

use crate::boot::boot_outcome;
use crate::boot::observed_calls;
use crate::boot::planned_calls;
use crate::model::BuildMode;
use crate::model::Directive;

verus! {

/// The stage a directive belongs to: data access, then logging, then the
/// run loop.
pub open spec fn stage(d: Directive) -> nat {
    match d {
        Directive::RegisterDataAccess => 0,
        Directive::RegisterLogging { .. } => 1,
        Directive::EnterRunLoop => 2,
    }
}

/// A release launch never issues a logging registration, and it succeeds
/// exactly when the run loop succeeds.
pub proof fn lemma_release_skips_logging(logging: Result<(), String>, run_loop: Result<(), String>)
    ensures
        forall|i: int|
            0 <= i < observed_calls(BuildMode::Release, logging).len() ==> !(observed_calls(
                BuildMode::Release,
                logging,
            )[i] is RegisterLogging),
        boot_outcome(BuildMode::Release, logging, run_loop) is Ok <==> run_loop is Ok,
{
}

/// A debug launch always attempts the logging registration, every such
/// attempt comes before any run-loop entry, and when the registration fails
/// the run loop is never entered.
pub proof fn lemma_debug_logs_before_run(logging: Result<(), String>)
    ensures
        exists|i: int|
            0 <= i < observed_calls(BuildMode::Debug, logging).len() && observed_calls(
                BuildMode::Debug,
                logging,
            )[i] is RegisterLogging,
        forall|i: int, j: int|
            0 <= i < observed_calls(BuildMode::Debug, logging).len() && 0 <= j < observed_calls(
                BuildMode::Debug,
                logging,
            ).len() && observed_calls(BuildMode::Debug, logging)[i] is RegisterLogging
                && observed_calls(BuildMode::Debug, logging)[j] is EnterRunLoop ==> i < j,
        logging is Err ==> forall|i: int|
            0 <= i < observed_calls(BuildMode::Debug, logging).len() ==> !(observed_calls(
                BuildMode::Debug,
                logging,
            )[i] is EnterRunLoop),
{
    let c = observed_calls(BuildMode::Debug, logging);
    assert(c[1] is RegisterLogging);
}

/// Every launch, in either mode and under every host response, registers the
/// data-access capability exactly once: as its first call, and never again.
pub proof fn lemma_data_access_once(mode: BuildMode, logging: Result<(), String>)
    ensures
        observed_calls(mode, logging).len() > 0,
        observed_calls(mode, logging)[0] is RegisterDataAccess,
        forall|i: int|
            1 <= i < observed_calls(mode, logging).len() ==> !(observed_calls(
                mode,
                logging,
            )[i] is RegisterDataAccess),
{
}

/// The order of a launch is fixed: stages strictly increase along the call
/// sequence, so data access always precedes logging, which always precedes
/// the run loop, and no stage repeats.
pub proof fn lemma_fixed_order(mode: BuildMode, logging: Result<(), String>)
    ensures
        forall|i: int, j: int|
            0 <= i < j < observed_calls(mode, logging).len() ==> stage(
                observed_calls(mode, logging)[i],
            ) < stage(observed_calls(mode, logging)[j]),
{
}

/// What a launch observably does is always a prefix of the fixed plan: a
/// host response can cut the sequence short, never reorder or extend it.
pub proof fn lemma_observed_is_plan_prefix(mode: BuildMode, logging: Result<(), String>)
    ensures
        observed_calls(mode, logging) == planned_calls(mode).take(
            observed_calls(mode, logging).len() as int,
        ),
{
    assert(observed_calls(mode, logging) =~= planned_calls(mode).take(
        observed_calls(mode, logging).len() as int,
    ));
}

} // verus!
