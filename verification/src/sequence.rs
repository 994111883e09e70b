//! The whole startup sequence as a trace: the phases setup visits, in order,
//! determined by the build profile, the target platform, and the outcome of
//! each host step. [`run_setup`] runs the machine to completion and returns
//! exactly that trace.

use vstd::prelude::*;
use crate::config::{BuildProfile, TargetPlatform};
use crate::setup::{Bootstrap, SetupPhase, spec_initial_phase, spec_step, spec_terminal};

verus! {

/// The outcome the host reports for each setup step, should the sequence
/// reach it. A flag for a step the sequence never reaches has no effect.
#[derive(Clone, Copy, Debug, PartialEq, Eq, Structural)]
pub struct SetupOutcomes {
    /// Whether registering the logging extension succeeds.
    pub logging_ok: bool,
    /// Whether a window with the main label exists.
    pub window_ok: bool,
    /// Whether the platform accepts the acrylic effect.
    pub decoration_ok: bool,
}

/// The outcome `out` assigns to the step a phase names; `true` for a
/// terminal phase, which has no step.
pub open spec fn spec_outcome(phase: SetupPhase, out: SetupOutcomes) -> bool {
    match phase {
        SetupPhase::RegisterLogging { .. } => out.logging_ok,
        SetupPhase::LocateWindow => out.window_ok,
        SetupPhase::Decorate { .. } => out.decoration_ok,
        SetupPhase::RunLoop => true,
        SetupPhase::Aborted { .. } => true,
    }
}

/// The outcome `out` assigns to the step `phase` names.
pub fn outcome_for(phase: SetupPhase, out: SetupOutcomes) -> (ok: bool)
    ensures
        ok == spec_outcome(phase, out),
{
    match phase {
        SetupPhase::RegisterLogging { .. } => out.logging_ok,
        SetupPhase::LocateWindow => out.window_ok,
        SetupPhase::Decorate { .. } => out.decoration_ok,
        SetupPhase::RunLoop => true,
        SetupPhase::Aborted { .. } => true,
    }
}

/// How many phases can still follow `phase`.
pub open spec fn phase_rank(phase: SetupPhase) -> nat {
    match phase {
        SetupPhase::RegisterLogging { .. } => 3,
        SetupPhase::LocateWindow => 2,
        SetupPhase::Decorate { .. } => 1,
        SetupPhase::RunLoop => 0,
        SetupPhase::Aborted { .. } => 0,
    }
}

/// The phases visited from `phase` on, the current one included, when each
/// step that is reached has the outcome `out` assigns to it.
pub open spec fn trace_from(
    phase: SetupPhase,
    platform: TargetPlatform,
    out: SetupOutcomes,
) -> Seq<SetupPhase>
    decreases phase_rank(phase),
{
    if spec_terminal(phase) {
        seq![phase]
    } else {
        seq![phase] + trace_from(spec_step(phase, platform, spec_outcome(phase, out)), platform, out)
    }
}

/// The whole startup trace for a profile, a platform, and step outcomes. It
/// begins with the initial phase and ends with the one terminal phase,
/// `RunLoop` or `Aborted`.
pub open spec fn setup_trace(
    profile: BuildProfile,
    platform: TargetPlatform,
    out: SetupOutcomes,
) -> Seq<SetupPhase> {
    trace_from(spec_initial_phase(profile, platform), platform, out)
}

/// Runs the bootstrap machine to completion, feeding each step the outcome
/// `out` assigns to it, and returns the phases visited, in order.
pub fn run_setup(
    profile: BuildProfile,
    platform: TargetPlatform,
    out: SetupOutcomes,
) -> (trace: Vec<SetupPhase>)
    ensures
        trace@ == setup_trace(profile, platform, out),
{
    let mut boot = Bootstrap::new(profile, platform);
    let mut trace: Vec<SetupPhase> = Vec::new();
    while !boot.is_terminal()
        invariant
            boot.wf(),
            boot.platform == platform,
            setup_trace(profile, platform, out) =~= trace@ + trace_from(
                boot.phase,
                platform,
                out,
            ),
        decreases phase_rank(boot.phase),
    {
        let ok = outcome_for(boot.phase, out);
        trace.push(boot.phase);
        boot.advance(ok);
    }
    trace.push(boot.phase);
    proof {
        assert(trace@ =~= setup_trace(profile, platform, out));
    }
    trace
}

} // verus!
