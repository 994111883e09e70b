//! The startup guarantees, stated over whole traces and proved once for
//! every build profile, every platform, and every combination of step
//! outcomes.

use vstd::prelude::*;
use crate::config::{BuildProfile, TargetPlatform, spec_supports_vibrancy};
use crate::setup::{
    SetupError, SetupPhase, aborted_phase, decoration_phase, logging_phase, spec_terminal,
};
use crate::sequence::{SetupOutcomes, setup_trace, trace_from};

verus! {

/// How many phases of `t` register the logging extension.
pub open spec fn logging_count(t: Seq<SetupPhase>) -> nat
    decreases t.len(),
{
    if t.len() == 0 {
        0
    } else {
        logging_count(t.drop_last()) + (if t.last() is RegisterLogging {
            1nat
        } else {
            0nat
        })
    }
}

/// How many phases of `t` apply the window decoration.
pub open spec fn decoration_count(t: Seq<SetupPhase>) -> nat
    decreases t.len(),
{
    if t.len() == 0 {
        0
    } else {
        decoration_count(t.drop_last()) + (if t.last() is Decorate {
            1nat
        } else {
            0nat
        })
    }
}

/// Whether any phase of `t` enters the run loop.
pub open spec fn reaches_run_loop(t: Seq<SetupPhase>) -> bool {
    exists|i: int| 0 <= i < t.len() && t[i] is RunLoop
}

/// The startup trace in full, case by case. Every run is one of nine short
/// sequences: the profile decides whether logging comes first, the platform
/// decides whether the window is located and decorated, and the first failed
/// step ends the run aborted.
pub proof fn lemma_setup_trace_cases(
    profile: BuildProfile,
    platform: TargetPlatform,
    out: SetupOutcomes,
)
    ensures
        profile is Debug && !out.logging_ok ==> setup_trace(profile, platform, out) =~= seq![
            logging_phase(),
            aborted_phase(SetupError::LoggingRegistration),
        ],
        profile is Debug && out.logging_ok && !spec_supports_vibrancy(platform) ==> setup_trace(
            profile,
            platform,
            out,
        ) =~= seq![logging_phase(), SetupPhase::RunLoop],
        profile is Debug && out.logging_ok && spec_supports_vibrancy(platform) && !out.window_ok
            ==> setup_trace(profile, platform, out) =~= seq![
            logging_phase(),
            SetupPhase::LocateWindow,
            aborted_phase(SetupError::WindowLookup),
        ],
        profile is Debug && out.logging_ok && spec_supports_vibrancy(platform) && out.window_ok
            && !out.decoration_ok ==> setup_trace(profile, platform, out) =~= seq![
            logging_phase(),
            SetupPhase::LocateWindow,
            decoration_phase(),
            aborted_phase(SetupError::Decoration),
        ],
        profile is Debug && out.logging_ok && spec_supports_vibrancy(platform) && out.window_ok
            && out.decoration_ok ==> setup_trace(profile, platform, out) =~= seq![
            logging_phase(),
            SetupPhase::LocateWindow,
            decoration_phase(),
            SetupPhase::RunLoop,
        ],
        profile is Release && !spec_supports_vibrancy(platform) ==> setup_trace(
            profile,
            platform,
            out,
        ) =~= seq![SetupPhase::RunLoop],
        profile is Release && spec_supports_vibrancy(platform) && !out.window_ok ==> setup_trace(
            profile,
            platform,
            out,
        ) =~= seq![SetupPhase::LocateWindow, aborted_phase(SetupError::WindowLookup)],
        profile is Release && spec_supports_vibrancy(platform) && out.window_ok
            && !out.decoration_ok ==> setup_trace(profile, platform, out) =~= seq![
            SetupPhase::LocateWindow,
            decoration_phase(),
            aborted_phase(SetupError::Decoration),
        ],
        profile is Release && spec_supports_vibrancy(platform) && out.window_ok
            && out.decoration_ok ==> setup_trace(profile, platform, out) =~= seq![
            SetupPhase::LocateWindow,
            decoration_phase(),
            SetupPhase::RunLoop,
        ],
{
    reveal_with_fuel(trace_from, 5);
}

/// In a debug build the logging extension is registered exactly once, as the
/// very first step and at the informational threshold — hence before the run
/// loop can start; in a release build it is never registered.
pub proof fn lemma_logging_iff_debug(
    profile: BuildProfile,
    platform: TargetPlatform,
    out: SetupOutcomes,
)
    ensures
        profile is Debug ==> logging_count(setup_trace(profile, platform, out)) == 1,
        profile is Debug ==> setup_trace(profile, platform, out)[0] == logging_phase(),
        profile is Release ==> logging_count(setup_trace(profile, platform, out)) == 0,
        forall|i: int|
            0 <= i < setup_trace(profile, platform, out).len() && setup_trace(
                profile,
                platform,
                out,
            )[i] is RegisterLogging ==> i == 0,
{
    lemma_setup_trace_cases(profile, platform, out);
    reveal_with_fuel(logging_count, 5);
}

/// On the one platform that supports the vibrancy effect, once setup reaches
/// the decoration step (logging attached where it was attempted, window with
/// the main label found), the decoration is applied exactly once, with the
/// fixed acrylic tint, immediately after the successful window lookup; on
/// every other platform, and whenever an earlier step fails, it is never
/// applied.
pub proof fn lemma_decoration_iff_supported(
    profile: BuildProfile,
    platform: TargetPlatform,
    out: SetupOutcomes,
)
    ensures
        !spec_supports_vibrancy(platform) ==> decoration_count(setup_trace(profile, platform, out))
            == 0,
        spec_supports_vibrancy(platform) && (profile is Debug ==> out.logging_ok) && out.window_ok
            ==> decoration_count(setup_trace(profile, platform, out)) == 1,
        spec_supports_vibrancy(platform) && !((profile is Debug ==> out.logging_ok)
            && out.window_ok) ==> decoration_count(setup_trace(profile, platform, out)) == 0,
        forall|i: int|
            0 <= i < setup_trace(profile, platform, out).len() && (#[trigger] setup_trace(
                profile,
                platform,
                out,
            )[i]) is Decorate ==> setup_trace(profile, platform, out)[i] == decoration_phase() && 1
                <= i && setup_trace(profile, platform, out)[i - 1] is LocateWindow,
{
    lemma_setup_trace_cases(profile, platform, out);
    reveal_with_fuel(decoration_count, 5);
}

/// If the platform supports the effect and no window with the main label
/// exists at setup time, setup never reaches the run loop: it ends aborted —
/// over the window lookup whenever the lookup is reached at all.
pub proof fn lemma_window_missing_is_fatal(
    profile: BuildProfile,
    platform: TargetPlatform,
    out: SetupOutcomes,
)
    requires
        spec_supports_vibrancy(platform),
        !out.window_ok,
    ensures
        !reaches_run_loop(setup_trace(profile, platform, out)),
        setup_trace(profile, platform, out).last() is Aborted,
        (profile is Debug ==> out.logging_ok) ==> setup_trace(profile, platform, out).last()
            == aborted_phase(SetupError::WindowLookup),
{
    lemma_setup_trace_cases(profile, platform, out);
}

/// If registering the logging extension fails, setup stops at once: no
/// window is looked up or decorated, the run loop is never entered, and the
/// run ends aborted over the registration.
pub proof fn lemma_logging_failure_is_fatal(
    profile: BuildProfile,
    platform: TargetPlatform,
    out: SetupOutcomes,
)
    requires
        profile is Debug,
        !out.logging_ok,
    ensures
        setup_trace(profile, platform, out) =~= seq![
            logging_phase(),
            aborted_phase(SetupError::LoggingRegistration),
        ],
        decoration_count(setup_trace(profile, platform, out)) == 0,
        !reaches_run_loop(setup_trace(profile, platform, out)),
        forall|i: int|
            0 <= i < setup_trace(profile, platform, out).len() ==> !(setup_trace(
                profile,
                platform,
                out,
            )[i] is LocateWindow),
{
    lemma_setup_trace_cases(profile, platform, out);
    reveal_with_fuel(decoration_count, 5);
}

/// Every run ends, in one of exactly two ways: the trace is never empty, its
/// last phase is terminal — the run loop or an abort — and no phase before
/// the last is terminal.
pub proof fn lemma_trace_ends_terminal(
    profile: BuildProfile,
    platform: TargetPlatform,
    out: SetupOutcomes,
)
    ensures
        setup_trace(profile, platform, out).len() >= 1,
        spec_terminal(setup_trace(profile, platform, out).last()),
        forall|i: int|
            0 <= i < setup_trace(profile, platform, out).len() - 1 ==> !spec_terminal(
                setup_trace(profile, platform, out)[i],
            ),
{
    lemma_setup_trace_cases(profile, platform, out);
}

} // verus!
