//! The setup state machine: the phases of the one-time startup sequence, the
//! fatal errors, and the transition rules between phases.
//!
//! Setup is synchronous and single-threaded. A non-terminal phase names the
//! step the host must perform next; the host reports whether the step
//! succeeded, and [`Bootstrap::advance`] moves to the next phase. Every
//! failure is fatal: there is no retry, no degraded mode, and no partial
//! start.

use vstd::prelude::*;
use crate::config::{
    BuildProfile, LogLevel, TargetPlatform, Tint, min_log_level, spec_min_log_level,
    spec_supports_vibrancy, supports_vibrancy,
};

verus! {

/// The fatal startup errors. Every member aborts the whole process; nothing
/// is recovered locally.
#[derive(Clone, Copy, Debug, PartialEq, Eq, Structural)]
pub enum SetupError {
    /// The logging extension could not be registered.
    LoggingRegistration,
    /// No window with the main label exists at setup time.
    WindowLookup,
    /// The platform rejected the acrylic effect.
    Decoration,
}

impl SetupError {
    /// The diagnostic the process terminates with on this error.
    pub open spec fn spec_message(self) -> Seq<char> {
        match self {
            SetupError::LoggingRegistration => "failed to register the logging extension"@,
            SetupError::WindowLookup => "no window with the main label was found at setup"@,
            SetupError::Decoration => "failed to apply the acrylic effect"@,
        }
    }

    /// The diagnostic the process terminates with on this error.
    pub fn message(self) -> (s: &'static str)
        ensures
            s@ == self.spec_message(),
    {
        match self {
            SetupError::LoggingRegistration => "failed to register the logging extension",
            SetupError::WindowLookup => "no window with the main label was found at setup",
            SetupError::Decoration => "failed to apply the acrylic effect",
        }
    }
}

/// One phase of the startup sequence. The first three name the step the host
/// must perform next; `RunLoop` and `Aborted` are terminal.
#[derive(Clone, Copy, Debug, PartialEq, Eq, Structural)]
pub enum SetupPhase {
    /// Register the logging extension at the given severity threshold.
    RegisterLogging {
        /// The threshold the extension emits at.
        min_level: LogLevel,
    },
    /// Look up the window with the main label.
    LocateWindow,
    /// Apply the acrylic effect, with the given tint, to the window just
    /// found.
    Decorate {
        /// The RGBA tint of the effect.
        tint: Tint,
    },
    /// Setup succeeded: hand control to the host's blocking run loop.
    RunLoop,
    /// Setup failed: terminate the process with the error's diagnostic.
    Aborted {
        /// The fatal error.
        error: SetupError,
    },
}

/// The logging phase, at the informational threshold.
pub open spec fn logging_phase() -> SetupPhase {
    SetupPhase::RegisterLogging { min_level: spec_min_log_level() }
}

/// The decoration phase, with the fixed acrylic tint.
pub open spec fn decoration_phase() -> SetupPhase {
    SetupPhase::Decorate { tint: Tint::spec_acrylic() }
}

/// The terminal phase for a fatal error.
pub open spec fn aborted_phase(error: SetupError) -> SetupPhase {
    SetupPhase::Aborted { error }
}

/// Whether `phase` is terminal: no further step follows it.
pub open spec fn spec_terminal(phase: SetupPhase) -> bool {
    phase is RunLoop || phase is Aborted
}

/// The phase the vibrancy branch starts in: locate the main window where the
/// platform supports the effect, else go straight to the run loop.
pub open spec fn vibrancy_phase(platform: TargetPlatform) -> SetupPhase {
    if spec_supports_vibrancy(platform) {
        SetupPhase::LocateWindow
    } else {
        SetupPhase::RunLoop
    }
}

/// The first phase of setup: a debug build starts by registering logging, a
/// release build skips straight to the vibrancy branch.
pub open spec fn spec_initial_phase(profile: BuildProfile, platform: TargetPlatform) -> SetupPhase {
    if profile is Debug {
        logging_phase()
    } else {
        vibrancy_phase(platform)
    }
}

/// The phase after a non-terminal `phase`, once the host reports whether its
/// step succeeded (`ok`). Every failure is fatal; a terminal phase stays put.
pub open spec fn spec_step(phase: SetupPhase, platform: TargetPlatform, ok: bool) -> SetupPhase {
    match phase {
        SetupPhase::RegisterLogging { .. } => if ok {
            vibrancy_phase(platform)
        } else {
            aborted_phase(SetupError::LoggingRegistration)
        },
        SetupPhase::LocateWindow => if ok {
            decoration_phase()
        } else {
            aborted_phase(SetupError::WindowLookup)
        },
        SetupPhase::Decorate { .. } => if ok {
            SetupPhase::RunLoop
        } else {
            aborted_phase(SetupError::Decoration)
        },
        SetupPhase::RunLoop => SetupPhase::RunLoop,
        SetupPhase::Aborted { .. } => phase,
    }
}

/// The bootstrap state machine. The host constructs it once at process start
/// with the build profile and target platform, performs the step each
/// non-terminal phase names, and reports the outcome through
/// [`Bootstrap::advance`] until a terminal phase is reached.
pub struct Bootstrap {
    /// The build profile resolved at compile time.
    pub profile: BuildProfile,
    /// The platform resolved at compile time.
    pub platform: TargetPlatform,
    /// The current phase of setup.
    pub phase: SetupPhase,
}

impl Bootstrap {
    /// Well-formedness: the current phase is one that the profile and the
    /// platform can actually reach, with the fixed step parameters.
    pub open spec fn wf(self) -> bool {
        &&& (self.phase matches SetupPhase::RegisterLogging { min_level }
            ==> self.profile is Debug && min_level == spec_min_log_level())
        &&& (self.phase is LocateWindow ==> spec_supports_vibrancy(self.platform))
        &&& (self.phase matches SetupPhase::Decorate { tint }
            ==> spec_supports_vibrancy(self.platform) && tint == Tint::spec_acrylic())
    }

    /// Starts the setup sequence for the given profile and platform.
    pub fn new(profile: BuildProfile, platform: TargetPlatform) -> (boot: Bootstrap)
        ensures
            boot.wf(),
            boot.profile == profile,
            boot.platform == platform,
            boot.phase == spec_initial_phase(profile, platform),
    {
        let phase = if matches!(profile, BuildProfile::Debug) {
            SetupPhase::RegisterLogging { min_level: min_log_level() }
        } else if supports_vibrancy(platform) {
            SetupPhase::LocateWindow
        } else {
            SetupPhase::RunLoop
        };
        Bootstrap { profile, platform, phase }
    }

    /// Whether setup has reached a terminal phase.
    pub fn is_terminal(&self) -> (b: bool)
        ensures
            b == spec_terminal(self.phase),
    {
        matches!(self.phase, SetupPhase::RunLoop | SetupPhase::Aborted { .. })
    }

    /// Moves past the current non-terminal phase on the host's report that
    /// its step succeeded (`ok`) or failed. The profile and the platform
    /// never change; the new phase is exactly what the transition rules give.
    pub fn advance(&mut self, ok: bool)
        requires
            old(self).wf(),
            !spec_terminal(old(self).phase),
        ensures
            final(self).wf(),
            final(self).profile == old(self).profile,
            final(self).platform == old(self).platform,
            final(self).phase == spec_step(old(self).phase, old(self).platform, ok),
    {
        let next = match self.phase {
            SetupPhase::RegisterLogging { .. } => {
                if ok {
                    if supports_vibrancy(self.platform) {
                        SetupPhase::LocateWindow
                    } else {
                        SetupPhase::RunLoop
                    }
                } else {
                    SetupPhase::Aborted { error: SetupError::LoggingRegistration }
                }
            },
            SetupPhase::LocateWindow => {
                if ok {
                    SetupPhase::Decorate { tint: Tint::acrylic() }
                } else {
                    SetupPhase::Aborted { error: SetupError::WindowLookup }
                }
            },
            SetupPhase::Decorate { .. } => {
                if ok {
                    SetupPhase::RunLoop
                } else {
                    SetupPhase::Aborted { error: SetupError::Decoration }
                }
            },
            SetupPhase::RunLoop => SetupPhase::RunLoop,
            SetupPhase::Aborted { .. } => self.phase,
        };
        self.phase = next;
    }
}

} // verus!
