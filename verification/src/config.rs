//! Build-time configuration resolved once at startup — the build profile and
//! the target platform — together with the fixed parameters of the optional
//! setup steps: the logging severity threshold, the acrylic tint, and the
//! logical name of the one top-level window.

use vstd::prelude::*;

verus! {

/// The build profile the application was compiled under.
#[derive(Clone, Copy, Debug, PartialEq, Eq, Structural)]
pub enum BuildProfile {
    /// A development build: diagnostic logging is wanted.
    Debug,
    /// An optimised release build: no logging extension is attached.
    Release,
}

/// The desktop platform the application was compiled for.
#[derive(Clone, Copy, Debug, PartialEq, Eq, Structural)]
pub enum TargetPlatform {
    /// The one platform whose compositor supports the acrylic effect.
    Windows,
    /// No acrylic support.
    MacOs,
    /// No acrylic support.
    Linux,
}

/// Severity threshold for the logging extension.
#[derive(Clone, Copy, Debug, PartialEq, Eq, Structural)]
pub enum LogLevel {
    /// Nothing is emitted.
    Off,
    /// Errors only.
    Error,
    /// Warnings and above.
    Warn,
    /// Informational messages and above.
    Info,
    /// Debugging messages and above.
    Debug,
    /// Everything.
    Trace,
}

/// An RGBA tint for the translucent acrylic window background.
#[derive(Clone, Copy, Debug, PartialEq, Eq, Structural)]
pub struct Tint {
    /// Red channel.
    pub red: u8,
    /// Green channel.
    pub green: u8,
    /// Blue channel.
    pub blue: u8,
    /// Opacity, out of 255.
    pub alpha: u8,
}

impl Tint {
    /// The fixed tint the acrylic effect is applied with: a dark grey at
    /// 100/255 opacity.
    pub open spec fn spec_acrylic() -> Tint {
        Tint { red: 18, green: 18, blue: 18, alpha: 100 }
    }

    /// Builds the fixed acrylic tint.
    pub fn acrylic() -> (t: Tint)
        ensures
            t == Tint::spec_acrylic(),
    {
        Tint { red: 18, green: 18, blue: 18, alpha: 100 }
    }
}

/// Whether `platform`'s compositor supports the acrylic vibrancy effect;
/// exactly one platform does.
pub open spec fn spec_supports_vibrancy(platform: TargetPlatform) -> bool {
    platform is Windows
}

/// Whether the acrylic effect can be applied on `platform`.
pub fn supports_vibrancy(platform: TargetPlatform) -> (b: bool)
    ensures
        b == spec_supports_vibrancy(platform),
{
    matches!(platform, TargetPlatform::Windows)
}

/// The logical name of the one top-level window that gets decorated.
pub open spec fn spec_main_window_label() -> Seq<char> {
    "main"@
}

/// The logical name of the one top-level window, for the host's window
/// lookup.
pub fn main_window_label() -> (s: &'static str)
    ensures
        s@ == spec_main_window_label(),
{
    "main"
}

/// The severity threshold the logging extension is configured with.
pub open spec fn spec_min_log_level() -> LogLevel {
    LogLevel::Info
}

/// The severity threshold the logging extension is configured with:
/// informational and above.
pub fn min_log_level() -> (level: LogLevel)
    ensures
        level == spec_min_log_level(),
{
    LogLevel::Info
}

} // verus!
