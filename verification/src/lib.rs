//! Startup wiring for a small desktop widget shell, with every bootstrap
//! decision verified: which one-time setup steps run under a given build
//! profile and target platform, in what order they run, and which failures
//! are fatal.
//!
//! The host shell performs the actual side effects — attaching the logging
//! extension, looking up the main window, applying the acrylic effect,
//! entering the blocking run loop. It drives [`setup::Bootstrap`] step by
//! step and reports each step's outcome; the sequencing and the failure
//! policy in between are proved here, once for every combination of profile,
//! platform and outcomes.

pub mod config;
pub mod laws;
pub mod sequence;
pub mod setup;
