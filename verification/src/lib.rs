//! Incremental build orchestrator for projects that embed a Python
//! distribution in a native executable.
//!
//! The crate covers the decision core of the build pipeline: deciding
//! whether previously generated embedding artifacts are still current
//! (staleness tracking from file modification times and a dependency
//! manifest), resolving an immutable build context, constructing the
//! argument vector and environment for the external `cargo` invocation,
//! and sequencing the pipeline stages with fail-fast semantics.
//!
//! Filesystem reads and subprocess launches happen outside this crate;
//! every function here works on plain values (paths as strings,
//! modification times as seconds) so that its behaviour is fully
//! specified and verified.

use vstd::prelude::*;

pub mod context;
pub mod manifest;
pub mod pipeline;
pub mod staleness;
pub mod toolchain;

verus! {

/// A resolved Rust toolchain version, as reported by the installed
/// toolchain: `major.minor.patch`.
#[derive(Clone, Copy, Debug, PartialEq, Eq, Structural)]
pub struct RustVersion {
    pub major: u64,
    pub minor: u64,
    pub patch: u64,
}

/// The host platform family the orchestrator runs on, used to pick a
/// default build target and platform-specific environment variables.
#[derive(Clone, Copy, Debug, PartialEq, Eq, Structural)]
pub enum HostPlatform {
    Linux,
    Windows,
    MacOs,
    /// Any platform without a known default target triple.
    Other,
}

/// Errors surfaced by the pipeline stages. Every fatal condition maps to
/// exactly one variant; callers render them for the operator.
#[derive(Clone, Debug, PartialEq, Eq)]
pub enum BuildError {
    /// No recognizable project marker files at the project path.
    NotAProject,
    /// No configuration file was given or discovered.
    ConfigNotFound,
    /// The host platform has no default build target.
    UnsupportedPlatform,
    /// The installed toolchain version is below the required minimum,
    /// or could not be determined at all (`found` is `None`).
    ToolchainVersion { found: Option<RustVersion> },
    /// The toolchain subprocess could not be launched.
    ToolchainInvocation,
    /// The toolchain subprocess exited with a non-zero code.
    ToolchainBuild { exit_code: i32 },
    /// Packaging the built application failed.
    Packaging,
    /// The produced executable failed to start or exited non-zero.
    RunLaunch,
}

} // verus!
