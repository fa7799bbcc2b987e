//! Toolchain invocation: version gating, construction of the argument
//! vector and environment for the external `cargo build` subprocess, and
//! mapping of its exit status.
//!
//! The subprocess itself is launched by the caller; this module computes
//! exactly what to launch (program, arguments, environment, working
//! directory) and interprets the outcome, so that every decision is
//! verified.

use vstd::prelude::*;

use crate::context::BuildContext;
use crate::context::RawAllocator;
use crate::BuildError;
use crate::HostPlatform;
use crate::RustVersion;

verus! {

/// The minimum Rust toolchain version the build requires.
pub open spec fn minimum_rust_version_spec() -> RustVersion {
    RustVersion { major: 1, minor: 36, patch: 0 }
}

/// The minimum Rust toolchain version the build requires.
pub fn minimum_rust_version() -> (v: RustVersion)
    ensures
        v == minimum_rust_version_spec(),
{
    RustVersion { major: 1, minor: 36, patch: 0 }
}

/// Numeric ordering on toolchain versions: by major, then minor, then
/// patch.
pub open spec fn version_lt(a: RustVersion, b: RustVersion) -> bool {
    if a.major != b.major {
        a.major < b.major
    } else if a.minor != b.minor {
        a.minor < b.minor
    } else {
        a.patch < b.patch
    }
}

/// Whether `a` precedes `b` in version order.
pub fn rust_version_lt(a: &RustVersion, b: &RustVersion) -> (r: bool)
    ensures
        r == version_lt(*a, *b),
{
    if a.major != b.major {
        a.major < b.major
    } else if a.minor != b.minor {
        a.minor < b.minor
    } else {
        a.patch < b.patch
    }
}

/// Relies on `rustc_version::version`: runs the installed `rustc` and
/// parses the semantic version it reports, keeping the numeric triple.
/// The result depends on the machine's toolchain, so nothing is promised
/// of it.
#[verifier::external_body]
fn query_toolchain_version() -> Option<RustVersion> {
    match rustc_version::version() {
        Ok(v) => Some(RustVersion { major: v.major, minor: v.minor, patch: v.patch }),
        Err(_) => None,
    }
}

/// Gate the build on the reported toolchain version: success exactly when
/// a version was determined and it is not below the required minimum.
pub fn check_toolchain_version(found: &Option<RustVersion>) -> (r: Result<(), BuildError>)
    ensures
        r is Ok <==> (*found matches Some(v) && !version_lt(v, minimum_rust_version_spec())),
        r matches Err(e) ==> e == (BuildError::ToolchainVersion { found: *found }),
{
    match found {
        Option::Some(v) => {
            let min = minimum_rust_version();
            if rust_version_lt(v, &min) {
                Err(BuildError::ToolchainVersion { found: Some(*v) })
            } else {
                Ok(())
            }
        },
        Option::None => Err(BuildError::ToolchainVersion { found: None }),
    }
}

/// Query the installed toolchain and gate the build on its version,
/// returning the version found to be acceptable.
///
/// The version the machine reports is not known ahead of the call, so
/// the contract promises only what holds of every answer: a returned
/// version is never below the minimum, and a failure is always a
/// version error; the decision is [`check_toolchain_version`], verified
/// for every possible answer.
pub fn installed_toolchain_check() -> (r: Result<RustVersion, BuildError>)
    ensures
        r matches Ok(v) ==> !version_lt(v, minimum_rust_version_spec()),
        r matches Err(e) ==> e matches BuildError::ToolchainVersion { .. },
{
    let found = query_toolchain_version();
    match check_toolchain_version(&found) {
        Ok(_) => match found {
            Option::Some(v) => Ok(v),
            Option::None => Err(BuildError::ToolchainVersion { found: None }),
        },
        Err(e) => Err(e),
    }
}

/// The argument vector handed to `cargo`: an explicit build target and
/// target directory, the application binary, then the release flag only
/// in release mode and the allocator feature flag only for the
/// non-default allocator.
pub open spec fn cargo_args_spec(ctx: BuildContext) -> Seq<Seq<char>> {
    seq![
        "build"@,
        "--target"@,
        ctx.target_triple@,
        "--target-dir"@,
        ctx.target_base_path@,
        "--bin"@,
        ctx.app_name@,
    ] + (if ctx.release {
        seq!["--release"@]
    } else {
        Seq::<Seq<char>>::empty()
    }) + (if ctx.raw_allocator == RawAllocator::Jemalloc {
        seq!["--features"@, "jemalloc"@]
    } else {
        Seq::<Seq<char>>::empty()
    })
}

/// The environment injected into the `cargo` subprocess: where the
/// generated artifacts live, that reusing them is permitted, which
/// Python executable downstream build scripts must use, and — on Windows
/// hosts only — permission for the unstable linking feature that static
/// embedding needs there.
pub open spec fn cargo_envs_spec(
    ctx: BuildContext,
    python_exe_path: Seq<char>,
    host: HostPlatform,
) -> Seq<(Seq<char>, Seq<char>)> {
    seq![
        ("PYOXIDIZER_ARTIFACT_DIR"@, ctx.artifacts_path@),
        ("PYOXIDIZER_REUSE_ARTIFACTS"@, "1"@),
        ("PYTHON_SYS_EXECUTABLE"@, python_exe_path),
    ] + (if host == HostPlatform::Windows {
        seq![("RUSTC_BOOTSTRAP"@, "1"@)]
    } else {
        Seq::<(Seq<char>, Seq<char>)>::empty()
    })
}

/// Construct the `cargo build` argument vector for a context.
pub fn cargo_build_args(ctx: &BuildContext) -> (args: Vec<String>)
    ensures
        args.deep_view() == cargo_args_spec(*ctx),
{
    let mut args: Vec<String> = Vec::new();
    args.push("build".to_owned());
    args.push("--target".to_owned());
    args.push(ctx.target_triple.clone());
    args.push("--target-dir".to_owned());
    args.push(ctx.target_base_path.clone());
    args.push("--bin".to_owned());
    args.push(ctx.app_name.clone());
    if ctx.release {
        args.push("--release".to_owned());
    }
    if ctx.raw_allocator == RawAllocator::Jemalloc {
        args.push("--features".to_owned());
        args.push("jemalloc".to_owned());
    }
    proof {
        assert(args.deep_view() =~~= cargo_args_spec(*ctx));
    }
    args
}

/// Construct the environment for the `cargo build` subprocess.
pub fn cargo_build_envs(ctx: &BuildContext, python_exe_path: &String, host: HostPlatform) -> (envs:
    Vec<(String, String)>)
    ensures
        envs.deep_view() == cargo_envs_spec(*ctx, python_exe_path@, host),
{
    let mut envs: Vec<(String, String)> = Vec::new();
    envs.push(("PYOXIDIZER_ARTIFACT_DIR".to_owned(), ctx.artifacts_path.clone()));
    envs.push(("PYOXIDIZER_REUSE_ARTIFACTS".to_owned(), "1".to_owned()));
    envs.push(("PYTHON_SYS_EXECUTABLE".to_owned(), python_exe_path.clone()));
    if matches!(host, HostPlatform::Windows) {
        envs.push(("RUSTC_BOOTSTRAP".to_owned(), "1".to_owned()));
    }
    proof {
        assert(envs.deep_view() =~~= cargo_envs_spec(*ctx, python_exe_path@, host));
    }
    envs
}

/// What became of an attempt to run a subprocess: it could not be
/// launched at all, or it exited with the given code (a caller maps an
/// abnormal end without an exit code to a non-zero code).
#[derive(Clone, Copy, Debug, PartialEq, Eq, Structural)]
pub enum SpawnOutcome {
    LaunchFailed,
    Exited { code: i32 },
}

/// A fully computed toolchain invocation: what to launch, with which
/// arguments and environment, and from which working directory.
pub struct ToolchainInvocation {
    pub program: String,
    pub args: Vec<String>,
    pub envs: Vec<(String, String)>,
    pub working_dir: String,
}

/// Compute the toolchain invocation for a context, gated on the reported
/// toolchain version: the program is `cargo`, run from the project root,
/// with exactly the verified argument vector and environment.
pub fn plan_toolchain_invocation(
    ctx: &BuildContext,
    version: &Option<RustVersion>,
    python_exe_path: &String,
    host: HostPlatform,
) -> (r: Result<ToolchainInvocation, BuildError>)
    ensures
        r is Ok <==> (*version matches Some(v) && !version_lt(v, minimum_rust_version_spec())),
        r matches Ok(inv) ==> inv.program@ == "cargo"@ && inv.args.deep_view() == cargo_args_spec(
            *ctx,
        ) && inv.envs.deep_view() == cargo_envs_spec(*ctx, python_exe_path@, host)
            && inv.working_dir@ == ctx.project_path@,
        r matches Err(e) ==> e == (BuildError::ToolchainVersion { found: *version }),
{
    match check_toolchain_version(version) {
        Ok(_) => Ok(
            ToolchainInvocation {
                program: "cargo".to_owned(),
                args: cargo_build_args(ctx),
                envs: cargo_build_envs(ctx, python_exe_path, host),
                working_dir: ctx.project_path.clone(),
            },
        ),
        Err(e) => Err(e),
    }
}

/// Map the toolchain subprocess outcome to the stage result: success
/// exactly on exit code zero; a launch failure and a non-zero exit are
/// distinct errors.
pub fn toolchain_outcome_result(outcome: &SpawnOutcome) -> (r: Result<(), BuildError>)
    ensures
        r == (match *outcome {
            SpawnOutcome::LaunchFailed => Err::<(), BuildError>(BuildError::ToolchainInvocation),
            SpawnOutcome::Exited { code } => if code == 0 {
                Ok::<(), BuildError>(())
            } else {
                Err::<(), BuildError>(BuildError::ToolchainBuild { exit_code: code })
            },
        }),
{
    match outcome {
        SpawnOutcome::LaunchFailed => Err(BuildError::ToolchainInvocation),
        SpawnOutcome::Exited { code } => {
            if *code == 0 {
                Ok(())
            } else {
                Err(BuildError::ToolchainBuild { exit_code: *code })
            }
        },
    }
}

/// Map the produced application's subprocess outcome to the run-stage
/// result: success exactly on exit code zero; failing to start and a
/// non-zero exit both mean the run failed.
pub fn run_outcome_result(outcome: &SpawnOutcome) -> (r: Result<(), BuildError>)
    ensures
        r is Ok <==> *outcome == (SpawnOutcome::Exited { code: 0i32 }),
        r is Err ==> r == Err::<(), BuildError>(BuildError::RunLaunch),
{
    match outcome {
        SpawnOutcome::LaunchFailed => Err(BuildError::RunLaunch),
        SpawnOutcome::Exited { code } => {
            if *code == 0 {
                Ok(())
            } else {
                Err(BuildError::RunLaunch)
            }
        },
    }
}

/// Law: toolchain argument and environment construction is
/// deterministic — equal contexts, Python executable paths and hosts
/// yield equal argument vectors and environment maps.
pub proof fn lemma_invocation_deterministic(
    ctx_a: BuildContext,
    ctx_b: BuildContext,
    python_a: Seq<char>,
    python_b: Seq<char>,
    host_a: HostPlatform,
    host_b: HostPlatform,
)
    requires
        ctx_a == ctx_b,
        python_a == python_b,
        host_a == host_b,
    ensures
        cargo_args_spec(ctx_a) == cargo_args_spec(ctx_b),
        cargo_envs_spec(ctx_a, python_a, host_a) == cargo_envs_spec(ctx_b, python_b, host_b),
{
}

/// Law: the release flag stands in the argument vector exactly when the
/// context's release flag is set. The context strings that feed the
/// vector must not themselves spell the flag — a context whose target
/// triple, target directory or application name is literally
/// `--release` is left out.
pub proof fn lemma_release_flag_iff(ctx: BuildContext)
    requires
        ctx.target_triple@ != "--release"@,
        ctx.target_base_path@ != "--release"@,
        ctx.app_name@ != "--release"@,
    ensures
        cargo_args_spec(ctx).contains("--release"@) <==> ctx.release,
{
    let args = cargo_args_spec(ctx);
    reveal_strlit("build");
    reveal_strlit("--target");
    reveal_strlit("--target-dir");
    reveal_strlit("--bin");
    reveal_strlit("--release");
    reveal_strlit("--features");
    reveal_strlit("jemalloc");
    if ctx.release {
        assert(args[7] == "--release"@);
        assert(args.contains("--release"@));
    } else {
        assert("build"@.len() == 5 && "--release"@.len() == 9);
        assert forall|i: int| 0 <= i < args.len() implies args[i] != "--release"@ by {
            if ctx.raw_allocator == RawAllocator::Jemalloc {
                assert(args.len() == 9);
            } else {
                assert(args.len() == 7);
            }
        }
        if args.contains("--release"@) {
            let i = choose|i: int| 0 <= i < args.len() && args[i] == "--release"@;
            assert(false);
        }
    }
}

/// Law: the allocator feature flag stands in the argument vector exactly
/// when the context selects the non-default allocator. The same proviso
/// on context strings applies as for the release flag.
pub proof fn lemma_allocator_flag_iff(ctx: BuildContext)
    requires
        ctx.target_triple@ != "--features"@,
        ctx.target_base_path@ != "--features"@,
        ctx.app_name@ != "--features"@,
    ensures
        cargo_args_spec(ctx).contains("--features"@) <==> ctx.raw_allocator
            == RawAllocator::Jemalloc,
{
    let args = cargo_args_spec(ctx);
    reveal_strlit("build");
    reveal_strlit("--target");
    reveal_strlit("--target-dir");
    reveal_strlit("--bin");
    reveal_strlit("--release");
    reveal_strlit("--features");
    reveal_strlit("jemalloc");
    if ctx.raw_allocator == RawAllocator::Jemalloc {
        if ctx.release {
            assert(args[8] == "--features"@);
        } else {
            assert(args[7] == "--features"@);
        }
        assert(args.contains("--features"@));
    } else {
        assert(args[0] == "build"@);
        assert(args[1] == "--target"@);
        assert(args[2] == ctx.target_triple@);
        assert(args[3] == "--target-dir"@);
        assert(args[4] == ctx.target_base_path@);
        assert(args[5] == "--bin"@);
        assert(args[6] == ctx.app_name@);
        if ctx.release {
            assert(args.len() == 8);
            assert(args[7] == "--release"@);
        } else {
            assert(args.len() == 7);
        }
        assert("build"@.len() == 5);
        assert("--target"@.len() == 8);
        assert("--target-dir"@.len() == 12);
        assert("--bin"@.len() == 5);
        assert("--release"@.len() == 9);
        assert("--features"@.len() == 10);
        if args.contains("--features"@) {
            let i = choose|i: int| 0 <= i < args.len() && args[i] == "--features"@;
            assert(0 <= i < args.len() && args[i] == "--features"@);
            assert(i == 0 || i == 1 || i == 2 || i == 3 || i == 4 || i == 5 || i == 6 || i == 7);
            assert(false);
        }
    }
}

} // verus!
