use pyoxidizer::context::BuildContext;
use pyoxidizer::context::RawAllocator;
use pyoxidizer::toolchain::cargo_build_args;
use pyoxidizer::toolchain::cargo_build_envs;
use pyoxidizer::toolchain::check_toolchain_version;
use pyoxidizer::toolchain::installed_toolchain_check;
use pyoxidizer::toolchain::minimum_rust_version;
use pyoxidizer::toolchain::plan_toolchain_invocation;
use pyoxidizer::toolchain::run_outcome_result;
use pyoxidizer::toolchain::toolchain_outcome_result;
use pyoxidizer::toolchain::SpawnOutcome;
use pyoxidizer::BuildError;
use pyoxidizer::HostPlatform;
use pyoxidizer::RustVersion;

fn context(release: bool, allocator: RawAllocator) -> BuildContext {
    BuildContext {
        project_path: "/proj".to_string(),
        config_path: "/proj/pyoxidizer.bzl".to_string(),
        target_triple: "x86_64-unknown-linux-gnu".to_string(),
        release,
        artifacts_path: "/proj/target/pyoxidizer".to_string(),
        target_base_path: "/proj/target".to_string(),
        app_exe_path: "/proj/target/app".to_string(),
        app_name: "app".to_string(),
        raw_allocator: allocator,
        python_distribution_path: "/dist/python".to_string(),
        verbose: false,
    }
}

#[test]
fn debug_default_allocator_args_have_no_extra_flags() {
    // Release off and the default allocator: no release flag, no
    // allocator feature flag.
    let args = cargo_build_args(&context(false, RawAllocator::System));
    assert_eq!(
        args,
        vec![
            "build".to_string(),
            "--target".to_string(),
            "x86_64-unknown-linux-gnu".to_string(),
            "--target-dir".to_string(),
            "/proj/target".to_string(),
            "--bin".to_string(),
            "app".to_string(),
        ]
    );
    assert!(!args.contains(&"--release".to_string()));
    assert!(!args.contains(&"--features".to_string()));
}

#[test]
fn release_context_adds_release_flag() {
    let args = cargo_build_args(&context(true, RawAllocator::System));
    assert!(args.contains(&"--release".to_string()));
    assert_eq!(args[args.len() - 1], "--release".to_string());
}

#[test]
fn jemalloc_allocator_adds_feature_flag() {
    let args = cargo_build_args(&context(false, RawAllocator::Jemalloc));
    assert_eq!(args[args.len() - 2], "--features".to_string());
    assert_eq!(args[args.len() - 1], "jemalloc".to_string());
}

#[test]
fn release_and_jemalloc_flags_combine_in_order() {
    let args = cargo_build_args(&context(true, RawAllocator::Jemalloc));
    let n = args.len();
    assert_eq!(args[n - 3], "--release".to_string());
    assert_eq!(args[n - 2], "--features".to_string());
    assert_eq!(args[n - 1], "jemalloc".to_string());
}

#[test]
fn argument_construction_is_deterministic() {
    let ctx = context(true, RawAllocator::Jemalloc);
    let python = "/dist/python/bin/python3".to_string();
    assert_eq!(cargo_build_args(&ctx), cargo_build_args(&ctx));
    assert_eq!(
        cargo_build_envs(&ctx, &python, HostPlatform::Linux),
        cargo_build_envs(&ctx, &python, HostPlatform::Linux)
    );
}

#[test]
fn envs_point_at_artifacts_and_python() {
    let ctx = context(false, RawAllocator::System);
    let python = "/dist/python/bin/python3".to_string();
    let envs = cargo_build_envs(&ctx, &python, HostPlatform::Linux);
    assert_eq!(
        envs,
        vec![
            (
                "PYOXIDIZER_ARTIFACT_DIR".to_string(),
                "/proj/target/pyoxidizer".to_string()
            ),
            ("PYOXIDIZER_REUSE_ARTIFACTS".to_string(), "1".to_string()),
            (
                "PYTHON_SYS_EXECUTABLE".to_string(),
                "/dist/python/bin/python3".to_string()
            ),
        ]
    );
}

#[test]
fn windows_host_enables_unstable_linking() {
    let ctx = context(false, RawAllocator::System);
    let python = "C:/dist/python.exe".to_string();
    let envs = cargo_build_envs(&ctx, &python, HostPlatform::Windows);
    assert_eq!(
        envs[envs.len() - 1],
        ("RUSTC_BOOTSTRAP".to_string(), "1".to_string())
    );
}

#[test]
fn version_below_minimum_is_rejected() {
    let old = RustVersion {
        major: 1,
        minor: 35,
        patch: 9,
    };
    assert_eq!(
        check_toolchain_version(&Some(old)),
        Err(BuildError::ToolchainVersion { found: Some(old) })
    );
}

#[test]
fn version_at_minimum_is_accepted() {
    assert_eq!(check_toolchain_version(&Some(minimum_rust_version())), Ok(()));
}

#[test]
fn newer_version_is_accepted() {
    let new = RustVersion {
        major: 2,
        minor: 0,
        patch: 0,
    };
    assert_eq!(check_toolchain_version(&Some(new)), Ok(()));
}

#[test]
fn unknown_version_is_rejected() {
    assert_eq!(
        check_toolchain_version(&None),
        Err(BuildError::ToolchainVersion { found: None })
    );
}

#[test]
fn installed_toolchain_check_fails_only_on_version() {
    let min = minimum_rust_version();
    match installed_toolchain_check() {
        Ok(v) => assert!(
            (v.major, v.minor, v.patch) >= (min.major, min.minor, min.patch)
        ),
        Err(e) => assert!(matches!(e, BuildError::ToolchainVersion { .. })),
    }
}

#[test]
fn invocation_plan_carries_verified_arguments() {
    let ctx = context(true, RawAllocator::System);
    let python = "/dist/python/bin/python3".to_string();
    let version = Some(RustVersion {
        major: 1,
        minor: 50,
        patch: 0,
    });
    let inv = plan_toolchain_invocation(&ctx, &version, &python, HostPlatform::Linux).unwrap();
    assert_eq!(inv.program, "cargo".to_string());
    assert_eq!(inv.working_dir, "/proj".to_string());
    assert_eq!(inv.args, cargo_build_args(&ctx));
    assert_eq!(inv.envs, cargo_build_envs(&ctx, &python, HostPlatform::Linux));
}

#[test]
fn invocation_plan_rejects_old_toolchain() {
    let ctx = context(false, RawAllocator::System);
    let python = "/p".to_string();
    let version = Some(RustVersion {
        major: 1,
        minor: 0,
        patch: 0,
    });
    let r = plan_toolchain_invocation(&ctx, &version, &python, HostPlatform::Linux);
    assert_eq!(
        r.err(),
        Some(BuildError::ToolchainVersion { found: version })
    );
}

#[test]
fn zero_exit_is_success() {
    assert_eq!(toolchain_outcome_result(&SpawnOutcome::Exited { code: 0 }), Ok(()));
}

#[test]
fn nonzero_exit_is_build_error() {
    assert_eq!(
        toolchain_outcome_result(&SpawnOutcome::Exited { code: 1 }),
        Err(BuildError::ToolchainBuild { exit_code: 1 })
    );
}

#[test]
fn launch_failure_is_invocation_error() {
    assert_eq!(
        toolchain_outcome_result(&SpawnOutcome::LaunchFailed),
        Err(BuildError::ToolchainInvocation)
    );
}

#[test]
fn run_failures_map_to_run_launch() {
    assert_eq!(run_outcome_result(&SpawnOutcome::Exited { code: 0 }), Ok(()));
    assert_eq!(
        run_outcome_result(&SpawnOutcome::Exited { code: 3 }),
        Err(BuildError::RunLaunch)
    );
    assert_eq!(
        run_outcome_result(&SpawnOutcome::LaunchFailed),
        Err(BuildError::RunLaunch)
    );
}
