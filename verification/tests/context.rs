use pyoxidizer::context::default_target;
use pyoxidizer::context::make_build_context;
use pyoxidizer::context::resolve_build_plan;
use pyoxidizer::context::EvalRequest;
use pyoxidizer::context::ParsedConfig;
use pyoxidizer::context::RawAllocator;
use pyoxidizer::BuildError;
use pyoxidizer::HostPlatform;

fn config() -> ParsedConfig {
    ParsedConfig {
        application_name: "myapp".to_string(),
        raw_allocator: RawAllocator::Jemalloc,
        python_distribution_path: "/dist/python".to_string(),
    }
}

#[test]
fn default_target_per_platform() {
    assert_eq!(
        default_target(HostPlatform::Linux),
        Ok("x86_64-unknown-linux-gnu".to_string())
    );
    assert_eq!(
        default_target(HostPlatform::Windows),
        Ok("x86_64-pc-windows-msvc".to_string())
    );
    assert_eq!(
        default_target(HostPlatform::MacOs),
        Ok("x86_64-apple-darwin".to_string())
    );
    assert_eq!(
        default_target(HostPlatform::Other),
        Err(BuildError::UnsupportedPlatform)
    );
}

#[test]
fn missing_project_markers_fail_first() {
    // No marker files: NotAProject, even though nothing else is given.
    let r = resolve_build_plan(false, &None, HostPlatform::Other, &None, &None);
    assert_eq!(r.err(), Some(BuildError::NotAProject));
}

#[test]
fn unsupported_platform_without_explicit_target() {
    let r = resolve_build_plan(true, &None, HostPlatform::Other, &None, &None);
    assert_eq!(r.err(), Some(BuildError::UnsupportedPlatform));
}

#[test]
fn explicit_target_overrides_platform_default() {
    let r = resolve_build_plan(
        true,
        &Some("aarch64-unknown-linux-gnu".to_string()),
        HostPlatform::Other,
        &Some("/proj/conf.bzl".to_string()),
        &None,
    )
    .unwrap();
    assert_eq!(r.target_triple, "aarch64-unknown-linux-gnu".to_string());
    assert_eq!(r.config_path, "/proj/conf.bzl".to_string());
}

#[test]
fn missing_config_fails_after_target() {
    let r = resolve_build_plan(true, &None, HostPlatform::Linux, &None, &None);
    assert_eq!(r.err(), Some(BuildError::ConfigNotFound));
}

#[test]
fn discovered_config_used_without_explicit_one() {
    let r = resolve_build_plan(
        true,
        &None,
        HostPlatform::Linux,
        &None,
        &Some("/proj/found.bzl".to_string()),
    )
    .unwrap();
    assert_eq!(r.target_triple, "x86_64-unknown-linux-gnu".to_string());
    assert_eq!(r.config_path, "/proj/found.bzl".to_string());
}

#[test]
fn explicit_config_overrides_discovered_one() {
    let r = resolve_build_plan(
        true,
        &None,
        HostPlatform::Linux,
        &Some("/proj/explicit.bzl".to_string()),
        &Some("/proj/found.bzl".to_string()),
    )
    .unwrap();
    assert_eq!(r.config_path, "/proj/explicit.bzl".to_string());
}

#[test]
fn context_derives_paths_from_project_root() {
    let eval = EvalRequest {
        config_path: "/proj/conf.bzl".to_string(),
        target_triple: "t64".to_string(),
    };
    let ctx = make_build_context(&"/proj".to_string(), &eval, false, &None, true, &config());
    assert_eq!(ctx.project_path, "/proj".to_string());
    assert_eq!(ctx.config_path, "/proj/conf.bzl".to_string());
    assert_eq!(ctx.target_triple, "t64".to_string());
    assert_eq!(ctx.target_base_path, "/proj/target".to_string());
    assert_eq!(
        ctx.artifacts_path,
        "/proj/target/t64/debug/pyoxidizer".to_string()
    );
    assert_eq!(ctx.app_exe_path, "/proj/target/t64/debug/myapp".to_string());
    assert_eq!(ctx.app_name, "myapp".to_string());
    assert_eq!(ctx.raw_allocator, RawAllocator::Jemalloc);
    assert_eq!(ctx.python_distribution_path, "/dist/python".to_string());
    assert!(!ctx.release);
    assert!(ctx.verbose);
}

#[test]
fn release_context_uses_release_directory() {
    let eval = EvalRequest {
        config_path: "/proj/conf.bzl".to_string(),
        target_triple: "t64".to_string(),
    };
    let ctx = make_build_context(&"/proj".to_string(), &eval, true, &None, false, &config());
    assert_eq!(
        ctx.artifacts_path,
        "/proj/target/t64/release/pyoxidizer".to_string()
    );
    assert_eq!(ctx.app_exe_path, "/proj/target/t64/release/myapp".to_string());
}

#[test]
fn forced_artifacts_path_overrides_derivation() {
    let eval = EvalRequest {
        config_path: "/proj/conf.bzl".to_string(),
        target_triple: "t64".to_string(),
    };
    let ctx = make_build_context(
        &"/proj".to_string(),
        &eval,
        false,
        &Some("/elsewhere/artifacts".to_string()),
        false,
        &config(),
    );
    assert_eq!(ctx.artifacts_path, "/elsewhere/artifacts".to_string());
    assert_eq!(ctx.target_base_path, "/proj/target".to_string());
}
