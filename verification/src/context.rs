//! Build-context resolution: default target selection, locating the
//! configuration file, and assembly of the immutable per-run
//! [`BuildContext`].
//!
//! Resolution runs in two verified steps around the external
//! configuration-evaluation collaborator: [`resolve_build_plan`] decides
//! which configuration file to evaluate for which target (or fails), the
//! collaborator evaluates it, and [`make_build_context`] combines the
//! result into the context every later stage consumes.

use vstd::prelude::*;
use vstd::string::StringExecFns;

use crate::BuildError;
use crate::HostPlatform;

verus! {

/// The raw memory allocator the embedded Python runtime is built with.
/// `Jemalloc` is the designated non-default selection that adds a
/// feature flag to the toolchain invocation.
#[derive(Clone, Copy, Debug, PartialEq, Eq, Structural)]
pub enum RawAllocator {
    Jemalloc,
    Rust,
    System,
}

/// What the external configuration-evaluation collaborator hands back:
/// the fields of the evaluated configuration that the pipeline reads.
pub struct ParsedConfig {
    pub application_name: String,
    pub raw_allocator: RawAllocator,
    pub python_distribution_path: String,
}

/// The immutable parameter set for one pipeline run. Resolved once,
/// never mutated afterward.
pub struct BuildContext {
    /// Canonicalized project root.
    pub project_path: String,
    /// The configuration file the run was resolved from.
    pub config_path: String,
    /// Build target triple, fixed for the lifetime of the run.
    pub target_triple: String,
    /// Release mode rather than debug.
    pub release: bool,
    /// Where generated embedding artifacts live: derived from the
    /// project root, or explicitly overridden — never both.
    pub artifacts_path: String,
    /// The toolchain's target output base directory.
    pub target_base_path: String,
    /// The computed path of the application executable.
    pub app_exe_path: String,
    /// The application binary's name.
    pub app_name: String,
    /// Allocator selection from the configuration.
    pub raw_allocator: RawAllocator,
    /// Where the Python distribution used for embedding lives.
    pub python_distribution_path: String,
    /// Verbose diagnostics requested.
    pub verbose: bool,
}

/// The default build target triple for a host platform, or `None` where
/// the platform is unsupported.
pub open spec fn default_target_spec(host: HostPlatform) -> Option<Seq<char>> {
    match host {
        HostPlatform::Linux => Some("x86_64-unknown-linux-gnu"@),
        HostPlatform::Windows => Some("x86_64-pc-windows-msvc"@),
        HostPlatform::MacOs => Some("x86_64-apple-darwin"@),
        HostPlatform::Other => None,
    }
}

/// Attempt to resolve the default Rust target for a build.
///
/// One fixed triple per supported host platform family; an unsupported
/// platform yields `UnsupportedPlatform`.
pub fn default_target(host: HostPlatform) -> (r: Result<String, BuildError>)
    ensures
        match r {
            Ok(t) => default_target_spec(host) == Some(t@),
            Err(e) => default_target_spec(host) is None && e == BuildError::UnsupportedPlatform,
        },
{
    match host {
        HostPlatform::Linux => Ok("x86_64-unknown-linux-gnu".to_owned()),
        HostPlatform::Windows => Ok("x86_64-pc-windows-msvc".to_owned()),
        HostPlatform::MacOs => Ok("x86_64-apple-darwin".to_owned()),
        HostPlatform::Other => Err(BuildError::UnsupportedPlatform),
    }
}

/// The target triple a run uses: the explicit one where given, the
/// host's default otherwise (`None` where neither exists).
pub open spec fn chosen_target(explicit: Option<String>, host: HostPlatform) -> Option<Seq<char>> {
    match explicit {
        Option::Some(t) => Some(t@),
        Option::None => default_target_spec(host),
    }
}

/// The configuration file a run evaluates: the explicit path where
/// given, the discovered one otherwise (`None` where neither exists).
pub open spec fn chosen_config(explicit: Option<String>, discovered: Option<String>) -> Option<
    Seq<char>,
> {
    match explicit {
        Option::Some(p) => Some(p@),
        Option::None => match discovered {
            Option::Some(p) => Some(p@),
            Option::None => None,
        },
    }
}

/// Which error context resolution fails with, in check order: no project
/// markers, then no resolvable target, then no configuration file.
pub open spec fn resolve_failure_spec(
    has_project_markers: bool,
    explicit_target: Option<String>,
    host: HostPlatform,
    explicit_config: Option<String>,
    discovered_config: Option<String>,
) -> BuildError {
    if !has_project_markers {
        BuildError::NotAProject
    } else if chosen_target(explicit_target, host) is None {
        BuildError::UnsupportedPlatform
    } else {
        BuildError::ConfigNotFound
    }
}

/// What the external configuration evaluation is asked to do: evaluate
/// this configuration file for this target.
pub struct EvalRequest {
    pub config_path: String,
    pub target_triple: String,
}

/// Decide which configuration file to evaluate for which target.
///
/// Fails with `NotAProject` where the project path holds no recognizable
/// marker files, with `UnsupportedPlatform` where no target is given and
/// the host has no default, and with `ConfigNotFound` where no
/// configuration file is given or discoverable — in that order.
pub fn resolve_build_plan(
    has_project_markers: bool,
    explicit_target: &Option<String>,
    host: HostPlatform,
    explicit_config: &Option<String>,
    discovered_config: &Option<String>,
) -> (r: Result<EvalRequest, BuildError>)
    ensures
        r is Ok <==> (has_project_markers && chosen_target(*explicit_target, host) is Some
            && chosen_config(*explicit_config, *discovered_config) is Some),
        r matches Ok(req) ==> Some(req.target_triple@) == chosen_target(*explicit_target, host)
            && Some(req.config_path@) == chosen_config(*explicit_config, *discovered_config),
        r matches Err(e) ==> e == resolve_failure_spec(
            has_project_markers,
            *explicit_target,
            host,
            *explicit_config,
            *discovered_config,
        ),
{
    if !has_project_markers {
        return Err(BuildError::NotAProject);
    }
    let target_triple = match explicit_target {
        Option::Some(t) => t.clone(),
        Option::None => match default_target(host) {
            Ok(t) => t,
            Err(e) => {
                return Err(e);
            },
        },
    };
    let config_path = match explicit_config {
        Option::Some(p) => p.clone(),
        Option::None => match discovered_config {
            Option::Some(p) => p.clone(),
            Option::None => {
                return Err(BuildError::ConfigNotFound);
            },
        },
    };
    Ok(EvalRequest { config_path, target_triple })
}

/// `base` and `name` joined with the path separator.
pub open spec fn path_join(base: Seq<char>, name: Seq<char>) -> Seq<char> {
    base + "/"@ + name
}

/// The toolchain's target output base directory for a project root.
pub open spec fn target_base_path_spec(project_path: Seq<char>) -> Seq<char> {
    path_join(project_path, "target"@)
}

/// The per-target, per-mode output directory the toolchain writes to.
pub open spec fn build_path_spec(project_path: Seq<char>, triple: Seq<char>, release: bool) -> Seq<
    char,
> {
    path_join(
        path_join(target_base_path_spec(project_path), triple),
        if release {
            "release"@
        } else {
            "debug"@
        },
    )
}

fn join_path(base: &str, name: &str) -> (r: String)
    ensures
        r@ == path_join(base@, name@),
{
    let mut s = base.to_owned();
    s.append("/");
    s.append(name);
    s
}

/// Combine the resolved paths, target, mode and evaluated configuration
/// into the immutable build context.
///
/// The artifacts path is the explicit override where one is given and is
/// derived from the project root otherwise — never both.
pub fn make_build_context(
    project_path: &String,
    eval: &EvalRequest,
    release: bool,
    force_artifacts_path: &Option<String>,
    verbose: bool,
    config: &ParsedConfig,
) -> (ctx: BuildContext)
    ensures
        ctx.project_path@ == project_path@,
        ctx.config_path@ == eval.config_path@,
        ctx.target_triple@ == eval.target_triple@,
        ctx.release == release,
        ctx.verbose == verbose,
        ctx.app_name@ == config.application_name@,
        ctx.raw_allocator == config.raw_allocator,
        ctx.python_distribution_path@ == config.python_distribution_path@,
        ctx.target_base_path@ == target_base_path_spec(project_path@),
        ctx.app_exe_path@ == path_join(
            build_path_spec(project_path@, eval.target_triple@, release),
            config.application_name@,
        ),
        match force_artifacts_path {
            Option::Some(p) => ctx.artifacts_path@ == p@,
            Option::None => ctx.artifacts_path@ == path_join(
                build_path_spec(project_path@, eval.target_triple@, release),
                "pyoxidizer"@,
            ),
        },
{
    let target_base_path = join_path(project_path.as_str(), "target");
    let triple_path = join_path(target_base_path.as_str(), eval.target_triple.as_str());
    let build_path = join_path(triple_path.as_str(), if release {
        "release"
    } else {
        "debug"
    });
    let artifacts_path = match force_artifacts_path {
        Option::Some(p) => p.clone(),
        Option::None => join_path(build_path.as_str(), "pyoxidizer"),
    };
    let app_exe_path = join_path(build_path.as_str(), config.application_name.as_str());
    BuildContext {
        project_path: project_path.clone(),
        config_path: eval.config_path.clone(),
        target_triple: eval.target_triple.clone(),
        release,
        artifacts_path,
        target_base_path,
        app_exe_path,
        app_name: config.application_name.clone(),
        raw_allocator: config.raw_allocator,
        python_distribution_path: config.python_distribution_path.clone(),
        verbose,
    }
}

} // verus!
