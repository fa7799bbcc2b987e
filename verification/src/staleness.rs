//! Staleness tracking: deciding whether previously generated embedding
//! artifacts are still current.
//!
//! The baseline is the modification time of the dependency manifest file
//! itself. The artifacts are current exactly when the manifest is present
//! and readable and no dependency it records — nor the running program's
//! own executable, nor the configuration file — has a modification time
//! strictly newer than that baseline. Every failure mode (missing file,
//! unreadable metadata) folds into a "stale" answer, because an unnecessary
//! rebuild is cheap, a silently skipped one is not.
//!
//! The caller performs the filesystem reads and hands the results in as
//! plain values: modification times in whole seconds, `None` where they
//! could not be determined.

use vstd::prelude::*;

use crate::manifest::manifest_dep_paths;
use crate::manifest::manifest_dependency_paths;

verus! {

/// A snapshot of the modification times the caller could read: one entry
/// per path whose metadata was readable. A path without an entry counts
/// as unreadable, which biases the verdict toward "stale".
pub struct FsSnapshot {
    pub entries: Vec<(String, u64)>,
}

/// The dependency manifest file as read from disk: its own modification
/// time (the staleness baseline) and its text, each `None` where the
/// read failed.
pub struct ManifestFile {
    pub mtime: Option<u64>,
    pub content: Option<String>,
}

/// A structured staleness diagnostic, emitted for operator visibility
/// only; it never affects the verdict.
#[derive(Clone, Debug, PartialEq, Eq)]
pub enum Diagnostic {
    /// No manifest file exists: no prior build is recorded.
    NoArtifacts,
    /// The manifest's own modification time could not be determined.
    BuiltTimeUnknown,
    /// The manifest exists but its text could not be read.
    ManifestUnreadable,
    /// A tracked file is newer than the baseline.
    DependencyChanged { path: String },
    /// A tracked file's metadata could not be read.
    DependencyUnreadable { path: String },
}

/// The mathematical shape of a [`Diagnostic`], with paths as character
/// sequences.
pub enum DiagnosticModel {
    NoArtifacts,
    BuiltTimeUnknown,
    ManifestUnreadable,
    DependencyChanged { path: Seq<char> },
    DependencyUnreadable { path: Seq<char> },
}

impl View for Diagnostic {
    type V = DiagnosticModel;

    open spec fn view(&self) -> DiagnosticModel {
        match self {
            Diagnostic::NoArtifacts => DiagnosticModel::NoArtifacts,
            Diagnostic::BuiltTimeUnknown => DiagnosticModel::BuiltTimeUnknown,
            Diagnostic::ManifestUnreadable => DiagnosticModel::ManifestUnreadable,
            Diagnostic::DependencyChanged { path } => DiagnosticModel::DependencyChanged {
                path: path@,
            },
            Diagnostic::DependencyUnreadable { path } => DiagnosticModel::DependencyUnreadable {
                path: path@,
            },
        }
    }
}

/// The modification time a snapshot records for `path`: that of its first
/// entry for the path, or `None` where there is no entry.
pub open spec fn lookup_mtime(entries: Seq<(String, u64)>, path: Seq<char>) -> Option<u64>
    decreases entries.len(),
{
    if entries.len() == 0 {
        None
    } else if entries[0].0@ == path {
        Some(entries[0].1)
    } else {
        lookup_mtime(entries.drop_first(), path)
    }
}

/// Whether the file at `path` is no newer than the baseline. An unknown
/// modification time counts as changed.
pub open spec fn path_current(entries: Seq<(String, u64)>, path: Seq<char>, built_time: u64) -> bool {
    match lookup_mtime(entries, path) {
        Some(t) => t <= built_time,
        None => false,
    }
}

/// The diagnostic a non-current path triggers: `DependencyChanged` when
/// its time is known (and newer), `DependencyUnreadable` otherwise.
pub open spec fn path_diagnostic(
    entries: Seq<(String, u64)>,
    path: Seq<char>,
    built_time: u64,
) -> DiagnosticModel {
    match lookup_mtime(entries, path) {
        Some(_) => DiagnosticModel::DependencyChanged { path },
        None => DiagnosticModel::DependencyUnreadable { path },
    }
}

/// Whether every path in `paths` is current against the baseline.
pub open spec fn deps_current(
    entries: Seq<(String, u64)>,
    paths: Seq<Seq<char>>,
    built_time: u64,
) -> bool {
    forall|k: int| 0 <= k < paths.len() ==> path_current(entries, paths[k], built_time)
}

/// The index of the first non-current path in `paths` (its length when
/// every path is current).
pub open spec fn first_stale_dep(
    entries: Seq<(String, u64)>,
    paths: Seq<Seq<char>>,
    built_time: u64,
) -> int
    decreases paths.len(),
{
    if paths.len() == 0 {
        0
    } else if !path_current(entries, paths[0], built_time) {
        0
    } else {
        1 + first_stale_dep(entries, paths.drop_first(), built_time)
    }
}

/// The overall verdict. Artifacts are current exactly when the manifest
/// is present and fully readable and every recorded dependency, the
/// running executable, and the configuration file are no newer than the
/// manifest's own modification time.
pub open spec fn verdict_current(
    manifest: Option<ManifestFile>,
    entries: Seq<(String, u64)>,
    exe_path: Seq<char>,
    config_path: Seq<char>,
) -> bool {
    match manifest {
        Option::None => false,
        Option::Some(mf) => match mf.mtime {
            Option::None => false,
            Option::Some(built_time) => match mf.content {
                Option::None => false,
                Option::Some(content) => deps_current(
                    entries,
                    manifest_dep_paths(content@),
                    built_time,
                ) && path_current(entries, exe_path, built_time) && path_current(
                    entries,
                    config_path,
                    built_time,
                ),
            },
        },
    }
}

/// The single diagnostic a stale verdict carries: the first check that
/// failed, in the order the checks run (manifest presence, baseline
/// time, manifest text, each recorded dependency in order, the running
/// executable, the configuration file).
pub open spec fn stale_cause(
    manifest: Option<ManifestFile>,
    entries: Seq<(String, u64)>,
    exe_path: Seq<char>,
    config_path: Seq<char>,
) -> DiagnosticModel
    recommends
        !verdict_current(manifest, entries, exe_path, config_path),
{
    match manifest {
        Option::None => DiagnosticModel::NoArtifacts,
        Option::Some(mf) => match mf.mtime {
            Option::None => DiagnosticModel::BuiltTimeUnknown,
            Option::Some(built_time) => match mf.content {
                Option::None => DiagnosticModel::ManifestUnreadable,
                Option::Some(content) => {
                    let paths = manifest_dep_paths(content@);
                    if !deps_current(entries, paths, built_time) {
                        path_diagnostic(
                            entries,
                            paths[first_stale_dep(entries, paths, built_time)],
                            built_time,
                        )
                    } else if !path_current(entries, exe_path, built_time) {
                        path_diagnostic(entries, exe_path, built_time)
                    } else {
                        path_diagnostic(entries, config_path, built_time)
                    }
                },
            },
        },
    }
}

/// If the first `i` paths are current and path `i` is not, then path `i`
/// is the first stale one.
proof fn lemma_first_stale_at(
    entries: Seq<(String, u64)>,
    paths: Seq<Seq<char>>,
    built_time: u64,
    i: int,
)
    requires
        0 <= i < paths.len(),
        forall|k: int| 0 <= k < i ==> path_current(entries, paths[k], built_time),
        !path_current(entries, paths[i], built_time),
    ensures
        !deps_current(entries, paths, built_time),
        first_stale_dep(entries, paths, built_time) == i,
    decreases i,
{
    if i == 0 {
    } else {
        assert(path_current(entries, paths[0], built_time));
        let rest = paths.drop_first();
        assert(forall|k: int| 0 <= k < i - 1 ==> rest[k] == paths[k + 1]);
        assert(rest[i - 1] == paths[i]);
        lemma_first_stale_at(entries, rest, built_time, i - 1);
    }
}

impl FsSnapshot {
    /// The modification time recorded for `path`, or `None` where the
    /// snapshot has no entry for it.
    pub fn mtime(&self, path: &String) -> (r: Option<u64>)
        ensures
            r == lookup_mtime(self.entries@, path@),
    {
        let mut idx: usize = 0;
        proof {
            assert(self.entries@.skip(0) =~= self.entries@);
        }
        while idx < self.entries.len()
            invariant
                idx <= self.entries@.len(),
                lookup_mtime(self.entries@, path@) == lookup_mtime(
                    self.entries@.skip(idx as int),
                    path@,
                ),
            decreases self.entries@.len() - idx,
        {
            let ghost suffix = self.entries@.skip(idx as int);
            proof {
                assert(suffix[0] == self.entries@[idx as int]);
                assert(suffix.drop_first() =~= self.entries@.skip(idx as int + 1));
            }
            if self.entries[idx].0 == *path {
                return Some(self.entries[idx].1);
            }
            idx += 1;
        }
        proof {
            assert(self.entries@.skip(idx as int) =~= Seq::<(String, u64)>::empty());
        }
        None
    }
}

/// Whether the file at `path` is no newer than `built_time`, with the
/// diagnostic to emit when it is not. A path whose time the snapshot
/// does not record counts as changed, so the verdict biases toward
/// rebuilding.
pub fn dependency_current(fs: &FsSnapshot, path: &String, built_time: u64) -> (r: (
    bool,
    Option<Diagnostic>,
))
    ensures
        r.0 == path_current(fs.entries@, path@, built_time),
        r.0 ==> r.1 is None,
        !r.0 ==> (r.1 matches Some(d) && d@ == path_diagnostic(fs.entries@, path@, built_time)),
{
    match fs.mtime(path) {
        Some(t) => {
            if t <= built_time {
                (true, None)
            } else {
                (false, Some(Diagnostic::DependencyChanged { path: path.clone() }))
            }
        },
        None => (false, Some(Diagnostic::DependencyUnreadable { path: path.clone() })),
    }
}

/// Determine whether the generated artifacts are current.
///
/// Returns the verdict together with the diagnostics to emit: none when
/// the artifacts are current, exactly one — the first failed check —
/// when they are stale.
#[verifier::loop_isolation(false)]
pub fn artifacts_current(
    manifest: &Option<ManifestFile>,
    fs: &FsSnapshot,
    exe_path: &String,
    config_path: &String,
) -> (r: (bool, Vec<Diagnostic>))
    ensures
        r.0 == verdict_current(*manifest, fs.entries@, exe_path@, config_path@),
        r.0 ==> r.1@.len() == 0,
        !r.0 ==> r.1@.len() == 1 && r.1@[0]@ == stale_cause(
            *manifest,
            fs.entries@,
            exe_path@,
            config_path@,
        ),
{
    let mf = match manifest {
        Option::None => {
            return (false, vec![Diagnostic::NoArtifacts]);
        },
        Option::Some(mf) => mf,
    };
    let built_time = match mf.mtime {
        Option::None => {
            return (false, vec![Diagnostic::BuiltTimeUnknown]);
        },
        Option::Some(t) => t,
    };
    let content = match &mf.content {
        Option::None => {
            return (false, vec![Diagnostic::ManifestUnreadable]);
        },
        Option::Some(c) => c,
    };
    let paths = manifest_dependency_paths(content.as_str());
    let ghost dep_paths = manifest_dep_paths(content@);
    let mut idx: usize = 0;
    while idx < paths.len()
        invariant
            paths.deep_view() == dep_paths,
            idx <= paths@.len(),
            paths@.len() == dep_paths.len(),
            forall|k: int| 0 <= k < idx ==> path_current(fs.entries@, dep_paths[k], built_time),
        decreases paths@.len() - idx,
    {
        let (ok, diag) = dependency_current(fs, &paths[idx], built_time);
        proof {
            assert(paths@[idx as int]@ == dep_paths[idx as int]);
        }
        if !ok {
            proof {
                lemma_first_stale_at(fs.entries@, dep_paths, built_time, idx as int);
            }
            return (false, vec![diag.unwrap()]);
        }
        idx += 1;
    }
    let (exe_ok, exe_diag) = dependency_current(fs, exe_path, built_time);
    if !exe_ok {
        return (false, vec![exe_diag.unwrap()]);
    }
    let (config_ok, config_diag) = dependency_current(fs, config_path, built_time);
    if !config_ok {
        return (false, vec![config_diag.unwrap()]);
    }
    (true, Vec::new())
}

/// Law: the verdict is "current" exactly when the manifest is present
/// with a readable modification time and text, every dependency it
/// records has a known modification time no newer than the baseline, and
/// so do the running executable and the configuration file.
pub proof fn lemma_verdict_characterization(
    manifest: Option<ManifestFile>,
    entries: Seq<(String, u64)>,
    exe_path: Seq<char>,
    config_path: Seq<char>,
)
    ensures
        verdict_current(manifest, entries, exe_path, config_path) <==> ({
            &&& manifest matches Some(mf)
            &&& mf.mtime matches Some(built_time)
            &&& mf.content matches Some(content)
            &&& forall|k: int|
                0 <= k < manifest_dep_paths(content@).len() ==> path_current(
                    entries,
                    manifest_dep_paths(content@)[k],
                    built_time,
                )
            &&& path_current(entries, exe_path, built_time)
            &&& path_current(entries, config_path, built_time)
        }),
{
}

/// Law: the staleness check is idempotent. [`artifacts_current`] ensures
/// that its verdict equals `verdict_current` of the inputs, so any two
/// checks with no change to the manifest or the recorded modification
/// times between them return the same verdict.
pub proof fn lemma_verdict_idempotent(
    manifest: Option<ManifestFile>,
    entries: Seq<(String, u64)>,
    exe_path: Seq<char>,
    config_path: Seq<char>,
    first: bool,
    second: bool,
)
    requires
        first == verdict_current(manifest, entries, exe_path, config_path),
        second == verdict_current(manifest, entries, exe_path, config_path),
    ensures
        first == second,
{
}

/// Law: a missing manifest always means "stale", whatever the state of
/// the dependencies.
pub proof fn lemma_missing_manifest_stale(
    entries: Seq<(String, u64)>,
    exe_path: Seq<char>,
    config_path: Seq<char>,
)
    ensures
        !verdict_current(Option::None, entries, exe_path, config_path),
        stale_cause(Option::None, entries, exe_path, config_path)
            == DiagnosticModel::NoArtifacts,
{
}

} // verus!
