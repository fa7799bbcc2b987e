//! Pipeline sequencing: the stages of one build/run invocation, driven
//! in order with fail-fast semantics.
//!
//! The pipeline is a small state machine. The caller repeatedly asks
//! which stage to perform next, performs it (filesystem work or a
//! subprocess), and reports success or failure back. A failure moves the
//! machine into a terminal `Failed` state from which no further stage is
//! ever requested; there is no retry at this layer.

use vstd::prelude::*;

verus! {

/// One stage of the pipeline, in execution order.
#[derive(Clone, Copy, Debug, PartialEq, Eq, Structural)]
pub enum Stage {
    /// Ensure the embedding artifacts exist and are current.
    Artifacts,
    /// Invoke the external toolchain to build the binary.
    Toolchain,
    /// Package the built binary into the application tree.
    Packaging,
    /// Run the produced executable.
    Run,
}

/// Which stages one invocation performs.
#[derive(Clone, Copy, Debug, PartialEq, Eq, Structural)]
pub enum PipelineMode {
    /// Only ensure artifacts, into a caller-chosen destination.
    ArtifactsOnly,
    /// Build and package, but do not run.
    Build,
    /// Build, package, then run the produced executable.
    BuildAndRun,
}

/// How far the pipeline has come. The intermediate states name the last
/// completed stage; `Done` is reached when the mode's final stage
/// completes, `Failed` when any stage fails.
#[derive(Clone, Copy, Debug, PartialEq, Eq, Structural)]
pub enum PipelineState {
    NotStarted,
    ArtifactsEnsured,
    ToolchainInvoked,
    Packaged,
    Done,
    Failed { stage: Stage },
}

/// One pipeline invocation: its mode and how far it has come.
#[derive(Clone, Copy, Debug, PartialEq, Eq, Structural)]
pub struct Pipeline {
    pub mode: PipelineMode,
    pub state: PipelineState,
}

impl Pipeline {
    /// The stage to perform next, or `None` when the pipeline is done or
    /// has failed.
    pub open spec fn next_stage_spec(self) -> Option<Stage> {
        match self.state {
            PipelineState::NotStarted => Some(Stage::Artifacts),
            PipelineState::ArtifactsEnsured => Some(Stage::Toolchain),
            PipelineState::ToolchainInvoked => Some(Stage::Packaging),
            PipelineState::Packaged => Some(Stage::Run),
            PipelineState::Done => None,
            PipelineState::Failed { .. } => None,
        }
    }

    /// The state after performing the next stage with the given outcome:
    /// failure is recorded with the failing stage; success moves on, or
    /// completes the pipeline when the mode asks for nothing further.
    pub open spec fn step_spec(self, ok: bool) -> PipelineState {
        match self.next_stage_spec() {
            Option::None => self.state,
            Option::Some(stage) => {
                if !ok {
                    PipelineState::Failed { stage }
                } else {
                    match stage {
                        Stage::Artifacts => {
                            if self.mode == PipelineMode::ArtifactsOnly {
                                PipelineState::Done
                            } else {
                                PipelineState::ArtifactsEnsured
                            }
                        },
                        Stage::Toolchain => PipelineState::ToolchainInvoked,
                        Stage::Packaging => {
                            if self.mode == PipelineMode::BuildAndRun {
                                PipelineState::Packaged
                            } else {
                                PipelineState::Done
                            }
                        },
                        Stage::Run => PipelineState::Done,
                    }
                }
            },
        }
    }

    /// A fresh pipeline for one invocation.
    pub fn new(mode: PipelineMode) -> (p: Pipeline)
        ensures
            p.mode == mode,
            p.state == PipelineState::NotStarted,
    {
        Pipeline { mode, state: PipelineState::NotStarted }
    }

    /// The stage to perform next, or `None` when nothing further runs.
    pub fn next_stage(&self) -> (r: Option<Stage>)
        ensures
            r == self.next_stage_spec(),
    {
        match self.state {
            PipelineState::NotStarted => Some(Stage::Artifacts),
            PipelineState::ArtifactsEnsured => Some(Stage::Toolchain),
            PipelineState::ToolchainInvoked => Some(Stage::Packaging),
            PipelineState::Packaged => Some(Stage::Run),
            PipelineState::Done => None,
            PipelineState::Failed { .. } => None,
        }
    }

    /// Record the outcome of the stage that was to be performed next.
    pub fn advance(&mut self, ok: bool)
        requires
            old(self).next_stage_spec() is Some,
        ensures
            final(self).mode == old(self).mode,
            final(self).state == old(self).step_spec(ok),
    {
        let stage = match self.next_stage() {
            Option::Some(s) => s,
            Option::None => {
                return ;
            },
        };
        if !ok {
            self.state = PipelineState::Failed { stage };
            return ;
        }
        self.state = match stage {
            Stage::Artifacts => {
                if matches!(self.mode, PipelineMode::ArtifactsOnly) {
                    PipelineState::Done
                } else {
                    PipelineState::ArtifactsEnsured
                }
            },
            Stage::Toolchain => PipelineState::ToolchainInvoked,
            Stage::Packaging => {
                if matches!(self.mode, PipelineMode::BuildAndRun) {
                    PipelineState::Packaged
                } else {
                    PipelineState::Done
                }
            },
            Stage::Run => PipelineState::Done,
        };
    }
}

/// The stages a pipeline performs when driven with the given stage
/// outcomes, in order: each step performs the next requested stage and
/// records its outcome, until no stage is requested or the outcomes run
/// out.
pub open spec fn performed_stages(p: Pipeline, outcomes: Seq<bool>) -> Seq<Stage>
    decreases outcomes.len(),
{
    if outcomes.len() == 0 {
        Seq::<Stage>::empty()
    } else {
        match p.next_stage_spec() {
            Option::None => Seq::<Stage>::empty(),
            Option::Some(stage) => seq![stage] + performed_stages(
                Pipeline { mode: p.mode, state: p.step_spec(outcomes[0]) },
                outcomes.drop_first(),
            ),
        }
    }
}

/// Law: a failed pipeline performs nothing further, whatever outcomes
/// would follow.
pub proof fn lemma_failed_performs_nothing(p: Pipeline, outcomes: Seq<bool>)
    requires
        p.state matches PipelineState::Failed { .. },
    ensures
        performed_stages(p, outcomes) == Seq::<Stage>::empty(),
{
}

/// Law: the pipeline short-circuits. When the toolchain stage is next
/// and fails, the only stage still performed is that toolchain attempt:
/// the packaging stage is never invoked, whatever outcomes would follow.
pub proof fn lemma_toolchain_failure_never_packages(p: Pipeline, outcomes: Seq<bool>)
    requires
        p.next_stage_spec() == Some(Stage::Toolchain),
        outcomes.len() > 0,
        !outcomes[0],
    ensures
        performed_stages(p, outcomes) =~= seq![Stage::Toolchain],
        !performed_stages(p, outcomes).contains(Stage::Packaging),
{
    let failed = Pipeline { mode: p.mode, state: p.step_spec(false) };
    lemma_failed_performs_nothing(failed, outcomes.drop_first());
    assert(performed_stages(p, outcomes) =~= seq![Stage::Toolchain]);
    assert(performed_stages(p, outcomes)[0] == Stage::Toolchain);
}

/// Law: a failed pipeline is terminal — it never requests another
/// stage, so no stage executes after a failure.
pub proof fn lemma_failed_is_terminal(p: Pipeline)
    requires
        p.state matches PipelineState::Failed { .. },
    ensures
        p.next_stage_spec() is None,
{
}

/// Law: any stage failure halts the pipeline — after recording a
/// failure, no next stage exists.
pub proof fn lemma_failure_halts(p: Pipeline)
    requires
        p.next_stage_spec() is Some,
    ensures
        (Pipeline { mode: p.mode, state: p.step_spec(false) }).next_stage_spec() is None,
{
}

/// Law: the pipeline short-circuits — when the toolchain stage fails,
/// the packaging stage is never requested afterwards.
pub proof fn lemma_toolchain_failure_skips_packaging(p: Pipeline)
    requires
        p.next_stage_spec() == Some(Stage::Toolchain),
    ensures
        (Pipeline { mode: p.mode, state: p.step_spec(false) }).next_stage_spec() is None,
        p.step_spec(false) == (PipelineState::Failed { stage: Stage::Toolchain }),
{
}

} // verus!
