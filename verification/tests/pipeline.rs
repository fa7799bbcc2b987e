use pyoxidizer::pipeline::Pipeline;
use pyoxidizer::pipeline::PipelineMode;
use pyoxidizer::pipeline::PipelineState;
use pyoxidizer::pipeline::Stage;
use pyoxidizer::toolchain::toolchain_outcome_result;
use pyoxidizer::toolchain::SpawnOutcome;
use pyoxidizer::BuildError;

#[test]
fn build_runs_stages_in_order() {
    let mut p = Pipeline::new(PipelineMode::Build);
    let mut performed = Vec::new();
    while let Some(stage) = p.next_stage() {
        performed.push(stage);
        p.advance(true);
    }
    assert_eq!(
        performed,
        vec![Stage::Artifacts, Stage::Toolchain, Stage::Packaging]
    );
    assert_eq!(p.state, PipelineState::Done);
}

#[test]
fn build_and_run_includes_run_stage() {
    let mut p = Pipeline::new(PipelineMode::BuildAndRun);
    let mut performed = Vec::new();
    while let Some(stage) = p.next_stage() {
        performed.push(stage);
        p.advance(true);
    }
    assert_eq!(
        performed,
        vec![Stage::Artifacts, Stage::Toolchain, Stage::Packaging, Stage::Run]
    );
    assert_eq!(p.state, PipelineState::Done);
}

#[test]
fn artifacts_only_stops_after_artifacts() {
    let mut p = Pipeline::new(PipelineMode::ArtifactsOnly);
    let mut performed = Vec::new();
    while let Some(stage) = p.next_stage() {
        performed.push(stage);
        p.advance(true);
    }
    assert_eq!(performed, vec![Stage::Artifacts]);
    assert_eq!(p.state, PipelineState::Done);
}

#[test]
fn toolchain_failure_skips_packaging() {
    // The toolchain subprocess exits with code 1: the stage fails, the
    // packaging collaborator is never invoked, and the pipeline ends in
    // the failed state.
    let mut p = Pipeline::new(PipelineMode::Build);
    let mut packaging_calls = 0;
    while let Some(stage) = p.next_stage() {
        let ok = match stage {
            Stage::Artifacts => true,
            Stage::Toolchain => {
                let r = toolchain_outcome_result(&SpawnOutcome::Exited { code: 1 });
                assert_eq!(r, Err(BuildError::ToolchainBuild { exit_code: 1 }));
                r.is_ok()
            }
            Stage::Packaging => {
                packaging_calls += 1;
                true
            }
            Stage::Run => true,
        };
        p.advance(ok);
    }
    assert_eq!(packaging_calls, 0);
    assert_eq!(
        p.state,
        PipelineState::Failed {
            stage: Stage::Toolchain
        }
    );
}

#[test]
fn artifact_failure_stops_everything() {
    let mut p = Pipeline::new(PipelineMode::BuildAndRun);
    let mut later_calls = 0;
    while let Some(stage) = p.next_stage() {
        let ok = match stage {
            Stage::Artifacts => false,
            _ => {
                later_calls += 1;
                true
            }
        };
        p.advance(ok);
    }
    assert_eq!(later_calls, 0);
    assert_eq!(
        p.state,
        PipelineState::Failed {
            stage: Stage::Artifacts
        }
    );
}
