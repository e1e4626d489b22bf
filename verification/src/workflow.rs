use vstd::prelude::*;
use crate::errors::ProvisionError;

verus! {

/// One stage of the provisioning pipeline. The stages run in a fixed order —
/// key ensure, listing, selection, deployment, connection report — each
/// gated on the success of the one before it.
#[derive(Debug, Clone, Copy, PartialEq, Eq, Structural)]
pub enum Stage {
    EnsureKey,
    ListInstances,
    SelectInstance,
    DeployKey,
    ReportConnection,
}

/// Where the workflow stands: still running some stage, finished after all
/// five stages succeeded, or halted at the first failing stage carrying that
/// stage's own error. There is no rollback state: earlier side effects are
/// safe to leave in place.
#[derive(Debug)]
pub enum WorkflowState {
    Running(Stage),
    Completed,
    Failed(Stage, ProvisionError),
}

/// The stage after a given stage in the fixed order, `None` after the last.
pub open spec fn next_stage_spec(stage: Stage) -> Option<Stage> {
    match stage {
        Stage::EnsureKey => Some(Stage::ListInstances),
        Stage::ListInstances => Some(Stage::SelectInstance),
        Stage::SelectInstance => Some(Stage::DeployKey),
        Stage::DeployKey => Some(Stage::ReportConnection),
        Stage::ReportConnection => None,
    }
}

/// The workflow state after one stage has run: a failure halts the pipeline
/// at that stage, carrying its error unchanged; success moves to the next
/// stage, or completes the workflow after the last one.
pub open spec fn advance_spec(stage: Stage, failure: Option<ProvisionError>) -> WorkflowState {
    match failure {
        Some(e) => WorkflowState::Failed(stage, e),
        None => match next_stage_spec(stage) {
            Some(n) => WorkflowState::Running(n),
            None => WorkflowState::Completed,
        },
    }
}

/// The stage after this one, as [`next_stage_spec`] says.
pub fn next_stage(stage: Stage) -> (r: Option<Stage>)
    ensures
        r == next_stage_spec(stage),
{
    match stage {
        Stage::EnsureKey => Some(Stage::ListInstances),
        Stage::ListInstances => Some(Stage::SelectInstance),
        Stage::SelectInstance => Some(Stage::DeployKey),
        Stage::DeployKey => Some(Stage::ReportConnection),
        Stage::ReportConnection => None,
    }
}

/// Advances the workflow by the outcome of one stage, as [`advance_spec`]
/// says: `failure` carries the stage's error when it failed.
pub fn advance(stage: Stage, failure: Option<ProvisionError>) -> (r: WorkflowState)
    ensures
        r == advance_spec(stage, failure),
{
    match failure {
        Some(e) => WorkflowState::Failed(stage, e),
        None => match next_stage(stage) {
            Some(n) => WorkflowState::Running(n),
            None => WorkflowState::Completed,
        },
    }
}

/// Law: a stage failure is never downgraded or swallowed. The workflow halts
/// at exactly the failing stage, carrying exactly its error, and no partial
/// success is ever reported as completion.
pub proof fn lemma_failure_halts_pipeline(stage: Stage, e: ProvisionError)
    ensures
        advance_spec(stage, Some(e)) == WorkflowState::Failed(stage, e),
        !(advance_spec(stage, Some(e)) is Completed),
{
}

/// Law: the workflow completes only by succeeding at the last stage; a
/// success at any earlier stage only moves it to that stage's successor in
/// the fixed order.
pub proof fn lemma_completion_only_after_last_stage(stage: Stage)
    ensures
        advance_spec(stage, None) is Completed <==> stage is ReportConnection,
        next_stage_spec(stage) matches Some(n) ==> advance_spec(stage, None)
            == WorkflowState::Running(n),
{
}

} // verus!
