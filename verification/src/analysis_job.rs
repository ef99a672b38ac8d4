//! Analysis jobs as the engine manager reports them, and which of their
//! results the workspace may publish or attach.
use vstd::prelude::*;
use crate::model::{AnalysisFrameDto, EngineFailureDto, NodePath};
use crate::text::str_eq;

verus! {

impl EngineFailureDto {
    /// The same failure, scoped to an analysis job.
    pub fn with_job_id<I: Into<String>>(self, job_id: I) -> (r: Self)
        ensures
            r.job_id is Some,
            call_ensures(I::into, (job_id,), r.job_id->0),
            r == (EngineFailureDto { job_id: r.job_id, ..self }),
    {
        let mut s = self;
        s.job_id = Some(job_id.into());
        s
    }

    /// The same failure, scoped to an engine switch.
    pub fn with_switch_id<I: Into<String>>(self, switch_id: I) -> (r: Self)
        ensures
            r.switch_id is Some,
            call_ensures(I::into, (switch_id,), r.switch_id->0),
            r == (EngineFailureDto { switch_id: r.switch_id, ..self }),
    {
        let mut s = self;
        s.switch_id = Some(switch_id.into());
        s
    }
}

#[derive(Debug, Clone, Copy, PartialEq, Eq, Structural)]
pub enum AnalysisJobLaneDto {
    SelectedNode,
    WholeGame,
}

#[derive(Debug, Clone, Copy, PartialEq, Eq, Structural)]
pub enum AnalysisJobOutcomeDto {
    Started,
    Progress,
    Completed,
    Cancelled,
    Superseded,
    Timeout,
    Failed,
}

#[derive(Debug, PartialEq, Eq)]
pub struct AnalysisJobStartedDto {
    pub run_id: String,
    pub job_id: String,
    pub lane: AnalysisJobLaneDto,
    pub generation: u64,
    pub node_path: NodePath,
}

/// Two started-job records name the same job of the same run, lane,
/// generation and node.
pub open spec fn same_started(a: AnalysisJobStartedDto, b: AnalysisJobStartedDto) -> bool {
    &&& a.run_id == b.run_id
    &&& a.job_id == b.job_id
    &&& a.lane == b.lane
    &&& a.generation == b.generation
    &&& a.node_path@ == b.node_path@
}

impl Clone for AnalysisJobStartedDto {
    fn clone(&self) -> (r: Self)
        ensures
            same_started(r, *self),
    {
        AnalysisJobStartedDto {
            run_id: self.run_id.clone(),
            job_id: self.job_id.clone(),
            lane: self.lane,
            generation: self.generation,
            node_path: self.node_path.clone(),
        }
    }
}

/// What identifies the one result that the workspace currently waits for.
#[derive(Debug, Clone, PartialEq, Eq)]
pub struct AnalysisPublicationScopeDto {
    pub run_id: String,
    pub job_id: String,
    pub generation: u64,
    pub node_path: NodePath,
}

#[derive(Debug, Clone, PartialEq)]
pub struct AnalysisJobEventDto {
    pub run_id: String,
    pub job_id: String,
    pub lane: AnalysisJobLaneDto,
    pub generation: u64,
    pub node_path: NodePath,
    pub outcome: AnalysisJobOutcomeDto,
    pub completed: Option<usize>,
    pub expected: Option<usize>,
    pub remaining: Option<usize>,
    pub frame: Option<AnalysisFrameDto>,
    pub failure: Option<EngineFailureDto>,
}

impl AnalysisJobStartedDto {
    /// The publication scope of the started job.
    pub fn publication_scope(&self) -> (r: AnalysisPublicationScopeDto)
        ensures
            r.run_id == self.run_id,
            r.job_id == self.job_id,
            r.generation == self.generation,
            r.node_path@ == self.node_path@,
    {
        AnalysisPublicationScopeDto {
            run_id: self.run_id.clone(),
            job_id: self.job_id.clone(),
            generation: self.generation,
            node_path: self.node_path.clone(),
        }
    }
}

impl AnalysisJobEventDto {
    /// The publication scope that the event belongs to.
    pub fn publication_scope(&self) -> (r: AnalysisPublicationScopeDto)
        ensures
            r.run_id == self.run_id,
            r.job_id == self.job_id,
            r.generation == self.generation,
            r.node_path@ == self.node_path@,
    {
        AnalysisPublicationScopeDto {
            run_id: self.run_id.clone(),
            job_id: self.job_id.clone(),
            generation: self.generation,
            node_path: self.node_path.clone(),
        }
    }
}

/// A completed result with a frame, for exactly the scope being waited for.
pub open spec fn admits_publication_spec(
    event: AnalysisJobEventDto,
    current: AnalysisPublicationScopeDto,
) -> bool {
    &&& event.outcome == AnalysisJobOutcomeDto::Completed
    &&& event.frame is Some
    &&& event.run_id@ == current.run_id@
    &&& event.job_id@ == current.job_id@
    &&& event.generation == current.generation
    &&& event.node_path@ == current.node_path@
}

pub fn admits_analysis_publication(
    event: &AnalysisJobEventDto,
    current: &AnalysisPublicationScopeDto,
) -> (r: bool)
    ensures
        r == admits_publication_spec(*event, *current),
{
    event.outcome == AnalysisJobOutcomeDto::Completed && event.frame.is_some() && str_eq(
        &event.run_id,
        &current.run_id,
    ) && str_eq(&event.job_id, &current.job_id) && event.generation == current.generation
        && event.node_path.same_as(&current.node_path)
}

/// A frame that has searched and has candidates, from the lane's projectable
/// outcome: a completed selected-node job, or whole-game progress.
pub open spec fn admits_attachment_spec(event: AnalysisJobEventDto) -> bool {
    match event.frame {
        None => false,
        Some(frame) => frame.visits != 0 && frame.candidates.len() != 0 && match event.lane {
            AnalysisJobLaneDto::SelectedNode => event.outcome == AnalysisJobOutcomeDto::Completed,
            AnalysisJobLaneDto::WholeGame => event.outcome == AnalysisJobOutcomeDto::Progress,
        },
    }
}

pub fn admits_analysis_attachment(event: &AnalysisJobEventDto) -> (r: bool)
    ensures
        r == admits_attachment_spec(*event),
{
    let frame = match event.frame.as_ref() {
        Some(frame) => frame,
        None => {
            return false;
        },
    };
    if frame.visits == 0 || frame.candidates.len() == 0 {
        return false;
    }
    match event.lane {
        AnalysisJobLaneDto::SelectedNode => event.outcome == AnalysisJobOutcomeDto::Completed,
        AnalysisJobLaneDto::WholeGame => event.outcome == AnalysisJobOutcomeDto::Progress,
    }
}

} // verus!
