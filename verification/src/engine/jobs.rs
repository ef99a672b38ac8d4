//! Registered analysis jobs: the published snapshot, the current job of each
//! lane, job events, and the admission, pause, continuation and stop of
//! analysis tasks.
use vstd::prelude::*;
use crate::analysis_job::{
    AnalysisJobEventDto, AnalysisJobLaneDto, AnalysisJobOutcomeDto, AnalysisJobStartedDto,
};
use crate::analysis_task::{
    AnalysisScopeDto, AnalysisStageConditionsDto, AnalysisTaskDto, AnalysisTaskStageDto,
    AnalysisTaskStateDto, AnalysisTaskStrategyDto,
};
use crate::model::{
    opt_string_view, AnalysisFrameDto, EngineFailureDto, EngineFailureKind, EngineOperationDto,
    EngineRunDto, ForegroundEngineLifecycleDto, ForegroundEngineSnapshotDto, NodePath,
};
use crate::text::str_eq;
use super::{
    admitting_run, admitting_spec, continuous_invalid_state, empty_whole_game_failure,
    empty_whole_game_message, failure, invalid_state_of, opt_str_view, same_position, EnginePhase,
};
use super::continuous::{limited_state, AnalysisJobModeDto, AnalysisJobStateDto};
use crate::preferences::ContinuousAnalysisBudgetDto;

verus! {

broadcast use vstd::string::group_string_axioms;

/// The lifecycle a phase is published as.
pub open spec fn lifecycle_spec(phase: EnginePhase) -> ForegroundEngineLifecycleDto {
    match phase {
        EnginePhase::NoEngine { failure } => ForegroundEngineLifecycleDto::NoEngine { failure },
        EnginePhase::Starting(run) => ForegroundEngineLifecycleDto::Starting { run },
        EnginePhase::Ready(run) => ForegroundEngineLifecycleDto::Ready { run },
        EnginePhase::Switching { primary, candidate, switch_id } => {
            ForegroundEngineLifecycleDto::Switching { primary, candidate, switch_id }
        },
        EnginePhase::Stopping(run) => ForegroundEngineLifecycleDto::Stopping { run },
        EnginePhase::Error { run, failure } => ForegroundEngineLifecycleDto::Error { run, failure },
    }
}

/// The lifecycle a phase is published as.
pub fn lifecycle_of(phase: &EnginePhase) -> (r: ForegroundEngineLifecycleDto)
    ensures
        r == lifecycle_spec(*phase),
{
    match phase {
        EnginePhase::NoEngine { failure } => ForegroundEngineLifecycleDto::NoEngine {
            failure: match failure {
                Some(f) => Some(f.clone()),
                None => None,
            },
        },
        EnginePhase::Starting(run) => ForegroundEngineLifecycleDto::Starting { run: run.clone() },
        EnginePhase::Ready(run) => ForegroundEngineLifecycleDto::Ready { run: run.clone() },
        EnginePhase::Switching { primary, candidate, switch_id } => {
            ForegroundEngineLifecycleDto::Switching {
                primary: primary.clone(),
                candidate: candidate.clone(),
                switch_id: switch_id.clone(),
            }
        },
        EnginePhase::Stopping(run) => ForegroundEngineLifecycleDto::Stopping { run: run.clone() },
        EnginePhase::Error { run, failure } => ForegroundEngineLifecycleDto::Error {
            run: run.clone(),
            failure: failure.clone(),
        },
    }
}

/// The snapshot published for a phase at a revision, with the current job of
/// each lane.
pub fn snapshot_from(
    revision: u64,
    phase: &EnginePhase,
    selected_node_job: Option<AnalysisJobStartedDto>,
    whole_game_job: Option<AnalysisJobStartedDto>,
) -> (r: ForegroundEngineSnapshotDto)
    ensures
        r == (ForegroundEngineSnapshotDto {
            revision,
            lifecycle: lifecycle_spec(*phase),
            selected_node_job,
            whole_game_job,
        }),
{
    let mut snapshot = ForegroundEngineSnapshotDto::with_lifecycle(revision, lifecycle_of(phase));
    snapshot.selected_node_job = selected_node_job;
    snapshot.whole_game_job = whole_game_job;
    snapshot
}

/// Why a registered job ended, or that it still runs.
#[derive(Debug, Clone, Copy, PartialEq, Eq, Structural)]
pub enum JobDisposition {
    Running,
    BudgetReached,
    Superseded,
    Paused,
    Cancelled,
    TimedOut,
}

/// What the manager keeps of a registered job, as plain values.
#[derive(Debug, Clone)]
pub struct JobRecord {
    pub job_id: String,
    pub run_id: String,
    pub query_id: String,
    pub lane: AnalysisJobLaneDto,
    pub mode: AnalysisJobModeDto,
    pub state: AnalysisJobStateDto,
    pub generation: u64,
    pub node_path: NodePath,
    pub disposition: JobDisposition,
    pub expected: Option<usize>,
    pub current_index: usize,
    pub submitted: bool,
    pub terminal: bool,
    /// The node of each whole-game work item, in order.
    pub item_paths: Vec<NodePath>,
    /// When the job was submitted, in milliseconds of the manager's clock.
    pub submitted_at_ms: u64,
    /// When a requested cancellation must have been answered, if one was
    /// requested.
    pub cancel_deadline_ms: Option<u64>,
    /// The budget a continuous selected-node job was admitted with.
    pub continuous_budget: Option<ContinuousAnalysisBudgetDto>,
    /// The task conditions a whole-game query was seen reaching when it was
    /// stopped at its budget; its final line records these.
    pub pending_ending_conditions: Vec<String>,
}

/// Which registered jobs a removal takes out.
#[derive(Debug, Clone)]
pub enum JobSelector {
    /// The jobs with this id.
    WithId(String),
    /// The jobs of this run.
    OfRun(String),
    /// Selected-node jobs that have ended.
    FinishedSelected,
    /// The ended jobs with this id.
    EndedWithId(String),
    /// The jobs of this run that have not ended.
    LiveOfRun(String),
}

pub enum JobSelectorView {
    WithId(Seq<char>),
    OfRun(Seq<char>),
    FinishedSelected,
    EndedWithId(Seq<char>),
    LiveOfRun(Seq<char>),
}

impl View for JobSelector {
    type V = JobSelectorView;

    open spec fn view(&self) -> JobSelectorView {
        match self {
            JobSelector::WithId(id) => JobSelectorView::WithId(id@),
            JobSelector::OfRun(run) => JobSelectorView::OfRun(run@),
            JobSelector::FinishedSelected => JobSelectorView::FinishedSelected,
            JobSelector::EndedWithId(id) => JobSelectorView::EndedWithId(id@),
            JobSelector::LiveOfRun(run) => JobSelectorView::LiveOfRun(run@),
        }
    }
}

pub open spec fn selects(sel: JobSelectorView, job: JobRecord) -> bool {
    match sel {
        JobSelectorView::WithId(id) => job.job_id@ == id,
        JobSelectorView::OfRun(run) => job.run_id@ == run,
        JobSelectorView::FinishedSelected => job.lane == AnalysisJobLaneDto::SelectedNode
            && job.terminal,
        JobSelectorView::EndedWithId(id) => job.job_id@ == id && job.terminal,
        JobSelectorView::LiveOfRun(run) => job.run_id@ == run && !job.terminal,
    }
}

/// The jobs that a removal keeps, in their order.
pub open spec fn kept_jobs(jobs: Seq<JobRecord>, sel: JobSelectorView) -> Seq<JobRecord> {
    jobs.filter(|j: JobRecord| !selects(sel, j))
}

fn selects_exec(sel: &JobSelector, job: &JobRecord) -> (r: bool)
    ensures
        r == selects(sel@, *job),
{
    match sel {
        JobSelector::WithId(id) => str_eq(job.job_id.as_str(), id.as_str()),
        JobSelector::OfRun(run) => str_eq(job.run_id.as_str(), run.as_str()),
        JobSelector::FinishedSelected => job.lane == AnalysisJobLaneDto::SelectedNode
            && job.terminal,
        JobSelector::EndedWithId(id) => str_eq(job.job_id.as_str(), id.as_str()) && job.terminal,
        JobSelector::LiveOfRun(run) => str_eq(job.run_id.as_str(), run.as_str()) && !job.terminal,
    }
}

/// Takes out the jobs that `sel` selects, keeping the order of the others.
pub fn drop_jobs(jobs: &mut Vec<JobRecord>, sel: &JobSelector)
    ensures
        final(jobs)@ == kept_jobs(old(jobs)@, sel@),
{
    let ghost orig = old(jobs)@;
    let mut rest: Vec<JobRecord> = Vec::new();
    std::mem::swap(jobs, &mut rest);
    while rest.len() > 0
        invariant
            rest.len() <= orig.len(),
            rest@ == orig.skip(orig.len() - rest.len()),
            jobs@ == kept_jobs(orig.take(orig.len() - rest.len()), sel@),
        decreases rest.len(),
    {
        let ghost k = orig.len() - rest.len();
        let job = rest.remove(0);
        assert(job == orig[k]);
        assert(orig.take(k + 1).drop_last() =~= orig.take(k));
        assert(orig.take(k + 1).last() == orig[k]);
        proof {
            reveal(Seq::filter);
        }
        if !selects_exec(sel, &job) {
            jobs.push(job);
        }
        assert(rest@ =~= orig.skip(k + 1));
    }
    assert(orig.take(orig.len() as int) =~= orig);
}

/// The first job from `i` on with id `job_id` (and of run `run_id`, when
/// given), or the number of jobs when there is none.
pub open spec fn first_job(
    jobs: Seq<JobRecord>,
    job_id: Seq<char>,
    run_id: Option<Seq<char>>,
    i: int,
) -> int
    decreases jobs.len() - i,
{
    if i < 0 || i >= jobs.len() {
        jobs.len() as int
    } else if jobs[i].job_id@ == job_id && (run_id matches Some(r) ==> jobs[i].run_id@ == r) {
        i
    } else {
        first_job(jobs, job_id, run_id, i + 1)
    }
}

pub(crate) proof fn lemma_first_job_bounds(
    jobs: Seq<JobRecord>,
    job_id: Seq<char>,
    run_id: Option<Seq<char>>,
    i: int,
)
    requires
        0 <= i <= jobs.len(),
    ensures
        i <= first_job(jobs, job_id, run_id, i) <= jobs.len(),
        first_job(jobs, job_id, run_id, i) < jobs.len() ==> ({
            let k = first_job(jobs, job_id, run_id, i);
            jobs[k].job_id@ == job_id && (run_id matches Some(r) ==> jobs[k].run_id@ == r)
        }),
    decreases jobs.len() - i,
{
    if i < jobs.len() {
        lemma_first_job_bounds(jobs, job_id, run_id, i + 1);
    }
}

/// The index of the first job with id `job_id` (and of run `run_id`, when
/// given), or the number of jobs when there is none.
pub fn find_job(jobs: &Vec<JobRecord>, job_id: &str, run_id: Option<&str>) -> (r: usize)
    ensures
        r == first_job(jobs@, job_id@, opt_str_view(run_id), 0),
        r <= jobs.len(),
        r < jobs.len() ==> jobs@[r as int].job_id@ == job_id@ && (run_id matches Some(id)
            ==> jobs@[r as int].run_id@ == id@),
{
    proof {
        lemma_first_job_bounds(jobs@, job_id@, opt_str_view(run_id), 0);
    }
    let mut i: usize = 0;
    while i < jobs.len()
        invariant
            i <= jobs.len(),
            first_job(jobs@, job_id@, opt_str_view(run_id), 0) == first_job(
                jobs@,
                job_id@,
                opt_str_view(run_id),
                i as int,
            ),
        decreases jobs.len() - i,
    {
        let id_matches = str_eq(jobs[i].job_id.as_str(), job_id);
        let run_matches = match run_id {
            Some(r) => str_eq(jobs[i].run_id.as_str(), r),
            None => true,
        };
        if id_matches && run_matches {
            return i;
        }
        i += 1;
    }
    i
}

/// A job that is the current one of its lane: still running, or stopped at
/// its budget.
pub open spec fn is_current_in(job: JobRecord, lane: AnalysisJobLaneDto) -> bool {
    job.lane == lane && (!job.terminal || limited_state(job.state))
}

/// The index of the last job that is current in `lane`, if any.
pub open spec fn last_current(jobs: Seq<JobRecord>, lane: AnalysisJobLaneDto) -> Option<int>
    decreases jobs.len(),
{
    if jobs.len() == 0 {
        None
    } else if is_current_in(jobs.last(), lane) {
        Some(jobs.len() - 1)
    } else {
        last_current(jobs.drop_last(), lane)
    }
}

proof fn lemma_last_current(jobs: Seq<JobRecord>, lane: AnalysisJobLaneDto)
    ensures
        forall|i: int|
            0 <= i < jobs.len() && is_current_in(#[trigger] jobs[i], lane) && (forall|j: int|
                i < j < jobs.len() ==> !is_current_in(#[trigger] jobs[j], lane)) ==> last_current(
                jobs,
                lane,
            ) == Some(i),
        (forall|j: int| 0 <= j < jobs.len() ==> !is_current_in(#[trigger] jobs[j], lane))
            ==> last_current(jobs, lane) is None,
    decreases jobs.len(),
{
    if jobs.len() > 0 {
        let d = jobs.drop_last();
        let n = jobs.len() - 1;
        lemma_last_current(d, lane);
        assert(jobs.last() == jobs[n]);
        assert forall|i: int|
            0 <= i < jobs.len() && is_current_in(#[trigger] jobs[i], lane) && (forall|j: int|
                i < j < jobs.len() ==> !is_current_in(#[trigger] jobs[j], lane)) implies last_current(
            jobs,
            lane,
        ) == Some(i) by {
            if i < n {
                assert(!is_current_in(jobs[n], lane));
                assert(d[i] == jobs[i]);
                assert forall|j: int| i < j < d.len() implies !is_current_in(#[trigger] d[j], lane) by {
                    assert(d[j] == jobs[j]);
                }
            }
        }
        if forall|j: int| 0 <= j < jobs.len() ==> !is_current_in(#[trigger] jobs[j], lane) {
            assert(!is_current_in(jobs[n], lane));
            assert forall|j: int| 0 <= j < d.len() implies !is_current_in(#[trigger] d[j], lane) by {
                assert(d[j] == jobs[j]);
            }
        }
    }
}

/// The index of the last registered job that is current in `lane`.
pub fn current_job_index(jobs: &Vec<JobRecord>, lane: AnalysisJobLaneDto) -> (r: Option<usize>)
    ensures
        match r {
            Some(i) => i < jobs.len() && is_current_in(jobs@[i as int], lane) && forall|j: int|
                i < j < jobs.len() ==> !is_current_in(#[trigger] jobs@[j], lane),
            None => forall|j: int| 0 <= j < jobs.len() ==> !is_current_in(#[trigger] jobs@[j], lane),
        },
        match r {
            Some(i) => last_current(jobs@, lane) == Some(i as int),
            None => last_current(jobs@, lane) is None,
        },
{
    let mut k: usize = jobs.len();
    while k > 0
        invariant
            k <= jobs.len(),
            forall|j: int| k <= j < jobs.len() ==> !is_current_in(#[trigger] jobs@[j], lane),
        decreases k,
    {
        let job = &jobs[k - 1];
        if job.lane == lane && (!job.terminal || job.state.is_limited()) {
            assert(is_current_in(jobs@[k - 1], lane));
            proof {
                lemma_last_current(jobs@, lane);
            }
            return Some(k - 1);
        }
        k -= 1;
    }
    proof {
        lemma_last_current(jobs@, lane);
    }
    None
}

/// The started-job record of a registered job.
pub fn started_from(job: &JobRecord) -> (r: AnalysisJobStartedDto)
    ensures
        r.run_id == job.run_id,
        r.job_id == job.job_id,
        r.lane == job.lane,
        r.generation == job.generation,
        r.node_path@ == job.node_path@,
{
    AnalysisJobStartedDto {
        run_id: job.run_id.clone(),
        job_id: job.job_id.clone(),
        lane: job.lane,
        generation: job.generation,
        node_path: job.node_path.clone(),
    }
}

/// The current job of `lane`, as a started-job record.
pub fn current_non_terminal_job(jobs: &Vec<JobRecord>, lane: AnalysisJobLaneDto) -> (r: Option<
    AnalysisJobStartedDto,
>)
    ensures
        match r {
            Some(s) => exists|i: int|
                0 <= i < jobs.len() && is_current_in(#[trigger] jobs@[i], lane) && (forall|j: int|
                    i < j < jobs.len() ==> !is_current_in(#[trigger] jobs@[j], lane))
                    && s.job_id == jobs@[i].job_id && s.run_id == jobs@[i].run_id
                    && s.generation == jobs@[i].generation && s.node_path@ == jobs@[i].node_path@
                    && s.lane == lane,
            None => forall|j: int| 0 <= j < jobs.len() ==> !is_current_in(#[trigger] jobs@[j], lane),
        },
{
    match current_job_index(jobs, lane) {
        Some(i) => Some(started_from(&jobs[i])),
        None => None,
    }
}

/// Marks a job finished by cancellation; a running selected-node job
/// records that it was cancelled.
pub fn mark_job_cancelled(job: &mut JobRecord)
    ensures
        *final(job) == (JobRecord {
            terminal: true,
            disposition: if old(job).lane == AnalysisJobLaneDto::SelectedNode && old(job).disposition
                == JobDisposition::Running {
                JobDisposition::Cancelled
            } else {
                old(job).disposition
            },
            ..*old(job)
        }),
{
    job.terminal = true;
    if job.lane == AnalysisJobLaneDto::SelectedNode && job.disposition == JobDisposition::Running {
        job.disposition = JobDisposition::Cancelled;
    }
}

/// The progress of a whole-game job: positions done, positions expected, and
/// positions left (never below zero).
pub fn whole_game_progress_counts(expected: Option<usize>, current_index: usize) -> (r: (
    Option<usize>,
    Option<usize>,
    Option<usize>,
))
    ensures
        r.0 == Some(current_index),
        r.1 == expected,
        r.2 == match expected {
            Some(e) => Some(if e >= current_index {
                (e - current_index) as usize
            } else {
                0usize
            }),
            None => None,
        },
{
    let remaining = match expected {
        Some(e) => Some(e.saturating_sub(current_index)),
        None => None,
    };
    (Some(current_index), expected, remaining)
}

/// The event of a selected-node job's end.
pub fn selected_node_job_event(
    started: &AnalysisJobStartedDto,
    outcome: AnalysisJobOutcomeDto,
    frame: Option<AnalysisFrameDto>,
    failure: Option<EngineFailureDto>,
) -> (r: AnalysisJobEventDto)
    ensures
        r.run_id == started.run_id && r.job_id == started.job_id && r.lane == started.lane,
        r.generation == started.generation && r.node_path@ == started.node_path@,
        r.outcome == outcome,
        r.completed is None && r.expected is None && r.remaining is None,
        r.frame == frame && r.failure == failure,
{
    AnalysisJobEventDto {
        run_id: started.run_id.clone(),
        job_id: started.job_id.clone(),
        lane: started.lane,
        generation: started.generation,
        node_path: started.node_path.clone(),
        outcome,
        completed: None,
        expected: None,
        remaining: None,
        frame,
        failure,
    }
}

/// The event of a whole-game job's progress or end, at `node_path`.
pub fn whole_game_job_event(
    started: &AnalysisJobStartedDto,
    outcome: AnalysisJobOutcomeDto,
    node_path: NodePath,
    completed: Option<usize>,
    expected: Option<usize>,
    remaining: Option<usize>,
    frame: Option<AnalysisFrameDto>,
    failure: Option<EngineFailureDto>,
) -> (r: AnalysisJobEventDto)
    ensures
        r.run_id == started.run_id && r.job_id == started.job_id && r.lane == started.lane,
        r.generation == started.generation && r.node_path == node_path,
        r.outcome == outcome,
        r.completed == completed && r.expected == expected && r.remaining == remaining,
        r.frame == frame && r.failure == failure,
{
    AnalysisJobEventDto {
        run_id: started.run_id.clone(),
        job_id: started.job_id.clone(),
        lane: started.lane,
        generation: started.generation,
        node_path,
        outcome,
        completed,
        expected,
        remaining,
        frame,
        failure,
    }
}

/// The admission of continuous work: the run, document generation and node
/// it was admitted for.
#[derive(Debug, Clone)]
pub struct ContinuousAdmission {
    pub run_id: String,
    pub generation: u64,
    pub node_path: NodePath,
}

/// The admission is for run `run_id` and the position `target`.
pub open spec fn admission_matches_target(
    a: ContinuousAdmission,
    run_id: Option<Seq<char>>,
    target: Option<(u64, &NodePath)>,
) -> bool {
    &&& run_id == Some(a.run_id@)
    &&& target matches Some(t)
    &&& t.0 == a.generation
    &&& t.1@ == a.node_path@
}

impl ContinuousAdmission {
    /// The admission of a registered job.
    pub fn from_job(job: &JobRecord) -> (r: Self)
        ensures
            r.run_id == job.run_id,
            r.generation == job.generation,
            r.node_path@ == job.node_path@,
    {
        ContinuousAdmission {
            run_id: job.run_id.clone(),
            generation: job.generation,
            node_path: job.node_path.clone(),
        }
    }

    /// Whether the job was admitted as this admission.
    pub fn matches_job(&self, job: &JobRecord) -> (r: bool)
        ensures
            r == (self.run_id@ == job.run_id@ && self.generation == job.generation
                && self.node_path@ == job.node_path@),
    {
        str_eq(self.run_id.as_str(), job.run_id.as_str()) && self.generation == job.generation
            && self.node_path.same_as(&job.node_path)
    }

    /// Whether the admission is for run `run_id` and the followed position
    /// `target`.
    pub fn matches_target(&self, run_id: Option<&str>, target: Option<(u64, &NodePath)>) -> (r:
        bool)
        ensures
            r == admission_matches_target(*self, opt_str_view(run_id), target),
    {
        let run_matches = match run_id {
            Some(id) => str_eq(id, self.run_id.as_str()),
            None => false,
        };
        run_matches && match target {
            Some((generation, path)) => same_position(
                self.generation,
                &self.node_path,
                generation,
                path,
            ),
            None => false,
        }
    }
}

/// Why an analysis task is not admitted.
#[derive(Debug, Clone, Copy, PartialEq, Eq, Structural)]
pub enum TaskAdmissionRefusal {
    EmptyWorklist,
    NoReadyRun,
    NoWholeGame,
    PausedTaskOwnsLane,
    LaneBusy,
}

pub open spec fn can_analyse_whole_game(run: EngineRunDto) -> bool {
    run.capability_snapshot matches Some(c) && c.whole_game_analysis
}

/// Whether an analysis task may start on run `run_id`, in this order: it
/// needs positions, a ready run of that id that can analyse whole games, no
/// paused task holding the lane, and no whole-game job already running.
pub open spec fn task_admission_spec(
    phase: EnginePhase,
    run_id: Seq<char>,
    work_items: nat,
    task: Option<AnalysisTaskDto>,
    busy_job: Option<Seq<char>>,
) -> Result<EngineRunDto, TaskAdmissionRefusal> {
    if work_items == 0 {
        Err(TaskAdmissionRefusal::EmptyWorklist)
    } else {
        match admitting_spec(phase) {
            Some(run) => if run.run_id@ != run_id {
                Err(TaskAdmissionRefusal::NoReadyRun)
            } else if !can_analyse_whole_game(run) {
                Err(TaskAdmissionRefusal::NoWholeGame)
            } else if task matches Some(t) && (t.state == AnalysisTaskStateDto::Pausing || t.state
                == AnalysisTaskStateDto::Paused) {
                Err(TaskAdmissionRefusal::PausedTaskOwnsLane)
            } else if busy_job is Some {
                Err(TaskAdmissionRefusal::LaneBusy)
            } else {
                Ok(run)
            },
            None => Err(TaskAdmissionRefusal::NoReadyRun),
        }
    }
}

pub open spec fn no_ready_run_for_task_message() -> Seq<char> {
    "Analysis Job admission requires a Ready Foreground Engine Run"@
}

pub open spec fn no_whole_game_message() -> Seq<char> {
    "current Ready Run does not admit whole-game analysis"@
}

pub open spec fn paused_task_message() -> Seq<char> {
    "The paused analysis task still owns this lane; Continue or Cancel it."@
}

pub open spec fn lane_busy_message() -> Seq<char> {
    "whole-game analysis is already running on this Foreground Engine Run"@
}

/// The failure reported for a refused analysis task.
pub open spec fn task_refusal_failure(
    refusal: TaskAdmissionRefusal,
    phase: EnginePhase,
    run_id: Seq<char>,
    busy_job: Option<Seq<char>>,
    f: EngineFailureDto,
) -> bool {
    &&& f.operation == EngineOperationDto::Job
    &&& opt_string_view(f.run_id) == Some(run_id)
    &&& f.switch_id is None && f.diagnostic_summary is None
    &&& match refusal {
        TaskAdmissionRefusal::EmptyWorklist => f.kind == EngineFailureKind::InvalidState
            && f.message@ == empty_whole_game_message() && f.profile_id is None && f.job_id is None,
        TaskAdmissionRefusal::NoReadyRun => f.kind == EngineFailureKind::InvalidState && f.message@
            == no_ready_run_for_task_message() && f.profile_id is None && f.job_id is None,
        TaskAdmissionRefusal::NoWholeGame => f.kind == EngineFailureKind::UnsupportedCapability
            && f.message@ == no_whole_game_message() && opt_string_view(f.profile_id) == Some(
            admitting_spec(phase)->0.profile_id@,
        ) && f.job_id is None,
        TaskAdmissionRefusal::PausedTaskOwnsLane => f.kind == EngineFailureKind::Occupied
            && f.message@ == paused_task_message() && f.profile_id is None && f.job_id is None,
        TaskAdmissionRefusal::LaneBusy => f.kind == EngineFailureKind::Occupied && f.message@
            == lane_busy_message() && opt_string_view(f.profile_id) == Some(
            admitting_spec(phase)->0.profile_id@,
        ) && opt_string_view(f.job_id) == busy_job,
    }
}

/// Admits an analysis task with `work_items` positions on the ready run, or
/// reports why not; `busy_job` is the whole-game job already running on the
/// run, if any.
pub fn admit_analysis_task(
    phase: &EnginePhase,
    run_id: &str,
    work_items: usize,
    task: &Option<AnalysisTaskDto>,
    busy_job: Option<&str>,
) -> (r: Result<EngineRunDto, EngineFailureDto>)
    ensures
        match task_admission_spec(*phase, run_id@, work_items as nat, *task, opt_str_view(busy_job)) {
            Ok(run) => r == Ok::<EngineRunDto, EngineFailureDto>(run),
            Err(refusal) => r matches Err(f) && task_refusal_failure(
                refusal,
                *phase,
                run_id@,
                opt_str_view(busy_job),
                f,
            ),
        },
{
    if work_items == 0 {
        return Err(empty_whole_game_failure(run_id));
    }
    let run = match admitting_run(phase, run_id) {
        Some(run) => run,
        None => {
            return Err(
                failure(
                    EngineOperationDto::Job,
                    EngineFailureKind::InvalidState,
                    String::from_str("Analysis Job admission requires a Ready Foreground Engine Run"),
                    Some(run_id),
                    None,
                    None,
                ),
            );
        },
    };
    let supported = match &run.capability_snapshot {
        Some(c) => c.whole_game_analysis,
        None => false,
    };
    if !supported {
        return Err(
            failure(
                EngineOperationDto::Job,
                EngineFailureKind::UnsupportedCapability,
                String::from_str("current Ready Run does not admit whole-game analysis"),
                Some(run_id),
                Some(run.profile_id.as_str()),
                None,
            ),
        );
    }
    let paused = match task {
        Some(t) => t.state == AnalysisTaskStateDto::Pausing || t.state
            == AnalysisTaskStateDto::Paused,
        None => false,
    };
    if paused {
        return Err(
            failure(
                EngineOperationDto::Job,
                EngineFailureKind::Occupied,
                String::from_str(
                    "The paused analysis task still owns this lane; Continue or Cancel it.",
                ),
                Some(run_id),
                None,
                None,
            ),
        );
    }
    match busy_job {
        Some(job_id) => {
            let f = failure(
                EngineOperationDto::Job,
                EngineFailureKind::Occupied,
                String::from_str(
                    "whole-game analysis is already running on this Foreground Engine Run",
                ),
                Some(run_id),
                Some(run.profile_id.as_str()),
                None,
            );
            let mut f = f;
            f.job_id = Some(String::from_str(job_id));
            return Err(f);
        },
        None => {},
    }
    Ok(run)
}

/// A new queued analysis task over `requested`: an all-positions task starts
/// with its overview stage, any other with its single stage.
pub fn new_analysis_task(
    task_id: String,
    run_id: String,
    job_id: String,
    generation: u64,
    scope: AnalysisScopeDto,
    strategy: AnalysisTaskStrategyDto,
    overview_conditions: Option<AnalysisStageConditionsDto>,
    conditions: AnalysisStageConditionsDto,
    requested: Vec<NodePath>,
) -> (r: AnalysisTaskDto)
    ensures
        r.task_id == task_id && r.run_id == run_id && r.job_id == job_id,
        r.generation == generation && r.scope == scope && r.strategy == strategy,
        r.stage == (if strategy == AnalysisTaskStrategyDto::AllPositionsTwoStage {
            AnalysisTaskStageDto::Overview
        } else {
            AnalysisTaskStageDto::SingleStage
        }),
        r.conditions == conditions && r.overview_conditions == overview_conditions,
        r.requested == requested,
        r.overview_completed@.len() == 0 && r.completed@.len() == 0,
        r.overview_summaries@.len() == 0 && r.ending_conditions@.len() == 0,
        r.state == AnalysisTaskStateDto::Queued && r.reason is None,
{
    AnalysisTaskDto {
        task_id,
        run_id,
        job_id,
        generation,
        scope,
        strategy,
        stage: if strategy == AnalysisTaskStrategyDto::AllPositionsTwoStage {
            AnalysisTaskStageDto::Overview
        } else {
            AnalysisTaskStageDto::SingleStage
        },
        conditions,
        overview_conditions,
        requested,
        overview_completed: Vec::new(),
        completed: Vec::new(),
        overview_summaries: Vec::new(),
        state: AnalysisTaskStateDto::Queued,
        reason: None,
        ending_conditions: Vec::new(),
    }
}

/// What a pause request does to the current task.
#[derive(Debug, Clone, PartialEq, Eq)]
pub enum PauseStep {
    /// The task is already pausing or paused: nothing to do.
    AlreadyPaused,
    /// Stop the task's job with a pause.
    StopJob(String),
}

pub open spec fn not_current_message() -> Seq<char> {
    "Analysis task identity is no longer current."@
}

pub open spec fn pause_inactive_message() -> Seq<char> {
    "Pause requires an active analysis task."@
}

/// What pausing task `task_id` of run `run_id` does, or why it cannot.
pub fn pause_step(
    task: &Option<AnalysisTaskDto>,
    phase: &EnginePhase,
    run_id: &str,
    task_id: &str,
) -> (r: Result<PauseStep, EngineFailureDto>)
    ensures
        match *task {
            Some(t) if t.run_id@ == run_id@ && t.task_id@ == task_id@ => if t.state
                == AnalysisTaskStateDto::Pausing || t.state == AnalysisTaskStateDto::Paused {
                r == Ok::<PauseStep, EngineFailureDto>(PauseStep::AlreadyPaused)
            } else if t.state == AnalysisTaskStateDto::Queued || t.state
                == AnalysisTaskStateDto::Searching {
                r matches Ok(PauseStep::StopJob(j)) && j@ == t.job_id@
            } else {
                r matches Err(f) && invalid_state_of(*phase, pause_inactive_message(), f)
            },
            _ => r matches Err(f) && invalid_state_of(*phase, not_current_message(), f),
        },
{
    match task {
        Some(t) => {
            if !(str_eq(t.run_id.as_str(), run_id) && str_eq(t.task_id.as_str(), task_id)) {
                return Err(
                    continuous_invalid_state(phase, "Analysis task identity is no longer current."),
                );
            }
            if t.state == AnalysisTaskStateDto::Pausing || t.state == AnalysisTaskStateDto::Paused {
                return Ok(PauseStep::AlreadyPaused);
            }
            if !(t.state == AnalysisTaskStateDto::Queued || t.state
                == AnalysisTaskStateDto::Searching) {
                return Err(continuous_invalid_state(phase, "Pause requires an active analysis task."));
            }
            Ok(PauseStep::StopJob(t.job_id.clone()))
        },
        None => Err(continuous_invalid_state(phase, "Analysis task identity is no longer current.")),
    }
}

pub open spec fn continue_identity_message() -> Seq<char> {
    "Continue requires the same paused task and game."@
}

pub open spec fn continue_blocked_message() -> Seq<char> {
    "Continue is blocked by Run or departure state."@
}

/// Whether the paused task `task_id` of run `run_id` and document generation
/// `generation` may continue: it must be the current paused task, on a ready
/// run, with no departure or safety hold. Gives the job id it paused with.
pub fn continue_check(
    task: &Option<AnalysisTaskDto>,
    phase: &EnginePhase,
    departing: bool,
    safety_hold: bool,
    run_id: &str,
    task_id: &str,
    generation: u64,
) -> (r: Result<String, EngineFailureDto>)
    ensures
        match *task {
            Some(t) if t.run_id@ == run_id@ && t.task_id@ == task_id@ && t.generation == generation
                && t.state == AnalysisTaskStateDto::Paused => if admitting_spec(*phase) matches Some(
                run,
            ) && run.run_id@ == run_id@ && !departing && !safety_hold {
                r matches Ok(j) && j@ == t.job_id@
            } else {
                r matches Err(f) && invalid_state_of(*phase, continue_blocked_message(), f)
            },
            _ => r matches Err(f) && invalid_state_of(*phase, continue_identity_message(), f),
        },
{
    let old_job = match task {
        Some(t) => {
            if str_eq(t.run_id.as_str(), run_id) && str_eq(t.task_id.as_str(), task_id)
                && t.generation == generation && t.state == AnalysisTaskStateDto::Paused {
                t.job_id.clone()
            } else {
                return Err(
                    continuous_invalid_state(
                        phase,
                        "Continue requires the same paused task and game.",
                    ),
                );
            }
        },
        None => {
            return Err(
                continuous_invalid_state(phase, "Continue requires the same paused task and game."),
            );
        },
    };
    if admitting_run(phase, run_id).is_none() || departing || safety_hold {
        return Err(continuous_invalid_state(phase, "Continue is blocked by Run or departure state."));
    }
    Ok(old_job)
}

/// Re-queues a paused task under the new job `job_id`.
pub fn requeue_task(task: &mut AnalysisTaskDto, job_id: String)
    ensures
        *final(task) == (AnalysisTaskDto {
            job_id,
            state: AnalysisTaskStateDto::Queued,
            reason: None,
            ..*old(task)
        }),
{
    task.job_id = job_id;
    task.state = AnalysisTaskStateDto::Queued;
    task.reason = None;
}

/// What a stop request does to a registered job.
#[derive(Debug, Clone, Copy, PartialEq, Eq, Structural)]
pub enum StopStep {
    /// The whole-game job was never submitted: it ends now with this outcome.
    FinishUnsubmitted(AnalysisJobOutcomeDto),
    /// The job is already stopping; the request changed its disposition when
    /// the stop came from its budget.
    AlreadyStopping { redirected: bool },
    /// The job starts stopping: the engine is told to terminate its query.
    BeginStopping,
}

/// The outcome an unsubmitted whole-game job ends with for a disposition.
pub open spec fn unsubmitted_outcome(d: JobDisposition) -> AnalysisJobOutcomeDto {
    match d {
        JobDisposition::TimedOut => AnalysisJobOutcomeDto::Timeout,
        JobDisposition::Superseded => AnalysisJobOutcomeDto::Superseded,
        _ => AnalysisJobOutcomeDto::Cancelled,
    }
}

/// How long the engine has to answer a cancellation, in milliseconds.
pub const CANCEL_ANSWER_MS: u64 = 5000;

/// The time by which a cancellation requested at `now` must be answered
/// (the clock's end when that lies beyond it).
pub open spec fn cancel_deadline_at(now: u64) -> u64 {
    if now + CANCEL_ANSWER_MS <= u64::MAX {
        (now + CANCEL_ANSWER_MS) as u64
    } else {
        u64::MAX
    }
}

/// The time by which a cancellation requested at `now_ms` must be answered.
pub fn cancel_deadline(now_ms: u64) -> (r: u64)
    ensures
        r == cancel_deadline_at(now_ms),
{
    now_ms.saturating_add(CANCEL_ANSWER_MS)
}

/// What a stop request with `disposition` at `now` does to a live job: an
/// unsubmitted whole-game job ends at once; a stopping job keeps stopping,
/// taking the new disposition only over a budget stop; any other job starts
/// stopping with the new disposition, its cancellation due
/// `CANCEL_ANSWER_MS` later.
pub open spec fn stop_spec(job: JobRecord, disposition: JobDisposition, now: u64) -> (JobRecord, StopStep) {
    if job.lane == AnalysisJobLaneDto::WholeGame && !job.submitted {
        (job, StopStep::FinishUnsubmitted(unsubmitted_outcome(disposition)))
    } else if job.state == AnalysisJobStateDto::Stopping {
        if job.disposition == JobDisposition::BudgetReached {
            (JobRecord { disposition, ..job }, StopStep::AlreadyStopping { redirected: true })
        } else {
            (job, StopStep::AlreadyStopping { redirected: false })
        }
    } else {
        (
            JobRecord {
                disposition,
                state: AnalysisJobStateDto::Stopping,
                cancel_deadline_ms: Some(cancel_deadline_at(now)),
                ..job
            },
            StopStep::BeginStopping,
        )
    }
}

/// Applies a stop request made at `now_ms` to a live job; a budget stop it
/// redirects loses the conditions it was pending on.
pub fn stop_job(job: &mut JobRecord, disposition: JobDisposition, now_ms: u64) -> (r: StopStep)
    ensures
        r == stop_spec(*old(job), disposition, now_ms).1,
        *final(job) == (JobRecord {
            pending_ending_conditions: final(job).pending_ending_conditions,
            ..stop_spec(*old(job), disposition, now_ms).0
        }),
        final(job).pending_ending_conditions@ == if r == (StopStep::AlreadyStopping {
            redirected: true,
        }) {
            Seq::<String>::empty()
        } else {
            old(job).pending_ending_conditions@
        },
{
    if job.lane == AnalysisJobLaneDto::WholeGame && !job.submitted {
        return StopStep::FinishUnsubmitted(
            match disposition {
                JobDisposition::TimedOut => AnalysisJobOutcomeDto::Timeout,
                JobDisposition::Superseded => AnalysisJobOutcomeDto::Superseded,
                _ => AnalysisJobOutcomeDto::Cancelled,
            },
        );
    }
    if job.state == AnalysisJobStateDto::Stopping {
        if job.disposition == JobDisposition::BudgetReached {
            job.disposition = disposition;
            job.pending_ending_conditions = Vec::new();
            return StopStep::AlreadyStopping { redirected: true };
        }
        return StopStep::AlreadyStopping { redirected: false };
    }
    job.disposition = disposition;
    job.state = AnalysisJobStateDto::Stopping;
    job.cancel_deadline_ms = Some(cancel_deadline(now_ms));
    StopStep::BeginStopping
}

/// A stop request never un-stops a job: a job that was stopping still is.
pub proof fn stopping_jobs_stay_stopping(job: JobRecord, disposition: JobDisposition, now: u64)
    requires
        job.state == AnalysisJobStateDto::Stopping,
    ensures
        stop_spec(job, disposition, now).0.state == AnalysisJobStateDto::Stopping,
        stop_spec(job, disposition, now).1 != StopStep::BeginStopping,
{
}

/// A paused task is never displaced by a new analysis task.
pub proof fn paused_task_keeps_the_lane(
    phase: EnginePhase,
    run_id: Seq<char>,
    work_items: nat,
    task: AnalysisTaskDto,
    busy_job: Option<Seq<char>>,
)
    requires
        task.state == AnalysisTaskStateDto::Pausing || task.state == AnalysisTaskStateDto::Paused,
    ensures
        task_admission_spec(phase, run_id, work_items, Some(task), busy_job) is Err,
{
}

} // verus!
