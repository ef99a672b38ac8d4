//! Requests about single jobs and the analysis task: registering a job,
//! abandoning one, cancelling a paused task's job, and invalidating the task
//! when the document changes.
use vstd::prelude::*;
use crate::analysis_job::{
    AnalysisJobEventDto, AnalysisJobLaneDto, AnalysisJobOutcomeDto, AnalysisJobStartedDto,
};
use crate::analysis_task::{AnalysisTaskDto, AnalysisTaskStateDto};
use crate::model::{
    opt_string_view, EngineFailureDto, EngineFailureKind, EngineOperationDto, NodePath,
};
use crate::text::str_eq;
use super::{
    admission_spec, admitting_run, admitting_spec, continuous_invalid_state, failure,
    invalid_state_of, refusal_failure, validate_selected_admission, EnginePhase,
};
use crate::model::EngineRunDto;
use crate::preferences::ContinuousAnalysisBudgetDto;
use crate::katago::{
    ContinuousSearchSettings, SearchTime, REPORT_EVERY_TENTH_BITS, UNBOUNDED_SEARCH,
};
use super::continuous::{
    limited_state, AnalysisJobModeDto, AnalysisJobStateDto, ContinuousState, ContinuousTarget,
};
use crate::katago::AnalysisQuery;
use super::follow::current_selected;
use super::job_end::{
    event_path, finish_selected_node_job, finish_whole_game_job,
    lemma_first_by_id_comes_first, names_job, owner, progress_counts, selected_end_spec, whole_end_spec,
    SelectedJobEnd,
};
use super::jobs::{
    current_job_index, drop_jobs, kept_jobs, lemma_first_job_bounds, selected_node_job_event, started_from,
    whole_game_job_event, whole_game_progress_counts, JobDisposition, JobRecord, JobSelector,
    JobSelectorView,
};
use super::tasks::{
    cancel_analysis_task_locked, cancelled_message, invalidate_analysis_task_locked, path_views,
    task_step,
};

verus! {

broadcast use vstd::string::group_string_axioms;

/// A request to analyse the selected node: the run, the mode, the document
/// generation and node, the query, the board size, and whether the position
/// is empty.
#[derive(Debug, Clone)]
pub struct SelectedNodeJobRequest {
    pub run_id: String,
    pub mode: AnalysisJobModeDto,
    pub generation: u64,
    pub node_path: NodePath,
    pub query: AnalysisQuery,
    pub board_size: u8,
    pub position_empty: bool,
}

impl SelectedNodeJobRequest {
    /// The position that continuous analysis follows for this request.
    pub fn target(&self) -> (r: ContinuousTarget)
        ensures
            r.generation == self.generation,
            r.node_path@ == self.node_path@,
            r.position_empty == self.position_empty,
    {
        ContinuousTarget {
            generation: self.generation,
            node_path: self.node_path.clone(),
            position_empty: self.position_empty,
        }
    }
}

/// One position of a whole-game job: its node, its query, the board size
/// and the move number.
#[derive(Debug, Clone)]
pub struct WholeGameWorkItem {
    pub node_path: NodePath,
    pub query: AnalysisQuery,
    pub board_size: u8,
    pub move_number: u32,
}

/// A request to analyse a whole game of one document generation, position by
/// position, on run `run_id`.
#[derive(Debug, Clone)]
pub struct WholeGameJobRequest {
    pub run_id: String,
    pub generation: u64,
    pub work_items: Vec<WholeGameWorkItem>,
}

/// The position continuous analysis follows, as plain values.
pub open spec fn target_view(s: ContinuousState) -> Option<(u64, Seq<u32>)> {
    match s.target {
        Some(t) => Some((t.generation, t.node_path@)),
        None => None,
    }
}

/// The current selected-node job that has not stopped at a budget limit:
/// the one a new selected-node request supersedes.
pub open spec fn job_to_supersede(jobs: Seq<JobRecord>) -> Option<JobRecord> {
    match current_selected(jobs) {
        Some(j) => if limited_state(j.state) {
            None
        } else {
            Some(j)
        },
        None => None,
    }
}

pub open spec fn admission_pending_message() -> Seq<char> {
    "selected-node admission is already pending"@
}

pub open spec fn cancellation_pending_message() -> Seq<char> {
    "selected-node cancellation is still pending"@
}

pub open spec fn lane_changed_message() -> Seq<char> {
    "selected-node lane changed during admission"@
}

/// `f` refuses a selected-node request on run `run_id` because the job it
/// would supersede is still stopping.
pub open spec fn occupied_failure(f: EngineFailureDto, run_id: Seq<char>) -> bool {
    &&& f.operation == EngineOperationDto::Job && f.kind == EngineFailureKind::Occupied
    &&& f.message@ == cancellation_pending_message()
    &&& opt_string_view(f.run_id) == Some(run_id)
    &&& f.switch_id is None && f.job_id is None && f.profile_id is None
    &&& f.diagnostic_summary is None
}

fn selected_job_index(jobs: &Vec<JobRecord>) -> (r: Option<usize>)
    ensures
        match r {
            Some(i) => i < jobs.len() && current_selected(jobs@) == Some(jobs@[i as int]),
            None => current_selected(jobs@) is None,
        },
{
    current_job_index(jobs, AnalysisJobLaneDto::SelectedNode)
}

fn admission_target(s: &ContinuousState) -> (r: Option<(u64, &NodePath)>)
    ensures
        match r {
            Some(t) => target_view(*s) == Some((t.0, t.1@)),
            None => target_view(*s) is None,
        },
{
    match &s.target {
        Some(t) => Some((t.generation, &t.node_path)),
        None => None,
    }
}

/// The first step of a selected-node request for run `run_id` at position
/// (`generation`, `path`): the admission refusals come first; then a pending
/// admission refuses it, and so does a job to supersede that is still
/// stopping. Otherwise it is admitted, with the job it supersedes, if any.
pub fn selected_admission_step(
    s: &ContinuousState,
    jobs: &Vec<JobRecord>,
    run_id: &str,
    generation: u64,
    path: &NodePath,
) -> (r: Result<Option<AnalysisJobStartedDto>, EngineFailureDto>)
    ensures
        match admission_spec(s.departing, target_view(*s), s.phase, run_id@, generation, path@) {
            Err(refusal) => r matches Err(f) && refusal_failure(refusal, s.phase, run_id@, f),
            Ok(_) => if s.finite_admission_pending {
                r matches Err(f) && invalid_state_of(s.phase, admission_pending_message(), f)
            } else {
                match job_to_supersede(jobs@) {
                    Some(j) => if j.state == AnalysisJobStateDto::Stopping {
                        r matches Err(f) && occupied_failure(f, run_id@)
                    } else {
                        r matches Ok(Some(st)) && names_job(st, j)
                    },
                    None => r matches Ok(None),
                }
            },
        },
{
    let target = admission_target(s);
    match validate_selected_admission(s.departing, target, &s.phase, run_id, generation, path) {
        Ok(_) => {},
        Err(f) => {
            return Err(f);
        },
    }
    if s.finite_admission_pending {
        return Err(continuous_invalid_state(&s.phase, "selected-node admission is already pending"));
    }
    match selected_job_index(jobs) {
        Some(i) => {
            let job = &jobs[i];
            if job.state.is_limited() {
                return Ok(None);
            }
            if job.state == AnalysisJobStateDto::Stopping {
                return Err(
                    failure(
                        EngineOperationDto::Job,
                        EngineFailureKind::Occupied,
                        String::from_str("selected-node cancellation is still pending"),
                        Some(run_id),
                        None,
                        None,
                    ),
                );
            }
            Ok(Some(started_from(job)))
        },
        None => Ok(None),
    }
}

/// The second step of a selected-node request, once the job it superseded
/// has stopped: the pending admission ends, the admission is checked again,
/// and a selected-node job that became current meanwhile refuses it.
/// Otherwise the run that admits it comes back.
pub fn recheck_selected_admission(
    s: &mut ContinuousState,
    jobs: &Vec<JobRecord>,
    run_id: &str,
    generation: u64,
    path: &NodePath,
) -> (r: Result<EngineRunDto, EngineFailureDto>)
    ensures
        *final(s) == (ContinuousState { finite_admission_pending: false, ..*old(s) }),
        match admission_spec(
            old(s).departing,
            target_view(*old(s)),
            old(s).phase,
            run_id@,
            generation,
            path@,
        ) {
            Err(refusal) => r matches Err(f) && refusal_failure(refusal, old(s).phase, run_id@, f),
            Ok(run) => if job_to_supersede(jobs@) is Some {
                r matches Err(f) && invalid_state_of(old(s).phase, lane_changed_message(), f)
            } else {
                r == Ok::<EngineRunDto, EngineFailureDto>(run)
            },
        },
{
    s.finite_admission_pending = false;
    let target = admission_target(s);
    let run = match validate_selected_admission(s.departing, target, &s.phase, run_id, generation, path) {
        Ok(run) => run,
        Err(f) => {
            return Err(f);
        },
    };
    match selected_job_index(jobs) {
        Some(i) => {
            if !jobs[i].state.is_limited() {
                return Err(
                    continuous_invalid_state(&s.phase, "selected-node lane changed during admission"),
                );
            }
        },
        None => {},
    }
    Ok(run)
}

/// The search settings of a continuous query under `budget`.
pub open spec fn continuous_settings(budget: ContinuousAnalysisBudgetDto) -> ContinuousSearchSettings {
    ContinuousSearchSettings {
        max_time: if budget.continuous_time_limit_enabled {
            SearchTime::Seconds(budget.continuous_time_limit_seconds)
        } else {
            SearchTime::Unbounded
        },
        max_visits: if budget.continuous_visits_limit_enabled {
            budget.continuous_visits_limit as u64
        } else {
            UNBOUNDED_SEARCH
        },
        max_playouts: UNBOUNDED_SEARCH,
    }
}

/// The query of a selected-node job `job_id` as it is sent: under the job's
/// id; a continuous one without a visit cap of its own and with the limits
/// of `budget`; either reporting every tenth of a second during search.
pub fn bind_selected_query(
    query: AnalysisQuery,
    mode: AnalysisJobModeDto,
    budget: ContinuousAnalysisBudgetDto,
    job_id: &str,
) -> (r: AnalysisQuery)
    ensures
        r.id@ == job_id@,
        mode == AnalysisJobModeDto::Continuous ==> r == (AnalysisQuery {
            id: r.id,
            max_visits: None,
            report_during_search_every_bits: Some(REPORT_EVERY_TENTH_BITS),
            override_settings: Some(continuous_settings(budget)),
            ..query
        }),
        mode == AnalysisJobModeDto::Finite ==> r == (AnalysisQuery {
            id: r.id,
            report_during_search_every_bits: Some(REPORT_EVERY_TENTH_BITS),
            ..query
        }),
{
    let mut query = query;
    if mode == AnalysisJobModeDto::Continuous {
        query.continuous(budget);
    } else {
        query.report_during_search_every_bits = Some(REPORT_EVERY_TENTH_BITS);
    }
    query.id = String::from_str(job_id);
    query
}

/// The record of a selected-node job `job_id` registered for `request` at
/// `now_ms`, not yet submitted; a continuous one carries `budget`.
pub open spec fn selected_record(
    r: JobRecord,
    request: SelectedNodeJobRequest,
    budget: ContinuousAnalysisBudgetDto,
    job_id: Seq<char>,
    now_ms: u64,
) -> bool {
    &&& r.job_id@ == job_id && r.query_id@ == job_id && r.run_id@ == request.run_id@
    &&& r.lane == AnalysisJobLaneDto::SelectedNode && r.mode == request.mode
    &&& r.continuous_budget == if request.mode == AnalysisJobModeDto::Continuous {
        Some(budget)
    } else {
        None
    }
    &&& r.state == AnalysisJobStateDto::Queued && r.cancel_deadline_ms is None
    &&& !r.submitted && r.submitted_at_ms == now_ms
    &&& r.generation == request.generation && r.node_path@ == request.node_path@
    &&& r.disposition == JobDisposition::Running && r.expected == Some(1usize)
    &&& r.item_paths@ == Seq::<NodePath>::empty() && r.current_index == 0 && !r.terminal
    &&& r.pending_ending_conditions@.len() == 0
}

/// Registers the selected-node job `job_id` for `request` at `now_ms`: the
/// ended selected-node jobs are dropped and the new job is listed last.
/// Gives its started record, which the manager publishes as started.
pub fn register_selected_job(
    jobs: &mut Vec<JobRecord>,
    request: &SelectedNodeJobRequest,
    budget: ContinuousAnalysisBudgetDto,
    job_id: String,
    now_ms: u64,
) -> (r: AnalysisJobStartedDto)
    ensures
        final(jobs)@.len() >= 1,
        final(jobs)@.drop_last() == kept_jobs(old(jobs)@, JobSelectorView::FinishedSelected),
        selected_record(final(jobs)@.last(), *request, budget, job_id@, now_ms),
        names_job(r, final(jobs)@.last()),
{
    drop_jobs(jobs, &JobSelector::FinishedSelected);
    let ghost kept = jobs@;
    let continuous = request.mode == AnalysisJobModeDto::Continuous;
    let rec = JobRecord {
        job_id: job_id.clone(),
        run_id: request.run_id.clone(),
        query_id: job_id,
        lane: AnalysisJobLaneDto::SelectedNode,
        mode: request.mode,
        state: AnalysisJobStateDto::Queued,
        generation: request.generation,
        node_path: request.node_path.clone(),
        disposition: JobDisposition::Running,
        expected: Some(1),
        current_index: 0,
        submitted: false,
        terminal: false,
        item_paths: Vec::new(),
        submitted_at_ms: now_ms,
        cancel_deadline_ms: None,
        continuous_budget: if continuous {
            Some(budget)
        } else {
            None
        },
        pending_ending_conditions: Vec::new(),
    };
    let started = started_from(&rec);
    jobs.push(rec);
    assert(jobs@.drop_last() =~= kept);
    started
}

/// The nodes of a whole-game request's work items, in order.
pub open spec fn item_path_views(items: Seq<WholeGameWorkItem>) -> Seq<Seq<u32>> {
    items.map_values(|w: WholeGameWorkItem| w.node_path@)
}

/// The record of the whole-game job `job_id` registered for `request` at
/// `now_ms` with its first query `query_id`: queued at the first work item,
/// not yet submitted, expecting one result per work item.
pub open spec fn whole_game_record(
    r: JobRecord,
    request: WholeGameJobRequest,
    job_id: Seq<char>,
    query_id: Seq<char>,
    now_ms: u64,
) -> bool {
    &&& r.job_id@ == job_id && r.query_id@ == query_id && r.run_id@ == request.run_id@
    &&& r.lane == AnalysisJobLaneDto::WholeGame && r.mode == AnalysisJobModeDto::Finite
    &&& r.continuous_budget is None
    &&& r.state == AnalysisJobStateDto::Queued && r.cancel_deadline_ms is None
    &&& !r.submitted && r.submitted_at_ms == now_ms
    &&& r.generation == request.generation
    &&& r.node_path@ == request.work_items@[0].node_path@
    &&& r.disposition == JobDisposition::Running
    &&& r.expected == Some(request.work_items.len())
    &&& path_views(r.item_paths@) == item_path_views(request.work_items@)
    &&& r.current_index == 0 && !r.terminal && r.pending_ending_conditions@.len() == 0
}

/// Registers the whole-game job `job_id` for `request` at `now_ms`, its
/// first query under `query_id`, listed last. Gives its started record,
/// which the manager publishes as started.
pub fn register_whole_game_job(
    jobs: &mut Vec<JobRecord>,
    request: &WholeGameJobRequest,
    job_id: String,
    query_id: String,
    now_ms: u64,
) -> (r: AnalysisJobStartedDto)
    requires
        request.work_items.len() > 0,
    ensures
        final(jobs)@.len() == old(jobs)@.len() + 1,
        final(jobs)@.drop_last() == old(jobs)@,
        whole_game_record(final(jobs)@.last(), *request, job_id@, query_id@, now_ms),
        names_job(r, final(jobs)@.last()),
{
    let mut item_paths: Vec<NodePath> = Vec::new();
    let mut i: usize = 0;
    while i < request.work_items.len()
        invariant
            i <= request.work_items.len(),
            path_views(item_paths@) == item_path_views(request.work_items@.take(i as int)),
        decreases request.work_items.len() - i,
    {
        let p = request.work_items[i].node_path.clone();
        item_paths.push(p);
        assert(item_path_views(request.work_items@.take(i + 1)) =~= item_path_views(
            request.work_items@.take(i as int),
        ).push(request.work_items@[i as int].node_path@));
        assert(path_views(item_paths@) =~= item_path_views(request.work_items@.take(i + 1)));
        i += 1;
    }
    assert(request.work_items@.take(request.work_items.len() as int) =~= request.work_items@);
    let rec = JobRecord {
        job_id: job_id,
        run_id: request.run_id.clone(),
        query_id: query_id,
        lane: AnalysisJobLaneDto::WholeGame,
        mode: AnalysisJobModeDto::Finite,
        state: AnalysisJobStateDto::Queued,
        generation: request.generation,
        node_path: request.work_items[0].node_path.clone(),
        disposition: JobDisposition::Running,
        expected: Some(request.work_items.len()),
        current_index: 0,
        submitted: false,
        terminal: false,
        item_paths,
        submitted_at_ms: now_ms,
        cancel_deadline_ms: None,
        continuous_budget: None,
        pending_ending_conditions: Vec::new(),
    };
    let started = started_from(&rec);
    let ghost before = jobs@;
    jobs.push(rec);
    assert(jobs@.drop_last() =~= before);
    started
}

/// The first ended job from `i` on with id `job_id` of run `run_id`, or
/// the number of jobs when there is none.
pub open spec fn first_ended(jobs: Seq<JobRecord>, job_id: Seq<char>, run_id: Seq<char>, i: int) -> int
    decreases jobs.len() - i,
{
    if i < 0 || i >= jobs.len() {
        jobs.len() as int
    } else if jobs[i].job_id@ == job_id && jobs[i].run_id@ == run_id && jobs[i].terminal {
        i
    } else {
        first_ended(jobs, job_id, run_id, i + 1)
    }
}

proof fn lemma_first_ended_bounds(jobs: Seq<JobRecord>, job_id: Seq<char>, run_id: Seq<char>, i: int)
    requires
        0 <= i <= jobs.len(),
    ensures
        i <= first_ended(jobs, job_id, run_id, i) <= jobs.len(),
    decreases jobs.len() - i,
{
    if i < jobs.len() {
        lemma_first_ended_bounds(jobs, job_id, run_id, i + 1);
    }
}

fn find_ended(jobs: &Vec<JobRecord>, job_id: &str, run_id: &str) -> (r: usize)
    ensures
        r == first_ended(jobs@, job_id@, run_id@, 0),
        r <= jobs.len(),
{
    proof {
        lemma_first_ended_bounds(jobs@, job_id@, run_id@, 0);
    }
    let mut i: usize = 0;
    while i < jobs.len()
        invariant
            i <= jobs.len(),
            first_ended(jobs@, job_id@, run_id@, 0) == first_ended(jobs@, job_id@, run_id@, i as int),
        decreases jobs.len() - i,
    {
        if str_eq(jobs[i].job_id.as_str(), job_id) && str_eq(jobs[i].run_id.as_str(), run_id)
            && jobs[i].terminal {
            return i;
        }
        i += 1;
    }
    i
}

pub open spec fn cleanup_pending_message() -> Seq<char> {
    "Paused task cleanup has not finished."@
}

/// The paused job `job` re-armed as the job `job_id`, with the query
/// `query_id`, queued and unsubmitted since `now_ms`, running again; its
/// pending conditions are `pending` (which the re-arm leaves empty).
pub open spec fn rearmed(
    job: JobRecord,
    job_id: String,
    query_id: String,
    now_ms: u64,
    pending: Vec<String>,
) -> JobRecord {
    JobRecord {
        job_id,
        query_id,
        state: AnalysisJobStateDto::Queued,
        submitted: false,
        submitted_at_ms: now_ms,
        cancel_deadline_ms: None,
        disposition: JobDisposition::Running,
        terminal: false,
        pending_ending_conditions: pending,
        ..job
    }
}

/// Continues the paused task of run `run_id` whose job `old_job_id` has
/// ended: that job is re-armed as `new_job_id` with the query `query_id` at
/// `now_ms`, and the task is queued again under the new id. While the job
/// has not ended yet, the request is refused and nothing changes. Gives the
/// started record of the re-armed job.
pub fn rearm_paused_job(
    phase: &EnginePhase,
    jobs: &mut Vec<JobRecord>,
    task: &mut Option<AnalysisTaskDto>,
    run_id: &str,
    old_job_id: &str,
    new_job_id: String,
    query_id: String,
    now_ms: u64,
) -> (r: Result<AnalysisJobStartedDto, EngineFailureDto>)
    ensures
        ({
            let k = first_ended(old(jobs)@, old_job_id@, run_id@, 0);
            if k < old(jobs)@.len() {
                &&& final(jobs)@ == old(jobs)@.update(
                    k,
                    rearmed(
                        old(jobs)@[k],
                        new_job_id,
                        query_id,
                        now_ms,
                        final(jobs)@[k].pending_ending_conditions,
                    ),
                )
                &&& final(jobs)@[k].pending_ending_conditions@.len() == 0
                &&& *final(task) == match *old(task) {
                    Some(t) => Some(
                        AnalysisTaskDto {
                            job_id: new_job_id,
                            state: AnalysisTaskStateDto::Queued,
                            reason: None,
                            ..t
                        },
                    ),
                    None => None,
                }
                &&& r matches Ok(st) && names_job(st, final(jobs)@[k])
            } else {
                &&& final(jobs)@ == old(jobs)@ && *final(task) == *old(task)
                &&& r matches Err(f) && invalid_state_of(*phase, cleanup_pending_message(), f)
            }
        }),
{
    let k = find_ended(jobs, old_job_id, run_id);
    if k == jobs.len() {
        return Err(continuous_invalid_state(phase, "Paused task cleanup has not finished."));
    }
    let ghost before = jobs@;
    let mut job = jobs.remove(k);
    job.job_id = new_job_id.clone();
    job.query_id = query_id;
    job.state = AnalysisJobStateDto::Queued;
    job.submitted = false;
    job.submitted_at_ms = now_ms;
    job.cancel_deadline_ms = None;
    job.disposition = JobDisposition::Running;
    job.terminal = false;
    job.pending_ending_conditions = Vec::new();
    let started = started_from(&job);
    jobs.insert(k, job);
    assert(jobs@ =~= before.update(
        k as int,
        rearmed(before[k as int], new_job_id, query_id, now_ms, jobs@[k as int].pending_ending_conditions),
    ));
    match task {
        Some(t) => {
            t.job_id = new_job_id;
            t.state = AnalysisTaskStateDto::Queued;
            t.reason = None;
        },
        None => {},
    }
    Ok(started)
}

pub open spec fn registration_refused_message() -> Seq<char> {
    "Analysis Job admission requires a Ready Foreground Engine Run"@
}

/// Registration needs the run `run_id` to admit work and to have reported
/// its capabilities.
pub open spec fn registration_admitted(phase: EnginePhase, run_id: Seq<char>) -> bool {
    admitting_spec(phase) matches Some(run) && run.run_id@ == run_id && run.capability_snapshot
        is Some
}

/// `r` is a freshly registered finite job `job_id` of run `run_id` in
/// `lane`, submitted at `now`, queued, with no position or work items yet.
pub open spec fn fresh_record(
    r: JobRecord,
    job_id: Seq<char>,
    run_id: Seq<char>,
    lane: AnalysisJobLaneDto,
    now: u64,
) -> bool {
    &&& r.job_id@ == job_id && r.query_id@ == job_id && r.run_id@ == run_id && r.lane == lane
    &&& r.mode == AnalysisJobModeDto::Finite && r.state == AnalysisJobStateDto::Queued
    &&& r.generation == 0 && r.node_path@ == Seq::<u32>::empty()
    &&& r.disposition == JobDisposition::Running && r.expected is None && r.current_index == 0
    &&& r.submitted && !r.terminal && r.item_paths@ == Seq::<NodePath>::empty()
    &&& r.submitted_at_ms == now && r.cancel_deadline_ms is None && r.continuous_budget is None
    &&& r.pending_ending_conditions@.len() == 0
}

/// Registers job `job_id` of run `run_id` in `lane` at `now_ms`, when that
/// run admits work and reported its capabilities; otherwise refuses.
pub fn register_job_with_id(
    phase: &EnginePhase,
    jobs: &mut Vec<JobRecord>,
    run_id: &str,
    lane: AnalysisJobLaneDto,
    job_id: String,
    now_ms: u64,
) -> (r: Result<String, EngineFailureDto>)
    ensures
        registration_admitted(*phase, run_id@) ==> (r matches Ok(id) && id@ == job_id@)
            && final(jobs)@.len() == old(jobs)@.len() + 1 && final(jobs)@.drop_last() == old(
            jobs,
        )@ && fresh_record(final(jobs)@.last(), job_id@, run_id@, lane, now_ms),
        !registration_admitted(*phase, run_id@) ==> final(jobs)@ == old(jobs)@ && (r matches Err(
            f,
        ) && f.operation == EngineOperationDto::Job && f.kind == EngineFailureKind::InvalidState
            && f.message@ == registration_refused_message() && opt_string_view(f.run_id) == Some(
            run_id@,
        ) && f.switch_id is None && f.job_id is None && f.profile_id is None
            && f.diagnostic_summary is None),
{
    let admitted = match admitting_run(phase, run_id) {
        Some(run) => run.capability_snapshot.is_some(),
        None => false,
    };
    if !admitted {
        return Err(
            failure(
                EngineOperationDto::Job,
                EngineFailureKind::InvalidState,
                String::from_str("Analysis Job admission requires a Ready Foreground Engine Run"),
                Some(run_id),
                None,
                None,
            ),
        );
    }
    let ghost before = jobs@;
    jobs.push(
        JobRecord {
            job_id: job_id.clone(),
            run_id: String::from_str(run_id),
            query_id: job_id.clone(),
            lane,
            mode: AnalysisJobModeDto::Finite,
            state: AnalysisJobStateDto::Queued,
            generation: 0,
            node_path: NodePath { indices: Vec::new() },
            disposition: JobDisposition::Running,
            expected: None,
            current_index: 0,
            submitted: true,
            terminal: false,
            item_paths: Vec::new(),
            submitted_at_ms: now_ms,
            cancel_deadline_ms: None,
            continuous_budget: None,
            pending_ending_conditions: Vec::new(),
        },
    );
    assert(jobs@.drop_last() =~= before);
    Ok(job_id)
}

/// A lower-case hexadecimal digit.
pub open spec fn is_lower_hex(c: char) -> bool {
    ('0' <= c && c <= '9') || ('a' <= c && c <= 'f')
}

/// The text of a version-4 UUID as `uuid` writes it: 36 characters, hyphens
/// at 8, 13, 18 and 23, lower-case hex digits elsewhere, the version digit
/// `4` at 14 and a variant digit `8`, `9`, `a` or `b` at 19.
pub open spec fn uuid_v4_text(t: Seq<char>) -> bool {
    &&& t.len() == 36
    &&& forall|i: int|
        0 <= i < 36 ==> if i == 8 || i == 13 || i == 18 || i == 23 {
            t[i] == '-'
        } else {
            is_lower_hex(#[trigger] t[i])
        }
    &&& t[14] == '4'
    &&& t[19] == '8' || t[19] == '9' || t[19] == 'a' || t[19] == 'b'
}

/// `uuid::Uuid::new_v4`, written as text: a fresh random job id. The id is
/// random; what holds of every outcome is its shape (`new_v4` sets the
/// version and variant bits, and `Display` writes the hyphenated lower-case
/// form).
#[verifier::external_body]
fn new_job_id() -> (r: String)
    ensures
        uuid_v4_text(r@),
{
    uuid::Uuid::new_v4().to_string()
}

/// Registers a new job of run `run_id` in `lane` at `now_ms` under a fresh
/// random id (in the text form of a version-4 UUID), as
/// `register_job_with_id` does with that id.
pub fn register_job(
    phase: &EnginePhase,
    jobs: &mut Vec<JobRecord>,
    run_id: &str,
    lane: AnalysisJobLaneDto,
    now_ms: u64,
) -> (r: Result<String, EngineFailureDto>)
    ensures
        registration_admitted(*phase, run_id@) ==> (r matches Ok(id) && uuid_v4_text(id@)
            && final(jobs)@.len() == old(jobs)@.len() + 1 && final(jobs)@.drop_last() == old(jobs)@ && fresh_record(
            final(jobs)@.last(),
            id@,
            run_id@,
            lane,
            now_ms,
        )),
        !registration_admitted(*phase, run_id@) ==> final(jobs)@ == old(jobs)@ && (r matches Err(
            f,
        ) && f.message@ == registration_refused_message()),
{
    let id = new_job_id();
    register_job_with_id(phase, jobs, run_id, lane, id, now_ms)
}

/// The first job from `i` on with id `job_id` of run `run_id` that has not
/// ended, or the number of jobs when there is none.
pub open spec fn first_live(jobs: Seq<JobRecord>, job_id: Seq<char>, run_id: Seq<char>, i: int) -> int
    decreases jobs.len() - i,
{
    if i < 0 || i >= jobs.len() {
        jobs.len() as int
    } else if jobs[i].job_id@ == job_id && jobs[i].run_id@ == run_id && !jobs[i].terminal {
        i
    } else {
        first_live(jobs, job_id, run_id, i + 1)
    }
}

proof fn lemma_first_live(jobs: Seq<JobRecord>, job_id: Seq<char>, run_id: Seq<char>, i: int)
    requires
        0 <= i <= jobs.len(),
    ensures
        i <= first_live(jobs, job_id, run_id, i) <= jobs.len(),
        first_live(jobs, job_id, run_id, i) < jobs.len() ==> ({
            let k = first_live(jobs, job_id, run_id, i);
            jobs[k].job_id@ == job_id && jobs[k].run_id@ == run_id && !jobs[k].terminal
        }),
        first_live(jobs, job_id, run_id, i) < jobs.len() ==> owner(jobs, job_id, run_id) < jobs.len(),
    decreases jobs.len() - i,
{
    if i < jobs.len() {
        lemma_first_live(jobs, job_id, run_id, i + 1);
        if first_live(jobs, job_id, run_id, i) < jobs.len() {
            let k = first_live(jobs, job_id, run_id, i);
            super::job_end::lemma_first_job_found(jobs, job_id, Some(run_id), 0, k);
            lemma_first_job_bounds(jobs, job_id, Some(run_id), 0);
        }
    }
}

fn find_live(jobs: &Vec<JobRecord>, job_id: &str, run_id: &str) -> (r: usize)
    ensures
        r == first_live(jobs@, job_id@, run_id@, 0),
{
    let mut i: usize = 0;
    while i < jobs.len()
        invariant
            i <= jobs.len(),
            first_live(jobs@, job_id@, run_id@, 0) == first_live(jobs@, job_id@, run_id@, i as int),
        decreases jobs.len() - i,
    {
        if str_eq(jobs[i].job_id.as_str(), job_id) && str_eq(jobs[i].run_id.as_str(), run_id)
            && !jobs[i].terminal {
            return i;
        }
        i += 1;
    }
    i
}

/// The jobs with id `job_id` of run `run_id` are the ones that an abandoned
/// job without a live record leaves behind: they are dropped.
pub open spec fn without_id_of_run(jobs: Seq<JobRecord>, job_id: Seq<char>, run_id: Seq<char>) -> Seq<
    JobRecord,
> {
    jobs.filter(|j: JobRecord| !(j.job_id@ == job_id && j.run_id@ == run_id))
}

fn drop_id_of_run(jobs: &mut Vec<JobRecord>, job_id: &str, run_id: &str)
    ensures
        final(jobs)@ == without_id_of_run(old(jobs)@, job_id@, run_id@),
{
    let ghost orig = old(jobs)@;
    let ghost pred = |j: JobRecord| !(j.job_id@ == job_id@ && j.run_id@ == run_id@);
    let mut rest: Vec<JobRecord> = Vec::new();
    std::mem::swap(jobs, &mut rest);
    while rest.len() > 0
        invariant
            rest.len() <= orig.len(),
            rest@ == orig.skip(orig.len() - rest.len()),
            pred == (|j: JobRecord| !(j.job_id@ == job_id@ && j.run_id@ == run_id@)),
            jobs@ == orig.take(orig.len() - rest.len()).filter(pred),
        decreases rest.len(),
    {
        let ghost k = orig.len() - rest.len();
        let job = rest.remove(0);
        assert(job == orig[k]);
        assert(orig.take(k + 1).drop_last() =~= orig.take(k));
        assert(orig.take(k + 1).last() == orig[k]);
        proof {
            reveal(Seq::filter);
        }
        if !(str_eq(job.job_id.as_str(), job_id) && str_eq(job.run_id.as_str(), run_id)) {
            jobs.push(job);
        }
        assert(rest@ =~= orig.skip(k + 1));
    }
    assert(orig.take(orig.len() as int) =~= orig);
}

/// `e` reports that `job` failed with `failure`, at `path` with `counts`.
pub open spec fn failed_event(
    e: AnalysisJobEventDto,
    job: JobRecord,
    path: Seq<u32>,
    counts: (Option<usize>, Option<usize>, Option<usize>),
    failure: EngineFailureDto,
) -> bool {
    &&& e.run_id@ == job.run_id@ && e.job_id@ == job.job_id@ && e.lane == job.lane
    &&& e.generation == job.generation && e.outcome == AnalysisJobOutcomeDto::Failed
    &&& e.node_path@ == path && (e.completed, e.expected, e.remaining) == counts
    &&& e.frame is None && e.failure == Some(failure)
}

/// Abandons job `job_id` of run `run_id` with `failure`, when its query
/// could not be written. Without a live record of it, its records are only
/// dropped. Otherwise it ends as failed, as its lane's end does, and its end
/// event comes back (with a whole-game job's progress and node taken from the
/// first record of that id and run).
pub fn abandon_job(
    s: &mut ContinuousState,
    task: &mut Option<AnalysisTaskDto>,
    jobs: &mut Vec<JobRecord>,
    run_id: &str,
    job_id: &str,
    failure: EngineFailureDto,
) -> (r: Option<AnalysisJobEventDto>)
    ensures
        ({
            let lv = first_live(old(jobs)@, job_id@, run_id@, 0);
            let k = owner(old(jobs)@, job_id@, run_id@);
            let failed = AnalysisJobOutcomeDto::Failed;
            &&& lv == old(jobs).len() ==> r is None && *final(s) == *old(s) && *final(task) == *old(
                task,
            ) && final(jobs)@ == without_id_of_run(old(jobs)@, job_id@, run_id@)
            &&& lv < old(jobs).len() ==> {
                let live = old(jobs)@[lv];
                &&& live.lane == AnalysisJobLaneDto::WholeGame ==> {
                    &&& *final(s) == *old(s)
                    &&& whole_end_spec(
                        *old(task),
                        *final(task),
                        old(jobs)@,
                        final(jobs)@,
                        job_id@,
                        failed,
                        Some(failure.message@),
                    )
                    &&& r matches Some(e) && failed_event(
                        e,
                        live,
                        event_path(old(jobs)@[k]),
                        progress_counts(old(jobs)@[k]),
                        failure,
                    )
                }
                &&& live.lane == AnalysisJobLaneDto::SelectedNode ==> {
                    &&& *final(task) == *old(task)
                    &&& selected_end_spec(
                        *old(s),
                        *final(s),
                        old(jobs)@,
                        final(jobs)@,
                        k,
                        job_id@,
                        SelectedJobEnd::Outcome(failed),
                    )
                    &&& r matches Some(e) && failed_event(
                        e,
                        live,
                        live.node_path@,
                        (None, None, None),
                        failure,
                    )
                }
            }
        }),
{
    proof {
        lemma_first_live(jobs@, job_id@, run_id@, 0);
        lemma_first_job_bounds(jobs@, job_id@, Some(run_id@), 0);
        lemma_first_by_id_comes_first(jobs@, job_id@, run_id@, 0);
    }
    let lv = find_live(jobs, job_id, run_id);
    if lv == jobs.len() {
        drop_id_of_run(jobs, job_id, run_id);
        return None;
    }
    let started = started_from(&jobs[lv]);
    if started.lane == AnalysisJobLaneDto::WholeGame {
        let k = super::jobs::find_job(jobs, job_id, Some(run_id));
        let counts = whole_game_progress_counts(jobs[k].expected, jobs[k].current_index);
        match finish_whole_game_job(
            task,
            jobs,
            job_id,
            run_id,
            AnalysisJobOutcomeDto::Failed,
            Some(&failure),
        ) {
            Some(path) => Some(
                whole_game_job_event(
                    &started,
                    AnalysisJobOutcomeDto::Failed,
                    path,
                    counts.0,
                    counts.1,
                    counts.2,
                    None,
                    Some(failure),
                ),
            ),
            None => None,
        }
    } else {
        if finish_selected_node_job(
            s,
            jobs,
            job_id,
            run_id,
            Some(SelectedJobEnd::Outcome(AnalysisJobOutcomeDto::Failed)),
        ) {
            Some(
                selected_node_job_event(
                    &started,
                    AnalysisJobOutcomeDto::Failed,
                    None,
                    Some(failure),
                ),
            )
        } else {
            None
        }
    }
}

/// Cancels the paused task of job `job_id` of run `run_id`: the task is
/// cancelled and every record of that job dropped. Says whether the task was
/// such a paused task; otherwise nothing changes, and the manager stops the
/// job as cancelled instead.
pub fn cancel_paused_task(
    task: &mut Option<AnalysisTaskDto>,
    jobs: &mut Vec<JobRecord>,
    run_id: &str,
    job_id: &str,
) -> (r: bool)
    ensures
        r == (*old(task) matches Some(t) && t.run_id@ == run_id@ && t.job_id@ == job_id@ && t.state
            == AnalysisTaskStateDto::Paused),
        r ==> task_step(
            *old(task),
            *final(task),
            true,
            AnalysisTaskStateDto::Cancelled,
            Some(cancelled_message()),
        ) && final(jobs)@ == kept_jobs(old(jobs)@, JobSelectorView::WithId(job_id@)),
        !r ==> *final(task) == *old(task) && final(jobs)@ == old(jobs)@,
{
    let paused = match task {
        Some(t) => str_eq(t.run_id.as_str(), run_id) && str_eq(t.job_id.as_str(), job_id)
            && t.state == AnalysisTaskStateDto::Paused,
        None => false,
    };
    if !paused {
        return false;
    }
    cancel_analysis_task_locked(task, job_id);
    drop_jobs(jobs, &JobSelector::WithId(String::from_str(job_id)));
    true
}

pub open spec fn game_changed_message() -> Seq<char> {
    "The current game changed; start a new analysis task."@
}

/// What invalidating the analysis task asks of the manager.
#[derive(Debug, PartialEq, Eq)]
pub enum InvalidateStep {
    /// The task stays as it is.
    Nothing,
    /// The task was invalidated; its job still runs and is stopped as
    /// cancelled.
    StopJob { run_id: String, job_id: String },
    /// The task was invalidated; the manager publishes the snapshot.
    Publish,
}

/// Whether some job of `jobs` with id `job_id` of run `run_id` has not ended.
pub open spec fn has_live(jobs: Seq<JobRecord>, job_id: Seq<char>, run_id: Seq<char>) -> bool {
    exists|i: int|
        0 <= i < jobs.len() && (#[trigger] jobs[i]).job_id@ == job_id && jobs[i].run_id@ == run_id
            && !jobs[i].terminal
}

fn live_exists(jobs: &Vec<JobRecord>, job_id: &str, run_id: &str) -> (r: bool)
    ensures
        r == has_live(jobs@, job_id@, run_id@),
{
    let mut i: usize = 0;
    while i < jobs.len()
        invariant
            i <= jobs.len(),
            forall|j: int|
                0 <= j < i ==> !((#[trigger] jobs@[j]).job_id@ == job_id@ && jobs@[j].run_id@
                    == run_id@ && !jobs@[j].terminal),
        decreases jobs.len() - i,
    {
        if str_eq(jobs[i].job_id.as_str(), job_id) && str_eq(jobs[i].run_id.as_str(), run_id)
            && !jobs[i].terminal {
            assert(has_live(jobs@, job_id@, run_id@));
            return true;
        }
        i += 1;
    }
    false
}

/// The document moved to `generation`: a task of another generation that is
/// neither cancelled nor invalidated is invalidated (its ended jobs
/// dropped), and its job is stopped when it still runs.
pub fn invalidate_analysis_task(
    task: &mut Option<AnalysisTaskDto>,
    jobs: &mut Vec<JobRecord>,
    generation: u64,
) -> (r: InvalidateStep)
    ensures
        match *old(task) {
            Some(t) => if t.generation == generation || t.state == AnalysisTaskStateDto::Cancelled
                || t.state == AnalysisTaskStateDto::Invalidated {
                r == InvalidateStep::Nothing && *final(task) == *old(task) && final(jobs)@ == old(
                    jobs,
                )@
            } else {
                &&& task_step(
                    *old(task),
                    *final(task),
                    true,
                    AnalysisTaskStateDto::Invalidated,
                    Some(game_changed_message()),
                )
                &&& final(jobs)@ == kept_jobs(old(jobs)@, JobSelectorView::EndedWithId(t.job_id@))
                &&& if has_live(final(jobs)@, t.job_id@, t.run_id@) {
                    r matches InvalidateStep::StopJob { run_id, job_id } && run_id@ == t.run_id@
                        && job_id@ == t.job_id@
                } else {
                    r == InvalidateStep::Publish
                }
            },
            None => r == InvalidateStep::Nothing && *final(task) == *old(task) && final(jobs)@
                == old(jobs)@,
        },
{
    let (run_id, job_id) = match task {
        Some(t) => {
            if t.generation == generation || t.state == AnalysisTaskStateDto::Cancelled || t.state
                == AnalysisTaskStateDto::Invalidated {
                return InvalidateStep::Nothing;
            }
            (t.run_id.clone(), t.job_id.clone())
        },
        None => {
            return InvalidateStep::Nothing;
        },
    };
    invalidate_analysis_task_locked(
        task,
        jobs,
        "The current game changed; start a new analysis task.",
    );
    proof {
        reveal_strlit("The current game changed; start a new analysis task.");
    }
    if live_exists(jobs, job_id.as_str(), run_id.as_str()) {
        return InvalidateStep::StopJob { run_id, job_id };
    }
    InvalidateStep::Publish
}

} // verus!
