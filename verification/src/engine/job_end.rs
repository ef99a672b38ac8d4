//! How the end of a registered job changes the jobs, the analysis task and
//! the continuous-analysis holds.
use vstd::prelude::*;
use crate::analysis_job::{
    AnalysisJobEventDto, AnalysisJobLaneDto, AnalysisJobOutcomeDto, AnalysisJobStartedDto,
};
use crate::analysis_task::{AnalysisTaskDto, AnalysisTaskStateDto};
use crate::model::{EngineFailureDto, NodePath};
use crate::text::str_eq;
use super::continuous::{
    AnalysisJobModeDto, AnalysisJobStateDto, ContinuousAnalysisPhaseDto, ContinuousState,
};
use super::jobs::{
    lemma_first_job_bounds, drop_jobs, find_job, first_job, kept_jobs, mark_job_cancelled, selected_node_job_event,
    started_from, whole_game_job_event, whole_game_progress_counts, ContinuousAdmission,
    selects, JobDisposition, JobRecord, JobSelector, JobSelectorView,
};
use super::tasks::{failure_message, finish_analysis_task_locked, finishes_task};
use super::{current_run_id, phase_run, EnginePhase};

verus! {

broadcast use vstd::string::group_string_axioms;

/// How a selected-node job ended.
#[derive(Debug, Clone, Copy, PartialEq, Eq, Structural)]
pub enum SelectedJobEnd {
    /// It ended with this outcome.
    Outcome(AnalysisJobOutcomeDto),
    /// A continuous search reached its time limit.
    TimeLimited,
    /// A continuous search reached its visit limit.
    VisitsLimited,
}

/// `a` is the admission of `job`: its run, generation and node.
pub open spec fn admitted_as(a: ContinuousAdmission, job: JobRecord) -> bool {
    a.run_id@ == job.run_id@ && a.generation == job.generation && a.node_path@ == job.node_path@
}

/// The index of the job that a job id and a run id name, if any.
pub open spec fn owner(jobs: Seq<JobRecord>, job_id: Seq<char>, run_id: Seq<char>) -> int {
    first_job(jobs, job_id, Some(run_id), 0)
}

pub(crate) proof fn lemma_first_by_id_comes_first(
    jobs: Seq<JobRecord>,
    job_id: Seq<char>,
    run_id: Seq<char>,
    i: int,
)
    requires
        0 <= i <= jobs.len(),
    ensures
        i <= first_job(jobs, job_id, None, i) <= first_job(jobs, job_id, Some(run_id), i) <= jobs.len(),
        first_job(jobs, job_id, None, i) < jobs.len() ==> jobs[first_job(jobs, job_id, None, i)].job_id@
            == job_id,
    decreases jobs.len() - i,
{
    if i < jobs.len() {
        lemma_first_by_id_comes_first(jobs, job_id, run_id, i + 1);
    }
}

/// The jobs once `job_id` ends: without it.
pub open spec fn without_job(jobs: Seq<JobRecord>, job_id: Seq<char>) -> Seq<JobRecord> {
    kept_jobs(jobs, JobSelectorView::WithId(job_id))
}

/// The jobs once the first job with id `job_id` is marked ended, in `state`.
pub open spec fn job_marked_ended(
    jobs: Seq<JobRecord>,
    job_id: Seq<char>,
    state: AnalysisJobStateDto,
) -> Seq<JobRecord> {
    let m = first_job(jobs, job_id, None, 0);
    jobs.update(m, JobRecord { terminal: true, state, ..jobs[m] })
}

/// What the end of the owned selected-node job `jobs[k]` does. A continuous
/// search that hit a limit stays listed, ended in that limit, and holds
/// continuous analysis on it; a failure, or a timeout of a finite job,
/// latches the error; a cancelled finite job pauses continuous analysis at
/// its position; every other end only drops the job.
pub open spec fn selected_end_spec(
    s0: ContinuousState,
    s1: ContinuousState,
    j0: Seq<JobRecord>,
    j1: Seq<JobRecord>,
    k: int,
    job_id: Seq<char>,
    end: SelectedJobEnd,
) -> bool {
    let job = j0[k];
    if job.mode == AnalysisJobModeDto::Continuous && (end is TimeLimited || end is VisitsLimited) {
        let visits = end is VisitsLimited;
        &&& s1 == (ContinuousState { limited: s1.limited, ..s0 })
        &&& s1.limited matches Some((a, phase)) && admitted_as(a, job) && phase == (if visits {
            ContinuousAnalysisPhaseDto::VisitsLimited
        } else {
            ContinuousAnalysisPhaseDto::TimeLimited
        })
        &&& j1 == job_marked_ended(
            j0,
            job_id,
            if visits {
                AnalysisJobStateDto::VisitsLimited
            } else {
                AnalysisJobStateDto::TimeLimited
            },
        )
    } else if (job.mode == AnalysisJobModeDto::Continuous && end == SelectedJobEnd::Outcome(
        AnalysisJobOutcomeDto::Failed,
    )) || (job.mode == AnalysisJobModeDto::Finite && (end == SelectedJobEnd::Outcome(
        AnalysisJobOutcomeDto::Failed,
    ) || end == SelectedJobEnd::Outcome(AnalysisJobOutcomeDto::Timeout))) {
        s1 == (ContinuousState { error: true, ..s0 }) && j1 == without_job(j0, job_id)
    } else if job.mode == AnalysisJobModeDto::Finite && end == SelectedJobEnd::Outcome(
        AnalysisJobOutcomeDto::Cancelled,
    ) {
        &&& s1 == (ContinuousState { paused: s1.paused, ..s0 })
        &&& s1.paused matches Some(a) && admitted_as(a, job)
        &&& j1 == without_job(j0, job_id)
    } else {
        s1 == s0 && j1 == without_job(j0, job_id)
    }
}

/// Marks the first job with id `job_id` ended, in `state`.
fn mark_ended(jobs: &mut Vec<JobRecord>, job_id: &str, state: AnalysisJobStateDto)
    requires
        first_job(old(jobs)@, job_id@, None, 0) < old(jobs).len(),
    ensures
        final(jobs)@ == job_marked_ended(old(jobs)@, job_id@, state),
{
    let m = find_job(jobs, job_id, None);
    let mut job = jobs.remove(m);
    job.terminal = true;
    job.state = state;
    jobs.insert(m, job);
    assert(jobs@ =~= job_marked_ended(old(jobs)@, job_id@, state));
}

/// Ends the selected-node job `job_id` of run `run_id`. Nothing happens
/// unless that job is registered and an end is given; otherwise the end is
/// applied and the manager publishes the job's end event.
pub fn finish_selected_node_job(
    s: &mut ContinuousState,
    jobs: &mut Vec<JobRecord>,
    job_id: &str,
    run_id: &str,
    end: Option<SelectedJobEnd>,
) -> (published: bool)
    ensures
        ({
            let k = owner(old(jobs)@, job_id@, run_id@);
            &&& published == (k < old(jobs).len() && end is Some)
            &&& !published ==> *final(s) == *old(s) && final(jobs)@ == old(jobs)@
            &&& published ==> selected_end_spec(
                *old(s),
                *final(s),
                old(jobs)@,
                final(jobs)@,
                k,
                job_id@,
                end->0,
            )
        }),
{
    let k = find_job(jobs, job_id, Some(run_id));
    proof {
        lemma_first_by_id_comes_first(jobs@, job_id@, run_id@, 0);
    }
    if k == jobs.len() {
        return false;
    }
    let end = match end {
        Some(e) => e,
        None => {
            return false;
        },
    };
    let admission = ContinuousAdmission::from_job(&jobs[k]);
    let continuous = jobs[k].mode == AnalysisJobModeDto::Continuous;
    let limited = match end {
        SelectedJobEnd::TimeLimited => Some(false),
        SelectedJobEnd::VisitsLimited => Some(true),
        SelectedJobEnd::Outcome(_) => None,
    };
    let failed = end == SelectedJobEnd::Outcome(AnalysisJobOutcomeDto::Failed);
    let timed_out = end == SelectedJobEnd::Outcome(AnalysisJobOutcomeDto::Timeout);
    let cancelled = end == SelectedJobEnd::Outcome(AnalysisJobOutcomeDto::Cancelled);
    if continuous && limited.is_some() {
        if limited == Some(true) {
            s.limited = Some((admission, ContinuousAnalysisPhaseDto::VisitsLimited));
            mark_ended(jobs, job_id, AnalysisJobStateDto::VisitsLimited);
        } else {
            s.limited = Some((admission, ContinuousAnalysisPhaseDto::TimeLimited));
            mark_ended(jobs, job_id, AnalysisJobStateDto::TimeLimited);
        }
    } else if failed || (!continuous && timed_out) {
        s.error = true;
        drop_jobs(jobs, &JobSelector::WithId(String::from_str(job_id)));
    } else if !continuous && cancelled {
        s.paused = Some(admission);
        drop_jobs(jobs, &JobSelector::WithId(String::from_str(job_id)));
    } else {
        drop_jobs(jobs, &JobSelector::WithId(String::from_str(job_id)));
    }
    true
}

/// The jobs once the first job with id `job_id` is marked ended, its state
/// kept.
pub open spec fn job_marked_terminal(jobs: Seq<JobRecord>, job_id: Seq<char>) -> Seq<JobRecord> {
    let m = first_job(jobs, job_id, None, 0);
    jobs.update(m, JobRecord { terminal: true, ..jobs[m] })
}

/// The node a whole-game job's end is reported at: the work item it stands
/// at (the last one once it has passed them all), or its own node when it
/// has no work items.
pub open spec fn event_path(job: JobRecord) -> Seq<u32> {
    if job.item_paths.len() == 0 {
        job.node_path@
    } else {
        let last = job.item_paths.len() - 1;
        let i = if job.current_index < last {
            job.current_index as int
        } else {
            last
        };
        job.item_paths@[i]@
    }
}

/// The task is the paused task of job `job_id`.
pub open spec fn task_paused_for(task: Option<AnalysisTaskDto>, job_id: Seq<char>) -> bool {
    task matches Some(t) && t.job_id@ == job_id && t.state == AnalysisTaskStateDto::Paused
}

/// What the end of the owned whole-game job `job_id` does: the task moves
/// with the outcome, and the job is dropped, unless its task is now paused,
/// in which case it stays listed, ended, to be continued later.
pub open spec fn whole_end_spec(
    t0: Option<AnalysisTaskDto>,
    t1: Option<AnalysisTaskDto>,
    j0: Seq<JobRecord>,
    j1: Seq<JobRecord>,
    job_id: Seq<char>,
    outcome: AnalysisJobOutcomeDto,
    fm: Option<Seq<char>>,
) -> bool {
    &&& finishes_task(t0, t1, job_id, outcome, fm)
    &&& j1 == if task_paused_for(t1, job_id) {
        job_marked_terminal(j0, job_id)
    } else {
        without_job(j0, job_id)
    }
}

fn node_path_at(job: &JobRecord) -> (r: NodePath)
    ensures
        r@ == event_path(*job),
{
    if job.item_paths.len() == 0 {
        job.node_path.clone()
    } else {
        let last = job.item_paths.len() - 1;
        let i = if job.current_index < last {
            job.current_index
        } else {
            last
        };
        job.item_paths[i].clone()
    }
}

/// Ends the whole-game job `job_id` of run `run_id` with `outcome`. Nothing
/// happens unless that job is registered; otherwise the end is applied and
/// the node its end event is reported at comes back.
pub fn finish_whole_game_job(
    task: &mut Option<AnalysisTaskDto>,
    jobs: &mut Vec<JobRecord>,
    job_id: &str,
    run_id: &str,
    outcome: AnalysisJobOutcomeDto,
    failure: Option<&EngineFailureDto>,
) -> (r: Option<NodePath>)
    ensures
        ({
            let k = owner(old(jobs)@, job_id@, run_id@);
            &&& (r is Some) == (k < old(jobs).len())
            &&& r is None ==> *final(task) == *old(task) && final(jobs)@ == old(jobs)@
            &&& r matches Some(p) ==> p@ == event_path(old(jobs)@[k]) && whole_end_spec(
                *old(task),
                *final(task),
                old(jobs)@,
                final(jobs)@,
                job_id@,
                outcome,
                failure_message(failure),
            )
        }),
{
    let k = find_job(jobs, job_id, Some(run_id));
    proof {
        lemma_first_by_id_comes_first(jobs@, job_id@, run_id@, 0);
    }
    if k == jobs.len() {
        return None;
    }
    let node_path = node_path_at(&jobs[k]);
    finish_analysis_task_locked(task, job_id, outcome, failure);
    let paused = match task {
        Some(t) => str_eq(t.job_id.as_str(), job_id) && t.state == AnalysisTaskStateDto::Paused,
        None => false,
    };
    if paused {
        let m = find_job(jobs, job_id, None);
        let mut job = jobs.remove(m);
        job.terminal = true;
        jobs.insert(m, job);
        assert(jobs@ =~= job_marked_terminal(old(jobs)@, job_id@));
    } else {
        drop_jobs(jobs, &JobSelector::WithId(String::from_str(job_id)));
    }
    Some(node_path)
}

/// The progress of a whole-game job: positions done, expected and left.
pub open spec fn progress_counts(job: JobRecord) -> (Option<usize>, Option<usize>, Option<usize>) {
    (
        Some(job.current_index),
        job.expected,
        match job.expected {
            Some(e) => Some(
                if e >= job.current_index {
                    (e - job.current_index) as usize
                } else {
                    0usize
                },
            ),
            None => None,
        },
    )
}

/// `e` is the end event of `started` with `outcome`, reported at `path` with
/// `counts` and `failure`, without a frame.
pub open spec fn end_event(
    e: AnalysisJobEventDto,
    started: AnalysisJobStartedDto,
    outcome: AnalysisJobOutcomeDto,
    path: Seq<u32>,
    counts: (Option<usize>, Option<usize>, Option<usize>),
    failure: Option<EngineFailureDto>,
) -> bool {
    &&& e.run_id == started.run_id && e.job_id == started.job_id && e.lane == started.lane
    &&& e.generation == started.generation && e.node_path@ == path && e.outcome == outcome
    &&& e.completed == counts.0 && e.expected == counts.1 && e.remaining == counts.2
    &&& e.frame is None && e.failure == failure
}

/// What ending the job `started` with the published `failure` does: from
/// the continuous state, task and jobs `s0`, `t0`, `j0` to `s1`, `t1`, `j1`,
/// with the end event `r`, as `finish_failed_job` performs it.
pub open spec fn failed_job_spec(
    s0: ContinuousState,
    s1: ContinuousState,
    t0: Option<AnalysisTaskDto>,
    t1: Option<AnalysisTaskDto>,
    j0: Seq<JobRecord>,
    j1: Seq<JobRecord>,
    started: AnalysisJobStartedDto,
    failure: EngineFailureDto,
    r: Option<AnalysisJobEventDto>,
) -> bool {
    let k = owner(j0, started.job_id@, started.run_id@);
    let owned = k < j0.len();
    let failed = AnalysisJobOutcomeDto::Failed;
    &&& (r is Some) == owned
    &&& !owned ==> s1 == s0 && t1 == t0 && j1 == j0
    &&& started.lane == AnalysisJobLaneDto::SelectedNode && owned ==> {
        &&& t1 == t0
        &&& selected_end_spec(
            s0,
            s1,
            j0,
            j1,
            k,
            started.job_id@,
            SelectedJobEnd::Outcome(failed),
        )
        &&& r matches Some(e) && end_event(
            e,
            started,
            failed,
            started.node_path@,
            (None, None, None),
            Some(failure),
        )
    }
    &&& started.lane == AnalysisJobLaneDto::WholeGame && owned ==> {
        let m = first_job(j0, started.job_id@, None, 0);
        &&& s1 == s0
        &&& whole_end_spec(
            t0,
            t1,
            j0,
            j1,
            started.job_id@,
            failed,
            Some(failure.message@),
        )
        &&& r matches Some(e) && end_event(
            e,
            started,
            failed,
            event_path(j0[k]),
            progress_counts(j0[m]),
            Some(failure),
        )
    }
}

/// Ends a job with a published failure. A selected-node job ends as failed
/// (latching the continuous error); a whole-game job ends as failed with its
/// progress, which the first job of that id gives. The end event comes back
/// when the job was registered.
pub fn finish_failed_job(
    s: &mut ContinuousState,
    task: &mut Option<AnalysisTaskDto>,
    jobs: &mut Vec<JobRecord>,
    started: &AnalysisJobStartedDto,
    failure: EngineFailureDto,
) -> (r: Option<AnalysisJobEventDto>)
    ensures
        failed_job_spec(
            *old(s),
            *final(s),
            *old(task),
            *final(task),
            old(jobs)@,
            final(jobs)@,
            *started,
            failure,
            r,
        ),
{
    proof {
        lemma_first_by_id_comes_first(jobs@, started.job_id@, started.run_id@, 0);
    }
    if started.lane == AnalysisJobLaneDto::SelectedNode {
        let published = finish_selected_node_job(
            s,
            jobs,
            started.job_id.as_str(),
            started.run_id.as_str(),
            Some(SelectedJobEnd::Outcome(AnalysisJobOutcomeDto::Failed)),
        );
        if published {
            Some(
                selected_node_job_event(
                    started,
                    AnalysisJobOutcomeDto::Failed,
                    None,
                    Some(failure),
                ),
            )
        } else {
            None
        }
    } else {
        let m = find_job(jobs, started.job_id.as_str(), None);
        let counts = if m < jobs.len() {
            whole_game_progress_counts(jobs[m].expected, jobs[m].current_index)
        } else {
            (None, None, None)
        };
        match finish_whole_game_job(
            task,
            jobs,
            started.job_id.as_str(),
            started.run_id.as_str(),
            AnalysisJobOutcomeDto::Failed,
            Some(&failure),
        ) {
            Some(path) => Some(
                whole_game_job_event(
                    started,
                    AnalysisJobOutcomeDto::Failed,
                    path,
                    counts.0,
                    counts.1,
                    counts.2,
                    None,
                    Some(failure),
                ),
            ),
            None => None,
        }
    }
}

/// A job of run `run_id` that has not ended.
pub open spec fn live_of_run(job: JobRecord, run_id: Seq<char>) -> bool {
    job.run_id@ == run_id && !job.terminal
}

/// The jobs of run `run_id` that have not ended, in order.
pub open spec fn live_jobs(jobs: Seq<JobRecord>, run_id: Seq<char>) -> Seq<JobRecord> {
    jobs.filter(|j: JobRecord| live_of_run(j, run_id))
}

/// A job once cancelled: ended, and a running selected-node job records the
/// cancellation.
pub open spec fn cancelled_record(job: JobRecord) -> JobRecord {
    JobRecord {
        terminal: true,
        disposition: if job.lane == AnalysisJobLaneDto::SelectedNode && job.disposition
            == JobDisposition::Running {
            JobDisposition::Cancelled
        } else {
            job.disposition
        },
        ..job
    }
}

/// No two jobs share an id.
pub open spec fn distinct_ids(jobs: Seq<JobRecord>) -> bool {
    forall|a: int, b: int|
        0 <= a < jobs.len() && 0 <= b < jobs.len() && a != b ==> (#[trigger] jobs[a]).job_id@
            != (#[trigger] jobs[b]).job_id@
}

/// `e` reports that `job` ended as cancelled: a whole-game job at the node
/// it stood at, with its progress; a selected-node job at its own node.
pub open spec fn cancel_event(e: AnalysisJobEventDto, job: JobRecord) -> bool {
    let whole = job.lane == AnalysisJobLaneDto::WholeGame;
    &&& e.run_id@ == job.run_id@ && e.job_id@ == job.job_id@ && e.lane == job.lane
    &&& e.generation == job.generation && e.outcome == AnalysisJobOutcomeDto::Cancelled
    &&& e.node_path@ == if whole {
        event_path(job)
    } else {
        job.node_path@
    }
    &&& (e.completed, e.expected, e.remaining) == if whole {
        progress_counts(job)
    } else {
        (None, None, None)
    }
    &&& e.frame is None && e.failure is None
}

/// `e` reports that `job` ended as cancelled, at the node `path`: a
/// whole-game job with its progress, a selected-node job without.
pub open spec fn cancel_event_at(e: AnalysisJobEventDto, job: JobRecord, path: Seq<u32>) -> bool {
    &&& e.run_id@ == job.run_id@ && e.job_id@ == job.job_id@ && e.lane == job.lane
    &&& e.generation == job.generation && e.outcome == AnalysisJobOutcomeDto::Cancelled
    &&& e.node_path@ == path
    &&& (e.completed, e.expected, e.remaining) == if job.lane == AnalysisJobLaneDto::WholeGame {
        progress_counts(job)
    } else {
        (None, None, None)
    }
    &&& e.frame is None && e.failure is None
}

/// The jobs once every job of run `run` that has not ended is marked
/// cancelled, where it stands.
pub open spec fn marked_cancelled(jobs: Seq<JobRecord>, run: Seq<char>) -> Seq<JobRecord> {
    jobs.map_values(
        |j: JobRecord|
            if live_of_run(j, run) {
                cancelled_record(j)
            } else {
                j
            },
    )
}

/// One step of a run's cancellation: the job `job` (as it was when the
/// cancellation began) ends as cancelled through its lane's end, from the
/// continuous state, task, jobs and events `s0`, `t0`, `j0`, `e0` to `s1`,
/// `t1`, `j1`, `e1`. When no registered job of the run carries its id
/// any more, nothing changes.
pub open spec fn cancel_step(
    s0: ContinuousState,
    s1: ContinuousState,
    t0: Option<AnalysisTaskDto>,
    t1: Option<AnalysisTaskDto>,
    j0: Seq<JobRecord>,
    j1: Seq<JobRecord>,
    e0: Seq<AnalysisJobEventDto>,
    e1: Seq<AnalysisJobEventDto>,
    job: JobRecord,
    run: Seq<char>,
) -> bool {
    let k = owner(j0, job.job_id@, run);
    if k >= j0.len() {
        s1 == s0 && t1 == t0 && j1 == j0 && e1 == e0
    } else if job.lane == AnalysisJobLaneDto::WholeGame {
        &&& s1 == s0
        &&& whole_end_spec(t0, t1, j0, j1, job.job_id@, AnalysisJobOutcomeDto::Cancelled, None)
        &&& e1.len() == e0.len() + 1 && e1.drop_last() == e0
        &&& cancel_event_at(e1.last(), job, event_path(j0[k]))
    } else {
        &&& t1 == t0
        &&& selected_end_spec(
            s0,
            s1,
            j0,
            j1,
            k,
            job.job_id@,
            SelectedJobEnd::Outcome(AnalysisJobOutcomeDto::Cancelled),
        )
        &&& e1.len() == e0.len() + 1 && e1.drop_last() == e0
        &&& cancel_event_at(e1.last(), job, job.node_path@)
    }
}

/// Step `p` of the cancellation recorded in `ss`, `ts`, `js`, `es` ends the
/// `p`-th job of `live`.
pub open spec fn cancel_step_at(
    ss: Seq<ContinuousState>,
    ts: Seq<Option<AnalysisTaskDto>>,
    js: Seq<Seq<JobRecord>>,
    es: Seq<Seq<AnalysisJobEventDto>>,
    live: Seq<JobRecord>,
    run: Seq<char>,
    p: int,
) -> bool {
    cancel_step(ss[p], ss[p + 1], ts[p], ts[p + 1], js[p], js[p + 1], es[p], es[p + 1], live[p], run)
}

/// `ss`, `ts`, `js`, `es` record the states of a cancellation of run `run`
/// over the jobs `j0`: it starts from the jobs with every live job of the
/// run marked cancelled and no events, and ends each live job in turn.
pub open spec fn cancel_chain(
    ss: Seq<ContinuousState>,
    ts: Seq<Option<AnalysisTaskDto>>,
    js: Seq<Seq<JobRecord>>,
    es: Seq<Seq<AnalysisJobEventDto>>,
    j0: Seq<JobRecord>,
    run: Seq<char>,
) -> bool {
    let live = live_jobs(j0, run);
    &&& ss.len() == live.len() + 1 && ts.len() == live.len() + 1
    &&& js.len() == live.len() + 1 && es.len() == live.len() + 1
    &&& js[0] == marked_cancelled(j0, run) && es[0] == Seq::<AnalysisJobEventDto>::empty()
    &&& forall|p: int| 0 <= p < live.len() ==> #[trigger] cancel_step_at(ss, ts, js, es, live, run, p)
}

/// Cancelling run `run` took the continuous state, task and jobs from `s0`,
/// `t0`, `j0` to `s1`, `t1`, `j1` and published `events`: the live jobs of
/// the run, marked cancelled, end one after another, in order, and then no
/// job of the run stays registered.
pub open spec fn cancels_in_order(
    s0: ContinuousState,
    s1: ContinuousState,
    t0: Option<AnalysisTaskDto>,
    t1: Option<AnalysisTaskDto>,
    j0: Seq<JobRecord>,
    j1: Seq<JobRecord>,
    run: Seq<char>,
    events: Seq<AnalysisJobEventDto>,
) -> bool {
    exists|
        ss: Seq<ContinuousState>,
        ts: Seq<Option<AnalysisTaskDto>>,
        js: Seq<Seq<JobRecord>>,
        es: Seq<Seq<AnalysisJobEventDto>>,
    |
        #![trigger cancel_chain(ss, ts, js, es, j0, run)]
        {
            &&& cancel_chain(ss, ts, js, es, j0, run)
            &&& ss[0] == s0 && ts[0] == t0
            &&& ss.last() == s1 && ts.last() == t1 && es.last() == events
            &&& j1 == kept_jobs(js.last(), JobSelectorView::OfRun(run))
        }
}

/// The last finite selected-node job of `jobs`: cancelling it pauses
/// continuous analysis at its position.
pub open spec fn last_finite_selected(jobs: Seq<JobRecord>) -> Option<JobRecord>
    decreases jobs.len(),
{
    if jobs.len() == 0 {
        None
    } else if jobs.last().lane == AnalysisJobLaneDto::SelectedNode && jobs.last().mode
        == AnalysisJobModeDto::Finite {
        Some(jobs.last())
    } else {
        last_finite_selected(jobs.drop_last())
    }
}

/// One of the whole-game jobs in `ended` is the job of task `t0`.
pub open spec fn cancels_task_job(ended: Seq<JobRecord>, t0: Option<AnalysisTaskDto>) -> bool {
    exists|k: int|
        0 <= k < ended.len() && (#[trigger] ended[k]).lane == AnalysisJobLaneDto::WholeGame
            && (t0 matches Some(t) && ended[k].job_id@ == t.job_id@)
}

/// The task once the whole-game jobs of `ended` end with `outcome` (and the
/// failure message `fm`): it moves with that outcome when its job is among
/// them, and stays otherwise.
pub open spec fn task_after_end(
    t0: Option<AnalysisTaskDto>,
    t1: Option<AnalysisTaskDto>,
    ended: Seq<JobRecord>,
    outcome: AnalysisJobOutcomeDto,
    fm: Option<Seq<char>>,
) -> bool {
    if cancels_task_job(ended, t0) {
        finishes_task(t0, t1, t0->0.job_id@, outcome, fm)
    } else {
        t1 == t0
    }
}

pub(crate) proof fn lemma_filter_keeps_distinct(s: Seq<JobRecord>, pred: spec_fn(JobRecord) -> bool)
    requires
        distinct_ids(s),
    ensures
        distinct_ids(s.filter(pred)),
    decreases s.len(),
{
    reveal(Seq::filter);
    if s.len() > 0 {
        let d = s.drop_last();
        assert(distinct_ids(d)) by {
            assert forall|a: int, b: int|
                0 <= a < d.len() && 0 <= b < d.len() && a != b implies (#[trigger] d[a]).job_id@
                != (#[trigger] d[b]).job_id@ by {
                assert(d[a] == s[a] && d[b] == s[b]);
            }
        }
        lemma_filter_keeps_distinct(d, pred);
        let f = d.filter(pred);
        if pred(s.last()) {
            let g = f.push(s.last());
            assert forall|a: int, b: int|
                0 <= a < g.len() && 0 <= b < g.len() && a != b implies (#[trigger] g[a]).job_id@
                != (#[trigger] g[b]).job_id@ by {
                if a == f.len() || b == f.len() {
                    let o = if a == f.len() {
                        b
                    } else {
                        a
                    };
                    assert(f.contains(f[o]));
                    d.lemma_filter_contains_rev(pred, f[o]);
                    let w = choose|w: int| 0 <= w < d.len() && d[w] == f[o];
                    assert(s[w] == f[o] && s[s.len() - 1] == s.last());
                }
            }
        }
    }
}

pub(crate) proof fn lemma_drop_id_keeps_others(s: Seq<JobRecord>, id: Seq<char>, sel: JobSelectorView)
    requires
        forall|i: int| 0 <= i < s.len() && (#[trigger] s[i]).job_id@ == id ==> selects(sel, s[i]),
    ensures
        kept_jobs(without_job(s, id), sel) == kept_jobs(s, sel),
    decreases s.len(),
{
    reveal(Seq::filter);
    if s.len() > 0 {
        let d = s.drop_last();
        assert forall|i: int| 0 <= i < d.len() && (#[trigger] d[i]).job_id@ == id implies selects(
            sel,
            d[i],
        ) by {
            assert(d[i] == s[i]);
        }
        lemma_drop_id_keeps_others(d, id, sel);
        let w = without_job(d, id);
        if s.last().job_id@ != id {
            assert(w.push(s.last()).drop_last() =~= w);
        } else {
            assert(s[s.len() - 1] == s.last());
        }
    }
}

proof fn lemma_marking_keeps_others(x: Seq<JobRecord>, orig: Seq<JobRecord>, run: Seq<char>)
    requires
        x.len() == orig.len(),
        forall|i: int|
            0 <= i < x.len() ==> #[trigger] x[i] == if live_of_run(orig[i], run) {
                cancelled_record(orig[i])
            } else {
                orig[i]
            },
    ensures
        kept_jobs(x, JobSelectorView::OfRun(run)) == kept_jobs(orig, JobSelectorView::OfRun(run)),
    decreases x.len(),
{
    reveal(Seq::filter);
    if x.len() > 0 {
        let n = x.len() - 1;
        assert forall|i: int| 0 <= i < n implies #[trigger] x.drop_last()[i] == if live_of_run(
            orig.drop_last()[i],
            run,
        ) {
            cancelled_record(orig.drop_last()[i])
        } else {
            orig.drop_last()[i]
        } by {
            assert(x.drop_last()[i] == x[i] && orig.drop_last()[i] == orig[i]);
        }
        lemma_marking_keeps_others(x.drop_last(), orig.drop_last(), run);
        assert(x[n] == x.last() && orig[n] == orig.last());
    }
}

pub(crate) proof fn lemma_first_job_found(
    jobs: Seq<JobRecord>,
    job_id: Seq<char>,
    run_id: Option<Seq<char>>,
    i: int,
    w: int,
)
    requires
        0 <= i <= w < jobs.len(),
        jobs[w].job_id@ == job_id && (run_id matches Some(r) ==> jobs[w].run_id@ == r),
    ensures
        first_job(jobs, job_id, run_id, i) <= w,
    decreases w - i,
{
    if i < w {
        lemma_first_job_found(jobs, job_id, run_id, i + 1, w);
    }
}

/// What cancelling the jobs of a run asks of the manager: the queries to
/// stop on the engine, and the end events to publish, in order.
#[derive(Debug)]
pub struct RunCancellation {
    pub query_ids: Vec<String>,
    pub events: Vec<AnalysisJobEventDto>,
}

pub open spec fn string_views(v: Seq<String>) -> Seq<Seq<char>> {
    v.map_values(|q: String| q@)
}

pub open spec fn query_ids_of(jobs: Seq<JobRecord>) -> Seq<Seq<char>> {
    jobs.map_values(|j: JobRecord| j.query_id@)
}

proof fn lemma_drop_step(
    j0: Seq<JobRecord>,
    live: Seq<JobRecord>,
    orig: Seq<JobRecord>,
    run: Seq<char>,
    p: int,
)
    requires
        distinct_ids(live),
        0 <= p < live.len(),
        forall|q: int| 0 <= q < live.len() ==> live_of_run(#[trigger] live[q], run),
        forall|q: int| p <= q < live.len() ==> j0.contains(cancelled_record(#[trigger] live[q])),
        forall|q: int, w: int|
            p <= q < live.len() && 0 <= w < j0.len() && (#[trigger] j0[w]).job_id@ == (
            #[trigger] live[q]).job_id@ ==> j0[w] == cancelled_record(live[q]),
        kept_jobs(j0, JobSelectorView::OfRun(run)) == kept_jobs(orig, JobSelectorView::OfRun(run)),
    ensures
        ({
            let j1 = without_job(j0, live[p].job_id@);
            &&& kept_jobs(j1, JobSelectorView::OfRun(run)) == kept_jobs(
                orig,
                JobSelectorView::OfRun(run),
            )
            &&& forall|q: int|
                p + 1 <= q < live.len() ==> j1.contains(cancelled_record(#[trigger] live[q]))
            &&& forall|q: int, w: int|
                p + 1 <= q < live.len() && 0 <= w < j1.len() && (#[trigger] j1[w]).job_id@ == (
                #[trigger] live[q]).job_id@ ==> j1[w] == cancelled_record(live[q])
        }),
{
    let id = live[p].job_id@;
    let pred = |j: JobRecord| !selects(JobSelectorView::WithId(id), j);
    let j1 = without_job(j0, id);
    assert forall|i: int| 0 <= i < j0.len() && (#[trigger] j0[i]).job_id@ == id implies j0[i].run_id@
        == run by {
        assert(j0[i] == cancelled_record(live[p]));
    }
    lemma_drop_id_keeps_others(j0, id, JobSelectorView::OfRun(run));
    assert forall|q: int| p + 1 <= q < live.len() implies j1.contains(
        cancelled_record(#[trigger] live[q]),
    ) by {
        let rec = cancelled_record(live[q]);
        let w = choose|w: int| 0 <= w < j0.len() && j0[w] == rec;
        assert(live[q].job_id@ != live[p].job_id@);
        j0.lemma_filter_contains(pred, w);
    }
    assert forall|q: int, w: int|
        p + 1 <= q < live.len() && 0 <= w < j1.len() && (#[trigger] j1[w]).job_id@ == (
        #[trigger] live[q]).job_id@ implies j1[w] == cancelled_record(live[q]) by {
        assert(j1.contains(j1[w]));
        j0.lemma_filter_contains_rev(pred, j1[w]);
        let v = choose|v: int| 0 <= v < j0.len() && j0[v] == j1[w];
        assert(j0[v].job_id@ == live[q].job_id@);
    }
}

/// The started-job record `st` names `job`.
pub open spec fn names_job(st: AnalysisJobStartedDto, job: JobRecord) -> bool {
    &&& st.job_id@ == job.job_id@ && st.run_id@ == job.run_id@ && st.lane == job.lane
    &&& st.generation == job.generation && st.node_path@ == job.node_path@
}

/// The progress reported for a cancelled job: a whole-game job's counts.
pub open spec fn counts_of(job: JobRecord) -> Option<(Option<usize>, Option<usize>, Option<usize>)> {
    if job.lane == AnalysisJobLaneDto::WholeGame {
        Some(progress_counts(job))
    } else {
        None
    }
}

/// What cancelling the jobs of run `run` did, from the continuous state, the
/// task and the jobs before (`s0`, `t0`, `j0`) to those after, with `r`
/// handed to the manager.
pub open spec fn run_cancelled(
    s0: ContinuousState,
    s1: ContinuousState,
    t0: Option<AnalysisTaskDto>,
    t1: Option<AnalysisTaskDto>,
    j0: Seq<JobRecord>,
    j1: Seq<JobRecord>,
    run: Seq<char>,
    r: RunCancellation,
) -> bool {
    &&& string_views(r.query_ids@) == query_ids_of(live_jobs(j0, run))
    &&& forall|i: int| 0 <= i < j1.len() ==> (#[trigger] j1[i]).run_id@ != run
    &&& cancels_in_order(s0, s1, t0, t1, j0, j1, run, r.events@)
    &&& distinct_ids(j0) ==> ({
        let live = live_jobs(j0, run);
        &&& j1 == kept_jobs(j0, JobSelectorView::OfRun(run))
        &&& r.events.len() == live.len()
        &&& forall|k: int| 0 <= k < live.len() ==> cancel_event(#[trigger] r.events@[k], live[k])
        &&& s1 == (ContinuousState { paused: s1.paused, ..s0 })
        &&& match last_finite_selected(live) {
            Some(job) => s1.paused matches Some(a) && admitted_as(a, job),
            None => s1.paused == s0.paused,
        }
        &&& task_after_end(t0, t1, live, AnalysisJobOutcomeDto::Cancelled, None)
    })
}

/// Cancels every job of run `run_id` that has not ended: each ends as
/// cancelled, in order, as its lane's end does; then no job of the run stays
/// registered. Gives the queries to stop and the end events to publish.
/// When no two jobs share an id, this comes out in closed form: the other
/// runs' jobs are kept as they were, one event comes per cancelled job,
/// continuous analysis is paused at the last cancelled finite selected-node
/// job (if any), and the task moves when its job is among the cancelled ones.
pub fn cancel_jobs_for_run(
    s: &mut ContinuousState,
    task: &mut Option<AnalysisTaskDto>,
    jobs: &mut Vec<JobRecord>,
    run_id: &str,
) -> (r: RunCancellation)
    ensures
        run_cancelled(
            *old(s),
            *final(s),
            *old(task),
            *final(task),
            old(jobs)@,
            final(jobs)@,
            run_id@,
            r,
        ),
{
    let ghost orig = jobs@;
    let ghost s0 = *s;
    let ghost t0 = *task;
    let ghost run = run_id@;
    let mut query_ids: Vec<String> = Vec::new();
    let mut ended: Vec<
        (AnalysisJobStartedDto, Option<(Option<usize>, Option<usize>, Option<usize>)>),
    > = Vec::new();
    let mut i: usize = 0;
    while i < jobs.len()
        invariant
            jobs.len() == orig.len(),
            i <= jobs.len(),
            run == run_id@,
            forall|j: int|
                0 <= j < i ==> #[trigger] jobs@[j] == if live_of_run(orig[j], run) {
                    cancelled_record(orig[j])
                } else {
                    orig[j]
                },
            forall|j: int| i <= j < jobs.len() ==> #[trigger] jobs@[j] == orig[j],
            string_views(query_ids@) == query_ids_of(live_jobs(orig.take(i as int), run)),
            ended.len() == live_jobs(orig.take(i as int), run).len(),
            forall|q: int|
                0 <= q < ended.len() ==> names_job((#[trigger] ended@[q]).0, live_jobs(orig.take(i as int), run)[q])
                    && ended@[q].1 == counts_of(live_jobs(orig.take(i as int), run)[q]),
        decreases jobs.len() - i,
    {
        let ghost before = jobs@;
        let ghost l0 = live_jobs(orig.take(i as int), run);
        assert(orig.take(i + 1).drop_last() =~= orig.take(i as int));
        assert(orig.take(i + 1).last() == orig[i as int]);
        assert(live_jobs(orig.take(i + 1), run) == if live_of_run(orig[i as int], run) {
            l0.push(orig[i as int])
        } else {
            l0
        }) by {
            reveal(Seq::filter);
        }
        if str_eq(jobs[i].run_id.as_str(), run_id) && !jobs[i].terminal {
            let ghost q0 = query_ids@;
            assert(live_of_run(orig[i as int], run));
            query_ids.push(jobs[i].query_id.clone());
            assert(query_ids@ == q0.push(orig[i as int].query_id));
            assert(string_views(query_ids@) =~= string_views(q0).push(orig[i as int].query_id@));
            assert(query_ids_of(l0.push(orig[i as int])) =~= query_ids_of(l0).push(
                orig[i as int].query_id@,
            ));
            let counts = if jobs[i].lane == AnalysisJobLaneDto::WholeGame {
                Some(whole_game_progress_counts(jobs[i].expected, jobs[i].current_index))
            } else {
                None
            };
            ended.push((started_from(&jobs[i]), counts));
            let mut job = jobs.remove(i);
            mark_job_cancelled(&mut job);
            jobs.insert(i, job);
            assert(jobs@ =~= before.update(i as int, cancelled_record(orig[i as int])));
            assert(string_views(query_ids@) =~= query_ids_of(live_jobs(orig.take(i + 1), run)));
        }
        i += 1;
    }
    assert(orig.take(orig.len() as int) =~= orig);
    let ghost live = live_jobs(orig, run);
    let ghost x = jobs@;
    let ghost dis = distinct_ids(orig);
    proof {
        assert(x =~= marked_cancelled(orig, run));
        lemma_marking_keeps_others(x, orig, run);
        if dis {
            lemma_filter_keeps_distinct(orig, |j: JobRecord| live_of_run(j, run));
        }
        assert forall|q: int| 0 <= q < live.len() implies live_of_run(#[trigger] live[q], run)
            && exists|v: int| 0 <= v < orig.len() && orig[v] == live[q] by {
            orig.lemma_filter_pred(|j: JobRecord| live_of_run(j, run), q);
            assert(live.contains(live[q]));
            orig.lemma_filter_contains_rev(|j: JobRecord| live_of_run(j, run), live[q]);
        }
        assert forall|q: int| 0 <= q < live.len() implies #[trigger] x.contains(
            cancelled_record(live[q]),
        ) by {
            let v = choose|v: int| 0 <= v < orig.len() && orig[v] == live[q];
            assert(x[v] == cancelled_record(live[q]));
        }
        if dis {
            assert forall|q: int, w: int|
                0 <= q < live.len() && 0 <= w < x.len() && (#[trigger] x[w]).job_id@ == (
                #[trigger] live[q]).job_id@ implies x[w] == cancelled_record(live[q]) by {
                let v = choose|v: int| 0 <= v < orig.len() && orig[v] == live[q];
                assert(x[v] == cancelled_record(live[q]));
                if w != v {
                    assert(orig[w].job_id@ != orig[v].job_id@);
                    assert(x[w].job_id@ == orig[w].job_id@);
                }
            }
        }
    }
    let mut events: Vec<AnalysisJobEventDto> = Vec::new();
    let ghost mut ss: Seq<ContinuousState> = seq![*s];
    let ghost mut ts: Seq<Option<AnalysisTaskDto>> = seq![*task];
    let ghost mut js: Seq<Seq<JobRecord>> = seq![jobs@];
    let ghost mut es: Seq<Seq<AnalysisJobEventDto>> = seq![events@];
    let mut p: usize = 0;
    while p < ended.len()
        invariant
            p <= ended.len(),
            ss.len() == p + 1 && ts.len() == p + 1 && js.len() == p + 1 && es.len() == p + 1,
            ss[0] == s0 && ts[0] == t0 && js[0] == marked_cancelled(orig, run),
            es[0] == Seq::<AnalysisJobEventDto>::empty(),
            ss.last() == *s && ts.last() == *task && js.last() == jobs@ && es.last() == events@,
            forall|q: int| 0 <= q < p ==> #[trigger] cancel_step_at(ss, ts, js, es, live, run, q),
            run == run_id@,
            live == live_jobs(orig, run),
            ended.len() == live.len(),
            dis == distinct_ids(orig),
            dis ==> distinct_ids(live),
            forall|q: int|
                0 <= q < ended.len() ==> names_job((#[trigger] ended@[q]).0, live[q])
                    && ended@[q].1 == counts_of(live[q]),
            forall|q: int| 0 <= q < live.len() ==> live_of_run(#[trigger] live[q], run),
            string_views(query_ids@) == query_ids_of(live),
            kept_jobs(x, JobSelectorView::OfRun(run)) == kept_jobs(orig, JobSelectorView::OfRun(run)),
            dis ==> kept_jobs(jobs@, JobSelectorView::OfRun(run)) == kept_jobs(
                orig,
                JobSelectorView::OfRun(run),
            ),
            dis ==> forall|q: int|
                p <= q < live.len() ==> jobs@.contains(cancelled_record(#[trigger] live[q])),
            dis ==> forall|q: int, w: int|
                p <= q < live.len() && 0 <= w < jobs.len() && (#[trigger] jobs@[w]).job_id@
                    == (#[trigger] live[q]).job_id@ ==> jobs@[w] == cancelled_record(live[q]),
            dis ==> events.len() == p,
            dis ==> forall|k: int| 0 <= k < p ==> cancel_event(#[trigger] events@[k], live[k]),
            dis ==> *s == (ContinuousState { paused: s.paused, ..s0 }),
            dis ==> match last_finite_selected(live.take(p as int)) {
                Some(job) => s.paused matches Some(a) && admitted_as(a, job),
                None => s.paused == s0.paused,
            },
            dis ==> task_after_end(
                t0,
                *task,
                live.take(p as int),
                AnalysisJobOutcomeDto::Cancelled,
                None,
            ),
            t0 == *old(task),
            s0 == *old(s),
        decreases ended.len() - p,
    {
        let ghost j0 = jobs@;
        let ghost s_before = *s;
        let ghost t_before = *task;
        let ghost e_before = events@;
        let ghost job = live[p as int];
        let ghost rec = cancelled_record(job);
        let ghost k = owner(j0, job.job_id@, run);
        proof {
            if dis {
                let w = choose|w: int| 0 <= w < j0.len() && j0[w] == rec;
                lemma_first_job_found(j0, job.job_id@, Some(run), 0, w);
                lemma_first_job_bounds(j0, job.job_id@, Some(run), 0);
                assert(j0[k] == rec);
            }
            assert(live.take(p + 1).drop_last() =~= live.take(p as int));
            assert(live.take(p + 1).last() == job);
        }
        let started = &ended[p].0;
        match ended[p].1 {
            Some(counts) => {
                let finished = finish_whole_game_job(
                    task,
                    jobs,
                    started.job_id.as_str(),
                    started.run_id.as_str(),
                    AnalysisJobOutcomeDto::Cancelled,
                    None,
                );
                match finished {
                    Some(path) => {
                        events.push(
                            whole_game_job_event(
                                started,
                                AnalysisJobOutcomeDto::Cancelled,
                                path,
                                counts.0,
                                counts.1,
                                counts.2,
                                None,
                                None,
                            ),
                        );
                    },
                    None => {},
                }
                proof {
                    assert(names_job(ended@[p as int].0, job));
                    assert(ended@[p as int].1 == counts_of(job));
                    assert(live_of_run(job, run));
                    if events@.len() > e_before.len() {
                        assert(events@.drop_last() =~= e_before);
                    }
                    assert(cancel_step(s_before, *s, t_before, *task, j0, jobs@, e_before, events@, job, run));
                    if dis {
                        lemma_drop_step(j0, live, orig, run, p as int);
                        if task_paused_for(*task, job.job_id@) {
                            let m = first_job(j0, job.job_id@, None, 0);
                            lemma_first_by_id_comes_first(j0, job.job_id@, run, 0);
                            assert(j0[m] == rec);
                            assert(jobs@ =~= j0);
                        }
                        assert(t_before matches Some(t) && t.job_id@ == job.job_id@ ==> cancels_task_job(live.take(p + 1), t0)) by {
                            if t_before matches Some(t) && t.job_id@ == job.job_id@ {
                                assert(live.take(p + 1)[p as int] == job);
                            }
                        }
                        assert(cancels_task_job(live.take(p as int), t0) ==> cancels_task_job(
                            live.take(p + 1),
                            t0,
                        )) by {
                            if cancels_task_job(live.take(p as int), t0) {
                                let c = choose|c: int|
                                    0 <= c < live.take(p as int).len() && (#[trigger] live.take(
                                        p as int,
                                    )[c]).lane == AnalysisJobLaneDto::WholeGame && (t0 matches Some(
                                        t,
                                    ) && live.take(p as int)[c].job_id@ == t.job_id@);
                                assert(live.take(p + 1)[c] == live.take(p as int)[c]);
                            }
                        }
                        assert(cancels_task_job(live.take(p + 1), t0) ==> (cancels_task_job(
                            live.take(p as int),
                            t0,
                        ) || (t0 matches Some(t) && job.job_id@ == t.job_id@))) by {
                            if cancels_task_job(live.take(p + 1), t0) {
                                let c = choose|c: int|
                                    0 <= c < live.take(p + 1).len() && (#[trigger] live.take(p + 1)[c]).lane
                                        == AnalysisJobLaneDto::WholeGame && (t0 matches Some(t)
                                        && live.take(p + 1)[c].job_id@ == t.job_id@);
                                if c < p {
                                    assert(live.take(p as int)[c] == live.take(p + 1)[c]);
                                }
                            }
                        }
                        if cancels_task_job(live.take(p as int), t0) {
                            let c = choose|c: int|
                                0 <= c < live.take(p as int).len() && (#[trigger] live.take(
                                    p as int,
                                )[c]).lane == AnalysisJobLaneDto::WholeGame && (t0 matches Some(t)
                                    && live.take(p as int)[c].job_id@ == t.job_id@);
                            assert(live.take(p as int)[c] == live[c]);
                            assert(live[c].job_id@ != live[p as int].job_id@);
                        }
                    }
                }
            },
            None => {
                let published = finish_selected_node_job(
                    s,
                    jobs,
                    started.job_id.as_str(),
                    started.run_id.as_str(),
                    Some(SelectedJobEnd::Outcome(AnalysisJobOutcomeDto::Cancelled)),
                );
                if published {
                    events.push(
                        selected_node_job_event(
                            started,
                            AnalysisJobOutcomeDto::Cancelled,
                            None,
                            None,
                        ),
                    );
                }
                proof {
                    assert(names_job(ended@[p as int].0, job));
                    assert(ended@[p as int].1 == counts_of(job));
                    assert(live_of_run(job, run));
                    if events@.len() > e_before.len() {
                        assert(events@.drop_last() =~= e_before);
                    }
                    assert(cancel_step(s_before, *s, t_before, *task, j0, jobs@, e_before, events@, job, run));
                    if dis {
                        lemma_drop_step(j0, live, orig, run, p as int);
                        assert(cancels_task_job(live.take(p + 1), t0) == cancels_task_job(
                            live.take(p as int),
                            t0,
                        )) by {
                            if cancels_task_job(live.take(p + 1), t0) {
                                let c = choose|c: int|
                                    0 <= c < live.take(p + 1).len() && (#[trigger] live.take(p + 1)[c]).lane
                                        == AnalysisJobLaneDto::WholeGame && (t0 matches Some(t)
                                        && live.take(p + 1)[c].job_id@ == t.job_id@);
                                assert(c < p);
                                assert(live.take(p as int)[c] == live.take(p + 1)[c]);
                            }
                            if cancels_task_job(live.take(p as int), t0) {
                                let c = choose|c: int|
                                    0 <= c < live.take(p as int).len() && (#[trigger] live.take(
                                        p as int,
                                    )[c]).lane == AnalysisJobLaneDto::WholeGame && (t0 matches Some(
                                        t,
                                    ) && live.take(p as int)[c].job_id@ == t.job_id@);
                                assert(live.take(p + 1)[c] == live.take(p as int)[c]);
                            }
                        }
                    }
                }
            },
        }
        proof {
            assert(cancel_step(s_before, *s, t_before, *task, j0, jobs@, e_before, events@, job, run));
            let ss1 = ss.push(*s);
            let ts1 = ts.push(*task);
            let js1 = js.push(jobs@);
            let es1 = es.push(events@);
            assert forall|q: int| 0 <= q < p + 1 implies #[trigger] cancel_step_at(
                ss1,
                ts1,
                js1,
                es1,
                live,
                run,
                q,
            ) by {
                if q < p {
                    assert(cancel_step_at(ss, ts, js, es, live, run, q));
                }
            }
            ss = ss1;
            ts = ts1;
            js = js1;
            es = es1;
        }
        p += 1;
    }
    assert(live.take(live.len() as int) =~= live);
    let ghost before_drop = jobs@;
    drop_jobs(jobs, &JobSelector::OfRun(String::from_str(run_id)));
    assert forall|i: int| 0 <= i < jobs.len() implies (#[trigger] jobs@[i]).run_id@ != run_id@ by {
        before_drop.lemma_filter_pred(|j: JobRecord| !selects(JobSelectorView::OfRun(run_id@), j), i);
    }
    assert(cancel_chain(ss, ts, js, es, orig, run));
    RunCancellation { query_ids, events }
}

/// Cancels the jobs of the run the engine phase is about, as
/// `cancel_jobs_for_run` does; without such a run nothing happens.
pub fn cancel_jobs_for_current(
    phase: &EnginePhase,
    s: &mut ContinuousState,
    task: &mut Option<AnalysisTaskDto>,
    jobs: &mut Vec<JobRecord>,
) -> (r: Option<RunCancellation>)
    ensures
        match phase_run(*phase) {
            None => r is None && *final(s) == *old(s) && *final(task) == *old(task) && final(jobs)@
                == old(jobs)@,
            Some(run) => r matches Some(c) && run_cancelled(
                *old(s),
                *final(s),
                *old(task),
                *final(task),
                old(jobs)@,
                final(jobs)@,
                run.run_id@,
                c,
            ),
        },
{
    match current_run_id(phase) {
        Some(run_id) => Some(cancel_jobs_for_run(s, task, jobs, run_id.as_str())),
        None => None,
    }
}

} // verus!
