//! The analysis-task state machine as its job runs: searching, finishing,
//! cancellation, invalidation, failure and the recording of results.
use vstd::prelude::*;
use crate::analysis_job::AnalysisJobOutcomeDto;
use crate::analysis_task::{
    AnalysisTaskDto, AnalysisTaskOverviewDto, AnalysisTaskStageDto, AnalysisTaskStateDto,
};
use crate::model::{opt_string_view, AnalysisFrameDto, EngineFailureDto, NodePath};
use crate::text::str_eq;
use super::jobs::{drop_jobs, kept_jobs, JobRecord, JobSelector, JobSelectorView};

verus! {

broadcast use vstd::string::group_string_axioms;

/// The paths of a list of nodes.
pub open spec fn path_views(v: Seq<NodePath>) -> Seq<Seq<u32>> {
    v.map_values(|p: NodePath| p@)
}

/// A task that has been cancelled, has failed or was invalidated; a job's
/// end no longer moves it.
pub open spec fn is_settled(s: AnalysisTaskStateDto) -> bool {
    s == AnalysisTaskStateDto::Cancelled || s == AnalysisTaskStateDto::Failed || s
        == AnalysisTaskStateDto::Invalidated
}

/// A task that is queued, searching, pausing or paused.
pub open spec fn is_live(s: AnalysisTaskStateDto) -> bool {
    s == AnalysisTaskStateDto::Queued || s == AnalysisTaskStateDto::Searching || s
        == AnalysisTaskStateDto::Pausing || s == AnalysisTaskStateDto::Paused
}

/// `n` is `o` moved to `state` with `reason`, all else kept.
pub open spec fn moved_to(
    o: AnalysisTaskDto,
    n: AnalysisTaskDto,
    state: AnalysisTaskStateDto,
    reason: Option<Seq<char>>,
) -> bool {
    &&& n == (AnalysisTaskDto { state, reason: n.reason, ..o })
    &&& opt_string_view(n.reason) == reason
}

/// A task step: when `applies` holds of a present task, it moves to `state`
/// with `reason`; otherwise nothing changes.
pub open spec fn task_step(
    before: Option<AnalysisTaskDto>,
    after: Option<AnalysisTaskDto>,
    applies: bool,
    state: AnalysisTaskStateDto,
    reason: Option<Seq<char>>,
) -> bool {
    match before {
        Some(t) => if applies {
            after matches Some(n) && moved_to(t, n, state, reason)
        } else {
            after == before
        },
        None => after == before,
    }
}

pub open spec fn cancelled_message() -> Seq<char> {
    "Analysis task was cancelled."@
}

pub open spec fn incomplete_message() -> Seq<char> {
    "Analysis task ended before every requested position produced a result."@
}

pub open spec fn failed_message() -> Seq<char> {
    "Analysis task failed."@
}

pub open spec fn superseded_message() -> Seq<char> {
    "Analysis task was superseded."@
}

/// Where the end of a task's job leaves it, or `None` when it stays as it
/// is: all results in completes it, a cancel while pausing pauses it, and the
/// other ends cancel, fail or invalidate it.
pub open spec fn finish_target(
    t: AnalysisTaskDto,
    outcome: AnalysisJobOutcomeDto,
    failure_message: Option<Seq<char>>,
) -> Option<(AnalysisTaskStateDto, Option<Seq<char>>)> {
    if is_settled(t.state) {
        None
    } else {
        match outcome {
            AnalysisJobOutcomeDto::Completed => if t.completed.len() == t.requested.len() {
                Some((AnalysisTaskStateDto::Completed, None))
            } else {
                Some((AnalysisTaskStateDto::Failed, Some(incomplete_message())))
            },
            AnalysisJobOutcomeDto::Cancelled => if t.state == AnalysisTaskStateDto::Pausing {
                Some((AnalysisTaskStateDto::Paused, None))
            } else {
                Some((AnalysisTaskStateDto::Cancelled, Some(cancelled_message())))
            },
            AnalysisJobOutcomeDto::Failed | AnalysisJobOutcomeDto::Timeout => Some(
                (
                    AnalysisTaskStateDto::Failed,
                    Some(
                        match failure_message {
                            Some(m) => m,
                            None => failed_message(),
                        },
                    ),
                ),
            ),
            AnalysisJobOutcomeDto::Superseded => Some(
                (AnalysisTaskStateDto::Invalidated, Some(superseded_message())),
            ),
            _ => None,
        }
    }
}

pub open spec fn finish_applies(
    t: Option<AnalysisTaskDto>,
    job_id: Seq<char>,
    outcome: AnalysisJobOutcomeDto,
    failure_message: Option<Seq<char>>,
) -> bool {
    t matches Some(x) && x.job_id@ == job_id && finish_target(x, outcome, failure_message) is Some
}

pub open spec fn failure_message(f: Option<&EngineFailureDto>) -> Option<Seq<char>> {
    match f {
        Some(x) => Some(x.message@),
        None => None,
    }
}

/// `after` is the task `before` once its job `job_id` ended with `outcome`
/// (and, for a failure, the message `fm`): a live task of that job moves to
/// the state its outcome gives; any other task stays as it was.
pub open spec fn finishes_task(
    before: Option<AnalysisTaskDto>,
    after: Option<AnalysisTaskDto>,
    job_id: Seq<char>,
    outcome: AnalysisJobOutcomeDto,
    fm: Option<Seq<char>>,
) -> bool {
    let applies = finish_applies(before, job_id, outcome, fm);
    let target = if applies {
        finish_target(before->0, outcome, fm)->0
    } else {
        (AnalysisTaskStateDto::Queued, None)
    };
    task_step(before, after, applies, target.0, target.1)
}

/// The task of job `job_id` starts searching when it was queued.
pub fn mark_analysis_task_searching(task: &mut Option<AnalysisTaskDto>, job_id: &str)
    ensures
        task_step(
            *old(task),
            *final(task),
            *old(task) matches Some(t) && t.job_id@ == job_id@ && t.state
                == AnalysisTaskStateDto::Queued,
            AnalysisTaskStateDto::Searching,
            match *old(task) {
                Some(t) => opt_string_view(t.reason),
                None => None,
            },
        ),
{
    match task {
        Some(t) => {
            if str_eq(t.job_id.as_str(), job_id) && t.state == AnalysisTaskStateDto::Queued {
                t.state = AnalysisTaskStateDto::Searching;
            }
        },
        None => {},
    }
}

/// Moves the task of job `job_id` as the job's end `outcome` says.
pub fn finish_analysis_task_locked(
    task: &mut Option<AnalysisTaskDto>,
    job_id: &str,
    outcome: AnalysisJobOutcomeDto,
    failure: Option<&EngineFailureDto>,
)
    ensures
        finishes_task(*old(task), *final(task), job_id@, outcome, failure_message(failure)),
{
    match task {
        Some(t) => {
            if !str_eq(t.job_id.as_str(), job_id) {
                return ;
            }
            if t.state == AnalysisTaskStateDto::Cancelled || t.state == AnalysisTaskStateDto::Failed
                || t.state == AnalysisTaskStateDto::Invalidated {
                return ;
            }
            match outcome {
                AnalysisJobOutcomeDto::Completed => {
                    if t.completed.len() == t.requested.len() {
                        t.state = AnalysisTaskStateDto::Completed;
                        t.reason = None;
                    } else {
                        t.state = AnalysisTaskStateDto::Failed;
                        t.reason = Some(
                            String::from_str(
                                "Analysis task ended before every requested position produced a result.",
                            ),
                        );
                    }
                },
                AnalysisJobOutcomeDto::Cancelled => {
                    if t.state == AnalysisTaskStateDto::Pausing {
                        t.state = AnalysisTaskStateDto::Paused;
                        t.reason = None;
                    } else {
                        t.state = AnalysisTaskStateDto::Cancelled;
                        t.reason = Some(String::from_str("Analysis task was cancelled."));
                    }
                },
                AnalysisJobOutcomeDto::Failed | AnalysisJobOutcomeDto::Timeout => {
                    t.state = AnalysisTaskStateDto::Failed;
                    t.reason = Some(
                        match failure {
                            Some(f) => f.message.clone(),
                            None => String::from_str("Analysis task failed."),
                        },
                    );
                },
                AnalysisJobOutcomeDto::Superseded => {
                    t.state = AnalysisTaskStateDto::Invalidated;
                    t.reason = Some(String::from_str("Analysis task was superseded."));
                },
                _ => {},
            }
        },
        None => {},
    }
}

/// Cancels the task of job `job_id` while it is queued, searching, pausing
/// or paused.
pub fn cancel_analysis_task_locked(task: &mut Option<AnalysisTaskDto>, job_id: &str)
    ensures
        task_step(
            *old(task),
            *final(task),
            *old(task) matches Some(t) && t.job_id@ == job_id@ && is_live(t.state),
            AnalysisTaskStateDto::Cancelled,
            Some(cancelled_message()),
        ),
{
    match task {
        Some(t) => {
            if str_eq(t.job_id.as_str(), job_id) && (t.state == AnalysisTaskStateDto::Queued
                || t.state == AnalysisTaskStateDto::Searching || t.state
                == AnalysisTaskStateDto::Pausing || t.state == AnalysisTaskStateDto::Paused) {
                t.state = AnalysisTaskStateDto::Cancelled;
                t.reason = Some(String::from_str("Analysis task was cancelled."));
            }
        },
        None => {},
    }
}

/// Invalidates the task unless it was already cancelled or invalidated, and
/// says whether it did; an invalidated task's ended jobs are dropped.
pub fn invalidate_analysis_task_locked(
    task: &mut Option<AnalysisTaskDto>,
    jobs: &mut Vec<JobRecord>,
    reason: &str,
) -> (r: bool)
    ensures
        r == (*old(task) matches Some(t) && (is_live(t.state) || t.state
            == AnalysisTaskStateDto::Completed || t.state == AnalysisTaskStateDto::Failed)),
        task_step(*old(task), *final(task), r, AnalysisTaskStateDto::Invalidated, Some(reason@)),
        final(jobs)@ == if r {
            kept_jobs(old(jobs)@, JobSelectorView::EndedWithId(old(task)->0.job_id@))
        } else {
            old(jobs)@
        },
{
    match task {
        Some(t) => {
            if t.state == AnalysisTaskStateDto::Queued || t.state == AnalysisTaskStateDto::Searching
                || t.state == AnalysisTaskStateDto::Pausing || t.state
                == AnalysisTaskStateDto::Paused || t.state == AnalysisTaskStateDto::Completed
                || t.state == AnalysisTaskStateDto::Failed {
                t.state = AnalysisTaskStateDto::Invalidated;
                t.reason = Some(String::from_str(reason));
                drop_jobs(jobs, &JobSelector::EndedWithId(t.job_id.clone()));
                true
            } else {
                false
            }
        },
        None => false,
    }
}

/// Fails the task, of job `job_id` when one is given, while it is queued,
/// searching, pausing or paused, and says whether it did; a failed task's
/// ended jobs are dropped.
pub fn fail_analysis_task_locked(
    task: &mut Option<AnalysisTaskDto>,
    jobs: &mut Vec<JobRecord>,
    job_id: Option<&str>,
    reason: &str,
) -> (r: bool)
    ensures
        r == (*old(task) matches Some(t) && (job_id matches Some(j) ==> t.job_id@ == j@)
            && is_live(t.state)),
        task_step(*old(task), *final(task), r, AnalysisTaskStateDto::Failed, Some(reason@)),
        final(jobs)@ == if r {
            kept_jobs(old(jobs)@, JobSelectorView::EndedWithId(old(task)->0.job_id@))
        } else {
            old(jobs)@
        },
{
    match task {
        Some(t) => {
            let job_matches = match job_id {
                Some(j) => str_eq(t.job_id.as_str(), j),
                None => true,
            };
            if job_matches && (t.state == AnalysisTaskStateDto::Queued || t.state
                == AnalysisTaskStateDto::Searching || t.state == AnalysisTaskStateDto::Pausing
                || t.state == AnalysisTaskStateDto::Paused) {
                t.state = AnalysisTaskStateDto::Failed;
                t.reason = Some(String::from_str(reason));
                drop_jobs(jobs, &JobSelector::EndedWithId(t.job_id.clone()));
                true
            } else {
                false
            }
        },
        None => false,
    }
}

/// Whether a node with the path of `p` is among `v`.
fn contains_path(v: &Vec<NodePath>, p: &NodePath) -> (r: bool)
    ensures
        r == path_views(v@).contains(p@),
{
    let mut i: usize = 0;
    while i < v.len()
        invariant
            i <= v.len(),
            forall|j: int| 0 <= j < i ==> v@[j]@ != p@,
        decreases v.len() - i,
    {
        if v[i].same_as(p) {
            assert(path_views(v@)[i as int] == p@);
            return true;
        }
        i += 1;
    }
    assert(!path_views(v@).contains(p@)) by {
        if path_views(v@).contains(p@) {
            let k = choose|k: int| 0 <= k < path_views(v@).len() && path_views(v@)[k] == p@;
            assert(v@[k]@ == p@);
        }
    }
    false
}

/// An overview entry holds `path` and a copy of `frame`.
pub open spec fn overview_entry_of(
    e: AnalysisTaskOverviewDto,
    path: NodePath,
    frame: AnalysisFrameDto,
) -> bool {
    &&& e.node_path@ == path@
    &&& e.frame.job_id == frame.job_id
    &&& e.frame.turn == frame.turn
    &&& e.frame.visits == frame.visits
    &&& e.frame.winrate_black_bits == frame.winrate_black_bits
    &&& e.frame.score_mean_black_bits == frame.score_mean_black_bits
}

/// `after` adds `p` to `before` unless `before` already has its path.
pub open spec fn added_once(before: Seq<NodePath>, after: Seq<NodePath>, p: NodePath) -> bool {
    if path_views(before).contains(p@) {
        after == before
    } else {
        path_views(after) == path_views(before).push(p@)
    }
}

/// Whether a result for `path` from job `job_id` counts toward the task.
pub open spec fn record_applies(t: Option<AnalysisTaskDto>, job_id: Seq<char>, path: Seq<u32>) -> bool {
    &&& t matches Some(x)
    &&& x.job_id@ == job_id
    &&& (x.state == AnalysisTaskStateDto::Queued || x.state == AnalysisTaskStateDto::Searching)
    &&& path_views(x.requested@).contains(path)
}

/// What recording a result does to the task, as `record_analysis_task_completion`
/// performs it.
pub open spec fn record_step(
    before: Option<AnalysisTaskDto>,
    after: Option<AnalysisTaskDto>,
    job_id: Seq<char>,
    node_path: NodePath,
    frame: AnalysisFrameDto,
    ending_conditions: Vec<String>,
) -> bool {
    if !record_applies(before, job_id, node_path@) {
        after == before
    } else {
        let o = before->0;
        &&& after matches Some(n)
        &&& n == (AnalysisTaskDto {
            overview_completed: n.overview_completed,
            overview_summaries: n.overview_summaries,
            completed: n.completed,
            ending_conditions,
            reason: None,
            ..o
        })
        &&& if o.stage == AnalysisTaskStageDto::Overview {
            &&& added_once(o.overview_completed@, n.overview_completed@, node_path)
            &&& n.completed == o.completed
            &&& if path_views(o.overview_completed@).contains(node_path@) {
                n.overview_summaries == o.overview_summaries
            } else {
                &&& n.overview_summaries@.len() == o.overview_summaries@.len() + 1
                &&& n.overview_summaries@.take(o.overview_summaries@.len() as int)
                    == o.overview_summaries@
                &&& overview_entry_of(n.overview_summaries@.last(), node_path, frame)
            }
        } else {
            &&& added_once(o.completed@, n.completed@, node_path)
            &&& n.overview_completed == o.overview_completed
            &&& n.overview_summaries == o.overview_summaries
        }
    }
}

/// Records the result of a requested position: in the overview stage once
/// per position, with its frame; in the other stages once per position. The
/// task takes the job's ending conditions and loses its reason.
pub fn record_analysis_task_completion(
    task: &mut Option<AnalysisTaskDto>,
    job_id: &str,
    node_path: &NodePath,
    frame: &AnalysisFrameDto,
    ending_conditions: Vec<String>,
)
    ensures
        record_step(*old(task), *final(task), job_id@, *node_path, *frame, ending_conditions),
{
    match task {
        Some(t) => {
            if !str_eq(t.job_id.as_str(), job_id) {
                return ;
            }
            if !(t.state == AnalysisTaskStateDto::Queued || t.state
                == AnalysisTaskStateDto::Searching) {
                return ;
            }
            if !contains_path(&t.requested, node_path) {
                return ;
            }
            let ghost oc = t.completed@;
            let ghost ooc = t.overview_completed@;
            let ghost os = t.overview_summaries@;
            if t.stage == AnalysisTaskStageDto::Overview {
                if !contains_path(&t.overview_completed, node_path) {
                    t.overview_completed.push(node_path.clone());
                    t.overview_summaries.push(
                        AnalysisTaskOverviewDto { node_path: node_path.clone(), frame: frame.clone() },
                    );
                    assert(path_views(t.overview_completed@) =~= path_views(ooc).push(node_path@));
                    assert(t.overview_summaries@.take(os.len() as int) =~= os);
                }
            } else if !contains_path(&t.completed, node_path) {
                t.completed.push(node_path.clone());
                assert(path_views(t.completed@) =~= path_views(oc).push(node_path@));
            }
            t.ending_conditions = ending_conditions;
            t.reason = None;
        },
        None => {},
    }
}

/// The positions a task has results for were requested, and none is
/// counted twice.
pub open spec fn results_are_requested_once(done: Seq<Seq<u32>>, requested: Seq<Seq<u32>>) -> bool {
    &&& forall|i: int| 0 <= i < done.len() ==> requested.contains(#[trigger] done[i])
    &&& forall|i: int, j: int| 0 <= i < j < done.len() ==> #[trigger] done[i] != #[trigger] done[j]
}

pub open spec fn task_results_wf(t: AnalysisTaskDto) -> bool {
    &&& results_are_requested_once(path_views(t.completed@), path_views(t.requested@))
    &&& results_are_requested_once(path_views(t.overview_completed@), path_views(t.requested@))
}

proof fn lemma_added_once_keeps_wf(
    before: Seq<NodePath>,
    after: Seq<NodePath>,
    p: NodePath,
    requested: Seq<Seq<u32>>,
)
    requires
        results_are_requested_once(path_views(before), requested),
        added_once(before, after, p),
        requested.contains(p@),
    ensures
        results_are_requested_once(path_views(after), requested),
{
    if !path_views(before).contains(p@) {
        let b = path_views(before);
        let a = path_views(after);
        assert(a == b.push(p@));
        assert forall|i: int| 0 <= i < a.len() implies requested.contains(#[trigger] a[i]) by {
            if i < b.len() {
                assert(a[i] == b[i]);
            }
        }
        assert forall|i: int, j: int| 0 <= i < j < a.len() implies #[trigger] a[i]
            != #[trigger] a[j] by {
            assert(a[i] == b[i]);
            if j < b.len() {
                assert(a[j] == b[j]);
            }
        }
    }
}

/// Recording a result keeps every counted position a requested one, counted
/// once.
pub proof fn recording_keeps_results_requested_once(
    before: Option<AnalysisTaskDto>,
    after: Option<AnalysisTaskDto>,
    job_id: Seq<char>,
    node_path: NodePath,
    frame: AnalysisFrameDto,
    ending_conditions: Vec<String>,
)
    requires
        before matches Some(b) && task_results_wf(b),
        record_step(before, after, job_id, node_path, frame, ending_conditions),
    ensures
        after matches Some(a) && task_results_wf(a),
{
    if record_applies(before, job_id, node_path@) {
        let o = before->0;
        let n = after->0;
        if o.stage == AnalysisTaskStageDto::Overview {
            lemma_added_once_keeps_wf(
                o.overview_completed@,
                n.overview_completed@,
                node_path,
                path_views(o.requested@),
            );
        } else {
            lemma_added_once_keeps_wf(o.completed@, n.completed@, node_path, path_views(o.requested@));
        }
    }
}

/// A task completes only on a completed job that has a result for as many
/// positions as were requested.
pub proof fn task_completes_only_with_every_result(
    t: AnalysisTaskDto,
    outcome: AnalysisJobOutcomeDto,
    failure_message: Option<Seq<char>>,
)
    requires
        finish_target(t, outcome, failure_message) matches Some(x) && x.0
            == AnalysisTaskStateDto::Completed,
    ensures
        outcome == AnalysisJobOutcomeDto::Completed,
        t.completed.len() == t.requested.len(),
{
}

/// A cancelled or invalidated task stays as it is: no job end, cancel,
/// failure, invalidation, search start or result moves it.
pub proof fn cancelled_and_invalidated_tasks_are_final(
    t: AnalysisTaskDto,
    outcome: AnalysisJobOutcomeDto,
    failure_message: Option<Seq<char>>,
    job_id: Seq<char>,
    path: Seq<u32>,
)
    requires
        t.state == AnalysisTaskStateDto::Cancelled || t.state == AnalysisTaskStateDto::Invalidated,
    ensures
        !finish_applies(Some(t), job_id, outcome, failure_message),
        !is_live(t.state),
        !(is_live(t.state) || t.state == AnalysisTaskStateDto::Completed || t.state
            == AnalysisTaskStateDto::Failed),
        t.state != AnalysisTaskStateDto::Queued,
        !record_applies(Some(t), job_id, path),
{
}

/// A failed task only moves again by invalidation.
pub proof fn failed_tasks_only_get_invalidated(
    t: AnalysisTaskDto,
    outcome: AnalysisJobOutcomeDto,
    failure_message: Option<Seq<char>>,
    job_id: Seq<char>,
    path: Seq<u32>,
)
    requires
        t.state == AnalysisTaskStateDto::Failed,
    ensures
        !finish_applies(Some(t), job_id, outcome, failure_message),
        !is_live(t.state),
        t.state != AnalysisTaskStateDto::Queued,
        !record_applies(Some(t), job_id, path),
{
}

} // verus!
