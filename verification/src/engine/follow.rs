//! How the followed position, the continuous-analysis preferences and the
//! start of a document departure change continuous analysis.
use vstd::prelude::*;
use crate::analysis_job::{AnalysisJobLaneDto, AnalysisJobStartedDto};
use crate::analysis_task::{AnalysisTaskDto, AnalysisTaskStateDto};
use crate::preferences::{budget_is_valid, budget_limit_message, ContinuousAnalysisBudgetDto};
use super::same_position;
use super::continuous::{
    clear_weak_holds_for_new_position, limited_state, without_finished_selected,
    AnalysisJobModeDto, ContinuousState, ContinuousTarget, SelectedJobStatus,
};
use super::job_end::names_job;
use super::jobs::{
    current_job_index, drop_jobs, kept_jobs, last_current, started_from, JobDisposition, JobRecord,
    JobSelector, JobSelectorView,
};
use super::tasks::{cancel_analysis_task_locked, cancelled_message, is_live, task_step};

verus! {

broadcast use vstd::string::group_string_axioms;

/// What changing the continuous-analysis preferences asks of the manager.
#[derive(Debug)]
pub enum PreferenceStep {
    /// Nothing changed.
    Unchanged,
    /// The preferences were applied: the manager publishes the snapshot,
    /// stops the given job with the given disposition, and reconciles.
    Applied { stop: Option<(AnalysisJobStartedDto, JobDisposition)> },
}

/// What a change of the followed position asks of the manager.
#[derive(Debug)]
pub struct FollowStep {
    /// Whether the snapshot is published.
    pub publish: bool,
    /// The selected-node job to stop as superseded, if any.
    pub stop: Option<AnalysisJobStartedDto>,
}

/// The current selected-node job of `jobs`, if any.
pub open spec fn current_selected(jobs: Seq<JobRecord>) -> Option<JobRecord> {
    match last_current(jobs, AnalysisJobLaneDto::SelectedNode) {
        Some(i) => Some(jobs[i]),
        None => None,
    }
}

fn current_selected_index(jobs: &Vec<JobRecord>) -> (r: Option<usize>)
    ensures
        match r {
            Some(i) => i < jobs.len() && current_selected(jobs@) == Some(jobs@[i as int]),
            None => current_selected(jobs@) is None,
        },
{
    current_job_index(jobs, AnalysisJobLaneDto::SelectedNode)
}

/// What continuous analysis reads of the current selected-node job of
/// `jobs`: its mode, state and position.
pub fn selected_job_status(jobs: &Vec<JobRecord>) -> (r: Option<SelectedJobStatus>)
    ensures
        match current_selected(jobs@) {
            Some(j) => r matches Some(st) && st.mode == j.mode && st.state == j.state
                && st.generation == j.generation && st.node_path@ == j.node_path@,
            None => r is None,
        },
{
    match current_selected_index(jobs) {
        Some(i) => Some(
            SelectedJobStatus {
                mode: jobs[i].mode,
                state: jobs[i].state,
                generation: jobs[i].generation,
                node_path: jobs[i].node_path.clone(),
            },
        ),
        None => None,
    }
}

/// The job that new preferences stop: the current selected-node job when it
/// is a running continuous one and continuous analysis was turned off or got
/// a new budget; it is superseded when analysis stays on, cancelled when it
/// was turned off.
pub open spec fn preference_stop(
    jobs: Seq<JobRecord>,
    enabled: bool,
    budget_changed: bool,
    stop: Option<(AnalysisJobStartedDto, JobDisposition)>,
) -> bool {
    match current_selected(jobs) {
        Some(j) => if j.mode == AnalysisJobModeDto::Continuous && !limited_state(j.state) && (
        !enabled || budget_changed) {
            stop matches Some((st, d)) && names_job(st, j) && d == if enabled {
                JobDisposition::Superseded
            } else {
                JobDisposition::Cancelled
            }
        } else {
            stop is None
        },
        None => stop is None,
    }
}

/// Sets the user's continuous-analysis intent and budget. An invalid budget
/// is refused; the same intent and budget change nothing; a new budget drops
/// the budget-limit and pause holds with the ended selected-node jobs.
pub fn set_continuous_preferences(
    s: &mut ContinuousState,
    jobs: &mut Vec<JobRecord>,
    enabled: bool,
    budget: ContinuousAnalysisBudgetDto,
) -> (r: Result<PreferenceStep, String>)
    ensures
        !budget_is_valid(budget) ==> (r matches Err(m) && m@ == budget_limit_message()) && *final(s)
            == *old(s) && final(jobs)@ == old(jobs)@,
        budget_is_valid(budget) && old(s).intent == Some(enabled) && old(s).budget == budget ==> (
        r matches Ok(PreferenceStep::Unchanged)) && *final(s) == *old(s) && final(jobs)@
            == old(jobs)@,
        budget_is_valid(budget) && !(old(s).intent == Some(enabled) && old(s).budget == budget)
            ==> ({
            let changed = old(s).budget != budget;
            &&& *final(s) == if changed {
                ContinuousState {
                    intent: Some(enabled),
                    budget,
                    limited: None,
                    paused: None,
                    ..*old(s)
                }
            } else {
                ContinuousState { intent: Some(enabled), budget, ..*old(s) }
            }
            &&& final(jobs)@ == if changed {
                without_finished_selected(old(jobs)@)
            } else {
                old(jobs)@
            }
            &&& r matches Ok(PreferenceStep::Applied { stop }) && preference_stop(
                final(jobs)@,
                enabled,
                changed,
                stop,
            )
        }),
{
    if let Err(m) = budget.validate() {
        return Err(m);
    }
    let changed = s.budget != budget;
    if s.intent == Some(enabled) && !changed {
        return Ok(PreferenceStep::Unchanged);
    }
    s.intent = Some(enabled);
    s.budget = budget;
    if changed {
        clear_weak_holds_for_new_position(s, jobs);
    }
    let stop = match current_selected_index(jobs) {
        Some(i) => {
            let job = &jobs[i];
            if job.mode == AnalysisJobModeDto::Continuous && !job.state.is_limited() && (!enabled
                || changed) {
                let disposition = if enabled {
                    JobDisposition::Superseded
                } else {
                    JobDisposition::Cancelled
                };
                Some((started_from(job), disposition))
            } else {
                None
            }
        },
        None => None,
    };
    Ok(PreferenceStep::Applied { stop })
}

/// The followed position moves to `target`: a new position drops the
/// budget-limit and pause holds with the ended selected-node jobs, and the
/// current selected-node job is stopped when it is at another position.
pub fn follow_continuous_position(
    s: &mut ContinuousState,
    jobs: &mut Vec<JobRecord>,
    target: ContinuousTarget,
) -> (r: FollowStep)
    ensures
        ({
            let changed = match old(s).target {
                Some(o) => !(o.generation == target.generation && o.node_path@
                    == target.node_path@),
                None => true,
            };
            &&& *final(s) == if changed {
                ContinuousState { target: Some(target), limited: None, paused: None, ..*old(s) }
            } else {
                ContinuousState { target: Some(target), ..*old(s) }
            }
            &&& final(jobs)@ == if changed {
                without_finished_selected(old(jobs)@)
            } else {
                old(jobs)@
            }
            &&& match current_selected(final(jobs)@) {
                Some(j) => if !(j.generation == target.generation && j.node_path@
                    == target.node_path@) {
                    r.stop matches Some(st) && names_job(st, j)
                } else {
                    r.stop is None
                },
                None => r.stop is None,
            }
            &&& r.publish == (changed || r.stop is Some)
        }),
{
    let changed = match &s.target {
        Some(o) => !same_position(o.generation, &o.node_path, target.generation, &target.node_path),
        None => true,
    };
    s.target = Some(target);
    if changed {
        clear_weak_holds_for_new_position(s, jobs);
    }
    let stop = match current_selected_index(jobs) {
        Some(i) => {
            let job = &jobs[i];
            let at_target = match &s.target {
                Some(t) => same_position(job.generation, &job.node_path, t.generation, &t.node_path),
                None => false,
            };
            if !at_target {
                Some(started_from(job))
            } else {
                None
            }
        },
        None => None,
    };
    let publish = changed || stop.is_some();
    FollowStep { publish, stop }
}

/// The followed position is cleared: a position that was followed drops the
/// budget-limit and pause holds with the ended selected-node jobs, and the
/// current selected-node job is stopped.
pub fn clear_continuous_position(s: &mut ContinuousState, jobs: &mut Vec<JobRecord>) -> (r:
    FollowStep)
    ensures
        ({
            let changed = old(s).target is Some;
            &&& *final(s) == if changed {
                ContinuousState { target: None, limited: None, paused: None, ..*old(s) }
            } else {
                *old(s)
            }
            &&& final(jobs)@ == if changed {
                without_finished_selected(old(jobs)@)
            } else {
                old(jobs)@
            }
            &&& match current_selected(final(jobs)@) {
                Some(j) => r.stop matches Some(st) && names_job(st, j),
                None => r.stop is None,
            }
            &&& r.publish == (changed || r.stop is Some)
        }),
{
    let changed = s.target.is_some();
    s.target = None;
    if changed {
        clear_weak_holds_for_new_position(s, jobs);
    }
    let stop = match current_selected_index(jobs) {
        Some(i) => Some(started_from(&jobs[i])),
        None => None,
    };
    let publish = changed || stop.is_some();
    FollowStep { publish, stop }
}

/// A document departure begins: continuous analysis is blocked, and the
/// analysis task is cancelled, its ended job dropped. Says whether the
/// snapshot is published (only when no departure was already under way).
pub fn begin_continuous_departure(
    s: &mut ContinuousState,
    task: &mut Option<AnalysisTaskDto>,
    jobs: &mut Vec<JobRecord>,
) -> (publish: bool)
    ensures
        publish == !old(s).departing,
        old(s).departing ==> *final(s) == *old(s) && *final(task) == *old(task) && final(jobs)@
            == old(jobs)@,
        !old(s).departing ==> *final(s) == (ContinuousState { departing: true, ..*old(s) })
            && match *old(task) {
            Some(t) => task_step(
                *old(task),
                *final(task),
                is_live(t.state),
                AnalysisTaskStateDto::Cancelled,
                Some(cancelled_message()),
            ) && final(jobs)@ == kept_jobs(old(jobs)@, JobSelectorView::EndedWithId(t.job_id@)),
            None => *final(task) == *old(task) && final(jobs)@ == old(jobs)@,
        },
{
    if s.departing {
        return false;
    }
    s.departing = true;
    let job_id = match task {
        Some(t) => Some(t.job_id.clone()),
        None => None,
    };
    if let Some(job_id) = job_id {
        cancel_analysis_task_locked(task, job_id.as_str());
        drop_jobs(jobs, &JobSelector::EndedWithId(job_id));
    }
    true
}

} // verus!
