//! The deadlines of a run's jobs: a cancellation the engine did not answer
//! in time fails the run; a job without activity for too long times out.
use vstd::prelude::*;
use crate::analysis_job::AnalysisJobStartedDto;
use crate::text::str_eq;
use super::{admitting_run, admitting_spec, EnginePhase};
use super::continuous::AnalysisJobStateDto;
use super::job_end::names_job;
use super::jobs::{cancel_deadline_at, started_from, stop_spec, JobDisposition, JobRecord, StopStep};

verus! {

broadcast use vstd::string::group_string_axioms;

/// What the deadline check of a run asks of the manager.
#[derive(Debug)]
pub enum DeadlineStep {
    /// The run does not admit work: nothing to check.
    NotAdmitting,
    /// A cancellation went unanswered past its deadline: the run fails as
    /// unresponsive, with this message.
    FailRun(String),
    /// These jobs saw no activity for the job timeout: each is stopped as
    /// timed out.
    StopJobs(Vec<AnalysisJobStartedDto>),
}

pub open spec fn unanswered_cancel_message() -> Seq<char> {
    "target cancellation timed out without a final response"@
}

/// A live job of run `run` whose cancellation deadline has passed at `now`.
pub open spec fn cancel_expired(job: JobRecord, run: Seq<char>, now: u64) -> bool {
    job.run_id@ == run && !job.terminal && (job.cancel_deadline_ms matches Some(d) && now >= d)
}

/// The later of two instants.
pub open spec fn later(a: u64, b: u64) -> u64 {
    if a >= b {
        a
    } else {
        b
    }
}

/// A live job of run `run`, not stopping, that saw no activity (its own
/// submission or the run's last output) for `timeout` at `now`.
pub open spec fn activity_expired(
    job: JobRecord,
    run: Seq<char>,
    now: u64,
    last_activity: u64,
    timeout: u64,
) -> bool {
    let since = later(last_activity, job.submitted_at_ms);
    &&& job.run_id@ == run && !job.terminal && job.state != AnalysisJobStateDto::Stopping
    &&& (if now >= since {
        now - since
    } else {
        0
    }) >= timeout
}

/// Checks the deadlines of run `run_id` at `now_ms`, given the time of the
/// run's last output and the job timeout.
pub fn check_job_deadlines(
    phase: &EnginePhase,
    jobs: &Vec<JobRecord>,
    run_id: &str,
    now_ms: u64,
    last_activity_ms: u64,
    job_timeout_ms: u64,
) -> (r: DeadlineStep)
    ensures
        !(admitting_spec(*phase) matches Some(run) && run.run_id@ == run_id@) ==> r
            is NotAdmitting,
        (admitting_spec(*phase) matches Some(run) && run.run_id@ == run_id@) ==> {
            let expired = jobs@.filter(
                |j: JobRecord| activity_expired(j, run_id@, now_ms, last_activity_ms, job_timeout_ms),
            );
            &&& (r is FailRun) == exists|i: int|
                0 <= i < jobs.len() && cancel_expired(#[trigger] jobs@[i], run_id@, now_ms)
            &&& r matches DeadlineStep::FailRun(m) ==> m@ == unanswered_cancel_message()
            &&& !(r is FailRun) ==> (r matches DeadlineStep::StopJobs(v) && v.len() == expired.len()
                && forall|k: int| 0 <= k < v.len() ==> names_job(#[trigger] v@[k], expired[k]))
        },
{
    if admitting_run(phase, run_id).is_none() {
        return DeadlineStep::NotAdmitting;
    }
    let mut i: usize = 0;
    while i < jobs.len()
        invariant
            i <= jobs.len(),
            admitting_spec(*phase) matches Some(run) && run.run_id@ == run_id@,
            forall|j: int| 0 <= j < i ==> !cancel_expired(#[trigger] jobs@[j], run_id@, now_ms),
        decreases jobs.len() - i,
    {
        let job = &jobs[i];
        let due = match job.cancel_deadline_ms {
            Some(d) => now_ms >= d,
            None => false,
        };
        if str_eq(job.run_id.as_str(), run_id) && !job.terminal && due {
            assert(cancel_expired(jobs@[i as int], run_id@, now_ms));
            return DeadlineStep::FailRun(
                String::from_str("target cancellation timed out without a final response"),
            );
        }
        i += 1;
    }
    let ghost pred = |j: JobRecord|
        activity_expired(j, run_id@, now_ms, last_activity_ms, job_timeout_ms);
    let mut stop: Vec<AnalysisJobStartedDto> = Vec::new();
    let mut k: usize = 0;
    while k < jobs.len()
        invariant
            k <= jobs.len(),
            forall|j: int| 0 <= j < jobs.len() ==> !cancel_expired(#[trigger] jobs@[j], run_id@, now_ms),
            pred == (|j: JobRecord|
                activity_expired(j, run_id@, now_ms, last_activity_ms, job_timeout_ms)),
            stop.len() == jobs@.take(k as int).filter(pred).len(),
            forall|q: int|
                0 <= q < stop.len() ==> names_job(
                    #[trigger] stop@[q],
                    jobs@.take(k as int).filter(pred)[q],
                ),
        decreases jobs.len() - k,
    {
        let job = &jobs[k];
        let since = if last_activity_ms >= job.submitted_at_ms {
            last_activity_ms
        } else {
            job.submitted_at_ms
        };
        let idle = now_ms.saturating_sub(since);
        let ghost f0 = jobs@.take(k as int).filter(pred);
        assert(jobs@.take(k + 1).drop_last() =~= jobs@.take(k as int));
        assert(jobs@.take(k + 1).last() == jobs@[k as int]);
        assert(jobs@.take(k + 1).filter(pred) == if pred(jobs@[k as int]) {
            f0.push(jobs@[k as int])
        } else {
            f0
        }) by {
            reveal(Seq::filter);
        }
        if str_eq(job.run_id.as_str(), run_id) && !job.terminal && job.state
            != AnalysisJobStateDto::Stopping && idle >= job_timeout_ms {
            stop.push(started_from(job));
        }
        k += 1;
    }
    assert(jobs@.take(jobs.len() as int) =~= jobs@);
    DeadlineStep::StopJobs(stop)
}

/// A stop that the engine never answers fails the run: a live job of run
/// `run` that a stop request at `now` set stopping has its cancellation
/// expired at any time from `CANCEL_ANSWER_MS` later on, which is what makes
/// the deadline check fail the run; and that time is never before the
/// request.
pub proof fn unanswered_stops_fail_the_run(
    job: JobRecord,
    disposition: JobDisposition,
    now: u64,
    later_time: u64,
    run: Seq<char>,
)
    requires
        stop_spec(job, disposition, now).1 == StopStep::BeginStopping,
        job.run_id@ == run && !job.terminal,
        later_time >= cancel_deadline_at(now),
    ensures
        cancel_expired(stop_spec(job, disposition, now).0, run, later_time),
        cancel_deadline_at(now) >= now,
{
}

} // verus!
