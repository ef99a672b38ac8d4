//! Failing a run that stopped answering: its analysis task and its live jobs
//! fail, and the engine enters its error phase.
use vstd::prelude::*;
use crate::analysis_job::{
    AnalysisJobEventDto, AnalysisJobLaneDto, AnalysisJobOutcomeDto, AnalysisJobStartedDto,
};
use crate::analysis_task::{AnalysisTaskDto, AnalysisTaskStateDto};
use crate::model::{
    opt_string_view, EngineFailureDto, EngineFailureKind, EngineOperationDto, EngineRunDto,
};
use crate::text::str_eq;
use super::{admitting_run, admitting_spec, failure, EnginePhase};
use super::continuous::ContinuousState;
use super::job_end::{
    cancel_jobs_for_run, run_cancelled, RunCancellation, cancels_task_job, distinct_ids, event_path, finish_failed_job, lemma_drop_id_keeps_others,
    lemma_filter_keeps_distinct, lemma_first_by_id_comes_first, lemma_first_job_found, live_jobs,
    live_of_run, names_job, owner, progress_counts, selected_end_spec, task_after_end,
    whole_end_spec, without_job, SelectedJobEnd,
};
use super::jobs::{
    first_job, kept_jobs, lemma_first_job_bounds, selects, started_from, JobRecord,
    JobSelectorView,
};
use super::lifecycle::EngineLifecycle;
use super::tasks::{fail_analysis_task_locked, is_live, task_step};

verus! {

broadcast use vstd::string::group_string_axioms;

/// The failure an unresponsive run reports: a job timeout of that run, with
/// `message`.
pub open spec fn timeout_failure(f: EngineFailureDto, run_id: Seq<char>, message: Seq<char>) -> bool {
    &&& f.operation == EngineOperationDto::Job && f.kind == EngineFailureKind::Timeout
    &&& f.message@ == message && opt_string_view(f.run_id) == Some(run_id)
    &&& f.switch_id is None && f.job_id is None && f.profile_id is None
    &&& f.diagnostic_summary is None
}

/// `g` is the failure `f` reported for job `job_id`.
pub open spec fn failure_of_job(g: EngineFailureDto, f: EngineFailureDto, job_id: Seq<char>) -> bool {
    g == (EngineFailureDto { job_id: g.job_id, ..f }) && opt_string_view(g.job_id) == Some(job_id)
}

/// `e` reports that `job` failed with the run's failure `f`: a whole-game
/// job at the node it stood at, with its progress; a selected-node job at its
/// own node.
pub open spec fn fail_event(e: AnalysisJobEventDto, job: JobRecord, f: EngineFailureDto) -> bool {
    let whole = job.lane == AnalysisJobLaneDto::WholeGame;
    &&& e.run_id@ == job.run_id@ && e.job_id@ == job.job_id@ && e.lane == job.lane
    &&& e.generation == job.generation && e.outcome == AnalysisJobOutcomeDto::Failed
    &&& e.node_path@ == if whole {
        event_path(job)
    } else {
        job.node_path@
    }
    &&& (e.completed, e.expected, e.remaining) == if whole {
        progress_counts(job)
    } else {
        (None, None, None)
    }
    &&& e.frame is None && (e.failure matches Some(g) && failure_of_job(g, f, job.job_id@))
}

/// Some job of `jobs` is in the selected-node lane.
pub open spec fn has_selected(jobs: Seq<JobRecord>) -> bool {
    exists|k: int| 0 <= k < jobs.len() && (#[trigger] jobs[k]).lane == AnalysisJobLaneDto::SelectedNode
}

/// The jobs once the task `t0` failed: a live task's ended jobs are dropped.
pub open spec fn jobs_after_task_failure(t0: Option<AnalysisTaskDto>, j0: Seq<JobRecord>) -> Seq<
    JobRecord,
> {
    match t0 {
        Some(t) => if is_live(t.state) {
            kept_jobs(j0, JobSelectorView::EndedWithId(t.job_id@))
        } else {
            j0
        },
        None => j0,
    }
}

/// The task `t0` failed with `message` when it was live (`live_task`), and
/// then moved, as the whole-game jobs of `ended` ended as failed, to `t1`.
pub open spec fn failed_then_ended(
    t0: Option<AnalysisTaskDto>,
    t1: Option<AnalysisTaskDto>,
    live_task: bool,
    ended: Seq<JobRecord>,
    message: Seq<char>,
) -> bool {
    exists|tm: Option<AnalysisTaskDto>|
        #[trigger] task_step(t0, tm, live_task, AnalysisTaskStateDto::Failed, Some(message))
            && task_after_end(tm, t1, ended, AnalysisJobOutcomeDto::Failed, Some(message))
}

/// `e` reports that `job` failed with the run's failure `f`, at the node
/// `path` and with the progress `counts`.
pub open spec fn fail_event_at(
    e: AnalysisJobEventDto,
    job: JobRecord,
    path: Seq<u32>,
    counts: (Option<usize>, Option<usize>, Option<usize>),
    f: EngineFailureDto,
) -> bool {
    &&& e.run_id@ == job.run_id@ && e.job_id@ == job.job_id@ && e.lane == job.lane
    &&& e.generation == job.generation && e.outcome == AnalysisJobOutcomeDto::Failed
    &&& e.node_path@ == path && (e.completed, e.expected, e.remaining) == counts
    &&& e.frame is None && (e.failure matches Some(g) && failure_of_job(g, f, job.job_id@))
}

/// One step of failing a run: the job `job` (as it was when the run began to
/// fail) ends as failed with `f` through its lane's end, from the continuous
/// state, task, jobs and events `s0`, `t0`, `j0`, `e0` to `s1`, `t1`, `j1`,
/// `e1`. When no registered job of the run carries its id any more, nothing
/// changes.
pub open spec fn fail_step(
    s0: ContinuousState,
    s1: ContinuousState,
    t0: Option<AnalysisTaskDto>,
    t1: Option<AnalysisTaskDto>,
    j0: Seq<JobRecord>,
    j1: Seq<JobRecord>,
    e0: Seq<AnalysisJobEventDto>,
    e1: Seq<AnalysisJobEventDto>,
    job: JobRecord,
    run: Seq<char>,
    f: EngineFailureDto,
) -> bool {
    let k = owner(j0, job.job_id@, run);
    if k >= j0.len() {
        s1 == s0 && t1 == t0 && j1 == j0 && e1 == e0
    } else if job.lane == AnalysisJobLaneDto::WholeGame {
        let m = first_job(j0, job.job_id@, None, 0);
        &&& s1 == s0
        &&& whole_end_spec(t0, t1, j0, j1, job.job_id@, AnalysisJobOutcomeDto::Failed, Some(f.message@))
        &&& e1.len() == e0.len() + 1 && e1.drop_last() == e0
        &&& fail_event_at(e1.last(), job, event_path(j0[k]), progress_counts(j0[m]), f)
    } else {
        &&& t1 == t0
        &&& selected_end_spec(
            s0,
            s1,
            j0,
            j1,
            k,
            job.job_id@,
            SelectedJobEnd::Outcome(AnalysisJobOutcomeDto::Failed),
        )
        &&& e1.len() == e0.len() + 1 && e1.drop_last() == e0
        &&& fail_event_at(e1.last(), job, job.node_path@, (None, None, None), f)
    }
}

/// Step `p` of the failure recorded in `ss`, `ts`, `js`, `es` ends the
/// `p`-th job of `live`.
pub open spec fn fail_step_at(
    ss: Seq<ContinuousState>,
    ts: Seq<Option<AnalysisTaskDto>>,
    js: Seq<Seq<JobRecord>>,
    es: Seq<Seq<AnalysisJobEventDto>>,
    live: Seq<JobRecord>,
    run: Seq<char>,
    f: EngineFailureDto,
    p: int,
) -> bool {
    fail_step(ss[p], ss[p + 1], ts[p], ts[p + 1], js[p], js[p + 1], es[p], es[p + 1], live[p], run, f)
}

/// `ss`, `ts`, `js`, `es` record the states of failing the live jobs of run
/// `run` among `j0` with `f`: from `j0` and no events, each live job ends in
/// turn.
pub open spec fn fail_chain(
    ss: Seq<ContinuousState>,
    ts: Seq<Option<AnalysisTaskDto>>,
    js: Seq<Seq<JobRecord>>,
    es: Seq<Seq<AnalysisJobEventDto>>,
    j0: Seq<JobRecord>,
    run: Seq<char>,
    f: EngineFailureDto,
) -> bool {
    let live = live_jobs(j0, run);
    &&& ss.len() == live.len() + 1 && ts.len() == live.len() + 1
    &&& js.len() == live.len() + 1 && es.len() == live.len() + 1
    &&& js[0] == j0 && es[0] == Seq::<AnalysisJobEventDto>::empty()
    &&& forall|p: int| 0 <= p < live.len() ==> #[trigger] fail_step_at(ss, ts, js, es, live, run, f, p)
}

/// Failing run `run` with `f` took the continuous state, task and jobs from
/// `s0`, `t0`, `j0` to `s1`, `t1`, `j1` and published `events`: the task
/// failed with `message` when it was live (dropping its ended jobs), then the
/// live jobs of the run ended as failed one after another, in order.
pub open spec fn fails_in_order(
    s0: ContinuousState,
    s1: ContinuousState,
    t0: Option<AnalysisTaskDto>,
    t1: Option<AnalysisTaskDto>,
    j0: Seq<JobRecord>,
    j1: Seq<JobRecord>,
    run: Seq<char>,
    events: Seq<AnalysisJobEventDto>,
    f: EngineFailureDto,
    message: Seq<char>,
) -> bool {
    let applies = t0 matches Some(t) && is_live(t.state);
    let jm = jobs_after_task_failure(t0, j0);
    exists|
        ss: Seq<ContinuousState>,
        ts: Seq<Option<AnalysisTaskDto>>,
        js: Seq<Seq<JobRecord>>,
        es: Seq<Seq<AnalysisJobEventDto>>,
    |
        #![trigger fail_chain(ss, ts, js, es, jm, run, f)]
        {
            &&& fail_chain(ss, ts, js, es, jm, run, f)
            &&& ss[0] == s0 && task_step(t0, ts[0], applies, AnalysisTaskStateDto::Failed, Some(message))
            &&& ss.last() == s1 && ts.last() == t1 && js.last() == j1 && es.last() == events
        }
}

/// What failing an unresponsive run asks of the manager.
#[derive(Debug)]
pub enum UnresponsiveStep {
    /// The engine is already in error; that failure stands.
    AlreadyFailed(EngineFailureDto),
    /// No run of that id admits work; the failure is reported as it is.
    NotAdmitting(EngineFailureDto),
    /// The run's task and live jobs failed: the manager publishes `events`,
    /// terminates the run's processes, and records the run's error with
    /// `record_unresponsive_error`.
    Failing { run: EngineRunDto, failure: EngineFailureDto, events: Vec<AnalysisJobEventDto> },
}

pub(crate) proof fn lemma_filter_all(s: Seq<JobRecord>, pred: spec_fn(JobRecord) -> bool)
    requires
        forall|i: int| 0 <= i < s.len() ==> pred(#[trigger] s[i]),
    ensures
        s.filter(pred) == s,
    decreases s.len(),
{
    reveal(Seq::filter);
    if s.len() > 0 {
        let d = s.drop_last();
        assert forall|i: int| 0 <= i < d.len() implies pred(#[trigger] d[i]) by {
            assert(d[i] == s[i]);
        }
        lemma_filter_all(d, pred);
        assert(pred(s[s.len() - 1]));
        assert(d.push(s.last()) =~= s);
    }
}

proof fn lemma_fail_step(j0: Seq<JobRecord>, live: Seq<JobRecord>, run: Seq<char>, p: int)
    requires
        distinct_ids(live),
        0 <= p < live.len(),
        forall|q: int| 0 <= q < live.len() ==> live_of_run(#[trigger] live[q], run),
        forall|q: int| p <= q < live.len() ==> j0.contains(#[trigger] live[q]),
        forall|q: int, w: int|
            p <= q < live.len() && 0 <= w < j0.len() && (#[trigger] j0[w]).job_id@ == (
            #[trigger] live[q]).job_id@ ==> j0[w] == live[q],
    ensures
        ({
            let j1 = without_job(j0, live[p].job_id@);
            &&& kept_jobs(j1, JobSelectorView::LiveOfRun(run)) == kept_jobs(
                j0,
                JobSelectorView::LiveOfRun(run),
            )
            &&& forall|q: int| p + 1 <= q < live.len() ==> j1.contains(#[trigger] live[q])
            &&& forall|q: int, w: int|
                p + 1 <= q < live.len() && 0 <= w < j1.len() && (#[trigger] j1[w]).job_id@ == (
                #[trigger] live[q]).job_id@ ==> j1[w] == live[q]
            &&& forall|w: int| 0 <= w < j1.len() ==> j0.contains(#[trigger] j1[w])
            &&& forall|w: int| 0 <= w < j1.len() ==> (#[trigger] j1[w]).job_id@ != live[p].job_id@
        }),
{
    let id = live[p].job_id@;
    let pred = |j: JobRecord| !selects(JobSelectorView::WithId(id), j);
    let j1 = without_job(j0, id);
    assert forall|i: int| 0 <= i < j0.len() && (#[trigger] j0[i]).job_id@ == id implies selects(
        JobSelectorView::LiveOfRun(run),
        j0[i],
    ) by {
        assert(j0[i] == live[p]);
    }
    lemma_drop_id_keeps_others(j0, id, JobSelectorView::LiveOfRun(run));
    assert forall|q: int| p + 1 <= q < live.len() implies j1.contains(#[trigger] live[q]) by {
        let w = choose|w: int| 0 <= w < j0.len() && j0[w] == live[q];
        assert(live[q].job_id@ != live[p].job_id@);
        j0.lemma_filter_contains(pred, w);
    }
    assert forall|w: int| 0 <= w < j1.len() implies j0.contains(#[trigger] j1[w]) && j1[w].job_id@
        != id by {
        assert(j1.contains(j1[w]));
        j0.lemma_filter_contains_rev(pred, j1[w]);
        j0.lemma_filter_pred(pred, w);
    }
    assert forall|q: int, w: int|
        p + 1 <= q < live.len() && 0 <= w < j1.len() && (#[trigger] j1[w]).job_id@ == (
        #[trigger] live[q]).job_id@ implies j1[w] == live[q] by {
        assert(j0.contains(j1[w]));
        let v = choose|v: int| 0 <= v < j0.len() && j0[v] == j1[w];
        assert(j0[v].job_id@ == live[q].job_id@);
    }
}

/// Fails run `run_id` for not answering. Already in error, the engine keeps
/// its failure; when no run of that id admits work, the timeout failure is
/// only reported. Otherwise the operation is superseded, the analysis task
/// fails, and every live job of the run ends as failed, in order, through
/// its lane's end; when no two jobs share an id, the outcome is also given
/// in closed form.
pub fn fail_unresponsive_run(
    life: &mut EngineLifecycle,
    s: &mut ContinuousState,
    task: &mut Option<AnalysisTaskDto>,
    jobs: &mut Vec<JobRecord>,
    run_id: &str,
    message: &str,
) -> (r: UnresponsiveStep)
    requires
        old(life).operation < u64::MAX,
    ensures
        old(life).phase is Error ==> (r matches UnresponsiveStep::AlreadyFailed(f) && (old(
            life,
        ).phase matches EnginePhase::Error { failure: g, .. } && f == g)) && *final(life) == *old(life) && *final(s) == *old(s) && *final(task)
            == *old(task) && final(jobs)@ == old(jobs)@,
        !(old(life).phase is Error) && !(admitting_spec(old(life).phase) matches Some(run)
            && run.run_id@ == run_id@) ==> (r matches UnresponsiveStep::NotAdmitting(f)
            && timeout_failure(f, run_id@, message@)) && *final(life) == *old(life) && *final(s)
            == *old(s) && *final(task) == *old(task) && final(jobs)@ == old(jobs)@,
        !(old(life).phase is Error) && (admitting_spec(old(life).phase) matches Some(run)
            && run.run_id@ == run_id@) ==> ({
            let t0 = *old(task);
            let applies = t0 matches Some(t) && is_live(t.state);
            let j1 = jobs_after_task_failure(t0, old(jobs)@);
            let live = live_jobs(j1, run_id@);
            &&& *final(life) == (EngineLifecycle {
                operation: (old(life).operation + 1) as u64,
                ..*old(life)
            })
            &&& r matches UnresponsiveStep::Failing { run: rn, failure: f, events: ev } && Some(rn)
                == admitting_spec(old(life).phase) && timeout_failure(f, run_id@, message@)
                && fails_in_order(
                *old(s),
                *final(s),
                t0,
                *final(task),
                old(jobs)@,
                final(jobs)@,
                run_id@,
                ev@,
                f,
                message@,
            ) && (
            distinct_ids(old(jobs)@) ==> {
                &&& final(jobs)@ == kept_jobs(j1, JobSelectorView::LiveOfRun(run_id@))
                &&& ev.len() == live.len()
                &&& forall|k: int| 0 <= k < live.len() ==> fail_event(#[trigger] ev@[k], live[k], f)
                &&& *final(s) == if has_selected(live) {
                    ContinuousState { error: true, ..*old(s) }
                } else {
                    *old(s)
                }
                &&& failed_then_ended(t0, *final(task), applies, live, message@)
            })
        }),
{
    if let EnginePhase::Error { failure: existing, .. } = &life.phase {
        return UnresponsiveStep::AlreadyFailed(existing.clone());
    }
    let published = failure(
        EngineOperationDto::Job,
        EngineFailureKind::Timeout,
        String::from_str(message),
        Some(run_id),
        None,
        None,
    );
    let run = match admitting_run(&life.phase, run_id) {
        Some(run) => run,
        None => {
            return UnresponsiveStep::NotAdmitting(published);
        },
    };
    let ghost j0 = jobs@;
    let ghost s0 = *s;
    fail_analysis_task_locked(task, jobs, None, message);
    let ghost tm = *task;
    life.operation = life.operation + 1;
    let ghost j1 = jobs@;
    let ghost rn = run_id@;
    let mut ended: Vec<AnalysisJobStartedDto> = Vec::new();
    let mut i: usize = 0;
    while i < jobs.len()
        invariant
            i <= jobs.len(),
            jobs@ == j1,
            rn == run_id@,
            ended.len() == live_jobs(j1.take(i as int), rn).len(),
            forall|q: int|
                0 <= q < ended.len() ==> names_job(
                    #[trigger] ended@[q],
                    live_jobs(j1.take(i as int), rn)[q],
                ),
        decreases jobs.len() - i,
    {
        let ghost l0 = live_jobs(j1.take(i as int), rn);
        assert(j1.take(i + 1).drop_last() =~= j1.take(i as int));
        assert(j1.take(i + 1).last() == j1[i as int]);
        assert(live_jobs(j1.take(i + 1), rn) == if live_of_run(j1[i as int], rn) {
            l0.push(j1[i as int])
        } else {
            l0
        }) by {
            reveal(Seq::filter);
        }
        if str_eq(jobs[i].run_id.as_str(), run_id) && !jobs[i].terminal {
            ended.push(started_from(&jobs[i]));
        }
        i += 1;
    }
    assert(j1.take(j1.len() as int) =~= j1);
    let ghost live = live_jobs(j1, rn);
    let ghost dis = distinct_ids(j0);
    proof {
        if dis {
            let t0 = *old(task);
            if let Some(t) = t0 {
                if is_live(t.state) {
                    lemma_filter_keeps_distinct(
                        j0,
                        |j: JobRecord| !selects(JobSelectorView::EndedWithId(t.job_id@), j),
                    );
                }
            }
            lemma_filter_keeps_distinct(j1, |j: JobRecord| live_of_run(j, rn));
        }
        assert forall|q: int| 0 <= q < live.len() implies live_of_run(#[trigger] live[q], rn)
            && j1.contains(live[q]) by {
            j1.lemma_filter_pred(|j: JobRecord| live_of_run(j, rn), q);
            assert(live.contains(live[q]));
            j1.lemma_filter_contains_rev(|j: JobRecord| live_of_run(j, rn), live[q]);
        }
        if dis {
            assert forall|q: int, w: int|
                0 <= q < live.len() && 0 <= w < j1.len() && (#[trigger] j1[w]).job_id@ == (
                #[trigger] live[q]).job_id@ implies j1[w] == live[q] by {
                let v = choose|v: int| 0 <= v < j1.len() && j1[v] == live[q];
                if w != v {
                    assert(j1[w].job_id@ != j1[v].job_id@);
                }
            }
        }
        assert forall|w: int| 0 <= w < j1.len() implies j1.contains(#[trigger] j1[w]) by {}
        assert(live.take(0) =~= Seq::<JobRecord>::empty());
        assert(!has_selected(live.take(0)));
        assert(!cancels_task_job(live.take(0), tm));
    }
    let mut events: Vec<AnalysisJobEventDto> = Vec::new();
    let ghost mut ss: Seq<ContinuousState> = seq![*s];
    let ghost mut ts: Seq<Option<AnalysisTaskDto>> = seq![*task];
    let ghost mut js: Seq<Seq<JobRecord>> = seq![jobs@];
    let ghost mut es: Seq<Seq<AnalysisJobEventDto>> = seq![events@];
    let mut p: usize = 0;
    while p < ended.len()
        invariant
            p <= ended.len(),
            ss.len() == p + 1 && ts.len() == p + 1 && js.len() == p + 1 && es.len() == p + 1,
            ss[0] == s0 && ts[0] == tm && js[0] == j1,
            es[0] == Seq::<AnalysisJobEventDto>::empty(),
            ss.last() == *s && ts.last() == *task && js.last() == jobs@ && es.last() == events@,
            forall|q: int|
                0 <= q < p ==> #[trigger] fail_step_at(ss, ts, js, es, live, rn, published, q),
            rn == run_id@,
            live == live_jobs(j1, rn),
            ended.len() == live.len(),
            dis == distinct_ids(j0),
            dis ==> distinct_ids(j1) && distinct_ids(live),
            forall|q: int| 0 <= q < ended.len() ==> names_job(#[trigger] ended@[q], live[q]),
            forall|q: int| 0 <= q < live.len() ==> live_of_run(#[trigger] live[q], rn),
            timeout_failure(published, rn, message@),
            dis ==> kept_jobs(jobs@, JobSelectorView::LiveOfRun(rn)) == kept_jobs(
                j1,
                JobSelectorView::LiveOfRun(rn),
            ),
            dis ==> forall|q: int| p <= q < live.len() ==> jobs@.contains(#[trigger] live[q]),
            dis ==> forall|q: int, w: int|
                p <= q < live.len() && 0 <= w < jobs.len() && (#[trigger] jobs@[w]).job_id@ == (
                #[trigger] live[q]).job_id@ ==> jobs@[w] == live[q],
            dis ==> forall|q: int, w: int|
                0 <= q < p && 0 <= w < jobs.len() ==> (#[trigger] jobs@[w]).job_id@ != (
                #[trigger] live[q]).job_id@,
            dis ==> forall|w: int| 0 <= w < jobs.len() ==> j1.contains(#[trigger] jobs@[w]),
            dis ==> events.len() == p,
            dis ==> forall|k: int| 0 <= k < p ==> fail_event(#[trigger] events@[k], live[k], published),
            dis ==> *s == if has_selected(live.take(p as int)) {
                ContinuousState { error: true, ..s0 }
            } else {
                s0
            },
            dis ==> task_after_end(
                tm,
                *task,
                live.take(p as int),
                AnalysisJobOutcomeDto::Failed,
                Some(message@),
            ),
            dis ==> !(*task matches Some(t) && t.state == AnalysisTaskStateDto::Paused),
        decreases ended.len() - p,
    {
        let ghost jp = jobs@;
        let ghost sp = *s;
        let ghost tp = *task;
        let ghost ep = events@;
        let ghost job = live[p as int];
        proof {
            if dis {
                let w = choose|w: int| 0 <= w < jp.len() && jp[w] == job;
                lemma_first_job_found(jp, job.job_id@, Some(rn), 0, w);
                lemma_first_job_bounds(jp, job.job_id@, Some(rn), 0);
                lemma_first_by_id_comes_first(jp, job.job_id@, rn, 0);
                lemma_fail_step(jp, live, rn, p as int);
            }
            assert(live.take(p + 1).drop_last() =~= live.take(p as int));
            assert(live.take(p + 1)[p as int] == job);
        }
        let started = &ended[p];
        let job_failure = EngineFailureDto {
            job_id: Some(started.job_id.clone()),
            ..published.clone()
        };
        let event = finish_failed_job(s, task, jobs, started, job_failure);
        if let Some(e) = event {
            events.push(e);
        }
        proof {
            assert(names_job(ended@[p as int], job));
            assert(live_of_run(job, rn));
            if events@.len() > ep.len() {
                assert(events@.drop_last() =~= ep);
            }
            assert(fail_step(sp, *s, tp, *task, jp, jobs@, ep, events@, job, rn, published));
            let ss1 = ss.push(*s);
            let ts1 = ts.push(*task);
            let js1 = js.push(jobs@);
            let es1 = es.push(events@);
            assert forall|q: int| 0 <= q < p + 1 implies #[trigger] fail_step_at(
                ss1,
                ts1,
                js1,
                es1,
                live,
                rn,
                published,
                q,
            ) by {
                if q < p {
                    assert(fail_step_at(ss, ts, js, es, live, rn, published, q));
                }
            }
            ss = ss1;
            ts = ts1;
            js = js1;
            es = es1;
            if dis {
                assert(has_selected(live.take(p + 1)) == (has_selected(live.take(p as int))
                    || job.lane == AnalysisJobLaneDto::SelectedNode)) by {
                    if has_selected(live.take(p + 1)) {
                        let c = choose|c: int|
                            0 <= c < live.take(p + 1).len() && (#[trigger] live.take(p + 1)[c]).lane
                                == AnalysisJobLaneDto::SelectedNode;
                        if c < p {
                            assert(live.take(p as int)[c] == live.take(p + 1)[c]);
                        }
                    }
                    if has_selected(live.take(p as int)) {
                        let c = choose|c: int|
                            0 <= c < live.take(p as int).len() && (#[trigger] live.take(
                                p as int,
                            )[c]).lane == AnalysisJobLaneDto::SelectedNode;
                        assert(live.take(p + 1)[c] == live.take(p as int)[c]);
                    }
                }
                assert(cancels_task_job(live.take(p + 1), tm) == (cancels_task_job(
                    live.take(p as int),
                    tm,
                ) || (job.lane == AnalysisJobLaneDto::WholeGame && (tm matches Some(t)
                    && job.job_id@ == t.job_id@)))) by {
                    if cancels_task_job(live.take(p + 1), tm) {
                        let c = choose|c: int|
                            0 <= c < live.take(p + 1).len() && (#[trigger] live.take(p + 1)[c]).lane
                                == AnalysisJobLaneDto::WholeGame && (tm matches Some(t)
                                && live.take(p + 1)[c].job_id@ == t.job_id@);
                        if c < p {
                            assert(live.take(p as int)[c] == live.take(p + 1)[c]);
                        }
                    }
                    if cancels_task_job(live.take(p as int), tm) {
                        let c = choose|c: int|
                            0 <= c < live.take(p as int).len() && (#[trigger] live.take(
                                p as int,
                            )[c]).lane == AnalysisJobLaneDto::WholeGame && (tm matches Some(t)
                                && live.take(p as int)[c].job_id@ == t.job_id@);
                        assert(live.take(p + 1)[c] == live.take(p as int)[c]);
                    }
                }
                if cancels_task_job(live.take(p as int), tm) {
                    let c = choose|c: int|
                        0 <= c < live.take(p as int).len() && (#[trigger] live.take(p as int)[c]).lane
                            == AnalysisJobLaneDto::WholeGame && (tm matches Some(t) && live.take(
                            p as int,
                        )[c].job_id@ == t.job_id@);
                    assert(live.take(p as int)[c] == live[c]);
                    assert(live[c].job_id@ != live[p as int].job_id@);
                }
            }
        }
        p += 1;
    }
    proof {
        let t0 = *old(task);
        let applies = t0 matches Some(t) && is_live(t.state);
        assert(j1 == jobs_after_task_failure(t0, j0));
        assert(fail_chain(ss, ts, js, es, j1, rn, published));
        assert(task_step(t0, tm, applies, AnalysisTaskStateDto::Failed, Some(message@)));
        if dis {
            assert(live.take(live.len() as int) =~= live);
            assert forall|w: int| 0 <= w < jobs.len() implies !selects(
                JobSelectorView::LiveOfRun(rn),
                #[trigger] jobs@[w],
            ) by {
                if selects(JobSelectorView::LiveOfRun(rn), jobs@[w]) {
                    let v = choose|v: int| 0 <= v < j1.len() && j1[v] == jobs@[w];
                    j1.lemma_filter_contains(|j: JobRecord| live_of_run(j, rn), v);
                    let q = choose|q: int| 0 <= q < live.len() && live[q] == jobs@[w];
                    assert(jobs@[w].job_id@ != live[q].job_id@);
                }
            }
            lemma_filter_all(jobs@, |j: JobRecord| !selects(JobSelectorView::LiveOfRun(rn), j));
            let t0 = *old(task);
            let applies = t0 matches Some(t) && is_live(t.state);
            assert(task_step(t0, tm, applies, AnalysisTaskStateDto::Failed, Some(message@)));
            assert(task_after_end(
                tm,
                *task,
                live,
                AnalysisJobOutcomeDto::Failed,
                Some(message@),
            ));
            assert(failed_then_ended(t0, *task, applies, live, message@));
            assert(j1 == jobs_after_task_failure(t0, j0));
            assert(jobs@ == kept_jobs(j1, JobSelectorView::LiveOfRun(run_id@)));
            assert(events.len() == live.len());
            assert(forall|k: int| 0 <= k < live.len() ==> fail_event(#[trigger] events@[k], live[k], published));
            assert(*s == if has_selected(live) {
                ContinuousState { error: true, ..s0 }
            } else {
                s0
            });
        }
    }
    UnresponsiveStep::Failing { run, failure: published, events }
}

/// The text appended to a failure for the processes that could not be
/// cleaned up.
pub open spec fn cleanup_text(errors: Seq<Seq<char>>) -> Seq<char>
    decreases errors.len(),
{
    if errors.len() == 0 {
        Seq::empty()
    } else {
        cleanup_text(errors.drop_last()) + "; process cleanup failed: "@ + errors.last()
    }
}

pub open spec fn error_views(v: Seq<String>) -> Seq<Seq<char>> {
    v.map_values(|e: String| e@)
}

/// Records the error of an unresponsive run once its processes were
/// terminated: the failure, with each cleanup error appended, becomes the
/// engine's error, and comes back for publication.
pub fn record_unresponsive_error(
    life: &mut EngineLifecycle,
    run: EngineRunDto,
    failure: EngineFailureDto,
    cleanup_errors: &Vec<String>,
) -> (r: EngineFailureDto)
    ensures
        r == (EngineFailureDto { message: r.message, ..failure }),
        r.message@ == failure.message@ + cleanup_text(error_views(cleanup_errors@)),
        *final(life) == (EngineLifecycle {
            phase: EnginePhase::Error { run, failure: r },
            ..*old(life)
        }),
{
    let mut published = failure;
    let mut i: usize = 0;
    while i < cleanup_errors.len()
        invariant
            i <= cleanup_errors.len(),
            published == (EngineFailureDto { message: published.message, ..failure }),
            published.message@ == failure.message@ + cleanup_text(
                error_views(cleanup_errors@.take(i as int)),
            ),
        decreases cleanup_errors.len() - i,
    {
        let ghost before = published.message@;
        published.message.append("; process cleanup failed: ");
        published.message.append(cleanup_errors[i].as_str());
        proof {
            reveal_strlit("; process cleanup failed: ");
            let e = error_views(cleanup_errors@.take(i + 1));
            assert(e.drop_last() =~= error_views(cleanup_errors@.take(i as int)));
            assert(e.last() == cleanup_errors@[i as int]@);
            assert(published.message@ =~= failure.message@ + cleanup_text(e));
        }
        i += 1;
    }
    assert(cleanup_errors@.take(cleanup_errors.len() as int) =~= cleanup_errors@);
    life.phase = EnginePhase::Error { run, failure: published.clone() };
    published
}

pub open spec fn exited_message() -> Seq<char> {
    "The Foreground Engine Run exited unexpectedly."@
}

/// The task `t0` failed as exited when it was live (`live_task`), and the
/// jobs of run `run` were then cancelled, from `s0`, `j0` to `s1`, `t1`,
/// `j1`, with `r` handed to the manager.
pub open spec fn exited_run_cleaned(
    s0: ContinuousState,
    s1: ContinuousState,
    t0: Option<AnalysisTaskDto>,
    t1: Option<AnalysisTaskDto>,
    live_task: bool,
    j0: Seq<JobRecord>,
    j1: Seq<JobRecord>,
    run: Seq<char>,
    r: RunCancellation,
) -> bool {
    exists|tm: Option<AnalysisTaskDto>|
        #[trigger] task_step(t0, tm, live_task, AnalysisTaskStateDto::Failed, Some(exited_message()))
            && run_cancelled(s0, s1, tm, t1, jobs_after_task_failure(t0, j0), j1, run, r)
}

/// The work of a run whose engine exited: the analysis task fails as
/// exited, and every live job of the run is cancelled, as
/// `cancel_jobs_for_run` does.
pub fn fail_work_of_exited_run(
    s: &mut ContinuousState,
    task: &mut Option<AnalysisTaskDto>,
    jobs: &mut Vec<JobRecord>,
    run_id: &str,
) -> (r: RunCancellation)
    ensures
        exited_run_cleaned(
            *old(s),
            *final(s),
            *old(task),
            *final(task),
            *old(task) matches Some(t) && is_live(t.state),
            old(jobs)@,
            final(jobs)@,
            run_id@,
            r,
        ),
{
    fail_analysis_task_locked(task, jobs, None, "The Foreground Engine Run exited unexpectedly.");
    proof {
        reveal_strlit("The Foreground Engine Run exited unexpectedly.");
    }
    let ghost tm = *task;
    let r = cancel_jobs_for_run(s, task, jobs, run_id);
    assert(task_step(
        *old(task),
        tm,
        *old(task) matches Some(t) && is_live(t.state),
        AnalysisTaskStateDto::Failed,
        Some(exited_message()),
    ));
    r
}

} // verus!
