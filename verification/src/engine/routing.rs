//! What the manager does with a response line of a live job, the messages
//! of the failures it reports, and how a whole-game job moves through its
//! positions.
use vstd::prelude::*;
use crate::analysis_job::{
    AnalysisJobEventDto, AnalysisJobLaneDto, AnalysisJobOutcomeDto, AnalysisJobStartedDto,
};
use crate::analysis_task::{
    AnalysisTaskDto, AnalysisTaskStageDto, AnalysisTaskStateDto, AnalysisTaskStrategyDto,
};
use crate::catalog::string_views;
use crate::model::{
    opt_string_view, AnalysisFrameDto, EngineFailureDto, EngineFailureKind, EngineOperationDto,
    NodePath,
};
use crate::preferences::ContinuousAnalysisBudgetDto;
use crate::text::str_eq;
use super::continuous::{AnalysisJobModeDto, AnalysisJobStateDto, ContinuousState};
use super::jobs::{
    cancel_deadline, cancel_deadline_at, first_job, started_from, JobDisposition, JobRecord,
};
use super::job_end::{
    event_path, failed_job_spec, finish_failed_job, finish_whole_game_job, lemma_first_job_found,
    names_job, owner, whole_end_spec,
};
use super::tasks::{
    mark_analysis_task_searching, record_analysis_task_completion, record_step, task_step,
};
use super::failure;
use super::response_id::{find_chars, find_from};

verus! {

broadcast use vstd::string::group_string_axioms;

/// Whether `needle` occurs in `hay`.
pub open spec fn contains_seq(hay: Seq<char>, needle: Seq<char>) -> bool {
    find_from(hay, needle, 0) is Some
}

pub(crate) fn contains_text(hay: &str, needle: &str) -> (r: bool)
    ensures
        r == contains_seq(hay@, needle@),
{
    let h = crate::text::chars_of(hay);
    let n = crate::text::chars_of(needle);
    find_chars(&h, &n, 0).is_some()
}

/// The query settings that a warning must not say were ignored.
pub open spec fn required_settings() -> Seq<Seq<char>> {
    seq![
        "reportDuringSearchEvery"@,
        "overrideSettings"@,
        "maxTime"@,
        "maxVisits"@,
        "maxPlayouts"@,
    ]
}

/// A warning that names a required setting, in its text or in its field.
pub open spec fn mentions_required_setting(warning: Seq<char>, field: Option<Seq<char>>) -> bool {
    exists|k: int|
        0 <= k < 5 && ((field matches Some(f) && contains_seq(f, #[trigger] required_settings()[k]))
            || contains_seq(warning, required_settings()[k]))
}

fn names_setting(warning: &str, field: &Option<String>, name: &str) -> (r: bool)
    ensures
        r == ((opt_string_view(*field) matches Some(f) && contains_seq(f, name@)) || contains_seq(
            warning@,
            name@,
        )),
{
    let in_field = match field {
        Some(f) => contains_text(f.as_str(), name),
        None => false,
    };
    in_field || contains_text(warning, name)
}

/// Whether a KataGo warning says that a required query setting was ignored.
pub fn warns_of_required_setting(warning: &str, field: &Option<String>) -> (r: bool)
    ensures
        r == mentions_required_setting(warning@, opt_string_view(*field)),
{
    let a = names_setting(warning, field, "reportDuringSearchEvery");
    let b = names_setting(warning, field, "overrideSettings");
    let c = names_setting(warning, field, "maxTime");
    let d = names_setting(warning, field, "maxVisits");
    let e = names_setting(warning, field, "maxPlayouts");
    let ghost names = required_settings();
    assert(names[0] == "reportDuringSearchEvery"@ && names[1] == "overrideSettings"@ && names[2]
        == "maxTime"@ && names[3] == "maxVisits"@ && names[4] == "maxPlayouts"@);
    let r = a || b || c || d || e;
    proof {
        let fv = opt_string_view(*field);
        if r {
            if a {
                assert(0 <= 0int < 5 && ((fv matches Some(f) && contains_seq(f, names[0]))
                    || contains_seq(warning@, names[0])));
            } else if b {
                assert(0 <= 1int < 5 && ((fv matches Some(f) && contains_seq(f, names[1]))
                    || contains_seq(warning@, names[1])));
            } else if c {
                assert(0 <= 2int < 5 && ((fv matches Some(f) && contains_seq(f, names[2]))
                    || contains_seq(warning@, names[2])));
            } else if d {
                assert(0 <= 3int < 5 && ((fv matches Some(f) && contains_seq(f, names[3]))
                    || contains_seq(warning@, names[3])));
            } else {
                assert(0 <= 4int < 5 && ((fv matches Some(f) && contains_seq(f, names[4]))
                    || contains_seq(warning@, names[4])));
            }
        }
    }
    r
}

/// What a response line of a live job says, as routing reads it.
#[derive(Debug, Clone)]
pub struct ResponseSummary {
    /// The line parsed as a response without an error field.
    pub parsed: bool,
    /// The line answers a control action.
    pub action: bool,
    pub during_search: Option<bool>,
    pub warning: Option<String>,
    pub field: Option<String>,
    /// Root visits, 0 without root information.
    pub visits: u32,
    pub no_results: bool,
    pub has_moves: bool,
    /// The values and vertices of the result are valid for the job's board.
    pub valid_result: bool,
}

/// What routing reads of the job a response belongs to.
#[derive(Debug, Clone, Copy)]
pub struct RoutedJob {
    pub lane: AnalysisJobLaneDto,
    pub mode: AnalysisJobModeDto,
    pub state: AnalysisJobStateDto,
    pub disposition: JobDisposition,
    pub budget: Option<ContinuousAnalysisBudgetDto>,
}

/// Why a response makes the whole run unresponsive.
#[derive(Debug, Clone, Copy, PartialEq, Eq, Structural)]
pub enum RunFailure {
    IgnoredSetting,
    NoValidTargetFinal,
    MissingProgressMarker,
    InvalidValues,
}

/// Why a response fails its job.
#[derive(Debug, Clone, Copy, PartialEq, Eq, Structural)]
pub enum JobFailure {
    NoValidAnalysis,
    EndedBeforeLimit,
    /// A whole-game final without valid analysis or a reached condition.
    NoWholeGameCondition,
}

/// How a finished selected-node search ends.
#[derive(Debug, Clone, Copy, PartialEq, Eq, Structural)]
pub enum SelectedFinal {
    Completed,
    VisitsLimited,
    TimeLimited,
}

/// What the manager does with a response line of a live job.
#[derive(Debug, Clone, Copy, PartialEq, Eq, Structural)]
pub enum LineStep {
    Ignore,
    /// An unparseable line fails the run.
    UnparseableFailsRun,
    /// An unparseable line fails the job.
    UnparseableFailsJob,
    FailRun(RunFailure),
    FailJob(JobFailure),
    /// The final of a stopping job ends it with this outcome.
    FinishStopped(AnalysisJobOutcomeDto),
    /// The whole-game lane takes the line.
    RouteWholeGame,
    /// Search progress: a frame when the line has data, an event for
    /// continuous jobs.
    Progress { has_data: bool, publish_event: bool },
    /// The search ended.
    Finish { outcome: SelectedFinal, has_data: bool },
}

pub open spec fn stopped_outcome(d: JobDisposition) -> AnalysisJobOutcomeDto {
    match d {
        JobDisposition::Superseded => AnalysisJobOutcomeDto::Superseded,
        JobDisposition::TimedOut => AnalysisJobOutcomeDto::Timeout,
        _ => AnalysisJobOutcomeDto::Cancelled,
    }
}

/// The routing of a response line, in the order the checks are made: an
/// unparseable line, a control answer, a stopping job, a warning, the
/// whole-game lane, and then the selected-node search.
pub open spec fn route_spec(job: RoutedJob, s: ResponseSummary) -> LineStep {
    let stopping = job.state == AnalysisJobStateDto::Stopping && job.disposition
        != JobDisposition::BudgetReached;
    let continuous = job.mode == AnalysisJobModeDto::Continuous;
    if !s.parsed {
        if stopping {
            LineStep::Ignore
        } else if continuous || job.disposition == JobDisposition::BudgetReached {
            LineStep::UnparseableFailsRun
        } else {
            LineStep::UnparseableFailsJob
        }
    } else if s.action {
        LineStep::Ignore
    } else if stopping {
        if s.during_search == Some(false) {
            LineStep::FinishStopped(stopped_outcome(job.disposition))
        } else {
            LineStep::Ignore
        }
    } else if s.warning is Some {
        if mentions_required_setting(s.warning->0@, opt_string_view(s.field)) && (job.lane
            == AnalysisJobLaneDto::WholeGame || continuous) {
            LineStep::FailRun(RunFailure::IgnoredSetting)
        } else {
            LineStep::Ignore
        }
    } else if job.lane == AnalysisJobLaneDto::WholeGame {
        if s.during_search is None || (job.disposition == JobDisposition::BudgetReached
            && s.during_search == Some(false) && (s.no_results || !s.has_moves || s.visits == 0
            || !s.valid_result)) {
            LineStep::FailRun(RunFailure::NoValidTargetFinal)
        } else {
            LineStep::RouteWholeGame
        }
    } else {
        let during = s.during_search == Some(true);
        let has_result = s.visits > 0 && !s.no_results;
        let has_data = has_result && s.has_moves;
        if continuous && has_result && s.during_search is None {
            LineStep::FailRun(RunFailure::MissingProgressMarker)
        } else if continuous && has_result && !s.valid_result {
            LineStep::FailRun(RunFailure::InvalidValues)
        } else if continuous && !during && !has_result {
            LineStep::FailJob(JobFailure::NoValidAnalysis)
        } else if during && !has_data {
            LineStep::Ignore
        } else if during {
            LineStep::Progress { has_data, publish_event: continuous }
        } else if continuous {
            let b = job.budget->0;
            if b.continuous_visits_limit_enabled && s.visits >= b.continuous_visits_limit {
                LineStep::Finish { outcome: SelectedFinal::VisitsLimited, has_data }
            } else if b.continuous_time_limit_enabled {
                LineStep::Finish { outcome: SelectedFinal::TimeLimited, has_data }
            } else {
                LineStep::FailJob(JobFailure::EndedBeforeLimit)
            }
        } else {
            LineStep::Finish { outcome: SelectedFinal::Completed, has_data }
        }
    }
}

/// Routes a response line of a live job. A continuous job carries its
/// budget.
pub fn route_response(job: &RoutedJob, s: &ResponseSummary) -> (r: LineStep)
    requires
        job.mode == AnalysisJobModeDto::Continuous ==> job.budget is Some,
    ensures
        r == route_spec(*job, *s),
{
    let stopping = job.state == AnalysisJobStateDto::Stopping && job.disposition
        != JobDisposition::BudgetReached;
    let continuous = job.mode == AnalysisJobModeDto::Continuous;
    if !s.parsed {
        if stopping {
            return LineStep::Ignore;
        }
        if continuous || job.disposition == JobDisposition::BudgetReached {
            return LineStep::UnparseableFailsRun;
        }
        return LineStep::UnparseableFailsJob;
    }
    if s.action {
        return LineStep::Ignore;
    }
    if stopping {
        if s.during_search == Some(false) {
            return LineStep::FinishStopped(
                match job.disposition {
                    JobDisposition::Superseded => AnalysisJobOutcomeDto::Superseded,
                    JobDisposition::TimedOut => AnalysisJobOutcomeDto::Timeout,
                    _ => AnalysisJobOutcomeDto::Cancelled,
                },
            );
        }
        return LineStep::Ignore;
    }
    match &s.warning {
        Some(w) => {
            if warns_of_required_setting(w.as_str(), &s.field) && (job.lane
                == AnalysisJobLaneDto::WholeGame || continuous) {
                return LineStep::FailRun(RunFailure::IgnoredSetting);
            }
            return LineStep::Ignore;
        },
        None => {},
    }
    if job.lane == AnalysisJobLaneDto::WholeGame {
        if s.during_search.is_none() || (job.disposition == JobDisposition::BudgetReached
            && s.during_search == Some(false) && (s.no_results || !s.has_moves || s.visits == 0
            || !s.valid_result)) {
            return LineStep::FailRun(RunFailure::NoValidTargetFinal);
        }
        return LineStep::RouteWholeGame;
    }
    let during = s.during_search == Some(true);
    let has_result = s.visits > 0 && !s.no_results;
    let has_data = has_result && s.has_moves;
    if continuous && has_result && s.during_search.is_none() {
        return LineStep::FailRun(RunFailure::MissingProgressMarker);
    }
    if continuous && has_result && !s.valid_result {
        return LineStep::FailRun(RunFailure::InvalidValues);
    }
    if continuous && !during && !has_result {
        return LineStep::FailJob(JobFailure::NoValidAnalysis);
    }
    if during && !has_data {
        return LineStep::Ignore;
    }
    if during {
        return LineStep::Progress { has_data, publish_event: continuous };
    }
    if continuous {
        let b = job.budget.unwrap();
        if b.continuous_visits_limit_enabled && s.visits >= b.continuous_visits_limit {
            return LineStep::Finish { outcome: SelectedFinal::VisitsLimited, has_data };
        }
        if b.continuous_time_limit_enabled {
            return LineStep::Finish { outcome: SelectedFinal::TimeLimited, has_data };
        }
        return LineStep::FailJob(JobFailure::EndedBeforeLimit);
    }
    LineStep::Finish { outcome: SelectedFinal::Completed, has_data }
}

pub open spec fn run_failure_text(f: RunFailure, warning: Seq<char>) -> Seq<char> {
    match f {
        RunFailure::IgnoredSetting => "required analysis setting was ignored: "@ + warning,
        RunFailure::NoValidTargetFinal => "task response did not establish a valid target final"@,
        RunFailure::MissingProgressMarker => "continuous response omitted the required search-progress marker"@,
        RunFailure::InvalidValues => "continuous response contained invalid analysis values or geometry"@,
    }
}

/// The message with which a response fails its run; `warning` is the
/// response's warning, used for an ignored setting.
pub fn run_failure_message(f: RunFailure, warning: &str) -> (r: String)
    ensures
        r@ == run_failure_text(f, warning@),
{
    match f {
        RunFailure::IgnoredSetting => {
            let mut m = String::from_str("required analysis setting was ignored: ");
            m.append(warning);
            m
        },
        RunFailure::NoValidTargetFinal => String::from_str(
            "task response did not establish a valid target final",
        ),
        RunFailure::MissingProgressMarker => String::from_str(
            "continuous response omitted the required search-progress marker",
        ),
        RunFailure::InvalidValues => String::from_str(
            "continuous response contained invalid analysis values or geometry",
        ),
    }
}

pub open spec fn job_failure_text(f: JobFailure) -> Seq<char> {
    match f {
        JobFailure::NoValidAnalysis => "continuous search ended without valid analysis"@,
        JobFailure::EndedBeforeLimit => "continuous search ended before an enabled limit"@,
        JobFailure::NoWholeGameCondition => "whole-game search ended without valid analysis reaching an enabled condition"@,
    }
}

/// The message of a response line that could not be read as JSON: for a
/// whole-game job or for any other analysis, with the parser's `detail`.
pub open spec fn unparseable_text(whole_game: bool, detail: Seq<char>) -> Seq<char> {
    if whole_game {
        "whole-game response was not parseable: "@ + detail
    } else {
        "analysis response was not parseable: "@ + detail
    }
}

/// The message with which an unparseable response fails its job or run;
/// `detail` is what the JSON parser reported.
pub fn unparseable_message(whole_game: bool, detail: &str) -> (r: String)
    ensures
        r@ == unparseable_text(whole_game, detail@),
{
    let mut m = if whole_game {
        String::from_str("whole-game response was not parseable: ")
    } else {
        String::from_str("analysis response was not parseable: ")
    };
    m.append(detail);
    m
}

/// The message with which a response fails its job.
pub fn job_failure_message(f: JobFailure) -> (r: String)
    ensures
        r@ == job_failure_text(f),
{
    match f {
        JobFailure::NoValidAnalysis => String::from_str("continuous search ended without valid analysis"),
        JobFailure::EndedBeforeLimit => String::from_str(
            "continuous search ended before an enabled limit",
        ),
        JobFailure::NoWholeGameCondition => String::from_str(
            "whole-game search ended without valid analysis reaching an enabled condition",
        ),
    }
}

/// A stopping job that was not stopped by its own budget ignores every line
/// but its final, and never fails on one.
pub proof fn stopping_jobs_only_take_their_final(job: RoutedJob, s: ResponseSummary)
    requires
        job.state == AnalysisJobStateDto::Stopping,
        job.disposition != JobDisposition::BudgetReached,
    ensures
        route_spec(job, s) == LineStep::Ignore || route_spec(job, s) is FinishStopped,
        route_spec(job, s) is FinishStopped ==> s.parsed && !s.action && s.during_search == Some(
            false,
        ),
{
}

/// A finite selected-node search always completes when it ends with a
/// result: limits only end continuous searches.
pub proof fn finite_searches_complete(job: RoutedJob, s: ResponseSummary)
    requires
        job.mode == AnalysisJobModeDto::Finite,
        job.lane == AnalysisJobLaneDto::SelectedNode,
        route_spec(job, s) matches LineStep::Finish { outcome, .. },
    ensures
        route_spec(job, s) matches LineStep::Finish { outcome, .. } && outcome == SelectedFinal::Completed,
{
}

/// What a parsed final or progress line of a whole-game job does.
#[derive(Debug, Clone, Copy, PartialEq, Eq, Structural)]
pub enum WholeGameStep {
    /// Progress without a reached condition: only a new snapshot.
    Snapshot,
    /// Progress that reached a task condition: stop the query at its budget.
    BeginBudgetStop,
    /// A final without valid analysis or a reached condition fails the job
    /// (with `JobFailure::NoWholeGameCondition`).
    FailNoValidAnalysis,
    /// A final that completes the current position.
    RecordResult,
}

/// The step of a whole-game line: progress stops the query once a
/// condition is reached (only while it runs); a final records the position
/// when it has valid search data and an ending condition (pending from a
/// budget stop, else observed now), and fails the job otherwise.
pub open spec fn whole_game_step_spec(
    during: bool,
    has_search_data: bool,
    observed: nat,
    disposition: JobDisposition,
    pending: nat,
) -> WholeGameStep {
    if during {
        if observed > 0 && disposition == JobDisposition::Running {
            WholeGameStep::BeginBudgetStop
        } else {
            WholeGameStep::Snapshot
        }
    } else if !has_search_data || (if pending == 0 {
        observed
    } else {
        pending
    }) == 0 {
        WholeGameStep::FailNoValidAnalysis
    } else {
        WholeGameStep::RecordResult
    }
}

/// The step of a parsed whole-game line. `observed` are the task conditions
/// the line shows reached, `pending` those recorded when its query was
/// stopped at its budget.
pub fn whole_game_step(
    during: bool,
    has_search_data: bool,
    observed: &Vec<String>,
    disposition: JobDisposition,
    pending: &Vec<String>,
) -> (r: WholeGameStep)
    ensures
        r == whole_game_step_spec(
            during,
            has_search_data,
            observed.len() as nat,
            disposition,
            pending.len() as nat,
        ),
{
    if during {
        if observed.len() > 0 && disposition == JobDisposition::Running {
            return WholeGameStep::BeginBudgetStop;
        }
        return WholeGameStep::Snapshot;
    }
    let ending = if pending.len() == 0 {
        observed.len()
    } else {
        pending.len()
    };
    if !has_search_data || ending == 0 {
        return WholeGameStep::FailNoValidAnalysis;
    }
    WholeGameStep::RecordResult
}

/// `parts` joined with `sep` between them.
pub open spec fn joined(parts: Seq<Seq<char>>, sep: Seq<char>) -> Seq<char>
    decreases parts.len(),
{
    if parts.len() == 0 {
        Seq::empty()
    } else if parts.len() == 1 {
        parts[0]
    } else {
        joined(parts.drop_last(), sep) + sep + parts.last()
    }
}

/// The reason a task shows while its query stops at a reached condition.
pub open spec fn budget_stop_text(observed: Seq<Seq<char>>) -> Seq<char> {
    "Stopping after reaching "@ + joined(observed, " and "@) + "."@
}

/// The reason a task shows while its query stops at the conditions
/// `observed`.
pub fn budget_stop_reason(observed: &Vec<String>) -> (r: String)
    ensures
        r@ == budget_stop_text(string_views(observed@)),
{
    let mut m = String::from_str("Stopping after reaching ");
    let ghost prefix = m@;
    let mut i: usize = 0;
    while i < observed.len()
        invariant
            i <= observed.len(),
            prefix == "Stopping after reaching "@,
            m@ == prefix + joined(string_views(observed@).take(i as int), " and "@),
        decreases observed.len() - i,
    {
        let ghost before = m@;
        if i > 0 {
            m.append(" and ");
        }
        m.append(observed[i].as_str());
        proof {
            let parts = string_views(observed@).take(i + 1);
            assert(parts.drop_last() =~= string_views(observed@).take(i as int));
            assert(parts.last() == observed@[i as int]@);
            if i == 0 {
                assert(parts.len() == 1);
            }
            assert(m@ =~= prefix + joined(parts, " and "@));
        }
        i += 1;
    }
    assert(string_views(observed@).take(observed.len() as int) =~= string_views(observed@));
    m.append(".");
    m
}

/// The job once its query stops at its budget at `now`, having reached the
/// conditions `observed`: stopping, due to answer `CANCEL_ANSWER_MS` later,
/// and pending on those conditions.
pub open spec fn budget_stopped(job: JobRecord, observed: Vec<String>, now: u64) -> JobRecord {
    JobRecord {
        disposition: JobDisposition::BudgetReached,
        state: AnalysisJobStateDto::Stopping,
        cancel_deadline_ms: Some(cancel_deadline_at(now)),
        pending_ending_conditions: observed,
        ..job
    }
}

/// Stops a running whole-game query at its budget at `now_ms`, where it was
/// seen reaching the conditions `observed`; the engine has
/// `CANCEL_ANSWER_MS` to answer.
pub fn begin_budget_stop(job: &mut JobRecord, observed: Vec<String>, now_ms: u64)
    ensures
        *final(job) == budget_stopped(*old(job), observed, now_ms),
{
    job.disposition = JobDisposition::BudgetReached;
    job.state = AnalysisJobStateDto::Stopping;
    job.cancel_deadline_ms = Some(cancel_deadline(now_ms));
    job.pending_ending_conditions = observed;
}



/// What comes after a recorded whole-game result.
#[derive(Debug, Clone, Copy, PartialEq, Eq, Structural)]
pub enum AdvanceStep {
    /// Every position has its result: the job completes.
    Finished,
    /// The overview is done: the deep stage starts again from the first
    /// position.
    BeginDeep,
    /// The next position's query is submitted.
    Next,
}

/// Whether the job's task moves to its deep stage once its overview is done.
pub open spec fn begins_deep(task: Option<AnalysisTaskDto>, job_id: Seq<char>) -> bool {
    task matches Some(t) && t.job_id@ == job_id && t.strategy
        == AnalysisTaskStrategyDto::AllPositionsTwoStage && t.stage == AnalysisTaskStageDto::Overview
}

/// The step after recording position `index` of `expected`.
pub open spec fn advance_step_spec(index: int, expected: int, deep: bool) -> AdvanceStep {
    if index + 1 < expected {
        AdvanceStep::Next
    } else if deep {
        AdvanceStep::BeginDeep
    } else {
        AdvanceStep::Finished
    }
}

/// The position a job is at after recording position `index` of `expected`.
pub open spec fn advance_index_spec(index: int, expected: int, deep: bool) -> int {
    if index + 1 >= expected && deep {
        0
    } else {
        index + 1
    }
}

/// The task once the job's next position is queued: a task moves back to
/// queued, without a reason.
pub open spec fn requeued_task(task: Option<AnalysisTaskDto>) -> Option<AnalysisTaskDto> {
    match task {
        Some(t) => Some(AnalysisTaskDto { state: AnalysisTaskStateDto::Queued, reason: None, ..t }),
        None => None,
    }
}

/// What moving the whole-game job `j0` past its recorded position, out of
/// `expected`, does: `advance_after_result` takes the job to `j1` and its
/// task from `t0` to `t1`, with step `r`.
pub open spec fn advance_spec(
    j0: JobRecord,
    j1: JobRecord,
    expected: usize,
    t0: Option<AnalysisTaskDto>,
    t1: Option<AnalysisTaskDto>,
    next_query_id: String,
    now_ms: u64,
    r: AdvanceStep,
) -> bool {
    let done = j0.current_index + 1;
    let deep = begins_deep(t0, j0.job_id@);
    let next = advance_index_spec(j0.current_index as int, expected as int, deep);
    &&& r == advance_step_spec(j0.current_index as int, expected as int, deep)
    &&& j1.pending_ending_conditions@.len() == 0
    &&& if r == AdvanceStep::Finished {
        j1 == (JobRecord {
            current_index: next as usize,
            disposition: JobDisposition::Running,
            cancel_deadline_ms: None,
            pending_ending_conditions: j1.pending_ending_conditions,
            ..j0
        })
    } else {
        &&& j1 == (JobRecord {
            current_index: next as usize,
            disposition: JobDisposition::Running,
            cancel_deadline_ms: None,
            pending_ending_conditions: j1.pending_ending_conditions,
            query_id: j1.query_id,
            node_path: j1.node_path,
            state: AnalysisJobStateDto::Queued,
            submitted: false,
            submitted_at_ms: now_ms,
            ..j0
        })
        &&& j1.query_id@ == next_query_id@
        &&& j1.node_path@ == j0.item_paths@[next]@
    }
    &&& if done >= expected && deep {
        &&& t1 matches Some(n)
        &&& n == (AnalysisTaskDto {
            stage: AnalysisTaskStageDto::Deep,
            state: AnalysisTaskStateDto::Queued,
            reason: None,
            ending_conditions: n.ending_conditions,
            ..t0->0
        })
        &&& n.ending_conditions@.len() == 0
    } else if done < expected {
        t1 == requeued_task(t0)
    } else {
        t1 == t0
    }
}

/// Moves a whole-game job past the position it just recorded, out of
/// `expected`, and clears its cancellation deadline and pending conditions: on to the next
/// position, to the first one again when a two-stage task's overview ends
/// (its task then queues for the deep stage), or to its end. A job that
/// goes on is queued again at its new position under the query id
/// `next_query_id`, unsubmitted since `now_ms`, and its task is queued.
pub fn advance_after_result(
    job: &mut JobRecord,
    expected: usize,
    task: &mut Option<AnalysisTaskDto>,
    next_query_id: String,
    now_ms: u64,
) -> (r: AdvanceStep)
    requires
        old(job).current_index < expected,
        ({
            let next = advance_index_spec(
                old(job).current_index as int,
                expected as int,
                begins_deep(*old(task), old(job).job_id@),
            );
            next < expected ==> next < old(job).item_paths.len()
        }),
    ensures
        advance_spec(
            *old(job),
            *final(job),
            expected,
            *old(task),
            *final(task),
            next_query_id,
            now_ms,
            r,
        ),
{
    let done = job.current_index + 1;
    job.current_index = done;
    job.disposition = JobDisposition::Running;
    job.cancel_deadline_ms = None;
    job.pending_ending_conditions = Vec::new();
    let step = if done < expected {
        match task {
            Some(t) => {
                t.state = AnalysisTaskStateDto::Queued;
                t.reason = None;
            },
            None => {},
        }
        AdvanceStep::Next
    } else {
        let deep = match task {
            Some(t) => str_eq(t.job_id.as_str(), job.job_id.as_str()) && t.strategy
                == AnalysisTaskStrategyDto::AllPositionsTwoStage && t.stage
                == AnalysisTaskStageDto::Overview,
            None => false,
        };
        if !deep {
            return AdvanceStep::Finished;
        }
        job.current_index = 0;
        match task {
            Some(t) => {
                t.stage = AnalysisTaskStageDto::Deep;
                t.state = AnalysisTaskStateDto::Queued;
                t.reason = None;
                t.ending_conditions = Vec::new();
            },
            None => {},
        }
        AdvanceStep::BeginDeep
    };
    let next = job.current_index;
    job.node_path = job.item_paths[next].clone();
    job.query_id = next_query_id;
    job.state = AnalysisJobStateDto::Queued;
    job.submitted = false;
    job.submitted_at_ms = now_ms;
    step
}

/// A whole-game job only ever moves forward through its positions: each
/// recorded result advances it by one, except that a two-stage task's deep
/// stage starts over from the first position exactly once, when the
/// overview ends; it finishes exactly when its last position is recorded.
pub proof fn whole_game_jobs_move_forward(index: int, expected: int, deep: bool)
    requires
        0 <= index < expected,
    ensures
        advance_step_spec(index, expected, deep) != AdvanceStep::BeginDeep ==> advance_index_spec(
            index,
            expected,
            deep,
        ) == index + 1,
        advance_step_spec(index, expected, deep) == AdvanceStep::BeginDeep ==> advance_index_spec(
            index,
            expected,
            deep,
        ) == 0 && index + 1 == expected && deep,
        advance_step_spec(index, expected, deep) == AdvanceStep::Finished <==> (index + 1 == expected
            && !deep),
{
}

/// What the manager reads of a whole-game line: whether the search still
/// runs, whether it has valid search data, the task conditions the line
/// shows reached, and the line's analysis frame.
#[derive(Debug)]
pub struct WholeGameLine {
    pub during: bool,
    pub has_search_data: bool,
    pub observed: Vec<String>,
    pub frame: AnalysisFrameDto,
}

/// What a whole-game line asks of the manager.
#[derive(Debug)]
pub enum WholeGameAction {
    /// No live whole-game job with a current position and an active task
    /// takes the line.
    Ignore,
    /// Only a new snapshot.
    Snapshot,
    /// The query stops at its budget: the manager terminates `query_id`.
    Terminate { query_id: String },
    /// The job failed with `failure`; `event` is its end event.
    Failed {
        started: AnalysisJobStartedDto,
        failure: EngineFailureDto,
        event: Option<AnalysisJobEventDto>,
    },
    /// The position at `path` was recorded as result `completed` of
    /// `expected`; `step` says what follows, and `finished` is where the
    /// completed job's end is reported.
    Recorded {
        started: AnalysisJobStartedDto,
        path: NodePath,
        completed: usize,
        expected: usize,
        step: AdvanceStep,
        finished: Option<NodePath>,
    },
}

/// A job that takes a whole-game line answering query `qid` of run `run`:
/// live, running or stopped at its budget, in the whole-game lane.
pub open spec fn takes_whole_line(job: JobRecord, run: Seq<char>, qid: Seq<char>) -> bool {
    &&& job.query_id@ == qid && job.run_id@ == run && !job.terminal
    &&& job.disposition == JobDisposition::Running || job.disposition == JobDisposition::BudgetReached
    &&& job.lane == AnalysisJobLaneDto::WholeGame
}

/// The first job from `i` on that takes the line, or the number of jobs.
pub open spec fn first_taker(jobs: Seq<JobRecord>, run: Seq<char>, qid: Seq<char>, i: int) -> int
    decreases jobs.len() - i,
{
    if i < 0 || i >= jobs.len() {
        jobs.len() as int
    } else if takes_whole_line(jobs[i], run, qid) {
        i
    } else {
        first_taker(jobs, run, qid, i + 1)
    }
}

/// A task with search limits for the stage it is in.
pub open spec fn has_active_conditions(t: AnalysisTaskDto) -> bool {
    !(t.stage == AnalysisTaskStageDto::Overview && t.overview_conditions is None)
}

/// The job that a whole-game line answering query `qid` of run `run` goes
/// to: the first that takes it, when it has a current position, an
/// expected count, and a task of its own with active conditions.
pub open spec fn whole_line_job(
    jobs: Seq<JobRecord>,
    task: Option<AnalysisTaskDto>,
    run: Seq<char>,
    qid: Seq<char>,
) -> Option<int> {
    let k = first_taker(jobs, run, qid, 0);
    if k < jobs.len() && jobs[k].current_index < jobs[k].item_paths.len() && jobs[k].expected
        is Some && (task matches Some(t) && t.job_id@ == jobs[k].job_id@ && has_active_conditions(
        t,
    )) {
        Some(k)
    } else {
        None
    }
}

/// Whole-game jobs expect one result per work item.
pub open spec fn whole_jobs_wf(jobs: Seq<JobRecord>) -> bool {
    forall|i: int|
        0 <= i < jobs.len() && (#[trigger] jobs[i]).lane == AnalysisJobLaneDto::WholeGame
            && jobs[i].expected is Some ==> jobs[i].expected->0 == jobs[i].item_paths.len()
}

/// A line with search data of a running job puts the job (and a queued task
/// of its own) to searching; otherwise nothing changes.
pub open spec fn searching_prelude(
    t0: Option<AnalysisTaskDto>,
    t1: Option<AnalysisTaskDto>,
    j0: Seq<JobRecord>,
    j1: Seq<JobRecord>,
    k: int,
    has_search_data: bool,
) -> bool {
    let job = j0[k];
    if has_search_data && job.disposition == JobDisposition::Running {
        &&& j1 == j0.update(k, JobRecord { state: AnalysisJobStateDto::Searching, ..job })
        &&& task_step(
            t0,
            t1,
            t0 matches Some(t) && t.job_id@ == job.job_id@ && t.state == AnalysisTaskStateDto::Queued,
            AnalysisTaskStateDto::Searching,
            match t0 {
                Some(t) => opt_string_view(t.reason),
                None => None,
            },
        )
    } else {
        j1 == j0 && t1 == t0
    }
}

/// The conditions a final line records, as a list: those the query was
/// stopped at, when there are any, else those the line shows reached.
pub open spec fn recorded_list(pending: Vec<String>, observed: Vec<String>) -> Vec<String> {
    if pending@.len() == 0 {
        observed
    } else {
        pending
    }
}

/// `f` is the failure of a whole-game final without valid analysis reaching
/// a condition, for job `job_id` of run `run`.
pub open spec fn no_condition_failure(f: EngineFailureDto, run: Seq<char>, job_id: Seq<char>) -> bool {
    &&& f.operation == EngineOperationDto::Job && f.kind == EngineFailureKind::Protocol
    &&& f.message@ == job_failure_text(JobFailure::NoWholeGameCondition)
    &&& opt_string_view(f.run_id) == Some(run) && opt_string_view(f.job_id) == Some(job_id)
    &&& f.switch_id is None && f.profile_id is None && f.diagnostic_summary is None
}

/// The task once its query stops at a budget: its reason names the
/// conditions reached.
pub open spec fn budget_stop_task(
    t0: Option<AnalysisTaskDto>,
    t1: Option<AnalysisTaskDto>,
    observed: Seq<String>,
) -> bool {
    match t0 {
        Some(t) => t1 matches Some(n) && n == (AnalysisTaskDto { reason: n.reason, ..t })
            && opt_string_view(n.reason) == Some(budget_stop_text(string_views(observed))),
        None => t1 is None,
    }
}

/// What a whole-game line does after its prelude: from the continuous
/// state, task and jobs `s0`, `tm`, `jm` to `s1`, `t1`, `j1`, with action
/// `r`; `t2`, `t3` and `j3` are the task after the recorded result, the task
/// after the job moved on, and the jobs then.
pub open spec fn whole_line_rest(
    s0: ContinuousState,
    s1: ContinuousState,
    tm: Option<AnalysisTaskDto>,
    t1: Option<AnalysisTaskDto>,
    jm: Seq<JobRecord>,
    j1: Seq<JobRecord>,
    k: int,
    run: Seq<char>,
    line: WholeGameLine,
    next_query_id: String,
    now_ms: u64,
    r: WholeGameAction,
    t2: Option<AnalysisTaskDto>,
    t3: Option<AnalysisTaskDto>,
    j3: Seq<JobRecord>,
) -> bool {
    let job = jm[k];
    match whole_game_step_spec(
        line.during,
        line.has_search_data,
        line.observed.len() as nat,
        job.disposition,
        job.pending_ending_conditions.len() as nat,
    ) {
        WholeGameStep::Snapshot => r is Snapshot && s1 == s0 && t1 == tm && j1 == jm,
        WholeGameStep::BeginBudgetStop => {
            &&& r matches WholeGameAction::Terminate { query_id } && query_id@ == job.query_id@
            &&& s1 == s0
            &&& j1 == jm.update(k, budget_stopped(job, line.observed, now_ms))
            &&& budget_stop_task(tm, t1, line.observed@)
        },
        WholeGameStep::FailNoValidAnalysis => {
            &&& r matches WholeGameAction::Failed { started, failure, event }
            &&& names_job(started, job)
            &&& no_condition_failure(failure, run, job.job_id@)
            &&& failed_job_spec(s0, s1, tm, t1, jm, j1, started, failure, event)
        },
        WholeGameStep::RecordResult => {
            let ci = job.current_index as int;
            let e = job.expected->0;
            &&& r matches WholeGameAction::Recorded {
                started,
                path,
                completed,
                expected,
                step,
                finished,
            }
            &&& names_job(started, job) && path@ == job.item_paths@[ci]@
            &&& completed == ci + 1 && expected == e
            &&& s1 == s0
            &&& record_step(
                tm,
                t2,
                job.job_id@,
                job.item_paths@[ci],
                line.frame,
                recorded_list(job.pending_ending_conditions, line.observed),
            )
            &&& advance_spec(job, j3[k], e, t2, t3, next_query_id, now_ms, step)
            &&& j3 == jm.update(k, j3[k])
            &&& if step == AdvanceStep::Finished {
                &&& finished matches Some(p)
                &&& p@ == event_path(j3[owner(j3, job.job_id@, run)])
                &&& whole_end_spec(t3, t1, j3, j1, job.job_id@, AnalysisJobOutcomeDto::Completed, None)
            } else {
                finished is None && t1 == t3 && j1 == j3
            }
        },
    }
}

/// What a whole-game line answering query `qid` of run `run` does, from
/// `s0`, `t0`, `j0` to `s1`, `t1`, `j1`, with action `r`.
pub open spec fn whole_line_spec(
    s0: ContinuousState,
    s1: ContinuousState,
    t0: Option<AnalysisTaskDto>,
    t1: Option<AnalysisTaskDto>,
    j0: Seq<JobRecord>,
    j1: Seq<JobRecord>,
    run: Seq<char>,
    qid: Seq<char>,
    line: WholeGameLine,
    next_query_id: String,
    now_ms: u64,
    r: WholeGameAction,
) -> bool {
    match whole_line_job(j0, t0, run, qid) {
        None => r is Ignore && s1 == s0 && t1 == t0 && j1 == j0,
        Some(k) => exists|
            tm: Option<AnalysisTaskDto>,
            jm: Seq<JobRecord>,
            t2: Option<AnalysisTaskDto>,
            t3: Option<AnalysisTaskDto>,
            j3: Seq<JobRecord>,
        |
            #![trigger whole_line_rest(s0, s1, tm, t1, jm, j1, k, run, line, next_query_id, now_ms, r, t2, t3, j3)]
            searching_prelude(t0, tm, j0, jm, k, line.has_search_data) && whole_line_rest(
                s0,
                s1,
                tm,
                t1,
                jm,
                j1,
                k,
                run,
                line,
                next_query_id,
                now_ms,
                r,
                t2,
                t3,
                j3,
            ),
    }
}

proof fn lemma_whole_line(
    s0: ContinuousState,
    s1: ContinuousState,
    t0: Option<AnalysisTaskDto>,
    t1: Option<AnalysisTaskDto>,
    j0: Seq<JobRecord>,
    j1: Seq<JobRecord>,
    run: Seq<char>,
    qid: Seq<char>,
    line: WholeGameLine,
    next_query_id: String,
    now_ms: u64,
    r: WholeGameAction,
    k: int,
    tm: Option<AnalysisTaskDto>,
    jm: Seq<JobRecord>,
    t2: Option<AnalysisTaskDto>,
    t3: Option<AnalysisTaskDto>,
    j3: Seq<JobRecord>,
)
    requires
        whole_line_job(j0, t0, run, qid) == Some(k),
        searching_prelude(t0, tm, j0, jm, k, line.has_search_data),
        whole_line_rest(s0, s1, tm, t1, jm, j1, k, run, line, next_query_id, now_ms, r, t2, t3, j3),
    ensures
        whole_line_spec(s0, s1, t0, t1, j0, j1, run, qid, line, next_query_id, now_ms, r),
{
    assert(whole_line_job(j0, t0, run, qid)->0 == k);
}

fn find_taker(jobs: &Vec<JobRecord>, run_id: &str, query_id: &str) -> (r: usize)
    ensures
        r as int == first_taker(jobs@, run_id@, query_id@, 0),
        r <= jobs.len(),
        r < jobs.len() ==> takes_whole_line(jobs@[r as int], run_id@, query_id@),
{
    proof {
        lemma_first_taker_bounds(jobs@, run_id@, query_id@, 0);
    }
    let mut i: usize = 0;
    while i < jobs.len()
        invariant
            i <= jobs.len(),
            first_taker(jobs@, run_id@, query_id@, 0) == first_taker(jobs@, run_id@, query_id@, i as int),
        decreases jobs.len() - i,
    {
        let job = &jobs[i];
        if str_eq(job.query_id.as_str(), query_id) && str_eq(job.run_id.as_str(), run_id)
            && !job.terminal && (job.disposition == JobDisposition::Running || job.disposition
            == JobDisposition::BudgetReached) && job.lane == AnalysisJobLaneDto::WholeGame {
            return i;
        }
        i += 1;
    }
    i
}

proof fn lemma_first_taker_bounds(jobs: Seq<JobRecord>, run: Seq<char>, qid: Seq<char>, i: int)
    requires
        0 <= i <= jobs.len(),
    ensures
        i <= first_taker(jobs, run, qid, i) <= jobs.len(),
        first_taker(jobs, run, qid, i) < jobs.len() ==> takes_whole_line(
            jobs[first_taker(jobs, run, qid, i)],
            run,
            qid,
        ),
    decreases jobs.len() - i,
{
    if i < jobs.len() {
        lemma_first_taker_bounds(jobs, run, qid, i + 1);
    }
}

/// Routes a whole-game line answering query `response_id` of run `run_id`:
/// a line with search data puts a running job to searching; progress that
/// reached a task condition stops the query at its budget, pending on those
/// conditions; a final without valid analysis reaching a condition fails
/// the job; any other final records the position with the conditions the
/// query was stopped at (or, without a budget stop, those it shows reached)
/// and moves the job on, re-queued under `next_query_id` at `now_ms`, or
/// completes it.
pub fn whole_game_line_step(
    s: &mut ContinuousState,
    task: &mut Option<AnalysisTaskDto>,
    jobs: &mut Vec<JobRecord>,
    run_id: &str,
    response_id: &str,
    line: WholeGameLine,
    next_query_id: String,
    now_ms: u64,
) -> (r: WholeGameAction)
    requires
        whole_jobs_wf(old(jobs)@),
    ensures
        whole_line_spec(
            *old(s),
            *final(s),
            *old(task),
            *final(task),
            old(jobs)@,
            final(jobs)@,
            run_id@,
            response_id@,
            line,
            next_query_id,
            now_ms,
            r,
        ),
{
    let ghost s0 = *s;
    let ghost t0 = *task;
    let ghost j0 = jobs@;
    let k = find_taker(jobs, run_id, response_id);
    if k == jobs.len() {
        return WholeGameAction::Ignore;
    }
    if jobs[k].current_index >= jobs[k].item_paths.len() {
        return WholeGameAction::Ignore;
    }
    let expected = match jobs[k].expected {
        Some(e) => e,
        None => {
            return WholeGameAction::Ignore;
        },
    };
    let active = match task {
        Some(t) => str_eq(t.job_id.as_str(), jobs[k].job_id.as_str()) && !(t.stage
            == AnalysisTaskStageDto::Overview && t.overview_conditions.is_none()),
        None => false,
    };
    if !active {
        return WholeGameAction::Ignore;
    }
    assert(whole_line_job(j0, t0, run_id@, response_id@) == Some(k as int));
    // Search data of a running job: the job (and a queued task) searches.
    if line.has_search_data && jobs[k].disposition == JobDisposition::Running {
        let mut job = jobs.remove(k);
        job.state = AnalysisJobStateDto::Searching;
        let job_id = job.job_id.clone();
        jobs.insert(k, job);
        assert(jobs@ =~= j0.update(
            k as int,
            JobRecord { state: AnalysisJobStateDto::Searching, ..j0[k as int] },
        ));
        mark_analysis_task_searching(task, job_id.as_str());
    }
    let ghost tm = *task;
    let ghost jm = jobs@;
    assert(searching_prelude(t0, tm, j0, jm, k as int, line.has_search_data));
    let step = whole_game_step(
        line.during,
        line.has_search_data,
        &line.observed,
        jobs[k].disposition,
        &jobs[k].pending_ending_conditions,
    );
    let r = match step {
        WholeGameStep::Snapshot => {
            let r = WholeGameAction::Snapshot;
            proof {
                lemma_whole_line(s0, *s, t0, *task, j0, jobs@, run_id@, response_id@, line, next_query_id, now_ms, r, k as int, tm, jm, tm, tm, jm);
            }
            r
        },
        WholeGameStep::BeginBudgetStop => {
            let reason = budget_stop_reason(&line.observed);
            let mut job = jobs.remove(k);
            let query_id = job.query_id.clone();
            begin_budget_stop(&mut job, line.observed, now_ms);
            jobs.insert(k, job);
            assert(jobs@ =~= jm.update(k as int, budget_stopped(jm[k as int], line.observed, now_ms)));
            match task {
                Some(t) => {
                    t.reason = Some(reason);
                },
                None => {},
            }
            let r = WholeGameAction::Terminate { query_id };
            proof {
                lemma_whole_line(s0, *s, t0, *task, j0, jobs@, run_id@, response_id@, line, next_query_id, now_ms, r, k as int, tm, jm, tm, tm, jm);
            }
            r
        },
        WholeGameStep::FailNoValidAnalysis => {
            let started = started_from(&jobs[k]);
            let published = EngineFailureDto {
                job_id: Some(started.job_id.clone()),
                ..failure(
                    EngineOperationDto::Job,
                    EngineFailureKind::Protocol,
                    job_failure_message(JobFailure::NoWholeGameCondition),
                    Some(run_id),
                    None,
                    None,
                )
            };
            let event = finish_failed_job(s, task, jobs, &started, published.clone());
            let r = WholeGameAction::Failed { started, failure: published, event };
            proof {
                lemma_whole_line(s0, *s, t0, *task, j0, jobs@, run_id@, response_id@, line, next_query_id, now_ms, r, k as int, tm, jm, tm, tm, jm);
            }
            r
        },
        WholeGameStep::RecordResult => {
            assert(takes_whole_line(jm[k as int], run_id@, response_id@));
            assert(jm[k as int].expected == Some(expected));
            assert(jm[k as int].current_index < jm[k as int].item_paths.len());
            assert(j0[k as int].lane == AnalysisJobLaneDto::WholeGame);
            assert(expected == jm[k as int].item_paths.len());
            let mut job = jobs.remove(k);
            let ghost jk = job;
            let started = started_from(&job);
            let ci = job.current_index;
            let mut pending: Vec<String> = Vec::new();
            std::mem::swap(&mut pending, &mut job.pending_ending_conditions);
            let ending = if pending.len() == 0 {
                line.observed
            } else {
                pending
            };
            let path = job.item_paths[ci].clone();
            record_analysis_task_completion(task, started.job_id.as_str(), &job.item_paths[ci], &line.frame, ending);
            let ghost t2 = *task;
            let adv = advance_after_result(&mut job, expected, task, next_query_id, now_ms);
            let ghost t3 = *task;
            jobs.insert(k, job);
            let ghost j3 = jobs@;
            assert(j3 =~= jm.update(k as int, j3[k as int]));
            assert(j3[k as int].job_id == jk.job_id && j3[k as int].run_id == jk.run_id);
            let finished = if adv == AdvanceStep::Finished {
                proof {
                    lemma_first_job_found(j3, jk.job_id@, Some(run_id@), 0, k as int);
                }
                finish_whole_game_job(task, jobs, started.job_id.as_str(), run_id, AnalysisJobOutcomeDto::Completed, None)
            } else {
                None
            };
            let r = WholeGameAction::Recorded {
                started,
                path,
                completed: ci + 1,
                expected,
                step: adv,
                finished,
            };
            proof {
                lemma_whole_line(s0, *s, t0, *task, j0, jobs@, run_id@, response_id@, line, next_query_id, now_ms, r, k as int, tm, jm, t2, t3, j3);
            }
            r
        },
    };
    r
}

/// The conditions a whole-game query was seen reaching when it stopped at
/// its budget are the ones its final line records: a progress line of a
/// running job that reached `observed` stops the query at its budget, and
/// after that stop a final line with search data records exactly
/// `observed`, whatever conditions the final line itself shows.
pub proof fn budget_stop_conditions_are_recorded(
    job: JobRecord,
    observed: Vec<String>,
    now: u64,
    final_observed: Vec<String>,
)
    requires
        observed@.len() > 0,
        job.disposition == JobDisposition::Running,
    ensures
        whole_game_step_spec(
            true,
            true,
            observed.len() as nat,
            job.disposition,
            job.pending_ending_conditions.len() as nat,
        ) == WholeGameStep::BeginBudgetStop,
        ({
            let stopped = budget_stopped(job, observed, now);
            &&& whole_game_step_spec(
                false,
                true,
                final_observed.len() as nat,
                stopped.disposition,
                stopped.pending_ending_conditions.len() as nat,
            ) == WholeGameStep::RecordResult
            &&& recorded_list(stopped.pending_ending_conditions, final_observed) == observed
        }),
{
}

} // verus!
