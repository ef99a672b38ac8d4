//! Decisions of the foreground engine manager: its configuration, the phase
//! the engine is in, which run admits work, and the failures it reports.
//! The submodules hold continuous analysis, response ids, registered jobs,
//! response routing, the engine lifecycle and the analysis-task states.
pub mod continuous;
pub mod response_id;
pub mod jobs;
pub mod routing;
pub mod lifecycle;
pub mod tasks;
pub mod job_end;
pub mod follow;
pub mod unresponsive;
pub mod deadlines;
pub mod requests;

use vstd::prelude::*;
use crate::analysis_task::{
    AnalysisStageConditionsDto, AnalysisTaskDto, AnalysisTaskLimitDto, AnalysisTaskStageDto,
};
use crate::model::{
    opt_string_view, EngineFailureDto, EngineFailureKind, EngineOperationDto, EngineRunDto,
    NodePath,
};
use crate::text::str_eq;
use std::time::Duration;

verus! {

broadcast use vstd::string::group_string_axioms;

/// What `Duration::from_millis` gives for a number of milliseconds.
pub uninterp spec fn duration_of_millis(ms: u64) -> Duration;

/// `Duration::from_millis`: the span of `ms` milliseconds. The contract names
/// the result and says nothing of its inside.
#[verifier::external_body]
fn duration_from_millis(ms: u64) -> (d: Duration)
    ensures
        d == duration_of_millis(ms),
{
    Duration::from_millis(ms)
}

/// How long the manager waits for an engine to become ready, to drain on
/// stop and to finish a job, and whether it admits whole-game analysis.
#[derive(Clone, Copy, Debug)]
pub struct ForegroundEngineConfig {
    pub readiness_timeout: Duration,
    pub stop_drain_timeout: Duration,
    pub job_timeout: Duration,
    pub admit_whole_game_analysis: bool,
}

impl Default for ForegroundEngineConfig {
    /// Thirty seconds to become ready, two to drain, sixty per job.
    fn default() -> (r: Self)
        ensures
            r.readiness_timeout == duration_of_millis(30_000),
            r.stop_drain_timeout == duration_of_millis(2_000),
            r.job_timeout == duration_of_millis(60_000),
            r.admit_whole_game_analysis,
    {
        ForegroundEngineConfig {
            readiness_timeout: duration_from_millis(30_000),
            stop_drain_timeout: duration_from_millis(2_000),
            job_timeout: duration_from_millis(60_000),
            admit_whole_game_analysis: true,
        }
    }
}

impl ForegroundEngineConfig {
    /// Short budgets for tests: two seconds to become ready, 400 ms to
    /// drain, 800 ms per job.
    pub fn for_tests() -> (r: Self)
        ensures
            r.readiness_timeout == duration_of_millis(2_000),
            r.stop_drain_timeout == duration_of_millis(400),
            r.job_timeout == duration_of_millis(800),
            r.admit_whole_game_analysis,
    {
        ForegroundEngineConfig {
            readiness_timeout: duration_from_millis(2_000),
            stop_drain_timeout: duration_from_millis(400),
            job_timeout: duration_from_millis(800),
            admit_whole_game_analysis: true,
        }
    }
}

/// Cancels a registered analysis job.
pub trait AnalysisJobCancel {
    fn cancel(&self);
}

/// What the continuous-analysis button does next.
#[derive(Clone, Copy, Debug, PartialEq, Eq, Structural)]
pub enum ContinuousPrimaryAction {
    Start,
    Stop,
    Resume,
}

/// Where the foreground engine stands.
#[derive(Debug, Clone)]
pub enum EnginePhase {
    NoEngine { failure: Option<EngineFailureDto> },
    Starting(EngineRunDto),
    Ready(EngineRunDto),
    Switching { primary: EngineRunDto, candidate: EngineRunDto, switch_id: String },
    Stopping(EngineRunDto),
    Error { run: EngineRunDto, failure: EngineFailureDto },
}

/// The run a phase is about: the primary one while switching, none without
/// an engine.
pub open spec fn phase_run(phase: EnginePhase) -> Option<EngineRunDto> {
    match phase {
        EnginePhase::NoEngine { .. } => None,
        EnginePhase::Starting(run) => Some(run),
        EnginePhase::Ready(run) => Some(run),
        EnginePhase::Switching { primary, .. } => Some(primary),
        EnginePhase::Stopping(run) => Some(run),
        EnginePhase::Error { run, .. } => Some(run),
    }
}

/// The run that admits new work: the ready one, or the primary while
/// switching.
pub open spec fn admitting_spec(phase: EnginePhase) -> Option<EngineRunDto> {
    match phase {
        EnginePhase::Ready(run) => Some(run),
        EnginePhase::Switching { primary, .. } => Some(primary),
        _ => None,
    }
}

/// The id of the run the phase is about.
pub fn current_run_id(phase: &EnginePhase) -> (r: Option<String>)
    ensures
        opt_string_view(r) == match phase_run(*phase) {
            Some(run) => Some(run.run_id@),
            None => None,
        },
{
    match phase {
        EnginePhase::NoEngine { .. } => None,
        EnginePhase::Starting(run) => Some(run.run_id.clone()),
        EnginePhase::Ready(run) => Some(run.run_id.clone()),
        EnginePhase::Switching { primary, .. } => Some(primary.run_id.clone()),
        EnginePhase::Stopping(run) => Some(run.run_id.clone()),
        EnginePhase::Error { run, .. } => Some(run.run_id.clone()),
    }
}

/// The run that admits new work, if any.
pub fn current_admitting_run(phase: &EnginePhase) -> (r: Option<EngineRunDto>)
    ensures
        r == admitting_spec(*phase),
{
    match phase {
        EnginePhase::Ready(run) => Some(run.clone()),
        EnginePhase::Switching { primary, .. } => Some(primary.clone()),
        _ => None,
    }
}

/// The run that admits new work, when it is the run `run_id` names.
pub fn admitting_run(phase: &EnginePhase, run_id: &str) -> (r: Option<EngineRunDto>)
    ensures
        r == match admitting_spec(*phase) {
            Some(run) => if run.run_id@ == run_id@ {
                Some(run)
            } else {
                None
            },
            None => None,
        },
{
    match phase {
        EnginePhase::Ready(run) => {
            if str_eq(run.run_id.as_str(), run_id) {
                Some(run.clone())
            } else {
                None
            }
        },
        EnginePhase::Switching { primary, .. } => {
            if str_eq(primary.run_id.as_str(), run_id) {
                Some(primary.clone())
            } else {
                None
            }
        },
        _ => None,
    }
}

/// Two positions are the same when they belong to one generation of the
/// document and follow one path.
pub fn same_position(
    left_generation: u64,
    left_path: &NodePath,
    right_generation: u64,
    right_path: &NodePath,
) -> (r: bool)
    ensures
        r == (left_generation == right_generation && left_path@ == right_path@),
{
    left_generation == right_generation && left_path.same_as(right_path)
}

pub open spec fn opt_str_view(s: Option<&str>) -> Option<Seq<char>> {
    match s {
        Some(x) => Some(x@),
        None => None,
    }
}

/// A failure of `operation`, not tied to a switch or a job.
pub fn failure(
    operation: EngineOperationDto,
    kind: EngineFailureKind,
    message: String,
    run_id: Option<&str>,
    profile_id: Option<&str>,
    diagnostic_summary: Option<String>,
) -> (r: EngineFailureDto)
    ensures
        r.operation == operation,
        r.kind == kind,
        r.message == message,
        opt_string_view(r.run_id) == opt_str_view(run_id),
        r.switch_id is None,
        r.job_id is None,
        opt_string_view(r.profile_id) == opt_str_view(profile_id),
        r.diagnostic_summary == diagnostic_summary,
{
    EngineFailureDto {
        operation,
        run_id: match run_id {
            Some(id) => Some(String::from_str(id)),
            None => None,
        },
        switch_id: None,
        job_id: None,
        profile_id: match profile_id {
            Some(id) => Some(String::from_str(id)),
            None => None,
        },
        kind,
        message,
        diagnostic_summary,
    }
}

pub open spec fn empty_whole_game_message() -> Seq<char> {
    "whole-game analysis requires a captured first-child mainline worklist"@
}

/// The failure of a whole-game request with nothing to analyse.
pub fn empty_whole_game_failure(run_id: &str) -> (r: EngineFailureDto)
    ensures
        r.operation == EngineOperationDto::Job,
        r.kind == EngineFailureKind::InvalidState,
        r.message@ == empty_whole_game_message(),
        opt_string_view(r.run_id) == Some(run_id@),
        r.switch_id is None && r.job_id is None && r.profile_id is None,
        r.diagnostic_summary is None,
{
    failure(
        EngineOperationDto::Job,
        EngineFailureKind::InvalidState,
        String::from_str("whole-game analysis requires a captured first-child mainline worklist"),
        Some(run_id),
        None,
        None,
    )
}

/// The failure of a task whose search conditions do not validate.
pub fn invalid_task_conditions(run_id: &str, message: String) -> (r: EngineFailureDto)
    ensures
        r.operation == EngineOperationDto::Job,
        r.kind == EngineFailureKind::InvalidState,
        r.message == message,
        opt_string_view(r.run_id) == Some(run_id@),
        r.switch_id is None && r.job_id is None && r.profile_id is None,
        r.diagnostic_summary is None,
{
    failure(
        EngineOperationDto::Job,
        EngineFailureKind::InvalidState,
        message,
        Some(run_id),
        None,
        None,
    )
}

/// One stage limited by total visits alone; the disabled limits keep their
/// usual values.
pub fn single_stage_conditions(total_visits: u32) -> (r: AnalysisStageConditionsDto)
    ensures
        r == (AnalysisStageConditionsDto {
            time_seconds: AnalysisTaskLimitDto { enabled: false, value: 10 },
            total_visits: AnalysisTaskLimitDto { enabled: true, value: total_visits },
            leading_candidate_visits: AnalysisTaskLimitDto { enabled: false, value: 500 },
        }),
{
    AnalysisStageConditionsDto {
        time_seconds: AnalysisTaskLimitDto { enabled: false, value: 10 },
        total_visits: AnalysisTaskLimitDto { enabled: true, value: total_visits },
        leading_candidate_visits: AnalysisTaskLimitDto { enabled: false, value: 500 },
    }
}

/// The search limits of the stage a task is in.
pub fn active_task_conditions(task: &AnalysisTaskDto) -> (r: Option<&AnalysisStageConditionsDto>)
    ensures
        r == match task.stage {
            AnalysisTaskStageDto::Overview => match task.overview_conditions {
                Some(c) => Some(&c),
                None => None,
            },
            _ => Some(&task.conditions),
        },
{
    match task.stage {
        AnalysisTaskStageDto::Overview => task.overview_conditions.as_ref(),
        AnalysisTaskStageDto::SingleStage | AnalysisTaskStageDto::Deep => Some(&task.conditions),
    }
}

pub open spec fn invalid_state_of(phase: EnginePhase, message: Seq<char>, f: EngineFailureDto) -> bool {
    &&& f.operation == EngineOperationDto::Job
    &&& f.kind == EngineFailureKind::InvalidState
    &&& f.message@ == message
    &&& opt_string_view(f.run_id) == match phase_run(phase) {
        Some(run) => Some(run.run_id@),
        None => None,
    }
    &&& f.switch_id is None && f.job_id is None && f.profile_id is None
    &&& f.diagnostic_summary is None
}

/// The failure of a continuous-analysis request that the current state does
/// not allow, on the current run.
pub fn continuous_invalid_state(phase: &EnginePhase, message: &str) -> (r: EngineFailureDto)
    ensures
        invalid_state_of(*phase, message@, r),
{
    let run_id = current_run_id(phase);
    let f = match &run_id {
        Some(id) => failure(
            EngineOperationDto::Job,
            EngineFailureKind::InvalidState,
            String::from_str(message),
            Some(id.as_str()),
            None,
            None,
        ),
        None => failure(
            EngineOperationDto::Job,
            EngineFailureKind::InvalidState,
            String::from_str(message),
            None,
            None,
            None,
        ),
    };
    f
}

pub open spec fn departing_message() -> Seq<char> {
    "document departure is in progress"@
}

pub open spec fn moved_message() -> Seq<char> {
    "selected-node position changed during admission"@
}

pub open spec fn not_ready_message() -> Seq<char> {
    "selected-node analysis requires the current Ready Foreground Engine Run"@
}

pub open spec fn no_capability_message() -> Seq<char> {
    "current Foreground Engine Run does not advertise selected-node analysis"@
}

/// Whether a run says it can analyse a selected node.
pub open spec fn can_analyse_selected(run: EngineRunDto) -> bool {
    run.capability_snapshot matches Some(c) && c.selected_node_analysis
}

/// Why a selected-node request is refused.
#[derive(Debug, Clone, Copy, PartialEq, Eq, Structural)]
pub enum AdmissionRefusal {
    Departing,
    PositionMoved,
    NoReadyRun,
    NoCapability,
}

/// Which run admits a selected-node request for run `run_id` at position
/// (`generation`, `path`), or why none does: a departure in progress, a
/// followed position other than the request's, no ready run of that id, or
/// a run without selected-node analysis, checked in that order.
pub open spec fn admission_spec(
    departing: bool,
    target: Option<(u64, Seq<u32>)>,
    phase: EnginePhase,
    run_id: Seq<char>,
    generation: u64,
    path: Seq<u32>,
) -> Result<EngineRunDto, AdmissionRefusal> {
    if departing {
        Err(AdmissionRefusal::Departing)
    } else if target matches Some(t) && (t.0 != generation || t.1 != path) {
        Err(AdmissionRefusal::PositionMoved)
    } else {
        match admitting_spec(phase) {
            Some(run) => if run.run_id@ != run_id {
                Err(AdmissionRefusal::NoReadyRun)
            } else if !can_analyse_selected(run) {
                Err(AdmissionRefusal::NoCapability)
            } else {
                Ok(run)
            },
            None => Err(AdmissionRefusal::NoReadyRun),
        }
    }
}

/// The failure reported for a refused selected-node request.
pub open spec fn refusal_failure(
    refusal: AdmissionRefusal,
    phase: EnginePhase,
    run_id: Seq<char>,
    f: EngineFailureDto,
) -> bool {
    match refusal {
        AdmissionRefusal::Departing => invalid_state_of(phase, departing_message(), f),
        AdmissionRefusal::PositionMoved => invalid_state_of(phase, moved_message(), f),
        AdmissionRefusal::NoReadyRun => {
            &&& f.operation == EngineOperationDto::Job
            &&& f.kind == EngineFailureKind::InvalidState
            &&& f.message@ == not_ready_message()
            &&& opt_string_view(f.run_id) == Some(run_id)
            &&& f.profile_id is None && f.switch_id is None && f.job_id is None
            &&& f.diagnostic_summary is None
        },
        AdmissionRefusal::NoCapability => {
            &&& f.operation == EngineOperationDto::Job
            &&& f.kind == EngineFailureKind::UnsupportedCapability
            &&& f.message@ == no_capability_message()
            &&& opt_string_view(f.run_id) == Some(run_id)
            &&& opt_string_view(f.profile_id) == Some(admitting_spec(phase)->0.profile_id@)
            &&& f.switch_id is None && f.job_id is None
            &&& f.diagnostic_summary is None
        },
    }
}

/// Admits a selected-node request on the ready run, or reports why not.
pub fn validate_selected_admission(
    continuous_departing: bool,
    continuous_target: Option<(u64, &NodePath)>,
    phase: &EnginePhase,
    run_id: &str,
    generation: u64,
    path: &NodePath,
) -> (r: Result<EngineRunDto, EngineFailureDto>)
    ensures
        ({
            let target = match continuous_target {
                Some(t) => Some((t.0, t.1@)),
                None => None,
            };
            match admission_spec(continuous_departing, target, *phase, run_id@, generation, path@) {
                Ok(run) => r == Ok::<EngineRunDto, EngineFailureDto>(run),
                Err(refusal) => r matches Err(f) && refusal_failure(refusal, *phase, run_id@, f),
            }
        }),
{
    if continuous_departing {
        return Err(continuous_invalid_state(phase, "document departure is in progress"));
    }
    match continuous_target {
        Some((target_generation, target_path)) => {
            if !same_position(generation, path, target_generation, target_path) {
                return Err(
                    continuous_invalid_state(
                        phase,
                        "selected-node position changed during admission",
                    ),
                );
            }
        },
        None => {},
    }
    let run = match admitting_run(phase, run_id) {
        Some(run) => run,
        None => {
            return Err(
                failure(
                    EngineOperationDto::Job,
                    EngineFailureKind::InvalidState,
                    String::from_str(
                        "selected-node analysis requires the current Ready Foreground Engine Run",
                    ),
                    Some(run_id),
                    None,
                    None,
                ),
            );
        },
    };
    let capable = match &run.capability_snapshot {
        Some(c) => c.selected_node_analysis,
        None => false,
    };
    if !capable {
        return Err(
            failure(
                EngineOperationDto::Job,
                EngineFailureKind::UnsupportedCapability,
                String::from_str(
                    "current Foreground Engine Run does not advertise selected-node analysis",
                ),
                Some(run_id),
                Some(run.profile_id.as_str()),
                None,
            ),
        );
    }
    Ok(run)
}
/// A selected-node request is admitted only for the position continuous
/// analysis follows: with no departure under way, a followed position of
/// another document generation or another node refuses it as moved; and an
/// admitted request is at the followed position (when there is one), for
/// the ready run it names, which can analyse a selected node.
pub proof fn admission_is_for_the_followed_position(
    departing: bool,
    target: Option<(u64, Seq<u32>)>,
    phase: EnginePhase,
    run_id: Seq<char>,
    generation: u64,
    path: Seq<u32>,
)
    ensures
        !departing && (target matches Some(t) && (t.0 != generation || t.1 != path)) ==> admission_spec(
            departing,
            target,
            phase,
            run_id,
            generation,
            path,
        ) == Err::<EngineRunDto, AdmissionRefusal>(AdmissionRefusal::PositionMoved),
        admission_spec(departing, target, phase, run_id, generation, path) matches Ok(run) ==> {
            &&& !departing
            &&& target matches Some(t) ==> t.0 == generation && t.1 == path
            &&& run.run_id@ == run_id && can_analyse_selected(run)
            &&& admitting_spec(phase) == Some(run)
        },
{
}

} // verus!
