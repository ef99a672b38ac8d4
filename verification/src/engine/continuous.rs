//! Continuous (follow-the-cursor) analysis: the states of a selected-node
//! job, what the continuous-analysis control shows and does, and how the
//! followed position is reconciled with the running work.
use vstd::prelude::*;
use crate::model::{opt_string_view, EngineFailureDto, EngineRunDto, NodePath};
use crate::analysis_job::AnalysisJobLaneDto;
use crate::preferences::ContinuousAnalysisBudgetDto;
use crate::text::str_eq;
use super::{
    admitting_spec, can_analyse_selected, continuous_invalid_state, current_admitting_run,
    invalid_state_of, same_position, ContinuousPrimaryAction, EnginePhase,
};
use super::jobs::{drop_jobs, kept_jobs, ContinuousAdmission, JobRecord, JobSelector, JobSelectorView};

verus! {

broadcast use vstd::string::group_string_axioms;

/// Whether a selected-node job runs to a fixed budget or follows the cursor.
#[derive(Debug, Clone, Copy, PartialEq, Eq, Structural)]
pub enum AnalysisJobModeDto {
    Finite,
    Continuous,
}

/// Where a registered selected-node job stands.
#[derive(Debug, Clone, Copy, PartialEq, Eq, Structural)]
pub enum AnalysisJobStateDto {
    Queued,
    Searching,
    Stopping,
    TimeLimited,
    VisitsLimited,
}

pub open spec fn limited_state(s: AnalysisJobStateDto) -> bool {
    s == AnalysisJobStateDto::TimeLimited || s == AnalysisJobStateDto::VisitsLimited
}

impl AnalysisJobStateDto {
    /// The job stopped at its time or visit budget.
    pub fn is_limited(&self) -> (r: bool)
        ensures
            r == limited_state(*self),
    {
        *self == AnalysisJobStateDto::TimeLimited || *self == AnalysisJobStateDto::VisitsLimited
    }
}

/// What continuous analysis shows to the user.
#[derive(Debug, Clone, Copy, PartialEq, Eq, Structural)]
pub enum ContinuousAnalysisPhaseDto {
    Loading,
    Off,
    Waiting,
    Queued,
    Searching,
    Stopping,
    TimeLimited,
    VisitsLimited,
    Paused,
    EmptyBoard,
    SafetyHold,
    Finite,
    Departing,
    Unavailable,
    Error,
}

#[derive(Debug, Clone, Copy, PartialEq, Eq, Structural)]
pub struct ContinuousAnalysisSnapshotDto {
    pub enabled: Option<bool>,
    pub phase: ContinuousAnalysisPhaseDto,
}

/// The mode, state and position of the current selected-node job.
#[derive(Debug, Clone)]
pub struct SelectedJobStatus {
    pub mode: AnalysisJobModeDto,
    pub state: AnalysisJobStateDto,
    pub generation: u64,
    pub node_path: NodePath,
}

/// The position continuous analysis follows.
#[derive(Debug, Clone)]
pub struct ContinuousTarget {
    pub generation: u64,
    pub node_path: NodePath,
    pub position_empty: bool,
}

/// What the continuous-analysis decisions read of the manager: the engine
/// phase, the selected-node job, the user's intent and the holds that keep
/// automatic analysis from starting.
#[derive(Debug, Clone)]
pub struct ContinuousState {
    pub phase: EnginePhase,
    pub departing: bool,
    pub finite_admission_pending: bool,
    pub selected_job: Option<SelectedJobStatus>,
    pub intent: Option<bool>,
    pub limited: Option<(ContinuousAdmission, ContinuousAnalysisPhaseDto)>,
    pub paused: Option<ContinuousAdmission>,
    pub error: bool,
    pub safety_hold: bool,
    pub budget: ContinuousAnalysisBudgetDto,
    pub target: Option<ContinuousTarget>,
}

pub open spec fn job_is_stopping(s: ContinuousState) -> bool {
    s.selected_job matches Some(j) && j.state == AnalysisJobStateDto::Stopping
}

pub open spec fn finite_job_runs(s: ContinuousState) -> bool {
    s.selected_job matches Some(j) && j.mode == AnalysisJobModeDto::Finite && !limited_state(
        j.state,
    )
}

/// Continuous analysis is not run on an empty board when the budget says so.
pub open spec fn empty_board_spec(s: ContinuousState) -> bool {
    s.budget.continuous_stop_on_empty_board && (s.target matches Some(t) && t.position_empty)
}

pub open spec fn phase_of_job(state: AnalysisJobStateDto) -> ContinuousAnalysisPhaseDto {
    match state {
        AnalysisJobStateDto::Queued => ContinuousAnalysisPhaseDto::Queued,
        AnalysisJobStateDto::Searching => ContinuousAnalysisPhaseDto::Searching,
        AnalysisJobStateDto::Stopping => ContinuousAnalysisPhaseDto::Stopping,
        AnalysisJobStateDto::TimeLimited => ContinuousAnalysisPhaseDto::TimeLimited,
        AnalysisJobStateDto::VisitsLimited => ContinuousAnalysisPhaseDto::VisitsLimited,
    }
}

/// The phase shown for continuous analysis, by priority: a departure, an
/// error, a stopping job, a running finite job, the intent, a stopping
/// engine, the safety hold, the continuous job, a budget limit, a pause, an
/// empty board, and last what the engine can do.
pub open spec fn continuous_phase_spec(s: ContinuousState) -> ContinuousAnalysisPhaseDto {
    if s.departing {
        ContinuousAnalysisPhaseDto::Departing
    } else if s.phase is Error || s.error {
        ContinuousAnalysisPhaseDto::Error
    } else if job_is_stopping(s) {
        ContinuousAnalysisPhaseDto::Stopping
    } else if finite_job_runs(s) {
        ContinuousAnalysisPhaseDto::Finite
    } else if s.intent is None {
        ContinuousAnalysisPhaseDto::Loading
    } else if s.intent == Some(false) {
        ContinuousAnalysisPhaseDto::Off
    } else if s.phase is Stopping {
        ContinuousAnalysisPhaseDto::Stopping
    } else if s.safety_hold {
        ContinuousAnalysisPhaseDto::SafetyHold
    } else if s.selected_job matches Some(j) && j.mode == AnalysisJobModeDto::Continuous {
        phase_of_job(s.selected_job->0.state)
    } else if s.limited is Some {
        (s.limited->0).1
    } else if s.paused is Some {
        ContinuousAnalysisPhaseDto::Paused
    } else if empty_board_spec(s) {
        ContinuousAnalysisPhaseDto::EmptyBoard
    } else {
        match s.phase {
            EnginePhase::Ready(run) => if can_analyse_selected(run) {
                ContinuousAnalysisPhaseDto::Waiting
            } else {
                ContinuousAnalysisPhaseDto::Unavailable
            },
            EnginePhase::Switching { primary, .. } => if can_analyse_selected(primary) {
                ContinuousAnalysisPhaseDto::Waiting
            } else {
                ContinuousAnalysisPhaseDto::Unavailable
            },
            EnginePhase::NoEngine { failure } => if failure is Some {
                ContinuousAnalysisPhaseDto::Unavailable
            } else {
                ContinuousAnalysisPhaseDto::Waiting
            },
            EnginePhase::Error { .. } => ContinuousAnalysisPhaseDto::Error,
            _ => ContinuousAnalysisPhaseDto::Waiting,
        }
    }
}

fn run_can_analyse_selected(run: &EngineRunDto) -> (r: bool)
    ensures
        r == can_analyse_selected(*run),
{
    match &run.capability_snapshot {
        Some(c) => c.selected_node_analysis,
        None => false,
    }
}

/// What continuous analysis shows: the user's intent and the phase.
pub fn continuous_snapshot(s: &ContinuousState) -> (r: ContinuousAnalysisSnapshotDto)
    ensures
        r.enabled == s.intent,
        r.phase == continuous_phase_spec(*s),
{
    let empty_board = continuous_empty_board(s);
    let job_stopping = match &s.selected_job {
        Some(j) => j.state == AnalysisJobStateDto::Stopping,
        None => false,
    };
    let finite_runs = match &s.selected_job {
        Some(j) => j.mode == AnalysisJobModeDto::Finite && !j.state.is_limited(),
        None => false,
    };
    let continuous_job = match &s.selected_job {
        Some(j) => if j.mode == AnalysisJobModeDto::Continuous {
            Some(j.state)
        } else {
            None
        },
        None => None,
    };
    let limited_phase = match &s.limited {
        Some((_, p)) => Some(*p),
        None => None,
    };
    let phase = if s.departing {
        ContinuousAnalysisPhaseDto::Departing
    } else if matches!(s.phase, EnginePhase::Error { .. }) || s.error {
        ContinuousAnalysisPhaseDto::Error
    } else if job_stopping {
        ContinuousAnalysisPhaseDto::Stopping
    } else if finite_runs {
        ContinuousAnalysisPhaseDto::Finite
    } else if s.intent.is_none() {
        ContinuousAnalysisPhaseDto::Loading
    } else if s.intent == Some(false) {
        ContinuousAnalysisPhaseDto::Off
    } else if matches!(s.phase, EnginePhase::Stopping(_)) {
        ContinuousAnalysisPhaseDto::Stopping
    } else if s.safety_hold {
        ContinuousAnalysisPhaseDto::SafetyHold
    } else if continuous_job.is_some() {
        match continuous_job.unwrap() {
            AnalysisJobStateDto::Queued => ContinuousAnalysisPhaseDto::Queued,
            AnalysisJobStateDto::Searching => ContinuousAnalysisPhaseDto::Searching,
            AnalysisJobStateDto::Stopping => ContinuousAnalysisPhaseDto::Stopping,
            AnalysisJobStateDto::TimeLimited => ContinuousAnalysisPhaseDto::TimeLimited,
            AnalysisJobStateDto::VisitsLimited => ContinuousAnalysisPhaseDto::VisitsLimited,
        }
    } else if limited_phase.is_some() {
        limited_phase.unwrap()
    } else if s.paused.is_some() {
        ContinuousAnalysisPhaseDto::Paused
    } else if empty_board {
        ContinuousAnalysisPhaseDto::EmptyBoard
    } else {
        match &s.phase {
            EnginePhase::Ready(run) => if run_can_analyse_selected(run) {
                ContinuousAnalysisPhaseDto::Waiting
            } else {
                ContinuousAnalysisPhaseDto::Unavailable
            },
            EnginePhase::Switching { primary, .. } => if run_can_analyse_selected(primary) {
                ContinuousAnalysisPhaseDto::Waiting
            } else {
                ContinuousAnalysisPhaseDto::Unavailable
            },
            EnginePhase::NoEngine { failure } => if failure.is_some() {
                ContinuousAnalysisPhaseDto::Unavailable
            } else {
                ContinuousAnalysisPhaseDto::Waiting
            },
            EnginePhase::Error { .. } => ContinuousAnalysisPhaseDto::Error,
            _ => ContinuousAnalysisPhaseDto::Waiting,
        }
    };
    ContinuousAnalysisSnapshotDto { enabled: s.intent, phase }
}

pub open spec fn cleanup_message() -> Seq<char> {
    "continuous analysis is waiting for cancellation or departure cleanup"@
}

pub open spec fn loading_message() -> Seq<char> {
    "continuous analysis preference is still loading"@
}

pub open spec fn resume_message() -> Seq<char> {
    "continuous analysis Resume requires an enabled intent, Ready Run, current position, and an idle selected-node lane"@
}

/// Whether a hold keeps continuous analysis from restarting on its own.
pub open spec fn has_hold(s: ContinuousState) -> bool {
    s.limited is Some || s.paused is Some || s.error || s.safety_hold
}

/// How the continuous-analysis button answers, or why it is refused.
pub enum PrimaryActionSpec {
    Act(ContinuousPrimaryAction),
    Refused(Seq<char>),
    EngineFailed(EngineFailureDto),
}

/// The button is refused while cleanup is under way or the intent is not
/// known, and reports an engine error; beside a finite job it toggles the
/// intent; otherwise it starts when off, resumes when held and stops.
pub open spec fn primary_action_spec(s: ContinuousState) -> PrimaryActionSpec {
    if s.departing || s.finite_admission_pending || s.phase is Stopping || job_is_stopping(s) {
        PrimaryActionSpec::Refused(cleanup_message())
    } else if s.phase is Error {
        PrimaryActionSpec::EngineFailed(s.phase->Error_failure)
    } else if s.intent is None {
        PrimaryActionSpec::Refused(loading_message())
    } else if s.selected_job matches Some(j) && j.mode == AnalysisJobModeDto::Finite {
        PrimaryActionSpec::Act(
            if s.intent == Some(true) {
                ContinuousPrimaryAction::Stop
            } else {
                ContinuousPrimaryAction::Start
            },
        )
    } else if s.intent == Some(false) {
        PrimaryActionSpec::Act(ContinuousPrimaryAction::Start)
    } else if has_hold(s) {
        PrimaryActionSpec::Act(ContinuousPrimaryAction::Resume)
    } else {
        PrimaryActionSpec::Act(ContinuousPrimaryAction::Stop)
    }
}

pub open spec fn primary_result_matches(
    s: ContinuousState,
    r: Result<ContinuousPrimaryAction, EngineFailureDto>,
) -> bool {
    match primary_action_spec(s) {
        PrimaryActionSpec::Act(a) => r == Ok::<ContinuousPrimaryAction, EngineFailureDto>(a),
        PrimaryActionSpec::Refused(m) => r matches Err(f) && invalid_state_of(s.phase, m, f),
        PrimaryActionSpec::EngineFailed(f) => r == Err::<ContinuousPrimaryAction, EngineFailureDto>(f),
    }
}

/// What the continuous-analysis button does now.
pub fn continuous_primary_action(s: &ContinuousState) -> (r: Result<
    ContinuousPrimaryAction,
    EngineFailureDto,
>)
    ensures
        primary_result_matches(*s, r),
{
    let job_stopping = match &s.selected_job {
        Some(j) => j.state == AnalysisJobStateDto::Stopping,
        None => false,
    };
    if s.departing || s.finite_admission_pending || matches!(s.phase, EnginePhase::Stopping(_))
        || job_stopping {
        return Err(
            continuous_invalid_state(
                &s.phase,
                "continuous analysis is waiting for cancellation or departure cleanup",
            ),
        );
    }
    match &s.phase {
        EnginePhase::Error { failure, .. } => {
            return Err(failure.clone());
        },
        _ => {},
    }
    let enabled = match s.intent {
        Some(e) => e,
        None => {
            return Err(
                continuous_invalid_state(
                    &s.phase,
                    "continuous analysis preference is still loading",
                ),
            );
        },
    };
    let finite = match &s.selected_job {
        Some(j) => j.mode == AnalysisJobModeDto::Finite,
        None => false,
    };
    if finite {
        return Ok(
            if enabled {
                ContinuousPrimaryAction::Stop
            } else {
                ContinuousPrimaryAction::Start
            },
        );
    }
    if !enabled {
        return Ok(ContinuousPrimaryAction::Start);
    }
    if s.limited.is_some() || s.paused.is_some() || s.error || s.safety_hold {
        return Ok(ContinuousPrimaryAction::Resume);
    }
    Ok(ContinuousPrimaryAction::Stop)
}

/// Resume is allowed with the intent on, no departure, a ready run that can
/// analyse a selected node, no unfinished selected-node job, a followed
/// position and a board that is not held empty.
pub open spec fn resume_allowed(s: ContinuousState) -> bool {
    &&& s.intent == Some(true)
    &&& !s.departing
    &&& admitting_spec(s.phase) matches Some(run) && can_analyse_selected(run)
    &&& !(s.selected_job matches Some(j) && !limited_state(j.state))
    &&& s.target is Some
    &&& !empty_board_spec(s)
}

/// Whether continuous analysis is held off an empty board: the budget says
/// so and the followed position is empty.
pub fn continuous_empty_board(s: &ContinuousState) -> (r: bool)
    ensures
        r == empty_board_spec(*s),
{
    s.budget.continuous_stop_on_empty_board && match &s.target {
        Some(t) => t.position_empty,
        None => false,
    }
}

/// The jobs left once ended selected-node jobs are dropped.
pub open spec fn without_finished_selected(jobs: Seq<JobRecord>) -> Seq<JobRecord> {
    kept_jobs(jobs, JobSelectorView::FinishedSelected)
}

/// On a new position: drops the budget-limit and pause holds, and the ended
/// selected-node jobs.
pub fn clear_weak_holds_for_new_position(s: &mut ContinuousState, jobs: &mut Vec<JobRecord>)
    ensures
        *final(s) == (ContinuousState { limited: None, paused: None, ..*old(s) }),
        final(jobs)@ == without_finished_selected(old(jobs)@),
{
    s.limited = None;
    s.paused = None;
    drop_jobs(jobs, &JobSelector::FinishedSelected);
}

/// Drops the holds that keep continuous analysis from restarting, and the
/// ended selected-node jobs.
pub fn clear_resumable_holds(s: &mut ContinuousState, jobs: &mut Vec<JobRecord>)
    ensures
        *final(s) == (ContinuousState {
            limited: None,
            paused: None,
            error: false,
            safety_hold: false,
            ..*old(s)
        }),
        final(jobs)@ == without_finished_selected(old(jobs)@),
{
    s.limited = None;
    s.paused = None;
    s.error = false;
    s.safety_hold = false;
    drop_jobs(jobs, &JobSelector::FinishedSelected);
}

/// On a new run: drops the holds that belonged to the old one (all but the
/// safety hold), and the ended selected-node jobs.
pub fn clear_holds_for_new_run(s: &mut ContinuousState, jobs: &mut Vec<JobRecord>)
    ensures
        *final(s) == (ContinuousState { limited: None, paused: None, error: false, ..*old(s) }),
        final(jobs)@ == without_finished_selected(old(jobs)@),
{
    s.limited = None;
    s.paused = None;
    s.error = false;
    drop_jobs(jobs, &JobSelector::FinishedSelected);
}

/// Resumes continuous analysis by dropping its holds, or reports why it
/// cannot resume.
pub fn resume_continuous(s: &mut ContinuousState, jobs: &mut Vec<JobRecord>) -> (r: Result<
    (),
    EngineFailureDto,
>)
    ensures
        resume_allowed(*old(s)) ==> r is Ok && *final(s) == (ContinuousState {
            limited: None,
            paused: None,
            error: false,
            safety_hold: false,
            ..*old(s)
        }) && final(jobs)@ == without_finished_selected(old(jobs)@),
        !resume_allowed(*old(s)) ==> *final(s) == *old(s) && final(jobs)@ == old(jobs)@ && (r matches Err(f) && invalid_state_of(
            old(s).phase,
            resume_message(),
            f,
        )),
{
    let capable = match current_admitting_run(&s.phase) {
        Some(run) => run_can_analyse_selected(&run),
        None => false,
    };
    let busy = match &s.selected_job {
        Some(j) => !j.state.is_limited(),
        None => false,
    };
    let empty_board = continuous_empty_board(s);
    if s.intent != Some(true) || s.departing || !capable || busy || s.target.is_none()
        || empty_board {
        return Err(
            continuous_invalid_state(
                &s.phase,
                "continuous analysis Resume requires an enabled intent, Ready Run, current position, and an idle selected-node lane",
            ),
        );
    }
    clear_resumable_holds(s, jobs);
    Ok(())
}

/// Authorises automatic starts by dropping the holds, unless a departure, a
/// finite admission or a stopping job is in the way; says whether it did.
pub fn authorize_continuous_start(s: &mut ContinuousState, jobs: &mut Vec<JobRecord>) -> (r: bool)
    ensures
        r == !(old(s).departing || old(s).finite_admission_pending || job_is_stopping(*old(s))),
        r ==> *final(s) == (ContinuousState {
            limited: None,
            paused: None,
            error: false,
            safety_hold: false,
            ..*old(s)
        }) && final(jobs)@ == without_finished_selected(old(jobs)@),
        !r ==> *final(s) == *old(s) && final(jobs)@ == old(jobs)@,
{
    let job_stopping = match &s.selected_job {
        Some(j) => j.state == AnalysisJobStateDto::Stopping,
        None => false,
    };
    if s.departing || s.finite_admission_pending || job_stopping {
        return false;
    }
    clear_resumable_holds(s, jobs);
    true
}

/// Ends a document departure: a committed replacement drops the holds, an
/// abandoned one leaves continuous analysis on safety hold.
pub fn finish_continuous_departure(
    s: &mut ContinuousState,
    jobs: &mut Vec<JobRecord>,
    committed_replacement: bool,
)
    ensures
        committed_replacement ==> *final(s) == (ContinuousState {
            departing: false,
            limited: None,
            paused: None,
            error: false,
            safety_hold: false,
            ..*old(s)
        }) && final(jobs)@ == without_finished_selected(old(jobs)@),
        !committed_replacement ==> *final(s) == (ContinuousState {
            departing: false,
            safety_hold: true,
            ..*old(s)
        }) && final(jobs)@ == old(jobs)@,
{
    s.departing = false;
    if committed_replacement {
        clear_resumable_holds(s, jobs);
    } else {
        s.safety_hold = true;
    }
}

/// What reconciling continuous analysis asks of the manager.
#[derive(Debug, Clone, Copy, PartialEq, Eq, Structural)]
pub enum ReconcileStep {
    Nothing,
    /// The running selected-node job is at another position: supersede it.
    CancelActive,
    /// Register and submit a continuous job for the followed position.
    Submit,
}

/// A hold survives reconciliation only while it is for the admitting run
/// and the followed position.
pub open spec fn hold_matches(
    hold: ContinuousAdmission,
    run_id: Option<Seq<char>>,
    target: ContinuousTarget,
) -> bool {
    run_id == Some(hold.run_id@) && target.generation == hold.generation && target.node_path@
        == hold.node_path@
}

pub open spec fn admitting_run_id(phase: EnginePhase) -> Option<Seq<char>> {
    match admitting_spec(phase) {
        Some(run) => Some(run.run_id@),
        None => None,
    }
}

/// The holds after reconciliation: those that no longer match are dropped.
pub open spec fn reconciled_holds(s: ContinuousState) -> ContinuousState {
    let run_id = admitting_run_id(s.phase);
    let t = s.target->0;
    ContinuousState {
        limited: if s.limited matches Some(l) && !hold_matches(l.0, run_id, t) {
            None
        } else {
            s.limited
        },
        paused: if s.paused matches Some(p) && !hold_matches(p, run_id, t) {
            None
        } else {
            s.paused
        },
        ..s
    }
}

/// Reconciliation: nothing while a departure, a finite admission or the
/// absence of a followed position blocks it; a running job elsewhere is
/// superseded; otherwise stale holds are dropped and a job is submitted
/// when the intent is on, nothing holds, the board is not held empty and a
/// ready run can analyse a selected node.
pub open spec fn reconcile_spec(s: ContinuousState) -> (ContinuousState, ReconcileStep) {
    if s.departing || s.finite_admission_pending || s.target is None {
        (s, ReconcileStep::Nothing)
    } else if s.selected_job matches Some(j) && !limited_state(j.state) {
        let t = s.target->0;
        let j = s.selected_job->0;
        if j.generation == t.generation && j.node_path@ == t.node_path@ {
            (s, ReconcileStep::Nothing)
        } else {
            (s, ReconcileStep::CancelActive)
        }
    } else {
        let n = reconciled_holds(s);
        if n.intent != Some(true) || n.error || n.safety_hold || n.limited is Some || n.paused is Some
            || empty_board_spec(n) {
            (n, ReconcileStep::Nothing)
        } else if admitting_spec(n.phase) matches Some(run) && can_analyse_selected(run) {
            (n, ReconcileStep::Submit)
        } else {
            (n, ReconcileStep::Nothing)
        }
    }
}

/// The job is an ended selected-node job that the budget-limit hold `keep`
/// (if any) was not admitted for.
pub open spec fn prunable(job: JobRecord, keep: Option<ContinuousAdmission>) -> bool {
    &&& job.lane == AnalysisJobLaneDto::SelectedNode && job.terminal
    &&& !(keep matches Some(h) && h.run_id@ == job.run_id@ && h.generation == job.generation
        && h.node_path@ == job.node_path@)
}

/// The jobs once the ended selected-node jobs are dropped, but for the one
/// that the budget-limit hold `keep` stands on.
pub open spec fn pruned_jobs(jobs: Seq<JobRecord>, keep: Option<ContinuousAdmission>) -> Seq<
    JobRecord,
> {
    jobs.filter(|j: JobRecord| !prunable(j, keep))
}

/// The budget-limit hold of `s`, if any.
pub open spec fn limited_hold(s: ContinuousState) -> Option<ContinuousAdmission> {
    match s.limited {
        Some(l) => Some(l.0),
        None => None,
    }
}

/// Drops the ended selected-node jobs from `jobs`, keeping the one that the
/// hold `keep` was admitted for and the order of the others.
pub fn prune_ended_selected(jobs: &mut Vec<JobRecord>, keep: Option<&ContinuousAdmission>)
    ensures
        final(jobs)@ == pruned_jobs(
            old(jobs)@,
            match keep {
                Some(h) => Some(*h),
                None => None,
            },
        ),
{
    let ghost orig = old(jobs)@;
    let mut rest: Vec<JobRecord> = Vec::new();
    std::mem::swap(jobs, &mut rest);
    while rest.len() > 0
        invariant
            rest.len() <= orig.len(),
            rest@ == orig.skip(orig.len() - rest.len()),
            jobs@ == pruned_jobs(
                orig.take(orig.len() - rest.len()),
                match keep {
                    Some(h) => Some(*h),
                    None => None,
                },
            ),
        decreases rest.len(),
    {
        let ghost k = orig.len() - rest.len();
        let job = rest.remove(0);
        assert(job == orig[k]);
        assert(orig.take(k + 1).drop_last() =~= orig.take(k));
        assert(orig.take(k + 1).last() == orig[k]);
        proof {
            reveal(Seq::filter);
        }
        let kept_by_hold = match keep {
            Some(h) => h.matches_job(&job),
            None => false,
        };
        if !(job.lane == AnalysisJobLaneDto::SelectedNode && job.terminal && !kept_by_hold) {
            jobs.push(job);
        }
        assert(rest@ =~= orig.skip(k + 1));
    }
    assert(orig.take(orig.len() as int) =~= orig);
}

fn hold_matches_exec(
    hold: &ContinuousAdmission,
    run_id: &Option<String>,
    target: &ContinuousTarget,
) -> (r: bool)
    ensures
        r == hold_matches(*hold, opt_string_view(*run_id), *target),
{
    let run_matches = match run_id {
        Some(id) => str_eq(id.as_str(), hold.run_id.as_str()),
        None => false,
    };
    run_matches && same_position(
        hold.generation,
        &hold.node_path,
        target.generation,
        &target.node_path,
    )
}

/// Reconciliation prunes the jobs when it gets past the running job: once
/// the holds are settled, the ended selected-node jobs go, but for the one
/// the budget-limit hold stands on.
pub open spec fn reconcile_prunes(s: ContinuousState) -> bool {
    !(s.departing || s.finite_admission_pending || s.target is None) && !(s.selected_job matches Some(
        j,
    ) && !limited_state(j.state))
}

/// Brings continuous analysis in line with the followed position and says
/// what the manager must do.
pub fn reconcile_continuous(s: &mut ContinuousState, jobs: &mut Vec<JobRecord>) -> (r: ReconcileStep)
    ensures
        (*final(s), r) == reconcile_spec(*old(s)),
        final(jobs)@ == if reconcile_prunes(*old(s)) {
            pruned_jobs(old(jobs)@, limited_hold(reconcile_spec(*old(s)).0))
        } else {
            old(jobs)@
        },
{
    if s.departing || s.finite_admission_pending || s.target.is_none() {
        return ReconcileStep::Nothing;
    }
    let active = match &s.selected_job {
        Some(j) => if !j.state.is_limited() {
            Some((j.generation, j.node_path.clone()))
        } else {
            None
        },
        None => None,
    };
    match active {
        Some((generation, path)) => {
            let same = match &s.target {
                Some(t) => same_position(generation, &path, t.generation, &t.node_path),
                None => false,
            };
            if same {
                return ReconcileStep::Nothing;
            }
            return ReconcileStep::CancelActive;
        },
        None => {},
    }
    let ghost before = *s;
    let run_id: Option<String> = match current_admitting_run(&s.phase) {
        Some(run) => Some(run.run_id),
        None => None,
    };
    assert(opt_string_view(run_id) == admitting_run_id(s.phase));
    let (drop_limited, drop_paused, empty_board) = match &s.target {
        Some(target) => {
            let dl = match &s.limited {
                Some((hold, _)) => !hold_matches_exec(hold, &run_id, target),
                None => false,
            };
            let dp = match &s.paused {
                Some(hold) => !hold_matches_exec(hold, &run_id, target),
                None => false,
            };
            (dl, dp, s.budget.continuous_stop_on_empty_board && target.position_empty)
        },
        None => (false, false, false),
    };
    if drop_limited {
        s.limited = None;
    }
    if drop_paused {
        s.paused = None;
    }
    assert(*s == reconciled_holds(before));
    let keep: Option<&ContinuousAdmission> = match &s.limited {
        Some((hold, _)) => Some(hold),
        None => None,
    };
    prune_ended_selected(jobs, keep);
    if s.intent != Some(true) || s.error || s.safety_hold || s.limited.is_some() || s.paused.is_some()
        || empty_board {
        return ReconcileStep::Nothing;
    }
    let capable = match current_admitting_run(&s.phase) {
        Some(run) => run_can_analyse_selected(&run),
        None => false,
    };
    if capable {
        ReconcileStep::Submit
    } else {
        ReconcileStep::Nothing
    }
}

/// Reconciliation never submits work while anything holds continuous
/// analysis, and never while a departure is under way.
pub proof fn reconcile_submits_only_when_unheld(s: ContinuousState)
    requires
        reconcile_spec(s).1 == ReconcileStep::Submit,
    ensures
        !s.departing && !s.finite_admission_pending,
        s.intent == Some(true) && !s.error && !s.safety_hold,
        !empty_board_spec(s),
        reconcile_spec(s).0.limited is None && reconcile_spec(s).0.paused is None,
        !(s.selected_job matches Some(j) && !limited_state(j.state)),
{
}

/// While a document departure is under way the button is refused with the
/// cleanup message and the phase reads Departing.
pub proof fn departure_blocks_continuous_analysis(s: ContinuousState)
    requires
        s.departing,
    ensures
        primary_action_spec(s) == PrimaryActionSpec::Refused(cleanup_message()),
        continuous_phase_spec(s) == ContinuousAnalysisPhaseDto::Departing,
        !resume_allowed(s),
{
}

/// After a successful resume the button no longer offers Resume.
pub proof fn resumed_analysis_offers_no_resume(before: ContinuousState, after: ContinuousState)
    requires
        resume_allowed(before),
        after == (ContinuousState {
            limited: None,
            paused: None,
            error: false,
            safety_hold: false,
            ..before
        }),
    ensures
        primary_action_spec(after) != PrimaryActionSpec::Act(ContinuousPrimaryAction::Resume),
        !has_hold(after),
{
}

/// An abandoned departure leaves the phase on safety hold unless an error,
/// a stopping job, a finite job, the intent or a stopping engine outranks it.
pub proof fn abandoned_departure_holds_safety(before: ContinuousState, after: ContinuousState)
    requires
        after == (ContinuousState { departing: false, safety_hold: true, ..before }),
        !(after.phase is Error) && !after.error && !job_is_stopping(after) && !finite_job_runs(
            after,
        ),
        after.intent == Some(true) && !(after.phase is Stopping),
    ensures
        continuous_phase_spec(after) == ContinuousAnalysisPhaseDto::SafetyHold,
{
}

/// With the intent on, nothing being cleaned up, no engine error and no
/// finite selected-node job, the button resumes exactly when something holds
/// continuous analysis (a budget limit, a pause, a latched error or the
/// safety hold) and stops otherwise.
pub proof fn held_analysis_offers_resume(
    s: ContinuousState,
    r: Result<ContinuousPrimaryAction, EngineFailureDto>,
)
    requires
        primary_result_matches(s, r),
        s.intent == Some(true),
        !s.departing && !s.finite_admission_pending,
        !(s.phase is Stopping) && !(s.phase is Error),
        !(s.selected_job matches Some(j) && (j.state == AnalysisJobStateDto::Stopping || j.mode
            == AnalysisJobModeDto::Finite)),
    ensures
        s.limited is Some ==> r == Ok::<ContinuousPrimaryAction, EngineFailureDto>(
            ContinuousPrimaryAction::Resume,
        ),
        s.paused is Some || s.error || s.safety_hold ==> r == Ok::<
            ContinuousPrimaryAction,
            EngineFailureDto,
        >(ContinuousPrimaryAction::Resume),
        s.limited is None && s.paused is None && !s.error && !s.safety_hold ==> r == Ok::<
            ContinuousPrimaryAction,
            EngineFailureDto,
        >(ContinuousPrimaryAction::Stop),
{
}

} // verus!
