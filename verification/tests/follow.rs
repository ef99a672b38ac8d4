use lizzieyzy_next::analysis_job::AnalysisJobLaneDto;
use lizzieyzy_next::analysis_task::{
    AnalysisScopeDto, AnalysisScopeModeDto, AnalysisTaskDto, AnalysisTaskStageDto,
    AnalysisTaskStateDto, AnalysisTaskStrategyDto,
};
use lizzieyzy_next::engine::{single_stage_conditions, EnginePhase};
use lizzieyzy_next::engine::continuous::{
    AnalysisJobModeDto, AnalysisJobStateDto, ContinuousAnalysisPhaseDto, ContinuousState,
    ContinuousTarget,
};
use lizzieyzy_next::engine::follow::{
    begin_continuous_departure, clear_continuous_position, follow_continuous_position,
    selected_job_status, set_continuous_preferences, PreferenceStep,
};
use lizzieyzy_next::engine::jobs::{ContinuousAdmission, JobDisposition, JobRecord};
use lizzieyzy_next::engine::requests::SelectedNodeJobRequest;
use lizzieyzy_next::katago::{analysis_query_from_position, AnalysisQueryOptions};
use lizzieyzy_next::model::PlayerColor;
use lizzieyzy_next::preferences::ContinuousAnalysisBudgetDto;
use lizzieyzy_next::model::{
    EngineBackend, EngineCapabilitySnapshotDto, EngineProfileDto, EngineRunDto, NodePath,
};

fn run(id: &str) -> EngineRunDto {
    EngineRunDto {
        run_id: id.into(),
        profile_id: "default".into(),
        adapter_kind: EngineBackend::KataGoAnalysis,
        profile_snapshot: EngineProfileDto {
            name: "Local KataGo".into(),
            engine_path: String::new(),
            model_path: None,
            config_path: None,
            working_dir: None,
            backend: EngineBackend::KataGoAnalysis,
        },
        capability_snapshot: Some(EngineCapabilitySnapshotDto {
            adapter_kind: EngineBackend::KataGoAnalysis,
            selected_node_analysis: true,
            whole_game_analysis: true,
            protocol_cancel: true,
        }),
    }
}

fn state() -> ContinuousState {
    ContinuousState {
        phase: EnginePhase::Ready(run("run-1")),
        departing: false,
        finite_admission_pending: false,
        selected_job: None,
        intent: Some(true),
        limited: None,
        paused: None,
        error: false,
        safety_hold: false,
        budget: ContinuousAnalysisBudgetDto::default(),
        target: Some(ContinuousTarget {
            generation: 1,
            node_path: NodePath { indices: vec![0] },
            position_empty: false,
        }),
    }
}

fn job(id: &str, run_id: &str, lane: AnalysisJobLaneDto, mode: AnalysisJobModeDto) -> JobRecord {
    JobRecord {
        job_id: id.into(),
        run_id: run_id.into(),
        query_id: format!("{id}:q"),
        lane,
        mode,
        state: AnalysisJobStateDto::Searching,
        generation: 4,
        node_path: NodePath { indices: vec![2] },
        disposition: JobDisposition::Running,
        expected: None,
        current_index: 0,
        submitted: true,
        submitted_at_ms: 0,
        cancel_deadline_ms: None,
        continuous_budget: None,
        pending_ending_conditions: Vec::new(),
        terminal: false,
        item_paths: Vec::new(),
    }
}

fn selected(id: &str, mode: AnalysisJobModeDto) -> JobRecord {
    job(id, "run-1", AnalysisJobLaneDto::SelectedNode, mode)
}

fn ids(jobs: &[JobRecord]) -> Vec<&str> {
    jobs.iter().map(|job| job.job_id.as_str()).collect()
}

fn task_of(job_id: &str, state: AnalysisTaskStateDto) -> AnalysisTaskDto {
    AnalysisTaskDto {
        task_id: "t".into(),
        run_id: "run-1".into(),
        job_id: job_id.into(),
        generation: 1,
        scope: AnalysisScopeDto {
            mode: AnalysisScopeModeDto::FirstChildMainline,
            current_node: NodePath { indices: vec![] },
            branch_choices: vec![],
            interval: None,
            to_play: None,
        },
        strategy: AnalysisTaskStrategyDto::SingleStage,
        stage: AnalysisTaskStageDto::SingleStage,
        conditions: single_stage_conditions(800),
        overview_conditions: None,
        requested: vec![NodePath { indices: vec![] }],
        overview_completed: vec![],
        completed: vec![],
        overview_summaries: vec![],
        state,
        reason: None,
        ending_conditions: vec![],
    }
}

fn held() -> ContinuousState {
    let admission = ContinuousAdmission {
        run_id: "run-1".into(),
        generation: 1,
        node_path: NodePath { indices: vec![0] },
    };
    ContinuousState {
        limited: Some((admission.clone(), ContinuousAnalysisPhaseDto::TimeLimited)),
        paused: Some(admission),
        ..state()
    }
}

fn ended_and_live() -> Vec<JobRecord> {
    let mut ended = selected("ended", AnalysisJobModeDto::Continuous);
    ended.terminal = true;
    vec![ended, selected("live", AnalysisJobModeDto::Continuous)]
}

#[test]
fn invalid_budgets_are_refused_and_unchanged_preferences_do_nothing() {
    let mut s = held();
    let mut jobs = ended_and_live();
    let bad = ContinuousAnalysisBudgetDto { continuous_visits_limit: 0, ..ContinuousAnalysisBudgetDto::default() };
    let err = set_continuous_preferences(&mut s, &mut jobs, false, bad).unwrap_err();
    assert!(err.starts_with("Continuous analysis limits"));
    assert_eq!(s.intent, Some(true));
    let same = set_continuous_preferences(&mut s, &mut jobs, true, ContinuousAnalysisBudgetDto::default());
    assert!(matches!(same, Ok(PreferenceStep::Unchanged)));
    assert!(s.limited.is_some() && jobs.len() == 2);
}

#[test]
fn turning_analysis_off_cancels_the_continuous_search_and_keeps_holds() {
    let mut s = held();
    let mut jobs = ended_and_live();
    let step = set_continuous_preferences(&mut s, &mut jobs, false, ContinuousAnalysisBudgetDto::default()).unwrap();
    match step {
        PreferenceStep::Applied { stop: Some((started, disposition)) } => {
            assert_eq!(started.job_id, "live");
            assert_eq!(disposition, JobDisposition::Cancelled);
        }
        other => panic!("unexpected step: {other:?}"),
    }
    assert_eq!(s.intent, Some(false));
    assert!(s.limited.is_some() && jobs.len() == 2);
}

#[test]
fn a_new_budget_supersedes_the_search_and_drops_weak_holds() {
    let mut s = held();
    let mut jobs = ended_and_live();
    let budget = ContinuousAnalysisBudgetDto { continuous_time_limit_seconds: 30, ..ContinuousAnalysisBudgetDto::default() };
    let step = set_continuous_preferences(&mut s, &mut jobs, true, budget).unwrap();
    match step {
        PreferenceStep::Applied { stop: Some((started, disposition)) } => {
            assert_eq!(started.job_id, "live");
            assert_eq!(disposition, JobDisposition::Superseded);
        }
        other => panic!("unexpected step: {other:?}"),
    }
    assert_eq!(s.budget, budget);
    assert!(s.limited.is_none() && s.paused.is_none());
    assert_eq!(ids(&jobs), vec!["live"]);
}

#[test]
fn following_a_new_position_stops_work_elsewhere() {
    let mut s = held();
    let mut jobs = ended_and_live();
    let elsewhere = ContinuousTarget { generation: 4, node_path: NodePath { indices: vec![3] }, position_empty: false };
    let step = follow_continuous_position(&mut s, &mut jobs, elsewhere);
    assert!(step.publish);
    assert_eq!(step.stop.map(|st| st.job_id), Some("live".to_string()));
    assert!(s.limited.is_none() && s.paused.is_none());
    assert_eq!(ids(&jobs), vec!["live"]);
    assert_eq!(s.target.as_ref().map(|t| t.node_path.clone()), Some(NodePath { indices: vec![3] }));
}

#[test]
fn following_the_job_position_keeps_it_running() {
    let mut s = state();
    s.target = None;
    let mut jobs = vec![selected("live", AnalysisJobModeDto::Continuous)];
    let here = ContinuousTarget { generation: 4, node_path: NodePath { indices: vec![2] }, position_empty: false };
    let step = follow_continuous_position(&mut s, &mut jobs, here.clone());
    assert!(step.publish && step.stop.is_none());
    let again = follow_continuous_position(&mut s, &mut jobs, here);
    assert!(!again.publish && again.stop.is_none());
}

#[test]
fn clearing_the_position_stops_the_current_search() {
    let mut s = held();
    let mut jobs = ended_and_live();
    let step = clear_continuous_position(&mut s, &mut jobs);
    assert!(step.publish);
    assert_eq!(step.stop.map(|st| st.job_id), Some("live".to_string()));
    assert!(s.target.is_none() && s.limited.is_none());
    let mut idle = state();
    idle.target = None;
    let step = clear_continuous_position(&mut idle, &mut Vec::new());
    assert!(!step.publish && step.stop.is_none());
}

#[test]
fn a_departure_cancels_the_task_once() {
    let mut s = state();
    let mut task = Some(task_of("w", AnalysisTaskStateDto::Paused));
    let mut kept = selected("w", AnalysisJobModeDto::Finite);
    kept.terminal = true;
    let mut jobs = vec![kept, selected("live", AnalysisJobModeDto::Continuous)];
    assert!(begin_continuous_departure(&mut s, &mut task, &mut jobs));
    assert!(s.departing);
    assert_eq!(task.as_ref().unwrap().state, AnalysisTaskStateDto::Cancelled);
    assert_eq!(ids(&jobs), vec!["live"]);
    assert!(!begin_continuous_departure(&mut s, &mut task, &mut jobs));
}

#[test]
fn a_selected_node_request_names_the_position_to_follow() {
    let query = analysis_query_from_position(
        9,
        6.5f32.to_bits(),
        &Vec::new(),
        PlayerColor::Black,
        AnalysisQueryOptions {
            id: "q".into(),
            rules: "japanese".into(),
            turn: 0,
            max_visits: None,
            include_ownership: None,
            include_policy: None,
        },
    )
    .unwrap();
    let request = SelectedNodeJobRequest {
        run_id: "run-1".into(),
        mode: AnalysisJobModeDto::Continuous,
        generation: 4,
        node_path: NodePath { indices: vec![2] },
        query,
        board_size: 9,
        position_empty: true,
    };
    let target = request.target();
    assert_eq!((target.generation, target.position_empty), (4, true));
    let mut s = state();
    let mut jobs = vec![selected("live", AnalysisJobModeDto::Continuous)];
    let step = follow_continuous_position(&mut s, &mut jobs, target);
    assert!(step.publish && step.stop.is_none());
}

#[test]
fn selected_job_status_reads_the_last_current_selected_job() {
    let mut ended = job("j1", "run-1", AnalysisJobLaneDto::SelectedNode, AnalysisJobModeDto::Finite);
    ended.terminal = true;
    let mut limited = job("j2", "run-1", AnalysisJobLaneDto::SelectedNode, AnalysisJobModeDto::Continuous);
    limited.terminal = true;
    limited.state = AnalysisJobStateDto::VisitsLimited;
    limited.generation = 7;
    limited.node_path = NodePath { indices: vec![1, 3] };
    let whole = job("j3", "run-1", AnalysisJobLaneDto::WholeGame, AnalysisJobModeDto::Finite);
    let status = selected_job_status(&vec![ended.clone(), limited, whole.clone()]).expect("current job");
    assert_eq!(status.mode, AnalysisJobModeDto::Continuous);
    assert_eq!(status.state, AnalysisJobStateDto::VisitsLimited);
    assert_eq!(status.generation, 7);
    assert_eq!(status.node_path, NodePath { indices: vec![1, 3] });
    assert!(selected_job_status(&vec![ended, whole]).is_none());
}
