use lizzieyzy_next::analysis_job::{AnalysisJobLaneDto, AnalysisJobOutcomeDto};
use lizzieyzy_next::analysis_task::{
    AnalysisScopeDto, AnalysisScopeModeDto, AnalysisTaskDto, AnalysisTaskStageDto,
    AnalysisTaskStateDto, AnalysisTaskStrategyDto,
};
use lizzieyzy_next::engine::{single_stage_conditions, EnginePhase};
use lizzieyzy_next::engine::continuous::{
    clear_holds_for_new_run, clear_resumable_holds, clear_weak_holds_for_new_position,
    continuous_empty_board, AnalysisJobModeDto, AnalysisJobStateDto, ContinuousAnalysisPhaseDto,
    ContinuousState, ContinuousTarget,
};
use lizzieyzy_next::engine::job_end::{
    cancel_jobs_for_current, cancel_jobs_for_run, finish_failed_job, finish_selected_node_job,
    finish_whole_game_job, SelectedJobEnd,
};
use lizzieyzy_next::engine::tasks::{fail_analysis_task_locked, invalidate_analysis_task_locked};
use lizzieyzy_next::engine::jobs::{
    drop_jobs, find_job, started_from, ContinuousAdmission, JobDisposition, JobRecord, JobSelector,
};
use lizzieyzy_next::preferences::ContinuousAnalysisBudgetDto;
use lizzieyzy_next::model::{
    EngineBackend, EngineCapabilitySnapshotDto, EngineFailureDto, EngineFailureKind,
    EngineOperationDto, EngineProfileDto, EngineRunDto, NodePath,
};

fn run(id: &str) -> EngineRunDto {
    EngineRunDto {
        run_id: id.into(),
        profile_id: "default".into(),
        adapter_kind: EngineBackend::KataGoAnalysis,
        profile_snapshot: EngineProfileDto {
            name: "Local KataGo".into(),
            engine_path: String::new(),
            model_path: None,
            config_path: None,
            working_dir: None,
            backend: EngineBackend::KataGoAnalysis,
        },
        capability_snapshot: Some(EngineCapabilitySnapshotDto {
            adapter_kind: EngineBackend::KataGoAnalysis,
            selected_node_analysis: true,
            whole_game_analysis: true,
            protocol_cancel: true,
        }),
    }
}

fn state() -> ContinuousState {
    ContinuousState {
        phase: EnginePhase::Ready(run("run-1")),
        departing: false,
        finite_admission_pending: false,
        selected_job: None,
        intent: Some(true),
        limited: None,
        paused: None,
        error: false,
        safety_hold: false,
        budget: ContinuousAnalysisBudgetDto::default(),
        target: Some(ContinuousTarget {
            generation: 1,
            node_path: NodePath { indices: vec![0] },
            position_empty: false,
        }),
    }
}

fn job(id: &str, run_id: &str, lane: AnalysisJobLaneDto, mode: AnalysisJobModeDto) -> JobRecord {
    JobRecord {
        job_id: id.into(),
        run_id: run_id.into(),
        query_id: format!("{id}:q"),
        lane,
        mode,
        state: AnalysisJobStateDto::Searching,
        generation: 4,
        node_path: NodePath { indices: vec![2] },
        disposition: JobDisposition::Running,
        expected: None,
        current_index: 0,
        submitted: true,
        submitted_at_ms: 0,
        cancel_deadline_ms: None,
        continuous_budget: None,
        pending_ending_conditions: Vec::new(),
        terminal: false,
        item_paths: Vec::new(),
    }
}

fn selected(id: &str, mode: AnalysisJobModeDto) -> JobRecord {
    job(id, "run-1", AnalysisJobLaneDto::SelectedNode, mode)
}

fn whole(id: &str, run_id: &str, current_index: usize) -> JobRecord {
    JobRecord {
        expected: Some(3),
        current_index,
        item_paths: vec![
            NodePath { indices: vec![] },
            NodePath { indices: vec![0] },
            NodePath { indices: vec![0, 0] },
        ],
        ..job(id, run_id, AnalysisJobLaneDto::WholeGame, AnalysisJobModeDto::Finite)
    }
}

fn ids(jobs: &[JobRecord]) -> Vec<&str> {
    jobs.iter().map(|job| job.job_id.as_str()).collect()
}

fn task_of(job_id: &str, state: AnalysisTaskStateDto) -> AnalysisTaskDto {
    AnalysisTaskDto {
        task_id: "t".into(),
        run_id: "run-1".into(),
        job_id: job_id.into(),
        generation: 1,
        scope: AnalysisScopeDto {
            mode: AnalysisScopeModeDto::FirstChildMainline,
            current_node: NodePath { indices: vec![] },
            branch_choices: vec![],
            interval: None,
            to_play: None,
        },
        strategy: AnalysisTaskStrategyDto::SingleStage,
        stage: AnalysisTaskStageDto::SingleStage,
        conditions: single_stage_conditions(800),
        overview_conditions: None,
        requested: vec![NodePath { indices: vec![] }],
        overview_completed: vec![],
        completed: vec![],
        overview_summaries: vec![],
        state,
        reason: None,
        ending_conditions: vec![],
    }
}

fn failure() -> EngineFailureDto {
    EngineFailureDto {
        operation: EngineOperationDto::Job,
        run_id: Some("run-1".into()),
        switch_id: None,
        job_id: None,
        profile_id: None,
        kind: EngineFailureKind::Protocol,
        message: "broken line".into(),
        diagnostic_summary: None,
    }
}

#[test]
fn dropping_jobs_keeps_the_others_in_order() {
    let mut jobs = vec![
        selected("a", AnalysisJobModeDto::Finite),
        whole("b", "run-2", 0),
        selected("a", AnalysisJobModeDto::Continuous),
        whole("c", "run-1", 0),
    ];
    drop_jobs(&mut jobs, &JobSelector::WithId("a".into()));
    assert_eq!(ids(&jobs), vec!["b", "c"]);
    drop_jobs(&mut jobs, &JobSelector::OfRun("run-1".into()));
    assert_eq!(ids(&jobs), vec!["b"]);

    let mut ended = vec![selected("x", AnalysisJobModeDto::Finite), whole("y", "run-1", 0)];
    ended[0].terminal = true;
    ended[1].terminal = true;
    drop_jobs(&mut ended, &JobSelector::FinishedSelected);
    assert_eq!(ids(&ended), vec!["y"]);
}

#[test]
fn jobs_are_found_by_id_and_run() {
    let jobs = vec![whole("a", "run-2", 0), whole("a", "run-1", 0), whole("b", "run-1", 0)];
    assert_eq!(find_job(&jobs, "a", Some("run-1")), 1);
    assert_eq!(find_job(&jobs, "a", None), 0);
    assert_eq!(find_job(&jobs, "c", None), 3);
}

#[test]
fn holds_are_cleared_with_ended_selected_jobs() {
    let held = ContinuousState {
        limited: Some((
            ContinuousAdmission { run_id: "run-1".into(), generation: 1, node_path: NodePath::default() },
            ContinuousAnalysisPhaseDto::TimeLimited,
        )),
        paused: Some(ContinuousAdmission {
            run_id: "run-1".into(),
            generation: 1,
            node_path: NodePath::default(),
        }),
        error: true,
        safety_hold: true,
        ..state()
    };
    let mut ended = selected("old", AnalysisJobModeDto::Continuous);
    ended.terminal = true;
    let listed = vec![ended, selected("live", AnalysisJobModeDto::Continuous)];

    let (mut s, mut jobs) = (held.clone(), listed.clone());
    clear_weak_holds_for_new_position(&mut s, &mut jobs);
    assert!(s.limited.is_none() && s.paused.is_none() && s.error && s.safety_hold);
    assert_eq!(ids(&jobs), vec!["live"]);

    let (mut s, mut jobs) = (held.clone(), listed.clone());
    clear_holds_for_new_run(&mut s, &mut jobs);
    assert!(s.limited.is_none() && s.paused.is_none() && !s.error && s.safety_hold);
    assert_eq!(ids(&jobs), vec!["live"]);

    let (mut s, mut jobs) = (held, listed);
    clear_resumable_holds(&mut s, &mut jobs);
    assert!(s.limited.is_none() && s.paused.is_none() && !s.error && !s.safety_hold);
    assert_eq!(ids(&jobs), vec!["live"]);
}

#[test]
fn an_empty_board_holds_only_when_the_budget_says_so() {
    let mut s = state();
    assert!(!continuous_empty_board(&s));
    s.target.as_mut().unwrap().position_empty = true;
    assert!(continuous_empty_board(&s));
    s.budget.continuous_stop_on_empty_board = false;
    assert!(!continuous_empty_board(&s));
}

#[test]
fn a_limited_continuous_search_stays_listed_and_holds_analysis() {
    let mut s = state();
    let mut jobs = vec![selected("c", AnalysisJobModeDto::Continuous)];
    assert!(finish_selected_node_job(&mut s, &mut jobs, "c", "run-1", Some(SelectedJobEnd::VisitsLimited)));
    let (admission, phase) = s.limited.clone().unwrap();
    assert_eq!(phase, ContinuousAnalysisPhaseDto::VisitsLimited);
    assert_eq!((admission.run_id.as_str(), admission.generation), ("run-1", 4));
    assert_eq!(jobs.len(), 1);
    assert!(jobs[0].terminal);
    assert_eq!(jobs[0].state, AnalysisJobStateDto::VisitsLimited);
}

#[test]
fn selected_job_ends_latch_errors_pause_or_only_drop() {
    let mut s = state();
    let mut jobs = vec![selected("f", AnalysisJobModeDto::Finite)];
    assert!(finish_selected_node_job(&mut s, &mut jobs, "f", "run-1", Some(SelectedJobEnd::Outcome(AnalysisJobOutcomeDto::Timeout))));
    assert!(s.error && jobs.is_empty());

    let mut s = state();
    let mut jobs = vec![selected("f", AnalysisJobModeDto::Finite)];
    assert!(finish_selected_node_job(&mut s, &mut jobs, "f", "run-1", Some(SelectedJobEnd::Outcome(AnalysisJobOutcomeDto::Cancelled))));
    assert_eq!(s.paused.as_ref().map(|a| a.generation), Some(4));
    assert!(!s.error && jobs.is_empty());

    let mut s = state();
    let mut jobs = vec![selected("c", AnalysisJobModeDto::Continuous)];
    assert!(finish_selected_node_job(&mut s, &mut jobs, "c", "run-1", Some(SelectedJobEnd::Outcome(AnalysisJobOutcomeDto::Timeout))));
    assert!(!s.error && s.paused.is_none() && jobs.is_empty());

    let mut s = state();
    let mut jobs = vec![selected("c", AnalysisJobModeDto::Continuous)];
    assert!(!finish_selected_node_job(&mut s, &mut jobs, "c", "run-2", Some(SelectedJobEnd::Outcome(AnalysisJobOutcomeDto::Failed))));
    assert!(!finish_selected_node_job(&mut s, &mut jobs, "c", "run-1", None));
    assert!(!s.error && jobs.len() == 1);
}

#[test]
fn a_whole_game_end_reports_where_the_job_stood() {
    let mut task = Some(task_of("w", AnalysisTaskStateDto::Searching));
    let mut jobs = vec![whole("w", "run-1", 7)];
    let path = finish_whole_game_job(&mut task, &mut jobs, "w", "run-1", AnalysisJobOutcomeDto::Cancelled, None);
    assert_eq!(path, Some(NodePath { indices: vec![0, 0] }));
    assert_eq!(task.unwrap().state, AnalysisTaskStateDto::Cancelled);
    assert!(jobs.is_empty());

    let mut none = None;
    let mut jobs = vec![whole("w", "run-1", 1)];
    assert_eq!(finish_whole_game_job(&mut none, &mut jobs, "w", "run-9", AnalysisJobOutcomeDto::Completed, None), None);
    assert_eq!(jobs.len(), 1);
}

#[test]
fn a_paused_task_keeps_its_ended_job() {
    let mut task = Some(task_of("w", AnalysisTaskStateDto::Pausing));
    let mut jobs = vec![whole("w", "run-1", 1)];
    jobs[0].terminal = true;
    let path = finish_whole_game_job(&mut task, &mut jobs, "w", "run-1", AnalysisJobOutcomeDto::Cancelled, None);
    assert_eq!(path, Some(NodePath { indices: vec![0] }));
    assert_eq!(task.unwrap().state, AnalysisTaskStateDto::Paused);
    assert_eq!(jobs.len(), 1);
    assert!(jobs[0].terminal);
}

#[test]
fn failed_jobs_end_with_their_failure() {
    let mut s = state();
    let mut task = None;
    let mut jobs = vec![selected("s", AnalysisJobModeDto::Continuous)];
    let started = started_from(&jobs[0]);
    let event = finish_failed_job(&mut s, &mut task, &mut jobs, &started, failure()).unwrap();
    assert_eq!(event.outcome, AnalysisJobOutcomeDto::Failed);
    assert_eq!(event.failure, Some(failure()));
    assert!(s.error && jobs.is_empty());

    let mut s = state();
    let mut task = Some(task_of("w", AnalysisTaskStateDto::Searching));
    let mut jobs = vec![whole("w", "run-1", 1)];
    let started = started_from(&jobs[0]);
    let event = finish_failed_job(&mut s, &mut task, &mut jobs, &started, failure()).unwrap();
    assert_eq!((event.completed, event.expected, event.remaining), (Some(1), Some(3), Some(2)));
    assert_eq!(event.node_path, NodePath { indices: vec![0] });
    assert_eq!(task.unwrap().state, AnalysisTaskStateDto::Failed);
    assert!(!s.error && jobs.is_empty());

    let mut gone = Vec::new();
    assert!(finish_failed_job(&mut state(), &mut None, &mut gone, &started, failure()).is_none());
}

#[test]
fn cancelling_a_run_ends_each_live_job_and_keeps_other_runs() {
    let mut s = state();
    let mut task = Some(task_of("w", AnalysisTaskStateDto::Searching));
    let mut done = selected("done", AnalysisJobModeDto::Finite);
    done.terminal = true;
    let mut jobs = vec![
        selected("f", AnalysisJobModeDto::Finite),
        whole("other", "run-2", 0),
        whole("w", "run-1", 2),
        done,
        selected("c", AnalysisJobModeDto::Continuous),
    ];
    let cancelled = cancel_jobs_for_run(&mut s, &mut task, &mut jobs, "run-1");
    assert_eq!(cancelled.query_ids, vec!["f:q", "w:q", "c:q"]);
    assert_eq!(
        cancelled.events.iter().map(|e| (e.job_id.as_str(), e.outcome)).collect::<Vec<_>>(),
        vec![
            ("f", AnalysisJobOutcomeDto::Cancelled),
            ("w", AnalysisJobOutcomeDto::Cancelled),
            ("c", AnalysisJobOutcomeDto::Cancelled),
        ]
    );
    assert_eq!(cancelled.events[1].remaining, Some(1));
    assert_eq!(ids(&jobs), vec!["other"]);
    assert_eq!(s.paused.as_ref().map(|a| a.run_id.as_str()), Some("run-1"));
    assert_eq!(task.unwrap().state, AnalysisTaskStateDto::Cancelled);
}

#[test]
fn cancelling_without_a_run_changes_nothing() {
    let mut s = state();
    let mut task = None;
    let mut jobs = vec![selected("f", AnalysisJobModeDto::Finite)];
    let none = EnginePhase::NoEngine { failure: None };
    assert!(cancel_jobs_for_current(&none, &mut s, &mut task, &mut jobs).is_none());
    assert_eq!(jobs.len(), 1);
    let ready = EnginePhase::Ready(run("run-1"));
    let cancelled = cancel_jobs_for_current(&ready, &mut s, &mut task, &mut jobs).unwrap();
    assert_eq!(cancelled.query_ids, vec!["f:q"]);
    assert!(jobs.is_empty());
}

#[test]
fn failing_or_invalidating_a_task_drops_its_ended_jobs() {
    let mut kept = whole("w", "run-1", 1);
    kept.terminal = true;
    let listed = vec![kept, whole("w2", "run-1", 0)];

    let mut task = Some(task_of("w", AnalysisTaskStateDto::Paused));
    let mut jobs = listed.clone();
    assert!(fail_analysis_task_locked(&mut task, &mut jobs, None, "engine stopped responding"));
    assert_eq!(ids(&jobs), vec!["w2"]);

    let mut task = Some(task_of("w", AnalysisTaskStateDto::Completed));
    let mut jobs = listed.clone();
    assert!(invalidate_analysis_task_locked(&mut task, &mut jobs, "document changed"));
    assert_eq!(ids(&jobs), vec!["w2"]);

    let mut task = Some(task_of("w", AnalysisTaskStateDto::Cancelled));
    let mut jobs = listed;
    assert!(!invalidate_analysis_task_locked(&mut task, &mut jobs, "document changed"));
    assert_eq!(jobs.len(), 2);
}
