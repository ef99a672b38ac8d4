use lizzieyzy_next::analysis_job::AnalysisJobOutcomeDto;
use lizzieyzy_next::analysis_task::{
    AnalysisScopeDto, AnalysisScopeModeDto, AnalysisStageConditionsDto, AnalysisTaskDto,
    AnalysisTaskLimitDto, AnalysisTaskStageDto, AnalysisTaskStateDto, AnalysisTaskStrategyDto,
};
use lizzieyzy_next::engine::{
    active_task_conditions, admitting_run, continuous_invalid_state, current_admitting_run,
    current_run_id, empty_whole_game_failure, failure, invalid_task_conditions, same_position,
    single_stage_conditions, validate_selected_admission, EnginePhase, ForegroundEngineConfig,
};
use lizzieyzy_next::engine::jobs::{
    admit_analysis_task, continue_check, new_analysis_task, pause_step, requeue_task, PauseStep,
};
use lizzieyzy_next::engine::response_id::{extract_response_id, response_id_from};
use lizzieyzy_next::engine::tasks::{
    cancel_analysis_task_locked, fail_analysis_task_locked, finish_analysis_task_locked,
    invalidate_analysis_task_locked, mark_analysis_task_searching, record_analysis_task_completion,
};
use lizzieyzy_next::model::{
    AnalysisFrameDto, EngineBackend, EngineCapabilitySnapshotDto, EngineFailureDto,
    EngineFailureKind, EngineOperationDto, EngineProfileDto, EngineRunDto, NodePath,
};
use std::time::Duration;

fn run(id: &str, selected_node: bool) -> EngineRunDto {
    EngineRunDto {
        run_id: id.into(),
        profile_id: "default".into(),
        adapter_kind: EngineBackend::KataGoAnalysis,
        profile_snapshot: EngineProfileDto {
            name: "Local KataGo".into(),
            engine_path: String::new(),
            model_path: None,
            config_path: None,
            working_dir: None,
            backend: EngineBackend::KataGoAnalysis,
        },
        capability_snapshot: Some(EngineCapabilitySnapshotDto {
            adapter_kind: EngineBackend::KataGoAnalysis,
            selected_node_analysis: selected_node,
            whole_game_analysis: true,
            protocol_cancel: true,
        }),
    }
}

fn path(indices: &[u32]) -> NodePath {
    NodePath { indices: indices.to_vec() }
}

fn task(state: AnalysisTaskStateDto, stage: AnalysisTaskStageDto) -> AnalysisTaskDto {
    AnalysisTaskDto {
        task_id: "task-1".into(),
        run_id: "run-1".into(),
        job_id: "job-1".into(),
        generation: 1,
        scope: AnalysisScopeDto {
            mode: AnalysisScopeModeDto::FirstChildMainline,
            current_node: path(&[]),
            branch_choices: vec![],
            interval: None,
            to_play: None,
        },
        strategy: AnalysisTaskStrategyDto::SingleStage,
        stage,
        conditions: single_stage_conditions(800),
        overview_conditions: None,
        requested: vec![path(&[]), path(&[0])],
        overview_completed: vec![],
        completed: vec![],
        overview_summaries: vec![],
        state,
        reason: None,
        ending_conditions: vec![],
    }
}

fn frame() -> AnalysisFrameDto {
    AnalysisFrameDto {
        job_id: uuid::Uuid::nil(),
        game_id: None,
        node_id: None,
        turn: 1,
        visits: 10,
        winrate_black_bits: 0.5f32.to_bits(),
        score_mean_black_bits: 0.0f32.to_bits(),
        score_stdev_bits: None,
        candidates: vec![],
        ownership_bits: None,
        policy_bits: None,
    }
}

#[test]
fn test_config_uses_short_budgets() {
    let c = ForegroundEngineConfig::for_tests();
    assert_eq!(c.readiness_timeout, Duration::from_secs(2));
    assert_eq!(c.stop_drain_timeout, Duration::from_millis(400));
    assert_eq!(c.job_timeout, Duration::from_millis(800));
    assert!(c.admit_whole_game_analysis);
    let d = ForegroundEngineConfig::default();
    assert_eq!(d.readiness_timeout, Duration::from_secs(30));
    assert_eq!(d.stop_drain_timeout, Duration::from_secs(2));
    assert_eq!(d.job_timeout, Duration::from_secs(60));
}

#[test]
fn phases_name_their_runs() {
    let none = EnginePhase::NoEngine { failure: None };
    assert_eq!(current_run_id(&none), None);
    assert_eq!(current_admitting_run(&none), None);
    let starting = EnginePhase::Starting(run("r1", true));
    assert_eq!(current_run_id(&starting).as_deref(), Some("r1"));
    assert_eq!(current_admitting_run(&starting), None);
    let ready = EnginePhase::Ready(run("r1", true));
    assert_eq!(current_admitting_run(&ready), Some(run("r1", true)));
    assert_eq!(admitting_run(&ready, "r1"), Some(run("r1", true)));
    assert_eq!(admitting_run(&ready, "r2"), None);
    let switching = EnginePhase::Switching {
        primary: run("p", true),
        candidate: run("c", true),
        switch_id: "s".into(),
    };
    assert_eq!(current_run_id(&switching).as_deref(), Some("p"));
    assert_eq!(admitting_run(&switching, "c"), None);
    assert_eq!(admitting_run(&switching, "p"), Some(run("p", true)));
    let stopping = EnginePhase::Stopping(run("r3", true));
    assert_eq!(current_run_id(&stopping).as_deref(), Some("r3"));
    assert_eq!(admitting_run(&stopping, "r3"), None);
}

#[test]
fn positions_match_by_generation_and_path() {
    assert!(same_position(3, &path(&[0, 1]), 3, &path(&[0, 1])));
    assert!(!same_position(3, &path(&[0, 1]), 4, &path(&[0, 1])));
    assert!(!same_position(3, &path(&[0, 1]), 3, &path(&[0])));
}

#[test]
fn failures_carry_their_scope() {
    let f = failure(
        EngineOperationDto::Start,
        EngineFailureKind::Asset,
        "missing model".into(),
        Some("run-1"),
        Some("default"),
        Some("detail".into()),
    );
    assert_eq!(
        f,
        EngineFailureDto {
            operation: EngineOperationDto::Start,
            run_id: Some("run-1".into()),
            switch_id: None,
            job_id: None,
            profile_id: Some("default".into()),
            kind: EngineFailureKind::Asset,
            message: "missing model".into(),
            diagnostic_summary: Some("detail".into()),
        }
    );
    let empty = empty_whole_game_failure("run-2");
    assert_eq!(empty.kind, EngineFailureKind::InvalidState);
    assert_eq!(
        empty.message,
        "whole-game analysis requires a captured first-child mainline worklist"
    );
    assert_eq!(empty.run_id.as_deref(), Some("run-2"));
    let invalid = invalid_task_conditions("run-3", "bad".into());
    assert_eq!(invalid.message, "bad");
    assert_eq!(invalid.operation, EngineOperationDto::Job);
    let cis = continuous_invalid_state(&EnginePhase::Ready(run("r9", true)), "later");
    assert_eq!(cis.run_id.as_deref(), Some("r9"));
    assert_eq!(cis.message, "later");
}

#[test]
fn single_stage_limits_total_visits_only() {
    assert_eq!(
        single_stage_conditions(64),
        AnalysisStageConditionsDto {
            time_seconds: AnalysisTaskLimitDto { enabled: false, value: 10 },
            total_visits: AnalysisTaskLimitDto { enabled: true, value: 64 },
            leading_candidate_visits: AnalysisTaskLimitDto { enabled: false, value: 500 },
        }
    );
    let mut t = task(AnalysisTaskStateDto::Queued, AnalysisTaskStageDto::Overview);
    assert_eq!(active_task_conditions(&t), None);
    t.overview_conditions = Some(single_stage_conditions(32));
    assert_eq!(active_task_conditions(&t), Some(&single_stage_conditions(32)));
    t.stage = AnalysisTaskStageDto::Deep;
    assert_eq!(active_task_conditions(&t), Some(&single_stage_conditions(800)));
}

#[test]
fn selected_node_admission_checks_in_order() {
    let ready = EnginePhase::Ready(run("r1", true));
    let p = path(&[0]);
    let departing = validate_selected_admission(true, None, &ready, "r1", 1, &p).unwrap_err();
    assert_eq!(departing.message, "document departure is in progress");
    assert_eq!(departing.run_id.as_deref(), Some("r1"));
    let moved = validate_selected_admission(false, Some((2, &p)), &ready, "r1", 1, &p).unwrap_err();
    assert_eq!(moved.message, "selected-node position changed during admission");
    assert_eq!(validate_selected_admission(false, Some((1, &p)), &ready, "r1", 1, &p), Ok(run("r1", true)));
    let other = validate_selected_admission(false, None, &ready, "r2", 1, &p).unwrap_err();
    assert_eq!(other.kind, EngineFailureKind::InvalidState);
    assert_eq!(other.run_id.as_deref(), Some("r2"));
    let incapable = EnginePhase::Ready(run("r1", false));
    let unsupported = validate_selected_admission(false, None, &incapable, "r1", 1, &p).unwrap_err();
    assert_eq!(unsupported.kind, EngineFailureKind::UnsupportedCapability);
    assert_eq!(unsupported.profile_id.as_deref(), Some("default"));
}

#[test]
fn task_moves_from_queued_to_searching_to_completed() {
    let mut t = Some(task(AnalysisTaskStateDto::Queued, AnalysisTaskStageDto::SingleStage));
    mark_analysis_task_searching(&mut t, "other-job");
    assert_eq!(t.as_ref().unwrap().state, AnalysisTaskStateDto::Queued);
    mark_analysis_task_searching(&mut t, "job-1");
    assert_eq!(t.as_ref().unwrap().state, AnalysisTaskStateDto::Searching);
    record_analysis_task_completion(&mut t, "job-1", &path(&[0]), &frame(), vec!["visits".into()]);
    record_analysis_task_completion(&mut t, "job-1", &path(&[0]), &frame(), vec![]);
    record_analysis_task_completion(&mut t, "job-1", &path(&[5]), &frame(), vec!["x".into()]);
    assert_eq!(t.as_ref().unwrap().completed, vec![path(&[0])]);
    assert!(t.as_ref().unwrap().ending_conditions.is_empty());
    finish_analysis_task_locked(&mut t, "job-1", AnalysisJobOutcomeDto::Completed, None);
    assert_eq!(t.as_ref().unwrap().state, AnalysisTaskStateDto::Failed);
    assert_eq!(
        t.as_ref().unwrap().reason.as_deref(),
        Some("Analysis task ended before every requested position produced a result.")
    );

    let mut t = Some(task(AnalysisTaskStateDto::Searching, AnalysisTaskStageDto::SingleStage));
    record_analysis_task_completion(&mut t, "job-1", &path(&[]), &frame(), vec![]);
    record_analysis_task_completion(&mut t, "job-1", &path(&[0]), &frame(), vec![]);
    finish_analysis_task_locked(&mut t, "job-1", AnalysisJobOutcomeDto::Completed, None);
    assert_eq!(t.as_ref().unwrap().state, AnalysisTaskStateDto::Completed);
    assert_eq!(t.as_ref().unwrap().reason, None);
}

#[test]
fn overview_results_keep_their_frames() {
    let mut t = Some(task(AnalysisTaskStateDto::Searching, AnalysisTaskStageDto::Overview));
    record_analysis_task_completion(&mut t, "job-1", &path(&[0]), &frame(), vec![]);
    record_analysis_task_completion(&mut t, "job-1", &path(&[0]), &frame(), vec![]);
    let t = t.unwrap();
    assert_eq!(t.overview_completed, vec![path(&[0])]);
    assert_eq!(t.overview_summaries.len(), 1);
    assert_eq!(t.overview_summaries[0].node_path, path(&[0]));
    assert_eq!(t.overview_summaries[0].frame.turn, 1);
    assert!(t.completed.is_empty());
}

#[test]
fn job_ends_move_the_task() {
    let mut pausing = Some(task(AnalysisTaskStateDto::Pausing, AnalysisTaskStageDto::SingleStage));
    finish_analysis_task_locked(&mut pausing, "job-1", AnalysisJobOutcomeDto::Cancelled, None);
    assert_eq!(pausing.as_ref().unwrap().state, AnalysisTaskStateDto::Paused);

    let mut running = Some(task(AnalysisTaskStateDto::Searching, AnalysisTaskStageDto::SingleStage));
    let f = failure(EngineOperationDto::Job, EngineFailureKind::Timeout, "too slow".into(), None, None, None);
    finish_analysis_task_locked(&mut running, "job-1", AnalysisJobOutcomeDto::Timeout, Some(&f));
    assert_eq!(running.as_ref().unwrap().state, AnalysisTaskStateDto::Failed);
    assert_eq!(running.as_ref().unwrap().reason.as_deref(), Some("too slow"));

    let mut superseded = Some(task(AnalysisTaskStateDto::Searching, AnalysisTaskStageDto::SingleStage));
    finish_analysis_task_locked(&mut superseded, "job-1", AnalysisJobOutcomeDto::Superseded, None);
    assert_eq!(superseded.as_ref().unwrap().state, AnalysisTaskStateDto::Invalidated);

    let mut cancelled = Some(task(AnalysisTaskStateDto::Queued, AnalysisTaskStageDto::SingleStage));
    finish_analysis_task_locked(&mut cancelled, "job-1", AnalysisJobOutcomeDto::Cancelled, None);
    assert_eq!(cancelled.as_ref().unwrap().reason.as_deref(), Some("Analysis task was cancelled."));
    let before = cancelled.clone();
    finish_analysis_task_locked(&mut cancelled, "job-1", AnalysisJobOutcomeDto::Completed, None);
    assert_eq!(cancelled, before);

    let mut progress = Some(task(AnalysisTaskStateDto::Searching, AnalysisTaskStageDto::SingleStage));
    let before = progress.clone();
    finish_analysis_task_locked(&mut progress, "job-1", AnalysisJobOutcomeDto::Progress, None);
    assert_eq!(progress, before);
}

#[test]
fn cancel_fail_and_invalidate_apply_only_where_they_should() {
    let mut t = Some(task(AnalysisTaskStateDto::Paused, AnalysisTaskStageDto::SingleStage));
    cancel_analysis_task_locked(&mut t, "job-2");
    assert_eq!(t.as_ref().unwrap().state, AnalysisTaskStateDto::Paused);
    cancel_analysis_task_locked(&mut t, "job-1");
    assert_eq!(t.as_ref().unwrap().state, AnalysisTaskStateDto::Cancelled);
    assert!(!invalidate_analysis_task_locked(&mut t, &mut Vec::new(), "moved"));
    assert!(!fail_analysis_task_locked(&mut t, &mut Vec::new(), None, "boom"));

    let mut done = Some(task(AnalysisTaskStateDto::Completed, AnalysisTaskStageDto::SingleStage));
    assert!(!fail_analysis_task_locked(&mut done, &mut Vec::new(), Some("job-1"), "boom"));
    assert!(invalidate_analysis_task_locked(&mut done, &mut Vec::new(), "document changed"));
    assert_eq!(done.as_ref().unwrap().state, AnalysisTaskStateDto::Invalidated);
    assert_eq!(done.as_ref().unwrap().reason.as_deref(), Some("document changed"));

    let mut live = Some(task(AnalysisTaskStateDto::Searching, AnalysisTaskStageDto::SingleStage));
    assert!(!fail_analysis_task_locked(&mut live, &mut Vec::new(), Some("job-9"), "boom"));
    assert!(fail_analysis_task_locked(&mut live, &mut Vec::new(), Some("job-1"), "boom"));
    assert_eq!(live.as_ref().unwrap().state, AnalysisTaskStateDto::Failed);

    let mut none: Option<AnalysisTaskDto> = None;
    assert!(!invalidate_analysis_task_locked(&mut none, &mut Vec::new(), "x"));
    assert!(none.is_none());
}

#[test]
fn response_ids_come_from_json_or_from_a_scan() {
    assert_eq!(extract_response_id(r#"{"id":"q-1","turnNumber":2}"#).as_deref(), Some("q-1"));
    assert_eq!(extract_response_id(r#"{"id": 7}"#), None);
    assert_eq!(extract_response_id(r#"{"turnNumber":2}"#), None);
    assert_eq!(extract_response_id(r#"garbage "id":"q-2" tail"#).as_deref(), Some("q-2"));
    assert_eq!(extract_response_id(r#"{"id":"","x":"#), None);
    assert_eq!(extract_response_id(r#"{"id":"open"#), None);
    assert_eq!(response_id_from(Some(Some("a".into())), "whatever"), Some("a".to_string()));
    assert_eq!(response_id_from(Some(None), r#"x "id":"b""#), None);
    assert_eq!(response_id_from(None, r#"x "id":"b""#), Some("b".to_string()));
}

#[test]
fn analysis_tasks_are_admitted_in_order() {
    let ready = EnginePhase::Ready(run("r1", true));
    assert_eq!(admit_analysis_task(&ready, "r1", 2, &None, None), Ok(run("r1", true)));
    let empty = admit_analysis_task(&ready, "r1", 0, &None, None).unwrap_err();
    assert_eq!(
        empty.message,
        "whole-game analysis requires a captured first-child mainline worklist"
    );
    let other = admit_analysis_task(&ready, "r2", 2, &None, None).unwrap_err();
    assert_eq!(other.message, "Analysis Job admission requires a Ready Foreground Engine Run");
    let mut no_whole = run("r1", true);
    no_whole.capability_snapshot.as_mut().unwrap().whole_game_analysis = false;
    let unsupported = admit_analysis_task(&EnginePhase::Ready(no_whole), "r1", 2, &None, None).unwrap_err();
    assert_eq!(unsupported.kind, EngineFailureKind::UnsupportedCapability);
    let paused = Some(task(AnalysisTaskStateDto::Paused, AnalysisTaskStageDto::SingleStage));
    let owned = admit_analysis_task(&ready, "r1", 2, &paused, None).unwrap_err();
    assert_eq!(owned.kind, EngineFailureKind::Occupied);
    assert_eq!(owned.message, "The paused analysis task still owns this lane; Continue or Cancel it.");
    let busy = admit_analysis_task(&ready, "r1", 2, &None, Some("job-7")).unwrap_err();
    assert_eq!(busy.job_id.as_deref(), Some("job-7"));
    assert_eq!(busy.profile_id.as_deref(), Some("default"));
}

#[test]
fn new_tasks_start_queued_in_their_first_stage() {
    let t = new_analysis_task(
        "t".into(),
        "r".into(),
        "j".into(),
        3,
        task(AnalysisTaskStateDto::Queued, AnalysisTaskStageDto::SingleStage).scope,
        AnalysisTaskStrategyDto::AllPositionsTwoStage,
        Some(single_stage_conditions(32)),
        single_stage_conditions(800),
        vec![path(&[])],
    );
    assert_eq!(t.stage, AnalysisTaskStageDto::Overview);
    assert_eq!(t.state, AnalysisTaskStateDto::Queued);
    assert_eq!(t.requested, vec![path(&[])]);
    assert!(t.completed.is_empty() && t.reason.is_none());
}

#[test]
fn pause_and_continue_check_the_task() {
    let ready = EnginePhase::Ready(run("run-1", true));
    let searching = Some(task(AnalysisTaskStateDto::Searching, AnalysisTaskStageDto::SingleStage));
    assert_eq!(pause_step(&searching, &ready, "run-1", "task-1"), Ok(PauseStep::StopJob("job-1".into())));
    let pausing = Some(task(AnalysisTaskStateDto::Pausing, AnalysisTaskStageDto::SingleStage));
    assert_eq!(pause_step(&pausing, &ready, "run-1", "task-1"), Ok(PauseStep::AlreadyPaused));
    assert_eq!(
        pause_step(&searching, &ready, "run-1", "task-2").unwrap_err().message,
        "Analysis task identity is no longer current."
    );
    let done = Some(task(AnalysisTaskStateDto::Completed, AnalysisTaskStageDto::SingleStage));
    assert_eq!(
        pause_step(&done, &ready, "run-1", "task-1").unwrap_err().message,
        "Pause requires an active analysis task."
    );
    let paused = Some(task(AnalysisTaskStateDto::Paused, AnalysisTaskStageDto::SingleStage));
    assert_eq!(continue_check(&paused, &ready, false, false, "run-1", "task-1", 1), Ok("job-1".to_string()));
    assert_eq!(
        continue_check(&paused, &ready, false, false, "run-1", "task-1", 2).unwrap_err().message,
        "Continue requires the same paused task and game."
    );
    assert_eq!(
        continue_check(&paused, &ready, true, false, "run-1", "task-1", 1).unwrap_err().message,
        "Continue is blocked by Run or departure state."
    );
    let mut t = paused.unwrap();
    t.reason = Some("paused".into());
    requeue_task(&mut t, "job-2".into());
    assert_eq!(t.job_id, "job-2");
    assert_eq!(t.state, AnalysisTaskStateDto::Queued);
    assert_eq!(t.reason, None);
}
