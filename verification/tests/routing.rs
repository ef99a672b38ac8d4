use lizzieyzy_next::analysis_job::{AnalysisJobLaneDto, AnalysisJobOutcomeDto};
use lizzieyzy_next::analysis_task::{
    AnalysisScopeDto, AnalysisScopeModeDto, AnalysisTaskDto, AnalysisTaskStageDto,
    AnalysisTaskStateDto, AnalysisTaskStrategyDto,
};
use lizzieyzy_next::engine::single_stage_conditions;
use lizzieyzy_next::engine::continuous::{AnalysisJobModeDto, AnalysisJobStateDto};
use lizzieyzy_next::engine::jobs::{JobDisposition, JobRecord};
use lizzieyzy_next::engine::lifecycle::{readiness_step, ReadinessEvent, ReadinessOutcome};
use lizzieyzy_next::engine::routing::{
    whole_game_line_step, WholeGameAction, WholeGameLine,
    advance_after_result, begin_budget_stop, budget_stop_reason, job_failure_message,
    unparseable_message,
    route_response, run_failure_message, warns_of_required_setting, whole_game_step, AdvanceStep,
    JobFailure, LineStep, ResponseSummary, RoutedJob, RunFailure, SelectedFinal, WholeGameStep,
};
use lizzieyzy_next::model::{
    EngineBackend, EngineFailureKind, EngineOperationDto, EngineProfileDto, EngineRunDto, NodePath,
};
use lizzieyzy_next::preferences::ContinuousAnalysisBudgetDto;

fn summary() -> ResponseSummary {
    ResponseSummary {
        parsed: true,
        action: false,
        during_search: Some(false),
        warning: None,
        field: None,
        visits: 50,
        no_results: false,
        has_moves: true,
        valid_result: true,
    }
}

fn finite() -> RoutedJob {
    RoutedJob {
        lane: AnalysisJobLaneDto::SelectedNode,
        mode: AnalysisJobModeDto::Finite,
        state: AnalysisJobStateDto::Searching,
        disposition: JobDisposition::Running,
        budget: None,
    }
}

fn continuous(visits_limit: Option<u32>, time_limit: bool) -> RoutedJob {
    RoutedJob {
        mode: AnalysisJobModeDto::Continuous,
        budget: Some(ContinuousAnalysisBudgetDto {
            continuous_time_limit_enabled: time_limit,
            continuous_time_limit_seconds: 10,
            continuous_visits_limit_enabled: visits_limit.is_some(),
            continuous_visits_limit: visits_limit.unwrap_or(100),
            continuous_stop_on_empty_board: true,
        }),
        ..finite()
    }
}

#[test]
fn finite_finals_complete_and_progress_needs_data() {
    assert_eq!(
        route_response(&finite(), &summary()),
        LineStep::Finish { outcome: SelectedFinal::Completed, has_data: true }
    );
    let during = ResponseSummary { during_search: Some(true), ..summary() };
    assert_eq!(
        route_response(&finite(), &during),
        LineStep::Progress { has_data: true, publish_event: false }
    );
    let empty = ResponseSummary { has_moves: false, ..during.clone() };
    assert_eq!(route_response(&finite(), &empty), LineStep::Ignore);
    let action = ResponseSummary { action: true, ..summary() };
    assert_eq!(route_response(&finite(), &action), LineStep::Ignore);
}

#[test]
fn unparseable_lines_fail_the_job_or_the_run() {
    let bad = ResponseSummary { parsed: false, ..summary() };
    assert_eq!(route_response(&finite(), &bad), LineStep::UnparseableFailsJob);
    assert_eq!(route_response(&continuous(None, true), &bad), LineStep::UnparseableFailsRun);
    let stopping = RoutedJob { state: AnalysisJobStateDto::Stopping, disposition: JobDisposition::Cancelled, ..finite() };
    assert_eq!(route_response(&stopping, &bad), LineStep::Ignore);
    assert_eq!(
        route_response(&stopping, &summary()),
        LineStep::FinishStopped(AnalysisJobOutcomeDto::Cancelled)
    );
    let superseded = RoutedJob { disposition: JobDisposition::Superseded, ..stopping };
    assert_eq!(
        route_response(&superseded, &summary()),
        LineStep::FinishStopped(AnalysisJobOutcomeDto::Superseded)
    );
}

#[test]
fn continuous_finals_end_at_a_limit() {
    let s = ResponseSummary { visits: 120, ..summary() };
    assert_eq!(
        route_response(&continuous(Some(100), true), &s),
        LineStep::Finish { outcome: SelectedFinal::VisitsLimited, has_data: true }
    );
    assert_eq!(
        route_response(&continuous(Some(200), true), &s),
        LineStep::Finish { outcome: SelectedFinal::TimeLimited, has_data: true }
    );
    assert_eq!(
        route_response(&continuous(Some(200), false), &s),
        LineStep::FailJob(JobFailure::EndedBeforeLimit)
    );
    let marker = ResponseSummary { during_search: None, ..s.clone() };
    assert_eq!(
        route_response(&continuous(None, true), &marker),
        LineStep::FailRun(RunFailure::MissingProgressMarker)
    );
    let invalid = ResponseSummary { valid_result: false, ..s.clone() };
    assert_eq!(
        route_response(&continuous(None, true), &invalid),
        LineStep::FailRun(RunFailure::InvalidValues)
    );
    let nothing = ResponseSummary { visits: 0, ..s };
    assert_eq!(
        route_response(&continuous(None, true), &nothing),
        LineStep::FailJob(JobFailure::NoValidAnalysis)
    );
}

#[test]
fn ignored_required_settings_fail_whole_game_and_continuous_runs() {
    let warned = ResponseSummary {
        warning: Some("Unused field".into()),
        field: Some("overrideSettings.maxTime".into()),
        ..summary()
    };
    assert_eq!(route_response(&finite(), &warned), LineStep::Ignore);
    assert_eq!(
        route_response(&continuous(None, true), &warned),
        LineStep::FailRun(RunFailure::IgnoredSetting)
    );
    let harmless = ResponseSummary { warning: Some("something else".into()), ..summary() };
    assert_eq!(route_response(&continuous(None, true), &harmless), LineStep::Ignore);
    assert!(warns_of_required_setting("ignored maxPlayouts", &None));
    assert!(!warns_of_required_setting("ignored komi", &Some("rules".into())));
    assert_eq!(
        run_failure_message(RunFailure::IgnoredSetting, "bad"),
        "required analysis setting was ignored: bad"
    );
    assert_eq!(
        job_failure_message(JobFailure::EndedBeforeLimit),
        "continuous search ended before an enabled limit"
    );
}

#[test]
fn whole_game_lines_route_to_their_lane() {
    let whole = RoutedJob { lane: AnalysisJobLaneDto::WholeGame, ..finite() };
    assert_eq!(route_response(&whole, &summary()), LineStep::RouteWholeGame);
    let no_marker = ResponseSummary { during_search: None, ..summary() };
    assert_eq!(
        route_response(&whole, &no_marker),
        LineStep::FailRun(RunFailure::NoValidTargetFinal)
    );
    let budget = RoutedJob { disposition: JobDisposition::BudgetReached, state: AnalysisJobStateDto::Stopping, ..whole };
    let empty = ResponseSummary { has_moves: false, ..summary() };
    assert_eq!(
        route_response(&budget, &empty),
        LineStep::FailRun(RunFailure::NoValidTargetFinal)
    );
}

#[test]
fn whole_game_steps() {
    let none: Vec<String> = vec![];
    let visits = vec!["total visits".to_string()];
    assert_eq!(whole_game_step(true, true, &visits, JobDisposition::Running, &none), WholeGameStep::BeginBudgetStop);
    assert_eq!(whole_game_step(true, true, &visits, JobDisposition::BudgetReached, &none), WholeGameStep::Snapshot);
    assert_eq!(whole_game_step(true, true, &none, JobDisposition::Running, &none), WholeGameStep::Snapshot);
    assert_eq!(whole_game_step(false, true, &none, JobDisposition::Running, &visits), WholeGameStep::RecordResult);
    assert_eq!(whole_game_step(false, false, &visits, JobDisposition::Running, &none), WholeGameStep::FailNoValidAnalysis);
    assert_eq!(whole_game_step(false, true, &none, JobDisposition::Running, &none), WholeGameStep::FailNoValidAnalysis);
    assert_eq!(
        budget_stop_reason(&vec!["total visits".into(), "time".into()]),
        "Stopping after reaching total visits and time."
    );
    assert_eq!(budget_stop_reason(&vec!["time".into()]), "Stopping after reaching time.");
}

fn whole_job(index: usize) -> JobRecord {
    JobRecord {
        job_id: "job-1".into(),
        run_id: "run-1".into(),
        query_id: "q".into(),
        lane: AnalysisJobLaneDto::WholeGame,
        mode: AnalysisJobModeDto::Finite,
        state: AnalysisJobStateDto::Searching,
        generation: 1,
        node_path: NodePath { indices: vec![] },
        disposition: JobDisposition::BudgetReached,
        expected: Some(2),
        current_index: index,
        submitted: true,
        submitted_at_ms: 0,
        cancel_deadline_ms: None,
        continuous_budget: None,
        pending_ending_conditions: Vec::new(),
        terminal: false,
        item_paths: vec![NodePath { indices: vec![] }, NodePath { indices: vec![0] }],
    }
}

fn two_stage_task() -> AnalysisTaskDto {
    AnalysisTaskDto {
        task_id: "t".into(),
        run_id: "run-1".into(),
        job_id: "job-1".into(),
        generation: 1,
        scope: AnalysisScopeDto {
            mode: AnalysisScopeModeDto::FirstChildMainline,
            current_node: NodePath { indices: vec![] },
            branch_choices: vec![],
            interval: None,
            to_play: None,
        },
        strategy: AnalysisTaskStrategyDto::AllPositionsTwoStage,
        stage: AnalysisTaskStageDto::Overview,
        conditions: single_stage_conditions(800),
        overview_conditions: Some(single_stage_conditions(32)),
        requested: vec![NodePath { indices: vec![] }, NodePath { indices: vec![0] }],
        overview_completed: vec![],
        completed: vec![],
        overview_summaries: vec![],
        state: AnalysisTaskStateDto::Searching,
        reason: Some("x".into()),
        ending_conditions: vec!["visits".into()],
    }
}

#[test]
fn whole_game_jobs_advance_then_start_the_deep_stage() {
    let mut job = whole_job(0);
    let mut task = Some(two_stage_task());
    job.cancel_deadline_ms = Some(9);
    assert_eq!(advance_after_result(&mut job, 2, &mut task, "job-1:b".into(), 70), AdvanceStep::Next);
    assert_eq!(job.current_index, 1);
    assert_eq!(job.disposition, JobDisposition::Running);
    assert_eq!(job.cancel_deadline_ms, None);
    assert_eq!(job.query_id, "job-1:b");
    assert_eq!(job.node_path, NodePath { indices: vec![0] });
    assert_eq!(job.state, AnalysisJobStateDto::Queued);
    assert!(!job.submitted);
    assert_eq!(job.submitted_at_ms, 70);
    assert_eq!(task.as_ref().unwrap().state, AnalysisTaskStateDto::Queued);
    assert!(task.as_ref().unwrap().reason.is_none());
    assert_eq!(task.as_ref().unwrap().stage, AnalysisTaskStageDto::Overview);
    assert_eq!(advance_after_result(&mut job, 2, &mut task, "job-1:c".into(), 80), AdvanceStep::BeginDeep);
    assert_eq!(job.current_index, 0);
    assert_eq!(job.query_id, "job-1:c");
    assert_eq!(job.node_path, NodePath { indices: vec![] });
    let t = task.as_ref().unwrap();
    assert_eq!(t.stage, AnalysisTaskStageDto::Deep);
    assert_eq!(t.state, AnalysisTaskStateDto::Queued);
    assert!(t.reason.is_none() && t.ending_conditions.is_empty());
    job.current_index = 1;
    assert_eq!(advance_after_result(&mut job, 2, &mut task, "job-1:d".into(), 90), AdvanceStep::Finished);
    assert_eq!(job.current_index, 2);
    assert_eq!(job.query_id, "job-1:c");
    let mut stopping = whole_job(0);
    stopping.disposition = JobDisposition::Running;
    begin_budget_stop(&mut stopping, vec!["visits".into()], 100);
    assert_eq!(stopping.disposition, JobDisposition::BudgetReached);
    assert_eq!(stopping.state, AnalysisJobStateDto::Stopping);
    assert_eq!(stopping.cancel_deadline_ms, Some(5_100));
    assert_eq!(stopping.pending_ending_conditions, vec!["visits".to_string()]);
}

fn run() -> EngineRunDto {
    EngineRunDto {
        run_id: "r1".into(),
        profile_id: "p1".into(),
        adapter_kind: EngineBackend::KataGoAnalysis,
        profile_snapshot: EngineProfileDto {
            name: "Local KataGo".into(),
            engine_path: String::new(),
            model_path: None,
            config_path: None,
            working_dir: None,
            backend: EngineBackend::KataGoAnalysis,
        },
        capability_snapshot: None,
    }
}

#[test]
fn readiness_waits_for_the_probe_answer() {
    let op = EngineOperationDto::Start;
    assert!(matches!(readiness_step(ReadinessEvent::Idle, op, &run(), "probe"), ReadinessOutcome::Wait));
    assert!(matches!(readiness_step(ReadinessEvent::Superseded, op, &run(), "probe"), ReadinessOutcome::Abandon));
    let line = |text: &str, parsed: Result<String, String>| ReadinessEvent::Line { line: text.into(), parsed };
    assert!(matches!(
        readiness_step(line("  ", Err("eof".into())), op, &run(), "probe"),
        ReadinessOutcome::Wait
    ));
    assert!(matches!(
        readiness_step(line("{\"id\":\"probe\"}", Ok("probe".into())), op, &run(), "probe"),
        ReadinessOutcome::Ready
    ));
    assert!(matches!(
        readiness_step(line("{\"id\":\"other\"}", Ok("other".into())), op, &run(), "probe"),
        ReadinessOutcome::Wait
    ));
    assert!(matches!(
        readiness_step(line("garbage", Err("bad".into())), op, &run(), "probe"),
        ReadinessOutcome::Wait
    ));
    match readiness_step(line(" probe garbage ", Err("bad json".into())), op, &run(), "probe") {
        ReadinessOutcome::Fail(f) => {
            assert_eq!(f.kind, EngineFailureKind::Protocol);
            assert_eq!(f.message, "readiness probe response was not parseable: bad json");
            assert_eq!(f.diagnostic_summary.as_deref(), Some("probe garbage"));
            assert_eq!(f.profile_id.as_deref(), Some("p1"));
        }
        other => panic!("expected a failure, got {other:?}"),
    }
    match readiness_step(ReadinessEvent::TimedOut, op, &run(), "probe") {
        ReadinessOutcome::Fail(f) => {
            assert_eq!(f.kind, EngineFailureKind::Timeout);
            assert_eq!(f.message, "engine readiness probe timed out");
            assert_eq!(f.run_id.as_deref(), Some("r1"));
        }
        other => panic!("expected a failure, got {other:?}"),
    }
    match readiness_step(ReadinessEvent::Closed, op, &run(), "probe") {
        ReadinessOutcome::Fail(f) => assert_eq!(f.kind, EngineFailureKind::Readiness),
        other => panic!("expected a failure, got {other:?}"),
    }
    match readiness_step(ReadinessEvent::ReadError("broken pipe".into()), op, &run(), "probe") {
        ReadinessOutcome::Fail(f) => assert_eq!(f.message, "failed to read engine stdout: broken pipe"),
        other => panic!("expected a failure, got {other:?}"),
    }
}

#[test]
fn failure_messages_name_what_went_wrong() {
    assert_eq!(
        job_failure_message(JobFailure::NoWholeGameCondition),
        "whole-game search ended without valid analysis reaching an enabled condition"
    );
    assert_eq!(
        unparseable_message(true, "EOF while parsing"),
        "whole-game response was not parseable: EOF while parsing"
    );
    assert_eq!(
        unparseable_message(false, "expected value"),
        "analysis response was not parseable: expected value"
    );
}

fn frame(turn: u32) -> lizzieyzy_next::model::AnalysisFrameDto {
    lizzieyzy_next::model::AnalysisFrameDto {
        job_id: uuid::Uuid::nil(),
        game_id: None,
        node_id: None,
        turn,
        visits: 10,
        winrate_black_bits: 0.5f32.to_bits(),
        score_mean_black_bits: 0.0f32.to_bits(),
        score_stdev_bits: None,
        candidates: vec![],
        ownership_bits: None,
        policy_bits: None,
    }
}

fn line(during: bool, has_search_data: bool, observed: &[&str]) -> WholeGameLine {
    WholeGameLine {
        during,
        has_search_data,
        observed: observed.iter().map(|c| c.to_string()).collect(),
        frame: frame(0),
    }
}

fn single_task() -> AnalysisTaskDto {
    AnalysisTaskDto {
        strategy: AnalysisTaskStrategyDto::SingleStage,
        stage: AnalysisTaskStageDto::SingleStage,
        overview_conditions: None,
        state: AnalysisTaskStateDto::Queued,
        reason: None,
        ending_conditions: vec![],
        ..two_stage_task()
    }
}

fn running_whole_job() -> JobRecord {
    JobRecord {
        query_id: "q1".into(),
        disposition: JobDisposition::Running,
        state: AnalysisJobStateDto::Queued,
        cancel_deadline_ms: None,
        ..whole_job(0)
    }
}

#[test]
fn whole_game_lines_stop_at_the_budget_then_record_the_conditions_seen_there() {
    let mut s = lizzieyzy_next::engine::continuous::ContinuousState {
        phase: lizzieyzy_next::engine::EnginePhase::NoEngine { failure: None },
        departing: false,
        finite_admission_pending: false,
        selected_job: None,
        intent: None,
        limited: None,
        paused: None,
        error: false,
        safety_hold: false,
        budget: ContinuousAnalysisBudgetDto::default(),
        target: None,
    };
    let mut task = Some(single_task());
    let mut jobs = vec![running_whole_job()];
    assert!(matches!(
        whole_game_line_step(&mut s, &mut task, &mut jobs, "run-1", "other", line(true, true, &["visits"]), "n".into(), 1),
        WholeGameAction::Ignore
    ));
    assert!(matches!(
        whole_game_line_step(&mut s, &mut task, &mut jobs, "run-1", "q1", line(true, true, &[]), "n".into(), 1),
        WholeGameAction::Snapshot
    ));
    assert_eq!(jobs[0].state, AnalysisJobStateDto::Searching);
    assert_eq!(task.as_ref().unwrap().state, AnalysisTaskStateDto::Searching);
    match whole_game_line_step(&mut s, &mut task, &mut jobs, "run-1", "q1", line(true, true, &["visits", "time"]), "n".into(), 1_000) {
        WholeGameAction::Terminate { query_id } => assert_eq!(query_id, "q1"),
        other => panic!("unexpected action: {other:?}"),
    }
    assert_eq!(jobs[0].disposition, JobDisposition::BudgetReached);
    assert_eq!(jobs[0].state, AnalysisJobStateDto::Stopping);
    assert_eq!(jobs[0].cancel_deadline_ms, Some(6_000));
    assert_eq!(jobs[0].pending_ending_conditions, vec!["visits".to_string(), "time".to_string()]);
    assert_eq!(task.as_ref().unwrap().reason.as_deref(), Some("Stopping after reaching visits and time."));
    match whole_game_line_step(&mut s, &mut task, &mut jobs, "run-1", "q1", line(false, true, &["winrate"]), "job-1:2".into(), 2_000) {
        WholeGameAction::Recorded { completed, expected, step, finished, path, .. } => {
            assert_eq!((completed, expected, step, finished), (1, 2, AdvanceStep::Next, None));
            assert_eq!(path, NodePath { indices: vec![] });
        }
        other => panic!("unexpected action: {other:?}"),
    }
    let t = task.as_ref().unwrap();
    assert_eq!(t.ending_conditions, vec!["visits".to_string(), "time".to_string()]);
    assert_eq!(t.completed, vec![NodePath { indices: vec![] }]);
    assert_eq!(t.state, AnalysisTaskStateDto::Queued);
    let job = &jobs[0];
    assert_eq!((job.current_index, job.query_id.as_str()), (1, "job-1:2"));
    assert!(job.pending_ending_conditions.is_empty());
    assert_eq!(job.disposition, JobDisposition::Running);
    assert_eq!(job.cancel_deadline_ms, None);
    assert_eq!(job.node_path, NodePath { indices: vec![0] });
    match whole_game_line_step(&mut s, &mut task, &mut jobs, "run-1", "job-1:2", line(false, true, &[]), "x".into(), 3_000) {
        WholeGameAction::Failed { failure, event, .. } => {
            assert_eq!(failure.message, "whole-game search ended without valid analysis reaching an enabled condition");
            assert_eq!(failure.job_id.as_deref(), Some("job-1"));
            assert!(event.is_some());
        }
        other => panic!("unexpected action: {other:?}"),
    }
    assert!(jobs.is_empty());
    assert_eq!(task.as_ref().unwrap().state, AnalysisTaskStateDto::Failed);
}

#[test]
fn the_last_whole_game_result_completes_the_job() {
    let mut s = lizzieyzy_next::engine::continuous::ContinuousState {
        phase: lizzieyzy_next::engine::EnginePhase::NoEngine { failure: None },
        departing: false,
        finite_admission_pending: false,
        selected_job: None,
        intent: None,
        limited: None,
        paused: None,
        error: false,
        safety_hold: false,
        budget: ContinuousAnalysisBudgetDto::default(),
        target: None,
    };
    let mut task = Some(single_task());
    let mut jobs = vec![JobRecord { current_index: 1, ..running_whole_job() }];
    match whole_game_line_step(&mut s, &mut task, &mut jobs, "run-1", "q1", line(false, true, &["visits"]), "n".into(), 5) {
        WholeGameAction::Recorded { completed, step, finished, .. } => {
            assert_eq!((completed, step), (2, AdvanceStep::Finished));
            assert_eq!(finished, Some(NodePath { indices: vec![0] }));
        }
        other => panic!("unexpected action: {other:?}"),
    }
    assert!(jobs.is_empty());
    let t = task.as_ref().unwrap();
    assert_eq!(t.ending_conditions, vec!["visits".to_string()]);
}
