use lizzieyzy_next::analysis_job::{AnalysisJobLaneDto, AnalysisJobOutcomeDto, AnalysisJobStartedDto};
use lizzieyzy_next::engine::EnginePhase;
use lizzieyzy_next::engine::continuous::{AnalysisJobModeDto, AnalysisJobStateDto};
use lizzieyzy_next::engine::jobs::{
    cancel_deadline, current_job_index, current_non_terminal_job, lifecycle_of, mark_job_cancelled,
    selected_node_job_event, snapshot_from, started_from, stop_job, whole_game_job_event,
    whole_game_progress_counts, ContinuousAdmission, JobDisposition, JobRecord, StopStep,
};
use lizzieyzy_next::model::{ForegroundEngineLifecycleDto, NodePath};

fn job(id: &str, lane: AnalysisJobLaneDto, state: AnalysisJobStateDto, terminal: bool) -> JobRecord {
    JobRecord {
        job_id: id.into(),
        run_id: "run-1".into(),
        query_id: format!("{id}:q"),
        lane,
        mode: AnalysisJobModeDto::Continuous,
        state,
        generation: 2,
        node_path: NodePath { indices: vec![1] },
        disposition: JobDisposition::Running,
        expected: None,
        current_index: 0,
        submitted: true,
        submitted_at_ms: 0,
        cancel_deadline_ms: None,
        continuous_budget: None,
        pending_ending_conditions: Vec::new(),
        terminal,
        item_paths: Vec::new(),
    }
}

#[test]
fn the_current_job_of_a_lane_is_the_last_live_or_limited_one() {
    let jobs = vec![
        job("a", AnalysisJobLaneDto::SelectedNode, AnalysisJobStateDto::Searching, false),
        job("b", AnalysisJobLaneDto::WholeGame, AnalysisJobStateDto::Searching, false),
        job("c", AnalysisJobLaneDto::SelectedNode, AnalysisJobStateDto::TimeLimited, true),
        job("d", AnalysisJobLaneDto::SelectedNode, AnalysisJobStateDto::Searching, true),
    ];
    assert_eq!(current_job_index(&jobs, AnalysisJobLaneDto::SelectedNode), Some(2));
    assert_eq!(current_job_index(&jobs, AnalysisJobLaneDto::WholeGame), Some(1));
    assert_eq!(current_job_index(&jobs[3..].to_vec(), AnalysisJobLaneDto::SelectedNode), None);
    let started = current_non_terminal_job(&jobs, AnalysisJobLaneDto::SelectedNode).unwrap();
    assert_eq!(started.job_id, "c");
    assert_eq!(started, started_from(&jobs[2]));
    assert_eq!(current_non_terminal_job(&vec![], AnalysisJobLaneDto::WholeGame), None);
}

#[test]
fn cancelling_marks_running_selected_jobs() {
    let mut j = job("a", AnalysisJobLaneDto::SelectedNode, AnalysisJobStateDto::Searching, false);
    mark_job_cancelled(&mut j);
    assert!(j.terminal);
    assert_eq!(j.disposition, JobDisposition::Cancelled);
    let mut w = job("b", AnalysisJobLaneDto::WholeGame, AnalysisJobStateDto::Searching, false);
    mark_job_cancelled(&mut w);
    assert!(w.terminal);
    assert_eq!(w.disposition, JobDisposition::Running);
    let mut s = job("c", AnalysisJobLaneDto::SelectedNode, AnalysisJobStateDto::Searching, false);
    s.disposition = JobDisposition::Superseded;
    mark_job_cancelled(&mut s);
    assert_eq!(s.disposition, JobDisposition::Superseded);
}

#[test]
fn whole_game_progress_never_goes_negative() {
    assert_eq!(whole_game_progress_counts(Some(5), 2), (Some(2), Some(5), Some(3)));
    assert_eq!(whole_game_progress_counts(Some(2), 5), (Some(5), Some(2), Some(0)));
    assert_eq!(whole_game_progress_counts(None, 1), (Some(1), None, None));
}

#[test]
fn job_events_carry_the_started_identity() {
    let started = AnalysisJobStartedDto {
        run_id: "run-1".into(),
        job_id: "job-1".into(),
        lane: AnalysisJobLaneDto::WholeGame,
        generation: 4,
        node_path: NodePath { indices: vec![] },
    };
    let e = selected_node_job_event(&started, AnalysisJobOutcomeDto::Cancelled, None, None);
    assert_eq!(e.job_id, "job-1");
    assert_eq!(e.outcome, AnalysisJobOutcomeDto::Cancelled);
    assert_eq!(e.completed, None);
    let w = whole_game_job_event(
        &started,
        AnalysisJobOutcomeDto::Progress,
        NodePath { indices: vec![0, 0] },
        Some(1),
        Some(3),
        Some(2),
        None,
        None,
    );
    assert_eq!(w.node_path, NodePath { indices: vec![0, 0] });
    assert_eq!((w.completed, w.expected, w.remaining), (Some(1), Some(3), Some(2)));
    assert_eq!(w.generation, 4);
}

#[test]
fn snapshots_publish_the_phase() {
    let s = snapshot_from(7, &EnginePhase::NoEngine { failure: None }, None, None);
    assert_eq!(s.revision, 7);
    assert_eq!(s.lifecycle, ForegroundEngineLifecycleDto::NoEngine { failure: None });
    assert_eq!(
        lifecycle_of(&EnginePhase::NoEngine { failure: None }),
        ForegroundEngineLifecycleDto::NoEngine { failure: None }
    );
}

#[test]
fn admissions_match_their_run_and_position() {
    let j = job("a", AnalysisJobLaneDto::SelectedNode, AnalysisJobStateDto::Searching, false);
    let a = ContinuousAdmission::from_job(&j);
    assert!(a.matches_job(&j));
    let p = NodePath { indices: vec![1] };
    assert!(a.matches_target(Some("run-1"), Some((2, &p))));
    assert!(!a.matches_target(Some("run-2"), Some((2, &p))));
    assert!(!a.matches_target(Some("run-1"), Some((3, &p))));
    assert!(!a.matches_target(None, Some((2, &p))));
    assert!(!a.matches_target(Some("run-1"), None));
}

#[test]
fn stop_requests_follow_the_job_state() {
    let mut unsubmitted = job("w", AnalysisJobLaneDto::WholeGame, AnalysisJobStateDto::Queued, false);
    unsubmitted.submitted = false;
    assert_eq!(
        stop_job(&mut unsubmitted, JobDisposition::TimedOut, 1_000),
        StopStep::FinishUnsubmitted(AnalysisJobOutcomeDto::Timeout)
    );
    assert_eq!(
        stop_job(&mut unsubmitted, JobDisposition::Paused, 1_000),
        StopStep::FinishUnsubmitted(AnalysisJobOutcomeDto::Cancelled)
    );
    let mut running = job("s", AnalysisJobLaneDto::SelectedNode, AnalysisJobStateDto::Searching, false);
    assert_eq!(stop_job(&mut running, JobDisposition::Superseded, 1_000), StopStep::BeginStopping);
    assert_eq!(running.state, AnalysisJobStateDto::Stopping);
    assert_eq!(running.disposition, JobDisposition::Superseded);
    assert_eq!(running.cancel_deadline_ms, Some(6_000));
    assert_eq!(
        stop_job(&mut running, JobDisposition::Cancelled, 1_000),
        StopStep::AlreadyStopping { redirected: false }
    );
    assert_eq!(running.disposition, JobDisposition::Superseded);
    running.disposition = JobDisposition::BudgetReached;
    assert_eq!(
        stop_job(&mut running, JobDisposition::Paused, 1_000),
        StopStep::AlreadyStopping { redirected: true }
    );
    assert_eq!(running.disposition, JobDisposition::Paused);
}

#[test]
fn cancellation_deadlines_saturate_at_the_end_of_the_clock() {
    assert_eq!(cancel_deadline(0), 5_000);
    assert_eq!(cancel_deadline(u64::MAX - 1), u64::MAX);
}
