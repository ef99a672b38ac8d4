use lizzieyzy_next::analysis_job::{
    admits_analysis_attachment, admits_analysis_publication, AnalysisJobEventDto,
    AnalysisJobLaneDto, AnalysisJobOutcomeDto, AnalysisJobStartedDto, AnalysisPublicationScopeDto,
};
use lizzieyzy_next::model::{
    AnalysisFrameDto, CandidateMoveDto, EngineFailureDto, EngineFailureKind, EngineOperationDto,
    MoveVertex, NodePath, PointDto,
};

fn frame(visits: u32, candidates: Vec<CandidateMoveDto>) -> AnalysisFrameDto {
    AnalysisFrameDto {
        job_id: uuid::Uuid::nil(),
        game_id: None,
        node_id: None,
        turn: 0,
        visits,
        winrate_black_bits: 0.5f32.to_bits(),
        score_mean_black_bits: 0.0f32.to_bits(),
        score_stdev_bits: None,
        candidates,
        ownership_bits: None,
        policy_bits: None,
    }
}

fn sample_event(
    run_id: &str,
    job_id: &str,
    generation: u64,
    indices: Vec<u32>,
    outcome: AnalysisJobOutcomeDto,
    with_frame: bool,
) -> AnalysisJobEventDto {
    AnalysisJobEventDto {
        run_id: run_id.into(),
        job_id: job_id.into(),
        lane: AnalysisJobLaneDto::SelectedNode,
        generation,
        node_path: NodePath { indices },
        outcome,
        completed: None,
        expected: None,
        remaining: None,
        frame: with_frame.then(|| frame(2, vec![])),
        failure: None,
    }
}

fn projectable_frame() -> AnalysisFrameDto {
    let mut f = frame(
        32,
        vec![CandidateMoveDto {
            vertex: MoveVertex::Point(PointDto { x: 3, y: 3 }),
            visits: 32,
            winrate_black_bits: 0.55f32.to_bits(),
            score_mean_black_bits: 1.5f32.to_bits(),
            policy_prior_bits: Some(0.4f32.to_bits()),
            pv: vec![MoveVertex::Point(PointDto { x: 3, y: 3 })],
        }],
    );
    f.winrate_black_bits = 0.55f32.to_bits();
    f.score_mean_black_bits = 1.5f32.to_bits();
    f.score_stdev_bits = Some(0.2f32.to_bits());
    f
}

#[test]
fn publication_fence_requires_complete_identity_match() {
    let current = AnalysisPublicationScopeDto {
        run_id: "run-1".into(),
        job_id: "job-1".into(),
        generation: 3,
        node_path: NodePath { indices: vec![0] },
    };
    let completed = sample_event("run-1", "job-1", 3, vec![0], AnalysisJobOutcomeDto::Completed, true);
    assert!(admits_analysis_publication(&completed, &current));
    assert!(!admits_analysis_publication(
        &sample_event("run-2", "job-1", 3, vec![0], AnalysisJobOutcomeDto::Completed, true),
        &current
    ));
    assert!(!admits_analysis_publication(
        &sample_event("run-1", "job-2", 3, vec![0], AnalysisJobOutcomeDto::Completed, true),
        &current
    ));
    assert!(!admits_analysis_publication(
        &sample_event("run-1", "job-1", 4, vec![0], AnalysisJobOutcomeDto::Completed, true),
        &current
    ));
    assert!(!admits_analysis_publication(
        &sample_event("run-1", "job-1", 3, vec![1], AnalysisJobOutcomeDto::Completed, true),
        &current
    ));
    assert!(!admits_analysis_publication(
        &sample_event("run-1", "job-1", 3, vec![0], AnalysisJobOutcomeDto::Cancelled, true),
        &current
    ));
    assert!(!admits_analysis_publication(
        &sample_event("run-1", "job-1", 3, vec![0], AnalysisJobOutcomeDto::Completed, false),
        &current
    ));
}

#[test]
fn admits_analysis_attachment_requires_projectable_lane_outcomes() {
    let mut selected = sample_event("run-1", "job-1", 7, vec![], AnalysisJobOutcomeDto::Completed, true);
    selected.frame = Some(projectable_frame());
    assert!(admits_analysis_attachment(&selected));
    selected.outcome = AnalysisJobOutcomeDto::Cancelled;
    assert!(!admits_analysis_attachment(&selected));
    selected.outcome = AnalysisJobOutcomeDto::Failed;
    assert!(!admits_analysis_attachment(&selected));
    selected.outcome = AnalysisJobOutcomeDto::Completed;
    selected.frame = None;
    assert!(!admits_analysis_attachment(&selected));

    let mut whole = selected.clone();
    whole.lane = AnalysisJobLaneDto::WholeGame;
    whole.outcome = AnalysisJobOutcomeDto::Progress;
    whole.frame = Some(projectable_frame());
    assert!(admits_analysis_attachment(&whole));
    whole.outcome = AnalysisJobOutcomeDto::Completed;
    assert!(!admits_analysis_attachment(&whole));
    let mut empty = projectable_frame();
    empty.visits = 0;
    empty.candidates.clear();
    whole.outcome = AnalysisJobOutcomeDto::Progress;
    whole.frame = Some(empty);
    assert!(!admits_analysis_attachment(&whole));
}

#[test]
fn an_event_is_never_published_into_its_own_progress_scope() {
    let event = AnalysisJobEventDto {
        run_id: "run-1".into(),
        job_id: "job-9".into(),
        lane: AnalysisJobLaneDto::WholeGame,
        generation: 4,
        node_path: NodePath { indices: vec![] },
        outcome: AnalysisJobOutcomeDto::Progress,
        completed: Some(1),
        expected: Some(3),
        remaining: Some(2),
        frame: None,
        failure: None,
    };
    assert!(!admits_analysis_publication(&event, &event.publication_scope()));
    let mut done = event.clone();
    done.outcome = AnalysisJobOutcomeDto::Completed;
    done.frame = Some(projectable_frame());
    assert!(admits_analysis_publication(&done, &done.publication_scope()));
}

#[test]
fn started_job_scope_keeps_its_identity() {
    let started = AnalysisJobStartedDto {
        run_id: "run-1".into(),
        job_id: "job-1".into(),
        lane: AnalysisJobLaneDto::SelectedNode,
        generation: 7,
        node_path: NodePath { indices: vec![0, 1] },
    };
    let scope = started.publication_scope();
    assert_eq!(
        scope,
        AnalysisPublicationScopeDto {
            run_id: "run-1".into(),
            job_id: "job-1".into(),
            generation: 7,
            node_path: NodePath { indices: vec![0, 1] },
        }
    );
    assert_eq!(started.clone(), started);
}

#[test]
fn failures_can_be_scoped_to_a_job_or_a_switch() {
    let base = EngineFailureDto {
        operation: EngineOperationDto::Job,
        run_id: Some("run-1".into()),
        switch_id: None,
        job_id: None,
        profile_id: None,
        kind: EngineFailureKind::Protocol,
        message: "boom".into(),
        diagnostic_summary: None,
    };
    let job = base.clone().with_job_id("job-3");
    assert_eq!(job.job_id.as_deref(), Some("job-3"));
    assert_eq!(job.message, "boom");
    let switch = base.clone().with_switch_id(String::from("switch-1"));
    assert_eq!(switch.switch_id.as_deref(), Some("switch-1"));
    assert_eq!(switch.job_id, None);
}
