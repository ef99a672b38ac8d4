use lizzieyzy_next::catalog::SavedEngineProfile;
use lizzieyzy_next::engine::EnginePhase;
use lizzieyzy_next::engine::lifecycle::{
    missing_assets_failure, readiness_probe_query, starting_run, EngineAssetCheck, EngineLifecycle, ExitStep,
};
use lizzieyzy_next::model::{
    EngineBackend, EngineFailureDto, EngineFailureKind, EngineOperationDto, EngineProfileDto,
};

fn saved(id: &str, backend: EngineBackend) -> SavedEngineProfile {
    SavedEngineProfile {
        profile_id: id.into(),
        profile: EngineProfileDto {
            name: id.into(),
            engine_path: format!("/bin/{id}"),
            model_path: None,
            config_path: None,
            working_dir: None,
            backend,
        },
    }
}

fn ready(l: &mut EngineLifecycle, id: &str) -> (u64, String) {
    let (op, run) = l
        .begin_start(EngineOperationDto::Start, id, Some(saved(id, EngineBackend::KataGoAnalysis)), format!("run-{id}"))
        .unwrap();
    assert!(l.admit_ready(op, &run, true));
    (op, run.run_id)
}

#[test]
fn start_then_ready_then_stop() {
    let mut l = EngineLifecycle::new();
    let (op, run) = l
        .begin_start(EngineOperationDto::Start, "a", Some(saved("a", EngineBackend::KataGoAnalysis)), "run-1".into())
        .unwrap();
    assert_eq!(op, 1);
    assert_eq!(run, starting_run(&saved("a", EngineBackend::KataGoAnalysis), "run-1".into()));
    assert!(matches!(l.phase, EnginePhase::Starting(_)));
    assert!(!l.admit_ready(op + 1, &run, true));
    assert!(l.admit_ready(op, &run, false));
    match &l.phase {
        EnginePhase::Ready(r) => {
            let caps = r.capability_snapshot.as_ref().unwrap();
            assert!(caps.selected_node_analysis && !caps.whole_game_analysis && caps.protocol_cancel);
        }
        other => panic!("expected ready, got {other:?}"),
    }
    assert_eq!(l.begin_stop(), Some(2));
    assert!(matches!(l.phase, EnginePhase::Stopping(_)));
    assert!(!l.force_no_engine(2, true));
    assert!(!l.force_no_engine(1, false));
    assert!(l.force_no_engine(2, false));
    assert!(matches!(l.phase, EnginePhase::NoEngine { failure: None }));
    assert_eq!(l.begin_stop(), None);
}

#[test]
fn refused_starts_are_shown_on_no_engine() {
    let mut l = EngineLifecycle::new();
    let missing = l.begin_start(EngineOperationDto::Autoload, "gone", None, "r".into()).unwrap_err();
    assert_eq!(missing.kind, EngineFailureKind::ProfileNotFound);
    assert_eq!(missing.message, "saved engine profile was not found: gone");
    assert_eq!(missing.operation, EngineOperationDto::Autoload);
    assert!(matches!(&l.phase, EnginePhase::NoEngine { failure: Some(f) } if *f == missing));
    let other = l
        .begin_start(EngineOperationDto::Start, "g", Some(saved("g", EngineBackend::GenericGtp)), "r".into())
        .unwrap_err();
    assert_eq!(other.kind, EngineFailureKind::UnsupportedCapability);
    assert_eq!(l.operation, 0);
    ready(&mut l, "a");
    let busy = l
        .begin_start(EngineOperationDto::Start, "a", Some(saved("a", EngineBackend::KataGoAnalysis)), "r2".into())
        .unwrap_err();
    assert_eq!(busy.kind, EngineFailureKind::InvalidState);
    assert_eq!(busy.run_id.as_deref(), Some("run-a"));
    assert!(matches!(l.phase, EnginePhase::Ready(_)));
}

#[test]
fn stale_attempts_do_not_revive_an_engine() {
    let mut l = EngineLifecycle::new();
    let (op, _) = l
        .begin_start(EngineOperationDto::Start, "a", Some(saved("a", EngineBackend::KataGoAnalysis)), "run-1".into())
        .unwrap();
    assert_eq!(l.begin_stop(), Some(op + 1));
    let f = EngineFailureDto {
        operation: EngineOperationDto::Start,
        run_id: None,
        switch_id: None,
        job_id: None,
        profile_id: None,
        kind: EngineFailureKind::Readiness,
        message: "late".into(),
        diagnostic_summary: None,
    };
    assert!(!l.fail_attempt(op, f.clone()));
    assert!(matches!(l.phase, EnginePhase::Stopping(_)));
    assert!(l.fail_attempt(op + 1, f.clone()));
    assert!(matches!(l.phase, EnginePhase::NoEngine { failure: Some(_) }));
    assert!(l.record_no_engine_failure(f));
}

#[test]
fn switches_keep_or_replace_the_primary() {
    let mut l = EngineLifecycle::new();
    let (_, primary) = ready(&mut l, "a");
    assert_eq!(l.begin_switch("a", Some(saved("a", EngineBackend::KataGoAnalysis)), "x".into()), Ok(None));
    let (op, candidate, switch_id) = l
        .begin_switch("b", Some(saved("b", EngineBackend::KataGoAnalysis)), "run-b".into())
        .unwrap()
        .unwrap();
    assert_eq!(switch_id, "1");
    assert_eq!(l.switch_seq, 1);
    assert_eq!(l.operation_kind, EngineOperationDto::Switch);
    let f = EngineFailureDto {
        operation: EngineOperationDto::Switch,
        run_id: Some("run-b".into()),
        switch_id: None,
        job_id: None,
        profile_id: Some("b".into()),
        kind: EngineFailureKind::Asset,
        message: "missing model".into(),
        diagnostic_summary: None,
    };
    assert_eq!(l.fail_switch_candidate(op, &candidate, "2", f.clone()), None);
    let scoped = l.fail_switch_candidate(op, &candidate, "1", f).unwrap();
    assert_eq!(scoped.switch_id.as_deref(), Some("1"));
    assert!(matches!(&l.phase, EnginePhase::Ready(r) if r.run_id == primary));
    let (op, candidate, switch_id) = l
        .begin_switch("b", Some(saved("b", EngineBackend::KataGoAnalysis)), "run-b2".into())
        .unwrap()
        .unwrap();
    assert_eq!(switch_id, "2");
    assert_eq!(l.promote_candidate(op, &candidate, true).as_deref(), Some(primary.as_str()));
    assert!(matches!(&l.phase, EnginePhase::Ready(r) if r.run_id == "run-b2"));
    let no_switch = l.begin_switch("zzz", None, "r".into()).unwrap_err();
    assert_eq!(no_switch.operation, EngineOperationDto::Switch);
}

#[test]
fn restart_needs_a_ready_or_failed_run() {
    let mut l = EngineLifecycle::new();
    let refused = l.begin_restart().unwrap_err();
    assert_eq!(refused.message, "Restart requires a Ready or Error Foreground Engine Run");
    assert_eq!(refused.run_id, None);
    ready(&mut l, "a");
    let (op, profile) = l.begin_restart().unwrap();
    assert_eq!(profile, "a");
    assert_eq!(op, l.operation);
    assert!(matches!(l.phase, EnginePhase::Stopping(_)));
    assert_eq!(l.cleanup_failed("kill failed").unwrap().message, "engine process cleanup failed: kill failed");
    assert!(matches!(l.phase, EnginePhase::Error { .. }));
    assert!(l.begin_restart().is_ok());
}

#[test]
fn unexpected_exits() {
    let mut l = EngineLifecycle::new();
    let (op, run) = l
        .begin_start(EngineOperationDto::Start, "a", Some(saved("a", EngineBackend::KataGoAnalysis)), "run-1".into())
        .unwrap();
    match l.unexpected_exit(op, "run-1", Some(-3)) {
        ExitStep::FailAttempt(f) => {
            assert_eq!(f.kind, EngineFailureKind::NonzeroExit);
            assert_eq!(f.message, "engine exited during start; exit_code=Some(-3)");
        }
        other => panic!("expected a failed attempt, got {other:?}"),
    }
    match l.unexpected_exit(op, "run-1", Some(0)) {
        ExitStep::FailAttempt(f) => assert_eq!(f.kind, EngineFailureKind::Readiness),
        other => panic!("expected a failed attempt, got {other:?}"),
    }
    assert!(matches!(l.unexpected_exit(op, "other", None), ExitStep::Ignore));
    assert!(l.admit_ready(op, &run, true));
    match l.unexpected_exit(op, "run-1", None) {
        ExitStep::EnteredError(f) => {
            assert_eq!(f.operation, EngineOperationDto::UnexpectedExit);
            assert_eq!(f.message, "engine process exited unexpectedly; exit_code=None");
        }
        other => panic!("expected an error, got {other:?}"),
    }
    assert!(matches!(l.phase, EnginePhase::Error { .. }));
    let deletable = l.assert_profile_deletable("a").unwrap_err();
    assert_eq!(deletable.kind, EngineFailureKind::ProfileInUse);
    assert!(l.assert_profile_deletable("b").is_ok());
    match EngineLifecycle::new().unexpected_exit(0, "x", Some(i32::MIN)) {
        ExitStep::Ignore => {}
        other => panic!("expected nothing, got {other:?}"),
    }
}

#[test]
fn missing_required_assets_fail_the_start_with_their_names() {
    let run = starting_run(&saved("p1", EngineBackend::KataGoAnalysis), "run-1".into());
    let check = |label: &str, path: &str, required: bool, exists: bool| EngineAssetCheck {
        label: label.into(),
        path: path.into(),
        required,
        exists,
    };
    let checks = vec![
        check("engine", "/bin/katago", true, false),
        check("config", "", false, false),
        check("model", "", true, false),
        check("present", "/x", true, true),
    ];
    let f = missing_assets_failure(EngineOperationDto::Start, &run, &checks).unwrap();
    assert_eq!(f.kind, EngineFailureKind::Asset);
    assert_eq!(f.message, "required engine assets are missing: engine (/bin/katago), model");
    assert_eq!(f.diagnostic_summary.as_deref(), Some("engine (/bin/katago), model"));
    assert_eq!(f.run_id.as_deref(), Some("run-1"));
    assert_eq!(f.profile_id.as_deref(), Some("p1"));
    assert!(missing_assets_failure(EngineOperationDto::Start, &run, &vec![check("m", "", true, true)]).is_none());
}

#[test]
fn the_readiness_probe_asks_two_visits_on_an_empty_board() {
    let q = readiness_probe_query("run-7");
    assert_eq!(q.id, "lifecycle-readiness-run-7");
    assert!(q.moves.is_empty() && q.initial_stones.is_empty());
    assert_eq!(q.rules, "chinese");
    assert_eq!(q.komi_bits, 7.5f32.to_bits());
    assert_eq!((q.board_x_size, q.board_y_size), (19, 19));
    assert_eq!(q.analyze_turns, Some(vec![0]));
    assert_eq!(q.max_visits, Some(2));
    assert!(q.include_ownership.is_none() && q.include_policy.is_none());
    assert!(q.report_during_search_every_bits.is_none() && q.override_settings.is_none());
}
