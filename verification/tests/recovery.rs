use lizzieyzy_next::model::NodePath;
use lizzieyzy_next::recovery::{
    classify_startup, envelope_from_snapshot, store_admits_replace, ApplicationExitDispositionDto,
    RecoveryCoordinator, RecoveryEnvelopeDto, RecoveryProtectionDto, RecoverySnapshot,
    RecoveryStartupDto, RECOVERY_UNREADABLE_MESSAGE, UNPROTECTED_WRITE_MESSAGE,
};

const EMPTY: &str = "(;GM[1]FF[4]SZ[19]KM[7.5]PB[黑]PW[白])";
const BRANCH: &str = "(;GM[1]FF[4]SZ[19]KM[7.5]PB[黑]PW[白];B[pd])";
const BRANCH_COMMENT: &str = "(;GM[1]FF[4]SZ[19]KM[7.5]PB[黑]PW[白]C[root personal];B[pd])";

fn path(indices: &[u32]) -> NodePath {
    NodePath {
        indices: indices.to_vec(),
    }
}

fn snapshot(
    document_seq: u64,
    snapshot_seq: u64,
    sgf: &str,
    selected: &[u32],
    dirty: bool,
) -> RecoverySnapshot {
    RecoverySnapshot {
        document_seq,
        snapshot_seq,
        sgf_text: sgf.to_string(),
        selected_path: path(selected),
        source_path: Some("/tmp/game.sgf".to_string()),
        dirty,
    }
}

fn commit(coord: &mut RecoveryCoordinator, envelope: RecoveryEnvelopeDto) {
    coord.finish_write(envelope.clone(), Ok(()));
}

#[test]
fn first_outstanding_change_starts_write_within_one_second() {
    let mut coord = RecoveryCoordinator::default();
    coord.note(snapshot(1, 1, EMPTY, &[], true), 0);
    assert!(coord.take_due_write(999).is_none());
    let due = coord.take_due_write(1000).expect("write due at one second");
    assert_eq!(due.sgf_text, EMPTY);
    assert_eq!(due.snapshot_seq, 1);
    assert!(due.dirty);
    assert_eq!(due.disposition, ApplicationExitDispositionDto::ExitIncomplete);
}

#[test]
fn continuous_changes_keep_the_latest_pending_without_postponing() {
    let mut coord = RecoveryCoordinator::default();
    coord.note(snapshot(1, 1, EMPTY, &[], true), 0);
    coord.note(snapshot(1, 2, BRANCH, &[0], true), 400);
    coord.note(snapshot(1, 3, BRANCH_COMMENT, &[0], true), 900);
    assert!(coord.take_due_write(999).is_none());
    let due = coord.take_due_write(1000).expect("first deadline");
    assert_eq!(due.sgf_text, BRANCH_COMMENT);
    assert_eq!(due.selected_path, path(&[0]));
    assert_eq!(due.snapshot_seq, 3);
}

#[test]
fn busy_writer_keeps_latest_pending_and_writes_it_immediately_afterward() {
    let mut coord = RecoveryCoordinator::default();
    coord.note(snapshot(1, 1, EMPTY, &[], true), 0);
    let first = coord.take_due_write(1000).unwrap();
    coord.note(snapshot(1, 2, BRANCH, &[0], true), 1100);
    coord.note(snapshot(1, 3, BRANCH_COMMENT, &[0], true), 1200);
    assert!(coord.take_due_write(2000).is_none());
    commit(&mut coord, first);
    let next = coord
        .take_due_write(1200)
        .expect("pending write starts immediately");
    assert_eq!(next.sgf_text, BRANCH_COMMENT);
    assert_eq!(next.snapshot_seq, 3);
}

#[test]
fn write_failure_keeps_last_success_and_retry_rewrites_latest() {
    let mut coord = RecoveryCoordinator::default();
    coord.note(snapshot(1, 1, EMPTY, &[], true), 0);
    let first = coord.take_due_write(1000).unwrap();
    commit(&mut coord, first);
    coord.note(snapshot(1, 2, BRANCH, &[0], true), 1500);
    let failed = coord.take_due_write(2500).unwrap();
    coord.finish_write(failed, Err("disk full".to_string()));
    assert_eq!(
        coord.protection(),
        RecoveryProtectionDto::Unprotected {
            message: UNPROTECTED_WRITE_MESSAGE.to_string()
        }
    );
    assert_eq!(coord.last_committed().unwrap().sgf_text, EMPTY);
    let retry = coord.retry(2600).expect("explicit retry");
    assert_eq!(retry.sgf_text, BRANCH);
    commit(&mut coord, retry);
    assert_eq!(coord.protection(), RecoveryProtectionDto::Protected);
    assert_eq!(coord.last_committed().unwrap().sgf_text, BRANCH);
}

#[test]
fn later_change_after_write_failure_schedules_another_write() {
    let mut coord = RecoveryCoordinator::default();
    coord.note(snapshot(1, 1, EMPTY, &[], true), 0);
    let first = coord.take_due_write(1000).unwrap();
    commit(&mut coord, first);
    coord.note(snapshot(1, 2, BRANCH, &[0], true), 1500);
    let failed = coord.take_due_write(2500).unwrap();
    coord.finish_write(failed, Err("disk full".to_string()));
    coord.note(snapshot(1, 3, BRANCH_COMMENT, &[0], true), 2600);
    assert!(coord.take_due_write(3599).is_none());
    let retried = coord
        .take_due_write(3600)
        .expect("later change retries within one second");
    assert_eq!(retried.sgf_text, BRANCH_COMMENT);
    assert_eq!(retried.snapshot_seq, 3);
    assert_eq!(coord.last_committed().unwrap().sgf_text, EMPTY);
}

#[test]
fn analysis_only_and_already_dirty_snapshots_still_schedule() {
    let mut coord = RecoveryCoordinator::default();
    coord.note(snapshot(1, 1, EMPTY, &[], true), 0);
    let first = coord.take_due_write(1000).unwrap();
    commit(&mut coord, first);
    coord.note(snapshot(1, 2, BRANCH_COMMENT, &[], true), 1500);
    let due = coord.take_due_write(2500).unwrap();
    assert_eq!(due.sgf_text, BRANCH_COMMENT);
    assert!(due.dirty);
    assert_eq!(due.document_seq, 1);
}

#[test]
fn older_document_snapshot_cannot_overwrite_replaced_document() {
    let mut coord = RecoveryCoordinator::default();
    coord.note(snapshot(1, 1, EMPTY, &[], true), 0);
    let old = coord.take_due_write(1000).unwrap();
    coord.note(snapshot(2, 1, BRANCH, &[], false), 1100);
    commit(&mut coord, old);
    let replacement = coord.take_due_write(1100).unwrap();
    assert_eq!(replacement.document_seq, 2);
    assert_eq!(replacement.sgf_text, BRANCH);
    commit(&mut coord, replacement);
    coord.note(snapshot(1, 9, EMPTY, &[], true), 3000);
    assert!(coord.take_due_write(4000).is_none());
    assert_eq!(coord.last_committed().unwrap().sgf_text, BRANCH);
}

#[test]
fn committed_discard_is_not_revived_by_a_late_writer() {
    let mut coord = RecoveryCoordinator::default();
    coord.note(snapshot(1, 1, EMPTY, &[], true), 0);
    let late = coord.take_due_write(1000).unwrap();
    let discard = coord
        .take_flush_write(
            snapshot(1, 2, EMPTY, &[], true),
            ApplicationExitDispositionDto::ExplicitDiscard,
        )
        .unwrap();
    commit(&mut coord, discard);
    coord.finish_write(late, Ok(()));
    assert_eq!(
        coord.last_committed().unwrap().disposition,
        ApplicationExitDispositionDto::ExplicitDiscard
    );
    coord.note(snapshot(1, 3, BRANCH, &[], true), 2000);
    assert!(coord.take_due_write(3000).is_none());
}

#[test]
fn flush_writes_immediately_including_clean_exit_without_pending_edits() {
    let mut coord = RecoveryCoordinator::default();
    coord.note(snapshot(1, 1, EMPTY, &[], false), 0);
    let first = coord.take_due_write(1000).unwrap();
    commit(&mut coord, first);
    let flushed = coord
        .take_flush_write(
            snapshot(1, 1, EMPTY, &[], false),
            ApplicationExitDispositionDto::CleanCompleted,
        )
        .unwrap();
    assert_eq!(flushed.disposition, ApplicationExitDispositionDto::CleanCompleted);
    commit(&mut coord, flushed);
    assert_eq!(
        coord.last_committed().unwrap().disposition,
        ApplicationExitDispositionDto::CleanCompleted
    );
}

#[test]
fn failed_flush_does_not_report_success_and_keeps_retryable_error() {
    let mut coord = RecoveryCoordinator::default();
    let flushed = coord
        .take_flush_write(
            snapshot(1, 1, EMPTY, &[], false),
            ApplicationExitDispositionDto::CleanCompleted,
        )
        .unwrap();
    coord.finish_write(flushed, Err("disk full".to_string()));
    assert_eq!(
        coord.protection(),
        RecoveryProtectionDto::Unprotected {
            message: UNPROTECTED_WRITE_MESSAGE.to_string()
        }
    );
    assert!(coord.last_committed().is_none());
    let retry = coord.retry(0).expect("retry flush");
    assert_eq!(retry.disposition, ApplicationExitDispositionDto::CleanCompleted);
}

#[test]
fn startup_classifies_abnormal_normal_discarded_and_unreadable() {
    let abnormal = envelope_from_snapshot(
        snapshot(1, 1, EMPTY, &[], true),
        ApplicationExitDispositionDto::ExitIncomplete,
    );
    assert!(matches!(
        classify_startup(Ok(Some(abnormal))),
        RecoveryStartupDto::Abnormal { .. }
    ));
    let clean = envelope_from_snapshot(
        snapshot(1, 1, EMPTY, &[], false),
        ApplicationExitDispositionDto::CleanCompleted,
    );
    assert!(matches!(
        classify_startup(Ok(Some(clean))),
        RecoveryStartupDto::Normal { .. }
    ));
    let discarded = envelope_from_snapshot(
        snapshot(1, 1, EMPTY, &[], true),
        ApplicationExitDispositionDto::ExplicitDiscard,
    );
    assert!(matches!(
        classify_startup(Ok(Some(discarded))),
        RecoveryStartupDto::NoRecovery
    ));
    assert!(matches!(classify_startup(Ok(None)), RecoveryStartupDto::NoRecovery));
    assert!(matches!(
        classify_startup(Err("nope".to_string())),
        RecoveryStartupDto::Unreadable { .. }
    ));
}

#[test]
fn load_checkpoint_seeds_discard_without_making_it_a_startup_candidate() {
    let mut coord = RecoveryCoordinator::default();
    let discarded = envelope_from_snapshot(
        snapshot(4, 1, EMPTY, &[], true),
        ApplicationExitDispositionDto::ExplicitDiscard,
    );
    coord.load_checkpoint(discarded);
    coord.note(snapshot(4, 2, BRANCH, &[], true), 0);
    assert!(coord.take_due_write(1000).is_none());
    coord.note(snapshot(5, 1, BRANCH, &[], false), 0);
    let next = coord.take_due_write(1000).expect("newer document after discard");
    assert_eq!(next.document_seq, 5);
}

#[test]
fn unreadable_startup_carries_the_fixed_message() {
    match classify_startup(Err("bad json".to_string())) {
        RecoveryStartupDto::Unreadable { message } => {
            assert_eq!(message, RECOVERY_UNREADABLE_MESSAGE)
        }
        other => panic!("expected unreadable, got {other:?}"),
    }
    let abnormal = envelope_from_snapshot(
        snapshot(2, 3, BRANCH, &[0], true),
        ApplicationExitDispositionDto::ExitIncomplete,
    );
    assert_eq!(
        classify_startup(Ok(Some(abnormal.clone()))),
        RecoveryStartupDto::Abnormal { envelope: abnormal }
    );
}

#[test]
fn store_keeps_newer_checkpoints_and_discards() {
    let at = |doc: u64, snap: u64, disposition| {
        envelope_from_snapshot(snapshot(doc, snap, EMPTY, &[], true), disposition)
    };
    assert!(store_admits_replace(None, &at(1, 1, ApplicationExitDispositionDto::ExitIncomplete)));
    assert!(store_admits_replace(Some(&at(1, 1, ApplicationExitDispositionDto::ExitIncomplete)), &at(1, 2, ApplicationExitDispositionDto::ExitIncomplete)));
    assert!(!store_admits_replace(Some(&at(2, 1, ApplicationExitDispositionDto::ExitIncomplete)), &at(1, 9, ApplicationExitDispositionDto::ExitIncomplete)));
    assert!(!store_admits_replace(Some(&at(1, 5, ApplicationExitDispositionDto::ExitIncomplete)), &at(1, 4, ApplicationExitDispositionDto::ExitIncomplete)));
    assert!(!store_admits_replace(Some(&at(1, 5, ApplicationExitDispositionDto::ExplicitDiscard)), &at(1, 6, ApplicationExitDispositionDto::ExitIncomplete)));
    assert!(store_admits_replace(Some(&at(1, 5, ApplicationExitDispositionDto::ExplicitDiscard)), &at(2, 1, ApplicationExitDispositionDto::ExitIncomplete)));
    assert!(!store_admits_replace(Some(&at(1, 5, ApplicationExitDispositionDto::CleanCompleted)), &at(1, 5, ApplicationExitDispositionDto::ExitIncomplete)));
    assert!(store_admits_replace(Some(&at(1, 5, ApplicationExitDispositionDto::CleanCompleted)), &at(1, 6, ApplicationExitDispositionDto::ExitIncomplete)));
    assert!(store_admits_replace(Some(&at(1, 5, ApplicationExitDispositionDto::ExitIncomplete)), &at(1, 5, ApplicationExitDispositionDto::CleanCompleted)));
}

#[test]
fn newer_compares_document_then_snapshot() {
    let a = envelope_from_snapshot(snapshot(2, 1, EMPTY, &[], true), ApplicationExitDispositionDto::ExitIncomplete);
    let b = envelope_from_snapshot(snapshot(1, 9, EMPTY, &[], true), ApplicationExitDispositionDto::ExitIncomplete);
    assert!(a.is_newer_than(&b));
    assert!(!b.is_newer_than(&a));
    assert!(!a.is_newer_than(&a));
}

#[test]
fn discard_marks_the_commit_and_stops_pending_writes() {
    let mut coord = RecoveryCoordinator::default();
    coord.note(snapshot(3, 1, EMPTY, &[], true), 0);
    let e = envelope_from_snapshot(snapshot(3, 1, EMPTY, &[], true), ApplicationExitDispositionDto::ExitIncomplete);
    coord.mark_discarded_committed(e);
    assert_eq!(
        coord.last_committed().unwrap().disposition,
        ApplicationExitDispositionDto::ExplicitDiscard
    );
    assert!(coord.take_due_write(5000).is_none());
    assert_eq!(coord.protection(), RecoveryProtectionDto::Protected);
}
