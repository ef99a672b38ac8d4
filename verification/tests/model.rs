use lizzieyzy_next::model::{
    CurrentGameError, CurrentGameErrorKind, ForegroundEngineLifecycleDto,
    ForegroundEngineSnapshotDto, NodePath, PlayerColor, ProviderGameSummary, ProviderKind,
};

#[test]
fn colours_alternate() {
    assert_eq!(PlayerColor::Black.opponent(), PlayerColor::White);
    assert_eq!(PlayerColor::White.opponent(), PlayerColor::Black);
}

#[test]
fn snapshot_of_a_lifecycle_has_no_jobs() {
    let s = ForegroundEngineSnapshotDto::with_lifecycle(
        4,
        ForegroundEngineLifecycleDto::NoEngine { failure: None },
    );
    assert_eq!(s.revision, 4);
    assert_eq!(s.lifecycle, ForegroundEngineLifecycleDto::NoEngine { failure: None });
    assert!(s.selected_node_job.is_none() && s.whole_game_job.is_none());
}

#[test]
fn node_paths_compare_by_indices() {
    let a = NodePath { indices: vec![0, 2] };
    assert!(a.same_as(&a.clone()));
    assert!(!a.same_as(&NodePath { indices: vec![0] }));
    assert!(!a.same_as(&NodePath { indices: vec![0, 3] }));
}

#[test]
fn current_game_error_shows_its_message() {
    let e = CurrentGameError {
        kind: CurrentGameErrorKind::SimpleKo,
        message: "ko".into(),
    };
    assert_eq!(e.to_display_string(), "ko");
}

#[test]
fn an_empty_provider_summary_knows_only_its_provider() {
    let summary = ProviderGameSummary::empty(ProviderKind::Fox);
    assert_eq!(summary.provider, ProviderKind::Fox);
    assert!(summary.source_id.is_none() && summary.board_size.is_none() && summary.komi_bits.is_none());
    assert!(summary.handicap.is_none() && summary.move_count.is_none() && summary.result.is_none());
}
