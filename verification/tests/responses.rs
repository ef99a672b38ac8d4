use lizzieyzy_next::katago::{
    has_valid_search_geometry, normalize_response, normalize_responses_for_turns, reject_engine_error, AnalysisResponse,
    MoveInfo, ProtocolError, RootInfo, EVEN_WINRATE_BITS,
};
use lizzieyzy_next::model::{MoveVertex, PointDto};

fn response(turn_number: u32, visits: u32) -> AnalysisResponse {
    AnalysisResponse {
        id: "batch-1".to_string(),
        turn_number,
        root_info: Some(RootInfo {
            visits,
            winrate_bits: 0.5f32.to_bits(),
            score_mean_bits: 0.0f32.to_bits(),
            score_lead_bits: None,
            score_stdev_bits: None,
        }),
        move_infos: Vec::new(),
        ownership_bits: None,
        policy_bits: None,
        error: None,
        warning: None,
        is_during_search: Some(false),
        no_results: false,
        action: None,
        field: None,
    }
}

fn floats(bits: &Option<Vec<u32>>) -> Option<Vec<f32>> {
    bits.as_ref().map(|values| values.iter().map(|b| f32::from_bits(*b)).collect())
}

#[test]
fn normalizes_responses_for_requested_turns_sorted_by_turn() {
    let job_id = uuid::Uuid::nil();
    let frames = normalize_responses_for_turns(
        job_id,
        vec![response(3, 30), response(1, 10), response(2, 20)],
        19,
        &[3, 1, 3],
    );

    assert_eq!(frames.iter().map(|frame| frame.turn).collect::<Vec<_>>(), vec![1, 3]);
    assert_eq!(frames.iter().map(|frame| frame.visits).collect::<Vec<_>>(), vec![10, 30]);
}

#[test]
fn normalizes_responses_filters_unrequested_turns_without_collapsing_duplicate_responses() {
    let job_id = uuid::Uuid::nil();
    let frames = normalize_responses_for_turns(
        job_id,
        vec![response(1, 10), response(2, 20), response(1, 11)],
        19,
        &[1, 1],
    );

    assert_eq!(frames.iter().map(|frame| frame.turn).collect::<Vec<_>>(), vec![1, 1]);
    assert_eq!(frames.iter().map(|frame| frame.visits).collect::<Vec<_>>(), vec![10, 11]);
}

#[test]
fn normalizes_response_ownership_and_policy_arrays() {
    let job_id = uuid::Uuid::nil();
    let mut response = response(2, 64);
    response.root_info = Some(RootInfo {
        visits: 64,
        winrate_bits: 0.52f32.to_bits(),
        score_mean_bits: 1.5f32.to_bits(),
        score_lead_bits: None,
        score_stdev_bits: None,
    });
    response.ownership_bits = Some(vec![0.1f32.to_bits(), (-0.2f32).to_bits(), 0.3f32.to_bits()]);
    response.policy_bits = Some(vec![0.01f32.to_bits(), 0.02f32.to_bits(), 0.03f32.to_bits()]);

    let frame = normalize_response(job_id, response, 19);

    assert_eq!(floats(&frame.ownership_bits), Some(vec![0.1, -0.2, 0.3]));
    assert_eq!(floats(&frame.policy_bits), Some(vec![0.01, 0.02, 0.03]));
}

#[test]
fn engine_error_field_refuses_the_response() {
    let mut refused = response(0, 0);
    refused.error = Some("bad query".to_string());
    match reject_engine_error(refused) {
        Err(ProtocolError::Engine(message)) => assert_eq!(message, "bad query"),
        other => panic!("unexpected result: {other:?}"),
    }
}

#[test]
fn response_without_error_field_is_accepted_unchanged() {
    let accepted = reject_engine_error(response(2, 64)).unwrap();
    assert_eq!(accepted, response(2, 64));
}

#[test]
fn missing_root_reads_as_an_even_game_without_visits() {
    let mut bare = response(4, 0);
    bare.root_info = None;
    let frame = normalize_response(uuid::Uuid::nil(), bare, 19);
    assert_eq!(frame.turn, 4);
    assert_eq!(frame.visits, 0);
    assert_eq!(frame.winrate_black_bits, EVEN_WINRATE_BITS);
    assert_eq!(f32::from_bits(frame.winrate_black_bits), 0.5);
    assert_eq!(f32::from_bits(frame.score_mean_black_bits), 0.0);
    assert_eq!(frame.score_stdev_bits, None);
    assert!(frame.candidates.is_empty());
}

#[test]
fn score_lead_is_preferred_over_score_mean() {
    let mut led = response(1, 10);
    led.root_info = Some(RootInfo {
        visits: 10,
        winrate_bits: 0.6f32.to_bits(),
        score_mean_bits: 1.0f32.to_bits(),
        score_lead_bits: Some(2.5f32.to_bits()),
        score_stdev_bits: Some(4.0f32.to_bits()),
    });
    let frame = normalize_response(uuid::Uuid::nil(), led, 19);
    assert_eq!(f32::from_bits(frame.score_mean_black_bits), 2.5);
    assert_eq!(frame.score_stdev_bits, Some(4.0f32.to_bits()));
}

#[test]
fn candidates_read_vertices_and_variations_on_the_board() {
    let mut with_moves = response(0, 5);
    with_moves.move_infos = vec![
        MoveInfo {
            move_: Some("D4".to_string()),
            visits: 5,
            winrate_bits: 0.4f32.to_bits(),
            score_mean_bits: (-1.0f32).to_bits(),
            prior_bits: Some(0.25f32.to_bits()),
            pv: vec!["D4".to_string(), "pass".to_string(), "Z99".to_string()],
        },
        MoveInfo {
            move_: None,
            visits: 1,
            winrate_bits: 0.4f32.to_bits(),
            score_mean_bits: 0.0f32.to_bits(),
            prior_bits: None,
            pv: Vec::new(),
        },
    ];
    let frame = normalize_response(uuid::Uuid::nil(), with_moves, 19);
    assert_eq!(frame.candidates.len(), 2);
    assert_eq!(frame.candidates[0].vertex, MoveVertex::Point(PointDto { x: 3, y: 15 }));
    assert_eq!(frame.candidates[0].policy_prior_bits, Some(0.25f32.to_bits()));
    assert_eq!(
        frame.candidates[0].pv,
        vec![MoveVertex::Point(PointDto { x: 3, y: 15 }), MoveVertex::Pass, MoveVertex::Pass]
    );
    assert_eq!(frame.candidates[1].vertex, MoveVertex::Pass);
    assert_eq!(frame.candidates[1].visits, 1);
}

#[test]
fn search_geometry_needs_visits_valid_vertices_and_full_arrays() {
    let mut r = response(0, 10);
    r.move_infos.push(MoveInfo {
        move_: Some("D4".into()),
        visits: 5,
        winrate_bits: 0.5f32.to_bits(),
        score_mean_bits: 0.0f32.to_bits(),
        prior_bits: None,
        pv: vec!["D4".into(), "pass".into()],
    });
    assert!(has_valid_search_geometry(&r, 9));
    r.ownership_bits = Some(vec![0; 81]);
    r.policy_bits = Some(vec![0; 82]);
    assert!(has_valid_search_geometry(&r, 9));
    r.policy_bits = Some(vec![0; 81]);
    assert!(!has_valid_search_geometry(&r, 9));
    r.policy_bits = None;
    r.move_infos[0].pv.push("I3".into());
    assert!(!has_valid_search_geometry(&r, 9));
    assert!(!has_valid_search_geometry(&response(0, 0), 9));
    let mut none = response(0, 10);
    none.no_results = true;
    assert!(!has_valid_search_geometry(&none, 9));
}
