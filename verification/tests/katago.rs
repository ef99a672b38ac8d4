use lizzieyzy_next::katago::{
    gtp_vertex_to_dto, move_dto_to_kata_move, move_vertex_to_kata_coordinate,
    normalize_analysis_turns, player_color_to_kata, point_to_kata_coordinate,
    terminate_action_jsonl, ProtocolError,
};
use lizzieyzy_next::model::{MoveDto, MoveVertex, PlayerColor, PointDto};

fn pass(color: PlayerColor, move_number: u32) -> MoveDto {
    MoveDto {
        color,
        vertex: MoveVertex::Pass,
        move_number,
    }
}

#[test]
fn converts_pass_to_katago_pass() {
    let move_ = pass(PlayerColor::Black, 1);
    let kata_move = move_dto_to_kata_move(&move_, 19).unwrap();

    assert_eq!(kata_move, ("B".to_string(), "pass".to_string()));
}

#[test]
fn skips_i_column_in_katago_coordinates() {
    let coordinate = point_to_kata_coordinate(&PointDto { x: 8, y: 9 }, 19).unwrap();

    assert_eq!(coordinate, "J10");
}

#[test]
fn converts_19_line_board_edges() {
    let top_left = point_to_kata_coordinate(&PointDto { x: 0, y: 0 }, 19).unwrap();
    let bottom_right = point_to_kata_coordinate(&PointDto { x: 18, y: 18 }, 19).unwrap();

    assert_eq!(top_left, "A19");
    assert_eq!(bottom_right, "T1");
}

#[test]
fn terminate_action_jsonl_uses_protocol_id_and_action() {
    let line = terminate_action_jsonl("control-42", "job-42");
    assert!(line.ends_with('\n'));
    let value: serde_json::Value = serde_json::from_str(line.trim()).unwrap();
    assert_eq!(value["id"], "control-42");
    assert_eq!(value["terminateId"], "job-42");
    assert_eq!(value["action"], "terminate");
}

#[test]
fn terminate_line_escapes_its_ids() {
    let line = terminate_action_jsonl("a\"b", "c\\d");
    assert_eq!(
        line,
        "{\"action\":\"terminate\",\"id\":\"a\\\"b\",\"terminateId\":\"c\\\\d\"}\n"
    );
}

#[test]
fn off_board_points_are_invalid_vertices() {
    match point_to_kata_coordinate(&PointDto { x: 19, y: 0 }, 19) {
        Err(ProtocolError::InvalidVertex { x, y, board_size }) => {
            assert_eq!((x, y, board_size), (19, 0, 19));
        }
        other => panic!("expected an invalid vertex, got {other:?}"),
    }
    assert!(move_vertex_to_kata_coordinate(&MoveVertex::Point(PointDto { x: 0, y: 9 }), 9).is_err());
    assert!(move_dto_to_kata_move(
        &MoveDto { color: PlayerColor::White, vertex: MoveVertex::Point(PointDto { x: 3, y: 30 }), move_number: 2 },
        19
    )
    .is_err());
}

#[test]
fn colours_and_small_boards() {
    assert_eq!(player_color_to_kata(PlayerColor::Black), "B");
    assert_eq!(player_color_to_kata(PlayerColor::White), "W");
    assert_eq!(point_to_kata_coordinate(&PointDto { x: 7, y: 0 }, 9).unwrap(), "H9");
    assert_eq!(point_to_kata_coordinate(&PointDto { x: 8, y: 8 }, 9).unwrap(), "J1");
    assert_eq!(
        move_dto_to_kata_move(
            &MoveDto { color: PlayerColor::White, vertex: MoveVertex::Point(PointDto { x: 3, y: 15 }), move_number: 2 },
            19
        )
        .unwrap(),
        ("W".to_string(), "D4".to_string())
    );
}

#[test]
fn gtp_vertices_read_back_to_points() {
    assert_eq!(gtp_vertex_to_dto("pass", 19), MoveVertex::Pass);
    assert_eq!(gtp_vertex_to_dto("PASS", 19), MoveVertex::Pass);
    assert_eq!(gtp_vertex_to_dto("", 19), MoveVertex::Pass);
    assert_eq!(gtp_vertex_to_dto("J10", 19), MoveVertex::Point(PointDto { x: 8, y: 9 }));
    assert_eq!(gtp_vertex_to_dto("A19", 19), MoveVertex::Point(PointDto { x: 0, y: 0 }));
    assert_eq!(gtp_vertex_to_dto("t1", 19), MoveVertex::Point(PointDto { x: 18, y: 18 }));
    for x in 0..19u8 {
        for y in 0..19u8 {
            let c = point_to_kata_coordinate(&PointDto { x, y }, 19).unwrap();
            assert_eq!(gtp_vertex_to_dto(&c, 19), MoveVertex::Point(PointDto { x, y }));
        }
    }
}

#[test]
fn analysed_turns_are_clamped_sorted_and_unique() {
    assert_eq!(normalize_analysis_turns(Some(vec![3, 1, 99, 1, 0]), 3), vec![0, 1, 3]);
    assert_eq!(normalize_analysis_turns(None, 3), vec![0, 1, 2, 3]);
    assert_eq!(normalize_analysis_turns(Some(vec![]), 3), Vec::<u32>::new());
    assert_eq!(normalize_analysis_turns(Some(vec![7, 7, 7]), 5), vec![5]);
}

#[test]
fn every_point_reads_back_from_its_katago_vertex() {
    for board_size in [9u8, 13, 19, 25] {
        for x in 0..board_size {
            for y in 0..board_size {
                let point = PointDto { x, y };
                let vertex = point_to_kata_coordinate(&point, board_size).unwrap();
                assert_eq!(gtp_vertex_to_dto(&vertex, board_size), MoveVertex::Point(point));
            }
        }
    }
}

#[test]
fn terminate_action_jsonl_escapes_ids_as_json_strings() {
    let line = terminate_action_jsonl("a\"b", "t\\\n\u{1}");
    assert_eq!(
        line,
        "{\"action\":\"terminate\",\"id\":\"a\\\"b\",\"terminateId\":\"t\\\\\\n\\u0001\"}\n"
    );
}
