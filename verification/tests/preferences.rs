use lizzieyzy_next::preferences::{
    accept_loaded_preferences, default_app_preferences, default_candidate_limit,
    normalize_app_preferences, prepare_preferences_for_save, tmp_path, AppPreferencesDto,
    ContinuousAnalysisBudgetDto,
};

fn sample_preferences() -> AppPreferencesDto {
    AppPreferencesDto {
        continuous_analysis_enabled: false,
        continuous_budget: ContinuousAnalysisBudgetDto {
            continuous_time_limit_enabled: false,
            continuous_time_limit_seconds: 7,
            continuous_visits_limit_enabled: true,
            continuous_visits_limit: 123,
            continuous_stop_on_empty_board: true,
        },
        show_ownership: false,
        show_policy: false,
        show_candidates: false,
        candidate_limit: 3,
        default_max_visits: 200,
        review_mode: "deep".to_string(),
        board_theme: "high-contrast".to_string(),
        graph_perspective: "sideToPlay".to_string(),
        winrate_line: false,
        score_lead_line: true,
        blunder_bar: true,
        graph_hover: false,
        score_lead_scale: 20,
        next_move_review_marker: "graded".to_string(),
        sub_board_content_mode: "raw".to_string(),
        variation_replay_enabled: true,
        variation_replay_interval_ms: 250,
        restore_last_session: true,
    }
}

#[test]
fn variation_replay_interval_clamps_to_100_5000() {
    let low = normalize_app_preferences(AppPreferencesDto {
        variation_replay_interval_ms: 50,
        ..default_app_preferences()
    });
    let high = normalize_app_preferences(AppPreferencesDto {
        variation_replay_interval_ms: 9000,
        ..default_app_preferences()
    });
    assert_eq!(low.variation_replay_interval_ms, 100);
    assert_eq!(high.variation_replay_interval_ms, 5000);
    assert!(!default_app_preferences().variation_replay_enabled);
    assert_eq!(default_app_preferences().variation_replay_interval_ms, 500);
}

#[test]
fn owner_defaults() {
    let d = default_app_preferences();
    assert!(d.continuous_analysis_enabled);
    assert!(d.show_ownership && d.show_policy && d.show_candidates);
    assert_eq!(d.candidate_limit, 8);
    assert_eq!(default_candidate_limit(), 8);
    assert_eq!(d.review_mode, "quick");
    assert_eq!(d.board_theme, "classic");
    assert_eq!(d.next_move_review_marker, "variations");
    assert_eq!(d.sub_board_content_mode, "variation");
    assert!(!d.restore_last_session);
    assert_eq!(d.continuous_budget, ContinuousAnalysisBudgetDto::default());
}

#[test]
fn sample_preferences_are_already_normal() {
    assert_eq!(normalize_app_preferences(sample_preferences()), sample_preferences());
    assert_eq!(
        prepare_preferences_for_save(sample_preferences()),
        Ok(sample_preferences())
    );
}

#[test]
fn unknown_values_fall_back_and_limits_clamp() {
    let odd = AppPreferencesDto {
        candidate_limit: 0,
        default_max_visits: 2_000_000,
        review_mode: "DEEP".to_string(),
        board_theme: "neon".to_string(),
        graph_perspective: "white".to_string(),
        winrate_line: false,
        score_lead_line: false,
        score_lead_scale: 0,
        next_move_review_marker: "all".to_string(),
        sub_board_content_mode: "other".to_string(),
        ..sample_preferences()
    };
    let n = normalize_app_preferences(odd);
    assert_eq!(n.candidate_limit, 1);
    assert_eq!(n.default_max_visits, 1_000_000);
    assert_eq!(n.review_mode, "quick");
    assert_eq!(n.board_theme, "classic");
    assert_eq!(n.graph_perspective, "black");
    assert!(n.winrate_line);
    assert_eq!(n.score_lead_scale, 15);
    assert_eq!(n.next_move_review_marker, "variations");
    assert_eq!(n.sub_board_content_mode, "variation");
    let big = normalize_app_preferences(AppPreferencesDto {
        score_lead_scale: 5000,
        candidate_limit: 99,
        ..sample_preferences()
    });
    assert_eq!(big.score_lead_scale, 1000);
    assert_eq!(big.candidate_limit, 20);
    assert_eq!(normalize_app_preferences(n.clone()), n);
}

#[test]
fn invalid_continuous_budget_is_refused_on_save_and_load() {
    for budget in [
        ContinuousAnalysisBudgetDto {
            continuous_time_limit_seconds: 0,
            ..ContinuousAnalysisBudgetDto::default()
        },
        ContinuousAnalysisBudgetDto {
            continuous_visits_limit: 0,
            ..ContinuousAnalysisBudgetDto::default()
        },
    ] {
        let p = AppPreferencesDto { continuous_budget: budget, ..sample_preferences() };
        assert_eq!(
            prepare_preferences_for_save(p.clone()),
            Err("Continuous analysis limits must be whole numbers from 1 to 4294967295.".to_string())
        );
        assert_eq!(accept_loaded_preferences(p), None);
        assert!(budget.validate().is_err());
    }
    assert_eq!(
        accept_loaded_preferences(AppPreferencesDto { candidate_limit: 50, ..sample_preferences() })
            .map(|p| p.candidate_limit),
        Some(20)
    );
}

#[test]
fn temporary_file_sits_beside_the_target() {
    assert_eq!(tmp_path("/a/prefs.json"), "/a/prefs.json.tmp");
}
