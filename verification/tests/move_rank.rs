use lizzieyzy_next::move_rank::{is_blunder_bar_rank, rank_from_reached_levels, MoveRank};

#[test]
fn last_three_ranks_are_the_blunder_bar_filter() {
    assert!(!is_blunder_bar_rank(MoveRank::Best));
    assert!(!is_blunder_bar_rank(MoveRank::Good));
    assert!(!is_blunder_bar_rank(MoveRank::Normal));
    assert!(is_blunder_bar_rank(MoveRank::Inaccuracy));
    assert!(is_blunder_bar_rank(MoveRank::Mistake));
    assert!(is_blunder_bar_rank(MoveRank::Blunder));
}

#[test]
fn without_a_score_the_winrate_level_decides() {
    let ranks = [
        MoveRank::Best,
        MoveRank::Good,
        MoveRank::Normal,
        MoveRank::Inaccuracy,
        MoveRank::Mistake,
        MoveRank::Blunder,
    ];
    for (level, rank) in ranks.iter().enumerate() {
        assert_eq!(rank_from_reached_levels(level, None), *rank);
    }
}

#[test]
fn with_a_score_moderate_winrate_loss_is_ignored() {
    // 6pp of winrate loss reaches three thresholds; a 0.4 score loss none.
    assert_eq!(rank_from_reached_levels(3, Some(0)), MoveRank::Best);
    assert_eq!(rank_from_reached_levels(0, Some(3)), MoveRank::Inaccuracy);
    assert_eq!(rank_from_reached_levels(0, Some(5)), MoveRank::Blunder);
}

#[test]
fn with_a_score_large_winrate_loss_still_guards() {
    // 20pp reaches four winrate thresholds, 24pp all five.
    assert_eq!(rank_from_reached_levels(4, Some(0)), MoveRank::Mistake);
    assert_eq!(rank_from_reached_levels(5, Some(0)), MoveRank::Blunder);
    assert_eq!(rank_from_reached_levels(5, Some(4)), MoveRank::Blunder);
    assert_eq!(rank_from_reached_levels(3, Some(5)), MoveRank::Blunder);
    assert_eq!(rank_from_reached_levels(2, Some(1)), MoveRank::Good);
}
