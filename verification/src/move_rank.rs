//! Ranks of a played move, from Best to Blunder, and the rule that picks one
//! from the loss thresholds a move reaches.
use vstd::prelude::*;

verus! {

/// Thresholds from this level up count winrate loss even when a score loss
/// is known.
pub const MISTAKE_LEVEL: usize = 3;

/// The highest severity level.
pub const TOP_LEVEL: usize = 5;

#[derive(Debug, Clone, Copy, PartialEq, Eq, Structural)]
pub enum MoveRank {
    Best,
    Good,
    Normal,
    Inaccuracy,
    Mistake,
    Blunder,
}

/// The severity level of a rank, 0 for Best up to 5 for Blunder.
pub open spec fn rank_level(r: MoveRank) -> nat {
    match r {
        MoveRank::Best => 0,
        MoveRank::Good => 1,
        MoveRank::Normal => 2,
        MoveRank::Inaccuracy => 3,
        MoveRank::Mistake => 4,
        MoveRank::Blunder => 5,
    }
}

impl MoveRank {
    /// The rank of a severity level; 0 and levels above 5 are Best.
    fn from_level(level: usize) -> (r: Self)
        ensures
            1 <= level <= TOP_LEVEL ==> rank_level(r) == level,
            (level == 0 || level > TOP_LEVEL) ==> r == MoveRank::Best,
    {
        match level {
            5 => MoveRank::Blunder,
            4 => MoveRank::Mistake,
            3 => MoveRank::Inaccuracy,
            2 => MoveRank::Normal,
            1 => MoveRank::Good,
            _ => MoveRank::Best,
        }
    }
}

/// Whether threshold `level` is reached, given how many winrate thresholds
/// the loss reaches and, when a score loss is known, how many score
/// thresholds it reaches. With a score, only the upper levels still count
/// winrate loss.
pub open spec fn reaches_level(winrate_level: nat, score_level: Option<nat>, level: nat) -> bool {
    match score_level {
        None => winrate_level >= level,
        Some(s) => s >= level || (level > MISTAKE_LEVEL && winrate_level >= level),
    }
}

/// The highest level from 1 to `top` that is reached, or 0.
pub open spec fn highest_reached(winrate_level: nat, score_level: Option<nat>, top: nat) -> nat
    decreases top,
{
    if top == 0 {
        0
    } else if reaches_level(winrate_level, score_level, top) {
        top
    } else {
        highest_reached(winrate_level, score_level, (top - 1) as nat)
    }
}

/// The rank of a move whose winrate loss reaches `winrate_level` of the
/// ascending winrate thresholds and whose score loss, when known, reaches
/// `score_level` of the ascending score thresholds: the most severe level
/// reached.
pub fn rank_from_reached_levels(winrate_level: usize, score_level: Option<usize>) -> (r: MoveRank)
    requires
        winrate_level <= TOP_LEVEL,
        score_level matches Some(s) ==> s <= TOP_LEVEL,
    ensures
        rank_level(r) == highest_reached(
            winrate_level as nat,
            match score_level {
                Some(s) => Some(s as nat),
                None => None,
            },
            TOP_LEVEL as nat,
        ),
{
    let ghost sl: Option<nat> = match score_level {
        Some(s) => Some(s as nat),
        None => None,
    };
    let mut level: usize = TOP_LEVEL;
    while level > 0
        invariant
            level <= TOP_LEVEL,
            winrate_level <= TOP_LEVEL,
            sl == (match score_level {
                Some(s) => Some(s as nat),
                None => None,
            }),
            highest_reached(winrate_level as nat, sl, TOP_LEVEL as nat) == highest_reached(
                winrate_level as nat,
                sl,
                level as nat,
            ),
        decreases level,
    {
        let reached = match score_level {
            None => winrate_level >= level,
            Some(s) => s >= level || (level > MISTAKE_LEVEL && winrate_level >= level),
        };
        if reached {
            return MoveRank::from_level(level);
        }
        level -= 1;
    }
    MoveRank::Best
}

/// The last three ranks are the ones the blunder bar shows.
pub fn is_blunder_bar_rank(rank: MoveRank) -> (r: bool)
    ensures
        r == (rank_level(rank) >= 3),
{
    match rank {
        MoveRank::Inaccuracy | MoveRank::Mistake | MoveRank::Blunder => true,
        _ => false,
    }
}

proof fn lemma_highest_reached(winrate_level: nat, score_level: Option<nat>, top: nat)
    ensures
        highest_reached(winrate_level, score_level, top) == {
            let w = if winrate_level < top { winrate_level } else { top };
            match score_level {
                None => w,
                Some(s) => {
                    let sc = if s < top { s } else { top };
                    if w > MISTAKE_LEVEL && w > sc { w } else { sc }
                },
            }
        },
    decreases top,
{
    if top > 0 && !reaches_level(winrate_level, score_level, top) {
        lemma_highest_reached(winrate_level, score_level, (top - 1) as nat);
    }
}

/// One rank comes out, the most severe that either loss earns: without a
/// score it is the winrate level; with one it is the score level, raised to
/// the winrate level only where that is above Inaccuracy.
pub proof fn rank_is_most_severe_reached(winrate_level: nat, score_level: Option<nat>)
    requires
        winrate_level <= TOP_LEVEL,
        score_level matches Some(s) ==> s <= TOP_LEVEL,
    ensures
        highest_reached(winrate_level, score_level, TOP_LEVEL as nat) == match score_level {
            None => winrate_level,
            Some(s) => if winrate_level > MISTAKE_LEVEL && winrate_level > s {
                winrate_level
            } else {
                s
            },
        },
{
    lemma_highest_reached(winrate_level, score_level, TOP_LEVEL as nat);
}

} // verus!
