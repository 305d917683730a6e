//! Who wins a round, and who wins the match.
//!
//! The three moves form a cycle: each beats the one before it, and the first
//! beats the last. A round between equal moves is drawn. The match goes to the
//! side that took strictly more rounds.
use crate::state::{RoundResult, RoundWinner, ROCK, SCISSORS};
use vstd::prelude::*;

verus! {

/// Whether `m` is one of the three moves.
pub open spec fn is_move(m: u8) -> bool {
    ROCK <= m <= SCISSORS
}

/// Whether move `a` beats move `b`: both are moves and `a` follows `b` in the
/// cycle 1, 2, 3, 1.
pub open spec fn beats(a: u8, b: u8) -> bool {
    is_move(a) && is_move(b) && a - 1 == b % 3
}

/// Who takes a round in which the creator played `creator_move` and the
/// challenger `challenger_move`. Anything that neither side wins is a draw.
pub open spec fn round_winner(creator_move: u8, challenger_move: u8) -> RoundWinner {
    if beats(creator_move, challenger_move) {
        RoundWinner::Creator
    } else if beats(challenger_move, creator_move) {
        RoundWinner::Challenger
    } else {
        RoundWinner::Draw
    }
}

/// The record of one round.
pub open spec fn round_result(creator_move: u8, challenger_move: u8) -> RoundResult {
    RoundResult {
        creator_move,
        challenger_move,
        winner: round_winner(creator_move, challenger_move),
    }
}

/// The number of rounds that two move sequences play: every position that
/// both of them fill.
pub open spec fn rounds_played(creator_moves: Seq<u8>, challenger_moves: Seq<u8>) -> nat {
    if creator_moves.len() <= challenger_moves.len() {
        creator_moves.len()
    } else {
        challenger_moves.len()
    }
}

/// The records of all rounds, in round order.
pub open spec fn resolve_rounds(creator_moves: Seq<u8>, challenger_moves: Seq<u8>) -> Seq<
    RoundResult,
> {
    Seq::new(
        rounds_played(creator_moves, challenger_moves),
        |i: int| round_result(creator_moves[i], challenger_moves[i]),
    )
}

/// How many of `results` went to `side`.
pub open spec fn wins(results: Seq<RoundResult>, side: RoundWinner) -> nat
    decreases results.len(),
{
    if results.len() == 0 {
        0
    } else {
        wins(results.drop_last(), side) + if results.last().winner == side {
            1nat
        } else {
            0nat
        }
    }
}

/// Who takes the match: the side with strictly more rounds, if there is one.
pub open spec fn match_winner(results: Seq<RoundResult>) -> RoundWinner {
    let creator_wins = wins(results, RoundWinner::Creator);
    let challenger_wins = wins(results, RoundWinner::Challenger);
    if creator_wins > challenger_wins {
        RoundWinner::Creator
    } else if challenger_wins > creator_wins {
        RoundWinner::Challenger
    } else {
        RoundWinner::Draw
    }
}

/// Decides one round.
pub fn resolve_round(creator_move: u8, challenger_move: u8) -> (winner: RoundWinner)
    ensures
        winner == round_winner(creator_move, challenger_move),
{
    match (creator_move, challenger_move) {
        (1, 3) | (2, 1) | (3, 2) => RoundWinner::Creator,
        (3, 1) | (1, 2) | (2, 3) => RoundWinner::Challenger,
        _ => RoundWinner::Draw,
    }
}

} // verus!
