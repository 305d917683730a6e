//! Creating a game.
//!
//! The creator picks the number of rounds and the stake per round, commits to
//! moves, and puts up the stake for all rounds. The game then waits for a
//! challenger.
use crate::errors::GameError;
use crate::identity::Identity;
use crate::state::{valid_rounds, Endpoint, Game, GameStatus, GameView, Transfer};
use vstd::prelude::*;

verus! {

/// What the creation of a game works on: the player who creates it, and the
/// time.
pub struct CreateGame {
    pub creator: Identity,
    /// The current time, in seconds.
    pub now: i64,
}

/// The game that `creator` creates at time `now` and the transfer of the
/// creator's stake into the escrow, or the reason for which the creation is
/// refused.
///
/// The checks come in this order: the number of rounds is 1, 3 or 5; the
/// stake per round is not zero; the stake for all rounds fits in 64 bits.
pub open spec fn create_game_spec(
    creator: Identity,
    now: i64,
    game_id: [u8; 8],
    rounds: u8,
    stake_per_round: u64,
    commitment: [u8; 32],
) -> Result<(GameView, Transfer), GameError> {
    if !valid_rounds(rounds) {
        Err(GameError::InvalidRounds)
    } else if stake_per_round == 0 {
        Err(GameError::InvalidStake)
    } else if stake_per_round * rounds > u64::MAX {
        Err(GameError::ArithmeticOverflow)
    } else {
        let total_stake = (stake_per_round * rounds) as u64;
        Ok(
            (
                GameView {
                    game_id,
                    creator,
                    challenger: None,
                    rounds,
                    stake_per_round,
                    total_pot: total_stake,
                    creator_commitment: commitment,
                    challenger_commitment: None,
                    creator_moves: None,
                    challenger_moves: None,
                    status: GameStatus::WaitingForChallenger,
                    created_at: now,
                    joined_at: None,
                    reveal_deadline: None,
                    winner: None,
                    round_results: Seq::empty(),
                    fees_collected: 0,
                },
                Transfer {
                    from: Endpoint::Player(creator),
                    to: Endpoint::Escrow,
                    amount: total_stake,
                },
            ),
        )
    }
}

/// Creates a game for `ctx.creator` and asks for the transfer of the stake.
pub fn handler(
    ctx: &CreateGame,
    game_id: [u8; 8],
    rounds: u8,
    stake_per_round: u64,
    commitment: [u8; 32],
) -> (result: Result<(Game, Transfer), GameError>)
    ensures
        match result {
            Ok((game, transfer)) => create_game_spec(
                ctx.creator,
                ctx.now,
                game_id,
                rounds,
                stake_per_round,
                commitment,
            ) == Ok::<(GameView, Transfer), GameError>((game@, transfer)) && game.wf(),
            Err(e) => create_game_spec(
                ctx.creator,
                ctx.now,
                game_id,
                rounds,
                stake_per_round,
                commitment,
            ) == Err::<(GameView, Transfer), GameError>(e),
        },
        result is Ok <==> valid_rounds(rounds) && stake_per_round > 0 && stake_per_round * rounds
            <= u64::MAX,
{
    if !(rounds == 1 || rounds == 3 || rounds == 5) {
        return Err(GameError::InvalidRounds);
    }
    if stake_per_round == 0 {
        return Err(GameError::InvalidStake);
    }
    let total_stake: u64 = match stake_per_round.checked_mul(rounds as u64) {
        Some(total) => total,
        None => {
            return Err(GameError::ArithmeticOverflow);
        },
    };
    let transfer = Transfer {
        from: Endpoint::Player(ctx.creator),
        to: Endpoint::Escrow,
        amount: total_stake,
    };
    let game = Game {
        game_id,
        creator: ctx.creator,
        challenger: None,
        rounds,
        stake_per_round,
        total_pot: total_stake,
        creator_commitment: commitment,
        challenger_commitment: None,
        creator_moves: None,
        challenger_moves: None,
        status: GameStatus::WaitingForChallenger,
        created_at: ctx.now,
        joined_at: None,
        reveal_deadline: None,
        winner: None,
        round_results: Vec::new(),
        fees_collected: 0,
    };
    Ok((game, transfer))
}

} // verus!
