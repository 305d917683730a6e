//! Joining a game as its challenger.
//!
//! The challenger commits to moves and matches the creator's stake, which
//! doubles the pot. From that moment both players have a fixed time to reveal.
use crate::errors::GameError;
use crate::identity::Identity;
use crate::state::{Endpoint, Game, GameStatus, GameView, Transfer, REVEAL_WINDOW_SECONDS};
use vstd::prelude::*;

verus! {

/// What joining works on: the game, the player who joins, and the time.
pub struct JoinGame {
    pub game: Game,
    pub challenger: Identity,
    /// The current time, in seconds.
    pub now: i64,
}

/// What `challenger` joining `game` at time `now` does: the game afterwards
/// and the transfer of the challenger's stake into the escrow, or the reason
/// for which joining is refused.
///
/// The checks come in this order: the game waits for a challenger; the
/// challenger is not the creator; the stake for all rounds fits in 64 bits;
/// so does twice the pot.
pub open spec fn join_game_spec(
    game: GameView,
    challenger: Identity,
    now: i64,
    commitment: [u8; 32],
) -> Result<(GameView, Transfer), GameError> {
    if game.status != GameStatus::WaitingForChallenger {
        Err(GameError::InvalidGameStatus)
    } else if challenger == game.creator {
        Err(GameError::CannotJoinOwnGame)
    } else if game.stake_per_round * game.rounds > u64::MAX {
        Err(GameError::ArithmeticOverflow)
    } else if game.total_pot * 2 > u64::MAX {
        Err(GameError::ArithmeticOverflow)
    } else {
        Ok(
            (
                GameView {
                    challenger: Some(challenger),
                    challenger_commitment: Some(commitment),
                    status: GameStatus::WaitingForReveals,
                    joined_at: Some(now),
                    reveal_deadline: Some((now + REVEAL_WINDOW_SECONDS) as i64),
                    total_pot: (game.total_pot * 2) as u64,
                    ..game
                },
                Transfer {
                    from: Endpoint::Player(challenger),
                    to: Endpoint::Escrow,
                    amount: (game.stake_per_round * game.rounds) as u64,
                },
            ),
        )
    }
}

/// Lets `ctx.challenger` join the game and asks for the transfer of the
/// stake. A refused attempt leaves the game as it was.
///
/// The reveal deadline, `REVEAL_WINDOW_SECONDS` after `ctx.now`, has to be a
/// time that 64 bits can hold.
pub fn handler(ctx: &mut JoinGame, commitment: [u8; 32]) -> (result: Result<Transfer, GameError>)
    requires
        old(ctx).now + REVEAL_WINDOW_SECONDS <= i64::MAX,
    ensures
        final(ctx).challenger == old(ctx).challenger,
        final(ctx).now == old(ctx).now,
        match result {
            Ok(transfer) => join_game_spec(
                old(ctx).game@,
                old(ctx).challenger,
                old(ctx).now,
                commitment,
            ) == Ok::<(GameView, Transfer), GameError>((final(ctx).game@, transfer)),
            Err(e) => join_game_spec(
                old(ctx).game@,
                old(ctx).challenger,
                old(ctx).now,
                commitment,
            ) == Err::<(GameView, Transfer), GameError>(e) && final(ctx).game == old(ctx).game,
        },
        old(ctx).game.wf() ==> final(ctx).game.wf(),
{
    if ctx.game.status != GameStatus::WaitingForChallenger {
        return Err(GameError::InvalidGameStatus);
    }
    if ctx.challenger == ctx.game.creator {
        return Err(GameError::CannotJoinOwnGame);
    }
    let challenger_stake: u64 = match ctx.game.stake_per_round.checked_mul(ctx.game.rounds as u64) {
        Some(stake) => stake,
        None => {
            return Err(GameError::ArithmeticOverflow);
        },
    };
    let doubled_pot: u64 = match ctx.game.total_pot.checked_mul(2) {
        Some(pot) => pot,
        None => {
            return Err(GameError::ArithmeticOverflow);
        },
    };
    ctx.game.challenger = Some(ctx.challenger);
    ctx.game.challenger_commitment = Some(commitment);
    ctx.game.status = GameStatus::WaitingForReveals;
    ctx.game.joined_at = Some(ctx.now);
    ctx.game.reveal_deadline = Some(ctx.now + REVEAL_WINDOW_SECONDS);
    ctx.game.total_pot = doubled_pot;
    Ok(
        Transfer {
            from: Endpoint::Player(ctx.challenger),
            to: Endpoint::Escrow,
            amount: challenger_stake,
        },
    )
}

} // verus!
