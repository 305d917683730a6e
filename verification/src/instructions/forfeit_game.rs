//! Claiming a game whose other player did not reveal in time.
//!
//! Once the reveal deadline has passed, the one player who revealed can take
//! the game. If neither revealed, nobody can.
use crate::errors::GameError;
use crate::identity::Identity;
use crate::state::{Game, GameStatus, GameView};
use vstd::prelude::*;

verus! {

/// What a forfeit works on: the game, the player who claims the forfeit, and
/// the time.
pub struct ForfeitGame {
    pub game: Game,
    pub forfeit_claimer: Identity,
    /// The current time, in seconds.
    pub now: i64,
}

/// The one player who has revealed, if there is exactly one.
pub open spec fn sole_revealer(game: GameView) -> Option<Identity> {
    match game.status {
        GameStatus::CreatorRevealed => Some(game.creator),
        GameStatus::ChallengerRevealed => game.challenger,
        _ => None,
    }
}

/// Whether the reveal deadline of `game` is set and lies before `now`.
pub open spec fn deadline_passed(game: GameView, now: i64) -> bool {
    game.reveal_deadline is Some && now > game.reveal_deadline->0
}

/// What a forfeit claimed by `claimer` at time `now` does to `game`: the game
/// afterwards, or the reason for which the claim is refused.
///
/// The checks come in this order: the deadline is set and has passed; exactly
/// one side has revealed; the claimer is that side.
pub open spec fn forfeit_game_spec(game: GameView, claimer: Identity, now: i64) -> Result<
    GameView,
    GameError,
> {
    if !deadline_passed(game, now) {
        Err(GameError::RevealDeadlineNotPassed)
    } else if game.status != GameStatus::CreatorRevealed && game.status
        != GameStatus::ChallengerRevealed {
        Err(GameError::InvalidGameStatus)
    } else if sole_revealer(game) != Some(claimer) {
        Err(GameError::Unauthorized)
    } else {
        Ok(GameView { winner: Some(claimer), status: GameStatus::Forfeited, ..game })
    }
}

/// Gives the game to `ctx.forfeit_claimer`, the only player who revealed
/// before the deadline. A refused claim leaves the game as it was.
pub fn handler(ctx: &mut ForfeitGame) -> (result: Result<(), GameError>)
    ensures
        final(ctx).forfeit_claimer == old(ctx).forfeit_claimer,
        final(ctx).now == old(ctx).now,
        match result {
            Ok(()) => forfeit_game_spec(old(ctx).game@, old(ctx).forfeit_claimer, old(ctx).now)
                == Ok::<GameView, GameError>(final(ctx).game@),
            Err(e) => forfeit_game_spec(old(ctx).game@, old(ctx).forfeit_claimer, old(ctx).now)
                == Err::<GameView, GameError>(e) && final(ctx).game == old(ctx).game,
        },
        old(ctx).game.wf() ==> final(ctx).game.wf(),
{
    let passed = match ctx.game.reveal_deadline {
        Some(deadline) => ctx.now > deadline,
        None => false,
    };
    if !passed {
        return Err(GameError::RevealDeadlineNotPassed);
    }
    let forfeit_winner = match ctx.game.status {
        GameStatus::CreatorRevealed => Some(ctx.game.creator),
        GameStatus::ChallengerRevealed => ctx.game.challenger,
        _ => {
            return Err(GameError::InvalidGameStatus);
        },
    };
    if !ctx.forfeit_claimer.is_held_by(&forfeit_winner) {
        return Err(GameError::Unauthorized);
    }
    ctx.game.winner = forfeit_winner;
    ctx.game.status = GameStatus::Forfeited;
    Ok(())
}

} // verus!
