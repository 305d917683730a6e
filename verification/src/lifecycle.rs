//! The game as a state machine: its operations as values, and what a
//! sequence of them does.
//!
//! An operation that is refused changes nothing, so a sequence of operations
//! can be run whatever it holds: the game goes through the steps that are
//! accepted.
use crate::errors::GameError;
use crate::identity::Identity;
use crate::instructions::claim_prize::claim_prize_spec;
use crate::instructions::forfeit_game::forfeit_game_spec;
use crate::instructions::join_game::join_game_spec;
use crate::instructions::reveal_moves::reveal_spec;
use crate::state::{Endpoint, GameView, Transfer};
use vstd::prelude::*;

verus! {

/// An operation on an existing game, with everything it depends on.
pub enum Operation {
    /// `challenger` joins at time `now` with `commitment`.
    Join { challenger: Identity, now: i64, commitment: [u8; 32] },
    /// `player` reveals `moves` at time `now`; `digest` is the hash of what
    /// was revealed.
    Reveal { player: Identity, now: i64, moves: Seq<u8>, digest: [u8; 32] },
    /// `claimer` claims a share of the pot.
    Claim { claimer: Identity },
    /// `claimer` claims the forfeit at time `now`.
    Forfeit { claimer: Identity, now: i64 },
}

/// What `op` does to `game`: the game afterwards and the transfers asked
/// for, or the reason for which it is refused.
pub open spec fn apply(game: GameView, op: Operation) -> Result<
    (GameView, Seq<Transfer>),
    GameError,
> {
    match op {
        Operation::Join { challenger, now, commitment } => match join_game_spec(
            game,
            challenger,
            now,
            commitment,
        ) {
            Ok((after, transfer)) => Ok((after, seq![transfer])),
            Err(e) => Err(e),
        },
        Operation::Reveal { player, now, moves, digest } => match reveal_spec(
            game,
            player,
            now,
            moves,
            digest,
        ) {
            Ok(after) => Ok((after, Seq::empty())),
            Err(e) => Err(e),
        },
        Operation::Claim { claimer } => claim_prize_spec(game, claimer),
        Operation::Forfeit { claimer, now } => match forfeit_game_spec(game, claimer, now) {
            Ok(after) => Ok((after, Seq::empty())),
            Err(e) => Err(e),
        },
    }
}

/// The game after `op`, which is `game` itself where `op` is refused.
pub open spec fn step(game: GameView, op: Operation) -> GameView {
    match apply(game, op) {
        Ok((after, _)) => after,
        Err(_) => game,
    }
}

/// The game after the operations `ops`, attempted in order.
pub open spec fn run(game: GameView, ops: Seq<Operation>) -> GameView
    decreases ops.len(),
{
    if ops.len() == 0 {
        game
    } else {
        step(run(game, ops.drop_last()), ops.last())
    }
}

/// The funds that `transfers` take out of the escrow.
pub open spec fn escrow_debits(transfers: Seq<Transfer>) -> int
    decreases transfers.len(),
{
    if transfers.len() == 0 {
        0
    } else {
        escrow_debits(transfers.drop_last()) + if transfers.last().from == Endpoint::Escrow {
            transfers.last().amount as int
        } else {
            0
        }
    }
}

/// The funds that `op` takes out of the escrow of `game`: nothing where it
/// is refused.
pub open spec fn step_debits(game: GameView, op: Operation) -> int {
    match apply(game, op) {
        Ok((_, transfers)) => escrow_debits(transfers),
        Err(_) => 0,
    }
}

/// The funds that the operations `ops`, attempted in order, take out of the
/// escrow of `game`.
pub open spec fn run_debits(game: GameView, ops: Seq<Operation>) -> int
    decreases ops.len(),
{
    if ops.len() == 0 {
        0
    } else {
        run_debits(game, ops.drop_last()) + step_debits(run(game, ops.drop_last()), ops.last())
    }
}

} // verus!
