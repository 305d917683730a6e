//! Claiming a player's share of a finished game.
//!
//! A claim reads the outcome and asks for the transfers that follow from it.
//! It is no step of the lifecycle: the status stays as it is, and the record
//! keeps no trace of who has claimed. Every successful claim of a won game
//! computes the fee anew and asks for its distribution again, and a player can
//! claim more than once. What bounds the funds that leave the escrow is the
//! escrow itself: a transfer that it cannot cover fails, and with it the claim.
use crate::errors::GameError;
use crate::identity::Identity;
use crate::payout::{compute_payout, fee_split_spec, payout_spec, split_fee};
use crate::state::{Endpoint, Game, GameStatus, GameView, Transfer};
use vstd::prelude::*;

verus! {

/// What a claim works on: the game and the player who claims.
pub struct ClaimPrize {
    pub game: Game,
    pub claimer: Identity,
}

/// The transfers that a claim asks for, in this order: `amount` from the
/// escrow to the claimer, then the two parts of `fees` to the treasury and to
/// the burn balance. A part that is zero is left out.
pub open spec fn claim_transfers(claimer: Identity, amount: u64, fees: u64) -> Seq<Transfer> {
    let split = fee_split_spec(fees);
    let to_claimer = if amount > 0 {
        seq![Transfer { from: Endpoint::Escrow, to: Endpoint::Player(claimer), amount }]
    } else {
        Seq::<Transfer>::empty()
    };
    let to_treasury = if split.treasury_share > 0 {
        seq![
            Transfer { from: Endpoint::Escrow, to: Endpoint::Treasury, amount: split.treasury_share },
        ]
    } else {
        Seq::<Transfer>::empty()
    };
    let to_burn = if split.burn_share > 0 {
        seq![Transfer { from: Endpoint::Escrow, to: Endpoint::Burn, amount: split.burn_share }]
    } else {
        Seq::<Transfer>::empty()
    };
    to_claimer + to_treasury + to_burn
}

/// What a claim by `claimer` does to `game`: the game afterwards and the
/// transfers asked for, or the reason for which it is refused.
///
/// The checks come in this order: the game is over; the fee of a won pot can
/// be computed; the claimer is one of the two players. In a won game the fee
/// on record becomes the fee just computed; in a drawn game it stays.
pub open spec fn claim_prize_spec(game: GameView, claimer: Identity) -> Result<
    (GameView, Seq<Transfer>),
    GameError,
> {
    if !game.is_over() {
        Err(GameError::InvalidGameStatus)
    } else {
        match payout_spec(game.total_pot, game.winner, game.creator) {
            Err(e) => Err(e),
            Ok(payout) => {
                let fees = if game.winner is Some {
                    payout.fee
                } else {
                    game.fees_collected
                };
                let after = GameView { fees_collected: fees, ..game };
                if claimer == game.creator {
                    Ok((after, claim_transfers(claimer, payout.creator_payout, fees)))
                } else if game.challenger == Some(claimer) {
                    Ok((after, claim_transfers(claimer, payout.challenger_payout, fees)))
                } else {
                    Err(GameError::Unauthorized)
                }
            },
        }
    }
}

/// Claims the share of `ctx.claimer` in the game.
pub fn handler(ctx: &mut ClaimPrize) -> (result: Result<Vec<Transfer>, GameError>)
    ensures
        final(ctx).claimer == old(ctx).claimer,
        match result {
            Ok(transfers) => claim_prize_spec(old(ctx).game@, old(ctx).claimer) == Ok::<
                (GameView, Seq<Transfer>),
                GameError,
            >((final(ctx).game@, transfers@)),
            Err(e) => claim_prize_spec(old(ctx).game@, old(ctx).claimer) == Err::<
                (GameView, Seq<Transfer>),
                GameError,
            >(e) && final(ctx).game == old(ctx).game,
        },
        final(ctx).game.status == old(ctx).game.status,
        old(ctx).game.wf() ==> final(ctx).game.wf(),
{
    let over = match ctx.game.status {
        GameStatus::Complete | GameStatus::Forfeited => true,
        _ => false,
    };
    if !over {
        return Err(GameError::InvalidGameStatus);
    }
    let payout = match compute_payout(ctx.game.total_pot, &ctx.game.winner, &ctx.game.creator) {
        Ok(p) => p,
        Err(e) => {
            return Err(e);
        },
    };
    let fees: u64 = if ctx.game.winner.is_some() {
        payout.fee
    } else {
        ctx.game.fees_collected
    };
    let claimer_amount: u64 = if ctx.claimer == ctx.game.creator {
        payout.creator_payout
    } else if ctx.claimer.is_held_by(&ctx.game.challenger) {
        payout.challenger_payout
    } else {
        return Err(GameError::Unauthorized);
    };
    ctx.game.fees_collected = fees;

    let mut transfers: Vec<Transfer> = Vec::new();
    if claimer_amount > 0 {
        transfers.push(
            Transfer {
                from: Endpoint::Escrow,
                to: Endpoint::Player(ctx.claimer),
                amount: claimer_amount,
            },
        );
    }
    let split = split_fee(fees);
    if split.treasury_share > 0 {
        transfers.push(
            Transfer {
                from: Endpoint::Escrow,
                to: Endpoint::Treasury,
                amount: split.treasury_share,
            },
        );
    }
    if split.burn_share > 0 {
        transfers.push(
            Transfer { from: Endpoint::Escrow, to: Endpoint::Burn, amount: split.burn_share },
        );
    }
    proof {
        assert(transfers@ =~= claim_transfers(old(ctx).claimer, claimer_amount, fees));
    }
    Ok(transfers)
}

} // verus!
