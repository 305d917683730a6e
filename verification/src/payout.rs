//! How the pot of a finished game is distributed.
//!
//! A won pot pays a fee of a tenth, rounded down; the winner gets the rest and
//! the loser nothing. Half of the fee, rounded down, goes to the treasury and
//! the rest is burnt. A drawn pot pays no fee: each side gets half of it,
//! rounded down, and an odd unit stays where it is.
use crate::errors::GameError;
use crate::identity::Identity;
use vstd::prelude::*;

verus! {

/// The share of the pot that the fee takes, in percent.
pub const FEE_PERCENT: u64 = 10;

/// The fee on a pot that was won: a tenth of it, rounded down.
pub open spec fn fee_of(total_pot: u64) -> int {
    total_pot * FEE_PERCENT / 100
}

/// What each side can claim from a pot, and the fee on it.
#[derive(Clone, Copy, Debug, PartialEq, Eq, Structural)]
pub struct Payout {
    pub creator_payout: u64,
    pub challenger_payout: u64,
    pub fee: u64,
}

/// The two parts of a fee.
#[derive(Clone, Copy, Debug, PartialEq, Eq, Structural)]
pub struct FeeSplit {
    pub treasury_share: u64,
    pub burn_share: u64,
}

/// The distribution of `total_pot` among the two sides.
///
/// With a winner the fee is `total_pot * 10 / 100`; the product has to fit in
/// 64 bits. The side whose identity is `winner` gets what the fee leaves, and
/// that side is the challenger whenever `winner` is not the creator.
pub open spec fn payout_spec(total_pot: u64, winner: Option<Identity>, creator: Identity) -> Result<
    Payout,
    GameError,
> {
    match winner {
        Some(w) => {
            if total_pot * FEE_PERCENT > u64::MAX {
                Err(GameError::ArithmeticOverflow)
            } else {
                let fee = fee_of(total_pot) as u64;
                let winner_amount = (total_pot - fee) as u64;
                if w == creator {
                    Ok(Payout { creator_payout: winner_amount, challenger_payout: 0, fee })
                } else {
                    Ok(Payout { creator_payout: 0, challenger_payout: winner_amount, fee })
                }
            }
        },
        None => {
            let refund = (total_pot / 2) as u64;
            Ok(Payout { creator_payout: refund, challenger_payout: refund, fee: 0 })
        },
    }
}

/// The split of a fee: half of it, rounded down, for the treasury, and the
/// rest, with the odd unit, to burn.
pub open spec fn fee_split_spec(fee: u64) -> FeeSplit {
    FeeSplit { treasury_share: fee / 2, burn_share: (fee - fee / 2) as u64 }
}

/// Computes what each side can claim from `total_pot`.
pub fn compute_payout(total_pot: u64, winner: &Option<Identity>, creator: &Identity) -> (result:
    Result<Payout, GameError>)
    ensures
        result == payout_spec(total_pot, *winner, *creator),
        result matches Ok(p) ==> p.creator_payout + p.challenger_payout + p.fee <= total_pot,
        result matches Ok(p) ==> (*winner is Some ==> p.creator_payout + p.challenger_payout
            + p.fee == total_pot),
        result is Err <==> *winner is Some && total_pot * FEE_PERCENT > u64::MAX,
{
    match winner {
        Some(w) => {
            let scaled = match total_pot.checked_mul(FEE_PERCENT) {
                Some(s) => s,
                None => {
                    return Err(GameError::ArithmeticOverflow);
                },
            };
            let fee: u64 = scaled / 100;
            let winner_amount: u64 = total_pot - fee;
            if *w == *creator {
                Ok(Payout { creator_payout: winner_amount, challenger_payout: 0, fee })
            } else {
                Ok(Payout { creator_payout: 0, challenger_payout: winner_amount, fee })
            }
        },
        None => {
            let refund: u64 = total_pot / 2;
            Ok(Payout { creator_payout: refund, challenger_payout: refund, fee: 0 })
        },
    }
}

/// Splits a fee between the treasury and the burn balance.
pub fn split_fee(fee: u64) -> (split: FeeSplit)
    ensures
        split == fee_split_spec(fee),
        split.treasury_share + split.burn_share == fee,
        split.treasury_share <= split.burn_share <= split.treasury_share + 1,
{
    let treasury_share: u64 = fee / 2;
    let burn_share: u64 = fee - treasury_share;
    FeeSplit { treasury_share, burn_share }
}

} // verus!
