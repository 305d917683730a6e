//! What holds of the game whatever its players do.
use crate::errors::GameError;
use crate::identity::Identity;
use crate::instructions::claim_prize::{claim_prize_spec, claim_transfers};
use crate::instructions::forfeit_game::{deadline_passed, forfeit_game_spec};
use crate::instructions::join_game::join_game_spec;
use crate::instructions::reveal_moves::reveal_spec;
use crate::lifecycle::{escrow_debits, run, run_debits, step, step_debits, Operation};
use crate::payout::{fee_of, payout_spec, FEE_PERCENT};
use crate::resolver::{is_move, round_winner, wins};
use crate::state::{
    GameStatus, GameView, RoundResult, RoundWinner, Transfer, MAX_ROUNDS, PAPER,
    REVEAL_WINDOW_SECONDS, ROCK, SCISSORS,
};
use vstd::prelude::*;

verus! {

/// A round goes to the creator exactly for rock against scissors, paper
/// against rock and scissors against paper, and to the challenger exactly
/// where the challenger holds the winning move of these. What one side wins
/// the other loses, and between two moves only equal ones draw.
pub proof fn round_goes_by_the_table(creator_move: u8, challenger_move: u8)
    ensures
        round_winner(creator_move, challenger_move) == RoundWinner::Creator <==> (creator_move
            == ROCK && challenger_move == SCISSORS) || (creator_move == PAPER && challenger_move
            == ROCK) || (creator_move == SCISSORS && challenger_move == PAPER),
        round_winner(creator_move, challenger_move) == RoundWinner::Challenger <==> (creator_move
            == SCISSORS && challenger_move == ROCK) || (creator_move == ROCK && challenger_move
            == PAPER) || (creator_move == PAPER && challenger_move == SCISSORS),
        round_winner(creator_move, challenger_move) == RoundWinner::Creator <==> round_winner(
            challenger_move,
            creator_move,
        ) == RoundWinner::Challenger,
        is_move(creator_move) && is_move(challenger_move) ==> (round_winner(
            creator_move,
            challenger_move,
        ) == RoundWinner::Draw <==> creator_move == challenger_move),
{
}

/// Every round goes to one side or is drawn: the three counts add up to the
/// number of rounds.
pub proof fn wins_add_up(results: Seq<RoundResult>)
    ensures
        wins(results, RoundWinner::Creator) + wins(results, RoundWinner::Challenger) + wins(
            results,
            RoundWinner::Draw,
        ) == results.len(),
    decreases results.len(),
{
    if results.len() > 0 {
        wins_add_up(results.drop_last());
    }
}

/// Whether a game can go from status `from` to status `to` in one step:
/// from waiting for a challenger to waiting for reveals, from there to the
/// reveal of one side, and from there to complete or forfeited.
pub open spec fn may_follow(from: GameStatus, to: GameStatus) -> bool {
    match from {
        GameStatus::WaitingForChallenger => to == GameStatus::WaitingForReveals,
        GameStatus::WaitingForReveals => to == GameStatus::CreatorRevealed || to
            == GameStatus::ChallengerRevealed,
        GameStatus::CreatorRevealed | GameStatus::ChallengerRevealed => to == GameStatus::Complete
            || to == GameStatus::Forfeited,
        GameStatus::Complete | GameStatus::Forfeited => false,
    }
}

/// An operation leaves the status as it is or takes it one step along the
/// lifecycle.
pub proof fn status_follows_lifecycle(game: GameView, op: Operation)
    ensures
        step(game, op).status == game.status || may_follow(game.status, step(game, op).status),
{
}

/// The record of a game is bounded: no more than `MAX_ROUNDS` rounds, moves
/// of each side, and round results.
pub proof fn record_is_bounded(game: GameView)
    requires
        game.wf(),
    ensures
        game.rounds <= MAX_ROUNDS,
        game.creator_moves matches Some(moves) ==> moves.len() <= MAX_ROUNDS,
        game.challenger_moves matches Some(moves) ==> moves.len() <= MAX_ROUNDS,
        game.round_results.len() <= MAX_ROUNDS,
{
}

/// A game that waits for a challenger accepts anyone but its creator, unless
/// twice the pot is more than 64 bits can hold.
pub proof fn first_join_accepted(
    game: GameView,
    challenger: Identity,
    now: i64,
    commitment: [u8; 32],
)
    requires
        game.wf(),
        game.status == GameStatus::WaitingForChallenger,
    ensures
        join_game_spec(game, challenger, now, commitment) is Ok <==> challenger != game.creator
            && 2 * game.total_pot <= u64::MAX,
{
}

/// No operation puts a game back to waiting for a challenger.
pub proof fn joined_game_stays_joined(game: GameView, ops: Seq<Operation>)
    requires
        game.status != GameStatus::WaitingForChallenger,
    ensures
        run(game, ops).status != GameStatus::WaitingForChallenger,
    decreases ops.len(),
{
    if ops.len() > 0 {
        joined_game_stays_joined(game, ops.drop_last());
    }
}

/// A game is joined once: after a join that was accepted, and whatever
/// happened since, every attempt to join is refused for the game's status.
pub proof fn second_join_refused(
    game: GameView,
    first: Identity,
    first_now: i64,
    first_commitment: [u8; 32],
    ops: Seq<Operation>,
    second: Identity,
    second_now: i64,
    second_commitment: [u8; 32],
)
    requires
        join_game_spec(game, first, first_now, first_commitment) is Ok,
    ensures
        join_game_spec(
            run(join_game_spec(game, first, first_now, first_commitment)->Ok_0.0, ops),
            second,
            second_now,
            second_commitment,
        ) == Err::<(GameView, Transfer), GameError>(GameError::InvalidGameStatus),
{
    joined_game_stays_joined(
        join_game_spec(game, first, first_now, first_commitment)->Ok_0.0,
        ops,
    );
}

/// Nothing leaves a complete or forfeited game: whatever is attempted, the
/// game stays as it is, but for the fee on record.
pub proof fn finished_game_stays_finished(game: GameView, ops: Seq<Operation>)
    requires
        game.is_over(),
    ensures
        run(game, ops) == (GameView { fees_collected: run(game, ops).fees_collected, ..game }),
    decreases ops.len(),
{
    if ops.len() > 0 {
        finished_game_stays_finished(game, ops.drop_last());
    }
}

/// A forfeit is accepted exactly when the deadline has passed, one player
/// alone has revealed, and that player claims it. It makes that player the
/// winner.
pub proof fn forfeit_reserved_for_sole_revealer(game: GameView, claimer: Identity, now: i64)
    ensures
        forfeit_game_spec(game, claimer, now) is Ok <==> deadline_passed(game, now) && ((game.status
            == GameStatus::CreatorRevealed && claimer == game.creator) || (game.status
            == GameStatus::ChallengerRevealed && game.challenger == Some(claimer))),
        forfeit_game_spec(game, claimer, now) matches Ok(after) ==> after.status
            == GameStatus::Forfeited && after.winner == Some(claimer),
{
}

/// A game becomes forfeited in one way only: by a forfeit, after the
/// deadline, claimed by the one player who has revealed.
pub proof fn forfeited_only_by_forfeit(game: GameView, op: Operation)
    requires
        game.status != GameStatus::Forfeited,
        step(game, op).status == GameStatus::Forfeited,
    ensures
        op matches Operation::Forfeit { claimer, now } && deadline_passed(game, now) && ((
        game.status == GameStatus::CreatorRevealed && claimer == game.creator) || (game.status
            == GameStatus::ChallengerRevealed && game.challenger == Some(claimer))),
{
}

/// A reveal is accepted for one digest only, the player's commitment: where
/// a reveal is accepted, the same reveal with any other digest is refused for
/// the commitment.
pub proof fn reveal_accepts_one_digest(
    game: GameView,
    player: Identity,
    now: i64,
    moves: Seq<u8>,
    digest: [u8; 32],
    other: [u8; 32],
)
    requires
        reveal_spec(game, player, now, moves, digest) is Ok,
        other != digest,
    ensures
        player == game.creator ==> digest == game.creator_commitment,
        player != game.creator ==> game.challenger_commitment == Some(digest),
        reveal_spec(game, player, now, moves, other) == Err::<GameView, GameError>(
            GameError::CommitmentVerificationFailed,
        ),
{
}

/// The debits of two sequences of transfers add up.
pub proof fn escrow_debits_concat(first: Seq<Transfer>, second: Seq<Transfer>)
    ensures
        escrow_debits(first + second) == escrow_debits(first) + escrow_debits(second),
    decreases second.len(),
{
    if second.len() > 0 {
        assert((first + second).drop_last() =~= first + second.drop_last());
        escrow_debits_concat(first, second.drop_last());
    }
}

/// The transfers of a claim take out of the escrow what the claimer gets and
/// the whole fee.
pub proof fn claim_debits(claimer: Identity, amount: u64, fees: u64)
    ensures
        escrow_debits(claim_transfers(claimer, amount, fees)) == amount + fees,
{
    reveal_with_fuel(escrow_debits, 2);
    let transfers = claim_transfers(claimer, amount, fees);
    let to_claimer = transfers.subrange(0, if amount > 0 { 1int } else { 0int });
    let fee_part = transfers.subrange(to_claimer.len() as int, transfers.len() as int);
    let to_treasury = fee_part.subrange(0, if fees / 2 > 0 { 1int } else { 0int });
    let to_burn = fee_part.subrange(to_treasury.len() as int, fee_part.len() as int);
    assert(transfers =~= to_claimer + fee_part);
    escrow_debits_concat(to_claimer, fee_part);
    escrow_debits_concat(to_treasury, to_burn);
}

/// Until a game is complete or forfeited, nothing leaves its escrow.
pub proof fn no_debits_until_over(game: GameView, ops: Seq<Operation>)
    requires
        !run(game, ops).is_over(),
    ensures
        run_debits(game, ops) == 0,
    decreases ops.len(),
{
    reveal_with_fuel(escrow_debits, 2);
    if ops.len() > 0 {
        no_debits_until_over(game, ops.drop_last());
    }
}

/// Whether `op` can be attempted: a join has to come at a time whose reveal
/// deadline 64 bits can hold.
pub open spec fn admissible(op: Operation) -> bool {
    op matches Operation::Join { now, .. } ==> now + REVEAL_WINDOW_SECONDS <= i64::MAX
}

/// Every operation keeps the invariant of the game.
pub proof fn step_keeps_wf(game: GameView, op: Operation)
    requires
        game.wf(),
        admissible(op),
    ensures
        step(game, op).wf(),
{
}

/// Every run of operations keeps the invariant of the game.
pub proof fn run_keeps_wf(game: GameView, ops: Seq<Operation>)
    requires
        game.wf(),
        forall|i: int| 0 <= i < ops.len() ==> admissible(#[trigger] ops[i]),
    ensures
        run(game, ops).wf(),
    decreases ops.len(),
{
    if ops.len() > 0 {
        run_keeps_wf(game, ops.drop_last());
        step_keeps_wf(run(game, ops.drop_last()), ops.last());
    }
}

/// How many of `ops`, attempted in order on `game`, are claims by `claimer`
/// that find the game finished. A claim that comes earlier is refused.
pub open spec fn settled_claims(game: GameView, ops: Seq<Operation>, claimer: Identity) -> nat
    decreases ops.len(),
{
    if ops.len() == 0 {
        0
    } else {
        settled_claims(game, ops.drop_last(), claimer) + if run(game, ops.drop_last()).is_over()
            && ops.last() == (Operation::Claim { claimer }) {
            1nat
        } else {
            0nat
        }
    }
}

/// What the escrow of the finished game `game` pays for `by_creator` claims
/// of the creator and `by_challenger` claims of the challenger.
///
/// In a drawn game every claim takes half the pot. In a won game a claim of
/// the winner takes the pot, fee included, and a claim of the loser takes the
/// fee once more; where the fee cannot be computed no claim is accepted.
pub open spec fn claimed_total(game: GameView, by_creator: nat, by_challenger: nat) -> int {
    match game.winner {
        None => (by_creator + by_challenger) * (game.total_pot / 2),
        Some(winner) => {
            if game.total_pot * FEE_PERCENT > u64::MAX {
                0
            } else if winner == game.creator {
                by_creator * game.total_pot + by_challenger * fee_of(game.total_pot)
            } else {
                by_challenger * game.total_pot + by_creator * fee_of(game.total_pot)
            }
        },
    }
}

/// Whether the pot of the finished game `game` covers `by_creator` claims of
/// the creator and `by_challenger` claims of the challenger.
///
/// A drawn pot covers two claims. A won pot covers one claim of the winner
/// and, beside it, claims of the loser only where there is no fee; without a
/// claim of the winner it covers the fee as often as the fee goes into it.
pub open spec fn claims_covered(game: GameView, by_creator: nat, by_challenger: nat) -> bool {
    match game.winner {
        None => by_creator + by_challenger <= 2,
        Some(winner) => {
            let by_winner = if winner == game.creator {
                by_creator
            } else {
                by_challenger
            };
            let by_loser = if winner == game.creator {
                by_challenger
            } else {
                by_creator
            };
            let fee = fee_of(game.total_pot);
            ||| game.total_pot * FEE_PERCENT > u64::MAX
            ||| by_winner == 0 && by_loser * fee <= game.total_pot
            ||| by_winner == 1 && (by_loser == 0 || fee == 0)
        },
    }
}

/// Until a game is finished no claim is settled.
proof fn no_settled_claims_until_over(game: GameView, ops: Seq<Operation>, claimer: Identity)
    requires
        !run(game, ops).is_over(),
    ensures
        settled_claims(game, ops, claimer) == 0,
    decreases ops.len(),
{
    if ops.len() > 0 {
        let before = run(game, ops.drop_last());
        if before.is_over() {
            finished_step_stays(before, ops.last());
        }
        no_settled_claims_until_over(game, ops.drop_last(), claimer);
    }
}

/// One operation leaves a finished game as it is, but for the fee on record.
proof fn finished_step_stays(game: GameView, op: Operation)
    requires
        game.is_over(),
    ensures
        step(game, op) == (GameView { fees_collected: step(game, op).fees_collected, ..game }),
{
}

/// What one operation takes out of the escrow of a finished game.
proof fn finished_step_debits(game: GameView, op: Operation)
    requires
        game.wf(),
        game.is_over(),
    ensures
        step_debits(game, op) == claimed_total(
            game,
            if op == (Operation::Claim { claimer: game.creator }) {
                1nat
            } else {
                0nat
            },
            if op == (Operation::Claim { claimer: game.challenger->0 }) {
                1nat
            } else {
                0nat
            },
        ),
{
    let pot = game.total_pot as int;
    let fee = fee_of(game.total_pot);
    let half = pot / 2;
    assert(0 * pot == 0 && 1 * pot == pot && 0 * fee == 0 && 1 * fee == fee && 0 * half == 0 && 1
        * half == half && 2 * half == half + half) by (nonlinear_arith);
    match op {
        Operation::Claim { claimer } => {
            if claim_prize_spec(game, claimer) is Ok {
                if game.winner is Some {
                    claim_debits(claimer, (pot - fee) as u64, fee as u64);
                    claim_debits(claimer, 0, fee as u64);
                } else {
                    claim_debits(claimer, half as u64, 0);
                }
            }
        },
        _ => {},
    }
}

/// `claimed_total` adds up over the claims.
proof fn claimed_total_adds(game: GameView, a: nat, b: nat, c: nat, d: nat)
    ensures
        claimed_total(game, a + c, b + d) == claimed_total(game, a, b) + claimed_total(game, c, d),
{
    let pot = game.total_pot as int;
    let fee = fee_of(game.total_pot);
    let half = pot / 2;
    assert((a + c + (b + d)) * half == (a + b) * half + (c + d) * half) by (nonlinear_arith);
    assert((a + c) * pot == a * pot + c * pot) by (nonlinear_arith);
    assert((b + d) * fee == b * fee + d * fee) by (nonlinear_arith);
    assert((b + d) * pot == b * pot + d * pot) by (nonlinear_arith);
    assert((a + c) * fee == a * fee + c * fee) by (nonlinear_arith);
}

/// What leaves the escrow over the life of a game: nothing until the game is
/// finished, and from then on what the settled claims of its two players
/// take, as `claimed_total` counts it.
pub proof fn lifetime_debits(game: GameView, ops: Seq<Operation>)
    requires
        game.wf(),
        forall|i: int| 0 <= i < ops.len() ==> admissible(#[trigger] ops[i]),
    ensures
        run(game, ops).is_over() ==> run_debits(game, ops) == claimed_total(
            run(game, ops),
            settled_claims(game, ops, run(game, ops).creator),
            settled_claims(game, ops, run(game, ops).challenger->0),
        ),
        !run(game, ops).is_over() ==> run_debits(game, ops) == 0,
    decreases ops.len(),
{
    let end = run(game, ops);
    if !end.is_over() {
        no_debits_until_over(game, ops);
    } else if ops.len() == 0 {
        assert(claimed_total(end, 0, 0) == 0) by {
            claimed_total_adds(end, 0, 0, 0, 0);
        }
    } else {
        let earlier = ops.drop_last();
        let op = ops.last();
        let before = run(game, earlier);
        run_keeps_wf(game, earlier);
        if before.is_over() {
            lifetime_debits(game, earlier);
            finished_step_stays(before, op);
            finished_step_debits(before, op);
            let a = settled_claims(game, earlier, end.creator);
            let b = settled_claims(game, earlier, end.challenger->0);
            let c = if op == (Operation::Claim { claimer: end.creator }) {
                1nat
            } else {
                0nat
            };
            let d = if op == (Operation::Claim { claimer: end.challenger->0 }) {
                1nat
            } else {
                0nat
            };
            claimed_total_adds(before, a, b, c, d);
        } else {
            no_debits_until_over(game, earlier);
            no_settled_claims_until_over(game, earlier, end.creator);
            no_settled_claims_until_over(game, earlier, end.challenger->0);
        }
    }
}

/// The funds that leave the escrow over the life of a game stay within the
/// pot, provided that the pot covers the claims that were settled, as
/// `claims_covered` says. The game itself does not see to that: it keeps no
/// player from claiming again, and has the fee of a won game distributed with
/// every claim.
pub proof fn debits_within_pot(game: GameView, ops: Seq<Operation>)
    requires
        game.wf(),
        forall|i: int| 0 <= i < ops.len() ==> admissible(#[trigger] ops[i]),
        run(game, ops).is_over() ==> claims_covered(
            run(game, ops),
            settled_claims(game, ops, run(game, ops).creator),
            settled_claims(game, ops, run(game, ops).challenger->0),
        ),
    ensures
        run_debits(game, ops) <= run(game, ops).total_pot,
{
    let end = run(game, ops);
    lifetime_debits(game, ops);
    run_keeps_wf(game, ops);
    if end.is_over() {
        covered_means_within_pot(
            end,
            settled_claims(game, ops, end.creator),
            settled_claims(game, ops, end.challenger->0),
        );
    }
}

/// Where the pot does not cover the settled claims, more than the pot has
/// left the escrow.
pub proof fn debits_beyond_pot(game: GameView, ops: Seq<Operation>)
    requires
        game.wf(),
        forall|i: int| 0 <= i < ops.len() ==> admissible(#[trigger] ops[i]),
        run(game, ops).is_over(),
        !claims_covered(
            run(game, ops),
            settled_claims(game, ops, run(game, ops).creator),
            settled_claims(game, ops, run(game, ops).challenger->0),
        ),
    ensures
        run_debits(game, ops) > run(game, ops).total_pot,
{
    let end = run(game, ops);
    lifetime_debits(game, ops);
    run_keeps_wf(game, ops);
    covered_means_within_pot(
        end,
        settled_claims(game, ops, end.creator),
        settled_claims(game, ops, end.challenger->0),
    );
}

/// The pot of a finished game covers the claims exactly when what they take
/// is within the pot.
proof fn covered_means_within_pot(game: GameView, by_creator: nat, by_challenger: nat)
    requires
        game.wf(),
        game.is_over(),
    ensures
        claimed_total(game, by_creator, by_challenger) <= game.total_pot <==> claims_covered(
            game,
            by_creator,
            by_challenger,
        ),
{
    let pot = game.total_pot as int;
    let stake = game.stake_per_round * game.rounds;
    assert(stake >= 1) by (nonlinear_arith)
        requires
            stake == game.stake_per_round * game.rounds,
            game.stake_per_round > 0,
            game.rounds >= 1,
    ;
    match game.winner {
        None => {
            let claims = (by_creator + by_challenger) as int;
            assert(claims * stake <= 2 * stake <==> claims <= 2) by (nonlinear_arith)
                requires
                    stake >= 1,
                    claims >= 0,
            ;
        },
        Some(winner) => {
            let by_winner = if winner == game.creator {
                by_creator as int
            } else {
                by_challenger as int
            };
            let by_loser = if winner == game.creator {
                by_challenger as int
            } else {
                by_creator as int
            };
            let fee = fee_of(game.total_pot);
            assert(by_winner * pot + by_loser * fee <= pot <==> (by_winner == 0 && by_loser * fee
                <= pot) || (by_winner == 1 && (by_loser == 0 || fee == 0))) by (nonlinear_arith)
                requires
                    pot >= 2,
                    fee >= 0,
                    by_winner >= 0,
                    by_loser >= 0,
            ;
        },
    }
}

/// No operation takes more out of the escrow than the pot holds.
pub proof fn step_debits_within_pot(game: GameView, op: Operation)
    requires
        game.wf(),
    ensures
        0 <= step_debits(game, op) <= game.total_pot,
{
    reveal_with_fuel(escrow_debits, 2);
    match op {
        Operation::Claim { claimer } => {
            if let Ok((after, _)) = claim_prize_spec(game, claimer) {
                let payout = payout_spec(game.total_pot, game.winner, game.creator)->Ok_0;
                claim_debits(claimer, payout.creator_payout, after.fees_collected);
                claim_debits(claimer, payout.challenger_payout, after.fees_collected);
            }
        },
        _ => {},
    }
}

} // verus!
