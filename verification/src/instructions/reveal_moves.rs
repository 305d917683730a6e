//! Revealing the moves that a player committed to.
//!
//! The first reveal puts the game in the state that names the side which has
//! revealed. The reveal of the other side completes the game: the rounds are
//! resolved and the winner is set. A player who reveals a second time is not
//! refused, but moves the status nowhere.
use crate::commitment::{commitment_of, compute_commitment};
use crate::errors::GameError;
use crate::bytes::bytes32_eq;
use crate::identity::Identity;
use crate::resolver::{is_move, match_winner, resolve_round, resolve_rounds, wins};
use crate::state::{
    winner_identity, Game, GameStatus, GameView, RoundResult, RoundWinner, ROCK, SCISSORS,
};
use vstd::prelude::*;

verus! {

/// What a reveal works on: the game, the player who reveals, and the time.
pub struct RevealMoves {
    pub game: Game,
    pub player: Identity,
    /// The current time, in seconds.
    pub now: i64,
}

/// The status after a reveal by the creator (`by_creator`) or by the
/// challenger. A side that has revealed already moves nothing.
pub open spec fn status_after_reveal(status: GameStatus, by_creator: bool) -> GameStatus {
    if by_creator {
        match status {
            GameStatus::WaitingForReveals => GameStatus::CreatorRevealed,
            GameStatus::ChallengerRevealed => GameStatus::Complete,
            _ => status,
        }
    } else {
        match status {
            GameStatus::WaitingForReveals => GameStatus::ChallengerRevealed,
            GameStatus::CreatorRevealed => GameStatus::Complete,
            _ => status,
        }
    }
}

/// The game with its rounds resolved: the results of the recorded moves are
/// added to the round results, and the winner is the side that took more of
/// them.
pub open spec fn with_result(game: GameView) -> GameView {
    let results = resolve_rounds(game.creator_moves->0, game.challenger_moves->0);
    GameView {
        round_results: game.round_results + results,
        winner: winner_identity(match_winner(results), game.creator, game.challenger),
        ..game
    }
}

/// The game after an accepted reveal of `moves`.
pub open spec fn revealed(game: GameView, by_creator: bool, moves: Seq<u8>) -> GameView {
    let recorded = if by_creator {
        GameView { creator_moves: Some(moves), ..game }
    } else {
        GameView { challenger_moves: Some(moves), ..game }
    };
    let advanced = GameView {
        status: status_after_reveal(game.status, by_creator),
        ..recorded
    };
    if advanced.status == GameStatus::Complete {
        with_result(advanced)
    } else {
        advanced
    }
}

/// What a reveal of `moves` by `player` at time `now` does to `game`, where
/// `digest` is the hash of what was revealed: the game afterwards, or the
/// reason for which the reveal is refused.
///
/// The checks come in this order: the game awaits reveals; the deadline has
/// not passed; there is one move per round; each is a move; the player is the
/// creator or the challenger; the digest is the player's commitment.
pub open spec fn reveal_spec(
    game: GameView,
    player: Identity,
    now: i64,
    moves: Seq<u8>,
    digest: [u8; 32],
) -> Result<GameView, GameError> {
    let by_creator = player == game.creator;
    let expected = if by_creator {
        Some(game.creator_commitment)
    } else {
        game.challenger_commitment
    };
    if !game.awaits_reveal() {
        Err(GameError::InvalidGameStatus)
    } else if game.reveal_deadline is Some && now > game.reveal_deadline->0 {
        Err(GameError::GameExpired)
    } else if moves.len() != game.rounds {
        Err(GameError::InvalidMoveCount)
    } else if exists|i: int| 0 <= i < moves.len() && !is_move(#[trigger] moves[i]) {
        Err(GameError::InvalidMove)
    } else if !by_creator && game.challenger != Some(player) {
        Err(GameError::Unauthorized)
    } else if expected is None {
        Err(GameError::Unauthorized)
    } else if digest != expected->0 {
        Err(GameError::CommitmentVerificationFailed)
    } else {
        Ok(revealed(game, by_creator, moves))
    }
}

/// Whether every element of `moves` is a move.
pub fn all_moves_valid(moves: &Vec<u8>) -> (valid: bool)
    ensures
        valid == (forall|i: int| 0 <= i < moves@.len() ==> is_move(#[trigger] moves@[i])),
{
    let mut i: usize = 0;
    while i < moves.len()
        invariant
            i <= moves.len(),
            forall|j: int| 0 <= j < i ==> is_move(#[trigger] moves@[j]),
        decreases moves.len() - i,
    {
        let m: u8 = moves[i];
        if !(m >= ROCK && m <= SCISSORS) {
            return false;
        }
        i += 1;
    }
    true
}

/// Resolves the rounds of a game whose players have both revealed, and sets
/// the winner.
pub fn calculate_game_result(game: &mut Game) -> (result: Result<(), GameError>)
    requires
        old(game).creator_moves is Some,
        old(game).challenger_moves is Some,
    ensures
        result is Ok,
        final(game)@ == with_result(old(game)@),
{
    let ghost before = game@;
    let ghost creator_seq = before.creator_moves->0;
    let ghost challenger_seq = before.challenger_moves->0;
    let ghost expected = resolve_rounds(creator_seq, challenger_seq);
    let mut results: Vec<RoundResult> = Vec::new();
    let mut creator_wins: usize = 0;
    let mut challenger_wins: usize = 0;
    match (&game.creator_moves, &game.challenger_moves) {
        (Some(creator_moves), Some(challenger_moves)) => {
            let rounds: usize = if creator_moves.len() <= challenger_moves.len() {
                creator_moves.len()
            } else {
                challenger_moves.len()
            };
            let mut i: usize = 0;
            while i < rounds
                invariant
                    i <= rounds,
                    rounds == expected.len(),
                    rounds <= creator_moves@.len(),
                    rounds <= challenger_moves@.len(),
                    creator_moves@ == creator_seq,
                    challenger_moves@ == challenger_seq,
                    expected == resolve_rounds(creator_seq, challenger_seq),
                    results@ == expected.take(i as int),
                    creator_wins == wins(results@, RoundWinner::Creator),
                    challenger_wins == wins(results@, RoundWinner::Challenger),
                    creator_wins <= i,
                    challenger_wins <= i,
                decreases rounds - i,
            {
                let creator_move: u8 = creator_moves[i];
                let challenger_move: u8 = challenger_moves[i];
                let round_winner = resolve_round(creator_move, challenger_move);
                match round_winner {
                    RoundWinner::Creator => {
                        creator_wins += 1;
                    },
                    RoundWinner::Challenger => {
                        challenger_wins += 1;
                    },
                    RoundWinner::Draw => {},
                }
                results.push(RoundResult { creator_move, challenger_move, winner: round_winner });
                proof {
                    assert(results@.drop_last() =~= expected.take(i as int));
                }
                i += 1;
            }
            proof {
                assert(expected.take(rounds as int) =~= expected);
            }
        },
        _ => {},
    }
    let winner = if creator_wins > challenger_wins {
        Some(game.creator)
    } else if challenger_wins > creator_wins {
        game.challenger
    } else {
        None
    };
    game.round_results.append(&mut results);
    game.winner = winner;
    Ok(())
}

/// Reveals `moves`, committed to under `salt`, for `ctx.player`.
///
/// The reveal is accepted only if the hash of moves and salt is the player's
/// commitment. A refused reveal leaves the game as it was.
///
/// Where the status says that one side has revealed, the moves of that side
/// have to be on record: the reveal of the other side resolves the rounds.
pub fn handler(ctx: &mut RevealMoves, moves: Vec<u8>, salt: [u8; 32]) -> (result: Result<
    (),
    GameError,
>)
    requires
        old(ctx).game@.reveal_on_record(),
    ensures
        final(ctx).player == old(ctx).player,
        final(ctx).now == old(ctx).now,
        match result {
            Ok(()) => reveal_spec(
                old(ctx).game@,
                old(ctx).player,
                old(ctx).now,
                moves@,
                commitment_of(moves@, salt),
            ) == Ok::<GameView, GameError>(final(ctx).game@),
            Err(e) => reveal_spec(
                old(ctx).game@,
                old(ctx).player,
                old(ctx).now,
                moves@,
                commitment_of(moves@, salt),
            ) == Err::<GameView, GameError>(e) && final(ctx).game == old(ctx).game,
        },
        old(ctx).game.wf() ==> final(ctx).game.wf(),
{
    let digest = compute_commitment(moves.as_slice(), &salt);
    reveal_with_digest(ctx, moves, &digest)
}

/// Reveals `moves` for `ctx.player`, given the hash `digest` of what the
/// player revealed: the moves followed by the salt.
pub fn reveal_with_digest(ctx: &mut RevealMoves, moves: Vec<u8>, digest: &[u8; 32]) -> (result:
    Result<(), GameError>)
    requires
        old(ctx).game@.reveal_on_record(),
    ensures
        final(ctx).player == old(ctx).player,
        final(ctx).now == old(ctx).now,
        match result {
            Ok(()) => reveal_spec(
                old(ctx).game@,
                old(ctx).player,
                old(ctx).now,
                moves@,
                *digest,
            ) == Ok::<GameView, GameError>(final(ctx).game@),
            Err(e) => reveal_spec(
                old(ctx).game@,
                old(ctx).player,
                old(ctx).now,
                moves@,
                *digest,
            ) == Err::<GameView, GameError>(e) && final(ctx).game == old(ctx).game,
        },
        old(ctx).game.wf() ==> final(ctx).game.wf(),
{
    let awaits_reveal = match ctx.game.status {
        GameStatus::WaitingForReveals
        | GameStatus::CreatorRevealed
        | GameStatus::ChallengerRevealed => true,
        _ => false,
    };
    if !awaits_reveal {
        return Err(GameError::InvalidGameStatus);
    }
    if let Some(deadline) = ctx.game.reveal_deadline {
        if ctx.now > deadline {
            return Err(GameError::GameExpired);
        }
    }
    if moves.len() != ctx.game.rounds as usize {
        return Err(GameError::InvalidMoveCount);
    }
    if !all_moves_valid(&moves) {
        return Err(GameError::InvalidMove);
    }
    let is_creator = ctx.player == ctx.game.creator;
    let is_challenger = ctx.player.is_held_by(&ctx.game.challenger);
    if !(is_creator || is_challenger) {
        return Err(GameError::Unauthorized);
    }
    let expected_commitment = if is_creator {
        ctx.game.creator_commitment
    } else {
        match ctx.game.challenger_commitment {
            Some(commitment) => commitment,
            None => {
                return Err(GameError::Unauthorized);
            },
        }
    };
    if !bytes32_eq(digest, &expected_commitment) {
        return Err(GameError::CommitmentVerificationFailed);
    }
    if is_creator {
        ctx.game.creator_moves = Some(moves);
        ctx.game.status = match ctx.game.status {
            GameStatus::WaitingForReveals => GameStatus::CreatorRevealed,
            GameStatus::ChallengerRevealed => GameStatus::Complete,
            other => other,
        };
    } else {
        ctx.game.challenger_moves = Some(moves);
        ctx.game.status = match ctx.game.status {
            GameStatus::WaitingForReveals => GameStatus::ChallengerRevealed,
            GameStatus::CreatorRevealed => GameStatus::Complete,
            other => other,
        };
    }
    if ctx.game.status == GameStatus::Complete {
        let _ = calculate_game_result(&mut ctx.game);
    }
    Ok(())
}

} // verus!
