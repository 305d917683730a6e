//! The game record and the values it is made of.
use crate::identity::Identity;
use crate::payout::fee_of;
use crate::resolver::{is_move, match_winner, resolve_rounds};
use vstd::prelude::*;

verus! {

/// Seconds between the moment a challenger joins and the reveal deadline.
pub const REVEAL_WINDOW_SECONDS: i64 = 600;

/// The largest number of rounds a game can have.
pub const MAX_ROUNDS: u8 = 5;

/// The move that beats scissors.
pub const ROCK: u8 = 1;

/// The move that beats rock.
pub const PAPER: u8 = 2;

/// The move that beats paper.
pub const SCISSORS: u8 = 3;

/// Where a game stands in its lifecycle.
#[derive(Clone, Copy, Debug, PartialEq, Eq, Structural)]
pub enum GameStatus {
    /// Created and funded by its creator; nobody has joined.
    WaitingForChallenger,
    /// Both players have committed; neither has revealed.
    WaitingForReveals,
    /// Only the creator has revealed.
    CreatorRevealed,
    /// Only the challenger has revealed.
    ChallengerRevealed,
    /// Both have revealed and the rounds are resolved.
    Complete,
    /// One player revealed, the other let the deadline pass.
    Forfeited,
}

/// Who took a round, or the match.
#[derive(Clone, Copy, Debug, PartialEq, Eq, Structural)]
pub enum RoundWinner {
    Creator,
    Challenger,
    Draw,
}

/// One resolved round: the two moves and who took it.
#[derive(Clone, Copy, Debug, PartialEq, Eq, Structural)]
pub struct RoundResult {
    pub creator_move: u8,
    pub challenger_move: u8,
    pub winner: RoundWinner,
}

/// One end of a transfer of funds.
#[derive(Clone, Copy, Debug, PartialEq, Eq)]
pub enum Endpoint {
    /// The balance of a player.
    Player(Identity),
    /// The pool that holds the stakes of one game.
    Escrow,
    /// The balance that receives the treasury's share of the fee.
    Treasury,
    /// The balance whose funds are out of circulation.
    Burn,
}

/// A request to move `amount` from one balance to another. The library moves
/// nothing itself: the caller carries the request out, and drops the whole
/// operation if it fails.
#[derive(Clone, Copy, Debug, PartialEq, Eq)]
pub struct Transfer {
    pub from: Endpoint,
    pub to: Endpoint,
    pub amount: u64,
}

/// The record of one match.
#[derive(Debug, PartialEq, Eq)]
pub struct Game {
    /// The identifier under which the game is kept.
    pub game_id: [u8; 8],
    pub creator: Identity,
    /// Set when a challenger joins, never changed afterwards.
    pub challenger: Option<Identity>,
    pub rounds: u8,
    pub stake_per_round: u64,
    /// The creator's stake until a challenger joins, twice that afterwards.
    pub total_pot: u64,
    pub creator_commitment: [u8; 32],
    pub challenger_commitment: Option<[u8; 32]>,
    /// The creator's moves, once revealed.
    pub creator_moves: Option<Vec<u8>>,
    /// The challenger's moves, once revealed.
    pub challenger_moves: Option<Vec<u8>>,
    pub status: GameStatus,
    pub created_at: i64,
    pub joined_at: Option<i64>,
    pub reveal_deadline: Option<i64>,
    /// The winner of a complete or forfeited game. `None` in a complete game
    /// means a draw; before that it means that nothing is decided.
    pub winner: Option<Identity>,
    /// One entry per round, in round order, once both players have revealed.
    pub round_results: Vec<RoundResult>,
    /// The fee that the last claim of a won game computed.
    pub fees_collected: u64,
}

/// A game as a mathematical value: the record with sequences in place of
/// vectors.
#[verifier::ext_equal]
pub struct GameView {
    pub game_id: [u8; 8],
    pub creator: Identity,
    pub challenger: Option<Identity>,
    pub rounds: u8,
    pub stake_per_round: u64,
    pub total_pot: u64,
    pub creator_commitment: [u8; 32],
    pub challenger_commitment: Option<[u8; 32]>,
    pub creator_moves: Option<Seq<u8>>,
    pub challenger_moves: Option<Seq<u8>>,
    pub status: GameStatus,
    pub created_at: i64,
    pub joined_at: Option<i64>,
    pub reveal_deadline: Option<i64>,
    pub winner: Option<Identity>,
    pub round_results: Seq<RoundResult>,
    pub fees_collected: u64,
}

/// The view of moves that may not have been revealed yet.
pub open spec fn moves_view(moves: Option<Vec<u8>>) -> Option<Seq<u8>> {
    match moves {
        Some(m) => Some(m@),
        None => None,
    }
}

impl View for Game {
    type V = GameView;

    open spec fn view(&self) -> GameView {
        GameView {
            game_id: self.game_id,
            creator: self.creator,
            challenger: self.challenger,
            rounds: self.rounds,
            stake_per_round: self.stake_per_round,
            total_pot: self.total_pot,
            creator_commitment: self.creator_commitment,
            challenger_commitment: self.challenger_commitment,
            creator_moves: moves_view(self.creator_moves),
            challenger_moves: moves_view(self.challenger_moves),
            status: self.status,
            created_at: self.created_at,
            joined_at: self.joined_at,
            reveal_deadline: self.reveal_deadline,
            winner: self.winner,
            round_results: self.round_results@,
            fees_collected: self.fees_collected,
        }
    }
}

/// Whether a game can have `rounds` rounds.
pub open spec fn valid_rounds(rounds: u8) -> bool {
    rounds == 1 || rounds == 3 || rounds == 5
}

/// Whether `moves` is a full set of moves for a game of `rounds` rounds.
pub open spec fn valid_moves(moves: Seq<u8>, rounds: u8) -> bool {
    &&& moves.len() == rounds
    &&& forall|i: int| 0 <= i < moves.len() ==> is_move(#[trigger] moves[i])
}

/// The identity that a match or a forfeit goes to.
pub open spec fn winner_identity(
    side: RoundWinner,
    creator: Identity,
    challenger: Option<Identity>,
) -> Option<Identity> {
    match side {
        RoundWinner::Creator => Some(creator),
        RoundWinner::Challenger => challenger,
        RoundWinner::Draw => None,
    }
}

impl GameView {
    /// Whether the status is one in which players reveal.
    pub open spec fn awaits_reveal(self) -> bool {
        self.status == GameStatus::WaitingForReveals || self.status == GameStatus::CreatorRevealed
            || self.status == GameStatus::ChallengerRevealed
    }

    /// Whether the game is over: nothing changes its status any more.
    pub open spec fn is_over(self) -> bool {
        self.status == GameStatus::Complete || self.status == GameStatus::Forfeited
    }

    /// Whether the moves of a side that the status says has revealed alone
    /// are on record.
    pub open spec fn reveal_on_record(self) -> bool {
        &&& self.status == GameStatus::CreatorRevealed ==> self.creator_moves is Some
        &&& self.status == GameStatus::ChallengerRevealed ==> self.challenger_moves is Some
    }

    /// What holds of a game before a challenger has joined, and after.
    pub open spec fn wf_join(self) -> bool {
        if self.status == GameStatus::WaitingForChallenger {
            &&& self.challenger is None
            &&& self.challenger_commitment is None
            &&& self.joined_at is None
            &&& self.reveal_deadline is None
            &&& self.total_pot == self.stake_per_round * self.rounds
        } else {
            &&& self.challenger is Some
            &&& self.challenger != Some(self.creator)
            &&& self.challenger_commitment is Some
            &&& self.joined_at is Some
            &&& self.reveal_deadline is Some
            &&& self.reveal_deadline->0 == self.joined_at->0 + REVEAL_WINDOW_SECONDS
            &&& self.total_pot == 2 * (self.stake_per_round * self.rounds)
        }
    }

    /// Which moves are on record in which status.
    pub open spec fn wf_reveals(self) -> bool {
        &&& self.creator_moves matches Some(m) ==> valid_moves(m, self.rounds)
        &&& self.challenger_moves matches Some(m) ==> valid_moves(m, self.rounds)
        &&& self.creator_moves is Some <==> {
            ||| self.status == GameStatus::CreatorRevealed
            ||| self.status == GameStatus::Complete
            ||| self.status == GameStatus::Forfeited && self.winner == Some(self.creator)
        }
        &&& self.challenger_moves is Some <==> {
            ||| self.status == GameStatus::ChallengerRevealed
            ||| self.status == GameStatus::Complete
            ||| self.status == GameStatus::Forfeited && self.winner == self.challenger
        }
    }

    /// What the outcome fields hold in which status.
    pub open spec fn wf_outcome(self) -> bool {
        &&& !self.is_over() ==> self.winner is None
        &&& self.status == GameStatus::Forfeited ==> self.winner is Some && (self.winner == Some(
            self.creator,
        ) || self.winner == self.challenger)
        &&& self.status == GameStatus::Complete ==> {
            &&& self.round_results == resolve_rounds(
                self.creator_moves->0,
                self.challenger_moves->0,
            )
            &&& self.winner == winner_identity(
                match_winner(self.round_results),
                self.creator,
                self.challenger,
            )
        }
        &&& self.status != GameStatus::Complete ==> self.round_results.len() == 0
        &&& self.fees_collected != 0 ==> self.winner is Some && self.fees_collected == fee_of(
            self.total_pot,
        )
    }

    /// The invariant of a game: what creation establishes and every
    /// operation keeps.
    pub open spec fn wf(self) -> bool {
        &&& valid_rounds(self.rounds)
        &&& self.stake_per_round > 0
        &&& self.wf_join()
        &&& self.wf_reveals()
        &&& self.wf_outcome()
    }
}

impl Clone for Game {
    fn clone(&self) -> (copy: Game)
        ensures
            copy@ == self@,
    {
        let creator_moves = match &self.creator_moves {
            Some(moves) => Some(moves.clone()),
            None => None,
        };
        let challenger_moves = match &self.challenger_moves {
            Some(moves) => Some(moves.clone()),
            None => None,
        };
        let round_results = self.round_results.clone();
        Game {
            game_id: self.game_id,
            creator: self.creator,
            challenger: self.challenger,
            rounds: self.rounds,
            stake_per_round: self.stake_per_round,
            total_pot: self.total_pot,
            creator_commitment: self.creator_commitment,
            challenger_commitment: self.challenger_commitment,
            creator_moves,
            challenger_moves,
            status: self.status,
            created_at: self.created_at,
            joined_at: self.joined_at,
            reveal_deadline: self.reveal_deadline,
            winner: self.winner,
            round_results,
            fees_collected: self.fees_collected,
        }
    }
}

impl Game {
    /// Whether the record satisfies the invariant of a game.
    pub open spec fn wf(&self) -> bool {
        self@.wf()
    }

    /// Whether the moves of a side that the status says has revealed alone
    /// are on record.
    pub fn reveal_is_on_record(&self) -> (on_record: bool)
        ensures
            on_record == self@.reveal_on_record(),
    {
        match self.status {
            GameStatus::CreatorRevealed => self.creator_moves.is_some(),
            GameStatus::ChallengerRevealed => self.challenger_moves.is_some(),
            _ => true,
        }
    }
}

} // verus!
