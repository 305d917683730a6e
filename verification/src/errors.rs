//! The ways in which an operation on a game can be refused.
use vstd::prelude::*;

verus! {

/// Why an operation was refused. A refused operation leaves the game as it was.
#[derive(Clone, Copy, Debug, PartialEq, Eq, Structural)]
pub enum GameError {
    /// The number of rounds is not 1, 3 or 5.
    InvalidRounds,
    /// The stake per round is zero.
    InvalidStake,
    /// An amount does not fit in 64 bits.
    ArithmeticOverflow,
    /// The game is not in a state that admits the operation.
    InvalidGameStatus,
    /// The creator of a game tried to join it.
    CannotJoinOwnGame,
    /// The reveal deadline has passed.
    GameExpired,
    /// The number of revealed moves differs from the number of rounds.
    InvalidMoveCount,
    /// A revealed move is not rock, paper or scissors.
    InvalidMove,
    /// The caller is not the party that the operation is reserved for.
    Unauthorized,
    /// The revealed moves and salt do not hash to the stored commitment.
    CommitmentVerificationFailed,
    /// The reveal deadline is not set or has not passed yet.
    RevealDeadlineNotPassed,
}

} // verus!
