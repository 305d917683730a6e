//! The five operations on a game, one module each.
//!
//! Every operation is one step of the game's state machine: it takes the game
//! with what the caller knows (who is acting, what time it is), checks that
//! the step is allowed, and either changes the game and returns the transfers
//! to carry out, or refuses and leaves the game as it was.
pub mod claim_prize;
pub mod create_game;
pub mod forfeit_game;
pub mod join_game;
pub mod reveal_moves;
