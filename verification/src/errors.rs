//! The error taxonomy of the session manager: every rejected operation
//! returns one of these values; nothing panics and nothing fails silently.

use vstd::prelude::*;

verus! {

/// Why a session operation was rejected. Each rejection leaves all state
/// unchanged.
#[derive(Debug, Clone, Copy, PartialEq, Eq, Structural)]
pub enum ChessError {
    /// No game with the given id exists in the store.
    NotFound,
    /// A game with the same id is already stored.
    DuplicateId,
    /// The game already has a guest, or the joiner is the host.
    AlreadyJoined,
    /// The move came from a participant whose turn it is not, or the game
    /// has not started yet.
    NotYourTurn,
    /// The move oracle rejected the move text for the current position.
    IllegalMove,
    /// A mutation was attempted on a finished game.
    GameOver,
    /// The acting player is neither host nor guest of the game.
    Unauthorized,
}

} // verus!
