//! Boards and single games. A `Board` owns one position, serialized as a
//! FEN string, and answers move attempts by consulting the move oracle. A
//! `Game` owns a board plus the ordered history of positions reached by its
//! successful moves, oldest first.

use vstd::prelude::*;

use crate::oracle::{
    fen_checkmate, fen_stalemate, legal_uci, next_fen, oracle_apply_uci, oracle_checkmate,
    oracle_stalemate, oracle_start_fen, start_fen_spec, valid_fen,
};

verus! {

/// A full board position in Forsyth-Edwards Notation.
pub type Fen = String;

/// A board holding exactly one current position. A successful move never
/// mutates the receiver: it produces a fresh `Board`, so earlier positions
/// stay valid as history entries.
pub struct Board {
    fen: Fen,
}

impl View for Board {
    type V = Seq<char>;

    /// A board is modeled by the FEN string of its position.
    closed spec fn view(&self) -> Seq<char> {
        self.fen@
    }
}

impl Board {
    /// The position is one the oracle itself produced, so the oracle
    /// accepts it back as valid input.
    pub closed spec fn wf(self) -> bool {
        valid_fen(self@)
    }

    /// A board holding the initial chess position, on which the game can
    /// continue.
    pub fn default() -> (r: Self)
        ensures
            r.wf(),
            r@ == start_fen_spec(),
            status_of(r@) is Continuing,
    {
        Self { fen: oracle_start_fen() }
    }

    /// Validate `uci_move` against the oracle and, exactly when it matches
    /// a legal move of the current position, return the board after that
    /// move. The receiver itself is never changed.
    pub fn make_move(&mut self, uci_move: &str) -> (r: Option<Self>)
        requires
            old(self).wf(),
        ensures
            *final(self) == *old(self),
            r is Some <==> legal_uci(old(self)@, uci_move@),
            r matches Some(b) ==> b@ == next_fen(old(self)@, uci_move@) && b.wf(),
    {
        match oracle_apply_uci(self.fen.as_str(), uci_move) {
            Some(fen) => Some(Self { fen }),
            None => None,
        }
    }

    /// Whether `uci_move` matches a legal move of the current position.
    /// Decided by the same oracle query as `make_move`, so the two can
    /// never disagree on what is accepted.
    pub fn move_is_valid(&self, uci_move: &str) -> (r: bool)
        requires
            self.wf(),
        ensures
            r == legal_uci(self@, uci_move@),
    {
        let attempt = oracle_apply_uci(self.fen.as_str(), uci_move);
        attempt.is_some()
    }

    /// The current position as a FEN string.
    pub fn fen(&self) -> (r: Fen)
        ensures
            r@ == self@,
    {
        self.fen.clone()
    }
}

/// Status of the game.
#[derive(Debug, Clone, Copy, PartialEq, Eq, Structural)]
pub enum GameStatus {
    Continuing,
    Checkmate,
    Stalemate,
}

/// The status of the position `fen`: checkmate and stalemate are decided by
/// the oracle, everything else continues.
pub open spec fn status_of(fen: Seq<char>) -> GameStatus {
    if fen_checkmate(fen) {
        GameStatus::Checkmate
    } else if fen_stalemate(fen) {
        GameStatus::Stalemate
    } else {
        GameStatus::Continuing
    }
}

/// Interface for playing a single chess game: one board plus the history
/// of positions reached by successful moves.
pub struct Game {
    board: Board,
    history: Vec<Fen>,
}

impl Game {
    /// The current position.
    pub closed spec fn pos(self) -> Seq<char> {
        self.board@
    }

    /// The positions reached by the successful moves of this game, oldest
    /// first: one entry per successful move.
    pub closed spec fn hist(self) -> Seq<Seq<char>> {
        self.history.deep_view()
    }

    /// The board holds a position the oracle produced, and the last history
    /// entry, if any, is exactly the current position.
    pub closed spec fn wf(self) -> bool {
        &&& self.board.wf()
        &&& self.hist().len() > 0 ==> self.hist().last() == self.pos()
    }

    /// A new game on the initial position, with no moves played.
    pub fn default() -> (r: Self)
        ensures
            r.wf(),
            r.pos() == start_fen_spec(),
            r.hist() == Seq::<Seq<char>>::empty(),
            status_of(r.pos()) is Continuing,
    {
        let r = Self { board: Board::default(), history: Vec::new() };
        proof {
            assert(r.hist() =~= Seq::<Seq<char>>::empty());
        }
        r
    }

    /// Attempt `mv`. Terminal positions are absorbing: on a position that
    /// is already checkmate or stalemate the move is rejected outright,
    /// without asking the oracle to validate it. Otherwise, exactly when
    /// the oracle accepts the move, the board is replaced by the resulting
    /// position and that position is appended to the history; on any
    /// rejection the game is left entirely unchanged.
    pub fn make_move(&mut self, mv: &str) -> (success: bool)
        requires
            old(self).wf(),
        ensures
            final(self).wf(),
            success == (status_of(old(self).pos()) is Continuing && legal_uci(
                old(self).pos(),
                mv@,
            )),
            success ==> final(self).pos() == next_fen(old(self).pos(), mv@),
            success ==> final(self).hist() == old(self).hist().push(
                next_fen(old(self).pos(), mv@),
            ),
            !success ==> *final(self) == *old(self),
    {
        let st = self.status();
        if !matches!(st, GameStatus::Continuing) {
            return false;
        }
        let new_board = self.board.make_move(mv);
        let success = !new_board.is_none();
        if success {
            self.board = new_board.unwrap();
            self.history.push(self.board.fen());
            proof {
                assert(self.hist() =~= old(self).hist().push(next_fen(old(self).pos(), mv@)));
            }
        }
        success
    }

    /// The status of the current position.
    pub fn status(&self) -> (r: GameStatus)
        requires
            self.wf(),
        ensures
            r == status_of(self.pos()),
    {
        if oracle_checkmate(self.board.fen.as_str()) {
            GameStatus::Checkmate
        } else if oracle_stalemate(self.board.fen.as_str()) {
            GameStatus::Stalemate
        } else {
            GameStatus::Continuing
        }
    }

    /// The current position as a FEN string.
    pub fn board_fen(&self) -> (r: Fen)
        ensures
            r@ == self.pos(),
    {
        self.board.fen()
    }

    /// How many successful moves have been played.
    pub fn history_len(&self) -> (r: usize)
        ensures
            r == self.hist().len(),
    {
        self.history.len()
    }

    /// A copy of the history of positions, oldest first.
    pub fn history_snapshot(&self) -> (r: Vec<Fen>)
        ensures
            r.deep_view() == self.hist(),
    {
        let r = self.history.clone();
        proof {
            assert forall|i: int| 0 <= i < self.history@.len() implies r@[i] == self.history@[i] by {
                assert(cloned::<Fen>(self.history@[i], r@[i]));
            }
            assert(r@ =~= self.history@);
            assert(r.deep_view() =~= self.hist());
        }
        r
    }
}

} // verus!
