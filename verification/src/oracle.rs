//! The move-legality oracle. Chess move generation, legality checking, move
//! application and terminal-state detection are delegated to the `pleco`
//! crate; this module is the only place that calls it. Positions cross the
//! boundary as FEN strings, so every verified function in the rest of the
//! crate works on plain string values.
//!
//! Chess is deterministic: which move texts are legal from a position, the
//! position reached by a legal move, and whether a position is checkmate or
//! stalemate are functions of the FEN string alone. Those functions are far
//! too large to write out, so each is given an uninterpreted name below, and
//! the trusted wrappers state their results through the names.

use vstd::prelude::*;

verus! {

/// Holds of the FEN strings this library stores: those produced by the
/// oracle itself, starting from the initial position. `pleco::Board::from_fen`
/// reconstructs the full board state from any such string without error.
pub uninterp spec fn valid_fen(fen: Seq<char>) -> bool;

/// Whether `mv` is the canonical UCI text of a move that the oracle
/// enumerates as legal from the position `fen`. Names the boolean result of
/// `pleco::Board::apply_uci_move`, which accepts exactly those texts.
pub uninterp spec fn legal_uci(fen: Seq<char>, mv: Seq<char>) -> bool;

/// The FEN of the position reached by playing `mv` from `fen`. Names the
/// position that `pleco::Board::apply_uci_move` produces; meaningful only
/// when `legal_uci(fen, mv)` holds.
pub uninterp spec fn next_fen(fen: Seq<char>, mv: Seq<char>) -> Seq<char>;

/// Whether the side to move in `fen` is checkmated. Names the result of
/// `pleco::Board::checkmate`.
pub uninterp spec fn fen_checkmate(fen: Seq<char>) -> bool;

/// Whether the position `fen` is a stalemate (no legal move but not in
/// check, or the fifty-move rule has run out). Names the result of
/// `pleco::Board::stalemate`.
pub uninterp spec fn fen_stalemate(fen: Seq<char>) -> bool;

/// The FEN of the initial chess position, as the oracle serializes it.
pub open spec fn start_fen_spec() -> Seq<char> {
    "rnbqkbnr/pppppppp/8/8/8/8/PPPPPPPP/RNBQKBNR w KQkq - 0 1"@
}

/// Relies on `pleco::Board::start_pos` and `pleco::Board::fen`: the starting
/// position serialized to FEN is exactly the standard start string (shown in
/// the documented example on `pleco::Board::fen`). It is neither checkmate
/// nor stalemate: by `pleco::Board::checkmate` and `stalemate`, the side to
/// move is not in check, has legal moves, and the half-move clock is zero.
#[verifier::external_body]
pub(crate) fn oracle_start_fen() -> (r: String)
    ensures
        r@ == start_fen_spec(),
        valid_fen(r@),
        !fen_checkmate(r@),
        !fen_stalemate(r@),
{
    pleco::Board::start_pos().fen()
}

/// Relies on `pleco::Board::apply_uci_move`: it generates the legal moves of
/// the position, accepts `mv` iff it equals the canonical text of one of
/// them, and on acceptance applies that move. `pleco::Board::from_fen` and
/// `pleco::Board::fen` convert between the FEN strings this library stores
/// and the board values the oracle computes on.
#[verifier::external_body]
pub(crate) fn oracle_apply_uci(fen: &str, mv: &str) -> (r: Option<String>)
    requires
        valid_fen(fen@),
    ensures
        r is Some <==> legal_uci(fen@, mv@),
        r is Some ==> r->0@ == next_fen(fen@, mv@),
        r is Some ==> valid_fen(next_fen(fen@, mv@)),
{
    match pleco::Board::from_fen(fen) {
        Ok(mut board) => {
            if board.apply_uci_move(mv) {
                Some(board.fen())
            } else {
                None
            }
        },
        Err(_) => None,
    }
}

/// Relies on `pleco::Board::checkmate`: whether the side to move is in check
/// and has no legal move. `pleco::Board::from_fen` converts the argument.
#[verifier::external_body]
pub(crate) fn oracle_checkmate(fen: &str) -> (r: bool)
    requires
        valid_fen(fen@),
    ensures
        r == fen_checkmate(fen@),
{
    match pleco::Board::from_fen(fen) {
        Ok(board) => board.checkmate(),
        Err(_) => false,
    }
}

/// Relies on `pleco::Board::stalemate`: whether the side to move has no
/// legal move without being in check, or the fifty-move rule has run out.
/// `pleco::Board::from_fen` converts the argument.
#[verifier::external_body]
pub(crate) fn oracle_stalemate(fen: &str) -> (r: bool)
    requires
        valid_fen(fen@),
    ensures
        r == fen_stalemate(fen@),
{
    match pleco::Board::from_fen(fen) {
        Ok(board) => board.stalemate(),
        Err(_) => false,
    }
}

} // verus!
