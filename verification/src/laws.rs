//! Laws of the session manager, stated once over the models that the
//! public contracts use and proved by Verus. Each law connects several
//! operations, so it stands here as a public proof function rather than in
//! the `ensures` of any single method.

use vstd::prelude::*;

use crate::errors::ChessError;
use crate::game::status_of;
use crate::oracle::next_fen;
use crate::session::{move_allowed, move_rejection, moved, turn_of, SessionView};
use crate::store::ids_of;

verus! {

/// Creation never loses a listing: after a new session is appended to the
/// store, its id is listed, and every id listed before is still listed.
pub proof fn lemma_created_ids_persist(
    before: Seq<SessionView>,
    after: Seq<SessionView>,
    v: SessionView,
)
    requires
        after == before.push(v),
    ensures
        ids_of(after).contains(v.id),
        forall|id: Seq<char>| ids_of(before).contains(id) ==> ids_of(after).contains(id),
{
    assert(ids_of(after)[before.len() as int] == v.id);
    assert forall|id: Seq<char>| ids_of(before).contains(id) implies ids_of(after).contains(
        id,
    ) by {
        let i = choose|i: int| 0 <= i < ids_of(before).len() && ids_of(before)[i] == id;
        assert(ids_of(after)[i] == id);
    }
}

/// Every mutation but creation updates one stored session in place and
/// keeps its id, so the listing is exactly unchanged: together with
/// `lemma_created_ids_persist`, no created id is ever lost.
pub proof fn lemma_update_preserves_ids(s: Seq<SessionView>, i: int, v: SessionView)
    requires
        0 <= i < s.len(),
        v.id == s[i].id,
    ensures
        ids_of(s.update(i, v)) == ids_of(s),
{
    assert(ids_of(s.update(i, v)) =~= ids_of(s));
}

/// Listing is idempotent: two listings of the same store model, with no
/// mutation in between, are identical sequences.
pub proof fn lemma_listing_idempotent(s: Seq<SessionView>, r1: Seq<Seq<char>>, r2: Seq<Seq<char>>)
    requires
        r1 == ids_of(s),
        r2 == ids_of(s),
    ensures
        r1 == r2,
{
}

/// History is monotone: a successful move appends exactly one position, no
/// entry already written ever changes, and the appended entry is the new
/// current position — so after N successful moves the length is N.
pub proof fn lemma_history_monotone(v: SessionView, p: Seq<char>, mv: Seq<char>)
    requires
        move_allowed(v, p, mv),
    ensures
        moved(v, p, mv).history.len() == v.history.len() + 1,
        forall|i: int| 0 <= i < v.history.len() ==> moved(v, p, mv).history[i] == v.history[i],
        moved(v, p, mv).history.last() == moved(v, p, mv).fen,
{
}

/// Mutual exclusion by turn order: from any one session state, moves by two
/// different players can never both be allowed. However racing move
/// attempts against one game are serialized, only the player on turn can
/// succeed first, and every other attempt is rejected with the session
/// unchanged.
pub proof fn lemma_moves_mutually_exclusive(
    v: SessionView,
    p: Seq<char>,
    mv: Seq<char>,
    q: Seq<char>,
    mv_next: Seq<char>,
)
    requires
        move_allowed(v, p, mv),
        move_allowed(v, q, mv_next),
    ensures
        p == q,
{
}

/// Turns alternate: after a successful move that leaves the game running,
/// another move attempt by the same player is rejected with `NotYourTurn`,
/// and any player whose move can succeed next is the other participant.
/// (When the move ends the game instead, later attempts are rejected with
/// `GameOver`.)
pub proof fn lemma_turn_alternation(
    v: SessionView,
    p: Seq<char>,
    mv: Seq<char>,
    q: Seq<char>,
    mv_next: Seq<char>,
)
    requires
        v.guest matches Some(g) && g != v.host,
        move_allowed(v, p, mv),
        status_of(next_fen(v.fen, mv)) is Continuing,
    ensures
        !move_allowed(moved(v, p, mv), p, mv_next),
        move_rejection(moved(v, p, mv), p) == ChessError::NotYourTurn,
        move_allowed(moved(v, p, mv), q, mv_next) ==> q != p && q == turn_of(moved(v, p, mv)),
{
    let w = moved(v, p, mv);
    assert(w.history.len() == v.history.len() + 1);
    assert(v.history.len() % 2 == 0 ==> w.history.len() % 2 == 1);
    assert(v.history.len() % 2 == 1 ==> w.history.len() % 2 == 0);
    assert(turn_of(w) != turn_of(v));
}

} // verus!
