//! The in-memory game store: a mapping from game id to session, modeled as
//! the sequence of stored sessions in insertion order. Ids are unique across
//! the store, listing is deterministic in insertion order, and every
//! read-modify-write of one session happens inside a single `&mut self`
//! method, so two mutations of the store can never interleave.

use vstd::prelude::*;

use crate::errors::ChessError;
use crate::session::{
    accept_allowed, accept_rejection, accepted, chatted, forfeit_allowed, forfeit_rejection,
    forfeited, move_allowed, move_rejection, moved, MultiplayerGame, SessionView,
};

verus! {

/// The ids of the stored sessions, in insertion order.
pub open spec fn ids_of(s: Seq<SessionView>) -> Seq<Seq<char>> {
    s.map_values(|v: SessionView| v.id)
}

/// Whether some stored session carries the id.
pub open spec fn has_id(s: Seq<SessionView>, id: Seq<char>) -> bool {
    exists|i: int| 0 <= i < s.len() && s[i].id == id
}

/// The index of the session carrying the id; ids are unique in a
/// well-formed store, so the index is determined when `has_id` holds.
pub open spec fn idx_of(s: Seq<SessionView>, id: Seq<char>) -> int {
    choose|i: int| 0 <= i < s.len() && s[i].id == id
}

/// The stored session carrying the id.
pub open spec fn session_of(s: Seq<SessionView>, id: Seq<char>) -> SessionView {
    s[idx_of(s, id)]
}

/// An in-process game store holding every session behind one owner; all
/// access goes through `&self` / `&mut self`, so callers that share it must
/// serialize mutations (one lock around the store suffices).
pub struct MemoryStore {
    games: Vec<MultiplayerGame>,
}

impl View for MemoryStore {
    type V = Seq<SessionView>;

    closed spec fn view(&self) -> Seq<SessionView> {
        self.games.deep_view()
    }
}

impl MemoryStore {
    /// Every stored session is well formed and no id occurs twice.
    pub closed spec fn wf(self) -> bool {
        &&& (forall|i: int| 0 <= i < self.games@.len() ==> (#[trigger] self.games@[i]).wf())
        &&& (forall|i: int, j: int|
            #![trigger self@[i].id, self@[j].id]
            0 <= i < j < self@.len() ==> self@[i].id != self@[j].id)
    }

    /// A new, empty store.
    pub fn new() -> (r: Self)
        ensures
            r.wf(),
            r@ == Seq::<SessionView>::empty(),
    {
        let r = Self { games: Vec::new() };
        proof {
            assert(r@ =~= Seq::<SessionView>::empty());
        }
        r
    }

    /// The index of the session with this id, if it is stored.
    fn find_idx(&self, id: &String) -> (r: Option<usize>)
        requires
            self.wf(),
        ensures
            r is Some <==> has_id(self@, id@),
            r matches Some(i) ==> 0 <= i < self@.len() && self@[i as int].id == id@ && i as int
                == idx_of(self@, id@),
    {
        let mut i: usize = 0;
        while i < self.games.len()
            invariant
                self.wf(),
                i <= self@.len(),
                forall|j: int| 0 <= j < i ==> (#[trigger] self@[j].id) != id@,
            decreases self.games@.len() - i,
        {
            if self.games[i].id_is(id) {
                proof {
                    assert(self@[i as int] == self.games@[i as int]@);
                    assert(has_id(self@, id@));
                    let k = idx_of(self@, id@);
                    assert(0 <= k < self@.len() && self@[k].id == id@);
                    if k < i as int {
                        assert(self@[k].id != self@[i as int].id);
                    }
                    if (i as int) < k {
                        assert(self@[i as int].id != self@[k].id);
                    }
                }
                return Some(i);
            }
            i += 1;
        }
        proof {
            if has_id(self@, id@) {
                let k = idx_of(self@, id@);
                assert(self@[k].id == id@);
            }
        }
        None
    }

    /// Insert a session under its own id; rejected with `DuplicateId`, and
    /// the store left unchanged, exactly when the id is already present.
    pub fn add_game(&mut self, game: MultiplayerGame) -> (r: Result<(), ChessError>)
        requires
            old(self).wf(),
            game.wf(),
        ensures
            final(self).wf(),
            has_id(old(self)@, game@.id) ==> r == Err::<(), ChessError>(ChessError::DuplicateId)
                && final(self)@ == old(self)@,
            !has_id(old(self)@, game@.id) ==> r is Ok && final(self)@ == old(self)@.push(game@),
    {
        let key: String = game.id().to_owned();
        if self.find_idx(&key).is_some() {
            return Err(ChessError::DuplicateId);
        }
        self.games.push(game);
        proof {
            assert(self@ =~= old(self)@.push(self.games@.last()@));
            assert forall|i: int| 0 <= i < self.games@.len() implies (
            #[trigger] self.games@[i]).wf() by {
                if i < self.games@.len() - 1 {
                    assert(self.games@[i] == old(self).games@[i]);
                }
            }
        }
        Ok(())
    }

    /// The ids of all stored games, in insertion order.
    pub fn game_ids(&self) -> (r: Vec<String>)
        ensures
            r.deep_view() == ids_of(self@),
    {
        let mut out: Vec<String> = Vec::new();
        let mut i: usize = 0;
        while i < self.games.len()
            invariant
                i <= self.games@.len(),
                out.deep_view() =~= ids_of(self@).subrange(0, i as int),
            decreases self.games@.len() - i,
        {
            let g = &self.games[i];
            out.push(g.id().to_owned());
            proof {
                assert(self@[i as int] == self.games@[i as int]@);
                assert(ids_of(self@)[i as int] == self@[i as int].id);
                assert(ids_of(self@).subrange(0, i + 1 as int) =~= ids_of(self@).subrange(
                    0,
                    i as int,
                ).push(self@[i as int].id));
                assert(out.deep_view() =~= ids_of(self@).subrange(0, i + 1 as int));
            }
            i += 1;
        }
        proof {
            assert(ids_of(self@).subrange(0, self.games@.len() as int) =~= ids_of(self@));
        }
        out
    }

    /// The stored session with this id, if any.
    pub fn get_game(&self, id: &str) -> (r: Option<&MultiplayerGame>)
        requires
            self.wf(),
        ensures
            r is Some <==> has_id(self@, id@),
            r matches Some(g) ==> g@ == session_of(self@, id@) && g.wf(),
    {
        let key: String = id.to_owned();
        match self.find_idx(&key) {
            Some(i) => Some(&self.games[i]),
            None => None,
        }
    }

    /// Join the stored game with this id; `NotFound`, with the store
    /// unchanged, exactly when the id is unknown, otherwise the session's
    /// own join contract decides.
    pub fn accept_game(&mut self, id: &str, player: &str) -> (r: Result<(), ChessError>)
        requires
            old(self).wf(),
        ensures
            final(self).wf(),
            !has_id(old(self)@, id@) ==> r == Err::<(), ChessError>(ChessError::NotFound) && final(self)@ == old(self)@,
            has_id(old(self)@, id@) ==> {
                let v = session_of(old(self)@, id@);
                let i = idx_of(old(self)@, id@);
                &&& accept_allowed(v, player@) ==> r is Ok && final(self)@ == old(self)@.update(
                    i,
                    accepted(v, player@),
                )
                &&& !accept_allowed(v, player@) ==> r == Err::<(), ChessError>(
                    accept_rejection(v, player@),
                ) && final(self)@ == old(self)@
            },
    {
        let key: String = id.to_owned();
        let idx = match self.find_idx(&key) {
            Some(i) => i,
            None => {
                return Err(ChessError::NotFound);
            },
        };
        let mut g = self.games.remove(idx);
        let r = g.accept(player);
        self.games.insert(idx, g);
        proof {
            self.lemma_after_write_back(*old(self), idx as int);
        }
        r
    }

    /// Attempt a move on the stored game with this id; `NotFound`, with
    /// the store unchanged, exactly when the id is unknown, otherwise the
    /// session's own move contract decides.
    pub fn push_move_game(&mut self, id: &str, player: &str, mv: &str) -> (r: Result<
        (),
        ChessError,
    >)
        requires
            old(self).wf(),
        ensures
            final(self).wf(),
            !has_id(old(self)@, id@) ==> r == Err::<(), ChessError>(ChessError::NotFound) && final(self)@ == old(self)@,
            has_id(old(self)@, id@) ==> {
                let v = session_of(old(self)@, id@);
                let i = idx_of(old(self)@, id@);
                &&& move_allowed(v, player@, mv@) ==> r is Ok && final(self)@ == old(self)@.update(i, moved(v, player@, mv@))
                &&& !move_allowed(v, player@, mv@) ==> r == Err::<(), ChessError>(
                    move_rejection(v, player@),
                ) && final(self)@ == old(self)@
            },
    {
        let key: String = id.to_owned();
        let idx = match self.find_idx(&key) {
            Some(i) => i,
            None => {
                return Err(ChessError::NotFound);
            },
        };
        let mut g = self.games.remove(idx);
        let r = g.try_move(player, mv);
        self.games.insert(idx, g);
        proof {
            self.lemma_after_write_back(*old(self), idx as int);
        }
        r
    }

    /// Forfeit the stored game with this id; `NotFound`, with the store
    /// unchanged, exactly when the id is unknown, otherwise the session's
    /// own forfeit contract decides.
    pub fn forfeit_game(&mut self, id: &str, player: &str) -> (r: Result<(), ChessError>)
        requires
            old(self).wf(),
        ensures
            final(self).wf(),
            !has_id(old(self)@, id@) ==> r == Err::<(), ChessError>(ChessError::NotFound) && final(self)@ == old(self)@,
            has_id(old(self)@, id@) ==> {
                let v = session_of(old(self)@, id@);
                let i = idx_of(old(self)@, id@);
                &&& forfeit_allowed(v, player@) ==> r is Ok && final(self)@ == old(self)@.update(i, forfeited(v, player@))
                &&& !forfeit_allowed(v, player@) ==> r == Err::<(), ChessError>(
                    forfeit_rejection(v, player@),
                ) && final(self)@ == old(self)@
            },
    {
        let key: String = id.to_owned();
        let idx = match self.find_idx(&key) {
            Some(i) => i,
            None => {
                return Err(ChessError::NotFound);
            },
        };
        let mut g = self.games.remove(idx);
        let r = g.forfeit(player);
        self.games.insert(idx, g);
        proof {
            self.lemma_after_write_back(*old(self), idx as int);
        }
        r
    }

    /// Append a chat message to the stored game with this id; `NotFound`,
    /// with the store unchanged, exactly when the id is unknown.
    pub fn send_chat_game(&mut self, id: &str, sender: &str, text: &str) -> (r: Result<
        (),
        ChessError,
    >)
        requires
            old(self).wf(),
        ensures
            final(self).wf(),
            !has_id(old(self)@, id@) ==> r == Err::<(), ChessError>(ChessError::NotFound) && final(self)@ == old(self)@,
            has_id(old(self)@, id@) ==> r is Ok && final(self)@ == old(self)@.update(
                idx_of(old(self)@, id@),
                chatted(session_of(old(self)@, id@), sender@, text@),
            ),
    {
        let key: String = id.to_owned();
        let idx = match self.find_idx(&key) {
            Some(i) => i,
            None => {
                return Err(ChessError::NotFound);
            },
        };
        let mut g = self.games.remove(idx);
        g.send_chat(sender, text);
        self.games.insert(idx, g);
        proof {
            self.lemma_after_write_back(*old(self), idx as int);
        }
        Ok(())
    }

    /// After taking the session at `i` out of a well-formed store, changing
    /// it without touching its id, and putting it back at `i`, the store's
    /// model is the old model with position `i` updated, and the store is
    /// well formed again.
    proof fn lemma_after_write_back(&self, pre: Self, i: int)
        requires
            pre.wf(),
            0 <= i < pre.games@.len(),
            self.games@ == pre.games@.remove(i).insert(i, self.games@[i]),
            self.games@[i].wf(),
            self.games@[i]@.id == pre@[i].id,
        ensures
            self.wf(),
            self@ == pre@.update(i, self.games@[i]@),
    {
        assert(self.games@.len() == pre.games@.len());
        assert forall|j: int| 0 <= j < self.games@.len() && j != i implies self.games@[j]
            == pre.games@[j] by {
            if j < i {
                assert(pre.games@.remove(i)[j] == pre.games@[j]);
            } else {
                assert(pre.games@.remove(i)[j - 1] == pre.games@[j]);
            }
        }
        assert(self@ =~= pre@.update(i, self.games@[i]@));
        assert forall|j: int| 0 <= j < self.games@.len() implies (
        #[trigger] self.games@[j]).wf() by {}
        assert forall|p: int, q: int|
            0 <= p < q < self@.len() implies #[trigger] self@[p].id != #[trigger] self@[q].id by {
            assert(pre@[p].id != pre@[q].id);
        }
    }
}

} // verus!
