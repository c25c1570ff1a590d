//! The request/response surface of the session manager. Each handler
//! translates one protocol operation into a store operation and returns the
//! result as a value; no handler owns state beyond the store. Callers that
//! serve several clients at once wrap the server in one lock and hold it for
//! the duration of each call, which serializes every read-modify-write.

use vstd::prelude::*;

use crate::errors::ChessError;
use crate::game::Fen;
use crate::session::{
    accept_allowed, accept_rejection, accepted, chatted, forfeit_allowed, forfeit_rejection,
    forfeited, fresh_session, move_allowed, move_rejection, moved, ChatMsg, MultiplayerGame,
    SessionView,
};
use crate::store::{has_id, ids_of, idx_of, session_of, MemoryStore};

verus! {

/// Relies on `uuid::Uuid::new_v4` and its hyphenated `Display` form: a
/// freshly drawn random version-4 UUID as a string. The value is random, so
/// nothing relates it to earlier calls; in particular it may, with
/// negligible probability, collide with an id that is already stored, and
/// the caller must handle that case.
#[verifier::external_body]
fn fresh_game_id() -> (r: String) {
    uuid::Uuid::new_v4().to_string()
}

/// The session server: owns the store of all games and answers protocol
/// requests.
pub struct ChessRpcServer {
    store: MemoryStore,
}

impl View for ChessRpcServer {
    type V = Seq<SessionView>;

    closed spec fn view(&self) -> Seq<SessionView> {
        self.store@
    }
}

impl ChessRpcServer {
    /// The store behind this server is well formed.
    pub closed spec fn wf(self) -> bool {
        self.store.wf()
    }

    /// Server constructor: an empty store.
    pub fn init() -> (r: Self)
        ensures
            r.wf(),
            r@ == Seq::<SessionView>::empty(),
    {
        Self { store: MemoryStore::new() }
    }

    /// Create a new game for `host` under a freshly generated id and return
    /// that id. The id is drawn at random; if it collides with a stored id
    /// (negligible probability, but handled, not assumed away), the request
    /// is rejected with `DuplicateId` and the store is unchanged. On an
    /// empty store no drawn id can collide, so creation succeeds there.
    pub fn push_game_create(&mut self, host: &str) -> (r: Result<String, ChessError>)
        requires
            old(self).wf(),
        ensures
            final(self).wf(),
            old(self)@.len() == 0 ==> r is Ok,
            r matches Ok(gid) ==> !has_id(old(self)@, gid@) && final(self)@ == old(self)@.push(
                fresh_session(gid@, host@),
            ),
            r matches Err(e) ==> e == ChessError::DuplicateId && final(self)@ == old(self)@,
    {
        let gid = fresh_game_id();
        let game = MultiplayerGame::new(gid.as_str(), host);
        match self.store.add_game(game) {
            Ok(()) => Ok(gid),
            Err(e) => Err(e),
        }
    }

    /// Create a new game for `host` under the given id. Succeeds, and
    /// appends the fresh session, exactly when the id is not yet stored;
    /// otherwise rejected with `DuplicateId` and the store is unchanged.
    pub fn create_game_with_id(&mut self, id: &str, host: &str) -> (r: Result<(), ChessError>)
        requires
            old(self).wf(),
        ensures
            final(self).wf(),
            !has_id(old(self)@, id@) ==> r is Ok && final(self)@ == old(self)@.push(
                fresh_session(id@, host@),
            ),
            has_id(old(self)@, id@) ==> r == Err::<(), ChessError>(ChessError::DuplicateId)
                && final(self)@ == old(self)@,
    {
        self.store.add_game(MultiplayerGame::new(id, host))
    }

    /// Join the game as guest; the session's join contract decides, and an
    /// unknown id is rejected with `NotFound`.
    pub fn push_game_accept(&mut self, id: &str, player: &str) -> (r: Result<(), ChessError>)
        requires
            old(self).wf(),
        ensures
            final(self).wf(),
            !has_id(old(self)@, id@) ==> r == Err::<(), ChessError>(ChessError::NotFound) && final(self)@ == old(self)@,
            has_id(old(self)@, id@) ==> {
                let v = session_of(old(self)@, id@);
                &&& accept_allowed(v, player@) ==> r is Ok && final(self)@ == old(self)@.update(
                    idx_of(old(self)@, id@),
                    accepted(v, player@),
                )
                &&& !accept_allowed(v, player@) ==> r == Err::<(), ChessError>(
                    accept_rejection(v, player@),
                ) && final(self)@ == old(self)@
            },
    {
        self.store.accept_game(id, player)
    }

    /// Apply a move; the session's move contract decides (turn order first,
    /// then the oracle), and an unknown id is rejected with `NotFound`.
    pub fn push_move(&mut self, id: &str, player: &str, mv: &str) -> (r: Result<(), ChessError>)
        requires
            old(self).wf(),
        ensures
            final(self).wf(),
            !has_id(old(self)@, id@) ==> r == Err::<(), ChessError>(ChessError::NotFound) && final(self)@ == old(self)@,
            has_id(old(self)@, id@) ==> {
                let v = session_of(old(self)@, id@);
                &&& move_allowed(v, player@, mv@) ==> r is Ok && final(self)@ == old(self)@.update(idx_of(old(self)@, id@), moved(v, player@, mv@))
                &&& !move_allowed(v, player@, mv@) ==> r == Err::<(), ChessError>(
                    move_rejection(v, player@),
                ) && final(self)@ == old(self)@
            },
    {
        self.store.push_move_game(id, player, mv)
    }

    /// The current position of the game: read-only, no history.
    pub fn pull_board_state(&self, id: &str) -> (r: Result<Fen, ChessError>)
        requires
            self.wf(),
        ensures
            r is Ok <==> has_id(self@, id@),
            r matches Ok(f) ==> f@ == session_of(self@, id@).fen,
            r is Err ==> r == Err::<Fen, ChessError>(ChessError::NotFound),
    {
        match self.store.get_game(id) {
            Some(g) => Ok(g.board_fen()),
            None => Err(ChessError::NotFound),
        }
    }

    /// The current position and the full history of the game: read-only.
    pub fn pull_game_state(&self, id: &str) -> (r: Result<(Fen, Vec<Fen>), ChessError>)
        requires
            self.wf(),
        ensures
            r is Ok <==> has_id(self@, id@),
            r matches Ok(state) ==> state.0@ == session_of(self@, id@).fen
                && state.1.deep_view() == session_of(self@, id@).history,
            r is Err ==> r == Err::<(Fen, Vec<Fen>), ChessError>(ChessError::NotFound),
    {
        match self.store.get_game(id) {
            Some(g) => Ok((g.board_fen(), g.history_snapshot())),
            None => Err(ChessError::NotFound),
        }
    }

    /// The ids of all games, a snapshot in insertion order.
    pub fn pull_games_list(&self) -> (r: Vec<String>)
        ensures
            r.deep_view() == ids_of(self@),
    {
        self.store.game_ids()
    }

    /// Forfeit the game; the session's forfeit contract decides, and an
    /// unknown id is rejected with `NotFound`.
    pub fn push_game_gg(&mut self, id: &str, player: &str) -> (r: Result<(), ChessError>)
        requires
            old(self).wf(),
        ensures
            final(self).wf(),
            !has_id(old(self)@, id@) ==> r == Err::<(), ChessError>(ChessError::NotFound) && final(self)@ == old(self)@,
            has_id(old(self)@, id@) ==> {
                let v = session_of(old(self)@, id@);
                &&& forfeit_allowed(v, player@) ==> r is Ok && final(self)@ == old(self)@.update(idx_of(old(self)@, id@), forfeited(v, player@))
                &&& !forfeit_allowed(v, player@) ==> r == Err::<(), ChessError>(
                    forfeit_rejection(v, player@),
                ) && final(self)@ == old(self)@
            },
    {
        self.store.forfeit_game(id, player)
    }

    /// Append a chat message to the game; an unknown id is rejected with
    /// `NotFound`, any sender is accepted in any phase.
    pub fn push_mgs(&mut self, id: &str, sender: &str, text: &str) -> (r: Result<(), ChessError>)
        requires
            old(self).wf(),
        ensures
            final(self).wf(),
            !has_id(old(self)@, id@) ==> r == Err::<(), ChessError>(ChessError::NotFound) && final(self)@ == old(self)@,
            has_id(old(self)@, id@) ==> r is Ok && final(self)@ == old(self)@.update(
                idx_of(old(self)@, id@),
                chatted(session_of(old(self)@, id@), sender@, text@),
            ),
    {
        self.store.send_chat_game(id, sender, text)
    }

    /// The chat log of the game, oldest first: read-only.
    pub fn pull_msgs(&self, id: &str) -> (r: Result<Vec<ChatMsg>, ChessError>)
        requires
            self.wf(),
        ensures
            r is Ok <==> has_id(self@, id@),
            r matches Ok(ms) ==> ms.deep_view() == session_of(self@, id@).chat,
            r is Err ==> r == Err::<Vec<ChatMsg>, ChessError>(ChessError::NotFound),
    {
        match self.store.get_game(id) {
            Some(g) => Ok(g.chat_snapshot()),
            None => Err(ChessError::NotFound),
        }
    }

    /// The stored session with this id, if any: read-only access for
    /// callers that inspect a game directly.
    pub fn get_game(&self, id: &str) -> (r: Option<&MultiplayerGame>)
        requires
            self.wf(),
        ensures
            r is Some <==> has_id(self@, id@),
            r matches Some(g) ==> g@ == session_of(self@, id@) && g.wf(),
    {
        self.store.get_game(id)
    }
}

} // verus!
