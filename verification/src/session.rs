//! Multiplayer game sessions. A `MultiplayerGame` extends a single `Game`
//! with two player identities (host, optional guest), a join stage, forfeit,
//! and a chat log. Its life is a three-phase state machine:
//! `AwaitingOpponent` (guest absent) → `InProgress` (guest present, game not
//! over) → `Finished` (checkmate, stalemate or forfeit). Every rejected
//! transition returns a typed reason and leaves the session unchanged.
//!
//! Policies this module fixes where the design leaves a choice: the host
//! plays the first move; a move attempted before a guest has joined is
//! rejected with `NotYourTurn`; a join by the host of the game is rejected
//! with `AlreadyJoined`; a checkmating move records the mover as winner; a
//! forfeit before any guest joined records no winner; chat is open to any
//! sender in any phase; a guest never leaves, so no re-join can arise.

use vstd::prelude::*;

use crate::errors::ChessError;
use crate::game::{status_of, Fen, Game, GameStatus};
use crate::oracle::{fen_checkmate, legal_uci, next_fen, start_fen_spec};

verus! {

/// The phase of a session's state machine.
#[derive(Debug, Clone, Copy, PartialEq, Eq, Structural)]
pub enum GamePhase {
    AwaitingOpponent,
    InProgress,
    Finished,
}

/// One chat message: who sent it and what it says.
pub struct ChatMsg {
    pub sender: String,
    pub text: String,
}

impl DeepView for ChatMsg {
    type V = (Seq<char>, Seq<char>);

    open spec fn deep_view(&self) -> (Seq<char>, Seq<char>) {
        (self.sender@, self.text@)
    }
}

/// The mathematical model of a session: every field as a plain value.
#[verifier::ext_equal]
pub ghost struct SessionView {
    pub id: Seq<char>,
    pub host: Seq<char>,
    pub guest: Option<Seq<char>>,
    pub fen: Seq<char>,
    pub history: Seq<Seq<char>>,
    pub chat: Seq<(Seq<char>, Seq<char>)>,
    pub finished: bool,
    pub winner: Option<Seq<char>>,
    pub forfeited_by: Option<Seq<char>>,
}

/// The phase a session is in, read off its model.
pub open spec fn phase_of(v: SessionView) -> GamePhase {
    if v.finished {
        GamePhase::Finished
    } else if v.guest is None {
        GamePhase::AwaitingOpponent
    } else {
        GamePhase::InProgress
    }
}

/// Whose turn it is: the host moves when the number of successful moves is
/// even, the guest when it is odd. Meaningful only while a guest is present.
pub open spec fn turn_of(v: SessionView) -> Seq<char> {
    if v.history.len() % 2 == 0 {
        v.host
    } else {
        v.guest->0
    }
}

/// A freshly created session: host set, no guest, initial position, empty
/// history and chat.
pub open spec fn fresh_session(id: Seq<char>, host: Seq<char>) -> SessionView {
    SessionView {
        id: id,
        host: host,
        guest: None,
        fen: start_fen_spec(),
        history: Seq::empty(),
        chat: Seq::empty(),
        finished: false,
        winner: None,
        forfeited_by: None,
    }
}

/// A join succeeds exactly while no guest has joined, the game is not
/// finished, and the joiner is not the host.
pub open spec fn accept_allowed(v: SessionView, p: Seq<char>) -> bool {
    v.guest is None && !v.finished && p != v.host
}

/// The reason a join is rejected.
pub open spec fn accept_rejection(v: SessionView, p: Seq<char>) -> ChessError {
    if v.guest is Some {
        ChessError::AlreadyJoined
    } else if v.finished {
        ChessError::GameOver
    } else {
        ChessError::AlreadyJoined
    }
}

/// The session after a successful join.
pub open spec fn accepted(v: SessionView, p: Seq<char>) -> SessionView {
    SessionView { guest: Some(p), ..v }
}

/// A move succeeds exactly while the game is in progress, it is `p`'s
/// turn, and the oracle accepts the move text from the current position.
pub open spec fn move_allowed(v: SessionView, p: Seq<char>, mv: Seq<char>) -> bool {
    &&& !v.finished
    &&& v.guest is Some
    &&& p == turn_of(v)
    &&& legal_uci(v.fen, mv)
}

/// The reason a move is rejected, checked in this order: finished game,
/// game not yet started, non-participant, wrong turn, illegal move.
pub open spec fn move_rejection(v: SessionView, p: Seq<char>) -> ChessError {
    if v.finished {
        ChessError::GameOver
    } else if v.guest is None {
        ChessError::NotYourTurn
    } else if p != v.host && p != v.guest->0 {
        ChessError::Unauthorized
    } else if p != turn_of(v) {
        ChessError::NotYourTurn
    } else {
        ChessError::IllegalMove
    }
}

/// The session after a successful move by `p`: the new position is
/// appended to the history, and a terminal position finishes the game,
/// recording `p` as winner on checkmate.
pub open spec fn moved(v: SessionView, p: Seq<char>, mv: Seq<char>) -> SessionView {
    let nf = next_fen(v.fen, mv);
    SessionView {
        fen: nf,
        history: v.history.push(nf),
        finished: !(status_of(nf) is Continuing),
        winner: if fen_checkmate(nf) {
            Some(p)
        } else {
            v.winner
        },
        ..v
    }
}

/// A forfeit succeeds exactly while the game is not finished and `p` is a
/// participant.
pub open spec fn forfeit_allowed(v: SessionView, p: Seq<char>) -> bool {
    !v.finished && (p == v.host || v.guest == Some(p))
}

/// The reason a forfeit is rejected.
pub open spec fn forfeit_rejection(v: SessionView, p: Seq<char>) -> ChessError {
    if v.finished {
        ChessError::GameOver
    } else {
        ChessError::Unauthorized
    }
}

/// The session after `p` forfeits: finished at once, the game awarded to
/// the other side, or to nobody when no guest had joined.
pub open spec fn forfeited(v: SessionView, p: Seq<char>) -> SessionView {
    SessionView {
        finished: true,
        forfeited_by: Some(p),
        winner: if v.guest is None {
            None
        } else if p == v.host {
            v.guest
        } else {
            Some(v.host)
        },
        ..v
    }
}

/// The session after a chat message: appended to the log, all else as it
/// was.
pub open spec fn chatted(v: SessionView, sender: Seq<char>, text: Seq<char>) -> SessionView {
    SessionView { chat: v.chat.push((sender, text)), ..v }
}

/// One multiplayer game session tracked by the store.
pub struct MultiplayerGame {
    id: String,
    host: String,
    guest: Option<String>,
    game: Game,
    chat: Vec<ChatMsg>,
    finished: bool,
    winner: Option<String>,
    forfeited_by: Option<String>,
}

impl View for MultiplayerGame {
    type V = SessionView;

    closed spec fn view(&self) -> SessionView {
        SessionView {
            id: self.id@,
            host: self.host@,
            guest: self.guest.deep_view(),
            fen: self.game.pos(),
            history: self.game.hist(),
            chat: self.chat.deep_view(),
            finished: self.finished,
            winner: self.winner.deep_view(),
            forfeited_by: self.forfeited_by.deep_view(),
        }
    }
}

impl DeepView for MultiplayerGame {
    type V = SessionView;

    open spec fn deep_view(&self) -> SessionView {
        self@
    }
}

impl MultiplayerGame {
    /// The inner game is well formed; the guest, once present, differs
    /// from the host; and a session not yet finished sits on a position
    /// the game can continue from — a move that reaches checkmate or
    /// stalemate finishes the session at once.
    pub closed spec fn wf(self) -> bool {
        &&& self.game.wf()
        &&& (self@.guest matches Some(g) ==> g != self@.host)
        &&& (!self@.finished ==> status_of(self@.fen) is Continuing)
    }

    /// A new session: the given id and host, no guest, a fresh game.
    pub fn new(id: &str, host: &str) -> (r: Self)
        ensures
            r.wf(),
            r@ == fresh_session(id@, host@),
    {
        let r = Self {
            id: id.to_owned(),
            host: host.to_owned(),
            guest: None,
            game: Game::default(),
            chat: Vec::new(),
            finished: false,
            winner: None,
            forfeited_by: None,
        };
        proof {
            assert(r@ =~~= fresh_session(id@, host@));
        }
        r
    }

    /// Join the game as guest. Succeeds exactly when `accept_allowed`
    /// holds; any rejection leaves the session unchanged.
    pub fn accept(&mut self, player: &str) -> (r: Result<(), ChessError>)
        requires
            old(self).wf(),
        ensures
            final(self).wf(),
            accept_allowed(old(self)@, player@) ==> r is Ok && final(self)@ == accepted(
                old(self)@,
                player@,
            ),
            !accept_allowed(old(self)@, player@) ==> r == Err::<(), ChessError>(
                accept_rejection(old(self)@, player@),
            ) && *final(self) == *old(self),
    {
        if self.guest.is_some() {
            return Err(ChessError::AlreadyJoined);
        }
        if self.finished {
            return Err(ChessError::GameOver);
        }
        let p: String = player.to_owned();
        if p == self.host {
            return Err(ChessError::AlreadyJoined);
        }
        self.guest = Some(p);
        proof {
            assert(self@ =~~= accepted(old(self)@, player@));
        }
        Ok(())
    }

    /// Attempt a move by `player`. Succeeds exactly when `move_allowed`
    /// holds, and then appends the resulting position to the history; any
    /// rejection leaves the session unchanged.
    pub fn try_move(&mut self, player: &str, mv: &str) -> (r: Result<(), ChessError>)
        requires
            old(self).wf(),
        ensures
            final(self).wf(),
            move_allowed(old(self)@, player@, mv@) ==> r is Ok && final(self)@ == moved(
                old(self)@,
                player@,
                mv@,
            ),
            !move_allowed(old(self)@, player@, mv@) ==> r == Err::<(), ChessError>(
                move_rejection(old(self)@, player@),
            ) && *final(self) == *old(self),
    {
        if self.finished {
            return Err(ChessError::GameOver);
        }
        if self.guest.is_none() {
            return Err(ChessError::NotYourTurn);
        }
        let p: String = player.to_owned();
        let is_host = p == self.host;
        let is_guest = match &self.guest {
            Some(g) => p == *g,
            None => false,
        };
        if !is_host && !is_guest {
            return Err(ChessError::Unauthorized);
        }
        let host_turn = self.game.history_len() % 2 == 0;
        let on_turn = if host_turn {
            is_host
        } else {
            is_guest
        };
        if !on_turn {
            return Err(ChessError::NotYourTurn);
        }
        let success = self.game.make_move(mv);
        if !success {
            return Err(ChessError::IllegalMove);
        }
        let st = self.game.status();
        if !matches!(st, GameStatus::Continuing) {
            self.finished = true;
            if matches!(st, GameStatus::Checkmate) {
                self.winner = Some(p);
            }
        }
        proof {
            assert(self@ =~~= moved(old(self)@, player@, mv@));
        }
        Ok(())
    }

    /// Forfeit the game as `player`. Succeeds exactly when
    /// `forfeit_allowed` holds; any rejection leaves the session unchanged.
    pub fn forfeit(&mut self, player: &str) -> (r: Result<(), ChessError>)
        requires
            old(self).wf(),
        ensures
            final(self).wf(),
            forfeit_allowed(old(self)@, player@) ==> r is Ok && final(self)@ == forfeited(
                old(self)@,
                player@,
            ),
            !forfeit_allowed(old(self)@, player@) ==> r == Err::<(), ChessError>(
                forfeit_rejection(old(self)@, player@),
            ) && *final(self) == *old(self),
    {
        if self.finished {
            return Err(ChessError::GameOver);
        }
        let p: String = player.to_owned();
        let is_host = p == self.host;
        let is_guest = match &self.guest {
            Some(g) => p == *g,
            None => false,
        };
        if !is_host && !is_guest {
            return Err(ChessError::Unauthorized);
        }
        self.winner = if self.guest.is_none() {
            None
        } else if is_host {
            match &self.guest {
                Some(g) => Some(g.clone()),
                None => None,
            }
        } else {
            Some(self.host.clone())
        };
        self.finished = true;
        self.forfeited_by = Some(p);
        proof {
            assert(self@ =~~= forfeited(old(self)@, player@));
        }
        Ok(())
    }

    /// Append a chat message. Chat is open to any sender in any phase and
    /// never changes the state machine.
    pub fn send_chat(&mut self, sender: &str, text: &str)
        requires
            old(self).wf(),
        ensures
            final(self).wf(),
            final(self)@ == chatted(old(self)@, sender@, text@),
    {
        self.chat.push(ChatMsg { sender: sender.to_owned(), text: text.to_owned() });
        proof {
            assert(self@ =~~= chatted(old(self)@, sender@, text@));
        }
    }

    /// Whether this session carries the given id.
    pub fn id_is(&self, id: &String) -> (r: bool)
        ensures
            r == (self@.id == id@),
    {
        self.id == *id
    }

    /// The unique id of this session.
    pub fn id(&self) -> (r: &str)
        ensures
            r@ == self@.id,
    {
        self.id.as_str()
    }

    /// The host's player id.
    pub fn host_name(&self) -> (r: &str)
        ensures
            r@ == self@.host,
    {
        self.host.as_str()
    }

    /// The guest's player id, if one has joined.
    pub fn guest_name(&self) -> (r: Option<&str>)
        ensures
            r is Some <==> self@.guest is Some,
            r matches Some(g) ==> g@ == self@.guest->0,
    {
        match &self.guest {
            Some(g) => Some(g.as_str()),
            None => None,
        }
    }

    /// The phase this session is in.
    pub fn phase(&self) -> (r: GamePhase)
        ensures
            r == phase_of(self@),
    {
        if self.finished {
            GamePhase::Finished
        } else if self.guest.is_none() {
            GamePhase::AwaitingOpponent
        } else {
            GamePhase::InProgress
        }
    }

    /// The current position as a FEN string.
    pub fn board_fen(&self) -> (r: Fen)
        ensures
            r@ == self@.fen,
    {
        self.game.board_fen()
    }

    /// How many successful moves have been played.
    pub fn history_len(&self) -> (r: usize)
        ensures
            r == self@.history.len(),
    {
        self.game.history_len()
    }

    /// A copy of the history of positions, oldest first.
    pub fn history_snapshot(&self) -> (r: Vec<Fen>)
        ensures
            r.deep_view() == self@.history,
    {
        self.game.history_snapshot()
    }

    /// The winner recorded for this session, if any.
    pub fn winner_name(&self) -> (r: Option<&str>)
        ensures
            r is Some <==> self@.winner is Some,
            r matches Some(w) ==> w@ == self@.winner->0,
    {
        match &self.winner {
            Some(w) => Some(w.as_str()),
            None => None,
        }
    }

    /// The player recorded as having forfeited this session, if any.
    pub fn forfeited_by_name(&self) -> (r: Option<&str>)
        ensures
            r is Some <==> self@.forfeited_by is Some,
            r matches Some(p) ==> p@ == self@.forfeited_by->0,
    {
        match &self.forfeited_by {
            Some(p) => Some(p.as_str()),
            None => None,
        }
    }

    /// A copy of the chat log, oldest first.
    pub fn chat_snapshot(&self) -> (r: Vec<ChatMsg>)
        ensures
            r.deep_view() == self@.chat,
    {
        let mut out: Vec<ChatMsg> = Vec::new();
        let mut i: usize = 0;
        while i < self.chat.len()
            invariant
                i <= self.chat.len(),
                out.deep_view() =~= self@.chat.subrange(0, i as int),
            decreases self.chat.len() - i,
        {
            let m = &self.chat[i];
            out.push(ChatMsg { sender: m.sender.clone(), text: m.text.clone() });
            proof {
                assert((m.sender@, m.text@) == self@.chat[i as int]);
                assert(self@.chat.subrange(0, i + 1 as int) =~= self@.chat.subrange(
                    0,
                    i as int,
                ).push(self@.chat[i as int]));
                assert(out.deep_view() =~= self@.chat.subrange(0, i + 1 as int));
            }
            i += 1;
        }
        proof {
            assert(self@.chat.subrange(0, self.chat@.len() as int) =~= self@.chat);
        }
        out
    }
}

} // verus!
