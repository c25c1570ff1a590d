use chess_sessions::errors::ChessError;
use chess_sessions::service::ChessRpcServer;
use chess_sessions::session::{GamePhase, MultiplayerGame};
use chess_sessions::store::MemoryStore;

fn phase_of(server: &ChessRpcServer, id: &str) -> GamePhase {
    server.get_game(id).unwrap().phase()
}

#[test]
fn create_accept_move_scenario() {
    let mut server = ChessRpcServer::init();
    let id = server.push_game_create("alice").unwrap();
    assert_eq!(phase_of(&server, &id), GamePhase::AwaitingOpponent);

    assert_eq!(server.push_game_accept(&id, "bob"), Ok(()));
    assert_eq!(phase_of(&server, &id), GamePhase::InProgress);

    assert_eq!(server.push_move(&id, "alice", "e2e4"), Ok(()));
    let (_, history) = server.pull_game_state(&id).unwrap();
    assert_eq!(history.len(), 1);

    assert_eq!(server.push_move(&id, "bob", "e2e4"), Err(ChessError::IllegalMove));
    let (_, history) = server.pull_game_state(&id).unwrap();
    assert_eq!(history.len(), 1);
}

#[test]
fn guest_reply_returns_turn_to_host() {
    let mut server = ChessRpcServer::init();
    let id = server.push_game_create("alice").unwrap();
    assert_eq!(server.push_game_accept(&id, "bob"), Ok(()));
    assert_eq!(server.push_move(&id, "alice", "e2e4"), Ok(()));

    assert_eq!(server.push_move(&id, "bob", "e7e5"), Ok(()));
    let (_, history) = server.pull_game_state(&id).unwrap();
    assert_eq!(history.len(), 2);

    // It is alice's turn again: another move by bob is out of turn.
    assert_eq!(server.push_move(&id, "bob", "g8f6"), Err(ChessError::NotYourTurn));
    assert_eq!(server.push_move(&id, "alice", "g1f3"), Ok(()));
}

#[test]
fn forfeit_finishes_the_game() {
    let mut server = ChessRpcServer::init();
    let id = server.push_game_create("alice").unwrap();
    assert_eq!(server.push_game_accept(&id, "bob"), Ok(()));
    assert_eq!(server.push_game_gg(&id, "alice"), Ok(()));
    assert_eq!(phase_of(&server, &id), GamePhase::Finished);
    let game = server.get_game(&id).unwrap();
    assert_eq!(game.winner_name(), Some("bob"));
    assert_eq!(game.forfeited_by_name(), Some("alice"));
    assert_eq!(server.push_move(&id, "bob", "e7e5"), Err(ChessError::GameOver));
}

#[test]
fn second_join_is_rejected() {
    let mut server = ChessRpcServer::init();
    let id = server.push_game_create("alice").unwrap();
    assert_eq!(server.push_game_accept(&id, "bob"), Ok(()));
    assert_eq!(server.push_game_accept(&id, "carol"), Err(ChessError::AlreadyJoined));
    let game = server.get_game(&id).unwrap();
    assert_eq!(game.guest_name(), Some("bob"));
}

#[test]
fn host_cannot_join_own_game() {
    let mut server = ChessRpcServer::init();
    let id = server.push_game_create("alice").unwrap();
    assert_eq!(server.push_game_accept(&id, "alice"), Err(ChessError::AlreadyJoined));
    assert!(server.get_game(&id).unwrap().guest_name().is_none());
}

#[test]
fn listing_contains_every_created_game() {
    let mut server = ChessRpcServer::init();
    let id1 = server.push_game_create("alice").unwrap();
    let id2 = server.push_game_create("carol").unwrap();
    let ids = server.pull_games_list();
    assert_eq!(ids, vec![id1.clone(), id2.clone()]);

    // Mutations that are not creations keep the listing unchanged.
    assert_eq!(server.push_game_accept(&id1, "bob"), Ok(()));
    assert_eq!(server.push_move(&id1, "alice", "e2e4"), Ok(()));
    assert_eq!(server.push_game_gg(&id2, "carol"), Ok(()));
    assert_eq!(server.pull_games_list(), vec![id1, id2]);
}

#[test]
fn listing_is_idempotent() {
    let mut server = ChessRpcServer::init();
    server.push_game_create("alice").unwrap();
    server.push_game_create("bob").unwrap();
    let first = server.pull_games_list();
    let second = server.pull_games_list();
    assert_eq!(first, second);
}

#[test]
fn unknown_ids_are_not_found() {
    let mut server = ChessRpcServer::init();
    server.push_game_create("alice").unwrap();
    assert_eq!(server.push_move("missing", "alice", "e2e4"), Err(ChessError::NotFound));
    assert_eq!(server.push_game_accept("missing", "bob"), Err(ChessError::NotFound));
    assert_eq!(server.push_game_gg("missing", "alice"), Err(ChessError::NotFound));
    assert_eq!(server.push_mgs("missing", "alice", "hi"), Err(ChessError::NotFound));
    assert_eq!(server.pull_board_state("missing"), Err(ChessError::NotFound));
    assert!(server.pull_game_state("missing").is_err());
    assert!(server.pull_msgs("missing").is_err());
}

#[test]
fn duplicate_id_is_rejected() {
    let mut server = ChessRpcServer::init();
    assert_eq!(server.create_game_with_id("g1", "alice"), Ok(()));
    assert_eq!(server.create_game_with_id("g1", "bob"), Err(ChessError::DuplicateId));
    assert_eq!(server.pull_games_list(), vec!["g1".to_string()]);
}

#[test]
fn outsiders_are_unauthorized() {
    let mut server = ChessRpcServer::init();
    let id = server.push_game_create("alice").unwrap();
    assert_eq!(server.push_game_accept(&id, "bob"), Ok(()));
    assert_eq!(server.push_move(&id, "mallory", "e2e4"), Err(ChessError::Unauthorized));
    assert_eq!(server.push_game_gg(&id, "mallory"), Err(ChessError::Unauthorized));
}

#[test]
fn guest_cannot_move_first() {
    let mut server = ChessRpcServer::init();
    let id = server.push_game_create("alice").unwrap();
    assert_eq!(server.push_game_accept(&id, "bob"), Ok(()));
    assert_eq!(server.push_move(&id, "bob", "e7e5"), Err(ChessError::NotYourTurn));
}

#[test]
fn moving_before_a_guest_joins_is_rejected() {
    let mut server = ChessRpcServer::init();
    let id = server.push_game_create("alice").unwrap();
    assert_eq!(server.push_move(&id, "alice", "e2e4"), Err(ChessError::NotYourTurn));
}

#[test]
fn board_state_changes_with_moves() {
    let mut server = ChessRpcServer::init();
    let id = server.push_game_create("alice").unwrap();
    assert_eq!(server.push_game_accept(&id, "bob"), Ok(()));
    let before = server.pull_board_state(&id).unwrap();
    assert_eq!(server.push_move(&id, "alice", "e2e4"), Ok(()));
    let after = server.pull_board_state(&id).unwrap();
    assert_ne!(before, after);
    let (fen, history) = server.pull_game_state(&id).unwrap();
    assert_eq!(fen, after);
    assert_eq!(history, vec![after]);
}

#[test]
fn chat_is_appended_in_order() {
    let mut server = ChessRpcServer::init();
    let id = server.push_game_create("alice").unwrap();
    assert_eq!(server.push_mgs(&id, "alice", "anyone there?"), Ok(()));
    assert_eq!(server.push_game_accept(&id, "bob"), Ok(()));
    assert_eq!(server.push_mgs(&id, "bob", "ready"), Ok(()));
    let msgs = server.pull_msgs(&id).unwrap();
    assert_eq!(msgs.len(), 2);
    assert_eq!(msgs[0].sender, "alice");
    assert_eq!(msgs[0].text, "anyone there?");
    assert_eq!(msgs[1].sender, "bob");
    assert_eq!(msgs[1].text, "ready");
}

#[test]
fn checkmate_finishes_session_and_records_winner() {
    let mut server = ChessRpcServer::init();
    let id = server.push_game_create("alice").unwrap();
    assert_eq!(server.push_game_accept(&id, "bob"), Ok(()));
    assert_eq!(server.push_move(&id, "alice", "f2f3"), Ok(()));
    assert_eq!(server.push_move(&id, "bob", "e7e5"), Ok(()));
    assert_eq!(server.push_move(&id, "alice", "g2g4"), Ok(()));
    assert_eq!(server.push_move(&id, "bob", "d8h4"), Ok(()));
    assert_eq!(phase_of(&server, &id), GamePhase::Finished);
    assert_eq!(server.get_game(&id).unwrap().winner_name(), Some("bob"));
    assert_eq!(server.push_move(&id, "alice", "a2a3"), Err(ChessError::GameOver));
}

#[test]
fn forfeit_before_join_records_no_winner() {
    let mut server = ChessRpcServer::init();
    let id = server.push_game_create("alice").unwrap();
    assert_eq!(server.push_game_gg(&id, "alice"), Ok(()));
    assert_eq!(phase_of(&server, &id), GamePhase::Finished);
    assert!(server.get_game(&id).unwrap().winner_name().is_none());
    assert_eq!(server.push_game_accept(&id, "bob"), Err(ChessError::GameOver));
}

#[test]
fn store_rejects_duplicate_session() {
    let mut store = MemoryStore::new();
    assert_eq!(store.add_game(MultiplayerGame::new("g1", "alice")), Ok(()));
    assert_eq!(
        store.add_game(MultiplayerGame::new("g1", "carol")),
        Err(ChessError::DuplicateId)
    );
    assert!(store.get_game("g1").is_some());
    assert_eq!(store.get_game("g1").unwrap().host_name(), "alice");
    assert!(store.get_game("g2").is_none());
    assert_eq!(store.game_ids(), vec!["g1".to_string()]);
}

#[test]
fn racing_moves_admit_exactly_one_winner() {
    // Two players both push a move against the same position; whichever
    // order the store serializes them in, exactly one succeeds.
    let mut server = ChessRpcServer::init();
    let id = server.push_game_create("alice").unwrap();
    assert_eq!(server.push_game_accept(&id, "bob"), Ok(()));
    assert_eq!(server.push_move(&id, "alice", "e2e4"), Ok(()));
    assert_eq!(server.push_move(&id, "alice", "d2d4"), Err(ChessError::NotYourTurn));

    let mut server = ChessRpcServer::init();
    let id = server.push_game_create("alice").unwrap();
    assert_eq!(server.push_game_accept(&id, "bob"), Ok(()));
    assert_eq!(server.push_move(&id, "bob", "e7e5"), Err(ChessError::NotYourTurn));
    assert_eq!(server.push_move(&id, "alice", "d2d4"), Ok(()));
}

#[test]
fn rejected_moves_leave_session_untouched() {
    let mut server = ChessRpcServer::init();
    let id = server.push_game_create("alice").unwrap();
    assert_eq!(server.push_game_accept(&id, "bob"), Ok(()));
    assert_eq!(server.push_move(&id, "alice", "e2e4"), Ok(()));
    let state_before = server.pull_game_state(&id).unwrap();
    // Out of turn, illegal, and unauthorized attempts all leave the game as it was.
    assert_eq!(server.push_move(&id, "alice", "d2d4"), Err(ChessError::NotYourTurn));
    assert_eq!(server.push_move(&id, "bob", "e2e4"), Err(ChessError::IllegalMove));
    assert_eq!(server.push_move(&id, "mallory", "d7d5"), Err(ChessError::Unauthorized));
    assert_eq!(server.pull_game_state(&id).unwrap(), state_before);
}
