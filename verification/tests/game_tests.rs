use chess_sessions::game::{Board, Game, GameStatus};

const START_FEN: &str = "rnbqkbnr/pppppppp/8/8/8/8/PPPPPPPP/RNBQKBNR w KQkq - 0 1";

#[test]
fn test_game() {
    let mut game = Game::default();
    game.make_move("a2a4");
}

#[test]
fn default_board_holds_start_position() {
    let board = Board::default();
    assert_eq!(board.fen(), START_FEN);
}

#[test]
fn legal_move_produces_new_board() {
    let mut board = Board::default();
    let next = board.make_move("e2e4");
    assert!(next.is_some());
    let next = next.unwrap();
    assert_ne!(next.fen(), START_FEN);
    assert_eq!(board.fen(), START_FEN);
}

#[test]
fn illegal_move_is_rejected() {
    let mut board = Board::default();
    assert!(board.make_move("e2e5").is_none());
    assert!(board.make_move("nonsense").is_none());
    assert_eq!(board.fen(), START_FEN);
}

#[test]
fn move_is_valid_agrees_with_make_move() {
    let board = Board::default();
    assert!(board.move_is_valid("e2e4"));
    assert!(board.move_is_valid("g1f3"));
    assert!(!board.move_is_valid("e2e5"));
    assert!(!board.move_is_valid("zz99"));
}

#[test]
fn successful_moves_append_history() {
    let mut game = Game::default();
    assert_eq!(game.history_len(), 0);
    assert!(game.make_move("e2e4"));
    assert_eq!(game.history_len(), 1);
    let first = game.board_fen();
    assert!(game.make_move("e7e5"));
    assert_eq!(game.history_len(), 2);
    let history = game.history_snapshot();
    assert_eq!(history.len(), 2);
    assert_eq!(history[0], first);
    assert_eq!(history[1], game.board_fen());
}

#[test]
fn failing_move_leaves_game_unchanged() {
    let mut game = Game::default();
    assert!(game.make_move("e2e4"));
    let fen_before = game.board_fen();
    let history_before = game.history_snapshot();
    assert!(!game.make_move("e2e4"));
    assert_eq!(game.board_fen(), fen_before);
    assert_eq!(game.history_snapshot(), history_before);
}

#[test]
fn fresh_game_is_continuing() {
    let game = Game::default();
    assert_eq!(game.status(), GameStatus::Continuing);
}

#[test]
fn quickest_stalemate_is_detected() {
    let mut game = Game::default();
    let moves = [
        "e2e3", "a7a5", "d1h5", "a8a6", "h5a5", "h7h5", "a5c7", "a6h6", "h2h4", "f7f6", "c7d7",
        "e8f7", "d7b7", "d8d3", "b7b8", "d3h7", "b8c8", "f7g6", "c8e6",
    ];
    for mv in moves {
        assert!(game.make_move(mv), "move {} was rejected", mv);
    }
    assert_eq!(game.status(), GameStatus::Stalemate);
}

#[test]
fn fifty_move_rule_stalemate_absorbs_even_playable_moves() {
    // Knights shuffle until the half-move clock reaches fifty: the oracle
    // then reports stalemate although moves are still playable, and the
    // game must reject them without consulting the oracle further.
    let mut game = Game::default();
    for _ in 0..12 {
        for mv in ["g1f3", "g8f6", "f3g1", "f6g8"] {
            assert!(game.make_move(mv));
        }
    }
    assert!(game.make_move("g1f3"));
    assert!(game.make_move("g8f6"));
    assert_eq!(game.status(), GameStatus::Stalemate);
    assert_eq!(game.history_len(), 50);
    assert!(!game.make_move("f3g1"));
    assert_eq!(game.history_len(), 50);
}

#[test]
fn fools_mate_is_checkmate() {
    let mut game = Game::default();
    assert!(game.make_move("f2f3"));
    assert!(game.make_move("e7e5"));
    assert!(game.make_move("g2g4"));
    assert!(game.make_move("d8h4"));
    assert_eq!(game.status(), GameStatus::Checkmate);
}

#[test]
fn terminal_position_absorbs_all_moves() {
    let mut game = Game::default();
    for mv in ["f2f3", "e7e5", "g2g4", "d8h4"] {
        assert!(game.make_move(mv));
    }
    let fen_at_mate = game.board_fen();
    assert!(!game.make_move("a2a3"));
    assert!(!game.make_move("h4h3"));
    assert_eq!(game.history_len(), 4);
    assert_eq!(game.board_fen(), fen_at_mate);
    assert_eq!(game.status(), GameStatus::Checkmate);
}
