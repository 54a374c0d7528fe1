use tictactoe_server::game::{Game, GameStatus};
use tictactoe_server::messages::{ErrorKind, GameMessage};
use tictactoe_server::player::{Player, PlayerSymbol};
use tictactoe_server::server::GameServer;

fn alice() -> Player {
    Player::with_id("id-a".to_string(), "Alice".to_string(), PlayerSymbol::X)
}

fn bob() -> Player {
    Player::with_id("id-b".to_string(), "Bob".to_string(), PlayerSymbol::X)
}

fn carol() -> Player {
    Player::with_id("id-c".to_string(), "Carol".to_string(), PlayerSymbol::X)
}

/// Plays out a sequence of (player id, position) moves, all expected to succeed.
fn play(game: &mut Game, moves: &[(&str, usize)]) {
    for (pid, pos) in moves {
        game.make_move(pid, *pos).expect("move should be accepted");
    }
}

fn two_player_game() -> (GameServer, String) {
    let mut server = GameServer::new();
    let id = server.create_game(alice());
    let (res, _) = server.join_game(bob());
    assert_eq!(res.expect("join should succeed"), id);
    (server, id)
}

#[test]
fn created_game_waits_with_empty_board() {
    let mut server = GameServer::new();
    let id = server.create_game(alice());
    let game = server.get_game(&id).expect("created game is registered");
    assert_eq!(game.get_status(), GameStatus::WaitingForPlayers);
    assert_eq!(game.board.len(), 9);
    assert!(game.board.iter().all(|c| c.is_none()));
    assert_eq!(game.players.len(), 1);
    assert_eq!(game.players[0].get_symbol(), PlayerSymbol::X);
    assert_eq!(game.current_turn, 0);
}

#[test]
fn join_fills_match_and_starts_game() {
    let (server, id) = two_player_game();
    let game = server.get_game(&id).expect("game still registered");
    assert_eq!(game.get_status(), GameStatus::InProgress);
    assert_eq!(game.players.len(), 2);
    assert_eq!(game.players[0].get_name(), "Alice");
    assert_eq!(game.players[0].get_symbol(), PlayerSymbol::X);
    assert_eq!(game.players[1].get_name(), "Bob");
    assert_eq!(game.players[1].get_symbol(), PlayerSymbol::O);
    assert_eq!(game.current_turn, 0);
    assert!(game.board.iter().all(|c| c.is_none()));
}

#[test]
fn join_broadcasts_arrival_and_opening_board() {
    let mut server = GameServer::new();
    let id = server.create_game(alice());
    let (res, outs) = server.join_game(bob());
    assert!(res.is_ok());
    assert_eq!(outs.len(), 4);
    assert_eq!(outs[0].to, "id-a");
    assert_eq!(outs[0].msg, GameMessage::PlayerJoined("Bob".to_string()));
    assert_eq!(outs[1].to, "id-b");
    assert_eq!(outs[1].msg, GameMessage::PlayerJoined("Bob".to_string()));
    assert_eq!(outs[2].to, "id-a");
    assert_eq!(outs[3].to, "id-b");
    match (&outs[2].msg, &outs[3].msg) {
        (GameMessage::State(a), GameMessage::State(b)) => {
            assert_eq!(a, b);
            assert!(a.contains(&id));
            assert!(a.contains("It's Alice's turn!"));
        }
        other => panic!("expected opening board broadcasts, got {:?}", other),
    }
}

#[test]
fn winner_found_on_every_line() {
    let lines: [[usize; 3]; 8] = [
        [0, 1, 2],
        [3, 4, 5],
        [6, 7, 8],
        [0, 3, 6],
        [1, 4, 7],
        [2, 5, 8],
        [0, 4, 8],
        [2, 4, 6],
    ];
    for line in lines.iter() {
        let mut board = vec![None; 9];
        for &i in line.iter() {
            board[i] = Some(PlayerSymbol::O);
        }
        let game = Game {
            id: "g".to_string(),
            board,
            players: vec![alice(), bob()],
            current_turn: 0,
            status: GameStatus::Finished,
        };
        assert_eq!(game.check_winner(), Some(PlayerSymbol::O));
    }
}

#[test]
fn no_winner_without_complete_line() {
    let empty = Game {
        id: "g".to_string(),
        board: vec![None; 9],
        players: vec![alice()],
        current_turn: 0,
        status: GameStatus::WaitingForPlayers,
    };
    assert_eq!(empty.check_winner(), None);
    let x = Some(PlayerSymbol::X);
    let o = Some(PlayerSymbol::O);
    let mixed = Game {
        id: "g".to_string(),
        board: vec![x, o, x, x, o, o, o, x, x],
        players: vec![alice(), bob()],
        current_turn: 0,
        status: GameStatus::Finished,
    };
    assert_eq!(mixed.check_winner(), None);
}

#[test]
fn move_out_of_turn_rejected_and_board_kept() {
    let (mut server, id) = two_player_game();
    let game = server.get_mut_game(&id).expect("game registered");
    let before = game.board.clone();
    assert_eq!(game.make_move("id-b", 5), Err(ErrorKind::NotYourTurn));
    assert_eq!(game.board, before);
    assert_eq!(game.current_turn, 0);
    assert_eq!(game.get_status(), GameStatus::InProgress);
}

#[test]
fn move_on_occupied_or_out_of_range_cell_rejected() {
    let (mut server, id) = two_player_game();
    let game = server.get_mut_game(&id).expect("game registered");
    game.make_move("id-a", 5).expect("first move accepted");
    let before = game.board.clone();
    assert_eq!(game.make_move("id-b", 5), Err(ErrorKind::InvalidMove));
    assert_eq!(game.make_move("id-b", 0), Err(ErrorKind::InvalidMove));
    assert_eq!(game.make_move("id-b", 10), Err(ErrorKind::InvalidMove));
    assert_eq!(game.board, before);
    assert_eq!(game.current_turn, 1);
}

#[test]
fn diagonal_win_finishes_and_names_winner() {
    let (mut server, id) = two_player_game();
    let game = server.get_mut_game(&id).expect("game registered");
    play(
        game,
        &[("id-a", 1), ("id-b", 2), ("id-a", 5), ("id-b", 3)],
    );
    let text = game.make_move("id-a", 9).expect("winning move accepted");
    assert_eq!(game.get_status(), GameStatus::Finished);
    assert_eq!(game.check_winner(), Some(PlayerSymbol::X));
    assert!(text.contains("Winner: Alice!"), "unexpected text: {}", text);
}

#[test]
fn full_board_without_line_is_a_draw() {
    let (mut server, id) = two_player_game();
    let game = server.get_mut_game(&id).expect("game registered");
    play(
        game,
        &[
            ("id-a", 1),
            ("id-b", 2),
            ("id-a", 3),
            ("id-b", 5),
            ("id-a", 4),
            ("id-b", 6),
            ("id-a", 8),
            ("id-b", 7),
        ],
    );
    let text = game.make_move("id-a", 9).expect("last move accepted");
    assert_eq!(game.get_status(), GameStatus::Finished);
    assert_eq!(game.check_winner(), None);
    assert!(text.contains("Result: Draw!"), "unexpected text: {}", text);
    assert!(!text.contains("Winner:"));
}

#[test]
fn reset_restarts_with_two_players_else_waits() {
    let (mut server, id) = two_player_game();
    let game = server.get_mut_game(&id).expect("game registered");
    play(
        game,
        &[("id-a", 1), ("id-b", 4), ("id-a", 2), ("id-b", 5), ("id-a", 3)],
    );
    assert_eq!(game.get_status(), GameStatus::Finished);
    game.reset();
    assert_eq!(game.get_status(), GameStatus::InProgress);
    assert!(game.board.iter().all(|c| c.is_none()));
    assert_eq!(game.current_turn, 0);

    game.remove_player("id-b");
    game.reset();
    assert_eq!(game.get_status(), GameStatus::WaitingForPlayers);
    assert!(game.board.iter().all(|c| c.is_none()));
}

#[test]
fn third_join_refused_and_match_unharmed() {
    let (mut server, id) = two_player_game();
    let (res, outs) = server.join_game(carol());
    assert_eq!(res, Err(ErrorKind::NoOpenMatch));
    assert!(outs.is_empty());
    let game = server.get_game(&id).expect("game registered");
    assert_eq!(game.players.len(), 2);
    assert_eq!(game.players[0].get_id(), "id-a");
    assert_eq!(game.players[1].get_id(), "id-b");
    assert_eq!(game.get_status(), GameStatus::InProgress);
}

#[test]
fn sequential_joins_pair_exactly_one() {
    let mut server = GameServer::new();
    let id = server.create_game(alice());
    let (first, first_outs) = server.join_game(bob());
    let (second, second_outs) = server.join_game(carol());
    assert_eq!(first.expect("first join succeeds"), id);
    assert_eq!(first_outs.len(), 4);
    assert_eq!(second, Err(ErrorKind::NoOpenMatch));
    assert!(second_outs.is_empty());
    let game = server.get_game(&id).expect("game registered");
    assert_eq!(game.players.len(), 2);
    assert_eq!(game.get_status(), GameStatus::InProgress);
}

#[test]
fn join_by_id_reports_absent_and_full_matches() {
    let mut server = GameServer::new();
    let (res, _) = server.join_game_by_id("nope", bob());
    assert_eq!(res, Err(ErrorKind::MatchNotFound));

    let id = server.create_game(alice());
    let (res, outs) = server.join_game_by_id(id.as_str(), bob());
    assert_eq!(res.expect("open match accepts"), id);
    assert_eq!(outs.len(), 4);

    let (res, _) = server.join_game_by_id(id.as_str(), carol());
    assert_eq!(res, Err(ErrorKind::NotAcceptingPlayers));
    let game = server.get_game(&id).expect("game registered");
    assert_eq!(game.players.len(), 2);
}

#[test]
fn remove_game_is_idempotent() {
    let mut server = GameServer::new();
    let id = server.create_game(alice());
    assert!(server.get_game(&id).is_some());
    server.remove_game(id.as_str());
    assert!(server.get_game(&id).is_none());
    server.remove_game(id.as_str());
    assert!(server.get_game(&id).is_none());
    server.remove_game("never-there");
}

#[test]
fn summary_lists_every_match_without_mutating() {
    let mut server = GameServer::new();
    let id1 = server.create_game(alice());
    let id2 = server.create_game(bob());
    let summary = server.active_games_summary();
    assert_eq!(summary.len(), 2);
    assert_eq!(summary[0].id, id1);
    assert_eq!(summary[0].player_names, vec!["Alice".to_string()]);
    assert_eq!(summary[0].status, GameStatus::WaitingForPlayers);
    assert_eq!(summary[1].id, id2);
    assert_eq!(summary[1].player_names, vec!["Bob".to_string()]);
    assert_eq!(server.games.len(), 2);
}

#[test]
fn no_match_ever_exceeds_two_players() {
    let mut server = GameServer::new();
    let id = server.create_game(alice());
    let _ = server.join_game(bob());
    let _ = server.join_game(carol());
    let _ = server.join_game_by_id(id.as_str(), carol());
    for game in &server.games {
        assert!(game.players.len() <= 2);
    }
}
