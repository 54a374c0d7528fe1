use tictactoe_server::game::GameStatus;
use tictactoe_server::messages::{ErrorKind, GameMessage};
use tictactoe_server::player::{Player, PlayerSymbol};
use tictactoe_server::server::GameServer;
use tictactoe_server::session::{
    handle_game_setup, parse_game_action, parse_mode_choice, GameAction, GameSession, ModeChoice,
    SessionState, SetupOutcome,
};
use tictactoe_server::utils::{format_match_id, generate_id};

fn alice() -> Player {
    Player::with_id("id-a".to_string(), "Alice".to_string(), PlayerSymbol::X)
}

fn bob() -> Player {
    Player::with_id("id-b".to_string(), "Bob".to_string(), PlayerSymbol::X)
}

fn session_for(player: &Player, game_id: &str) -> GameSession {
    GameSession::new(
        player.get_id(),
        game_id.to_string(),
        player.get_name(),
    )
}

fn running_match() -> (GameServer, String) {
    let mut server = GameServer::new();
    let id = server.create_game(alice());
    let (res, _) = server.join_game(bob());
    res.expect("join succeeds");
    (server, id)
}

#[test]
fn keywords_parse_case_insensitively() {
    assert_eq!(parse_game_action("exit"), GameAction::Exit);
    assert_eq!(parse_game_action("  EXIT \n"), GameAction::Exit);
    assert_eq!(parse_game_action("Restart"), GameAction::Restart);
    assert_eq!(parse_game_action("help"), GameAction::Help);
    assert_eq!(parse_game_action("\tSTATUS"), GameAction::GetStatus);
}

#[test]
fn numbers_one_to_nine_parse_as_moves() {
    assert_eq!(parse_game_action("1"), GameAction::Move(1));
    assert_eq!(parse_game_action(" 5 "), GameAction::Move(5));
    assert_eq!(parse_game_action("9"), GameAction::Move(9));
    assert_eq!(parse_game_action("09"), GameAction::Move(9));
}

#[test]
fn everything_else_is_invalid() {
    assert_eq!(parse_game_action("0"), GameAction::Invalid);
    assert_eq!(parse_game_action("10"), GameAction::Invalid);
    assert_eq!(parse_game_action("123456789123456789123"), GameAction::Invalid);
    assert_eq!(parse_game_action("abc"), GameAction::Invalid);
    assert_eq!(parse_game_action("4b"), GameAction::Invalid);
    assert_eq!(parse_game_action(""), GameAction::Invalid);
    assert_eq!(parse_game_action("   "), GameAction::Invalid);
}

#[test]
fn mode_choice_reads_one_or_two() {
    assert_eq!(parse_mode_choice("1"), ModeChoice::Create);
    assert_eq!(parse_mode_choice(" 2 "), ModeChoice::Join);
    assert_eq!(parse_mode_choice("3"), ModeChoice::Invalid);
    assert_eq!(parse_mode_choice("one"), ModeChoice::Invalid);
    assert_eq!(parse_mode_choice(""), ModeChoice::Invalid);
}

#[test]
fn setup_creates_joins_or_refuses() {
    let mut server = GameServer::new();
    let created_id = match handle_game_setup(&mut server, alice(), "1") {
        SetupOutcome::Created { game_id, reply } => {
            assert_eq!(reply, GameMessage::GameCreated(game_id.clone()));
            game_id
        }
        other => panic!("expected a created match, got {:?}", other),
    };
    assert!(server.get_game(&created_id).is_some());

    match handle_game_setup(&mut server, bob(), "2") {
        SetupOutcome::Joined { game_id, reply, outbound } => {
            assert_eq!(game_id, created_id);
            assert_eq!(reply, GameMessage::GameJoined(created_id.clone()));
            assert_eq!(outbound.len(), 4);
        }
        other => panic!("expected a joined match, got {:?}", other),
    }

    match handle_game_setup(&mut server, bob(), "2") {
        SetupOutcome::Refused { reply } => {
            assert_eq!(reply, GameMessage::Error(ErrorKind::NoOpenMatch));
        }
        other => panic!("expected a refused join, got {:?}", other),
    }

    match handle_game_setup(&mut server, bob(), "huh") {
        SetupOutcome::Refused { reply } => assert_eq!(reply, GameMessage::InvalidChoice),
        other => panic!("expected an invalid choice, got {:?}", other),
    }
}

#[test]
fn rendered_state_is_exact() {
    let mut server = GameServer::new();
    let game = tictactoe_server::game::Game::with_id("m1".to_string(), alice());
    server.games.push(game);
    let text = server.games[0].get_game_state();
    assert_eq!(
        text,
        "Game ID: m1\n\n1|2|3\n4|5|6\n7|8|9\nIt's Alice's turn! (Enter a number from 1 to 9)"
    );
}

#[test]
fn rendered_state_shows_marks_and_turn() {
    let (mut server, id) = running_match();
    let game = server.get_mut_game(&id).expect("game registered");
    game.make_move("id-a", 1).expect("move accepted");
    let text = game.get_game_state();
    let expected = format!(
        "Game ID: {}\n\nX|2|3\n4|5|6\n7|8|9\nIt's Bob's turn! (Enter a number from 1 to 9)",
        id
    );
    assert_eq!(text, expected);
}

#[test]
fn move_action_broadcasts_new_state() {
    let (mut server, id) = running_match();
    let sess_a = session_for(&alice(), &id);
    let r = sess_a.handle_action(&mut server, GameAction::Move(5));
    assert_eq!(r.next, SessionState::Continue);
    assert_eq!(r.outbound.len(), 2);
    assert_eq!(r.outbound[0].to, "id-a");
    assert_eq!(r.outbound[1].to, "id-b");
    match (&r.outbound[0].msg, &r.outbound[1].msg) {
        (GameMessage::State(a), GameMessage::State(b)) => {
            assert_eq!(a, b);
            assert!(a.contains("It's Bob's turn!"));
        }
        other => panic!("expected state broadcasts, got {:?}", other),
    }
}

#[test]
fn winning_move_adds_game_over_notices() {
    let (mut server, id) = running_match();
    let sess_a = session_for(&alice(), &id);
    let sess_b = session_for(&bob(), &id);
    sess_a.handle_action(&mut server, GameAction::Move(1));
    sess_b.handle_action(&mut server, GameAction::Move(4));
    sess_a.handle_action(&mut server, GameAction::Move(2));
    sess_b.handle_action(&mut server, GameAction::Move(5));
    let r = sess_a.handle_action(&mut server, GameAction::Move(3));
    assert_eq!(r.outbound.len(), 4);
    assert!(matches!(r.outbound[0].msg, GameMessage::State(_)));
    assert!(matches!(r.outbound[1].msg, GameMessage::State(_)));
    assert_eq!(r.outbound[2].msg, GameMessage::GameOver);
    assert_eq!(r.outbound[3].msg, GameMessage::GameOver);
    assert_eq!(
        server.get_game(&id).expect("still registered").get_status(),
        GameStatus::Finished
    );
}

#[test]
fn rejected_move_answers_only_the_mover() {
    let (mut server, id) = running_match();
    let sess_b = session_for(&bob(), &id);
    let r = sess_b.handle_action(&mut server, GameAction::Move(5));
    assert_eq!(r.next, SessionState::Continue);
    assert_eq!(r.outbound.len(), 1);
    assert_eq!(r.outbound[0].to, "id-b");
    assert_eq!(r.outbound[0].msg, GameMessage::Error(ErrorKind::NotYourTurn));
    assert!(server
        .get_game(&id)
        .expect("still registered")
        .board
        .iter()
        .all(|c| c.is_none()));
}

#[test]
fn move_while_waiting_asks_for_patience() {
    let mut server = GameServer::new();
    let id = server.create_game(alice());
    let sess_a = session_for(&alice(), &id);
    let r = sess_a.handle_action(&mut server, GameAction::Move(5));
    assert_eq!(r.outbound.len(), 1);
    assert_eq!(r.outbound[0].to, "id-a");
    assert_eq!(r.outbound[0].msg, GameMessage::WaitingForPlayers);
    assert!(server
        .get_game(&id)
        .expect("still registered")
        .board
        .iter()
        .all(|c| c.is_none()));
}

#[test]
fn restart_only_after_finish() {
    let (mut server, id) = running_match();
    let sess_a = session_for(&alice(), &id);
    let sess_b = session_for(&bob(), &id);
    let r = sess_a.handle_action(&mut server, GameAction::Restart);
    assert_eq!(r.outbound.len(), 1);
    assert_eq!(r.outbound[0].msg, GameMessage::CantRestart);

    sess_a.handle_action(&mut server, GameAction::Move(1));
    sess_b.handle_action(&mut server, GameAction::Move(4));
    sess_a.handle_action(&mut server, GameAction::Move(2));
    sess_b.handle_action(&mut server, GameAction::Move(5));
    sess_a.handle_action(&mut server, GameAction::Move(3));

    let r = sess_b.handle_action(&mut server, GameAction::Restart);
    assert_eq!(r.outbound.len(), 4);
    assert_eq!(r.outbound[0].msg, GameMessage::GameRestarted);
    assert_eq!(r.outbound[1].msg, GameMessage::GameRestarted);
    assert!(matches!(r.outbound[2].msg, GameMessage::State(_)));
    assert!(matches!(r.outbound[3].msg, GameMessage::State(_)));
    let game = server.get_game(&id).expect("still registered");
    assert_eq!(game.get_status(), GameStatus::InProgress);
    assert!(game.board.iter().all(|c| c.is_none()));
}

#[test]
fn exit_notifies_peer_and_keeps_match_waiting() {
    let (mut server, id) = running_match();
    let sess_b = session_for(&bob(), &id);
    let r = sess_b.handle_action(&mut server, GameAction::Exit);
    assert_eq!(r.next, SessionState::Exit);
    assert_eq!(r.outbound.len(), 1);
    assert_eq!(r.outbound[0].to, "id-a");
    assert_eq!(
        r.outbound[0].msg,
        GameMessage::PlayerDisconnected("Bob".to_string())
    );
    let game = server.get_game(&id).expect("match stays while a player remains");
    assert_eq!(game.get_status(), GameStatus::WaitingForPlayers);
    assert_eq!(game.players.len(), 1);
    assert_eq!(game.players[0].get_id(), "id-a");
    assert!(game.board.iter().all(|c| c.is_none()));
}

#[test]
fn last_exit_removes_the_match() {
    let (mut server, id) = running_match();
    let sess_b = session_for(&bob(), &id);
    let sess_a = session_for(&alice(), &id);
    sess_b.handle_action(&mut server, GameAction::Exit);
    let r = sess_a.handle_action(&mut server, GameAction::Exit);
    assert_eq!(r.next, SessionState::Exit);
    assert!(r.outbound.is_empty());
    assert!(server.get_game(&id).is_none());
    let repeat = sess_a.handle_action(&mut server, GameAction::Exit);
    assert_eq!(repeat.next, SessionState::Exit);
    assert!(repeat.outbound.is_empty());
}

#[test]
fn turn_owner_waits_on_the_long_deadline() {
    let (server, id) = running_match();
    let sess_a = session_for(&alice(), &id);
    let sess_b = session_for(&bob(), &id);
    assert!(sess_a.awaits_own_turn(&server));
    assert!(!sess_b.awaits_own_turn(&server));
    assert!(sess_a.is_game_in_progress(&server));
    assert_eq!(
        sess_b.get_current_turn_player(&server),
        Some("id-a".to_string())
    );
}

#[test]
fn expired_turn_disconnects_the_idle_player() {
    let (mut server, id) = running_match();
    let sess_a = session_for(&alice(), &id);
    let r = sess_a.handle_timeout(&mut server);
    assert_eq!(r.next, SessionState::Exit);
    assert_eq!(r.outbound.len(), 2);
    assert_eq!(r.outbound[0].to, "id-a");
    assert_eq!(r.outbound[0].msg, GameMessage::InactiveDisconnect);
    assert_eq!(r.outbound[1].to, "id-b");
    assert_eq!(
        r.outbound[1].msg,
        GameMessage::PlayerDisconnected("Alice".to_string())
    );
    let game = server.get_game(&id).expect("peer keeps the match");
    assert_eq!(game.players.len(), 1);
    assert_eq!(game.players[0].get_id(), "id-b");
    assert_eq!(game.get_status(), GameStatus::WaitingForPlayers);
}

#[test]
fn status_request_renders_or_reports_missing() {
    let (mut server, id) = running_match();
    let sess_a = session_for(&alice(), &id);
    let r = sess_a.handle_action(&mut server, GameAction::GetStatus);
    assert_eq!(r.outbound.len(), 1);
    match &r.outbound[0].msg {
        GameMessage::GameStatus(text) => assert!(text.contains("It's Alice's turn!")),
        other => panic!("expected a status reply, got {:?}", other),
    }

    let lost = GameSession::new("id-a".to_string(), "gone".to_string(), "Alice".to_string());
    let r = lost.handle_action(&mut server, GameAction::GetStatus);
    assert_eq!(r.outbound.len(), 1);
    assert_eq!(r.outbound[0].msg, GameMessage::Error(ErrorKind::MatchNotFound));
}

#[test]
fn help_and_invalid_input_answer_the_caller() {
    let (mut server, id) = running_match();
    let sess_a = session_for(&alice(), &id);
    let r = sess_a.handle_action(&mut server, GameAction::Help);
    assert_eq!(r.outbound.len(), 1);
    assert_eq!(r.outbound[0].to, "id-a");
    assert_eq!(r.outbound[0].msg, GameMessage::Help);
    let r = sess_a.handle_action(&mut server, GameAction::Invalid);
    assert_eq!(r.outbound.len(), 1);
    assert_eq!(r.outbound[0].msg, GameMessage::InvalidInput);
}

#[test]
fn notices_render_to_their_wire_text() {
    assert_eq!(
        GameMessage::Welcome.to_text(),
        "Welcome to Tic-Tac-Toe! Please enter your name:"
    );
    assert_eq!(
        GameMessage::GameCreated("m7".to_string()).to_text(),
        "Game created! Your game ID is: m7\nWaiting for another player to join..."
    );
    assert_eq!(GameMessage::GameJoined("m7".to_string()).to_text(), "Joined game: m7");
    assert_eq!(
        GameMessage::PlayerJoined("Bob".to_string()).to_text(),
        "Player Bob has joined the game!"
    );
    assert_eq!(
        GameMessage::PlayerDisconnected("Bob".to_string()).to_text(),
        "Player Bob has left the game. Waiting for a new player..."
    );
    assert_eq!(GameMessage::GameStatus("S".to_string()).to_text(), "Game Status: S");
    assert_eq!(GameMessage::State("S".to_string()).to_text(), "S");
}

#[test]
fn every_error_kind_renders_its_own_line() {
    assert_eq!(
        GameMessage::Error(ErrorKind::NotYourTurn).to_text(),
        "Error: Not your turn"
    );
    assert_eq!(
        GameMessage::Error(ErrorKind::InvalidMove).to_text(),
        "Error: Invalid move"
    );
    assert_eq!(
        GameMessage::Error(ErrorKind::MatchNotFound).to_text(),
        "Error: Game not found"
    );
    assert_eq!(
        GameMessage::Error(ErrorKind::NotAcceptingPlayers).to_text(),
        "Error: Game is not accepting players"
    );
    assert_eq!(
        GameMessage::Error(ErrorKind::NoOpenMatch).to_text(),
        "Error: Couldn't find any games available, please try again or create a new one"
    );
    assert_eq!(
        GameMessage::Error(ErrorKind::SendFailed).to_text(),
        "Error: Failed to deliver a message"
    );
}

#[test]
fn match_identifiers_render_exactly() {
    assert_eq!(format_match_id(1234, 7), "1234-0007");
    assert_eq!(format_match_id(0, 0), "0-0000");
    assert_eq!(format_match_id(-5, 123), "-5-0123");
    assert_eq!(format_match_id(1700000000000, 9999), "1700000000000-9999");
}

#[test]
fn generated_identifiers_have_the_id_shape() {
    let id = generate_id();
    assert!(id.len() >= 6);
    assert!(id.contains('-'));
    let suffix = id.rsplit('-').next().expect("dash-separated");
    assert_eq!(suffix.len(), 4);
    assert!(suffix.chars().all(|c| c.is_ascii_digit()));
}
