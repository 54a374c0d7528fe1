//! The closed set of notices the server can address to a client, and
//! the error kinds the game logic can report. Rendering a notice to
//! wire text is a presentation concern of the surrounding application;
//! the logic only decides which notice goes to whom.

use vstd::prelude::*;
use vstd::string::StrSliceExecFns;
use vstd::string::StringExecFns;

verus! {

/// Everything that can go wrong in the game logic. Delivery failures
/// (`SendFailed`) arise only in the transport layer; the logic itself
/// never produces them and never lets them corrupt match state.
#[derive(Debug, Clone, Copy, PartialEq, Eq, Structural)]
pub enum ErrorKind {
    NotYourTurn,
    InvalidMove,
    MatchNotFound,
    NotAcceptingPlayers,
    NoOpenMatch,
    SendFailed,
}

/// One notice to a client. Variants carry only the data they need; the
/// rendered board text travels as a `State` payload built by the
/// verified renderer.
#[derive(Debug, PartialEq, Eq)]
pub enum GameMessage {
    Welcome,
    ChooseOption,
    GameCreated(String),
    EnterGameId,
    GameJoined(String),
    InvalidChoice,
    InvalidInput,
    WaitingForPlayers,
    GameOver,
    CantRestart,
    PlayerJoined(String),
    PlayerDisconnected(String),
    GameRestarted,
    Error(ErrorKind),
    InactiveDisconnect,
    Help,
    GameStatus(String),
    State(String),
}

/// The wire text of each error, as surfaced to the offending client.
pub open spec fn error_text(e: ErrorKind) -> Seq<char> {
    match e {
        ErrorKind::NotYourTurn => "Not your turn"@,
        ErrorKind::InvalidMove => "Invalid move"@,
        ErrorKind::MatchNotFound => "Game not found"@,
        ErrorKind::NotAcceptingPlayers => "Game is not accepting players"@,
        ErrorKind::NoOpenMatch => "Couldn't find any games available, please try again or create a new one"@,
        ErrorKind::SendFailed => "Failed to deliver a message"@,
    }
}

/// The wire text of each notice: a fixed line per variant, with the
/// carried identifier, name or rendered state spliced in.
pub open spec fn message_text(m: GameMessage) -> Seq<char> {
    match m {
        GameMessage::Welcome => "Welcome to Tic-Tac-Toe! Please enter your name:"@,
        GameMessage::ChooseOption => "Choose an option:\n1. Create a new game\n2. Join an existing game"@,
        GameMessage::GameCreated(id) => "Game created! Your game ID is: "@ + id@
            + "\nWaiting for another player to join..."@,
        GameMessage::EnterGameId => "Enter the game ID to join:"@,
        GameMessage::GameJoined(id) => "Joined game: "@ + id@,
        GameMessage::InvalidChoice => "Invalid choice, please restart."@,
        GameMessage::InvalidInput => "Invalid Input: Enter a number from 1 to 9"@,
        GameMessage::WaitingForPlayers => "Waiting for players to join the game..."@,
        GameMessage::GameOver => "Game over! Type `RESTART` to play again or `EXIT` to leave."@,
        GameMessage::CantRestart => "Error: You can't restart the game before finishing the current game!"@,
        GameMessage::PlayerJoined(name) => "Player "@ + name@ + " has joined the game!"@,
        GameMessage::PlayerDisconnected(name) => "Player "@ + name@
            + " has left the game. Waiting for a new player..."@,
        GameMessage::GameRestarted => "Game restarted!"@,
        GameMessage::Error(e) => "Error: "@ + error_text(e),
        GameMessage::InactiveDisconnect => "Disconnected due to inactivity"@,
        GameMessage::Help => "Available Commands:\n- Enter 1-9 to make a move\n- Type 'restart' to restart the game\n- Type 'exit' to leave\n- Type 'status' to check the game status"@,
        GameMessage::GameStatus(t) => "Game Status: "@ + t@,
        GameMessage::State(t) => t@,
    }
}

impl GameMessage {
    /// Renders the notice to its wire text.
    pub fn to_text(&self) -> (r: String)
        ensures
            r@ == message_text(*self),
    {
        match self {
            GameMessage::Welcome => String::from_str(
                "Welcome to Tic-Tac-Toe! Please enter your name:",
            ),
            GameMessage::ChooseOption => String::from_str(
                "Choose an option:\n1. Create a new game\n2. Join an existing game",
            ),
            GameMessage::GameCreated(id) => {
                let mut s = String::from_str("Game created! Your game ID is: ");
                s.append(id.as_str());
                s.append("\nWaiting for another player to join...");
                s
            },
            GameMessage::EnterGameId => String::from_str("Enter the game ID to join:"),
            GameMessage::GameJoined(id) => {
                let mut s = String::from_str("Joined game: ");
                s.append(id.as_str());
                s
            },
            GameMessage::InvalidChoice => String::from_str("Invalid choice, please restart."),
            GameMessage::InvalidInput => String::from_str(
                "Invalid Input: Enter a number from 1 to 9",
            ),
            GameMessage::WaitingForPlayers => String::from_str(
                "Waiting for players to join the game...",
            ),
            GameMessage::GameOver => String::from_str(
                "Game over! Type `RESTART` to play again or `EXIT` to leave.",
            ),
            GameMessage::CantRestart => String::from_str(
                "Error: You can't restart the game before finishing the current game!",
            ),
            GameMessage::PlayerJoined(name) => {
                let mut s = String::from_str("Player ");
                s.append(name.as_str());
                s.append(" has joined the game!");
                s
            },
            GameMessage::PlayerDisconnected(name) => {
                let mut s = String::from_str("Player ");
                s.append(name.as_str());
                s.append(" has left the game. Waiting for a new player...");
                s
            },
            GameMessage::GameRestarted => String::from_str("Game restarted!"),
            GameMessage::Error(e) => {
                let mut s = String::from_str("Error: ");
                let detail = match e {
                    ErrorKind::NotYourTurn => "Not your turn",
                    ErrorKind::InvalidMove => "Invalid move",
                    ErrorKind::MatchNotFound => "Game not found",
                    ErrorKind::NotAcceptingPlayers => "Game is not accepting players",
                    ErrorKind::NoOpenMatch => "Couldn't find any games available, please try again or create a new one",
                    ErrorKind::SendFailed => "Failed to deliver a message",
                };
                s.append(detail);
                s
            },
            GameMessage::InactiveDisconnect => String::from_str("Disconnected due to inactivity"),
            GameMessage::Help => String::from_str(
                "Available Commands:\n- Enter 1-9 to make a move\n- Type 'restart' to restart the game\n- Type 'exit' to leave\n- Type 'status' to check the game status",
            ),
            GameMessage::GameStatus(t) => {
                let mut s = String::from_str("Game Status: ");
                s.append(t.as_str());
                s
            },
            GameMessage::State(t) => t.clone(),
        }
    }
}

/// One outbound delivery: which player's connection, and what notice.
#[derive(Debug, PartialEq, Eq)]
pub struct Outbound {
    pub to: String,
    pub msg: GameMessage,
}

impl Outbound {
    /// The notice `msg`, addressed to the player with identifier `to`.
    pub fn new(to: String, msg: GameMessage) -> (r: Outbound)
        ensures
            r.to@ == to@,
            r.msg == msg,
    {
        Outbound { to, msg }
    }
}

} // verus!
