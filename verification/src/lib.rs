//! Core of a turn-based two-player match server.
//!
//! The library holds the verified logic: the per-match state machine
//! (board, players, turn pointer, status, win and draw detection), the
//! match registry with FIFO matchmaking, and the per-connection session
//! protocol that turns inbound text into actions and outbound notices.
//! Transport, rendering to the wire and task scheduling live outside,
//! in the surrounding application.

pub mod game;
pub mod messages;
pub mod player;
pub mod server;
pub mod session;
pub mod text;
pub mod utils;

use vstd::prelude::*;

verus! {

/// Which of the two players in a match may act next: always 0 or 1.
pub open spec fn valid_turn(turn: usize) -> bool {
    turn == 0 || turn == 1
}

/// The turn pointer after one move: the other player.
pub fn advance_turn(turn: usize) -> (r: usize)
    requires
        valid_turn(turn),
    ensures
        valid_turn(r),
        r == (turn + 1) % 2,
        r != turn,
{
    (turn + 1) % 2
}

} // verus!
