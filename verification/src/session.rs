//! The per-connection session protocol: inbound text is classified
//! into actions, each action becomes one atomic step against the
//! registry, and every step reports the notices to deliver and whether
//! the session goes on. The surrounding application reads and writes
//! the wire and races reads against the inactivity deadline; which
//! deadline applies, and what an expiry does, is decided here.

use vstd::prelude::*;
use vstd::string::StrSliceExecFns;

use crate::game::board_empty;
use crate::game::board_full;
use crate::game::board_winner;
use crate::game::remove_by_id;
use crate::game::state_text;
use crate::game::GameStatus;
use crate::messages::ErrorKind;
use crate::messages::GameMessage;
use crate::messages::Outbound;
use crate::player::Player;
use crate::server::first_open;
use crate::server::game_index;
use crate::server::join_outbound_ok;
use crate::server::joined_game;
use crate::server::GameServer;
use crate::text::canon;
use crate::text::canon_chars;
use crate::text::chars_eq_str;
use crate::text::digits_val;
use crate::text::is_digit_seq;
use crate::text::read_small_number;
use crate::text::str_eq;
use crate::text::trim_chars;
use crate::text::trim_seq;

verus! {

/// What one inbound text means in the game loop.
#[derive(Debug, Clone, Copy, PartialEq, Eq, Structural)]
pub enum GameAction {
    Move(usize),
    Restart,
    Exit,
    Help,
    GetStatus,
    Invalid,
}

/// Whether the session keeps reading after an action.
#[derive(Debug, Clone, Copy, PartialEq, Eq, Structural)]
pub enum SessionState {
    Continue,
    Exit,
}

/// What one step decided: whether the session goes on, and the
/// notices to deliver, in order.
#[derive(Debug)]
pub struct ActionResult {
    pub next: SessionState,
    pub outbound: Vec<Outbound>,
}

/// How inbound text is classified: keyword commands first, matched
/// case-insensitively after trimming; then a number names a move when
/// it is 1 to 9; everything else is invalid.
pub open spec fn spec_parse_action(s: Seq<char>) -> GameAction {
    let t = canon(s);
    if t == "exit"@ {
        GameAction::Exit
    } else if t == "restart"@ {
        GameAction::Restart
    } else if t == "help"@ {
        GameAction::Help
    } else if t == "status"@ {
        GameAction::GetStatus
    } else if is_digit_seq(t) && t.len() > 0 && 1 <= digits_val(t) <= 9 {
        GameAction::Move(digits_val(t) as usize)
    } else {
        GameAction::Invalid
    }
}

/// Classifies one inbound text.
pub fn parse_game_action(text: &str) -> (r: GameAction)
    ensures
        r == spec_parse_action(text@),
{
    let v = canon_chars(text);
    if chars_eq_str(&v, "exit") {
        return GameAction::Exit;
    }
    if chars_eq_str(&v, "restart") {
        return GameAction::Restart;
    }
    if chars_eq_str(&v, "help") {
        return GameAction::Help;
    }
    if chars_eq_str(&v, "status") {
        return GameAction::GetStatus;
    }
    match read_small_number(&v) {
        Some(val) => if 1 <= val && val <= 9 {
            GameAction::Move(val)
        } else {
            GameAction::Invalid
        },
        None => GameAction::Invalid,
    }
}

/// The two ways into a match at session start.
#[derive(Debug, Clone, Copy, PartialEq, Eq, Structural)]
pub enum ModeChoice {
    Create,
    Join,
    Invalid,
}

/// How the mode reply is read: `"1"` creates, `"2"` joins, anything
/// else is refused. Only surrounding whitespace is forgiven.
pub open spec fn spec_parse_mode(s: Seq<char>) -> ModeChoice {
    let t = trim_seq(s);
    if t == "1"@ {
        ModeChoice::Create
    } else if t == "2"@ {
        ModeChoice::Join
    } else {
        ModeChoice::Invalid
    }
}

/// Reads the mode reply.
pub fn parse_mode_choice(text: &str) -> (r: ModeChoice)
    ensures
        r == spec_parse_mode(text@),
{
    let v = trim_chars(text);
    if chars_eq_str(&v, "1") {
        ModeChoice::Create
    } else if chars_eq_str(&v, "2") {
        ModeChoice::Join
    } else {
        ModeChoice::Invalid
    }
}

/// One session: the connection's player, the match it is bound to,
/// and the display name used in notices to the peer.
#[derive(Debug)]
pub struct GameSession {
    pub player_id: String,
    pub game_id: String,
    pub player_name: String,
}

/// What a move action does. With the match absent nothing happens.
/// On a waiting match the mover is told to wait; on a finished match
/// everyone is reminded the game is over. On a match in progress the
/// move is validated and applied: a rejected move changes nothing and
/// only the mover learns the error; an applied move is broadcast as
/// the new rendered state, followed by a game-over notice when that
/// move finished the match.
pub open spec fn move_effect(
    s0: GameServer,
    s1: GameServer,
    sess: GameSession,
    position: int,
    outs: Seq<Outbound>,
) -> bool {
    match game_index(s0.games@, sess.game_id@) {
        None => s1.games@ == s0.games@ && outs.len() == 0,
        Some(i) => {
            let g = s0.games@[i];
            match g.status {
                GameStatus::WaitingForPlayers => {
                    &&& s1.games@ == s0.games@
                    &&& outs.len() == 1
                    &&& outs[0].to@ == sess.player_id@
                    &&& outs[0].msg == GameMessage::WaitingForPlayers
                },
                GameStatus::Finished => {
                    &&& s1.games@ == s0.games@
                    &&& outs.len() == g.players@.len()
                    &&& forall|j: int|
                        0 <= j < g.players@.len() ==> (#[trigger] outs[j]).to@
                            == g.players@[j].id@ && outs[j].msg == GameMessage::GameOver
                },
                GameStatus::InProgress => {
                    if g.players@[g.current_turn as int].id@ != sess.player_id@ {
                        &&& s1.games@ == s0.games@
                        &&& outs.len() == 1
                        &&& outs[0].to@ == sess.player_id@
                        &&& outs[0].msg == GameMessage::Error(ErrorKind::NotYourTurn)
                    } else if !(1 <= position <= 9 && g.board@[position - 1] is None) {
                        &&& s1.games@ == s0.games@
                        &&& outs.len() == 1
                        &&& outs[0].to@ == sess.player_id@
                        &&& outs[0].msg == GameMessage::Error(ErrorKind::InvalidMove)
                    } else {
                        let sym = g.players@[g.current_turn as int].symbol;
                        let nb = g.board@.update(position - 1, Some(sym));
                        let finished = board_winner(nb) is Some || board_full(nb);
                        let g2 = s1.games@[i];
                        &&& s1.games@.len() == s0.games@.len()
                        &&& forall|j: int|
                            0 <= j < s0.games@.len() && j != i ==> s1.games@[j] == s0.games@[j]
                        &&& g2.id == g.id
                        &&& g2.players == g.players
                        &&& g2.board@ == nb
                        &&& g2.current_turn == (g.current_turn + 1) % 2
                        &&& g2.status == (if finished {
                            GameStatus::Finished
                        } else {
                            GameStatus::InProgress
                        })
                        &&& outs.len() == (if finished {
                            4int
                        } else {
                            2int
                        })
                        &&& outs[0].to@ == g.players@[0].id@
                        &&& outs[0].msg matches GameMessage::State(t) && t@ == state_text(g2)
                        &&& outs[1].to@ == g.players@[1].id@
                        &&& outs[1].msg matches GameMessage::State(t) && t@ == state_text(g2)
                        &&& finished ==> {
                            &&& outs[2].to@ == g.players@[0].id@
                            &&& outs[2].msg == GameMessage::GameOver
                            &&& outs[3].to@ == g.players@[1].id@
                            &&& outs[3].msg == GameMessage::GameOver
                        }
                    }
                },
            }
        },
    }
}

/// What a restart action does: only a finished match restarts, with a
/// restarted notice and the fresh board broadcast to its players; on
/// any other match only the caller is told it cannot restart yet.
pub open spec fn restart_effect(
    s0: GameServer,
    s1: GameServer,
    sess: GameSession,
    outs: Seq<Outbound>,
) -> bool {
    match game_index(s0.games@, sess.game_id@) {
        None => s1.games@ == s0.games@ && outs.len() == 0,
        Some(i) => {
            let g = s0.games@[i];
            if g.status == GameStatus::Finished {
                let n = g.players@.len() as int;
                let g2 = s1.games@[i];
                &&& s1.games@.len() == s0.games@.len()
                &&& forall|j: int| 0 <= j < s0.games@.len() && j != i ==> s1.games@[j] == s0.games@[j]
                &&& g2.id == g.id
                &&& g2.players == g.players
                &&& board_empty(g2.board@)
                &&& g2.board@.len() == 9
                &&& g2.current_turn == 0
                &&& g2.status == (if n == 2 {
                    GameStatus::InProgress
                } else {
                    GameStatus::WaitingForPlayers
                })
                &&& outs.len() == 2 * n
                &&& forall|j: int|
                    0 <= j < n ==> (#[trigger] outs[j]).to@ == g.players@[j].id@ && outs[j].msg
                        == GameMessage::GameRestarted
                &&& forall|j: int|
                    0 <= j < n ==> (#[trigger] outs[n + j]).to@ == g.players@[j].id@ && (outs[n
                        + j].msg matches GameMessage::State(t) && t@ == state_text(g2))
            } else {
                &&& s1.games@ == s0.games@
                &&& outs.len() == 1
                &&& outs[0].to@ == sess.player_id@
                &&& outs[0].msg == GameMessage::CantRestart
            }
        },
    }
}

/// What leaving does, voluntarily or not: the session's player is
/// removed from its match, each remaining player is told who left, the
/// match is reset (back to waiting when short a player), and a match
/// left empty is dropped from the registry. Leaving twice, or leaving
/// a match already gone, changes nothing more.
pub open spec fn disconnect_effect(
    s0: GameServer,
    s1: GameServer,
    sess: GameSession,
    outs: Seq<Outbound>,
) -> bool {
    match game_index(s0.games@, sess.game_id@) {
        None => s1.games@ == s0.games@ && outs.len() == 0,
        Some(i) => {
            let g = s0.games@[i];
            let rem = remove_by_id(g.players@, sess.player_id@);
            &&& outs.len() == rem.len()
            &&& forall|j: int|
                0 <= j < rem.len() ==> (#[trigger] outs[j]).to@ == rem[j].id@ && (outs[j].msg
                    matches GameMessage::PlayerDisconnected(nm) && nm@ == sess.player_name@)
            &&& if rem.len() == 0 {
                s1.games@ == s0.games@.remove(i)
            } else {
                let g2 = s1.games@[i];
                &&& s1.games@.len() == s0.games@.len()
                &&& forall|j: int| 0 <= j < s0.games@.len() && j != i ==> s1.games@[j] == s0.games@[j]
                &&& g2.id == g.id
                &&& g2.players@ == rem
                &&& board_empty(g2.board@)
                &&& g2.board@.len() == 9
                &&& g2.current_turn == 0
                &&& g2.status == (if rem.len() == 2 {
                    GameStatus::InProgress
                } else {
                    GameStatus::WaitingForPlayers
                })
            }
        },
    }
}

/// The one reply to a status request: the rendered state of the
/// session's match, or a not-found error.
pub open spec fn status_reply(s0: GameServer, sess: GameSession, outs: Seq<Outbound>) -> bool {
    &&& outs.len() == 1
    &&& outs[0].to@ == sess.player_id@
    &&& match game_index(s0.games@, sess.game_id@) {
        Some(i) => outs[0].msg matches GameMessage::GameStatus(t) && t@ == state_text(
            s0.games@[i],
        ),
        None => outs[0].msg == GameMessage::Error(ErrorKind::MatchNotFound),
    }
}

impl GameSession {
    /// A session for the given player, bound to the given match.
    pub fn new(player_id: String, game_id: String, player_name: String) -> (r: GameSession)
        ensures
            r.player_id@ == player_id@,
            r.game_id@ == game_id@,
            r.player_name@ == player_name@,
    {
        GameSession { player_id, game_id, player_name }
    }

    /// Applies a move action against the session's match.
    pub fn handle_move(&self, server: &mut GameServer, position: usize) -> (r: ActionResult)
        requires
            old(server).inv(),
        ensures
            final(server).inv(),
            r.next == SessionState::Continue,
            move_effect(*old(server), *final(server), *self, position as int, r.outbound@),
    {
        let mut outs: Vec<Outbound> = Vec::new();
        match server.find_index(self.game_id.as_str()) {
            None => ActionResult { next: SessionState::Continue, outbound: outs },
            Some(i) => {
                match server.games[i].status {
                    GameStatus::WaitingForPlayers => {
                        outs.push(
                            Outbound::new(self.player_id.clone(), GameMessage::WaitingForPlayers),
                        );
                        ActionResult { next: SessionState::Continue, outbound: outs }
                    },
                    GameStatus::Finished => {
                        let n = server.games[i].players.len();
                        let mut j: usize = 0;
                        while j < n
                            invariant
                                j <= n,
                                i < server.games@.len(),
                                n == server.games@[i as int].players@.len(),
                                server.games == old(server).games,
                                outs@.len() == j,
                                forall|k: int|
                                    0 <= k < j ==> (#[trigger] outs@[k]).to@
                                        == server.games@[i as int].players@[k].id@ && outs@[k].msg
                                        == GameMessage::GameOver,
                            decreases n - j,
                        {
                            outs.push(
                                Outbound::new(
                                    server.games[i].players[j].get_id(),
                                    GameMessage::GameOver,
                                ),
                            );
                            j += 1;
                        }
                        ActionResult { next: SessionState::Continue, outbound: outs }
                    },
                    GameStatus::InProgress => {
                        let ghost g0 = server.games@[i as int];
                        let mut g = server.games.remove(i);
                        let res = g.make_move(self.player_id.as_str(), position);
                        match res {
                            Ok(text) => {
                                outs.push(
                                    Outbound::new(
                                        g.players[0].get_id(),
                                        GameMessage::State(text.clone()),
                                    ),
                                );
                                outs.push(
                                    Outbound::new(g.players[1].get_id(), GameMessage::State(text)),
                                );
                                match g.status {
                                    GameStatus::Finished => {
                                        outs.push(
                                            Outbound::new(
                                                g.players[0].get_id(),
                                                GameMessage::GameOver,
                                            ),
                                        );
                                        outs.push(
                                            Outbound::new(
                                                g.players[1].get_id(),
                                                GameMessage::GameOver,
                                            ),
                                        );
                                    },
                                    _ => {},
                                }
                            },
                            Err(e) => {
                                outs.push(
                                    Outbound::new(self.player_id.clone(), GameMessage::Error(e)),
                                );
                            },
                        }
                        let ghost gsnap = g;
                        server.games.insert(i, g);
                        proof {
                            if gsnap == g0 {
                                assert(server.games@ =~= old(server).games@);
                            } else {
                                assert(server.games@ =~= old(server).games@.update(i as int, gsnap));
                            }
                        }
                        ActionResult { next: SessionState::Continue, outbound: outs }
                    },
                }
            },
        }
    }

    /// Applies a restart action against the session's match.
    pub fn handle_restart(&self, server: &mut GameServer) -> (r: ActionResult)
        requires
            old(server).inv(),
        ensures
            final(server).inv(),
            r.next == SessionState::Continue,
            restart_effect(*old(server), *final(server), *self, r.outbound@),
    {
        let mut outs: Vec<Outbound> = Vec::new();
        match server.find_index(self.game_id.as_str()) {
            None => ActionResult { next: SessionState::Continue, outbound: outs },
            Some(i) => {
                let finished = match server.games[i].status {
                    GameStatus::Finished => true,
                    _ => false,
                };
                if finished {
                    let mut g = server.games.remove(i);
                    let n = g.players.len();
                    let mut j: usize = 0;
                    while j < n
                        invariant
                            j <= n,
                            n == g.players@.len(),
                            outs@.len() == j,
                            forall|k: int|
                                0 <= k < j ==> (#[trigger] outs@[k]).to@ == g.players@[k].id@
                                    && outs@[k].msg == GameMessage::GameRestarted,
                        decreases n - j,
                    {
                        outs.push(Outbound::new(g.players[j].get_id(), GameMessage::GameRestarted));
                        j += 1;
                    }
                    g.reset();
                    let text = g.get_game_state();
                    let mut j2: usize = 0;
                    while j2 < n
                        invariant
                            j2 <= n,
                            n == g.players@.len(),
                            text@ == state_text(g),
                            outs@.len() == n + j2,
                            forall|k: int|
                                0 <= k < n ==> (#[trigger] outs@[k]).to@ == g.players@[k].id@
                                    && outs@[k].msg == GameMessage::GameRestarted,
                            forall|k: int|
                                0 <= k < j2 ==> (#[trigger] outs@[n + k]).to@ == g.players@[k].id@
                                    && (outs@[n + k].msg matches GameMessage::State(t) && t@
                                    == state_text(g)),
                        decreases n - j2,
                    {
                        outs.push(
                            Outbound::new(g.players[j2].get_id(), GameMessage::State(text.clone())),
                        );
                        j2 += 1;
                    }
                    let ghost gsnap = g;
                    server.games.insert(i, g);
                    proof {
                        assert(server.games@ =~= old(server).games@.update(i as int, gsnap));
                    }
                    ActionResult { next: SessionState::Continue, outbound: outs }
                } else {
                    outs.push(Outbound::new(self.player_id.clone(), GameMessage::CantRestart));
                    ActionResult { next: SessionState::Continue, outbound: outs }
                }
            },
        }
    }

    /// Removes this session's player from its match and cleans up, as
    /// on an explicit exit, a dropped connection or an expired turn.
    pub fn handle_disconnect(&self, server: &mut GameServer) -> (r: ActionResult)
        requires
            old(server).inv(),
        ensures
            final(server).inv(),
            r.next == SessionState::Exit,
            disconnect_effect(*old(server), *final(server), *self, r.outbound@),
    {
        let mut outs: Vec<Outbound> = Vec::new();
        match server.find_index(self.game_id.as_str()) {
            None => ActionResult { next: SessionState::Exit, outbound: outs },
            Some(i) => {
                let mut g = server.games.remove(i);
                g.remove_player(self.player_id.as_str());
                let n = g.players.len();
                let mut j: usize = 0;
                while j < n
                    invariant
                        j <= n,
                        n == g.players@.len(),
                        outs@.len() == j,
                        forall|k: int|
                            0 <= k < j ==> (#[trigger] outs@[k]).to@ == g.players@[k].id@ && (
                            outs@[k].msg matches GameMessage::PlayerDisconnected(nm) && nm@
                                == self.player_name@),
                    decreases n - j,
                {
                    outs.push(
                        Outbound::new(
                            g.players[j].get_id(),
                            GameMessage::PlayerDisconnected(self.player_name.clone()),
                        ),
                    );
                    j += 1;
                }
                g.reset();
                if g.players.len() == 0 {
                    ActionResult { next: SessionState::Exit, outbound: outs }
                } else {
                    let ghost gsnap = g;
                    server.games.insert(i, g);
                    proof {
                        assert(server.games@ =~= old(server).games@.update(i as int, gsnap));
                    }
                    ActionResult { next: SessionState::Exit, outbound: outs }
                }
            },
        }
    }

    /// Builds the reply to a status request.
    pub fn send_game_status(&self, server: &GameServer) -> (r: ActionResult)
        requires
            server.inv(),
        ensures
            r.next == SessionState::Continue,
            status_reply(*server, *self, r.outbound@),
    {
        let mut outs: Vec<Outbound> = Vec::new();
        match server.get_game(&self.game_id) {
            Some(game) => {
                let text = game.get_game_state();
                outs.push(Outbound::new(self.player_id.clone(), GameMessage::GameStatus(text)));
            },
            None => {
                outs.push(
                    Outbound::new(
                        self.player_id.clone(),
                        GameMessage::Error(ErrorKind::MatchNotFound),
                    ),
                );
            },
        }
        ActionResult { next: SessionState::Continue, outbound: outs }
    }

    /// Dispatches one classified action: moves, restarts and exits go
    /// against the match; help, status and invalid input only answer
    /// the caller. Only an exit ends the session.
    pub fn handle_action(&self, server: &mut GameServer, action: GameAction) -> (r: ActionResult)
        requires
            old(server).inv(),
        ensures
            final(server).inv(),
            action matches GameAction::Move(p) ==> r.next == SessionState::Continue && move_effect(
                *old(server),
                *final(server),
                *self,
                p as int,
                r.outbound@,
            ),
            action == GameAction::Restart ==> r.next == SessionState::Continue && restart_effect(
                *old(server),
                *final(server),
                *self,
                r.outbound@,
            ),
            action == GameAction::Exit ==> r.next == SessionState::Exit && disconnect_effect(
                *old(server),
                *final(server),
                *self,
                r.outbound@,
            ),
            action == GameAction::Help ==> {
                &&& *final(server) == *old(server)
                &&& r.next == SessionState::Continue
                &&& r.outbound@.len() == 1
                &&& r.outbound@[0].to@ == self.player_id@
                &&& r.outbound@[0].msg == GameMessage::Help
            },
            action == GameAction::GetStatus ==> *final(server) == *old(server) && r.next
                == SessionState::Continue && status_reply(*old(server), *self, r.outbound@),
            action == GameAction::Invalid ==> {
                &&& *final(server) == *old(server)
                &&& r.next == SessionState::Continue
                &&& r.outbound@.len() == 1
                &&& r.outbound@[0].to@ == self.player_id@
                &&& r.outbound@[0].msg == GameMessage::InvalidInput
            },
    {
        match action {
            GameAction::Move(position) => self.handle_move(server, position),
            GameAction::Restart => self.handle_restart(server),
            GameAction::Exit => self.handle_disconnect(server),
            GameAction::Help => {
                let mut outs: Vec<Outbound> = Vec::new();
                outs.push(Outbound::new(self.player_id.clone(), GameMessage::Help));
                ActionResult { next: SessionState::Continue, outbound: outs }
            },
            GameAction::GetStatus => self.send_game_status(server),
            GameAction::Invalid => {
                let mut outs: Vec<Outbound> = Vec::new();
                outs.push(Outbound::new(self.player_id.clone(), GameMessage::InvalidInput));
                ActionResult { next: SessionState::Continue, outbound: outs }
            },
        }
    }

    /// Whether the session's match is currently in progress.
    pub fn is_game_in_progress(&self, server: &GameServer) -> (r: bool)
        ensures
            r == (game_index(server.games@, self.game_id@) matches Some(i) && server.games@[i].status
                == GameStatus::InProgress),
    {
        match server.get_game(&self.game_id) {
            Some(game) => match game.get_status() {
                GameStatus::InProgress => true,
                _ => false,
            },
            None => false,
        }
    }

    /// The identifier of the player who may move next in the session's
    /// match, while it is in progress.
    pub fn get_current_turn_player(&self, server: &GameServer) -> (r: Option<String>)
        requires
            server.inv(),
        ensures
            match game_index(server.games@, self.game_id@) {
                Some(i) => {
                    let g = server.games@[i];
                    if g.status == GameStatus::InProgress && g.current_turn < g.players@.len() {
                        r matches Some(id) && id@ == g.players@[g.current_turn as int].id@
                    } else {
                        r is None
                    }
                },
                None => r is None,
            },
    {
        match server.get_game(&self.game_id) {
            Some(game) => game.get_current_turn_player(),
            None => None,
        }
    }

    /// The wait policy for the next read: true exactly when the match
    /// is in progress and the turn is this session's, so that the read
    /// races the long inactivity deadline whose expiry disconnects;
    /// otherwise the application polls on a short idle deadline that
    /// only re-evaluates this policy.
    pub fn awaits_own_turn(&self, server: &GameServer) -> (r: bool)
        requires
            server.inv(),
        ensures
            r == (game_index(server.games@, self.game_id@) matches Some(i) && {
                let g = server.games@[i];
                &&& g.status == GameStatus::InProgress
                &&& g.current_turn < g.players@.len()
                &&& g.players@[g.current_turn as int].id@ == self.player_id@
            }),
    {
        match self.get_current_turn_player(server) {
            Some(id) => str_eq(id.as_str(), self.player_id.as_str()),
            None => false,
        }
    }

    /// What an expired turn deadline does: the idle player is told why
    /// the server lets go, then leaves exactly as on an explicit exit.
    pub fn handle_timeout(&self, server: &mut GameServer) -> (r: ActionResult)
        requires
            old(server).inv(),
        ensures
            final(server).inv(),
            r.next == SessionState::Exit,
            r.outbound@.len() >= 1,
            r.outbound@[0].to@ == self.player_id@,
            r.outbound@[0].msg == GameMessage::InactiveDisconnect,
            disconnect_effect(*old(server), *final(server), *self, r.outbound@.skip(1)),
    {
        let mut outs: Vec<Outbound> = Vec::new();
        outs.push(Outbound::new(self.player_id.clone(), GameMessage::InactiveDisconnect));
        let mut rest = self.handle_disconnect(server);
        let ghost restsnap = rest.outbound@;
        outs.append(&mut rest.outbound);
        proof {
            assert(outs@.skip(1) =~= restsnap);
        }
        ActionResult { next: SessionState::Exit, outbound: outs }
    }
}

/// How a session enters a match at start: created fresh, joined by
/// FIFO matchmaking, or refused.
#[derive(Debug)]
pub enum SetupOutcome {
    Created { game_id: String, reply: GameMessage },
    Joined { game_id: String, reply: GameMessage, outbound: Vec<Outbound> },
    Refused { reply: GameMessage },
}

/// Acts on the mode reply: `"1"` creates a match around the player
/// and reports its identifier; `"2"` joins the first open match, with
/// the join broadcasts to deliver, or is refused when none is open;
/// anything else is refused as an invalid choice. A refused setup ends
/// the session.
pub fn handle_game_setup(server: &mut GameServer, player: Player, choice: &str) -> (r: SetupOutcome)
    requires
        old(server).inv(),
    ensures
        final(server).inv(),
        spec_parse_mode(choice@) == ModeChoice::Create ==> {
            &&& final(server).games@.len() == old(server).games@.len() + 1
            &&& final(server).games@.take(old(server).games@.len() as int) == old(server).games@
            &&& ({
                let g = final(server).games@.last();
                &&& g.players@.len() == 1
                &&& g.players@[0] == player
                &&& g.status == GameStatus::WaitingForPlayers
                &&& board_empty(g.board@)
                &&& r matches SetupOutcome::Created { game_id, reply } && game_id@ == g.id@ && (
                reply matches GameMessage::GameCreated(gid) && gid@ == g.id@)
            })
        },
        spec_parse_mode(choice@) == ModeChoice::Join ==> match first_open(old(server).games@) {
            Some(i) => {
                &&& final(server).games@.len() == old(server).games@.len()
                &&& forall|j: int|
                    0 <= j < old(server).games@.len() && j != i ==> final(server).games@[j] == old(
                        server,
                    ).games@[j]
                &&& joined_game(old(server).games@[i], final(server).games@[i], player)
                &&& r matches SetupOutcome::Joined { game_id, reply, outbound } && game_id@ == old(
                    server,
                ).games@[i].id@ && (reply matches GameMessage::GameJoined(gid) && gid@ == old(
                    server,
                ).games@[i].id@) && join_outbound_ok(
                    final(server).games@[i],
                    player.name@,
                    outbound@,
                )
            },
            None => {
                &&& *final(server) == *old(server)
                &&& r matches SetupOutcome::Refused { reply } && reply == GameMessage::Error(
                    ErrorKind::NoOpenMatch,
                )
            },
        },
        spec_parse_mode(choice@) == ModeChoice::Invalid ==> {
            &&& *final(server) == *old(server)
            &&& r matches SetupOutcome::Refused { reply } && reply == GameMessage::InvalidChoice
        },
{
    match parse_mode_choice(choice) {
        ModeChoice::Create => {
            let game_id = server.create_game(player);
            let reply = GameMessage::GameCreated(game_id.clone());
            SetupOutcome::Created { game_id, reply }
        },
        ModeChoice::Join => {
            let (res, outbound) = server.join_game(player);
            match res {
                Ok(game_id) => {
                    let reply = GameMessage::GameJoined(game_id.clone());
                    SetupOutcome::Joined { game_id, reply, outbound }
                },
                Err(e) => SetupOutcome::Refused { reply: GameMessage::Error(e) },
            }
        },
        ModeChoice::Invalid => SetupOutcome::Refused { reply: GameMessage::InvalidChoice },
    }
}

} // verus!
