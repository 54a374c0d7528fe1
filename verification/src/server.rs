//! The match registry: every live match, keyed by identifier. It owns
//! creation, FIFO matchmaking and removal. Each public operation is one
//! atomic step; the surrounding application serializes calls, so what
//! is proved of a call holds of every interleaving of sessions.

use vstd::prelude::*;
use vstd::string::StrSliceExecFns;

use crate::game::board_empty;
use crate::game::board_full;
use crate::game::lemma_empty_board_no_winner;
use crate::game::state_text;
use crate::game::Game;
use crate::game::GameStatus;
use crate::messages::ErrorKind;
use crate::messages::GameMessage;
use crate::messages::Outbound;
use crate::player::Player;
use crate::player::PlayerSymbol;

verus! {

/// The index of the first match at or after position `k` whose
/// identifier is `id`, if any.
pub open spec fn game_index_from(games: Seq<Game>, id: Seq<char>, k: int) -> Option<int>
    decreases games.len() - k,
{
    if k < 0 || k >= games.len() {
        None
    } else if games[k].id@ == id {
        Some(k)
    } else {
        game_index_from(games, id, k + 1)
    }
}

/// The index of the match with identifier `id`: lookups resolve to the
/// first match carrying the identifier.
pub open spec fn game_index(games: Seq<Game>, id: Seq<char>) -> Option<int> {
    game_index_from(games, id, 0)
}

/// A match that can take a joiner: waiting, with room for one more.
pub open spec fn open_game(g: Game) -> bool {
    g.status == GameStatus::WaitingForPlayers && g.players@.len() < 2
}

/// The index of the first open match at or after position `k`, if any.
pub open spec fn first_open_from(games: Seq<Game>, k: int) -> Option<int>
    decreases games.len() - k,
{
    if k < 0 || k >= games.len() {
        None
    } else if open_game(games[k]) {
        Some(k)
    } else {
        first_open_from(games, k + 1)
    }
}

/// The index of the first open match, the one FIFO matchmaking fills.
pub open spec fn first_open(games: Seq<Game>) -> Option<int> {
    first_open_from(games, 0)
}

/// The mark a joiner receives: the complement of the mark the present
/// player holds, so that the match always holds one of each; the
/// secondary mark when the match is empty.
pub open spec fn joiner_symbol(g: Game) -> PlayerSymbol {
    if g.players@.len() > 0 {
        if g.players@[0].symbol == PlayerSymbol::O {
            PlayerSymbol::X
        } else {
            PlayerSymbol::O
        }
    } else {
        PlayerSymbol::O
    }
}

/// How a successful join changes the one match it targets: the joiner
/// is appended with the complementary mark, everything else stays, and
/// the match goes in progress exactly when it now has both players.
pub open spec fn joined_game(g: Game, g2: Game, player: Player) -> bool {
    &&& g2.id == g.id
    &&& g2.board == g.board
    &&& g2.current_turn == g.current_turn
    &&& g2.players@.len() == g.players@.len() + 1
    &&& g2.players@.take(g.players@.len() as int) == g.players@
    &&& g2.players@.last().id@ == player.id@
    &&& g2.players@.last().name@ == player.name@
    &&& g2.players@.last().symbol == joiner_symbol(g)
    &&& g2.status == (if g2.players@.len() == 2 {
        GameStatus::InProgress
    } else {
        GameStatus::WaitingForPlayers
    })
}

/// The notices a successful join sends: every player of the match,
/// joiner included, learns who joined; and when the match thereby
/// fills, both players receive the opening board.
pub open spec fn join_outbound_ok(g2: Game, pname: Seq<char>, outs: Seq<Outbound>) -> bool {
    if g2.players@.len() == 2 {
        &&& outs.len() == 4
        &&& outs[0].to@ == g2.players@[0].id@
        &&& outs[0].msg matches GameMessage::PlayerJoined(nm) && nm@ == pname
        &&& outs[1].to@ == g2.players@[1].id@
        &&& outs[1].msg matches GameMessage::PlayerJoined(nm) && nm@ == pname
        &&& outs[2].to@ == g2.players@[0].id@
        &&& outs[2].msg matches GameMessage::State(t) && t@ == state_text(g2)
        &&& outs[3].to@ == g2.players@[1].id@
        &&& outs[3].msg matches GameMessage::State(t) && t@ == state_text(g2)
    } else {
        &&& outs.len() == 1
        &&& g2.players@.len() == 1
        &&& outs[0].to@ == g2.players@[0].id@
        &&& outs[0].msg matches GameMessage::PlayerJoined(nm) && nm@ == pname
    }
}

/// Everything FIFO matchmaking promises of one call: with no open
/// match the registry is untouched and the join refused; otherwise the
/// first open match takes the joiner as `joined_game` says, every
/// other match is untouched, and the join broadcasts go out.
pub open spec fn join_queue_rel(
    s0: GameServer,
    s1: GameServer,
    player: Player,
    res: Result<String, ErrorKind>,
    outs: Seq<Outbound>,
) -> bool {
    match first_open(s0.games@) {
        None => {
            &&& res == Err::<String, ErrorKind>(ErrorKind::NoOpenMatch)
            &&& s1 == s0
            &&& outs.len() == 0
        },
        Some(i) => {
            &&& res matches Ok(id) && id@ == s0.games@[i].id@
            &&& s1.games@.len() == s0.games@.len()
            &&& forall|j: int| 0 <= j < s0.games@.len() && j != i ==> s1.games@[j] == s0.games@[j]
            &&& joined_game(s0.games@[i], s1.games@[i], player)
            &&& join_outbound_ok(s1.games@[i], player.name@, outs)
        },
    }
}

/// The registry of live matches.
#[derive(Debug)]
pub struct GameServer {
    pub games: Vec<Game>,
}

impl GameServer {
    /// Every match in the registry satisfies its own invariant.
    pub open spec fn inv(self) -> bool {
        forall|i: int| 0 <= i < self.games@.len() ==> (#[trigger] self.games@[i]).inv()
    }

    /// An empty registry.
    pub fn new() -> (r: GameServer)
        ensures
            r.inv(),
            r.games@.len() == 0,
    {
        GameServer { games: Vec::new() }
    }

    /// The position of the match with the given identifier, if present.
    pub(crate) fn find_index(&self, id: &str) -> (r: Option<usize>)
        ensures
            r matches Some(i) ==> i < self.games@.len() && game_index(self.games@, id@) == Some(
                i as int,
            ),
            r is None ==> game_index(self.games@, id@) is None,
    {
        let n = self.games.len();
        let mut i: usize = 0;
        while i < n
            invariant
                i <= n,
                n == self.games@.len(),
                game_index(self.games@, id@) == game_index_from(self.games@, id@, i as int),
            decreases n - i,
        {
            if crate::text::str_eq(self.games[i].id.as_str(), id) {
                return Some(i);
            }
            i += 1;
        }
        None
    }

    /// A shared borrow of the match with the given identifier.
    pub fn get_game(&self, id: &String) -> (r: Option<&Game>)
        ensures
            match game_index(self.games@, id@) {
                Some(i) => 0 <= i < self.games@.len() && (r matches Some(g) && *g
                    == self.games@[i]),
                None => r is None,
            },
    {
        match self.find_index(id.as_str()) {
            Some(i) => Some(&self.games[i]),
            None => None,
        }
    }

    /// A mutable borrow of the match with the given identifier. The
    /// registry afterwards holds whatever the caller left behind the
    /// borrow; every other match is untouched.
    pub fn get_mut_game(&mut self, id: &String) -> (r: Option<&mut Game>)
        ensures
            match game_index(old(self).games@, id@) {
                Some(i) => r matches Some(g) && *g == old(self).games@[i] && final(self).games@
                    == old(self).games@.update(i, *final(g)),
                None => r is None && *final(self) == *old(self),
            },
    {
        match self.find_index(id.as_str()) {
            Some(i) => Some(&mut self.games[i]),
            None => None,
        }
    }

    /// Creates a match holding only `player` under a fresh identifier,
    /// registers it and hands the identifier back. Always succeeds.
    pub fn create_game(&mut self, player: Player) -> (r: String)
        requires
            old(self).inv(),
        ensures
            final(self).inv(),
            final(self).games@.len() == old(self).games@.len() + 1,
            final(self).games@.take(old(self).games@.len() as int) == old(self).games@,
            ({
                let g = final(self).games@.last();
                &&& g.players@.len() == 1
                &&& g.players@[0] == player
                &&& g.status == GameStatus::WaitingForPlayers
                &&& board_empty(g.board@)
                &&& g.current_turn == 0
                &&& r@ == g.id@
            }),
    {
        let game = Game::new(player);
        let id = game.get_id();
        self.games.push(game);
        proof {
            assert(final(self).games@.take(old(self).games@.len() as int) =~= old(self).games@);
        }
        id
    }

    /// Joins `player` into the open match at position `i`: the joiner
    /// gets the complementary mark, everyone in the match learns who
    /// joined, and a match thereby filled goes in progress with the
    /// opening board broadcast to both players, all in one step.
    fn join_at(&mut self, i: usize, player: Player) -> (r: (String, Vec<Outbound>))
        requires
            old(self).inv(),
            i < old(self).games@.len(),
            open_game(old(self).games@[i as int]),
        ensures
            final(self).inv(),
            final(self).games@.len() == old(self).games@.len(),
            forall|j: int|
                0 <= j < old(self).games@.len() && j != i ==> final(self).games@[j] == old(
                    self,
                ).games@[j],
            joined_game(old(self).games@[i as int], final(self).games@[i as int], player),
            join_outbound_ok(final(self).games@[i as int], player.name@, r.1@),
            r.0@ == old(self).games@[i as int].id@,
    {
        let ghost g0 = self.games@[i as int];
        let mut joiner = player;
        let mut g = self.games.remove(i);
        let sym = if g.players.len() > 0 {
            if g.players[0].symbol == PlayerSymbol::O {
                PlayerSymbol::X
            } else {
                PlayerSymbol::O
            }
        } else {
            PlayerSymbol::O
        };
        joiner.set_symbol(sym);
        let joiner_name = joiner.get_name();
        g.add_player(joiner);
        let mut outs: Vec<Outbound> = Vec::new();
        outs.push(Outbound::new(g.players[0].get_id(), GameMessage::PlayerJoined(joiner_name.clone())));
        if g.players.len() == 2 {
            outs.push(
                Outbound::new(g.players[1].get_id(), GameMessage::PlayerJoined(joiner_name.clone())),
            );
            proof {
                lemma_empty_board_no_winner(g.board@);
                assert(!board_full(g.board@)) by {
                    assert(g.board@[0] is None);
                }
            }
            g.set_status(GameStatus::InProgress);
            let text = g.get_game_state();
            outs.push(Outbound::new(g.players[0].get_id(), GameMessage::State(text.clone())));
            outs.push(Outbound::new(g.players[1].get_id(), GameMessage::State(text)));
        }
        let id = g.get_id();
        proof {
            assert(g.players@.take(g0.players@.len() as int) =~= g0.players@);
            assert(joined_game(g0, g, player));
            assert(join_outbound_ok(g, player.name@, outs@));
        }
        let ghost gsnap = g;
        self.games.insert(i, g);
        proof {
            assert(self.games@ =~= old(self).games@.update(i as int, gsnap));
        }
        (id, outs)
    }

    /// FIFO matchmaking: the joiner enters the first open match, with
    /// the complementary mark; when the match thereby fills it goes in
    /// progress and both players are sent the opening board. With no
    /// open match, nothing changes and the join is refused.
    pub fn join_game(&mut self, player: Player) -> (r: (Result<String, ErrorKind>, Vec<Outbound>))
        requires
            old(self).inv(),
        ensures
            final(self).inv(),
            join_queue_rel(*old(self), *final(self), player, r.0, r.1@),
    {
        let n = self.games.len();
        let mut i: usize = 0;
        while i < n
            invariant
                i <= n,
                n == self.games@.len(),
                self.games == old(self).games,
                old(self).inv(),
                first_open(self.games@) == first_open_from(self.games@, i as int),
            decreases n - i,
        {
            let is_open = match self.games[i].status {
                GameStatus::WaitingForPlayers => self.games[i].players.len() < 2,
                _ => false,
            };
            if is_open {
                proof {
                    assert(first_open(old(self).games@) == Some(i as int));
                }
                let (id, outs) = self.join_at(i, player);
                return (Ok(id), outs);
            }
            i += 1;
        }
        (Err(ErrorKind::NoOpenMatch), Vec::new())
    }

    /// Join by identifier: the joiner enters the named match if it is
    /// accepting players. An absent identifier and a match no longer
    /// accepting are told apart in the error.
    pub fn join_game_by_id(&mut self, game_id: &str, player: Player) -> (r: (
        Result<String, ErrorKind>,
        Vec<Outbound>,
    ))
        requires
            old(self).inv(),
        ensures
            final(self).inv(),
            match game_index(old(self).games@, game_id@) {
                None => {
                    &&& r.0 == Err::<String, ErrorKind>(ErrorKind::MatchNotFound)
                    &&& *final(self) == *old(self)
                    &&& r.1@.len() == 0
                },
                Some(i) => if open_game(old(self).games@[i]) {
                    &&& r.0 matches Ok(id) && id@ == old(self).games@[i].id@
                    &&& final(self).games@.len() == old(self).games@.len()
                    &&& forall|j: int|
                        0 <= j < old(self).games@.len() && j != i ==> final(self).games@[j] == old(
                            self,
                        ).games@[j]
                    &&& joined_game(old(self).games@[i], final(self).games@[i], player)
                    &&& join_outbound_ok(final(self).games@[i], player.name@, r.1@)
                } else {
                    &&& r.0 == Err::<String, ErrorKind>(ErrorKind::NotAcceptingPlayers)
                    &&& *final(self) == *old(self)
                    &&& r.1@.len() == 0
                },
            },
    {
        match self.find_index(game_id) {
            None => (Err(ErrorKind::MatchNotFound), Vec::new()),
            Some(i) => {
                let is_open = match self.games[i].status {
                    GameStatus::WaitingForPlayers => self.games[i].players.len() < 2,
                    _ => false,
                };
                if is_open {
                    let (id, outs) = self.join_at(i, player);
                    (Ok(id), outs)
                } else {
                    (Err(ErrorKind::NotAcceptingPlayers), Vec::new())
                }
            },
        }
    }

    /// A read-only snapshot for diagnostics: each match's identifier,
    /// player names and status, in registry order. The background
    /// sweep logs these; nothing is mutated.
    pub fn active_games_summary(&self) -> (r: Vec<GameSummary>)
        ensures
            r@.len() == self.games@.len(),
            forall|i: int|
                0 <= i < r@.len() ==> {
                    let s = #[trigger] r@[i];
                    let g = self.games@[i];
                    &&& s.id@ == g.id@
                    &&& s.status == g.status
                    &&& s.player_names@.len() == g.players@.len()
                    &&& forall|j: int|
                        0 <= j < g.players@.len() ==> (#[trigger] s.player_names@[j])@
                            == g.players@[j].name@
                },
    {
        let n = self.games.len();
        let mut r: Vec<GameSummary> = Vec::new();
        let mut i: usize = 0;
        while i < n
            invariant
                i <= n,
                n == self.games@.len(),
                r@.len() == i,
                forall|k: int|
                    0 <= k < i ==> {
                        let s = #[trigger] r@[k];
                        let g = self.games@[k];
                        &&& s.id@ == g.id@
                        &&& s.status == g.status
                        &&& s.player_names@.len() == g.players@.len()
                        &&& forall|j: int|
                            0 <= j < g.players@.len() ==> (#[trigger] s.player_names@[j])@
                                == g.players@[j].name@
                    },
            decreases n - i,
        {
            let m = self.games[i].players.len();
            let mut names: Vec<String> = Vec::new();
            let mut j: usize = 0;
            while j < m
                invariant
                    j <= m,
                    i < self.games@.len(),
                    m == self.games@[i as int].players@.len(),
                    names@.len() == j,
                    forall|k: int|
                        0 <= k < j ==> (#[trigger] names@[k])@
                            == self.games@[i as int].players@[k].name@,
                decreases m - j,
            {
                names.push(self.games[i].players[j].get_name());
                j += 1;
            }
            r.push(
                GameSummary {
                    id: self.games[i].get_id(),
                    player_names: names,
                    status: self.games[i].get_status(),
                },
            );
            i += 1;
        }
        r
    }

    /// Removes the match with the given identifier; removing an absent
    /// identifier is a silent no-op.
    pub fn remove_game(&mut self, game_id: &str)
        requires
            old(self).inv(),
        ensures
            final(self).inv(),
            game_index(old(self).games@, game_id@) is None ==> *final(self) == *old(self),
            game_index(old(self).games@, game_id@) matches Some(i) ==> final(self).games@ == old(
                self,
            ).games@.remove(i),
    {
        match self.find_index(game_id) {
            Some(i) => {
                self.games.remove(i);
                proof {
                    assert forall|j: int|
                        0 <= j < self.games@.len() implies (#[trigger] self.games@[j]).inv() by {
                        if j < i {
                            assert(self.games@[j] == old(self).games@[j]);
                        } else {
                            assert(self.games@[j] == old(self).games@[j + 1]);
                        }
                    }
                }
            },
            None => {},
        }
    }
}

/// One match's diagnostic line: identifier, player names, status.
#[derive(Debug)]
pub struct GameSummary {
    pub id: String,
    pub player_names: Vec<String>,
    pub status: GameStatus,
}

/// No match in the registry ever holds more than two players: the cap
/// is part of every match's invariant, and every registry operation
/// preserves it, so a third join attempt can only be refused.
pub proof fn lemma_player_cap(s: GameServer)
    requires
        s.inv(),
    ensures
        forall|i: int| 0 <= i < s.games@.len() ==> (#[trigger] s.games@[i]).players@.len() <= 2,
{
}

/// A registry with no open match refuses every FIFO join from any
/// position of the scan.
proof fn lemma_no_open(games: Seq<Game>, k: int)
    requires
        0 <= k <= games.len(),
        forall|j: int| k <= j < games.len() ==> !open_game(#[trigger] games[j]),
    ensures
        first_open_from(games, k) is None,
    decreases games.len() - k,
{
    if k < games.len() {
        lemma_no_open(games, k + 1);
    }
}

/// Two sessions racing to fill the same sole open one-player match:
/// the registry serializes the two joins, so one runs first. That one
/// takes the match, which fills and goes in progress, with the opening
/// broadcast sent exactly once; the other join finds no open match,
/// is refused, and changes nothing — no third player, no second
/// in-progress transition.
pub proof fn lemma_exclusive_pairing(
    s0: GameServer,
    s1: GameServer,
    s2: GameServer,
    i: int,
    p1: Player,
    p2: Player,
    r1: Result<String, ErrorKind>,
    o1: Seq<Outbound>,
    r2: Result<String, ErrorKind>,
    o2: Seq<Outbound>,
)
    requires
        s0.inv(),
        0 <= i < s0.games@.len(),
        open_game(s0.games@[i]),
        s0.games@[i].players@.len() == 1,
        forall|j: int| 0 <= j < s0.games@.len() && j != i ==> !open_game(#[trigger] s0.games@[j]),
        first_open(s0.games@) == Some(i),
        join_queue_rel(s0, s1, p1, r1, o1),
        join_queue_rel(s1, s2, p2, r2, o2),
    ensures
        r1 matches Ok(id) && id@ == s0.games@[i].id@,
        s1.games@[i].players@.len() == 2,
        s1.games@[i].status == GameStatus::InProgress,
        o1.len() == 4,
        r2 == Err::<String, ErrorKind>(ErrorKind::NoOpenMatch),
        s2 == s1,
        o2.len() == 0,
{
    assert(joined_game(s0.games@[i], s1.games@[i], p1));
    assert(s1.games@[i].players@.len() == 2);
    assert forall|j: int| 0 <= j < s1.games@.len() implies !open_game(#[trigger] s1.games@[j]) by {
        if j != i {
            assert(s1.games@[j] == s0.games@[j]);
        }
    }
    lemma_no_open(s1.games@, 0);
    assert(first_open(s1.games@) is None);
}

} // verus!
