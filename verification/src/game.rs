//! The per-match state machine: a nine-cell board, up to two players,
//! a turn pointer and a lifecycle status. A move is validated against
//! turn ownership and the target cell, then written, and the status is
//! recomputed: a completed line or a full board finishes the match.

use vstd::prelude::*;
use vstd::string::StrSliceExecFns;
use vstd::string::StringExecFns;

use crate::messages::ErrorKind;
use crate::player::Player;
use crate::player::PlayerSymbol;
use crate::text::digit_char;
use crate::text::digit_str;
use crate::text::str_eq;
use crate::valid_turn;

verus! {

/// Lifecycle of a match: waiting until two players are present, then in
/// progress until a move wins or fills the board, then finished until a
/// reset.
#[derive(Debug, Clone, Copy, PartialEq, Eq, Structural)]
pub enum GameStatus {
    WaitingForPlayers,
    InProgress,
    Finished,
}

/// A cell of the board: empty, or holding one of the two marks.
pub type Cell = Option<PlayerSymbol>;

/// The eight straight lines of the grid, as index triples: the three
/// rows top to bottom, the three columns left to right, the primary
/// diagonal, the anti-diagonal. The order is the tie-break order used
/// when looking for a completed line.
pub open spec fn spec_lines() -> Seq<(int, int, int)> {
    seq![
        (0, 1, 2),
        (3, 4, 5),
        (6, 7, 8),
        (0, 3, 6),
        (1, 4, 7),
        (2, 5, 8),
        (0, 4, 8),
        (2, 4, 6),
    ]
}

/// The given line is completely occupied by the mark `s`.
pub open spec fn line_has(board: Seq<Cell>, line: (int, int, int), s: PlayerSymbol) -> bool {
    &&& board[line.0] == Some(s)
    &&& board[line.1] == Some(s)
    &&& board[line.2] == Some(s)
}

/// The mark `s` occupies some complete row, column or diagonal.
pub open spec fn wins(board: Seq<Cell>, s: PlayerSymbol) -> bool {
    exists|k: int| 0 <= k < 8 && line_has(board, spec_lines()[k], s)
}

/// The index of the first completed line at or after position `k` in
/// the tie-break order, if any.
pub open spec fn first_won_line_from(board: Seq<Cell>, k: int) -> Option<int>
    decreases 8 - k,
{
    if k < 0 || k >= 8 {
        None
    } else if line_has(board, spec_lines()[k], PlayerSymbol::X) || line_has(
        board,
        spec_lines()[k],
        PlayerSymbol::O,
    ) {
        Some(k)
    } else {
        first_won_line_from(board, k + 1)
    }
}

/// The winning mark the state machine reports: the mark on the first
/// completed line in tie-break order, if any line is complete.
pub open spec fn board_winner(board: Seq<Cell>) -> Option<PlayerSymbol> {
    match first_won_line_from(board, 0) {
        Some(k) => board[spec_lines()[k].0],
        None => None,
    }
}

/// Every cell of the board is occupied.
pub open spec fn board_full(board: Seq<Cell>) -> bool {
    forall|i: int| 0 <= i < board.len() ==> board[i] is Some
}

/// No cell of the board is occupied.
pub open spec fn board_empty(board: Seq<Cell>) -> bool {
    forall|i: int| 0 <= i < board.len() ==> board[i] is None
}

/// Every line index triple lies within the board.
proof fn lemma_lines_in_range()
    ensures
        forall|k: int|
            0 <= k < 8 ==> {
                let l = #[trigger] spec_lines()[k];
                0 <= l.0 < 9 && 0 <= l.1 < 9 && 0 <= l.2 < 9
            },
{
    assert(spec_lines()[0] == (0int, 1int, 2int));
    assert(spec_lines()[1] == (3int, 4int, 5int));
    assert(spec_lines()[2] == (6int, 7int, 8int));
    assert(spec_lines()[3] == (0int, 3int, 6int));
    assert(spec_lines()[4] == (1int, 4int, 7int));
    assert(spec_lines()[5] == (2int, 5int, 8int));
    assert(spec_lines()[6] == (0int, 4int, 8int));
    assert(spec_lines()[7] == (2int, 4int, 6int));
}

/// If the search from `k` finds no line, no line at or after `k` is
/// complete; if it finds one, that line is complete, is the first such,
/// and the reported mark occupies it.
proof fn lemma_first_won_line_from(board: Seq<Cell>, k: int)
    requires
        board.len() == 9,
        0 <= k <= 8,
    ensures
        first_won_line_from(board, k) is None ==> forall|j: int, s: PlayerSymbol|
            k <= j < 8 ==> !line_has(board, spec_lines()[j], s),
        first_won_line_from(board, k) matches Some(w) ==> {
            &&& k <= w < 8
            &&& board[spec_lines()[w].0] is Some
            &&& line_has(board, spec_lines()[w], board[spec_lines()[w].0]->0)
            &&& forall|j: int, s: PlayerSymbol|
                k <= j < w ==> !line_has(board, spec_lines()[j], s)
        },
    decreases 8 - k,
{
    if k < 8 {
        lemma_first_won_line_from(board, k + 1);
        let lk = spec_lines()[k];
        if line_has(board, lk, PlayerSymbol::X) {
            assert(board[lk.0] == Some(PlayerSymbol::X));
        } else if line_has(board, lk, PlayerSymbol::O) {
            assert(board[lk.0] == Some(PlayerSymbol::O));
        } else {
            assert(forall|s: PlayerSymbol| !line_has(board, spec_lines()[k], s)) by {
                assert(!line_has(board, spec_lines()[k], PlayerSymbol::X));
                assert(!line_has(board, spec_lines()[k], PlayerSymbol::O));
            }
        }
    }
}

/// The reported winner holds a complete line, and when no winner is
/// reported no mark holds one: the winner check is exact.
pub proof fn lemma_board_winner_exact(board: Seq<Cell>)
    requires
        board.len() == 9,
    ensures
        board_winner(board) matches Some(s) ==> wins(board, s),
        board_winner(board) is None ==> forall|s: PlayerSymbol| !wins(board, s),
{
    lemma_first_won_line_from(board, 0);
    if first_won_line_from(board, 0) is None {
        assert(forall|s: PlayerSymbol| !wins(board, s)) by {
            assert forall|s: PlayerSymbol| !wins(board, s) by {
                assert(forall|k: int| 0 <= k < 8 ==> !line_has(board, spec_lines()[k], s));
            }
        }
    }
}

/// A board on which no mark holds a complete line reports no winner.
pub proof fn lemma_no_wins_no_winner(board: Seq<Cell>)
    requires
        board.len() == 9,
        forall|s: PlayerSymbol| !wins(board, s),
    ensures
        board_winner(board) is None,
{
    lemma_first_won_line_from(board, 0);
    match first_won_line_from(board, 0) {
        Some(w) => {
            let s = board[spec_lines()[w].0]->0;
            assert(line_has(board, spec_lines()[w], s));
            assert(wins(board, s));
        },
        None => {},
    }
}

/// An empty board reports no winner.
pub proof fn lemma_empty_board_no_winner(board: Seq<Cell>)
    requires
        board.len() == 9,
        board_empty(board),
    ensures
        board_winner(board) is None,
{
    lemma_lines_in_range();
    assert forall|s: PlayerSymbol| !wins(board, s) by {
        if wins(board, s) {
            let k = choose|k: int| 0 <= k < 8 && line_has(board, spec_lines()[k], s);
            assert(board[spec_lines()[k].0] is None);
            assert(false);
        }
    }
    lemma_no_wins_no_winner(board);
}

/// On a board where at most one mark holds a line, the reported winner
/// is exactly the mark with a complete line: the winner check decides
/// "this mark occupies a complete row, column or diagonal" both ways.
/// Boards reached by alternating validated moves satisfy the premise:
/// a match finishes as soon as a line is completed, so the other mark
/// never completes one.
pub proof fn lemma_winner_iff(board: Seq<Cell>)
    requires
        board.len() == 9,
        !(wins(board, PlayerSymbol::X) && wins(board, PlayerSymbol::O)),
    ensures
        forall|s: PlayerSymbol| board_winner(board) == Some(s) <==> wins(board, s),
        board_winner(board) is None <==> (forall|s: PlayerSymbol| !wins(board, s)),
{
    lemma_board_winner_exact(board);
    if forall|s: PlayerSymbol| !wins(board, s) {
        lemma_no_wins_no_winner(board);
    }
    assert forall|s: PlayerSymbol| board_winner(board) == Some(s) <==> wins(board, s) by {
        if wins(board, s) {
            if board_winner(board) is None {
                assert(!wins(board, s));
            }
            let w = board_winner(board)->0;
            assert(wins(board, w));
            match (w, s) {
                (PlayerSymbol::X, PlayerSymbol::O) => assert(false),
                (PlayerSymbol::O, PlayerSymbol::X) => assert(false),
                _ => {},
            }
        }
    }
}

/// Writing the mark `s` into an empty cell neither gives nor takes a
/// complete line of the other mark.
pub proof fn lemma_move_keeps_other_lines(board: Seq<Cell>, i: int, s: PlayerSymbol, t: PlayerSymbol)
    requires
        board.len() == 9,
        0 <= i < 9,
        board[i] is None,
        t != s,
    ensures
        wins(board.update(i, Some(s)), t) == wins(board, t),
{
    lemma_lines_in_range();
    let after = board.update(i, Some(s));
    if wins(after, t) {
        let k = choose|k: int| 0 <= k < 8 && line_has(after, spec_lines()[k], t);
        let l = spec_lines()[k];
        assert(l.0 != i && l.1 != i && l.2 != i);
        assert(line_has(board, l, t));
        assert(wins(board, t));
    }
    if wins(board, t) {
        let k = choose|k: int| 0 <= k < 8 && line_has(board, spec_lines()[k], t);
        let l = spec_lines()[k];
        assert(l.0 != i && l.1 != i && l.2 != i);
        assert(line_has(after, l, t));
        assert(wins(after, t));
    }
}

/// After one move on a match in progress, at most the mover's mark
/// holds a complete line: a match in progress has no completed line
/// (it would already be finished), and writing one mark cannot
/// complete a line of the other. So under alternating validated moves
/// two marks never hold lines at once, and `lemma_winner_iff` applies
/// to every reachable board: the winner check finds a mark exactly
/// when that mark occupies a complete row, column or diagonal.
pub proof fn lemma_move_single_winner(g: Game, pos: int, sym: PlayerSymbol)
    requires
        g.inv(),
        g.status == GameStatus::InProgress,
        0 <= pos < 9,
        g.board@[pos] is None,
    ensures
        !(wins(g.board@.update(pos, Some(sym)), PlayerSymbol::X) && wins(
            g.board@.update(pos, Some(sym)),
            PlayerSymbol::O,
        )),
{
    let nb = g.board@.update(pos, Some(sym));
    lemma_board_winner_exact(g.board@);
    let other = sym.spec_opposite();
    lemma_move_keeps_other_lines(g.board@, pos, sym, other);
    assert(!wins(g.board@, other));
    assert(!wins(nb, other));
}

/// The index triple of line `k` in tie-break order.
fn line_cells(k: usize) -> (r: (usize, usize, usize))
    requires
        k < 8,
    ensures
        (r.0 as int, r.1 as int, r.2 as int) == spec_lines()[k as int],
        r.0 < 9 && r.1 < 9 && r.2 < 9,
{
    match k {
        0 => (0, 1, 2),
        1 => (3, 4, 5),
        2 => (6, 7, 8),
        3 => (0, 3, 6),
        4 => (1, 4, 7),
        5 => (2, 5, 8),
        6 => (0, 4, 8),
        _ => (2, 4, 6),
    }
}

/// A fresh board of nine empty cells.
fn empty_board() -> (r: Vec<Cell>)
    ensures
        r@.len() == 9,
        board_empty(r@),
{
    let mut b: Vec<Cell> = Vec::new();
    let mut i: usize = 0;
    while i < 9
        invariant
            i <= 9,
            b@.len() == i,
            board_empty(b@),
        decreases 9 - i,
    {
        b.push(None);
        i += 1;
    }
    b
}

/// Whether every cell of `board` is occupied.
fn board_is_full(board: &Vec<Cell>) -> (r: bool)
    ensures
        r == board_full(board@),
{
    let n = board.len();
    let mut i: usize = 0;
    while i < n
        invariant
            i <= n,
            n == board@.len(),
            forall|j: int| 0 <= j < i ==> board@[j] is Some,
        decreases n - i,
    {
        if board[i].is_none() {
            return false;
        }
        i += 1;
    }
    true
}

/// The index of the first listed player holding the mark `s` at or
/// after position `k`, if any.
pub open spec fn first_with_symbol_from(ps: Seq<Player>, s: PlayerSymbol, k: int) -> Option<int>
    decreases ps.len() - k,
{
    if k < 0 || k >= ps.len() {
        None
    } else if ps[k].symbol == s {
        Some(k)
    } else {
        first_with_symbol_from(ps, s, k + 1)
    }
}

/// The display name of the first listed player holding the mark `s`;
/// empty when no player holds it.
pub open spec fn name_of_mark(ps: Seq<Player>, s: PlayerSymbol) -> Seq<char> {
    match first_with_symbol_from(ps, s, 0) {
        Some(i) => ps[i].name@,
        None => Seq::empty(),
    }
}

/// Looks up the display name of the first player holding the mark `s`.
fn find_name_of_mark(players: &Vec<Player>, s: PlayerSymbol) -> (r: String)
    ensures
        r@ == name_of_mark(players@, s),
{
    let n = players.len();
    let mut i: usize = 0;
    while i < n
        invariant
            i <= n,
            n == players@.len(),
            first_with_symbol_from(players@, s, 0) == first_with_symbol_from(players@, s, i as int),
        decreases n - i,
    {
        if players[i].symbol == s {
            return players[i].name.clone();
        }
        i += 1;
    }
    String::new()
}

/// The board as three lines of text: a mark for an occupied cell, the
/// 1-based position number for an empty one, columns separated by `|`.
pub open spec fn cell_mark(c: Cell, pos1: int) -> char {
    match c {
        Some(PlayerSymbol::X) => 'X',
        Some(PlayerSymbol::O) => 'O',
        None => digit_char(pos1),
    }
}

/// The rendered nine-cell grid.
pub open spec fn grid_text(b: Seq<Cell>) -> Seq<char> {
    seq![
        cell_mark(b[0], 1),
        '|',
        cell_mark(b[1], 2),
        '|',
        cell_mark(b[2], 3),
        '\n',
        cell_mark(b[3], 4),
        '|',
        cell_mark(b[4], 5),
        '|',
        cell_mark(b[5], 6),
        '\n',
        cell_mark(b[6], 7),
        '|',
        cell_mark(b[7], 8),
        '|',
        cell_mark(b[8], 9),
        '\n',
    ]
}

/// The one-character string for one cell.
fn cell_str(c: Cell, pos1: usize) -> (r: &'static str)
    requires
        1 <= pos1 <= 9,
    ensures
        r@ =~= seq![cell_mark(c, pos1 as int)],
{
    proof {
        reveal_strlit("X");
        reveal_strlit("O");
    }
    match c {
        Some(PlayerSymbol::X) => "X",
        Some(PlayerSymbol::O) => "O",
        None => digit_str(pos1),
    }
}

/// Renders the grid.
fn grid_string(board: &Vec<Cell>) -> (r: String)
    requires
        board@.len() == 9,
    ensures
        r@ == grid_text(board@),
{
    proof {
        reveal_strlit("|");
        reveal_strlit("\n");
    }
    let mut s = String::new();
    s.append(cell_str(board[0], 1));
    s.append("|");
    s.append(cell_str(board[1], 2));
    s.append("|");
    s.append(cell_str(board[2], 3));
    s.append("\n");
    s.append(cell_str(board[3], 4));
    s.append("|");
    s.append(cell_str(board[4], 5));
    s.append("|");
    s.append(cell_str(board[5], 6));
    s.append("\n");
    s.append(cell_str(board[6], 7));
    s.append("|");
    s.append(cell_str(board[7], 8));
    s.append("|");
    s.append(cell_str(board[8], 9));
    s.append("\n");
    proof {
        assert(s@ =~= grid_text(board@));
    }
    s
}

/// A match. The player list order fixes the turn sequence: the player
/// at the current turn index may move next.
#[derive(Debug)]
pub struct Game {
    pub id: String,
    pub board: Vec<Cell>,
    pub players: Vec<Player>,
    pub current_turn: usize,
    pub status: GameStatus,
}

impl Game {
    /// Structural well-formedness: nine cells, at most two players, a
    /// binary turn pointer.
    pub open spec fn wf(self) -> bool {
        &&& self.board@.len() == 9
        &&& self.players@.len() <= 2
        &&& valid_turn(self.current_turn)
    }

    /// The state invariant every operation preserves: a match in
    /// progress has both players, no completed line and room to move
    /// (a winning or filling move finishes it at once), and a waiting
    /// match has a clear board.
    pub open spec fn inv(self) -> bool {
        &&& self.wf()
        &&& self.status == GameStatus::InProgress ==> {
            &&& self.players@.len() == 2
            &&& board_winner(self.board@) is None
            &&& !board_full(self.board@)
        }
        &&& self.status == GameStatus::WaitingForPlayers ==> board_empty(self.board@)
    }

    /// A match with the given identifier, holding only `player`, with
    /// a clear board, waiting for an opponent.
    pub fn with_id(id: String, player: Player) -> (r: Game)
        ensures
            r.inv(),
            r.id@ == id@,
            r.board@.len() == 9,
            board_empty(r.board@),
            r.players@.len() == 1,
            r.players@[0] == player,
            r.current_turn == 0,
            r.status == GameStatus::WaitingForPlayers,
    {
        let mut players: Vec<Player> = Vec::new();
        players.push(player);
        Game {
            id,
            board: empty_board(),
            players,
            current_turn: 0,
            status: GameStatus::WaitingForPlayers,
        }
    }

    /// A match under a freshly minted identifier, holding only
    /// `player`, waiting for an opponent.
    pub fn new(player: Player) -> (r: Game)
        ensures
            r.inv(),
            r.board@.len() == 9,
            board_empty(r.board@),
            r.players@.len() == 1,
            r.players@[0] == player,
            r.current_turn == 0,
            r.status == GameStatus::WaitingForPlayers,
    {
        let id = crate::utils::generate_id();
        Game::with_id(id, player)
    }

    pub fn get_id(&self) -> (r: String)
        ensures
            r@ == self.id@,
    {
        self.id.clone()
    }

    pub fn get_status(&self) -> (r: GameStatus)
        ensures
            r == self.status,
    {
        self.status
    }

    /// Sets the status directly. The preconditions admit exactly the
    /// transitions that keep the state invariant.
    pub fn set_status(&mut self, status: GameStatus)
        requires
            old(self).inv(),
            status == GameStatus::InProgress ==> old(self).players@.len() == 2 && board_winner(
                old(self).board@,
            ) is None && !board_full(old(self).board@),
            status == GameStatus::WaitingForPlayers ==> board_empty(old(self).board@),
        ensures
            final(self).inv(),
            final(self).status == status,
            final(self).id == old(self).id,
            final(self).board == old(self).board,
            final(self).players == old(self).players,
            final(self).current_turn == old(self).current_turn,
    {
        self.status = status;
    }

    /// A copy of the player list.
    pub fn get_players(&self) -> (r: Vec<Player>)
        ensures
            r@.len() == self.players@.len(),
            forall|i: int|
                0 <= i < r@.len() ==> {
                    &&& (#[trigger] r@[i]).id@ == self.players@[i].id@
                    &&& r@[i].name@ == self.players@[i].name@
                    &&& r@[i].symbol == self.players@[i].symbol
                },
    {
        let n = self.players.len();
        let mut r: Vec<Player> = Vec::new();
        let mut i: usize = 0;
        while i < n
            invariant
                i <= n,
                n == self.players@.len(),
                r@.len() == i,
                forall|j: int|
                    0 <= j < i ==> {
                        &&& (#[trigger] r@[j]).id@ == self.players@[j].id@
                        &&& r@[j].name@ == self.players@[j].name@
                        &&& r@[j].symbol == self.players@[j].symbol
                    },
            decreases n - i,
        {
            r.push(self.players[i].clone());
            i += 1;
        }
        r
    }

    /// Appends a player. The caller fixes the symbol beforehand; a
    /// match never holds more than two players.
    pub fn add_player(&mut self, player: Player)
        requires
            old(self).wf(),
            old(self).players@.len() < 2,
        ensures
            final(self).wf(),
            final(self).players@ == old(self).players@.push(player),
            final(self).id == old(self).id,
            final(self).board == old(self).board,
            final(self).current_turn == old(self).current_turn,
            final(self).status == old(self).status,
            old(self).inv() && old(self).status != GameStatus::InProgress ==> final(self).inv(),
    {
        self.players.push(player);
    }

    /// Clears the board and the turn pointer; the match goes back in
    /// progress when both players are still present, else it waits.
    /// Used both for a rematch and after a departure.
    pub fn reset(&mut self)
        requires
            old(self).wf(),
        ensures
            final(self).inv(),
            final(self).id == old(self).id,
            final(self).players == old(self).players,
            board_empty(final(self).board@),
            final(self).board@.len() == 9,
            final(self).current_turn == 0,
            final(self).status == (if old(self).players@.len() == 2 {
                GameStatus::InProgress
            } else {
                GameStatus::WaitingForPlayers
            }),
    {
        self.board = empty_board();
        self.current_turn = 0;
        if self.players.len() == 2 {
            self.status = GameStatus::InProgress;
        } else {
            self.status = GameStatus::WaitingForPlayers;
        }
        proof {
            lemma_empty_board_no_winner(self.board@);
        }
    }

    /// The winning mark on the board, if a row, column or diagonal is
    /// complete: the first such line in tie-break order decides.
    pub fn check_winner(&self) -> (r: Option<PlayerSymbol>)
        requires
            self.wf(),
        ensures
            r == board_winner(self.board@),
    {
        let mut k: usize = 0;
        while k < 8
            invariant
                k <= 8,
                self.wf(),
                first_won_line_from(self.board@, 0) == first_won_line_from(self.board@, k as int),
                forall|j: int, s: PlayerSymbol|
                    0 <= j < k ==> !line_has(self.board@, spec_lines()[j], s),
            decreases 8 - k,
        {
            let (a, b, c) = line_cells(k);
            match (self.board[a], self.board[b], self.board[c]) {
                (Some(x), Some(y), Some(z)) => {
                    if x == y && y == z {
                        proof {
                            assert(line_has(self.board@, spec_lines()[k as int], x));
                        }
                        return Some(x);
                    }
                },
                _ => {},
            }
            proof {
                assert forall|s: PlayerSymbol| !line_has(self.board@, spec_lines()[k as int], s) by {
                    let l = spec_lines()[k as int];
                    assert((l.0, l.1, l.2) == (a as int, b as int, c as int));
                }
            }
            k += 1;
        }
        None
    }

    /// Validates and applies one move by `player_id` at the 1-based
    /// `position`. The acting player must own the turn, the position
    /// must be in range and the cell empty; then the mark is written,
    /// the turn passes, the status is recomputed, and the rendered
    /// state is returned for broadcast. A rejected move changes
    /// nothing.
    pub fn make_move(&mut self, player_id: &str, position: usize) -> (r: Result<String, ErrorKind>)
        requires
            old(self).inv(),
            old(self).status == GameStatus::InProgress,
        ensures
            final(self).inv(),
            final(self).id == old(self).id,
            final(self).players == old(self).players,
            old(self).players@[old(self).current_turn as int].id@ != player_id@ ==> {
                &&& r == Err::<String, ErrorKind>(ErrorKind::NotYourTurn)
                &&& *final(self) == *old(self)
            },
            old(self).players@[old(self).current_turn as int].id@ == player_id@ && !(1 <= position
                <= 9 && old(self).board@[position - 1] is None) ==> {
                &&& r == Err::<String, ErrorKind>(ErrorKind::InvalidMove)
                &&& *final(self) == *old(self)
            },
            old(self).players@[old(self).current_turn as int].id@ == player_id@ && 1 <= position <= 9
                && old(self).board@[position - 1] is None ==> {
                let sym = old(self).players@[old(self).current_turn as int].symbol;
                let nb = old(self).board@.update(position - 1, Some(sym));
                &&& final(self).board@ == nb
                &&& final(self).current_turn == (old(self).current_turn + 1) % 2
                &&& final(self).status == (if board_winner(nb) is Some || board_full(nb) {
                    GameStatus::Finished
                } else {
                    GameStatus::InProgress
                })
                &&& r matches Ok(t) && t@ == state_text(*final(self))
            },
    {
        let turn = self.current_turn;
        if !str_eq(self.players[turn].id.as_str(), player_id) {
            return Err(ErrorKind::NotYourTurn);
        }
        if position < 1 || position > 9 || self.board[position - 1].is_some() {
            return Err(ErrorKind::InvalidMove);
        }
        let sym = self.players[turn].symbol;
        self.board[position - 1] = Some(sym);
        self.current_turn = crate::advance_turn(turn);
        let winner = self.check_winner();
        if winner.is_some() || board_is_full(&self.board) {
            self.status = GameStatus::Finished;
        }
        Ok(self.get_game_state())
    }

    /// The rendered state: the match identifier, the grid, and one
    /// status line naming the winner, announcing a draw, or saying
    /// whose turn it is. Everything a client needs to show the match
    /// is a function of the match state alone.
    pub fn get_game_state(&self) -> (r: String)
        requires
            self.wf(),
        ensures
            r@ == state_text(*self),
    {
        let mut s = String::from_str("Game ID: ");
        s.append(self.id.as_str());
        s.append("\n\n");
        let grid = grid_string(&self.board);
        s.append(grid.as_str());
        match self.check_winner() {
            Some(w) => {
                s.append("Winner: ");
                let name = find_name_of_mark(&self.players, w);
                s.append(name.as_str());
                s.append("!");
            },
            None => {
                if board_is_full(&self.board) {
                    s.append("Result: Draw!");
                } else if self.current_turn < self.players.len() {
                    s.append("It's ");
                    let name = self.players[self.current_turn].name.clone();
                    s.append(name.as_str());
                    s.append("'s turn! (Enter a number from 1 to 9)");
                } else {
                    s.append("Waiting for players to join...");
                }
            },
        }
        proof {
            assert(s@ =~= state_text(*self));
        }
        s
    }

    /// The identifier of the player who may move next, while the match
    /// is in progress and has a player at the turn index; `None`
    /// otherwise.
    pub fn get_current_turn_player(&self) -> (r: Option<String>)
        requires
            self.wf(),
        ensures
            self.status == GameStatus::InProgress && self.current_turn < self.players@.len() ==> (r
                matches Some(id) && id@ == self.players@[self.current_turn as int].id@),
            !(self.status == GameStatus::InProgress && self.current_turn < self.players@.len())
                ==> r is None,
    {
        if self.status == GameStatus::InProgress && self.current_turn < self.players.len() {
            Some(self.players[self.current_turn].get_id())
        } else {
            None
        }
    }

    /// Removes every player with the given identifier, keeping the
    /// order of the rest; a no-op when none matches.
    pub fn remove_player(&mut self, player_id: &str)
        requires
            old(self).wf(),
        ensures
            final(self).wf(),
            final(self).players@ == remove_by_id(old(self).players@, player_id@),
            final(self).players@.len() <= old(self).players@.len(),
            final(self).id == old(self).id,
            final(self).board == old(self).board,
            final(self).current_turn == old(self).current_turn,
            final(self).status == old(self).status,
    {
        proof {
            assert(self.players@.skip(0) =~= self.players@);
            assert(self.players@.take(0) + remove_by_id(self.players@.skip(0), player_id@)
                =~= remove_by_id(self.players@, player_id@));
        }
        let mut i: usize = 0;
        while i < self.players.len()
            invariant
                i <= self.players@.len(),
                self.players@.len() <= old(self).players@.len(),
                forall|j: int| 0 <= j < i ==> (#[trigger] self.players@[j]).id@ != player_id@,
                remove_by_id(old(self).players@, player_id@) == self.players@.take(i as int)
                    + remove_by_id(self.players@.skip(i as int), player_id@),
                self.id == old(self).id,
                self.board == old(self).board,
                self.current_turn == old(self).current_turn,
                self.status == old(self).status,
            decreases self.players@.len() - i,
        {
            proof {
                assert(self.players@.skip(i as int).drop_first() =~= self.players@.skip(i + 1));
                assert(self.players@.skip(i as int)[0] == self.players@[i as int]);
            }
            let ghost before = self.players@;
            if str_eq(self.players[i].id.as_str(), player_id) {
                self.players.remove(i);
                proof {
                    assert(self.players@ =~= before.take(i as int) + before.skip(i + 1));
                    assert(self.players@.take(i as int) =~= before.take(i as int));
                    assert(self.players@.skip(i as int) =~= before.skip(i + 1));
                }
            } else {
                i += 1;
                proof {
                    assert(self.players@.take(i as int) =~= self.players@.take(i - 1).push(
                        self.players@[i - 1],
                    ));
                    assert(self.players@.take(i as int) + remove_by_id(
                        self.players@.skip(i as int),
                        player_id@,
                    ) =~= self.players@.take(i - 1) + (seq![self.players@[i - 1]] + remove_by_id(
                        self.players@.skip(i as int),
                        player_id@,
                    )));
                }
            }
        }
        proof {
            assert(self.players@.skip(i as int) =~= Seq::<Player>::empty());
            assert(self.players@.take(i as int) =~= self.players@);
            assert(remove_by_id(old(self).players@, player_id@) =~= self.players@);
        }
    }
}

/// The player list without the players whose identifier is `pid`.
pub open spec fn remove_by_id(ps: Seq<Player>, pid: Seq<char>) -> Seq<Player>
    decreases ps.len(),
{
    if ps.len() == 0 {
        ps
    } else if ps[0].id@ == pid {
        remove_by_id(ps.drop_first(), pid)
    } else {
        seq![ps[0]] + remove_by_id(ps.drop_first(), pid)
    }
}

/// The status line under the grid: winner, draw, whose turn it is, or
/// an invitation to wait when the match has no player to move.
pub open spec fn status_line_text(g: Game) -> Seq<char> {
    match board_winner(g.board@) {
        Some(w) => "Winner: "@ + name_of_mark(g.players@, w) + "!"@,
        None => if board_full(g.board@) {
            "Result: Draw!"@
        } else if g.current_turn < g.players@.len() {
            "It's "@ + g.players@[g.current_turn as int].name@ + "'s turn! (Enter a number from 1 to 9)"@
        } else {
            "Waiting for players to join..."@
        },
    }
}

/// The full rendered state of a match.
pub open spec fn state_text(g: Game) -> Seq<char> {
    "Game ID: "@ + g.id@ + "\n\n"@ + grid_text(g.board@) + status_line_text(g)
}

} // verus!
