//! Tic-Tac-Toe rules: a 3x3 board, whose turn it is, who has won, and a
//! perfect-play computer opponent.

use crate::util::{
    eq_ignore_ascii_case,
    str_eq_ignore_ascii_case,
};
use vstd::prelude::*;

verus! {

/// The number of tiles on a board.
pub const NUM_TILES: u8 = 9;

/// A Tic-Tac-Toe team.
#[derive(Debug, Clone, Copy, PartialEq, Eq, Structural)]
pub enum Team {
    X,
    O,
}

impl Team {
    /// The other team.
    pub open spec fn spec_inverse(self) -> Team {
        match self {
            Team::X => Team::O,
            Team::O => Team::X,
        }
    }

    /// Get the other team.
    #[verifier::when_used_as_spec(spec_inverse)]
    pub fn inverse(self) -> (res: Team)
        ensures
            res == self.spec_inverse(),
    {
        match self {
            Team::X => Team::O,
            Team::O => Team::X,
        }
    }
}

/// The error when a text names no team.
#[derive(Debug, Clone, Copy, PartialEq, Eq, Structural)]
pub struct InvalidTeamError;

/// The team a text names: `X` or `O`, in either case.
pub open spec fn team_from_str_spec(s: Seq<char>) -> Result<Team, InvalidTeamError> {
    if eq_ignore_ascii_case(s, "x"@) {
        Ok(Team::X)
    } else if eq_ignore_ascii_case(s, "o"@) {
        Ok(Team::O)
    } else {
        Err(InvalidTeamError)
    }
}

impl Team {
    /// Read a team from `X` or `O`, in either case.
    pub fn from_str(s: &str) -> (res: Result<Team, InvalidTeamError>)
        ensures
            res == team_from_str_spec(s@),
    {
        if str_eq_ignore_ascii_case(s, "x") {
            Ok(Team::X)
        } else if str_eq_ignore_ascii_case(s, "o") {
            Ok(Team::O)
        } else {
            Err(InvalidTeamError)
        }
    }
}

/// A Tic-Tac-Toe board: nine tiles, numbered row by row from the top left.
#[derive(Debug, Clone, Copy, PartialEq, Eq)]
pub struct Board {
    pub tiles: [Option<Team>; 9],
}

impl View for Board {
    type V = Seq<Option<Team>>;

    open spec fn view(&self) -> Seq<Option<Team>> {
        self.tiles@
    }
}

/// `1` if the tile holds `team`, else `0`.
pub open spec fn holds(tile: Option<Team>, team: Team) -> int {
    if tile == Some(team) { 1 } else { 0 }
}

/// `1` if the tile is empty, else `0`.
pub open spec fn empty_at(tile: Option<Team>) -> int {
    if tile is None { 1 } else { 0 }
}

/// The number of tiles of `b` that hold `team`.
pub open spec fn count(b: Seq<Option<Team>>, team: Team) -> int {
    holds(b[0], team) + holds(b[1], team) + holds(b[2], team) + holds(b[3], team) + holds(
        b[4],
        team,
    ) + holds(b[5], team) + holds(b[6], team) + holds(b[7], team) + holds(b[8], team)
}

/// The number of empty tiles of `b`.
pub open spec fn empties(b: Seq<Option<Team>>) -> int {
    empty_at(b[0]) + empty_at(b[1]) + empty_at(b[2]) + empty_at(b[3]) + empty_at(b[4])
        + empty_at(b[5]) + empty_at(b[6]) + empty_at(b[7]) + empty_at(b[8])
}

/// A board reached by play from the empty board: X moves first and the teams
/// alternate.
pub open spec fn is_valid(b: Seq<Option<Team>>) -> bool {
    &&& b.len() == 9
    &&& (count(b, Team::X) == count(b, Team::O) || count(b, Team::X) == count(b, Team::O) + 1)
}

/// The team whose turn it is: X while it holds no more tiles than O, else O.
pub open spec fn turn(b: Seq<Option<Team>>) -> Team {
    if count(b, Team::X) <= count(b, Team::O) {
        Team::X
    } else {
        Team::O
    }
}

/// The three tiles of line `k`: the rows top to bottom, the columns left to
/// right, the diagonal from the top left and the diagonal from the top right.
pub open spec fn line(k: int) -> (int, int, int) {
    if k == 0 {
        (0, 1, 2)
    } else if k == 1 {
        (3, 4, 5)
    } else if k == 2 {
        (6, 7, 8)
    } else if k == 3 {
        (0, 3, 6)
    } else if k == 4 {
        (1, 4, 7)
    } else if k == 5 {
        (2, 5, 8)
    } else if k == 6 {
        (0, 4, 8)
    } else {
        (2, 4, 6)
    }
}

/// Line `k` of `b` holds three tiles of one team.
pub open spec fn line_wins(b: Seq<Option<Team>>, k: int) -> bool {
    let (p, q, r) = line(k);
    b[p] is Some && b[q] == b[p] && b[r] == b[p]
}

/// The first line, in the order of [`line`], that holds three tiles of one team.
pub open spec fn winning_line(b: Seq<Option<Team>>) -> Option<int> {
    if line_wins(b, 0) {
        Some(0)
    } else if line_wins(b, 1) {
        Some(1)
    } else if line_wins(b, 2) {
        Some(2)
    } else if line_wins(b, 3) {
        Some(3)
    } else if line_wins(b, 4) {
        Some(4)
    } else if line_wins(b, 5) {
        Some(5)
    } else if line_wins(b, 6) {
        Some(6)
    } else if line_wins(b, 7) {
        Some(7)
    } else {
        None
    }
}

/// The team that holds a whole line, if any (the first such line decides).
pub open spec fn winner(b: Seq<Option<Team>>) -> Option<Team> {
    match winning_line(b) {
        Some(k) => b[line(k).0],
        None => None,
    }
}

/// Every tile is taken and no team holds a line.
pub open spec fn is_draw(b: Seq<Option<Team>>) -> bool {
    empties(b) == 0 && winner(b) is None
}

/// The value of `b` for the team to move when both teams play perfectly:
/// `1` a win, `0` a draw, `-1` a loss.
pub open spec fn negamax(b: Seq<Option<Team>>) -> int
    decreases empties(b), 10int,
{
    if b.len() != 9 {
        0
    } else {
        match winner(b) {
            Some(w) => if w == turn(b) {
                1
            } else {
                -1
            },
            None => if empties(b) == 0 {
                0
            } else {
                best_below(b, 9)
            },
        }
    }
}

/// The board after the team to move takes tile `i`.
pub open spec fn child(b: Seq<Option<Team>>, i: int) -> Seq<Option<Team>> {
    b.update(i, Some(turn(b)))
}

/// The value for the team to move of its move on tile `i`.
pub open spec fn move_value(b: Seq<Option<Team>>, i: int) -> int
    decreases empties(b), 0int,
{
    if b.len() == 9 && 0 <= i < 9 && b[i] is None {
        -negamax(child(b, i))
    } else {
        -2
    }
}

/// The best value the team to move gets from a move on one of the tiles
/// `0..k`; `-2` if none of them is empty.
pub open spec fn best_below(b: Seq<Option<Team>>, k: int) -> int
    decreases empties(b), k,
{
    if k <= 0 || k > 9 {
        -2
    } else {
        let prev = best_below(b, k - 1);
        let v = move_value(b, k - 1);
        if v > prev {
            v
        } else {
            prev
        }
    }
}

/// The direction of a winning line.
#[derive(Debug, Clone, Copy, PartialEq, Eq, Structural)]
pub enum WinType {
    Horizontal,
    Vertical,
    Diagonal,
    AntiDiagonal,
}

/// The direction of line `k`.
pub open spec fn line_type(k: int) -> WinType {
    if k < 3 {
        WinType::Horizontal
    } else if k < 6 {
        WinType::Vertical
    } else if k == 6 {
        WinType::Diagonal
    } else {
        WinType::AntiDiagonal
    }
}

/// Which team won, and along which line.
#[derive(Debug, Clone, Copy, PartialEq, Eq, Structural)]
pub struct WinnerInfo {
    /// The winning team
    pub team: Team,
    /// The direction of the winning line
    pub win_type: WinType,
    /// The first tile of the line
    pub start: u8,
    /// The last tile of the line
    pub end: u8,
}

impl WinnerInfo {
    /// The first tile index of the winning line.
    pub fn start_tile_index(&self) -> (res: u8)
        ensures
            res == self.start,
    {
        self.start
    }

    /// The last tile index of the winning line.
    pub fn end_tile_index(&self) -> (res: u8)
        ensures
            res == self.end,
    {
        self.end
    }
}

/// The winner info that `b` gives, as a spec.
pub open spec fn winner_info(b: Seq<Option<Team>>) -> Option<WinnerInfo> {
    match winning_line(b) {
        Some(k) => Some(
            WinnerInfo {
                team: b[line(k).0]->0,
                win_type: line_type(k),
                start: line(k).0 as u8,
                end: line(k).2 as u8,
            },
        ),
        None => None,
    }
}

/// Tiles `p`, `q` and `r` of `b` all hold `t`.
pub open spec fn all_three(b: Seq<Option<Team>>, p: int, q: int, r: int, t: Team) -> bool {
    b[p] == Some(t) && b[q] == Some(t) && b[r] == Some(t)
}

/// `t` holds a whole row, column or diagonal of `b`: the rows `0 1 2`,
/// `3 4 5`, `6 7 8`, the columns `0 3 6`, `1 4 7`, `2 5 8`, and the
/// diagonals `0 4 8` and `2 4 6`.
pub open spec fn holds_a_line(b: Seq<Option<Team>>, t: Team) -> bool {
    ||| all_three(b, 0, 1, 2, t)
    ||| all_three(b, 3, 4, 5, t)
    ||| all_three(b, 6, 7, 8, t)
    ||| all_three(b, 0, 3, 6, t)
    ||| all_three(b, 1, 4, 7, t)
    ||| all_three(b, 2, 5, 8, t)
    ||| all_three(b, 0, 4, 8, t)
    ||| all_three(b, 2, 4, 6, t)
}

/// `info` names a row, column or diagonal of `b` held whole by its team:
/// the line's first and last tiles and its direction.
pub open spec fn info_names_a_line(b: Seq<Option<Team>>, info: WinnerInfo) -> bool {
    let t = info.team;
    ||| (info.start == 0 && info.end == 2 && info.win_type == WinType::Horizontal && all_three(b, 0, 1, 2, t))
    ||| (info.start == 3 && info.end == 5 && info.win_type == WinType::Horizontal && all_three(b, 3, 4, 5, t))
    ||| (info.start == 6 && info.end == 8 && info.win_type == WinType::Horizontal && all_three(b, 6, 7, 8, t))
    ||| (info.start == 0 && info.end == 6 && info.win_type == WinType::Vertical && all_three(b, 0, 3, 6, t))
    ||| (info.start == 1 && info.end == 7 && info.win_type == WinType::Vertical && all_three(b, 1, 4, 7, t))
    ||| (info.start == 2 && info.end == 8 && info.win_type == WinType::Vertical && all_three(b, 2, 5, 8, t))
    ||| (info.start == 0 && info.end == 8 && info.win_type == WinType::Diagonal && all_three(b, 0, 4, 8, t))
    ||| (info.start == 2 && info.end == 6 && info.win_type == WinType::AntiDiagonal && all_three(b, 2, 4, 6, t))
}

/// A board has a winner exactly when a team holds a whole row, column or
/// diagonal; the winner is a team that holds one, so a team that alone
/// holds one is the winner; the winner's line runs from `start` to `end`
/// through a middle tile, all three the winner's, and is a row, a column,
/// the diagonal or the anti-diagonal as `win_type` says.
pub proof fn lemma_winner_holds_a_line(b: Seq<Option<Team>>, t: Team)
    requires
        b.len() == 9,
    ensures
        holds_a_line(b, t) ==> winner(b) is Some,
        winner(b) == Some(t) ==> holds_a_line(b, t),
        holds_a_line(b, t) && !holds_a_line(b, t.spec_inverse()) ==> winner(b) == Some(t),
        winner_info(b) is Some <==> winner(b) is Some,
        winner_info(b) matches Some(info) ==> winner(b) == Some(info.team) && info_names_a_line(b, info),
{
    if winner(b) is Some {
        let w = winner(b)->0;
        assert(w == t || w == t.spec_inverse()) by {
            match w {
                Team::X => {},
                Team::O => {},
            }
            match t {
                Team::X => {},
                Team::O => {},
            }
        }
    }
}

fn holds_exec(tile: Option<Team>, team: Team) -> (r: u8)
    ensures
        r == holds(tile, team),
{
    match (tile, team) {
        (Some(Team::X), Team::X) => 1,
        (Some(Team::O), Team::O) => 1,
        _ => 0,
    }
}

fn empty_exec(tile: Option<Team>) -> (r: u8)
    ensures
        r == empty_at(tile),
{
    match tile {
        None => 1,
        Some(_) => 0,
    }
}

fn same_tile(a: Option<Team>, b: Option<Team>) -> (r: bool)
    ensures
        r == (a == b),
{
    match (a, b) {
        (None, None) => true,
        (Some(Team::X), Some(Team::X)) => true,
        (Some(Team::O), Some(Team::O)) => true,
        _ => false,
    }
}

fn line_exec(k: usize) -> (r: (usize, usize, usize))
    requires
        k < 8,
    ensures
        r.0 == line(k as int).0,
        r.1 == line(k as int).1,
        r.2 == line(k as int).2,
{
    if k == 0 {
        (0, 1, 2)
    } else if k == 1 {
        (3, 4, 5)
    } else if k == 2 {
        (6, 7, 8)
    } else if k == 3 {
        (0, 3, 6)
    } else if k == 4 {
        (1, 4, 7)
    } else if k == 5 {
        (2, 5, 8)
    } else if k == 6 {
        (0, 4, 8)
    } else {
        (2, 4, 6)
    }
}

fn line_type_exec(k: usize) -> (r: WinType)
    requires
        k < 8,
    ensures
        r == line_type(k as int),
{
    if k < 3 {
        WinType::Horizontal
    } else if k < 6 {
        WinType::Vertical
    } else if k == 6 {
        WinType::Diagonal
    } else {
        WinType::AntiDiagonal
    }
}

impl Board {
    /// Make an empty board.
    pub fn new() -> (b: Board)
        ensures
            b@ == Seq::new(9, |i: int| None::<Team>),
    {
        let b = Board { tiles: [None; 9] };
        assert(b@ =~= Seq::new(9, |i: int| None::<Team>));
        b
    }

    /// Get the tile at `index`.
    pub fn get(&self, index: u8) -> (res: Option<Team>)
        requires
            index < NUM_TILES,
        ensures
            res == self@[index as int],
    {
        self.tiles[index as usize]
    }

    /// Get a copy of this board with the tile at `index` set to `tile`.
    pub fn set(&self, index: u8, tile: Option<Team>) -> (res: Board)
        requires
            index < NUM_TILES,
        ensures
            res@ == self@.update(index as int, tile),
    {
        let mut b = *self;
        b.tiles[index as usize] = tile;
        b
    }

    /// The number of tiles that hold `team`.
    pub fn count(&self, team: Team) -> (res: u8)
        ensures
            res == count(self@, team),
    {
        let t = &self.tiles;
        holds_exec(t[0], team) + holds_exec(t[1], team) + holds_exec(t[2], team) + holds_exec(
            t[3],
            team,
        ) + holds_exec(t[4], team) + holds_exec(t[5], team) + holds_exec(t[6], team)
            + holds_exec(t[7], team) + holds_exec(t[8], team)
    }

    /// The number of empty tiles.
    pub fn num_empty(&self) -> (res: u8)
        ensures
            res == empties(self@),
    {
        let t = &self.tiles;
        empty_exec(t[0]) + empty_exec(t[1]) + empty_exec(t[2]) + empty_exec(t[3]) + empty_exec(
            t[4],
        ) + empty_exec(t[5]) + empty_exec(t[6]) + empty_exec(t[7]) + empty_exec(t[8])
    }

    /// Get whose turn it is.
    pub fn get_turn(&self) -> (res: Team)
        ensures
            res == turn(self@),
    {
        if self.count(Team::X) <= self.count(Team::O) {
            Team::X
        } else {
            Team::O
        }
    }

    fn line_wins_exec(&self, k: usize) -> (res: bool)
        requires
            k < 8,
        ensures
            res == line_wins(self@, k as int),
    {
        let (p, q, r) = line_exec(k);
        let a = self.tiles[p];
        a.is_some() && same_tile(self.tiles[q], a) && same_tile(self.tiles[r], a)
    }

    /// Get the winning team and line, if a team holds a whole line.
    pub fn get_winner_info(&self) -> (res: Option<WinnerInfo>)
        ensures
            res == winner_info(self@),
    {
        let mut k: usize = 0;
        while k < 8
            invariant
                0 <= k <= 8,
                forall|j: int| 0 <= j < k ==> !line_wins(self@, j),
            decreases 8 - k,
        {
            if self.line_wins_exec(k) {
                let (p, _q, r) = line_exec(k);
                let team = match self.tiles[p] {
                    Some(team) => team,
                    None => Team::X,
                };
                assert(winning_line(self@) == Some(k as int));
                return Some(
                    WinnerInfo {
                        team,
                        win_type: line_type_exec(k),
                        start: p as u8,
                        end: r as u8,
                    },
                );
            }
            k = k + 1;
        }
        assert(winning_line(self@) is None);
        None
    }

    /// Get the winning team, if a team holds a whole line.
    pub fn get_winner(&self) -> (res: Option<Team>)
        ensures
            res == winner(self@),
    {
        match self.get_winner_info() {
            Some(info) => Some(info.team),
            None => None,
        }
    }

    /// Whether the game is drawn: every tile is taken and nobody holds a line.
    pub fn is_draw(&self) -> (res: bool)
        ensures
            res == is_draw(self@),
    {
        self.num_empty() == 0 && self.get_winner().is_none()
    }
}

fn same_team(a: Team, b: Team) -> (r: bool)
    ensures
        r == (a == b),
{
    match (a, b) {
        (Team::X, Team::X) => true,
        (Team::O, Team::O) => true,
        _ => false,
    }
}

/// The value of `board` for the team to move under perfect play.
fn negamax_value(board: &Board) -> (v: i8)
    ensures
        v == negamax(board@),
        -1 <= v <= 1,
    decreases empties(board@), 1int,
{
    match board.get_winner() {
        Some(w) => {
            if same_team(w, board.get_turn()) {
                1
            } else {
                -1
            }
        },
        None => {
            if board.num_empty() == 0 {
                0
            } else {
                let (v, _i) = best_move(board);
                v
            }
        },
    }
}

/// The best move for the team to move: its value, and the first tile that
/// reaches that value.
#[verifier::rlimit(40)]
fn best_move(board: &Board) -> (r: (i8, u8))
    requires
        winner(board@) is None,
        empties(board@) > 0,
    ensures
        r.0 == best_below(board@, 9),
        r.0 == negamax(board@),
        -1 <= r.0 <= 1,
        r.1 < 9,
        board@[r.1 as int] is None,
        move_value(board@, r.1 as int) == r.0,
        forall|j: int| 0 <= j < r.1 ==> move_value(board@, j) < r.0,
        forall|j: int| 0 <= j < 9 ==> move_value(board@, j) <= r.0,
    decreases empties(board@), 0int,
{
    let team = board.get_turn();
    let mut best: i8 = -2;
    let mut idx: u8 = 0;
    let mut found = false;
    let mut i: u8 = 0;
    while i < 9
        invariant
            0 <= i <= 9,
            team == turn(board@),
            winner(board@) is None,
            empties(board@) > 0,
            best == best_below(board@, i as int),
            -2 <= best <= 1,
            found ==> -1 <= best,
            found ==> idx < i,
            found ==> board@[idx as int] is None,
            found ==> move_value(board@, idx as int) == best,
            found ==> forall|j: int| 0 <= j < idx ==> move_value(board@, j) < best,
            !found ==> best == -2,
            !found ==> forall|j: int| 0 <= j < i ==> board@[j] is Some,
            forall|j: int| 0 <= j < i ==> move_value(board@, j) <= best,
        decreases 9 - i,
    {
        if board.get(i).is_none() {
            let c = board.set(i, Some(team));
            assert(c@ == child(board@, i as int));
            let v = negamax_value(&c);
            let mv = -v;
            assert(move_value(board@, i as int) == mv);
            if mv > best {
                best = mv;
                idx = i;
            }
            found = true;
        } else {
            assert(move_value(board@, i as int) == -2);
        }
        i = i + 1;
    }
    if !found {
        assert(board@[0] is Some && board@[1] is Some && board@[2] is Some);
        assert(board@[3] is Some && board@[4] is Some && board@[5] is Some);
        assert(board@[6] is Some && board@[7] is Some && board@[8] is Some);
        assert(false);
    }
    (best, idx)
}

/// Tile `i` is the first tile whose move gives the team to move the value of
/// the board.
pub open spec fn is_first_best_move(b: Seq<Option<Team>>, i: int) -> bool {
    &&& 0 <= i < 9
    &&& b[i] is None
    &&& move_value(b, i) == negamax(b)
    &&& forall|j: int| 0 <= j < i ==> move_value(b, j) < negamax(b)
}

/// The move that the computer makes on `b`: the first tile whose move reaches
/// the value of the board.
pub open spec fn ai_move(b: Seq<Option<Team>>) -> int {
    choose|i: int| is_first_best_move(b, i)
}

proof fn lemma_first_best_unique(b: Seq<Option<Team>>, i: int)
    requires
        is_first_best_move(b, i),
    ensures
        ai_move(b) == i,
{
    let k = ai_move(b);
    assert(is_first_best_move(b, k));
    if k < i {
        assert(move_value(b, k) < negamax(b));
    } else if i < k {
        assert(move_value(b, i) < negamax(b));
    }
}

/// Placing a team on an empty tile gives that team one more tile, leaves the
/// other team's tiles alone and takes one empty tile away.
pub proof fn lemma_place(b: Seq<Option<Team>>, i: int, t: Team)
    requires
        b.len() == 9,
        0 <= i < 9,
        b[i] is None,
    ensures
        count(b.update(i, Some(t)), t) == count(b, t) + 1,
        count(b.update(i, Some(t)), t.spec_inverse()) == count(b, t.spec_inverse()),
        empties(b.update(i, Some(t))) == empties(b) - 1,
        b.update(i, Some(t)).len() == 9,
{
}

/// On a board reached by play, placing the team to move on an empty tile
/// gives a board reached by play on which the other team is to move.
pub proof fn lemma_place_turn(b: Seq<Option<Team>>, i: int)
    requires
        is_valid(b),
        0 <= i < 9,
        b[i] is None,
    ensures
        is_valid(b.update(i, Some(turn(b)))),
        turn(b.update(i, Some(turn(b)))) == turn(b).spec_inverse(),
        empties(b.update(i, Some(turn(b)))) == empties(b) - 1,
{
    lemma_place(b, i, turn(b));
}

proof fn lemma_negamax_range(b: Seq<Option<Team>>)
    ensures
        -1 <= negamax(b) <= 1,
    decreases empties(b), 10int,
{
    if b.len() == 9 && winner(b) is None && empties(b) != 0 {
        lemma_best_below_range(b, 9);
        assert(b[0] is None || b[1] is None || b[2] is None || b[3] is None || b[4] is None
            || b[5] is None || b[6] is None || b[7] is None || b[8] is None);
    }
}

proof fn lemma_best_below_range(b: Seq<Option<Team>>, k: int)
    requires
        b.len() == 9,
        0 <= k <= 9,
    ensures
        -2 <= best_below(b, k) <= 1,
        forall|j: int| 0 <= j < k ==> move_value(b, j) <= best_below(b, k),
        forall|j: int| 0 <= j < k && b[j] is None ==> -1 <= move_value(b, j),
        (exists|j: int| 0 <= j < k && b[j] is None) ==> -1 <= best_below(b, k),
        best_below(b, k) > -2 ==> exists|j: int|
            0 <= j < k && b[j] is None && move_value(b, j) == best_below(b, k),
    decreases empties(b), k,
{
    if k > 0 {
        lemma_best_below_range(b, k - 1);
        if b[k - 1] is None {
            lemma_negamax_range(child(b, k - 1));
        }
        assert forall|j: int| 0 <= j < k && b[j] is None implies -1 <= move_value(b, j) by {
            if j < k - 1 {
            }
        }
    }
}

proof fn lemma_first_from(b: Seq<Option<Team>>, k: int, v: int)
    requires
        b.len() == 9,
        0 <= k < 9,
        v == negamax(b),
        winner(b) is None,
        empties(b) > 0,
        forall|j: int| 0 <= j < k ==> move_value(b, j) < v,
        exists|j: int| k <= j < 9 && b[j] is None && move_value(b, j) == v,
    ensures
        exists|i: int| is_first_best_move(b, i),
    decreases 9 - k,
{
    lemma_best_below_range(b, 9);
    let j = choose|j: int| k <= j < 9 && b[j] is None && move_value(b, j) == v;
    assert(-1 <= v);
    if b[k] is None && move_value(b, k) == v {
        assert(is_first_best_move(b, k));
    } else {
        assert(j != k);
        assert(move_value(b, k) != v);
        assert(move_value(b, k) <= best_below(b, 9));
        lemma_first_from(b, k + 1, v);
    }
}

/// On a board where play goes on, the computer's move is a first best move:
/// an empty tile whose move reaches the value of the board.
pub proof fn lemma_ai_move_is_first_best(b: Seq<Option<Team>>)
    requires
        b.len() == 9,
        winner(b) is None,
        empties(b) > 0,
    ensures
        is_first_best_move(b, ai_move(b)),
        b[ai_move(b)] is None,
        0 <= ai_move(b) < 9,
{
    lemma_best_below_range(b, 9);
    assert(b[0] is None || b[1] is None || b[2] is None || b[3] is None || b[4] is None || b[5]
        is None || b[6] is None || b[7] is None || b[8] is None);
    lemma_first_from(b, 0, negamax(b));
}

/// Pick a move for the team to move with perfect play: returns the value of
/// the board for that team (`1` win, `0` draw, `-1` loss) and the first tile
/// whose move reaches that value.
pub fn minimax(board: Board) -> (res: (i8, u8))
    requires
        winner(board@) is None,
        empties(board@) > 0,
    ensures
        res.0 == negamax(board@),
        res.1 < NUM_TILES,
        board@[res.1 as int] is None,
        move_value(board@, res.1 as int) == res.0,
        forall|j: int| 0 <= j < res.1 ==> move_value(board@, j) < res.0,
        forall|j: int| 0 <= j < 9 ==> move_value(board@, j) <= res.0,
        res.1 == ai_move(board@),
{
    let r = best_move(&board);
    proof {
        lemma_first_best_unique(board@, r.1 as int);
    }
    r
}

/// The base-3 digit that stands for a tile: empty `0`, X `1`, O `2`.
pub open spec fn digit(tile: Option<Team>) -> int {
    match tile {
        None => 0,
        Some(Team::X) => 1,
        Some(Team::O) => 2,
    }
}

/// The tile that a base-3 digit stands for.
pub open spec fn tile_of_digit(d: int) -> Option<Team> {
    if d == 1 {
        Some(Team::X)
    } else if d == 2 {
        Some(Team::O)
    } else {
        None
    }
}

/// The code of tiles `i..9`: tile `i` is the lowest base-3 digit.
pub open spec fn suffix_code(b: Seq<Option<Team>>, i: int) -> int
    decreases 9 - i,
{
    if i >= 9 {
        0
    } else {
        digit(b[i]) + 3 * suffix_code(b, i + 1)
    }
}

/// The `u16` code of a board: tile `i` is base-3 digit `i`.
pub open spec fn encode(b: Seq<Option<Team>>) -> int {
    suffix_code(b, 0)
}

/// `3` to the power `k`.
pub open spec fn pow3(k: nat) -> int
    decreases k,
{
    if k == 0 {
        1
    } else {
        3 * pow3((k - 1) as nat)
    }
}

/// What is left of `n` after dividing it by `3` `i` times.
pub open spec fn rest(n: int, i: nat) -> int
    decreases i,
{
    if i == 0 {
        n
    } else {
        rest(n, (i - 1) as nat) / 3
    }
}

/// The board that a code stands for: base-3 digit `i` gives tile `i`.
pub open spec fn decode(n: int) -> Seq<Option<Team>> {
    Seq::new(9, |i: int| tile_of_digit(rest(n, i as nat) % 3))
}

proof fn lemma_suffix_code_bound(b: Seq<Option<Team>>, i: int)
    requires
        0 <= i <= 9,
    ensures
        0 <= suffix_code(b, i) < pow3((9 - i) as nat),
    decreases 9 - i,
{
    if i < 9 {
        lemma_suffix_code_bound(b, i + 1);
        assert(pow3((9 - i) as nat) == 3 * pow3((9 - (i + 1)) as nat));
    }
}

proof fn lemma_rest_of_code(b: Seq<Option<Team>>, i: int)
    requires
        0 <= i <= 9,
    ensures
        rest(encode(b), i as nat) == suffix_code(b, i),
    decreases i,
{
    if i > 0 {
        lemma_rest_of_code(b, i - 1);
        lemma_suffix_code_bound(b, i);
        vstd::arithmetic::div_mod::lemma_fundamental_div_mod_converse(
            suffix_code(b, i - 1),
            3,
            suffix_code(b, i),
            digit(b[i - 1]),
        );
    }
}

/// Decoding the code of a board gives the board back.
pub proof fn lemma_decode_encode(b: Seq<Option<Team>>)
    requires
        b.len() == 9,
    ensures
        decode(encode(b)) == b,
{
    assert forall|i: int| 0 <= i < 9 implies decode(encode(b))[i] == b[i] by {
        lemma_rest_of_code(b, i);
        lemma_suffix_code_bound(b, i + 1);
        vstd::arithmetic::div_mod::lemma_fundamental_div_mod_converse(
            suffix_code(b, i),
            3,
            suffix_code(b, i + 1),
            digit(b[i]),
        );
    }
    assert(decode(encode(b)) =~= b);
}

proof fn lemma_rest_bound(n: int, i: nat)
    requires
        0 <= n < pow3(9),
        i <= 9,
    ensures
        0 <= rest(n, i) < pow3((9 - i) as nat),
    decreases i,
{
    if i > 0 {
        lemma_rest_bound(n, (i - 1) as nat);
        assert(pow3((9 - (i - 1)) as nat) == 3 * pow3((9 - i) as nat));
    }
}

proof fn lemma_suffix_of_decode(n: int, i: int)
    requires
        0 <= n < pow3(9),
        0 <= i <= 9,
    ensures
        suffix_code(decode(n), i) == rest(n, i as nat),
    decreases 9 - i,
{
    if i < 9 {
        lemma_suffix_of_decode(n, i + 1);
        lemma_rest_bound(n, i as nat);
        let r = rest(n, i as nat);
        assert(rest(n, (i + 1) as nat) == r / 3);
        assert(decode(n)[i] == tile_of_digit(r % 3));
        assert(digit(tile_of_digit(r % 3)) == r % 3);
    } else {
        lemma_rest_bound(n, 9);
        assert(pow3(0) == 1);
    }
}

/// Encoding the board that a code stands for gives the code back, for
/// every code below `3` to the ninth.
pub proof fn lemma_encode_decode(n: int)
    requires
        0 <= n < 19683,
    ensures
        encode(decode(n)) == n,
{
    assert(pow3(9) == 19683) by {
        reveal_with_fuel(pow3, 10);
    }
    lemma_suffix_of_decode(n, 0);
}

fn digit_exec(tile: Option<Team>) -> (d: u16)
    ensures
        d == digit(tile),
{
    match tile {
        None => 0,
        Some(Team::X) => 1,
        Some(Team::O) => 2,
    }
}

impl Board {
    /// Encode this board as a `u16`: tile `i` is base-3 digit `i`.
    pub fn encode_u16(&self) -> (res: u16)
        ensures
            res == encode(self@),
            res < 19683,
    {
        let mut acc: u16 = 0;
        let mut i: usize = 9;
        proof {
            reveal_with_fuel(pow3, 10);
            assert(pow3(9) == 19683);
        }
        while i > 0
            invariant
                0 <= i <= 9,
                acc == suffix_code(self@, i as int),
                pow3(9) == 19683,
            decreases i,
        {
            proof {
                lemma_suffix_code_bound(self@, 0);
                lemma_suffix_code_bound(self@, i as int);
                lemma_suffix_code_bound(self@, (i - 1) as int);
                assert(pow3((9 - (i - 1)) as nat) <= pow3(9)) by {
                    lemma_pow3_monotone((9 - (i - 1)) as nat, 9);
                }
            }
            acc = acc * 3 + digit_exec(self.tiles[i - 1]);
            i = i - 1;
        }
        proof {
            lemma_suffix_code_bound(self@, 0);
        }
        acc
    }

    /// Decode a board from a `u16`: base-3 digit `i` gives tile `i` (a digit
    /// of `0` is an empty tile, `1` is X, `2` is O).
    pub fn decode_u16(code: u16) -> (res: Board)
        ensures
            res@ == decode(code as int),
    {
        let mut tiles: [Option<Team>; 9] = [None; 9];
        let mut r: u16 = code;
        let mut i: usize = 0;
        while i < 9
            invariant
                0 <= i <= 9,
                r == rest(code as int, i as nat),
                tiles@.len() == 9,
                forall|j: int| 0 <= j < i ==> tiles@[j] == tile_of_digit(rest(code as int, j as nat) % 3),
            decreases 9 - i,
        {
            let d = r % 3;
            tiles[i] = if d == 1 {
                Some(Team::X)
            } else if d == 2 {
                Some(Team::O)
            } else {
                None
            };
            r = r / 3;
            i = i + 1;
        }
        let b = Board { tiles };
        assert(b@ =~= decode(code as int));
        b
    }
}

proof fn lemma_pow3_monotone(a: nat, b: nat)
    requires
        a <= b,
    ensures
        pow3(a) <= pow3(b),
    decreases b,
{
    if a < b {
        lemma_pow3_monotone(a, (b - 1) as nat);
        lemma_pow3_positive((b - 1) as nat);
    }
}

proof fn lemma_pow3_positive(k: nat)
    ensures
        pow3(k) >= 1,
    decreases k,
{
    if k > 0 {
        lemma_pow3_positive((k - 1) as nat);
    }
}

} // verus!
