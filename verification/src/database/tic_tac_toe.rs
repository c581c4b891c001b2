//! The decisions of the Tic-Tac-Toe database operations: whether a move or a
//! new game is allowed, what the game becomes, and which scores change.

use crate::database::model::{
    player_of,
    player_turn,
    opponent_of,
    GameView,
    TicTacToeGame,
    TicTacToePlayer,
};
use crate::tic_tac_toe::{
    ai_move,
    count,
    empties,
    is_valid,
    lemma_ai_move_is_first_best,
    lemma_place_turn,
    is_draw,
    minimax,
    turn,
    winner,
    Board,
    Team,
    NUM_TILES,
};
use vstd::prelude::*;

verus! {

/// Error that may occur while creating a tic-tac-toe game
#[derive(Debug)]
pub enum TicTacToeCreateGameError {
    /// The author is in a game
    AuthorInGame,
    /// The opponent is in a game
    OpponentInGame,
    /// Error accessing the database
    Database(String),
}

/// Error that may occur while performing a tic-tac-toe move
#[derive(Debug)]
pub enum TicTacToeTryMoveError {
    /// The user is not in a game
    NotInAGame,
    /// It is not the user's turn
    InvalidTurn,
    /// The move is invalid
    InvalidMove,
    /// Error accessing the database
    Database(String),
}

/// The response for making a tic-tac-toe move
#[derive(Debug, Clone, Copy)]
pub enum TicTacToeTryMoveResponse {
    /// There was a winner
    Winner { game: TicTacToeGame, winner: TicTacToePlayer, loser: TicTacToePlayer },
    /// There was a tie
    Tie { game: TicTacToeGame },
    /// The next turn executed
    NextTurn { game: TicTacToeGame },
}

/// A move response as plain values.
pub ghost enum MoveResult {
    Winner(GameView, TicTacToePlayer, TicTacToePlayer),
    Tie(GameView),
    NextTurn(GameView),
}

impl View for TicTacToeTryMoveResponse {
    type V = MoveResult;

    open spec fn view(&self) -> MoveResult {
        match self {
            TicTacToeTryMoveResponse::Winner { game, winner, loser } => MoveResult::Winner(
                game@,
                *winner,
                *loser,
            ),
            TicTacToeTryMoveResponse::Tie { game } => MoveResult::Tie(game@),
            TicTacToeTryMoveResponse::NextTurn { game } => MoveResult::NextTurn(game@),
        }
    }
}

/// The game is over after the last move: a team holds a line, or the board is
/// full.
pub open spec fn finished(g: GameView) -> Option<MoveResult> {
    match winner(g.0) {
        Some(w) => Some(MoveResult::Winner(g, player_of(g, w), player_of(g, w.spec_inverse()))),
        None => if is_draw(g.0) {
            Some(MoveResult::Tie(g))
        } else {
            None
        },
    }
}

/// The move of the player to move on tile `index` is accepted.
pub open spec fn move_is_legal(g: GameView, index: int) -> bool {
    0 <= index < 9 && g.0[index] is None
}

/// What a legal move of the player to move on tile `index` leads to: the game
/// ends if that move wins or fills the board; otherwise, if the computer is to
/// move next, it answers with [`ai_move`] and the game ends if that answer
/// wins or fills the board.
pub open spec fn move_result(g: GameView, index: int) -> MoveResult {
    let team = turn(g.0);
    let g1 = (g.0.update(index, Some(team)), g.1, g.2);
    match finished(g1) {
        Some(r) => r,
        None => if player_turn(g1) == TicTacToePlayer::Computer {
            let g2 = (g1.0.update(ai_move(g1.0), Some(team.spec_inverse())), g.1, g.2);
            match finished(g2) {
                Some(r) => r,
                None => MoveResult::NextTurn(g2),
            }
        } else {
            MoveResult::NextTurn(g1)
        },
    }
}

/// The game that a move result carries.
pub open spec fn result_game(r: MoveResult) -> GameView {
    match r {
        MoveResult::Winner(g, _, _) => g,
        MoveResult::Tie(g) => g,
        MoveResult::NextTurn(g) => g,
    }
}

/// A legal move on a board reached by play leads to a board reached by play,
/// with the same players, the mover's team on the chosen tile and one or two
/// fewer empty tiles. A win means that the winner holds a line and the loser
/// is the other team's player; a tie means that the board is full and nobody
/// holds a line; when play goes on, nobody holds a line and a tile is free.
pub proof fn lemma_move_result_sound(g: GameView, index: int)
    requires
        is_valid(g.0),
        move_is_legal(g, index),
    ensures
        is_valid(result_game(move_result(g, index)).0),
        result_game(move_result(g, index)).1 == g.1,
        result_game(move_result(g, index)).2 == g.2,
        result_game(move_result(g, index)).0[index] == Some(turn(g.0)),
        empties(result_game(move_result(g, index)).0) == empties(g.0) - 1 || empties(
            result_game(move_result(g, index)).0,
        ) == empties(g.0) - 2,
        match move_result(g, index) {
            MoveResult::Winner(h, w, l) => winner(h.0) is Some && w == player_of(
                h,
                winner(h.0)->0,
            ) && l == player_of(h, winner(h.0)->0.spec_inverse()),
            MoveResult::Tie(h) => is_draw(h.0),
            MoveResult::NextTurn(h) => winner(h.0) is None && empties(h.0) > 0,
        },
{
    let team = turn(g.0);
    let b1 = g.0.update(index, Some(team));
    let g1 = (b1, g.1, g.2);
    lemma_place_turn(g.0, index);
    if finished(g1) is None && player_turn(g1) == TicTacToePlayer::Computer {
        assert(empties(b1) > 0);
        lemma_ai_move_is_first_best(b1);
        let k = ai_move(b1);
        lemma_place_turn(b1, k);
        let b2 = b1.update(k, Some(team.spec_inverse()));
        assert(b2[index] == Some(team));
    }
}

/// When the player of the other team is not the computer, a legal move
/// changes exactly the chosen tile: the game carries the old board with the
/// mover's team on that tile, the same players, and one empty tile fewer;
/// nobody answers it. In particular this holds when neither player is the
/// computer.
pub proof fn lemma_move_without_computer_changes_one_tile(g: GameView, index: int)
    requires
        is_valid(g.0),
        move_is_legal(g, index),
        player_of(g, turn(g.0).spec_inverse()) != TicTacToePlayer::Computer,
    ensures
        result_game(move_result(g, index)) == (g.0.update(index, Some(turn(g.0))), g.1, g.2),
        empties(result_game(move_result(g, index)).0) == empties(g.0) - 1,
        forall|j: int|
            0 <= j < 9 && j != index ==> #[trigger] result_game(move_result(g, index)).0[j]
                == g.0[j],
{
    lemma_place_turn(g.0, index);
}

/// The computer answers a move only when it plays the other team: a legal
/// move that does not end the game leaves one empty tile fewer when the next
/// player is a person, and two fewer when it is the computer and its answer
/// does not end the game.
pub proof fn lemma_computer_answers_only_its_turn(g: GameView, index: int)
    requires
        is_valid(g.0),
        move_is_legal(g, index),
    ensures
        move_result(g, index) is NextTurn && player_of(g, turn(g.0).spec_inverse())
            != TicTacToePlayer::Computer ==> empties(result_game(move_result(g, index)).0)
            == empties(g.0) - 1,
        move_result(g, index) is NextTurn && player_of(g, turn(g.0).spec_inverse())
            == TicTacToePlayer::Computer ==> empties(result_game(move_result(g, index)).0)
            == empties(g.0) - 2,
{
    lemma_move_result_sound(g, index);
    let team = turn(g.0);
    let b1 = g.0.update(index, Some(team));
    let g1 = (b1, g.1, g.2);
    lemma_place_turn(g.0, index);
    if finished(g1) is None && player_turn(g1) == TicTacToePlayer::Computer {
        lemma_ai_move_is_first_best(b1);
        let k = ai_move(b1);
        lemma_place_turn(b1, k);
    }
}

fn check_finished(game: TicTacToeGame) -> (res: Option<TicTacToeTryMoveResponse>)
    ensures
        match res {
            Some(r) => finished(game@) == Some(r@),
            None => finished(game@) is None,
        },
{
    if let Some(w) = game.board.get_winner() {
        let winner = game.get_player(w);
        let loser = game.get_player(w.inverse());
        return Some(TicTacToeTryMoveResponse::Winner { game, winner, loser });
    }
    if game.board.is_draw() {
        return Some(TicTacToeTryMoveResponse::Tie { game });
    }
    None
}

fn same_player(a: TicTacToePlayer, b: TicTacToePlayer) -> (res: bool)
    ensures
        res == (a == b),
{
    match (a, b) {
        (TicTacToePlayer::Computer, TicTacToePlayer::Computer) => true,
        (TicTacToePlayer::User(x), TicTacToePlayer::User(y)) => x == y,
        _ => false,
    }
}

/// Decide a Tic-Tac-Toe move by `player` on tile `move_index` of `game`.
///
/// The move is refused if it is not the player's turn, or if the tile does
/// not exist or is taken. Otherwise the response says whether someone won,
/// the game tied, or play goes on; a computer opponent answers at once.
pub fn tic_tac_toe_move(game: TicTacToeGame, player: TicTacToePlayer, move_index: u8) -> (res:
    Result<TicTacToeTryMoveResponse, TicTacToeTryMoveError>)
    ensures
        player != player_turn(game@) ==> res matches Err(TicTacToeTryMoveError::InvalidTurn),
        player == player_turn(game@) && !move_is_legal(game@, move_index as int) ==> res matches Err(
            TicTacToeTryMoveError::InvalidMove,
        ),
        player == player_turn(game@) && move_is_legal(game@, move_index as int) ==> (res matches Ok(
            r,
        ) && r@ == move_result(game@, move_index as int)),
{
    let mut game = game;
    let player_turn = game.get_player_turn();
    if !same_player(player, player_turn) {
        return Err(TicTacToeTryMoveError::InvalidTurn);
    }
    let team_turn = game.get_team_turn();
    let move_successful = game.try_move(move_index, team_turn);
    if !move_successful {
        return Err(TicTacToeTryMoveError::InvalidMove);
    }
    if let Some(r) = check_finished(game) {
        return Ok(r);
    }
    let opponent = game.get_player_turn();
    if same_player(opponent, TicTacToePlayer::Computer) {
        proof {
            assert(empties(game.board@) > 0);
        }
        let (_score, index) = minimax(game.board);
        game.board = game.board.set(index, Some(team_turn.inverse()));
        if let Some(r) = check_finished(game) {
            return Ok(r);
        }
    }
    Ok(TicTacToeTryMoveResponse::NextTurn { game })
}

/// The board that a new game starts from: empty, or, when the computer plays
/// X, with the computer's first move on it.
pub open spec fn opening_board(x_player: TicTacToePlayer) -> Seq<Option<Team>> {
    let empty = Seq::new(9, |i: int| None::<Team>);
    if x_player == TicTacToePlayer::Computer {
        empty.update(ai_move(empty), Some(Team::X))
    } else {
        empty
    }
}

/// A new game starts on a board reached by play; when the computer plays X it
/// has made exactly one move and O is to move.
pub proof fn lemma_opening_board(x_player: TicTacToePlayer)
    ensures
        is_valid(opening_board(x_player)),
        x_player == TicTacToePlayer::Computer ==> turn(opening_board(x_player)) == Team::O
            && empties(opening_board(x_player)) == 8,
        x_player != TicTacToePlayer::Computer ==> turn(opening_board(x_player)) == Team::X
            && empties(opening_board(x_player)) == 9,
{
    let empty = Seq::new(9, |i: int| None::<Team>);
    assert(empty[0] is None && empty[1] is None && empty[2] is None && empty[3] is None);
    assert(winner(empty) is None);
    if x_player == TicTacToePlayer::Computer {
        lemma_ai_move_is_first_best(empty);
        lemma_place_turn(empty, ai_move(empty));
    }
}

/// Create a new game between `author`, who plays `author_team`, and
/// `opponent`.
///
/// `in_game` holds the X and O players of a game in the same server that
/// already involves the author or the opponent, if there is one. The author
/// may not start a game while in one; nor may they challenge an opponent who
/// is in one.
pub fn create_tic_tac_toe_game(
    author: TicTacToePlayer,
    author_team: Team,
    opponent: TicTacToePlayer,
    in_game: Option<(TicTacToePlayer, TicTacToePlayer)>,
) -> (res: Result<TicTacToeGame, TicTacToeCreateGameError>)
    ensures
        in_game matches Some((a, b)) && (a == author || b == author) ==> res matches Err(
            TicTacToeCreateGameError::AuthorInGame,
        ),
        in_game matches Some((a, b)) && !(a == author || b == author) && (a == opponent || b
            == opponent) ==> res matches Err(TicTacToeCreateGameError::OpponentInGame),
        (in_game matches Some((a, b)) ==> !(a == author || b == author || a == opponent || b
            == opponent)) ==> (res matches Ok(g) && g@.1 == (if author_team == Team::X {
            author
        } else {
            opponent
        }) && g@.2 == (if author_team == Team::X {
            opponent
        } else {
            author
        }) && g@.0 == opening_board(g@.1)),
{
    let (x_player, o_player) = match author_team {
        Team::X => (author, opponent),
        Team::O => (opponent, author),
    };
    if let Some((a, b)) = in_game {
        if same_player(a, author) || same_player(b, author) {
            return Err(TicTacToeCreateGameError::AuthorInGame);
        }
        if same_player(a, opponent) || same_player(b, opponent) {
            return Err(TicTacToeCreateGameError::OpponentInGame);
        }
    }
    let mut game = TicTacToeGame::new(x_player, o_player);
    if x_player.is_computer() {
        proof {
            let e = game.board@;
            assert(e[0] is None && e[1] is None && e[2] is None && e[3] is None);
            assert(winner(e) is None);
        }
        let (_score, index) = minimax(game.board);
        game.board = game.board.set(index, Some(Team::X));
    }
    Ok(game)
}

/// A change to one user's score.
#[derive(Debug, Clone, Copy, PartialEq, Eq, Structural)]
pub enum ScoreChange {
    /// One more win for the user
    Win(u64),
    /// One more loss for the user
    Loss(u64),
    /// One more tie for the user
    Tie(u64),
    /// One more concession for the user
    Concede(u64),
}

/// The score changes when `winner` beats `loser`: scores are only kept
/// between two users.
pub fn win_score_changes(winner: TicTacToePlayer, loser: TicTacToePlayer) -> (res: Vec<
    ScoreChange,
>)
    ensures
        res@ == (match (winner, loser) {
            (TicTacToePlayer::User(w), TicTacToePlayer::User(l)) => seq![
                ScoreChange::Win(w),
                ScoreChange::Loss(l),
            ],
            _ => seq![],
        }),
{
    let mut res = Vec::new();
    if let (TicTacToePlayer::User(w), TicTacToePlayer::User(l)) = (winner, loser) {
        res.push(ScoreChange::Win(w));
        res.push(ScoreChange::Loss(l));
    }
    res
}

/// The score changes when a game ties: scores are only kept between two users.
pub fn draw_score_changes(game: &TicTacToeGame) -> (res: Vec<ScoreChange>)
    ensures
        res@ == (match (game.x_player, game.o_player) {
            (TicTacToePlayer::User(x), TicTacToePlayer::User(o)) => seq![
                ScoreChange::Tie(x),
                ScoreChange::Tie(o),
            ],
            _ => seq![],
        }),
{
    let mut res = Vec::new();
    if let (TicTacToePlayer::User(x), TicTacToePlayer::User(o)) = (game.x_player, game.o_player) {
        res.push(ScoreChange::Tie(x));
        res.push(ScoreChange::Tie(o));
    }
    res
}

/// The score changes when user `player` concedes `game`: a concession for
/// them and a win for their opponent, when the opponent is a user. `None` if
/// the player is not in the game.
pub fn concede_score_changes(game: &TicTacToeGame, player: u64) -> (res: Option<Vec<ScoreChange>>)
    ensures
        match opponent_of(game@, TicTacToePlayer::User(player)) {
            None => res is None,
            Some(TicTacToePlayer::User(o)) => res matches Some(v) && v@ == seq![
                ScoreChange::Concede(player),
                ScoreChange::Win(o),
            ],
            Some(TicTacToePlayer::Computer) => res matches Some(v) && v@ == Seq::<
                ScoreChange,
            >::empty(),
        },
{
    let opponent = game.get_opponent(TicTacToePlayer::User(player));
    match opponent {
        None => None,
        Some(TicTacToePlayer::User(o)) => {
            let mut v = Vec::new();
            v.push(ScoreChange::Concede(player));
            v.push(ScoreChange::Win(o));
            Some(v)
        },
        Some(TicTacToePlayer::Computer) => Some(Vec::new()),
    }
}

} // verus!
