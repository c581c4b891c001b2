//! The chat side of Tic-Tac-Toe: reading a move number, and the replies to
//! moves, new games and concessions.

use crate::database::model::{
    mention_of,
    player_of,
    player_turn,
    TicTacToeGame,
    TicTacToePlayer,
};
use crate::database::tic_tac_toe::{
    TicTacToeCreateGameError,
    TicTacToeTryMoveError,
    TicTacToeTryMoveResponse,
};
use crate::tic_tac_toe::{
    encode,
    Board,
    Team,
};
use crate::util::{
    decimal,
    format_u64,
    parse_u8,
    parse_u8_spec,
    push_str,
    string_from_chars,
};
use vstd::prelude::*;

verus! {

/// The reply when a player moves out of turn.
pub const NOT_YOUR_TURN_MSG: &'static str = "It is not your turn. Please wait for your opponent to finish.";

/// The reply when the author has no game to move in.
pub const NO_GAME_MSG: &'static str = "No games in progress. Make one with `tic-tac-toe play <computer/@user> <X/O>`.";

/// The reply when the database failed.
pub const DATABASE_ERROR_MSG: &'static str = "database error";

/// The reply when the author starts a game while in one.
pub const AUTHOR_IN_GAME_MSG: &'static str = "Finish your current game in this server before starting a new one. Use `tic-tac-toe concede` to end your current game.";

/// The reply when the opponent is in another game.
pub const OPPONENT_IN_GAME_MSG: &'static str = "Your opponent is currently in another game in this server. Wait for them to finish.";

/// The reply when the author concedes without a game.
pub const NO_GAME_TO_CONCEDE_MSG: &'static str = "Failed to concede as you have no games in this server";

/// The reply when the author asks for a board without a game.
pub const NO_GAME_TO_PRINT_MSG: &'static str = "Failed to print board as you have no games in this server";

/// Why a move number was refused.
#[derive(Debug, Clone, PartialEq, Eq)]
pub enum MoveNumberError {
    /// The text is not a number in `0..=255`; the message says why.
    NotANumber(String),
    /// The number is not in `1..=9`.
    OutOfRange,
}

/// Read a move number, `1` to `9`, and give the tile index it stands for.
pub fn parse_move_number(arg: &str) -> (res: Result<u8, MoveNumberError>)
    ensures
        match parse_u8_spec(arg@) {
            None => res matches Err(MoveNumberError::NotANumber(_)),
            Some(n) => if 1 <= n <= 9 {
                res == Ok::<u8, MoveNumberError>((n - 1) as u8)
            } else {
                res matches Err(MoveNumberError::OutOfRange)
            },
        },
{
    match parse_u8(arg) {
        Err(e) => Err(MoveNumberError::NotANumber(e)),
        Ok(n) => {
            if 1 <= n && n <= 9 {
                Ok(n - 1)
            } else {
                Err(MoveNumberError::OutOfRange)
            }
        },
    }
}

/// The reply to a refused move number.
pub fn move_number_error_message(err: &MoveNumberError, author: u64) -> (res: String)
    ensures
        res@ == match err {
            MoveNumberError::NotANumber(e) => "That move is not a number: "@ + e@
                + "\nUse `tic-tac-toe play <computer/@user> <X/O> to start a game.`"@,
            MoveNumberError::OutOfRange => "Your move number must be between 1 and 9 "@
                + mention_of(TicTacToePlayer::User(author)),
        },
{
    let mut out: Vec<char> = Vec::new();
    match err {
        MoveNumberError::NotANumber(e) => {
            push_str(&mut out, "That move is not a number: ");
            push_str(&mut out, e.as_str());
            push_str(&mut out, "\nUse `tic-tac-toe play <computer/@user> <X/O> to start a game.`");
        },
        MoveNumberError::OutOfRange => {
            push_str(&mut out, "Your move number must be between 1 and 9 ");
            let m = TicTacToePlayer::User(author).mention();
            push_str(&mut out, m.as_str());
        },
    }
    string_from_chars(&out)
}

/// The text of the reply to a move.
pub open spec fn move_reply_text(
    res: Result<TicTacToeTryMoveResponse, TicTacToeTryMoveError>,
    author: u64,
) -> Seq<char> {
    match res {
        Ok(TicTacToeTryMoveResponse::Winner { game, winner, loser }) => mention_of(winner)
            + " has triumphed over "@ + mention_of(loser) + " in Tic-Tac-Toe"@,
        Ok(TicTacToeTryMoveResponse::Tie { game }) => mention_of(player_of(game@, Team::X))
            + " has tied with "@ + mention_of(player_of(game@, Team::O)) + " in Tic-Tac-Toe"@,
        Ok(TicTacToeTryMoveResponse::NextTurn { game }) => "Your turn "@ + mention_of(
            player_turn(game@),
        ),
        Err(TicTacToeTryMoveError::InvalidTurn) => NOT_YOUR_TURN_MSG@,
        Err(TicTacToeTryMoveError::InvalidMove) => "Invalid move "@ + mention_of(
            TicTacToePlayer::User(author),
        ) + ". Please choose one of the available squares.\n"@,
        Err(TicTacToeTryMoveError::NotInAGame) => NO_GAME_MSG@,
        Err(TicTacToeTryMoveError::Database(_)) => DATABASE_ERROR_MSG@,
    }
}

/// A reply in chat: its text, and the board to show with it, if any.
#[derive(Debug)]
pub struct GameReply {
    pub text: String,
    pub board: Option<Board>,
}

/// The reply to a move by `author`: who won, tied or plays next, with the
/// board; or why the move was refused.
pub fn move_reply(res: &Result<TicTacToeTryMoveResponse, TicTacToeTryMoveError>, author: u64) -> (reply: GameReply)
    ensures
        reply.text@ == move_reply_text(*res, author),
        reply.board == match *res {
            Ok(TicTacToeTryMoveResponse::Winner { game, .. }) => Some(game.board),
            Ok(TicTacToeTryMoveResponse::Tie { game }) => Some(game.board),
            Ok(TicTacToeTryMoveResponse::NextTurn { game }) => Some(game.board),
            Err(_) => None::<Board>,
        },
{
    let mut out: Vec<char> = Vec::new();
    let mut board: Option<Board> = None;
    match res {
        Ok(TicTacToeTryMoveResponse::Winner { game, winner, loser }) => {
            let w = winner.mention();
            let l = loser.mention();
            push_str(&mut out, w.as_str());
            push_str(&mut out, " has triumphed over ");
            push_str(&mut out, l.as_str());
            push_str(&mut out, " in Tic-Tac-Toe");
            board = Some(game.board);
        },
        Ok(TicTacToeTryMoveResponse::Tie { game }) => {
            let x = game.get_player(Team::X).mention();
            let o = game.get_player(Team::O).mention();
            push_str(&mut out, x.as_str());
            push_str(&mut out, " has tied with ");
            push_str(&mut out, o.as_str());
            push_str(&mut out, " in Tic-Tac-Toe");
            board = Some(game.board);
        },
        Ok(TicTacToeTryMoveResponse::NextTurn { game }) => {
            let p = game.get_player_turn().mention();
            push_str(&mut out, "Your turn ");
            push_str(&mut out, p.as_str());
            board = Some(game.board);
        },
        Err(TicTacToeTryMoveError::InvalidTurn) => {
            push_str(&mut out, NOT_YOUR_TURN_MSG);
        },
        Err(TicTacToeTryMoveError::InvalidMove) => {
            let m = TicTacToePlayer::User(author).mention();
            push_str(&mut out, "Invalid move ");
            push_str(&mut out, m.as_str());
            push_str(&mut out, ". Please choose one of the available squares.\n");
        },
        Err(TicTacToeTryMoveError::NotInAGame) => {
            push_str(&mut out, NO_GAME_MSG);
        },
        Err(TicTacToeTryMoveError::Database(_)) => {
            push_str(&mut out, DATABASE_ERROR_MSG);
        },
    }
    GameReply { text: string_from_chars(&out), board }
}

/// The user told to move first in a new game: the author when they play X
/// or against the computer, else the opponent.
pub open spec fn first_turn_user(author: u64, author_team: Team, opponent: TicTacToePlayer) -> u64 {
    match opponent {
        TicTacToePlayer::User(opponent_id) => if author_team == Team::X {
            author
        } else {
            opponent_id
        },
        TicTacToePlayer::Computer => author,
    }
}

/// The reply to a request for a new game by `author`, playing `author_team`
/// against `opponent`.
pub fn play_reply(
    res: &Result<TicTacToeGame, TicTacToeCreateGameError>,
    author: u64,
    author_team: Team,
    opponent: TicTacToePlayer,
) -> (reply: GameReply)
    ensures
        reply.text@ == match *res {
            Ok(_) => "Game created! Your turn "@ + mention_of(
                TicTacToePlayer::User(first_turn_user(author, author_team, opponent)),
            ),
            Err(TicTacToeCreateGameError::AuthorInGame) => AUTHOR_IN_GAME_MSG@,
            Err(TicTacToeCreateGameError::OpponentInGame) => OPPONENT_IN_GAME_MSG@,
            Err(TicTacToeCreateGameError::Database(_)) => DATABASE_ERROR_MSG@,
        },
        reply.board == match *res {
            Ok(game) => Some(game.board),
            Err(_) => None::<Board>,
        },
{
    let mut out: Vec<char> = Vec::new();
    let mut board: Option<Board> = None;
    match res {
        Ok(game) => {
            let user = match opponent {
                TicTacToePlayer::User(opponent_id) => if author_team == Team::X {
                    author
                } else {
                    opponent_id
                },
                TicTacToePlayer::Computer => author,
            };
            let m = TicTacToePlayer::User(user).mention();
            push_str(&mut out, "Game created! Your turn ");
            push_str(&mut out, m.as_str());
            board = Some(game.board);
        },
        Err(TicTacToeCreateGameError::AuthorInGame) => {
            push_str(&mut out, AUTHOR_IN_GAME_MSG);
        },
        Err(TicTacToeCreateGameError::OpponentInGame) => {
            push_str(&mut out, OPPONENT_IN_GAME_MSG);
        },
        Err(TicTacToeCreateGameError::Database(_)) => {
            push_str(&mut out, DATABASE_ERROR_MSG);
        },
    }
    GameReply { text: string_from_chars(&out), board }
}

/// The reply when the opponent named is not a player.
pub fn invalid_opponent_message() -> (res: String)
    ensures
        res@ == "Invalid opponent. Choose 'computer' or '@user'. Error: invalid player"@,
{
    String::from_str("Invalid opponent. Choose 'computer' or '@user'. Error: invalid player")
}

/// The reply when `author` concedes `game`: who conceded to whom.
pub fn concede_message(game: &TicTacToeGame, author: u64) -> (res: Option<String>)
    ensures
        match crate::database::model::opponent_of(game@, TicTacToePlayer::User(author)) {
            Some(opponent) => res matches Some(text) && text@ == mention_of(
                TicTacToePlayer::User(author),
            ) + " has conceded to "@ + mention_of(opponent) + "."@,
            None => res is None,
        },
{
    match game.get_opponent(TicTacToePlayer::User(author)) {
        Some(opponent) => {
            let mut out: Vec<char> = Vec::new();
            let a = TicTacToePlayer::User(author).mention();
            let o = opponent.mention();
            push_str(&mut out, a.as_str());
            push_str(&mut out, " has conceded to ");
            push_str(&mut out, o.as_str());
            push_str(&mut out, ".");
            Some(string_from_chars(&out))
        },
        None => None,
    }
}

/// The file name of a board's picture: `ttt-`, the board's code, `.png`.
pub fn board_file_name(board: &Board) -> (res: String)
    ensures
        res@ == "ttt-"@ + decimal(encode(board@) as nat) + ".png"@,
{
    let code = board.encode_u16();
    let digits = format_u64(code as u64);
    let mut out: Vec<char> = Vec::new();
    push_str(&mut out, "ttt-");
    push_str(&mut out, digits.as_str());
    push_str(&mut out, ".png");
    string_from_chars(&out)
}

/// The file name of a new game's picture: the board's code, `.png`.
pub fn new_game_file_name(board: &Board) -> (res: String)
    ensures
        res@ == decimal(encode(board@) as nat) + ".png"@,
{
    let code = board.encode_u16();
    let digits = format_u64(code as u64);
    let mut out: Vec<char> = Vec::new();
    push_str(&mut out, digits.as_str());
    push_str(&mut out, ".png");
    string_from_chars(&out)
}

} // verus!
