//! SHiFT codes for Borderlands games: reading the game, and the replies.

use crate::util::{
    push_str,
    str_eq,
    string_from_chars,
};
use vstd::prelude::*;

verus! {

/// The Borderlands games that have SHiFT codes.
#[derive(Debug, Clone, Copy, PartialEq, Eq, Hash, Structural)]
pub enum Game {
    Borderlands,
    Borderlands2,
    BorderlandsPreSequel,
    Borderlands3,
}

/// The error when a text names no game; it holds the text.
#[derive(Debug, Clone)]
pub struct GameParseError(pub String);

/// The game a short name stands for: `bl`, `bl2`, `blps` or `bl3`.
pub open spec fn game_of(s: Seq<char>) -> Option<Game> {
    if s == "bl"@ {
        Some(Game::Borderlands)
    } else if s == "bl2"@ {
        Some(Game::Borderlands2)
    } else if s == "blps"@ {
        Some(Game::BorderlandsPreSequel)
    } else if s == "bl3"@ {
        Some(Game::Borderlands3)
    } else {
        None
    }
}

/// A game named as an argument of the command.
#[derive(Debug, Clone, Copy, PartialEq, Eq, Structural)]
pub struct GameArg(pub Game);

impl GameArg {
    /// Read a game from its short name.
    pub fn from_str(s: &str) -> (res: Result<GameArg, GameParseError>)
        ensures
            match game_of(s@) {
                Some(g) => res matches Ok(a) && a.0 == g,
                None => res matches Err(e) && e.0@ == s@,
            },
    {
        if str_eq(s, "bl") {
            Ok(GameArg(Game::Borderlands))
        } else if str_eq(s, "bl2") {
            Ok(GameArg(Game::Borderlands2))
        } else if str_eq(s, "blps") {
            Ok(GameArg(Game::BorderlandsPreSequel))
        } else if str_eq(s, "bl3") {
            Ok(GameArg(Game::Borderlands3))
        } else {
            Err(GameParseError(String::from_str(s)))
        }
    }
}

/// The name of a game as `Debug` writes it.
pub open spec fn game_debug_name(g: Game) -> Seq<char> {
    match g {
        Game::Borderlands => "Borderlands"@,
        Game::Borderlands2 => "Borderlands2"@,
        Game::BorderlandsPreSequel => "BorderlandsPreSequel"@,
        Game::Borderlands3 => "Borderlands3"@,
    }
}

/// The reply when the game's argument is missing or not a game: the text
/// given, if any.
pub fn bad_game_reply(given: Option<&str>) -> (res: String)
    ensures
        match given {
            Some(s) => res@ == "Invalid arg '"@ + s@ + "'. Valid: bl, bl2, blps, bl3"@,
            None => res@ == "Need arg. Valid: bl, bl2, blps, bl3"@,
        },
{
    let mut out: Vec<char> = Vec::new();
    match given {
        Some(s) => {
            push_str(&mut out, "Invalid arg '");
            push_str(&mut out, s);
            push_str(&mut out, "'. Valid: bl, bl2, blps, bl3");
        },
        None => {
            push_str(&mut out, "Need arg. Valid: bl, bl2, blps, bl3");
        },
    }
    string_from_chars(&out)
}

/// A SHiFT code, as the reply shows it.
#[derive(Debug, Clone)]
pub struct ShiftCodeText {
    pub source: String,
    pub issue_date: Option<String>,
    pub rewards: String,
    pub pc: String,
}

/// The reply with a code: where it comes from, when it was issued
/// (`unknown` if that is not known), what it gives, and the code.
pub fn code_reply(code: &ShiftCodeText) -> (res: String)
    ensures
        res@ == "Source: "@ + code.source@ + "\nIssue Date: "@ + match code.issue_date {
            Some(d) => d@,
            None => "unknown"@,
        } + "\nReward: "@ + code.rewards@ + "\nCode: "@ + code.pc@,
{
    let mut out: Vec<char> = Vec::new();
    push_str(&mut out, "Source: ");
    push_str(&mut out, code.source.as_str());
    push_str(&mut out, "\nIssue Date: ");
    match &code.issue_date {
        Some(d) => push_str(&mut out, d.as_str()),
        None => push_str(&mut out, "unknown"),
    }
    push_str(&mut out, "\nReward: ");
    push_str(&mut out, code.rewards.as_str());
    push_str(&mut out, "\nCode: ");
    push_str(&mut out, code.pc.as_str());
    string_from_chars(&out)
}

/// The reply when a game has no valid code.
pub fn no_codes_reply(game: Game) -> (res: String)
    ensures
        res@ == "No valid codes for "@ + game_debug_name(game),
{
    let mut out: Vec<char> = Vec::new();
    push_str(&mut out, "No valid codes for ");
    let name = match game {
        Game::Borderlands => "Borderlands",
        Game::Borderlands2 => "Borderlands2",
        Game::BorderlandsPreSequel => "BorderlandsPreSequel",
        Game::Borderlands3 => "Borderlands3",
    };
    push_str(&mut out, name);
    string_from_chars(&out)
}

} // verus!
