//! Values stored in the database.

use crate::tic_tac_toe::{
    count,
    turn,
    Board,
    Team,
    NUM_TILES,
};
use crate::util::{
    chars_of,
    decimal,
    eq_ignore_ascii_case,
    format_u64,
    is_digit,
    lemma_parse_decimal,
    parse_nonzero_u64,
    parse_nonzero_u64_spec,
    parse_u64,
    parse_u64_spec,
    push_str,
    str_eq,
    str_eq_ignore_ascii_case,
    string_from_chars,
    unsigned_digits,
};
use vstd::prelude::*;

verus! {

/// A player of Tic-Tac-Toe
#[derive(Debug, Clone, Copy, PartialEq, Eq, Hash, Structural)]
pub enum TicTacToePlayer {
    /// AI player
    Computer,
    /// Another user, by user id
    User(u64),
}

impl TicTacToePlayer {
    /// Check if this player is a computer
    pub fn is_computer(self) -> (res: bool)
        ensures
            res == (self is Computer),
    {
        match self {
            TicTacToePlayer::Computer => true,
            TicTacToePlayer::User(_) => false,
        }
    }

    /// Check if this player is a user
    pub fn is_user(self) -> (res: bool)
        ensures
            res == (self is User),
    {
        match self {
            TicTacToePlayer::Computer => false,
            TicTacToePlayer::User(_) => true,
        }
    }

    /// Extract the user id if this is a user
    pub fn get_user(self) -> (res: Option<u64>)
        ensures
            res == (match self {
                TicTacToePlayer::Computer => None,
                TicTacToePlayer::User(id) => Some(id),
            }),
    {
        match self {
            TicTacToePlayer::Computer => None,
            TicTacToePlayer::User(id) => Some(id),
        }
    }
}

/// The number of bytes that UTF-8 takes for `c`.
pub open spec fn utf8_len(c: char) -> int {
    if (c as u32) < 0x80 {
        1
    } else if (c as u32) < 0x800 {
        2
    } else if (c as u32) < 0x10000 {
        3
    } else {
        4
    }
}

/// The number of bytes that UTF-8 takes for `s`.
pub open spec fn byte_len(s: Seq<char>) -> int
    decreases s.len(),
{
    if s.len() == 0 {
        0
    } else {
        byte_len(s.drop_last()) + utf8_len(s.last())
    }
}

/// `s` starts with `<@`.
pub open spec fn starts_with_mention(s: Seq<char>) -> bool {
    s.len() >= 2 && s[0] == '<' && s[1] == '@'
}

/// serenity's user-mention parser cuts the text before its last byte; that
/// panics unless the last character is one byte long.
pub open spec fn mention_parse_panics(s: Seq<char>) -> bool {
    byte_len(s) >= 4 && starts_with_mention(s) && utf8_len(s.last()) != 1
}

/// What serenity's `parse_user_mention` gives: `<@!` or `<@`, then a nonzero
/// decimal user id, then one last character that is not looked at.
pub open spec fn user_mention_spec(s: Seq<char>) -> Option<u64> {
    if byte_len(s) < 4 || !starts_with_mention(s) {
        None
    } else if s.len() >= 4 && s[2] == '!' {
        parse_nonzero_u64_spec(s.subrange(3, s.len() - 1))
    } else if s.len() >= 3 {
        parse_nonzero_u64_spec(s.subrange(2, s.len() - 1))
    } else {
        None
    }
}

/// Parse a user mention such as `<@123>` or `<@!123>` into a user id, with
/// serenity's `parse_user_mention`: the contract claims what its source does,
/// `<@!` or `<@`, then the id up to the last byte, which is not looked at.
/// The source slices before the last byte, which panics when the last
/// character is longer than a byte; such texts are left out.
#[verifier::external_body]
fn parse_user_mention(mention: &str) -> (res: Option<u64>)
    requires
        !mention_parse_panics(mention@),
    ensures
        res == user_mention_spec(mention@),
{
    serenity::utils::parse_user_mention(mention).map(|id| id.get())
}

fn char_utf8_len(c: char) -> (n: usize)
    ensures
        n == utf8_len(c),
{
    let v = c as u32;
    if v < 0x80 {
        1
    } else if v < 0x800 {
        2
    } else if v < 0x10000 {
        3
    } else {
        4
    }
}

/// Whether serenity's mention parser would panic on `s`.
fn would_mention_parse_panic(s: &str) -> (res: bool)
    ensures
        res == mention_parse_panics(s@),
{
    let cs = chars_of(s);
    let n = cs.len();
    let mut total: usize = 0;
    let mut i: usize = 0;
    while i < n
        invariant
            0 <= i <= n,
            n == cs@.len(),
            cs@ == s@,
            byte_len(s@.take(i as int)) < 4 ==> total == byte_len(s@.take(i as int)),
            byte_len(s@.take(i as int)) >= 4 ==> total >= 4,
            total <= 7,
        decreases n - i,
    {
        assert(s@.take(i + 1).drop_last() =~= s@.take(i as int));
        let len = char_utf8_len(cs[i]);
        if total < 4 {
            total = total + len;
        }
        i = i + 1;
    }
    assert(s@.take(n as int) =~= s@);
    total >= 4 && n >= 2 && cs[0] == '<' && cs[1] == '@' && char_utf8_len(cs[n - 1]) != 1
}

/// How a player is named in chat: `computer`, or a Discord mention of the
/// user such as `<@123>`.
pub open spec fn mention_of(p: TicTacToePlayer) -> Seq<char> {
    match p {
        TicTacToePlayer::Computer => "computer"@,
        TicTacToePlayer::User(id) => "<@"@ + decimal(id as nat) + ">"@,
    }
}

/// The error when a text is not a player.
#[derive(Debug, Clone, Copy, PartialEq, Eq, Structural)]
pub struct TicTacToePlayerParseError;

/// The player a text names: `computer` in any ASCII case; a user mention; or a
/// decimal user id.
pub open spec fn player_from_str_spec(s: Seq<char>) -> Result<TicTacToePlayer, TicTacToePlayerParseError> {
    if eq_ignore_ascii_case(s, "computer"@) {
        Ok(TicTacToePlayer::Computer)
    } else if user_mention_spec(s) is Some {
        Ok(TicTacToePlayer::User(user_mention_spec(s)->0))
    } else if parse_u64_spec(s) is Some {
        Ok(TicTacToePlayer::User(parse_u64_spec(s)->0))
    } else {
        Err(TicTacToePlayerParseError)
    }
}

/// A value as SQLite stores it, or reads it back.
#[derive(Debug, Clone, PartialEq, Eq)]
pub enum SqlValue {
    /// NULL
    Null,
    /// An integer
    Integer(i64),
    /// A floating-point number
    Real,
    /// Text
    Text(String),
    /// A blob
    Blob(Vec<u8>),
}

/// Why a stored value could not be read back.
#[derive(Debug, Clone, Copy, PartialEq, Eq, Structural)]
pub enum FromSqlError {
    /// The value has the wrong type
    InvalidType,
    /// The value is out of range
    OutOfRange(i64),
    /// The value is malformed
    Other,
}

/// Read a user id: a nonzero integer, whose bits are those of the `u64` id.
pub fn user_id_from_sql(value: &SqlValue) -> (res: Result<u64, FromSqlError>)
    ensures
        match value {
            SqlValue::Integer(i) => if *i as u64 == 0 {
                res == Err::<u64, FromSqlError>(FromSqlError::OutOfRange(0))
            } else {
                res == Ok::<u64, FromSqlError>(*i as u64)
            },
            _ => res == Err::<u64, FromSqlError>(FromSqlError::InvalidType),
        },
{
    match value {
        SqlValue::Integer(i) => {
            let id = *i as u64;
            if id == 0 {
                Err(FromSqlError::OutOfRange(0))
            } else {
                Ok(id)
            }
        },
        _ => Err(FromSqlError::InvalidType),
    }
}

/// The stored form of a player: NULL for the computer, else the bits of the
/// user id as an integer.
pub open spec fn player_to_sql(p: TicTacToePlayer) -> SqlValue {
    match p {
        TicTacToePlayer::Computer => SqlValue::Null,
        TicTacToePlayer::User(id) => SqlValue::Integer(id as i64),
    }
}

/// A player read back from its stored form: NULL is the computer, a nonzero
/// integer a user; zero is out of range and other values have the wrong
/// type.
pub open spec fn player_from_sql(v: SqlValue) -> Result<TicTacToePlayer, FromSqlError> {
    match v {
        SqlValue::Null => Ok(TicTacToePlayer::Computer),
        SqlValue::Integer(i) => if i as u64 == 0 {
            Err(FromSqlError::OutOfRange(0))
        } else {
            Ok(TicTacToePlayer::User(i as u64))
        },
        _ => Err(FromSqlError::InvalidType),
    }
}

/// A stored player reads back as the same player; user ids are never zero.
pub proof fn lemma_player_sql_round_trip(p: TicTacToePlayer)
    requires
        p != TicTacToePlayer::User(0),
    ensures
        player_from_sql(player_to_sql(p)) == Ok::<TicTacToePlayer, FromSqlError>(p),
{
    if let TicTacToePlayer::User(id) = p {
        assert((id as i64) as u64 == id) by (bit_vector);
    }
}

impl TicTacToePlayer {
    /// Parse a player: `computer` in any ASCII case, a user mention such as
    /// `<@123>`, or a user id.
    pub fn from_str(input: &str) -> (res: Result<TicTacToePlayer, TicTacToePlayerParseError>)
        requires
            !mention_parse_panics(input@),
        ensures
            res == player_from_str_spec(input@),
    {
        if str_eq_ignore_ascii_case(input, "computer") {
            proof {
                reveal_strlit("computer");
            }
            Ok(TicTacToePlayer::Computer)
        } else {
            proof {
                reveal_strlit("computer");
            }
            match parse_user_mention(input) {
                Some(id) => Ok(TicTacToePlayer::User(id)),
                None => match parse_u64(input) {
                    Some(id) => Ok(TicTacToePlayer::User(id)),
                    None => Err(TicTacToePlayerParseError),
                },
            }
        }
    }

    /// Parse a player from any text: as [`TicTacToePlayer::from_str`], and a
    /// text that starts like a mention but ends in a character longer than a
    /// byte, on which the mention parser would panic, is refused.
    pub fn parse(input: &str) -> (res: Result<TicTacToePlayer, TicTacToePlayerParseError>)
        ensures
            mention_parse_panics(input@) ==> res == Err::<
                TicTacToePlayer,
                TicTacToePlayerParseError,
            >(TicTacToePlayerParseError),
            !mention_parse_panics(input@) ==> res == player_from_str_spec(input@),
    {
        if would_mention_parse_panic(input) {
            Err(TicTacToePlayerParseError)
        } else {
            TicTacToePlayer::from_str(input)
        }
    }

    /// The name of the player: `computer`, or the user id in decimal.
    pub fn name(self) -> (res: String)
        ensures
            res@ == (match self {
                TicTacToePlayer::Computer => "computer"@,
                TicTacToePlayer::User(id) => decimal(id as nat),
            }),
    {
        match self {
            TicTacToePlayer::Computer => String::from_str("computer"),
            TicTacToePlayer::User(id) => format_u64(id),
        }
    }

    /// The "mention" for a player: `computer`, or a Discord mention of the
    /// user such as `<@123>`.
    pub fn mention(self) -> (res: String)
        ensures
            res@ == mention_of(self),
    {
        match self {
            TicTacToePlayer::Computer => String::from_str("computer"),
            TicTacToePlayer::User(id) => {
                let mut out: Vec<char> = Vec::new();
                push_str(&mut out, "<@");
                let digits = format_u64(id);
                push_str(&mut out, digits.as_str());
                push_str(&mut out, ">");
                string_from_chars(&out)
            },
        }
    }

    /// The stored form of a player: NULL for the computer, else the bits of
    /// the user id as an integer.
    pub fn to_sql(&self) -> (res: SqlValue)
        ensures
            res == player_to_sql(*self),
    {
        match self {
            TicTacToePlayer::Computer => SqlValue::Null,
            TicTacToePlayer::User(id) => SqlValue::Integer(*id as i64),
        }
    }

    /// Read a stored player: NULL is the computer, an integer a user.
    pub fn column_result(value: &SqlValue) -> (res: Result<TicTacToePlayer, FromSqlError>)
        ensures
            res == player_from_sql(*value),
    {
        match value {
            SqlValue::Null => Ok(TicTacToePlayer::Computer),
            SqlValue::Integer(_) => match user_id_from_sql(value) {
                Ok(id) => Ok(TicTacToePlayer::User(id)),
                Err(e) => Err(e),
            },
            _ => Err(FromSqlError::InvalidType),
        }
    }
}

/// A server id as stored in the database: the id in decimal, or `empty`
/// outside a server.
#[derive(Debug, Clone, Copy, PartialEq, Eq, Structural)]
pub struct MaybeGuildString {
    pub guild_id: Option<u64>,
}

/// The stored text of a server id: the id in decimal, or `empty`.
pub open spec fn guild_text(g: MaybeGuildString) -> Seq<char> {
    match g.guild_id {
        Some(id) => decimal(id as nat),
        None => "empty"@,
    }
}

/// A server id read back from its stored text: a nonzero decimal id is a
/// server, `empty` is no server, anything else is malformed.
pub open spec fn guild_from_text(t: Seq<char>) -> Result<MaybeGuildString, FromSqlError> {
    match parse_nonzero_u64_spec(t) {
        Some(id) => Ok(MaybeGuildString { guild_id: Some(id) }),
        None => if t == "empty"@ {
            Ok(MaybeGuildString { guild_id: None })
        } else {
            Err(FromSqlError::Other)
        },
    }
}

/// A stored server id reads back as the same id; server ids are never zero.
pub proof fn lemma_guild_text_round_trip(g: MaybeGuildString)
    requires
        g.guild_id != Some(0u64),
    ensures
        guild_from_text(guild_text(g)) == Ok::<MaybeGuildString, FromSqlError>(g),
{
    match g.guild_id {
        Some(id) => {
            lemma_parse_decimal(id);
        },
        None => {
            reveal_strlit("empty");
            assert(!is_digit("empty"@[0]));
            assert(unsigned_digits("empty"@) == "empty"@);
        },
    }
}

impl MaybeGuildString {
    /// Wrap an optional server id.
    pub fn from(guild_id: Option<u64>) -> (res: Self)
        ensures
            res.guild_id == guild_id,
    {
        MaybeGuildString { guild_id }
    }

    /// The stored text: the server id in decimal, or `empty`.
    pub fn to_sql(&self) -> (res: SqlValue)
        ensures
            res matches SqlValue::Text(t) && t@ == guild_text(*self),
    {
        match self.guild_id {
            Some(id) => SqlValue::Text(format_u64(id)),
            None => SqlValue::Text(String::from_str("empty")),
        }
    }

    /// Read the stored text back: a nonzero decimal id is a server, `empty`
    /// is no server; anything else is malformed, and a value that is not text
    /// has the wrong type.
    pub fn column_result(value: &SqlValue) -> (res: Result<MaybeGuildString, FromSqlError>)
        ensures
            match value {
                SqlValue::Text(t) => res == guild_from_text(t@),
                _ => res == Err::<MaybeGuildString, FromSqlError>(FromSqlError::InvalidType),
            },
    {
        match value {
            SqlValue::Text(t) => match parse_nonzero_u64(t.as_str()) {
                Some(id) => Ok(MaybeGuildString { guild_id: Some(id) }),
                None => {
                    if str_eq(t.as_str(), "empty") {
                        Ok(MaybeGuildString { guild_id: None })
                    } else {
                        Err(FromSqlError::Other)
                    }
                },
            },
            _ => Err(FromSqlError::InvalidType),
        }
    }
}

/// Tic-Tac-Toe scores
#[derive(Debug, Clone, Copy, PartialEq, Eq, Hash, Structural)]
pub struct TicTacToeScore {
    /// Wins
    pub wins: u64,
    /// Losses
    pub losses: u64,
    /// Ties
    pub ties: u64,
    /// The number of times the player has conceded
    pub concedes: u64,
}

/// Top Player Tic-Tac-Toe scores
#[derive(Debug, Clone, Copy, PartialEq, Eq, Hash, Structural)]
pub struct TicTacToeTopPlayerScore {
    /// The score
    pub score: i64,
    /// The player
    pub player: u64,
    /// Wins
    pub wins: u64,
    /// Losses
    pub losses: u64,
    /// Ties
    pub ties: u64,
    /// The number of times the player has conceded
    pub concedes: u64,
}

/// Flags for TikTok embeds
#[derive(Debug, Clone, Copy, PartialEq, Eq, Hash, Structural)]
pub struct TikTokEmbedFlags {
    bits: u32,
}

/// The bits that a flag set may hold.
pub const TIKTOK_EMBED_FLAGS_ALL: u32 = 3;

impl TikTokEmbedFlags {
    /// The bits of this flag set.
    pub closed spec fn spec_bits(&self) -> u32 {
        self.bits
    }

    /// Only known flags are set.
    pub open spec fn wf(&self) -> bool {
        self.spec_bits() & !TIKTOK_EMBED_FLAGS_ALL == 0
    }

    /// Whether embeds are enabled
    pub fn enabled() -> (res: Self)
        ensures
            res.spec_bits() == 1,
    {
        TikTokEmbedFlags { bits: 1 }
    }

    /// Whether the bot should delete old links
    pub fn delete_link() -> (res: Self)
        ensures
            res.spec_bits() == 2,
    {
        TikTokEmbedFlags { bits: 2 }
    }

    /// No flags.
    pub fn empty() -> (res: Self)
        ensures
            res.spec_bits() == 0,
    {
        TikTokEmbedFlags { bits: 0 }
    }

    /// All flags.
    pub fn all() -> (res: Self)
        ensures
            res.spec_bits() == TIKTOK_EMBED_FLAGS_ALL,
    {
        TikTokEmbedFlags { bits: TIKTOK_EMBED_FLAGS_ALL }
    }

    /// The bits of this flag set.
    pub fn bits(&self) -> (res: u32)
        ensures
            res == self.spec_bits(),
    {
        self.bits
    }

    /// The flag set with these bits, if they only name known flags.
    pub fn from_bits(bits: u32) -> (res: Option<Self>)
        ensures
            bits & !TIKTOK_EMBED_FLAGS_ALL == 0 ==> (res matches Some(f) && f.spec_bits() == bits),
            bits & !TIKTOK_EMBED_FLAGS_ALL != 0 ==> res is None,
    {
        if bits & !TIKTOK_EMBED_FLAGS_ALL == 0 {
            Some(TikTokEmbedFlags { bits })
        } else {
            None
        }
    }

    /// No flag is set.
    pub fn is_empty(&self) -> (res: bool)
        ensures
            res == (self.spec_bits() == 0),
    {
        self.bits == 0
    }

    /// Every flag of `other` is set.
    pub fn contains(&self, other: Self) -> (res: bool)
        ensures
            res == (self.spec_bits() & other.spec_bits() == other.spec_bits()),
    {
        self.bits & other.bits == other.bits
    }

    /// Set the flags of `other`.
    pub fn insert(&mut self, other: Self)
        ensures
            final(self).spec_bits() == old(self).spec_bits() | other.spec_bits(),
    {
        self.bits = self.bits | other.bits;
    }

    /// Clear the flags of `other`.
    pub fn remove(&mut self, other: Self)
        ensures
            final(self).spec_bits() == old(self).spec_bits() & !other.spec_bits(),
    {
        self.bits = self.bits & !other.bits;
    }

    /// Set or clear the flags of `other`.
    pub fn set(&mut self, other: Self, value: bool)
        ensures
            value ==> final(self).spec_bits() == old(self).spec_bits() | other.spec_bits(),
            !value ==> final(self).spec_bits() == old(self).spec_bits() & !other.spec_bits(),
    {
        if value {
            self.insert(other);
        } else {
            self.remove(other);
        }
    }

    /// The stored form: the bits as an integer.
    pub fn to_sql(&self) -> (res: SqlValue)
        ensures
            res == SqlValue::Integer(self.spec_bits() as i64),
    {
        SqlValue::Integer(self.bits as i64)
    }

    /// Read a stored flag set: an integer that fits in a `u32` and names only
    /// known flags.
    pub fn column_result(value: &SqlValue) -> (res: Result<TikTokEmbedFlags, FromSqlError>)
        ensures
            match flags_from_sql(*value) {
                Ok(bits) => res matches Ok(f) && f.spec_bits() == bits,
                Err(e) => res == Err::<TikTokEmbedFlags, FromSqlError>(e),
            },
    {
        match value {
            SqlValue::Integer(i) => {
                let i = *i;
                if i < 0 || i > u32::MAX as i64 {
                    Err(FromSqlError::OutOfRange(i))
                } else {
                    match Self::from_bits(i as u32) {
                        Some(f) => Ok(f),
                        None => Err(FromSqlError::OutOfRange(i)),
                    }
                }
            },
            _ => Err(FromSqlError::InvalidType),
        }
    }

    /// The default: no flags.
    pub fn default() -> (res: Self)
        ensures
            res.spec_bits() == 0,
    {
        Self::empty()
    }
}

/// The bits of a flag set read back from its stored form: an integer that
/// fits in a `u32` and names only known flags.
pub open spec fn flags_from_sql(v: SqlValue) -> Result<u32, FromSqlError> {
    match v {
        SqlValue::Integer(i) => if i < 0 || i > u32::MAX {
            Err(FromSqlError::OutOfRange(i))
        } else if (i as u32) & !TIKTOK_EMBED_FLAGS_ALL != 0 {
            Err(FromSqlError::OutOfRange(i))
        } else {
            Ok(i as u32)
        },
        _ => Err(FromSqlError::InvalidType),
    }
}

/// A stored flag set that names only known flags reads back with the same
/// bits.
pub proof fn lemma_flags_sql_round_trip(bits: u32)
    requires
        bits & !TIKTOK_EMBED_FLAGS_ALL == 0,
    ensures
        flags_from_sql(SqlValue::Integer(bits as i64)) == Ok::<u32, FromSqlError>(bits),
{
}

/// Setting the flags of a set and then asking for them finds them set;
/// clearing them finds none of them.
pub proof fn lemma_flags_set_contains(bits: u32, other: u32)
    ensures
        (bits | other) & other == other,
        (bits & !other) & other == 0,
{
    assert((bits | other) & other == other) by (bit_vector);
    assert((bits & !other) & other == 0) by (bit_vector);
}

/// A Tic-Tac-Toe game
#[derive(Debug, Clone, Copy)]
pub struct TicTacToeGame {
    /// The game board
    pub board: Board,
    /// The x player
    pub x_player: TicTacToePlayer,
    /// The o player
    pub o_player: TicTacToePlayer,
}

/// A game as plain values: the tiles, the X player and the O player.
pub type GameView = (Seq<Option<Team>>, TicTacToePlayer, TicTacToePlayer);

impl View for TicTacToeGame {
    type V = GameView;

    open spec fn view(&self) -> GameView {
        (self.board@, self.x_player, self.o_player)
    }
}

/// The player of `team` in game `g`.
pub open spec fn player_of(g: GameView, team: Team) -> TicTacToePlayer {
    match team {
        Team::X => g.1,
        Team::O => g.2,
    }
}

/// The player whose turn it is in game `g`.
pub open spec fn player_turn(g: GameView) -> TicTacToePlayer {
    player_of(g, turn(g.0))
}

/// The opponent of `player` in game `g`; a player who plays both teams is
/// their own opponent.
pub open spec fn opponent_of(g: GameView, player: TicTacToePlayer) -> Option<TicTacToePlayer> {
    if player == g.1 && player == g.2 {
        Some(player)
    } else if player == g.1 {
        Some(g.2)
    } else if player == g.2 {
        Some(g.1)
    } else {
        None
    }
}

fn same_player(a: TicTacToePlayer, b: TicTacToePlayer) -> (res: bool)
    ensures
        res == (a == b),
{
    match (a, b) {
        (TicTacToePlayer::Computer, TicTacToePlayer::Computer) => true,
        (TicTacToePlayer::User(x), TicTacToePlayer::User(y)) => x == y,
        _ => false,
    }
}

impl TicTacToeGame {
    /// Make a new [`TicTacToeGame`] on an empty board.
    pub fn new(x_player: TicTacToePlayer, o_player: TicTacToePlayer) -> (res: Self)
        ensures
            res@ == (Seq::new(9, |i: int| None::<Team>), x_player, o_player),
    {
        TicTacToeGame { board: Board::new(), x_player, o_player }
    }

    /// Get whose turn it is
    pub fn get_team_turn(&self) -> (res: Team)
        ensures
            res == turn(self@.0),
    {
        self.board.get_turn()
    }

    /// Get the player for the given team.
    pub fn get_player(&self, team: Team) -> (res: TicTacToePlayer)
        ensures
            res == player_of(self@, team),
    {
        match team {
            Team::X => self.x_player,
            Team::O => self.o_player,
        }
    }

    /// Get the player whose turn it is
    pub fn get_player_turn(&self) -> (res: TicTacToePlayer)
        ensures
            res == player_turn(self@),
    {
        self.get_player(self.get_team_turn())
    }

    /// Try to make a move for `team` on tile `index`.
    ///
    /// # Returns
    /// Returns true if successful: the tile exists and is empty.
    pub fn try_move(&mut self, index: u8, team: Team) -> (res: bool)
        ensures
            res == (index < NUM_TILES && old(self)@.0[index as int] is None),
            res ==> final(self)@ == (old(self)@.0.update(index as int, Some(team)), old(self)@.1, old(self)@.2),
            !res ==> final(self)@ == old(self)@,
    {
        if index >= NUM_TILES || self.board.get(index).is_some() {
            false
        } else {
            self.board = self.board.set(index, Some(team));
            true
        }
    }

    /// Get the opponent of the given player in this [`TicTacToeGame`].
    pub fn get_opponent(&self, player: TicTacToePlayer) -> (res: Option<TicTacToePlayer>)
        ensures
            res == opponent_of(self@, player),
    {
        match (same_player(player, self.x_player), same_player(player, self.o_player)) {
            (false, false) => None,
            (false, true) => Some(self.x_player),
            (true, false) => Some(self.o_player),
            (true, true) => Some(player),
        }
    }

    /// All players, X player then O player, computer players included.
    pub fn iter_players(&self) -> (res: Vec<TicTacToePlayer>)
        ensures
            res@ == seq![self.x_player, self.o_player],
    {
        let mut v = Vec::new();
        v.push(self.x_player);
        v.push(self.o_player);
        v
    }
}

} // verus!
