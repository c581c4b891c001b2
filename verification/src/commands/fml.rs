//! FML stories: when to fetch more, and the embed for one.

use crate::util::{
    decimal,
    format_u64,
    push_str,
    string_from_chars,
};
use vstd::prelude::*;

verus! {

/// The cache is refilled when it holds fewer stories than this.
pub const REPOPULATE_BELOW: usize = 50;

/// The reply when no story is left.
pub const CACHE_EMPTY_MSG: &'static str = "Failed to get fml entry: Cache Empty";

/// More stories are fetched when fewer than fifty are cached.
pub fn should_repopulate(cached: usize) -> (res: bool)
    ensures
        res == (cached < REPOPULATE_BELOW),
{
    cached < REPOPULATE_BELOW
}

/// The reactions to a story: each count after its face, a blank line
/// between them.
pub fn reactions_text(amusing: u64, funny: u64, weird: u64, hilarious: u64) -> (res: String)
    ensures
        res@ == "😐 "@ + decimal(amusing as nat) + "\n\n😃 "@ + decimal(funny as nat)
            + "\n\n😲 "@ + decimal(weird as nat) + "\n\n😂 "@ + decimal(hilarious as nat),
{
    let mut out: Vec<char> = Vec::new();
    push_str(&mut out, "😐 ");
    push_str(&mut out, format_u64(amusing).as_str());
    push_str(&mut out, "\n\n😃 ");
    push_str(&mut out, format_u64(funny).as_str());
    push_str(&mut out, "\n\n😲 ");
    push_str(&mut out, format_u64(weird).as_str());
    push_str(&mut out, "\n\n😂 ");
    push_str(&mut out, format_u64(hilarious).as_str());
    string_from_chars(&out)
}

/// The reply when fetching stories failed.
pub fn fetch_failed_reply(error: &str) -> (res: String)
    ensures
        res@ == "Failed to get fml entry: "@ + error@,
{
    let mut out: Vec<char> = Vec::new();
    push_str(&mut out, "Failed to get fml entry: ");
    push_str(&mut out, error);
    string_from_chars(&out)
}

} // verus!
