//! Server settings as the database keeps them: what a missing row means,
//! and how a change is applied.

use crate::database::model::TikTokEmbedFlags;
use vstd::prelude::*;

verus! {

/// The stored TikTok embed flags of a server: none if it has no row.
pub fn stored_flags(row: Option<TikTokEmbedFlags>) -> (res: TikTokEmbedFlags)
    ensures
        res.spec_bits() == match row {
            Some(f) => f.spec_bits(),
            None => 0,
        },
{
    match row {
        Some(f) => f,
        None => TikTokEmbedFlags::default(),
    }
}

/// A stored switch, such as whether reddit embeds are on or a command is
/// disabled: off if there is no row.
pub fn stored_switch(row: Option<bool>) -> (res: bool)
    ensures
        res == (row == Some(true)),
{
    match row {
        Some(v) => v,
        None => false,
    }
}

/// Turn TikTok embeds on or off: the flags to store, and whether they were
/// on before.
pub fn set_tiktok_enabled(row: Option<TikTokEmbedFlags>, enabled: bool) -> (res: (TikTokEmbedFlags, bool))
    ensures
        enabled ==> res.0.spec_bits() == stored_flags_bits(row) | 1,
        !enabled ==> res.0.spec_bits() == stored_flags_bits(row) & !1u32,
        res.1 == (stored_flags_bits(row) & 1 == 1),
{
    let old = stored_flags(row);
    let mut modified = old;
    modified.set(TikTokEmbedFlags::enabled(), enabled);
    (modified, old.contains(TikTokEmbedFlags::enabled()))
}

/// The bits of the stored flags of a row.
pub open spec fn stored_flags_bits(row: Option<TikTokEmbedFlags>) -> u32 {
    match row {
        Some(f) => f.spec_bits(),
        None => 0,
    }
}

/// Apply a change to TikTok embed flags: set the flags of `set`, then clear
/// those of `unset`. Returns the old and the new flags.
pub fn apply_flag_changes(row: Option<TikTokEmbedFlags>, set: TikTokEmbedFlags, unset: TikTokEmbedFlags) -> (res: (
    TikTokEmbedFlags,
    TikTokEmbedFlags,
))
    ensures
        res.0.spec_bits() == stored_flags_bits(row),
        res.1.spec_bits() == (stored_flags_bits(row) | set.spec_bits()) & !unset.spec_bits(),
{
    let old = stored_flags(row);
    let mut new = old;
    new.insert(set);
    new.remove(unset);
    (old, new)
}

} // verus!
