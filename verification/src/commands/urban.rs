//! Urban Dictionary replies: the embed for the first definition.

use crate::commands::system::field_views;
use crate::util::{
    decimal,
    format_u64,
};
use vstd::prelude::*;

verus! {

/// The reply when nothing was found.
pub const NO_RESULTS_MSG: &'static str = "No results";

/// A definition, as plain values.
#[derive(Debug, Clone)]
pub struct UrbanEntry {
    pub word: String,
    pub permalink: String,
    pub definition: String,
    pub example: String,
    pub thumbs_up: u64,
    pub thumbs_down: u64,
}

/// The fields of the embed for a definition: the definition and the example
/// across the embed, then the votes up and down side by side.
pub fn entry_fields(e: &UrbanEntry) -> (res: Vec<(String, String)>)
    ensures
        field_views(res@) == seq![
            ("Definition"@, e.definition@),
            ("Example"@, e.example@),
            ("👍"@, decimal(e.thumbs_up as nat)),
            ("👎"@, decimal(e.thumbs_down as nat)),
        ],
{
    let mut fields: Vec<(String, String)> = Vec::new();
    fields.push((String::from_str("Definition"), e.definition.clone()));
    fields.push((String::from_str("Example"), e.example.clone()));
    fields.push((String::from_str("👍"), format_u64(e.thumbs_up)));
    fields.push((String::from_str("👎"), format_u64(e.thumbs_down)));
    assert(field_views(fields@) =~= seq![
        ("Definition"@, e.definition@),
        ("Example"@, e.example@),
        ("👍"@, decimal(e.thumbs_up as nat)),
        ("👎"@, decimal(e.thumbs_down as nat)),
    ]);
    fields
}

} // verus!
