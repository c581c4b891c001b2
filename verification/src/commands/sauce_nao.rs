//! SauceNao replies: the embed for the best match.

use crate::commands::system::{
    field_views,
    opt_field,
};
use crate::util::{
    push_str,
    string_from_chars,
};
use vstd::prelude::*;

verus! {

/// The best match of a search, as plain values.
#[derive(Debug, Clone)]
pub struct SauceMatch {
    pub thumbnail: String,
    pub ext_url: Option<String>,
    pub source: Option<String>,
    pub eng_name: Option<String>,
    pub jp_name: Option<String>,
}

/// The embed shown for a match.
#[derive(Debug, Clone)]
pub struct SauceEmbed {
    pub title: String,
    pub image: String,
    /// The first external url, shown as the description and linked.
    pub url: Option<String>,
    pub fields: Vec<(String, String)>,
}

/// The embed for the best match: its thumbnail, its first external url, and
/// its source and names where known.
pub fn sauce_embed(m: &SauceMatch) -> (res: SauceEmbed)
    ensures
        res.title@ == "SauceNao Best Match"@,
        res.image@ == m.thumbnail@,
        match m.ext_url {
            Some(u) => res.url matches Some(r) && r@ == u@,
            None => res.url is None,
        },
        field_views(res.fields@) == opt_field("Source"@, m.source) + opt_field(
            "English Name"@,
            m.eng_name,
        ) + opt_field("Jap Name"@, m.jp_name),
{
    let mut fields: Vec<(String, String)> = Vec::new();
    assert(field_views(fields@) =~= Seq::<(Seq<char>, Seq<char>)>::empty());
    push_named(&mut fields, "Source", &m.source);
    push_named(&mut fields, "English Name", &m.eng_name);
    push_named(&mut fields, "Jap Name", &m.jp_name);
    assert(field_views(fields@) =~= opt_field("Source"@, m.source) + opt_field(
        "English Name"@,
        m.eng_name,
    ) + opt_field("Jap Name"@, m.jp_name));
    let url = match &m.ext_url {
        Some(u) => Some(u.clone()),
        None => None,
    };
    SauceEmbed {
        title: String::from_str("SauceNao Best Match"),
        image: m.thumbnail.clone(),
        url,
        fields,
    }
}

fn push_named(fields: &mut Vec<(String, String)>, name: &str, value: &Option<String>)
    ensures
        field_views(final(fields)@) == field_views(old(fields)@) + opt_field(name@, *value),
{
    match value {
        Some(v) => {
            fields.push((String::from_str(name), v.clone()));
        },
        None => {},
    }
    assert(field_views(fields@) =~= field_views(old(fields)@) + opt_field(name@, *value));
}

/// The reply when SauceNao has no match.
pub fn no_results_reply(query: &str) -> (res: String)
    ensures
        res@ == "No results on SauceNao for \""@ + query@ + "\""@,
{
    let mut out: Vec<char> = Vec::new();
    push_str(&mut out, "No results on SauceNao for \"");
    push_str(&mut out, query);
    push_str(&mut out, "\"");
    string_from_chars(&out)
}

} // verus!
