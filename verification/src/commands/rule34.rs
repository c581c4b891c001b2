//! Rule34 search replies.

use crate::util::{
    push_str,
    random_index,
    string_from_chars,
};
use vstd::prelude::*;

verus! {

/// Options for the rule34 command
#[derive(Debug, Clone)]
pub struct Rule34Options {
    /// The search query
    pub query: String,
}

/// The reply to a search: a post's file url drawn at random from those
/// found, or the notice that there were none for the query.
pub fn list_reply(file_urls: &Vec<String>, query: &str) -> (res: String)
    ensures
        file_urls@.len() == 0 ==> res@ == "No results for \""@ + query@ + "\""@,
        file_urls@.len() > 0 ==> exists|i: int|
            0 <= i < file_urls@.len() && res@ == #[trigger] file_urls@[i]@,
{
    if file_urls.len() == 0 {
        let mut out: Vec<char> = Vec::new();
        push_str(&mut out, "No results for \"");
        push_str(&mut out, query);
        push_str(&mut out, "\"");
        return string_from_chars(&out);
    }
    let i = random_index(file_urls.len());
    let res = file_urls[i].clone();
    assert(res@ == file_urls@[i as int]@);
    res
}

} // verus!
