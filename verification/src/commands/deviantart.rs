//! DeviantArt search replies: which result to post.

use crate::util::{
    push_str,
    random_index,
    string_from_chars,
};
use vstd::prelude::*;

verus! {

/// The reply when a chosen result has no url.
pub const MISSING_URL_MSG: &'static str = "Missing url. This is probably a bug.";

/// The reply when the search found nothing to post.
pub const NO_RESULTS_MSG: &'static str = "No Results";

/// A search result, by what can be posted of it.
#[derive(Debug, Clone)]
pub enum Deviation {
    /// An image, with its download url and its full-view url where known.
    Image { download_url: Option<String>, fullview_url: Option<String> },
    /// A film, with the url of its best video where known.
    Film { best_video_url: Option<String> },
    /// Anything else, which is not posted.
    Other,
}

/// What can be posted of a result: for an image its download url, else its
/// full-view url; for a film its best video; nothing for anything else.
/// The inner `None` is a result that should have a url and does not.
pub open spec fn candidate(d: Deviation) -> Option<Option<Seq<char>>> {
    match d {
        Deviation::Image { download_url, fullview_url } => Some(
            match download_url {
                Some(u) => Some(u@),
                None => match fullview_url {
                    Some(u) => Some(u@),
                    None => None,
                },
            },
        ),
        Deviation::Film { best_video_url } => Some(
            match best_video_url {
                Some(u) => Some(u@),
                None => None,
            },
        ),
        Deviation::Other => None,
    }
}

/// The candidates of a list of results, in order.
pub open spec fn candidates(ds: Seq<Deviation>) -> Seq<Option<Seq<char>>>
    decreases ds.len(),
{
    if ds.len() == 0 {
        Seq::empty()
    } else {
        let before = candidates(ds.drop_last());
        match candidate(ds.last()) {
            Some(c) => before.push(c),
            None => before,
        }
    }
}

/// The views of a list of optional urls.
pub open spec fn opt_views(v: Seq<Option<String>>) -> Seq<Option<Seq<char>>> {
    v.map_values(
        |o: Option<String>|
            match o {
                Some(s) => Some(s@),
                None => None,
            },
    )
}

fn opt_clone(o: &Option<String>) -> (res: Option<String>)
    ensures
        match *o {
            Some(s) => res matches Some(r) && r@ == s@,
            None => res is None,
        },
{
    match o {
        Some(s) => Some(s.clone()),
        None => None,
    }
}

/// The postable candidates among `results`, in order.
pub fn deviation_candidates(results: &Vec<Deviation>) -> (res: Vec<Option<String>>)
    ensures
        opt_views(res@) == candidates(results@),
{
    let mut res: Vec<Option<String>> = Vec::new();
    let mut i: usize = 0;
    while i < results.len()
        invariant
            0 <= i <= results.len(),
            opt_views(res@) == candidates(results@.take(i as int)),
        decreases results.len() - i,
    {
        proof {
            assert(results@.take(i + 1).drop_last() =~= results@.take(i as int));
            assert(results@.take(i + 1).last() == results@[i as int]);
        }
        let ghost before = res@;
        match &results[i] {
            Deviation::Image { download_url, fullview_url } => {
                let url = match download_url {
                    Some(u) => Some(u.clone()),
                    None => opt_clone(fullview_url),
                };
                res.push(url);
            },
            Deviation::Film { best_video_url } => {
                res.push(opt_clone(best_video_url));
            },
            Deviation::Other => {},
        }
        assert(opt_views(res@) =~= candidates(results@.take(i + 1)));
        i = i + 1;
    }
    assert(results@.take(results.len() as int) =~= results@);
    res
}

/// The reply for a chosen candidate: its url; the bug notice for one
/// without a url; the notice that nothing was found when there was none.
pub fn choice_reply(choice: Option<Option<String>>) -> (res: String)
    ensures
        match choice {
            Some(Some(url)) => res@ == url@,
            Some(None) => res@ == MISSING_URL_MSG@,
            None => res@ == NO_RESULTS_MSG@,
        },
{
    match choice {
        Some(Some(url)) => url,
        Some(None) => String::from_str(MISSING_URL_MSG),
        None => String::from_str(NO_RESULTS_MSG),
    }
}

/// Choose one of the postable results at random, and give the reply for it.
pub fn random_result_reply(results: &Vec<Deviation>) -> (res: String)
    ensures
        candidates(results@).len() == 0 ==> res@ == NO_RESULTS_MSG@,
        candidates(results@).len() > 0 ==> exists|i: int|
            0 <= i < candidates(results@).len() && res@ == match #[trigger] candidates(results@)[i] {
                Some(url) => url,
                None => MISSING_URL_MSG@,
            },
{
    let mut cands = deviation_candidates(results);
    if cands.len() == 0 {
        return choice_reply(None);
    }
    let i = random_index(cands.len());
    let ghost views = opt_views(cands@);
    assert(views[i as int] == candidates(results@)[i as int]);
    let choice = cands.swap_remove(i);
    choice_reply(Some(choice))
}

/// The reply when the search failed.
pub fn search_failed_reply(query: &str, error: &str) -> (res: String)
    ensures
        res@ == "Failed to search '"@ + query@ + "': "@ + error@,
{
    let mut out: Vec<char> = Vec::new();
    push_str(&mut out, "Failed to search '");
    push_str(&mut out, query);
    push_str(&mut out, "': ");
    push_str(&mut out, error);
    string_from_chars(&out)
}

} // verus!
