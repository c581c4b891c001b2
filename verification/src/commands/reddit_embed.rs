//! Reddit embeds: reading a post link, choosing what to post for it, and the
//! server setting.

use crate::util::{
    chars_of,
    push_str,
    random_index,
    str_eq,
    string_from_chars,
};
use vstd::prelude::*;

verus! {

/// The reply when the command is used outside a server.
pub const MISSING_SERVER_MSG: &'static str = "Missing server id. Are you in a server right now?";

/// The path of `url` once parsed by the `url` crate, or `None` where it is
/// not a URL.
pub uninterp spec fn parsed_url_path(url: Seq<char>) -> Option<Seq<char>>;

/// Parse `url` with `url::Url::parse` and give its path, with `Url::path`:
/// the contract names the result by [`parsed_url_path`].
#[verifier::external_body]
fn url_path(url: &str) -> (res: Option<String>)
    ensures
        match res {
            Some(path) => parsed_url_path(url@) == Some(path@),
            None => parsed_url_path(url@) is None,
        },
{
    match url::Url::parse(url) {
        Ok(parsed) => Some(parsed.path().to_string()),
        Err(_) => None,
    }
}

/// The index of the first `c` in `s`, or its length if it has none.
pub open spec fn first_of(s: Seq<char>, c: char) -> int
    decreases s.len(),
{
    if s.len() == 0 {
        0
    } else if s[0] == c {
        0
    } else {
        1 + first_of(s.skip(1), c)
    }
}

/// `s` split at each `c`, as `str::split` does: one piece more than there
/// are `c`s.
pub open spec fn split_on(s: Seq<char>, c: char) -> Seq<Seq<char>>
    decreases s.len(),
{
    let k = first_of(s, c);
    if 0 <= k < s.len() {
        seq![s.take(k)] + split_on(s.skip(k + 1), c)
    } else {
        seq![s]
    }
}

/// The segments of a URL path, as `Url::path_segments` gives them: the path
/// without its leading `/`, split at each `/`; none if it does not start
/// with `/`.
pub open spec fn path_segments(path: Seq<char>) -> Option<Seq<Seq<char>>> {
    if path.len() > 0 && path[0] == '/' {
        Some(split_on(path.skip(1), '/'))
    } else {
        None
    }
}

/// The subreddit and post id of a post's path segments:
/// `r/<subreddit>/comments/<post id>/...`.
pub open spec fn post_of_segments(segs: Seq<Seq<char>>) -> Option<(Seq<char>, Seq<char>)> {
    if segs.len() >= 4 && segs[0] == "r"@ && segs[2] == "comments"@ {
        Some((segs[1], segs[3]))
    } else {
        None
    }
}

/// The subreddit and post id of a post's path.
pub open spec fn post_of_path(path: Seq<char>) -> Option<(Seq<char>, Seq<char>)> {
    match path_segments(path) {
        Some(segs) => post_of_segments(segs),
        None => None,
    }
}

proof fn lemma_first_of_at(s: Seq<char>, c: char, k: int)
    requires
        0 <= k <= s.len(),
        forall|j: int| 0 <= j < k ==> s[j] != c,
        k < s.len() ==> s[k] == c,
    ensures
        first_of(s, c) == k,
    decreases s.len(),
{
    if k > 0 {
        assert forall|j: int| 0 <= j < k - 1 implies s.skip(1)[j] != c by {
            assert(s.skip(1)[j] == s[j + 1]);
        }
        lemma_first_of_at(s.skip(1), c, k - 1);
    }
}

/// The pieces of `cs[start..]` split at each `/`.
fn split_slashes(cs: &Vec<char>, start: usize) -> (res: Vec<Vec<char>>)
    requires
        start <= cs.len(),
    ensures
        res@.map_values(|v: Vec<char>| v@) == split_on(cs@.skip(start as int), '/'),
    decreases cs.len() - start,
{
    let ghost s = cs@.skip(start as int);
    let mut piece: Vec<char> = Vec::new();
    let mut i: usize = start;
    while i < cs.len() && cs[i] != '/'
        invariant
            start <= i <= cs.len(),
            piece@ == cs@.subrange(start as int, i as int),
            forall|j: int| start <= j < i ==> cs@[j] != '/',
        decreases cs.len() - i,
    {
        piece.push(cs[i]);
        assert(cs@.subrange(start as int, i + 1) =~= cs@.subrange(start as int, i as int).push(
            cs@[i as int],
        ));
        i = i + 1;
    }
    let k = i - start;
    proof {
        assert forall|j: int| 0 <= j < k implies s[j] != '/' by {
            assert(s[j] == cs@[start + j]);
        }
        lemma_first_of_at(s, '/', k as int);
        assert(piece@ =~= s.take(k as int));
    }
    if i < cs.len() {
        let mut res = split_slashes(cs, i + 1);
        proof {
            assert(s.skip(k + 1) =~= cs@.skip(i + 1));
        }
        let ghost rest = res@;
        res.insert(0, piece);
        proof {
            assert(res@.map_values(|v: Vec<char>| v@) =~= seq![s.take(k as int)] + rest.map_values(
                |v: Vec<char>| v@,
            ));
        }
        res
    } else {
        let mut res: Vec<Vec<char>> = Vec::new();
        res.push(piece);
        proof {
            assert(s.take(k as int) =~= s);
            assert(res@.map_values(|v: Vec<char>| v@) =~= seq![s]);
        }
        res
    }
}

fn chars_are(v: &Vec<char>, lit: &str) -> (res: bool)
    ensures
        res == (v@ == lit@),
{
    let s = string_from_chars(v);
    str_eq(s.as_str(), lit)
}

/// Gets the subreddit and post id from the path of a reddit url, such as
/// `/r/dankmemes/comments/h966lq/davie_is_shookt/`.
pub fn post_from_path(path: &str) -> (res: Option<(String, String)>)
    ensures
        match post_of_path(path@) {
            Some((subreddit, post_id)) => res matches Some((s, p)) && s@ == subreddit && p@
                == post_id,
            None => res is None,
        },
{
    let cs = chars_of(path);
    if cs.len() == 0 || cs[0] != '/' {
        return None;
    }
    let segs = split_slashes(&cs, 1);
    let ghost views = segs@.map_values(|v: Vec<char>| v@);
    assert(views.len() == segs@.len());
    if segs.len() < 4 {
        return None;
    }
    assert(views[0] == segs@[0]@ && views[1] == segs@[1]@);
    assert(views[2] == segs@[2]@ && views[3] == segs@[3]@);
    if !chars_are(&segs[0], "r") || !chars_are(&segs[2], "comments") {
        return None;
    }
    Some((string_from_chars(&segs[1]), string_from_chars(&segs[3])))
}

/// Gets the subreddit and post id from a reddit url.
///
/// # Returns
/// Returns a tuple or the the subreddit and post id in that order.
pub fn parse_post_url(url: &str) -> (res: Option<(String, String)>)
    ensures
        match parsed_url_path(url@) {
            Some(path) => match post_of_path(path) {
                Some((subreddit, post_id)) => res matches Some((s, p)) && s@ == subreddit && p@
                    == post_id,
                None => res is None,
            },
            None => res is None,
        },
{
    match url_path(url) {
        Some(path) => post_from_path(path.as_str()),
        None => None,
    }
}

/// What to post for a reddit link.
#[derive(Debug, Clone, PartialEq, Eq)]
pub enum LinkEmbed {
    /// Post this url.
    Url(String),
    /// Post the url of the video of the post at this url.
    VideoOf(String),
}

/// A choice of what to post, as plain values: whether it is the video of the
/// post at the url, and the url.
pub open spec fn embed_view(e: LinkEmbed) -> (bool, Seq<char>) {
    match e {
        LinkEmbed::Url(u) => (false, u@),
        LinkEmbed::VideoOf(u) => (true, u@),
    }
}

/// What to post for a link: the post itself unless it is marked over 18;
/// then the video of a hosted video, else the url it links to.
pub open spec fn link_embed_spec(permalink: Seq<char>, over_18: bool, hosted_video: bool, link_url: Seq<char>) -> (bool, Seq<char>) {
    let post_url = "https://www.reddit.com"@ + permalink;
    if !over_18 {
        (false, post_url)
    } else if hosted_video {
        (true, post_url)
    } else {
        (false, link_url)
    }
}

/// What to post for a link to a post: the post itself unless it is marked
/// over 18; then the video of a hosted video, else the url it links to.
pub fn link_embed(permalink: &str, over_18: bool, hosted_video: bool, link_url: &str) -> (res: LinkEmbed)
    ensures
        embed_view(res) == link_embed_spec(permalink@, over_18, hosted_video, link_url@),
{
    let mut out: Vec<char> = Vec::new();
    push_str(&mut out, "https://www.reddit.com");
    push_str(&mut out, permalink);
    let post_url = string_from_chars(&out);
    if !over_18 {
        LinkEmbed::Url(post_url)
    } else if hosted_video {
        LinkEmbed::VideoOf(post_url)
    } else {
        LinkEmbed::Url(String::from_str(link_url))
    }
}

/// Read the argument of the setting command: `enable` or `disable`; else
/// the reply that says it is not recognized.
pub fn parse_enable_arg(arg: &str) -> (res: Result<bool, String>)
    ensures
        arg@ == "enable"@ ==> res == Ok::<bool, String>(true),
        arg@ == "disable"@ ==> res == Ok::<bool, String>(false),
        arg@ != "enable"@ && arg@ != "disable"@ ==> (res matches Err(msg) && msg@
            == "The argument '"@ + arg@ + "' is not recognized. Valid: enable, disable"@),
{
    proof {
        reveal_strlit("enable");
        reveal_strlit("disable");
        assert("enable"@.len() != "disable"@.len());
    }
    if str_eq(arg, "enable") {
        Ok(true)
    } else if str_eq(arg, "disable") {
        Ok(false)
    } else {
        let mut out: Vec<char> = Vec::new();
        push_str(&mut out, "The argument '");
        push_str(&mut out, arg);
        push_str(&mut out, "' is not recognized. Valid: enable, disable");
        Err(string_from_chars(&out))
    }
}

/// The word for a setting: `enabled` or `disabled`.
pub open spec fn status_word(enable: bool) -> Seq<char> {
    if enable {
        "enabled"@
    } else {
        "disabled"@
    }
}

/// The reply after setting reddit embeds to `enable`, when they were
/// `old_val` before.
pub fn embed_setting_reply(enable: bool, old_val: bool) -> (res: String)
    ensures
        enable == old_val ==> res@ == "Reddit embeds are already "@ + status_word(enable)
            + " for this server"@,
        enable != old_val ==> res@ == "Reddit embeds are now "@ + status_word(enable)
            + " for this guild"@,
{
    let status_str = if enable {
        "enabled"
    } else {
        "disabled"
    };
    let mut out: Vec<char> = Vec::new();
    if enable == old_val {
        push_str(&mut out, "Reddit embeds are already ");
        push_str(&mut out, status_str);
        push_str(&mut out, " for this server");
    } else {
        push_str(&mut out, "Reddit embeds are now ");
        push_str(&mut out, status_str);
        push_str(&mut out, " for this guild");
    }
    string_from_chars(&out)
}

/// How long, in nanoseconds, a subreddit's posts are kept: ten minutes.
pub const RANDOM_POST_TTL_NANOS: u64 = 600_000_000_000;

/// The posts of a subreddit fetched `elapsed` nanoseconds ago are fetched
/// again once more than ten minutes have passed.
pub fn posts_are_fresh(elapsed: u64) -> (res: bool)
    ensures
        res == (elapsed <= RANDOM_POST_TTL_NANOS),
{
    elapsed <= RANDOM_POST_TTL_NANOS
}

/// A link of a subreddit listing, as plain values.
#[derive(Debug)]
pub struct LinkInfo {
    pub permalink: String,
    pub over_18: bool,
    pub hosted_video: bool,
    pub url: String,
}

/// A listed link, and the posts it crossposts if it is a crosspost.
#[derive(Debug)]
pub struct ListedLink {
    pub link: LinkInfo,
    pub crosspost_parents: Option<Vec<LinkInfo>>,
}

/// A link as plain values: its permalink, whether it is marked over 18,
/// whether it is a hosted video, and its url.
pub type LinkView = (Seq<char>, bool, bool, Seq<char>);

/// The view of a link.
pub open spec fn link_view(l: LinkInfo) -> LinkView {
    (l.permalink@, l.over_18, l.hosted_video, l.url@)
}

/// The post to use for a listed link: the link itself; for a crosspost the
/// first post it crossposts, and none if that list is empty.
pub open spec fn post_of(l: ListedLink) -> Option<LinkView> {
    match l.crosspost_parents {
        Some(parents) => if parents@.len() > 0 {
            Some(link_view(parents@[0]))
        } else {
            None
        },
        None => Some(link_view(l.link)),
    }
}

/// The posts of a listing, in order.
pub open spec fn posts_of(listing: Seq<ListedLink>) -> Seq<LinkView>
    decreases listing.len(),
{
    if listing.len() == 0 {
        Seq::empty()
    } else {
        let before = posts_of(listing.drop_last());
        match post_of(listing.last()) {
            Some(p) => before.push(p),
            None => before,
        }
    }
}

fn copy_link(l: &LinkInfo) -> (res: LinkInfo)
    ensures
        link_view(res) == link_view(*l),
{
    LinkInfo {
        permalink: l.permalink.clone(),
        over_18: l.over_18,
        hosted_video: l.hosted_video,
        url: l.url.clone(),
    }
}

/// The posts of a listing, in order: each link, or for a crosspost the post
/// it crossposts.
pub fn listing_posts(listing: &Vec<ListedLink>) -> (res: Vec<LinkInfo>)
    ensures
        res@.map_values(|l: LinkInfo| link_view(l)) == posts_of(listing@),
{
    let mut res: Vec<LinkInfo> = Vec::new();
    let mut i: usize = 0;
    while i < listing.len()
        invariant
            0 <= i <= listing.len(),
            res@.map_values(|l: LinkInfo| link_view(l)) == posts_of(listing@.take(i as int)),
        decreases listing.len() - i,
    {
        proof {
            assert(listing@.take(i + 1).drop_last() =~= listing@.take(i as int));
            assert(listing@.take(i + 1).last() == listing@[i as int]);
        }
        let item = &listing[i];
        match &item.crosspost_parents {
            Some(parents) => {
                if parents.len() > 0 {
                    res.push(copy_link(&parents[0]));
                }
            },
            None => {
                res.push(copy_link(&item.link));
            },
        }
        assert(res@.map_values(|l: LinkInfo| link_view(l)) =~= posts_of(listing@.take(i + 1)));
        i = i + 1;
    }
    assert(listing@.take(listing.len() as int) =~= listing@);
    res
}

/// What to post for a post drawn at random from `posts`; none if there are
/// no posts.
pub fn random_post_embed(posts: &Vec<LinkInfo>) -> (res: Option<LinkEmbed>)
    ensures
        posts@.len() == 0 <==> res is None,
        res matches Some(e) ==> exists|i: int|
            0 <= i < posts@.len() && embed_view(e) == #[trigger] link_embed_spec(
                posts@[i].permalink@,
                posts@[i].over_18,
                posts@[i].hosted_video,
                posts@[i].url@,
            ),
{
    if posts.len() == 0 {
        return None;
    }
    let i = random_index(posts.len());
    let p = &posts[i];
    let e = link_embed(p.permalink.as_str(), p.over_18, p.hosted_video, p.url.as_str());
    assert(embed_view(e) == link_embed_spec(
        posts@[i as int].permalink@,
        posts@[i as int].over_18,
        posts@[i as int].hosted_video,
        posts@[i as int].url@,
    ));
    Some(e)
}

} // verus!
