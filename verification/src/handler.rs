//! What the bot does with a message in a server: which of its links it
//! embeds, and how.

use crate::config::{
    ActivityKind,
    Config,
};
use crate::database::model::TikTokEmbedFlags;
use crate::util::{
    decimal,
    format_u64,
    push_str,
    str_eq,
    string_from_chars,
};
use vstd::prelude::*;

verus! {

/// The domain of `url` once parsed by the `url` crate: `None` where it is
/// not a URL, or its host is an address rather than a domain.
pub uninterp spec fn parsed_url_domain(url: Seq<char>) -> Option<Seq<char>>;

/// Parse `url` with `url::Url::parse` and give its domain, with
/// `Url::domain`: the contract names the result by [`parsed_url_domain`].
#[verifier::external_body]
fn url_domain(url: &str) -> (res: Option<String>)
    ensures
        match res {
            Some(d) => parsed_url_domain(url@) == Some(d@),
            None => parsed_url_domain(url@) is None,
        },
{
    match url::Url::parse(url) {
        Ok(parsed) => parsed.domain().map(String::from),
        Err(_) => None,
    }
}

/// The site a link is on, among those the bot embeds.
#[derive(Debug, Clone, Copy, PartialEq, Eq, Structural)]
pub enum LinkSite {
    Reddit,
    TikTok,
}

/// The site of a link with this domain, if the bot embeds it.
pub open spec fn site_of(domain: Option<Seq<char>>) -> Option<LinkSite> {
    match domain {
        Some(d) => if d == "www.reddit.com"@ || d == "reddit.com"@ {
            Some(LinkSite::Reddit)
        } else if d == "vm.tiktok.com"@ || d == "tiktok.com"@ || d == "www.tiktok.com"@ {
            Some(LinkSite::TikTok)
        } else {
            None
        },
        None => None,
    }
}

/// The site of the link `url`, if the bot embeds links there.
pub fn link_site(url: &str) -> (res: Option<LinkSite>)
    ensures
        res == site_of(parsed_url_domain(url@)),
{
    match url_domain(url) {
        Some(d) => {
            let d = d.as_str();
            if str_eq(d, "www.reddit.com") || str_eq(d, "reddit.com") {
                Some(LinkSite::Reddit)
            } else if str_eq(d, "vm.tiktok.com") || str_eq(d, "tiktok.com") || str_eq(
                d,
                "www.tiktok.com",
            ) {
                Some(LinkSite::TikTok)
            } else {
                None
            }
        },
        None => None,
    }
}

/// One embed to make: the index of the link, and how to embed it.
#[derive(Debug, Clone, Copy, PartialEq, Eq, Structural)]
pub enum EmbedJob {
    /// Embed the reddit post at this link.
    Reddit(usize),
    /// Embed the TikTok video at this link; delete the link's message if
    /// the flag is set.
    TikTok(usize, bool),
}

/// The embeds to make for links on these sites, in order: reddit links when
/// reddit embeds are on, TikTok links when TikTok embeds are on.
pub open spec fn embed_jobs(
    sites: Seq<Option<LinkSite>>,
    reddit_enabled: bool,
    tiktok_enabled: bool,
    delete_link: bool,
) -> Seq<EmbedJob>
    decreases sites.len(),
{
    if sites.len() == 0 {
        Seq::empty()
    } else {
        let i = sites.len() - 1;
        let before = embed_jobs(sites.drop_last(), reddit_enabled, tiktok_enabled, delete_link);
        match sites[i] {
            Some(LinkSite::Reddit) => if reddit_enabled {
                before.push(EmbedJob::Reddit(i as usize))
            } else {
                before
            },
            Some(LinkSite::TikTok) => if tiktok_enabled {
                before.push(EmbedJob::TikTok(i as usize, delete_link))
            } else {
                before
            },
            None => before,
        }
    }
}

/// The link index of an embed job.
pub open spec fn job_link(j: EmbedJob) -> int {
    match j {
        EmbedJob::Reddit(i) => i as int,
        EmbedJob::TikTok(i, _) => i as int,
    }
}

/// The embeds are planned in the order of their links, one at most per
/// link, each for a link of the message.
pub proof fn lemma_jobs_point_below(
    sites: Seq<Option<LinkSite>>,
    reddit_enabled: bool,
    tiktok_enabled: bool,
    delete_link: bool,
)
    requires
        sites.len() <= usize::MAX + 1,
    ensures
        forall|k: int|
            0 <= k < embed_jobs(sites, reddit_enabled, tiktok_enabled, delete_link).len() ==> 0
                <= #[trigger] job_link(
                embed_jobs(sites, reddit_enabled, tiktok_enabled, delete_link)[k],
            ) < sites.len(),
        forall|k1: int, k2: int|
            0 <= k1 < k2 < embed_jobs(sites, reddit_enabled, tiktok_enabled, delete_link).len()
                ==> #[trigger] job_link(
                embed_jobs(sites, reddit_enabled, tiktok_enabled, delete_link)[k1],
            ) < #[trigger] job_link(
                embed_jobs(sites, reddit_enabled, tiktok_enabled, delete_link)[k2],
            ),
    decreases sites.len(),
{
    if sites.len() > 0 {
        let n = sites.len() - 1;
        let before = embed_jobs(sites.drop_last(), reddit_enabled, tiktok_enabled, delete_link);
        let all = embed_jobs(sites, reddit_enabled, tiktok_enabled, delete_link);
        lemma_jobs_point_below(sites.drop_last(), reddit_enabled, tiktok_enabled, delete_link);
        assert((n as usize) as int == n);
        assert forall|k: int| 0 <= k < all.len() implies 0 <= #[trigger] job_link(all[k])
            < sites.len() by {
            if k < before.len() {
                assert(all[k] == before[k]);
                assert(0 <= job_link(before[k]) < sites.drop_last().len());
            }
        }
        assert forall|k1: int, k2: int| 0 <= k1 < k2 < all.len() implies #[trigger] job_link(
            all[k1],
        ) < #[trigger] job_link(all[k2]) by {
            assert(all[k1] == before[k1]);
            assert(0 <= job_link(before[k1]) < n);
            if k2 < before.len() {
                assert(all[k2] == before[k2]);
            }
        }
    }
}

/// Link `i` gets a TikTok embed exactly when it is on TikTok and TikTok
/// embeds are on, whatever the reddit setting, and the job carries the
/// delete setting; it gets a reddit embed exactly when it is on reddit and
/// reddit embeds are on, whatever the TikTok settings.
pub proof fn lemma_embed_jobs_per_link(
    sites: Seq<Option<LinkSite>>,
    reddit_enabled: bool,
    tiktok_enabled: bool,
    delete_link: bool,
    i: int,
)
    requires
        sites.len() <= usize::MAX + 1,
        0 <= i < sites.len(),
    ensures
        embed_jobs(sites, reddit_enabled, tiktok_enabled, delete_link).contains(
            EmbedJob::TikTok(i as usize, delete_link),
        ) <==> (sites[i] == Some(LinkSite::TikTok) && tiktok_enabled),
        embed_jobs(sites, reddit_enabled, tiktok_enabled, delete_link).contains(
            EmbedJob::TikTok(i as usize, !delete_link),
        ) == false,
        embed_jobs(sites, reddit_enabled, tiktok_enabled, delete_link).contains(
            EmbedJob::Reddit(i as usize),
        ) <==> (sites[i] == Some(LinkSite::Reddit) && reddit_enabled),
    decreases sites.len(),
{
    let n = sites.len() - 1;
    let before = embed_jobs(sites.drop_last(), reddit_enabled, tiktok_enabled, delete_link);
    let all = embed_jobs(sites, reddit_enabled, tiktok_enabled, delete_link);
    lemma_jobs_point_below(sites.drop_last(), reddit_enabled, tiktok_enabled, delete_link);
    lemma_jobs_point_below(sites, reddit_enabled, tiktok_enabled, delete_link);
    if i < n {
        lemma_embed_jobs_per_link(sites.drop_last(), reddit_enabled, tiktok_enabled, delete_link, i);
        assert(sites.drop_last()[i] == sites[i]);
        if all != before {
            assert(all.len() == before.len() + 1);
            assert(all.drop_last() =~= before);
            assert(job_link(all[before.len() as int]) == n);
        }
        assert forall|x: EmbedJob| job_link(x) == i implies (all.contains(x) <==> before.contains(
            x,
        )) by {
            if all.contains(x) {
                let k = choose|k: int| 0 <= k < all.len() && all[k] == x;
                if k < before.len() {
                    assert(before[k] == x);
                }
            }
            if before.contains(x) {
                let k = choose|k: int| 0 <= k < before.len() && before[k] == x;
                assert(all[k] == x);
            }
        }
        assert(job_link(EmbedJob::TikTok(i as usize, delete_link)) == i);
        assert(job_link(EmbedJob::TikTok(i as usize, !delete_link)) == i);
        assert(job_link(EmbedJob::Reddit(i as usize)) == i);
    } else {
        assert forall|x: EmbedJob| job_link(x) == i implies !before.contains(x) by {
            if before.contains(x) {
                let k = choose|k: int| 0 <= k < before.len() && before[k] == x;
                assert(0 <= job_link(before[k]) < n);
            }
        }
        assert(job_link(EmbedJob::TikTok(i as usize, delete_link)) == i);
        assert(job_link(EmbedJob::TikTok(i as usize, !delete_link)) == i);
        assert(job_link(EmbedJob::Reddit(i as usize)) == i);
        if all != before {
            assert(all[before.len() as int] == all.last());
        }
        assert forall|x: EmbedJob| job_link(x) == i implies (all.contains(x) <==> (all != before
            && all.last() == x)) by {
            if all != before {
                if all.contains(x) {
                    let k = choose|k: int| 0 <= k < all.len() && all[k] == x;
                    if k < before.len() {
                        assert(before[k] == x);
                    }
                }
                assert(all[all.len() - 1] == all.last());
            }
        }
    }
}

/// The sites of a list of links.
pub open spec fn sites_of(urls: Seq<String>) -> Seq<Option<LinkSite>> {
    urls.map_values(|u: String| site_of(parsed_url_domain(u@)))
}

/// The embeds to make for a message with these links: none unless it was
/// sent in a server and not by a bot; else each link on a site whose embeds
/// the server has turned on, in order. The bot shows that it is working
/// exactly when this is not empty.
pub fn plan_embeds(
    in_guild: bool,
    author_is_bot: bool,
    reddit_enabled: bool,
    tiktok_flags: TikTokEmbedFlags,
    urls: &Vec<String>,
) -> (res: Vec<EmbedJob>)
    ensures
        !in_guild || author_is_bot ==> res@ == Seq::<EmbedJob>::empty(),
        in_guild && !author_is_bot ==> res@ == embed_jobs(
            sites_of(urls@),
            reddit_enabled,
            tiktok_flags.spec_bits() & 1 == 1,
            tiktok_flags.spec_bits() & 2 == 2,
        ),
        in_guild && !author_is_bot ==> forall|i: int|
            0 <= i < urls@.len() ==> (res@.contains(
                EmbedJob::TikTok(i as usize, tiktok_flags.spec_bits() & 2 == 2),
            ) <==> (#[trigger] sites_of(urls@)[i] == Some(LinkSite::TikTok) && tiktok_flags.spec_bits() & 1
                == 1)),
        in_guild && !author_is_bot ==> forall|i: int|
            0 <= i < urls@.len() ==> (res@.contains(EmbedJob::Reddit(i as usize)) <==> (
            #[trigger] sites_of(urls@)[i] == Some(LinkSite::Reddit) && reddit_enabled)),
        forall|k1: int, k2: int|
            0 <= k1 < k2 < res@.len() ==> #[trigger] job_link(res@[k1]) < #[trigger] job_link(
                res@[k2],
            ),
{
    let mut res: Vec<EmbedJob> = Vec::new();
    if !in_guild || author_is_bot {
        return res;
    }
    let tiktok_enabled = tiktok_flags.contains(TikTokEmbedFlags::enabled());
    let delete_link = tiktok_flags.contains(TikTokEmbedFlags::delete_link());
    let ghost sites = sites_of(urls@);
    let mut i: usize = 0;
    while i < urls.len()
        invariant
            0 <= i <= urls.len(),
            sites == sites_of(urls@),
            sites.len() == urls.len(),
            res@ == embed_jobs(sites.take(i as int), reddit_enabled, tiktok_enabled, delete_link),
        decreases urls.len() - i,
    {
        let site = link_site(urls[i].as_str());
        proof {
            assert(sites.take(i + 1).drop_last() =~= sites.take(i as int));
            assert(sites.take(i + 1)[i as int] == site);
        }
        match site {
            Some(LinkSite::Reddit) => {
                if reddit_enabled {
                    res.push(EmbedJob::Reddit(i));
                }
            },
            Some(LinkSite::TikTok) => {
                if tiktok_enabled {
                    res.push(EmbedJob::TikTok(i, delete_link));
                }
            },
            None => {},
        }
        i = i + 1;
    }
    proof {
        assert(sites.take(urls.len() as int) =~= sites);
        lemma_jobs_point_below(sites, reddit_enabled, tiktok_enabled, delete_link);
        assert forall|i: int| 0 <= i < urls@.len() implies (res@.contains(
            EmbedJob::TikTok(i as usize, delete_link),
        ) <==> (sites[i] == Some(LinkSite::TikTok) && tiktok_enabled)) && (res@.contains(
            EmbedJob::Reddit(i as usize),
        ) <==> (sites[i] == Some(LinkSite::Reddit) && reddit_enabled)) by {
            lemma_embed_jobs_per_link(sites, reddit_enabled, tiktok_enabled, delete_link, i);
        }
    }
    res
}

/// The activity the bot shows once it is logged in.
#[derive(Debug, Clone, PartialEq, Eq)]
pub enum Activity {
    /// Listening to this.
    Listening(String),
    /// Streaming this, at the url, if one is set.
    Streaming(String, Option<String>),
    /// Playing this.
    Playing(String),
}

/// The activity that the config asks for: none unless it names both a
/// status and its kind.
pub fn config_activity(config: &Config) -> (res: Option<Activity>)
    ensures
        match config.status {
            Some(s) => match s.kind {
                Some(ActivityKind::Listening) => res matches Some(Activity::Listening(n)) && n@
                    == s.name@,
                Some(ActivityKind::Streaming) => res matches Some(Activity::Streaming(n, u)) && n@
                    == s.name@ && match s.url {
                    Some(url) => u matches Some(v) && v@ == url@,
                    None => u is None,
                },
                Some(ActivityKind::Playing) => res matches Some(Activity::Playing(n)) && n@
                    == s.name@,
                None => res is None,
            },
            None => res is None,
        },
{
    match (config.status_name(), config.status_type()) {
        (Some(status), Some(kind)) => {
            let name = String::from_str(status);
            match kind {
                ActivityKind::Listening => Some(Activity::Listening(name)),
                ActivityKind::Streaming => {
                    let url = match config.status_url() {
                        Some(u) => Some(String::from_str(u)),
                        None => None,
                    };
                    Some(Activity::Streaming(name, url))
                },
                ActivityKind::Playing => Some(Activity::Playing(name)),
            }
        },
        _ => None,
    }
}

/// Why the framework did not run a command, as plain values.
#[derive(Debug, Clone, PartialEq, Eq)]
pub enum DispatchProblem {
    /// The user must wait this many seconds.
    Ratelimited(u64),
    /// Fewer arguments were given than needed.
    NotEnoughArguments { min: u16, given: usize },
    /// More arguments were given than allowed.
    TooManyArguments { max: u16, given: usize },
    /// A check failed with a reason meant for the user.
    CheckFailedForUser(String),
    /// A check failed; its name and the reason written out.
    CheckFailed { check: String, reason: String },
    /// Another problem, written out.
    Other(String),
}

/// The reply to a command the framework would not run.
pub fn dispatch_error_message(problem: &DispatchProblem) -> (res: String)
    ensures
        res@ == match *problem {
            DispatchProblem::Ratelimited(secs) => "Wait "@ + decimal(secs as nat)
                + " seconds to use that command again"@,
            DispatchProblem::NotEnoughArguments { min, given } => "Expected at least "@ + decimal(
                min as nat,
            ) + " argument(s) for this command, but only got "@ + decimal(given as nat),
            DispatchProblem::TooManyArguments { max, given } => "Expected no more than "@
                + decimal(max as nat) + " argument(s) for this command, but got "@ + decimal(
                given as nat,
            ) + ". Try using quotation marks if your argument has spaces."@,
            DispatchProblem::CheckFailedForUser(reason) => reason@,
            DispatchProblem::CheckFailed { check, reason } => "\""@ + check@ + "\" check failed: "@
                + reason@,
            DispatchProblem::Other(text) => "Unhandled Dispatch Error: "@ + text@,
        },
{
    let mut out: Vec<char> = Vec::new();
    match problem {
        DispatchProblem::Ratelimited(secs) => {
            push_str(&mut out, "Wait ");
            let d = format_u64(*secs);
            push_str(&mut out, d.as_str());
            push_str(&mut out, " seconds to use that command again");
        },
        DispatchProblem::NotEnoughArguments { min, given } => {
            push_str(&mut out, "Expected at least ");
            let m = format_u64(*min as u64);
            push_str(&mut out, m.as_str());
            push_str(&mut out, " argument(s) for this command, but only got ");
            let g = format_u64(*given as u64);
            push_str(&mut out, g.as_str());
        },
        DispatchProblem::TooManyArguments { max, given } => {
            push_str(&mut out, "Expected no more than ");
            let m = format_u64(*max as u64);
            push_str(&mut out, m.as_str());
            push_str(&mut out, " argument(s) for this command, but got ");
            let g = format_u64(*given as u64);
            push_str(&mut out, g.as_str());
            push_str(&mut out, ". Try using quotation marks if your argument has spaces.");
        },
        DispatchProblem::CheckFailedForUser(reason) => {
            push_str(&mut out, reason.as_str());
        },
        DispatchProblem::CheckFailed { check, reason } => {
            push_str(&mut out, "\"");
            push_str(&mut out, check.as_str());
            push_str(&mut out, "\" check failed: ");
            push_str(&mut out, reason.as_str());
        },
        DispatchProblem::Other(text) => {
            push_str(&mut out, "Unhandled Dispatch Error: ");
            push_str(&mut out, text.as_str());
        },
    }
    string_from_chars(&out)
}

/// The reply to a command that does not exist.
pub fn unknown_command_message(command_name: &str) -> (res: String)
    ensures
        res@ == "Could not find command \""@ + command_name@ + "\""@,
{
    let mut out: Vec<char> = Vec::new();
    push_str(&mut out, "Could not find command \"");
    push_str(&mut out, command_name);
    push_str(&mut out, "\"");
    string_from_chars(&out)
}

/// What to do once an embed was posted for a link: whether to mark the
/// message as done, and whether to delete it. Both happen only for the first
/// embed of a message, while its loading reaction is still pending; the
/// message is deleted only for a TikTok embed whose server asks for it.
pub fn after_embed_posted(reaction_pending: bool, job: EmbedJob) -> (res: (bool, bool))
    ensures
        res.0 == reaction_pending,
        res.1 == (reaction_pending && job matches EmbedJob::TikTok(_, true)),
{
    match job {
        EmbedJob::TikTok(_, delete_link) => (reaction_pending, reaction_pending && delete_link),
        EmbedJob::Reddit(_) => (reaction_pending, false),
    }
}

} // verus!
