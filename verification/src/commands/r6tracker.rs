//! R6Tracker statistics: which best rank to show, and the embed's fields.

use crate::commands::system::{
    field_views,
    opt_field,
};
use crate::util::{
    decimal,
    format_u64,
};
use vstd::prelude::*;

verus! {

/// A season's statistics; ratios come already written out.
#[derive(Debug, Clone)]
pub struct Season {
    pub rank_name: String,
    pub mmr: u64,
    pub kd: String,
    pub win_pct: String,
    pub matches: u64,
}

/// R6Tracker stats for a user, as plain values. The overlay API gives the
/// seasons and the lifetime values; the profile gives the colour, the rank
/// picture and a second record of the best season.
#[derive(Debug, Clone)]
pub struct Stats {
    pub name: String,
    pub avatar: String,
    pub current_ranked: Option<Season>,
    pub current_casual: Option<Season>,
    /// The best season of the overlay API: its best MMR and rank.
    pub max_season: Option<(u64, String)>,
    /// The best season of the profile: its best MMR and rank, where known.
    pub profile_max_season: Option<(Option<u64>, Option<String>)>,
    /// The lifetime best of the overlay API: its MMR and rank.
    pub lifetime_best: Option<(u64, String)>,
    pub lifetime_ranked_kd: Option<String>,
    pub lifetime_ranked_win_pct: Option<String>,
    pub lifetime_kd: String,
    pub lifetime_win_pct: String,
    pub season_color: Option<u32>,
    pub rank_thumbnail: Option<String>,
}

/// The best MMR to show: that of the overlay's best season; else that of the
/// profile's best season; else the overlay's lifetime best, which is known to
/// report the final rather than the best value.
pub open spec fn best_mmr(s: Stats) -> Option<u64> {
    match s.max_season {
        Some((mmr, _)) => Some(mmr),
        None => match s.profile_max_season {
            Some((Some(mmr), _)) => Some(mmr),
            _ => match s.lifetime_best {
                Some((mmr, _)) => Some(mmr),
                None => None,
            },
        },
    }
}

/// The best rank to show, chosen in the same order as the best MMR.
pub open spec fn best_rank(s: Stats) -> Option<Seq<char>> {
    match s.max_season {
        Some((_, rank)) => Some(rank@),
        None => match s.profile_max_season {
            Some((_, Some(rank))) => Some(rank@),
            _ => match s.lifetime_best {
                Some((_, rank)) => Some(rank@),
                None => None,
            },
        },
    }
}

/// The five fields of a season, named for ranked or casual play.
pub open spec fn season_fields(s: Season, ranked: bool) -> Seq<(Seq<char>, Seq<char>)> {
    if ranked {
        seq![
            ("Current Rank"@, s.rank_name@),
            ("Current MMR"@, decimal(s.mmr as nat)),
            ("Seasonal Ranked K/D"@, s.kd@),
            ("Seasonal Ranked Win %"@, s.win_pct@),
            ("Seasonal # of Ranked Matches"@, decimal(s.matches as nat)),
        ]
    } else {
        seq![
            ("Current Casual Rank"@, s.rank_name@),
            ("Current Casual MMR"@, decimal(s.mmr as nat)),
            ("Seasonal Casual K/D"@, s.kd@),
            ("Seasonal Casual Win %"@, s.win_pct@),
            ("Seasonal # of Casual Matches"@, decimal(s.matches as nat)),
        ]
    }
}

/// The fields of the embed, in order.
pub open spec fn stats_fields(s: Stats) -> Seq<(Seq<char>, Seq<char>)> {
    let ranked = match s.current_ranked {
        Some(season) => season_fields(season, true),
        None => Seq::empty(),
    };
    let casual = match s.current_casual {
        Some(season) => season_fields(season, false),
        None => Seq::empty(),
    };
    let best_mmr_field = match best_mmr(s) {
        Some(m) => seq![("Best MMR"@, decimal(m as nat))],
        None => Seq::empty(),
    };
    let best_rank_field = match best_rank(s) {
        Some(r) => seq![("Best Rank"@, r)],
        None => Seq::empty(),
    };
    ranked + casual + best_mmr_field + best_rank_field + opt_field(
        "Lifetime Ranked K/D"@,
        s.lifetime_ranked_kd,
    ) + opt_field("Lifetime Ranked Win %"@, s.lifetime_ranked_win_pct) + seq![
        ("Lifetime K/D"@, s.lifetime_kd@),
        ("Lifetime Win %"@, s.lifetime_win_pct@),
    ]
}

fn push_season(fields: &mut Vec<(String, String)>, s: &Season, ranked: bool)
    ensures
        field_views(final(fields)@) == field_views(old(fields)@) + season_fields(*s, ranked),
{
    let names = if ranked {
        (
            "Current Rank",
            "Current MMR",
            "Seasonal Ranked K/D",
            "Seasonal Ranked Win %",
            "Seasonal # of Ranked Matches",
        )
    } else {
        (
            "Current Casual Rank",
            "Current Casual MMR",
            "Seasonal Casual K/D",
            "Seasonal Casual Win %",
            "Seasonal # of Casual Matches",
        )
    };
    fields.push((String::from_str(names.0), s.rank_name.clone()));
    fields.push((String::from_str(names.1), format_u64(s.mmr)));
    fields.push((String::from_str(names.2), s.kd.clone()));
    fields.push((String::from_str(names.3), s.win_pct.clone()));
    fields.push((String::from_str(names.4), format_u64(s.matches)));
    assert(field_views(fields@) =~= field_views(old(fields)@) + season_fields(*s, ranked));
}

impl Stats {
    /// The best MMR to show.
    pub fn best_mmr(&self) -> (res: Option<u64>)
        ensures
            res == best_mmr(*self),
    {
        match self.max_season {
            Some((mmr, _)) => Some(mmr),
            None => match &self.profile_max_season {
                Some((Some(mmr), _)) => Some(*mmr),
                _ => match &self.lifetime_best {
                    Some((mmr, _)) => Some(*mmr),
                    None => None,
                },
            },
        }
    }

    /// The best rank to show.
    pub fn best_rank(&self) -> (res: Option<String>)
        ensures
            match best_rank(*self) {
                Some(r) => res matches Some(s) && s@ == r,
                None => res is None,
            },
    {
        match &self.max_season {
            Some((_, rank)) => Some(rank.clone()),
            None => match &self.profile_max_season {
                Some((_, Some(rank))) => Some(rank.clone()),
                _ => match &self.lifetime_best {
                    Some((_, rank)) => Some(rank.clone()),
                    None => None,
                },
            },
        }
    }

    /// The fields of the embed, as (name, value), in the order shown.
    pub fn embed_fields(&self) -> (res: Vec<(String, String)>)
        ensures
            field_views(res@) == stats_fields(*self),
    {
        let mut fields: Vec<(String, String)> = Vec::new();
        assert(field_views(fields@) =~= Seq::<(Seq<char>, Seq<char>)>::empty());
        match &self.current_ranked {
            Some(s) => push_season(&mut fields, s, true),
            None => {},
        }
        match &self.current_casual {
            Some(s) => push_season(&mut fields, s, false),
            None => {},
        }
        match self.best_mmr() {
            Some(m) => {
                fields.push((String::from_str("Best MMR"), format_u64(m)));
            },
            None => {},
        }
        match self.best_rank() {
            Some(r) => {
                fields.push((String::from_str("Best Rank"), r));
            },
            None => {},
        }
        match &self.lifetime_ranked_kd {
            Some(kd) => {
                fields.push((String::from_str("Lifetime Ranked K/D"), kd.clone()));
            },
            None => {},
        }
        match &self.lifetime_ranked_win_pct {
            Some(w) => {
                fields.push((String::from_str("Lifetime Ranked Win %"), w.clone()));
            },
            None => {},
        }
        fields.push((String::from_str("Lifetime K/D"), self.lifetime_kd.clone()));
        fields.push((String::from_str("Lifetime Win %"), self.lifetime_win_pct.clone()));
        assert(field_views(fields@) =~= stats_fields(*self));
        fields
    }

    /// The embed's title: the player's name.
    pub fn embed_title(&self) -> (res: &str)
        ensures
            res@ == self.name@,
    {
        self.name.as_str()
    }

    /// The embed's image: the player's avatar.
    pub fn embed_image(&self) -> (res: &str)
        ensures
            res@ == self.avatar@,
    {
        self.avatar.as_str()
    }

    /// The embed's colour: the season's colour, where the profile gives one.
    pub fn embed_color(&self) -> (res: Option<u32>)
        ensures
            res == self.season_color,
    {
        self.season_color
    }

    /// The embed's thumbnail: the picture of the current rank, where the
    /// profile gives one.
    pub fn embed_thumbnail(&self) -> (res: Option<&str>)
        ensures
            match self.rank_thumbnail {
                Some(t) => res matches Some(r) && r@ == t@,
                None => res is None,
            },
    {
        match &self.rank_thumbnail {
            Some(t) => Some(t.as_str()),
            None => None,
        }
    }

    /// The whole embed: titled with the player's name, with the avatar as
    /// its image, the season's colour and the rank picture where known, and
    /// the fields of [`stats_fields`]. The avatar, and the rank picture where
    /// there is one, must be URLs that Discord takes as images; the first
    /// that is not ends the build with the image source's error.
    pub fn create_embed(&self) -> (res: Result<StatsEmbed, String>)
        ensures
            res is Ok <==> image_protocol_ok(self.avatar@) && match self.rank_thumbnail {
                Some(t) => image_protocol_ok(t@),
                None => true,
            },
            res matches Err(e) ==> e@ == IMAGE_PROTOCOL_MSG@,
            res matches Ok(e) ==> e.title@ == self.name@ && e.image@ == self.avatar@ && e.color
                == self.season_color && field_views(e.fields@) == stats_fields(*self) && match self.rank_thumbnail {
                Some(t) => e.thumbnail matches Some(r) && r@ == t@,
                None => e.thumbnail is None,
            },
    {
        let image = self.embed_image();
        match image_source_url(image) {
            Ok(()) => {},
            Err(e) => {
                return Err(e);
            },
        }
        let fields = self.embed_fields();
        let thumbnail = match self.embed_thumbnail() {
            Some(t) => {
                match image_source_url(t) {
                    Ok(()) => {},
                    Err(e) => {
                        return Err(e);
                    },
                }
                Some(String::from_str(t))
            },
            None => None,
        };
        Ok(
            StatsEmbed {
                title: String::from_str(self.embed_title()),
                image: String::from_str(image),
                color: self.embed_color(),
                thumbnail,
                fields,
            },
        )
    }
}

/// A URL that Discord takes as an embed image: one that begins with `https:`
/// or `http:`.
pub open spec fn image_protocol_ok(url: Seq<char>) -> bool {
    (url.len() >= 6 && url.take(6) == "https:"@) || (url.len() >= 5 && url.take(5) == "http:"@)
}

/// The message of the error for an image URL of another protocol.
pub const IMAGE_PROTOCOL_MSG: &'static str = "the provided URL's protocol is unsupported by Discord";

/// Check `url` as an embed image with `twilight_util`'s `ImageSource::url`:
/// the contract claims what its source shows, that it takes exactly the URLs
/// that begin with `https:` or `http:`, and that its error reads
/// [`IMAGE_PROTOCOL_MSG`].
#[verifier::external_body]
fn image_source_url(url: &str) -> (res: Result<(), String>)
    ensures
        res is Ok <==> image_protocol_ok(url@),
        res matches Err(e) ==> e@ == IMAGE_PROTOCOL_MSG@,
{
    match twilight_util::builder::embed::ImageSource::url(url) {
        Ok(_) => Ok(()),
        Err(e) => Err(e.to_string()),
    }
}

/// The embed of a player's statistics, as plain values.
#[derive(Debug, Clone)]
pub struct StatsEmbed {
    pub title: String,
    pub image: String,
    pub color: Option<u32>,
    pub thumbnail: Option<String>,
    pub fields: Vec<(String, String)>,
}

} // verus!
