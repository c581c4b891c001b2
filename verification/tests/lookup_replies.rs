use pikadick::commands::deviantart::{
    choice_reply,
    deviation_candidates,
    random_result_reply,
    search_failed_reply,
    Deviation,
    MISSING_URL_MSG,
    NO_RESULTS_MSG,
};
use pikadick::commands::fml::{
    fetch_failed_reply,
    reactions_text,
    should_repopulate,
    CACHE_EMPTY_MSG,
};
use pikadick::commands::r6tracker::{
    Season,
    Stats,
};
use pikadick::commands::rule34::{
    list_reply,
    Rule34Options,
};
use pikadick::commands::sauce_nao::{
    no_results_reply,
    sauce_embed,
    SauceMatch,
};
use pikadick::commands::urban::{
    entry_fields,
    UrbanEntry,
    NO_RESULTS_MSG as URBAN_NO_RESULTS_MSG,
};

fn pairs(v: &[(&str, &str)]) -> Vec<(String, String)> {
    v.iter().map(|(a, b)| (a.to_string(), b.to_string())).collect()
}

#[test]
fn deviantart_candidates_and_replies() {
    let results = vec![
        Deviation::Other,
        Deviation::Image { download_url: None, fullview_url: Some("full".into()) },
        Deviation::Film { best_video_url: None },
        Deviation::Image { download_url: Some("dl".into()), fullview_url: Some("full2".into()) },
    ];
    assert_eq!(
        deviation_candidates(&results),
        vec![Some("full".to_string()), None, Some("dl".to_string())]
    );
    assert_eq!(choice_reply(Some(Some("u".into()))), "u");
    assert_eq!(choice_reply(Some(None)), MISSING_URL_MSG);
    assert_eq!(choice_reply(None), NO_RESULTS_MSG);
    assert_eq!(random_result_reply(&vec![Deviation::Other]), "No Results");
    let reply = random_result_reply(&results);
    assert!(reply == "full" || reply == "dl" || reply == "Missing url. This is probably a bug.");
    let one = vec![Deviation::Film { best_video_url: Some("vid".into()) }];
    assert_eq!(random_result_reply(&one), "vid");
    assert_eq!(search_failed_reply("sun", "timeout"), "Failed to search 'sun': timeout");
}

#[test]
fn sauce_nao_embed() {
    let m = SauceMatch {
        thumbnail: "thumb".into(),
        ext_url: Some("https://e".into()),
        source: None,
        eng_name: Some("Name".into()),
        jp_name: Some("名前".into()),
    };
    let e = sauce_embed(&m);
    assert_eq!(e.title, "SauceNao Best Match");
    assert_eq!(e.image, "thumb");
    assert_eq!(e.url.as_deref(), Some("https://e"));
    assert_eq!(e.fields, pairs(&[("English Name", "Name"), ("Jap Name", "名前")]));
    assert_eq!(no_results_reply("x"), "No results on SauceNao for \"x\"");
}

#[test]
fn fml_texts() {
    assert!(should_repopulate(49));
    assert!(!should_repopulate(50));
    assert_eq!(reactions_text(1, 2, 3, 4), "😐 1\n\n😃 2\n\n😲 3\n\n😂 4");
    assert_eq!(fetch_failed_reply("down"), "Failed to get fml entry: down");
    assert_eq!(CACHE_EMPTY_MSG, "Failed to get fml entry: Cache Empty");
}

#[test]
fn urban_fields() {
    let e = UrbanEntry {
        word: "w".into(),
        permalink: "p".into(),
        definition: "d".into(),
        example: "x".into(),
        thumbs_up: 10,
        thumbs_down: 2,
    };
    assert_eq!(
        entry_fields(&e),
        pairs(&[("Definition", "d"), ("Example", "x"), ("👍", "10"), ("👎", "2")])
    );
    assert_eq!(URBAN_NO_RESULTS_MSG, "No results");
}

fn season(rank: &str, mmr: u64) -> Season {
    Season {
        rank_name: rank.into(),
        mmr,
        kd: "1.20".into(),
        win_pct: "55.5".into(),
        matches: 30,
    }
}

fn stats() -> Stats {
    Stats {
        name: "Pengu".into(),
        avatar: "a".into(),
        current_ranked: Some(season("Gold", 2700)),
        current_casual: None,
        max_season: None,
        profile_max_season: Some((None, Some("Platinum".into()))),
        lifetime_best: Some((3000, "Diamond".into())),
        lifetime_ranked_kd: Some("1.10".into()),
        lifetime_ranked_win_pct: None,
        lifetime_kd: "1.05".into(),
        lifetime_win_pct: "50.1".into(),
        season_color: None,
        rank_thumbnail: None,
    }
}

#[test]
fn r6tracker_best_values_fall_back_in_order() {
    let s = stats();
    assert_eq!(s.best_mmr(), Some(3000));
    assert_eq!(s.best_rank().as_deref(), Some("Platinum"));
    let mut s2 = stats();
    s2.max_season = Some((3500, "Champion".into()));
    assert_eq!(s2.best_mmr(), Some(3500));
    assert_eq!(s2.best_rank().as_deref(), Some("Champion"));
    let mut s3 = stats();
    s3.profile_max_season = None;
    s3.lifetime_best = None;
    assert_eq!(s3.best_mmr(), None);
    assert_eq!(s3.best_rank(), None);
}

#[test]
fn r6tracker_embed_head() {
    let mut s = stats();
    assert_eq!(s.embed_title(), "Pengu");
    assert_eq!(s.embed_image(), "a");
    assert_eq!(s.embed_color(), None);
    assert_eq!(s.embed_thumbnail(), None);
    s.season_color = Some(0xff0000);
    s.rank_thumbnail = Some("https://r/gold.png".into());
    // "a" is no URL that Discord takes as an image.
    assert_eq!(
        s.create_embed().unwrap_err(),
        "the provided URL's protocol is unsupported by Discord"
    );
    s.avatar = "https://a/pengu.png".into();
    let e = s.create_embed().unwrap();
    assert_eq!(e.title, "Pengu");
    assert_eq!(e.image, "https://a/pengu.png");
    assert_eq!(e.color, Some(0xff0000));
    assert_eq!(e.thumbnail.as_deref(), Some("https://r/gold.png"));
    assert_eq!(e.fields, s.embed_fields());
    s.rank_thumbnail = Some("ftp://r/gold.png".into());
    assert_eq!(
        s.create_embed().unwrap_err(),
        "the provided URL's protocol is unsupported by Discord"
    );
    s.rank_thumbnail = Some("http://r/gold.png".into());
    assert_eq!(s.create_embed().unwrap().thumbnail.as_deref(), Some("http://r/gold.png"));
}

#[test]
fn r6tracker_embed_fields() {
    assert_eq!(
        stats().embed_fields(),
        pairs(&[
            ("Current Rank", "Gold"),
            ("Current MMR", "2700"),
            ("Seasonal Ranked K/D", "1.20"),
            ("Seasonal Ranked Win %", "55.5"),
            ("Seasonal # of Ranked Matches", "30"),
            ("Best MMR", "3000"),
            ("Best Rank", "Platinum"),
            ("Lifetime Ranked K/D", "1.10"),
            ("Lifetime K/D", "1.05"),
            ("Lifetime Win %", "50.1"),
        ])
    );
}

#[test]
fn rule34_replies() {
    let options = Rule34Options { query: "cat".into() };
    assert_eq!(list_reply(&vec![], &options.query), "No results for \"cat\"");
    assert_eq!(list_reply(&vec!["https://f/1.png".to_string()], "cat"), "https://f/1.png");
    let urls = vec!["a".to_string(), "b".to_string()];
    let r = list_reply(&urls, "cat");
    assert!(r == "a" || r == "b");
}
