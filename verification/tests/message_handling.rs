use pikadick::commands::chat::{
    chat_action,
    player_not_found_message,
    ChatAction,
    Options,
};
use pikadick::commands::reddit_embed::{
    embed_setting_reply,
    link_embed,
    parse_enable_arg,
    parse_post_url,
    post_from_path,
    LinkEmbed,
};
use pikadick::config::{
    ActivityKind,
    Config,
    DeviantArtConfig,
    FmlConfig,
    LogConfig,
    StatusConfig,
};
use pikadick::database::model::TikTokEmbedFlags;
use pikadick::handler::{
    after_embed_posted,
    config_activity,
    dispatch_error_message,
    link_site,
    plan_embeds,
    unknown_command_message,
    Activity,
    DispatchProblem,
    EmbedJob,
    LinkSite,
};

fn pair(a: &str, b: &str) -> Option<(String, String)> {
    Some((a.to_string(), b.to_string()))
}

#[test]
fn reddit_post_urls() {
    assert_eq!(
        parse_post_url("https://www.reddit.com/r/dankmemes/comments/h966lq/davie_is_shookt/"),
        pair("dankmemes", "h966lq")
    );
    assert_eq!(
        parse_post_url("https://reddit.com/r/rust/comments/abc"),
        pair("rust", "abc")
    );
    assert_eq!(parse_post_url("https://www.reddit.com/r/dankmemes/"), None);
    assert_eq!(parse_post_url("https://www.reddit.com/user/x/comments/y"), None);
    assert_eq!(parse_post_url("not a url"), None);
    assert_eq!(parse_post_url("mailto:someone@example.com"), None);
}

#[test]
fn reddit_post_paths() {
    assert_eq!(post_from_path("/r/a/comments/b"), pair("a", "b"));
    assert_eq!(post_from_path("/r/a/comments/b/title/"), pair("a", "b"));
    assert_eq!(post_from_path("/r//comments/"), pair("", ""));
    assert_eq!(post_from_path("/r/a/comment/b"), None);
    assert_eq!(post_from_path("r/a/comments/b"), None);
    assert_eq!(post_from_path("/r/a/comments"), None);
    assert_eq!(post_from_path(""), None);
}

#[test]
fn reddit_link_embeds() {
    assert_eq!(
        link_embed("/r/a/comments/b/t/", false, true, "https://v.redd.it/x"),
        LinkEmbed::Url("https://www.reddit.com/r/a/comments/b/t/".into())
    );
    assert_eq!(
        link_embed("/r/a/comments/b/t/", true, true, "https://v.redd.it/x"),
        LinkEmbed::VideoOf("https://www.reddit.com/r/a/comments/b/t/".into())
    );
    assert_eq!(
        link_embed("/r/a/comments/b/t/", true, false, "https://i.redd.it/x.png"),
        LinkEmbed::Url("https://i.redd.it/x.png".into())
    );
}

#[test]
fn reddit_embed_setting() {
    assert_eq!(parse_enable_arg("enable"), Ok(true));
    assert_eq!(parse_enable_arg("disable"), Ok(false));
    assert_eq!(
        parse_enable_arg("on"),
        Err("The argument 'on' is not recognized. Valid: enable, disable".to_string())
    );
    assert_eq!(
        embed_setting_reply(true, true),
        "Reddit embeds are already enabled for this server"
    );
    assert_eq!(
        embed_setting_reply(false, true),
        "Reddit embeds are now disabled for this guild"
    );
}

#[test]
fn link_sites() {
    assert_eq!(link_site("https://www.reddit.com/r/x"), Some(LinkSite::Reddit));
    assert_eq!(link_site("https://reddit.com/"), Some(LinkSite::Reddit));
    assert_eq!(link_site("https://vm.tiktok.com/abc/"), Some(LinkSite::TikTok));
    assert_eq!(link_site("https://www.tiktok.com/@a/video/1"), Some(LinkSite::TikTok));
    assert_eq!(link_site("https://old.reddit.com/r/x"), None);
    assert_eq!(link_site("https://127.0.0.1/"), None);
    assert_eq!(link_site("nonsense"), None);
}

#[test]
fn embeds_planned_for_enabled_sites() {
    let urls: Vec<String> = vec![
        "https://www.reddit.com/r/a/comments/b".into(),
        "https://example.com/".into(),
        "https://tiktok.com/@a/video/1".into(),
    ];
    let mut flags = TikTokEmbedFlags::empty();
    flags.insert(TikTokEmbedFlags::enabled());
    assert_eq!(
        plan_embeds(true, false, true, flags, &urls),
        vec![EmbedJob::Reddit(0), EmbedJob::TikTok(2, false)]
    );
    assert_eq!(
        plan_embeds(true, false, true, TikTokEmbedFlags::all(), &urls),
        vec![EmbedJob::Reddit(0), EmbedJob::TikTok(2, true)]
    );
    assert_eq!(
        plan_embeds(true, false, false, TikTokEmbedFlags::delete_link(), &urls),
        vec![]
    );
    assert_eq!(plan_embeds(false, false, true, flags, &urls), vec![]);
    assert_eq!(plan_embeds(true, true, true, flags, &urls), vec![]);
}

#[test]
fn dispatch_errors() {
    assert_eq!(
        dispatch_error_message(&DispatchProblem::Ratelimited(5)),
        "Wait 5 seconds to use that command again"
    );
    assert_eq!(
        dispatch_error_message(&DispatchProblem::NotEnoughArguments { min: 2, given: 1 }),
        "Expected at least 2 argument(s) for this command, but only got 1"
    );
    assert_eq!(
        dispatch_error_message(&DispatchProblem::TooManyArguments { max: 1, given: 3 }),
        "Expected no more than 1 argument(s) for this command, but got 3. Try using quotation marks if your argument has spaces."
    );
    assert_eq!(
        dispatch_error_message(&DispatchProblem::CheckFailedForUser("not an admin".into())),
        "not an admin"
    );
    assert_eq!(
        dispatch_error_message(&DispatchProblem::CheckFailed {
            check: "Enabled".into(),
            reason: "Unknown".into()
        }),
        "\"Enabled\" check failed: Unknown"
    );
    assert_eq!(
        dispatch_error_message(&DispatchProblem::Other("OnlyForDM".into())),
        "Unhandled Dispatch Error: OnlyForDM"
    );
    assert_eq!(unknown_command_message("pong"), "Could not find command \"pong\"");
}

fn config_with(status: Option<StatusConfig>) -> Config {
    Config {
        token: "a.b.c".into(),
        application_id: 1,
        prefix: "p!".into(),
        status,
        data_dir: "data".into(),
        test_guild: None,
        fml: FmlConfig { key: String::new() },
        deviantart: DeviantArtConfig {
            username: String::new(),
            password: String::new(),
        },
        log: LogConfig::default(),
    }
}

#[test]
fn activity_from_config() {
    assert_eq!(config_activity(&config_with(None)), None);
    let listening = config_with(Some(StatusConfig {
        kind: Some(ActivityKind::Listening),
        name: "music".into(),
        url: None,
    }));
    assert_eq!(
        config_activity(&listening),
        Some(Activity::Listening("music".into()))
    );
    let streaming = config_with(Some(StatusConfig {
        kind: Some(ActivityKind::Streaming),
        name: "live".into(),
        url: Some("https://twitch.tv/x".into()),
    }));
    assert_eq!(
        config_activity(&streaming),
        Some(Activity::Streaming("live".into(), Some("https://twitch.tv/x".into())))
    );
    let untyped = config_with(Some(StatusConfig {
        kind: None,
        name: "x".into(),
        url: None,
    }));
    assert_eq!(config_activity(&untyped), None);
}

#[test]
fn chat_replies() {
    let options = Options { message: "hi".into() };
    assert_eq!(options.message, "hi");
    assert!(matches!(chat_action("!r6tracker Pengu"), ChatAction::LookUpR6Tracker(ref n) if n == "Pengu"));
    assert!(matches!(chat_action("!r6tracker  two words"), ChatAction::LookUpR6Tracker(ref n) if n == " two words"));
    assert!(matches!(chat_action("!r6tracker"), ChatAction::Reply(ref t) if t == "!r6tracker"));
    assert!(matches!(chat_action("!r6trackers x"), ChatAction::Reply(ref t) if t == "!r6trackers x"));
    assert!(matches!(chat_action("hello there"), ChatAction::Reply(ref t) if t == "hello there"));
    assert_eq!(player_not_found_message("Pengu"), "User \"Pengu\" was not found");
}

#[test]
fn after_embeds() {
    assert_eq!(after_embed_posted(true, EmbedJob::TikTok(0, true)), (true, true));
    assert_eq!(after_embed_posted(true, EmbedJob::TikTok(0, false)), (true, false));
    assert_eq!(after_embed_posted(false, EmbedJob::TikTok(0, true)), (false, false));
    assert_eq!(after_embed_posted(true, EmbedJob::Reddit(1)), (true, false));
}
