use pikadick::commands::polldaddy::{
    format_html_response,
    format_quiz,
    QuizText,
    VoteResultsText,
};
use pikadick::commands::reddit_embed::{
    listing_posts,
    posts_are_fresh,
    random_post_embed,
    LinkEmbed,
    LinkInfo,
    ListedLink,
};

fn link(name: &str, over_18: bool, video: bool) -> LinkInfo {
    LinkInfo {
        permalink: format!("/r/x/comments/{name}/"),
        over_18,
        hosted_video: video,
        url: format!("https://i.redd.it/{name}.png"),
    }
}

#[test]
fn quiz_description() {
    let quiz = QuizText {
        id: 42,
        hash: "abc".into(),
        closed: false,
        referer: "https://poll".into(),
        va: "7".into(),
        answers: vec![("Yes".into(), "100".into()), ("No".into(), "101".into())],
    };
    assert_eq!(
        format_quiz(&quiz),
        "\nQuiz\nQuiz Id: 42\nQuiz Hash: abc\nQuiz Closed: false\nQuiz Referer: https://poll\nQuiz Va: 7\n\nAnswers: \n1) Yes | Code 100\n2) No | Code 101\n\n"
    );
}

#[test]
fn vote_results_description() {
    let results = VoteResultsText {
        answers: vec![
            Ok(("Yes".into(), "3".into(), "75".into())),
            Err("BadNumber".into()),
        ],
        total_votes: "4".into(),
    };
    assert_eq!(
        format_html_response(&results),
        "1) Yes | 3 votes | 75%\n2) Failed to parse, got error: BadNumber\n\nTotal Votes: 4 votes\n"
    );
}

#[test]
fn subreddit_posts() {
    let listing = vec![
        ListedLink { link: link("a", false, false), crosspost_parents: None },
        ListedLink { link: link("b", false, false), crosspost_parents: Some(vec![]) },
        ListedLink {
            link: link("c", false, false),
            crosspost_parents: Some(vec![link("d", true, true), link("e", false, false)]),
        },
    ];
    let posts = listing_posts(&listing);
    let names: Vec<&str> = posts.iter().map(|p| p.permalink.as_str()).collect();
    assert_eq!(names, vec!["/r/x/comments/a/", "/r/x/comments/d/"]);
    assert!(posts[1].over_18 && posts[1].hosted_video);
    assert!(random_post_embed(&vec![]).is_none());
    assert_eq!(
        random_post_embed(&vec![link("d", true, true)]),
        Some(LinkEmbed::VideoOf("https://www.reddit.com/r/x/comments/d/".into()))
    );
    assert_eq!(
        random_post_embed(&vec![link("f", true, false)]),
        Some(LinkEmbed::Url("https://i.redd.it/f.png".into()))
    );
    assert!(posts_are_fresh(600_000_000_000));
    assert!(!posts_are_fresh(600_000_000_001));
}
