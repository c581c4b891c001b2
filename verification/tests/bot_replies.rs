use pikadick::commands::cmd::{
    list_text,
    parse_cmd_request,
    set_reply,
    status_to_str,
    CmdRequest,
    INVALID_ARG_MSG,
    INVALID_COMMAND_MSG,
};
use pikadick::commands::polldaddy::{
    check_answer,
    check_new_job,
    classify_input,
    info_reply,
    job_request_reply,
    spam_request,
    votes_sent_message,
    Job,
    JobError,
    JobRegistry,
    PollInput,
};
use pikadick::commands::shift::{
    bad_game_reply,
    code_reply,
    no_codes_reply,
    Game,
    GameArg,
    ShiftCodeText,
};
use pikadick::commands::tic_tac_toe::{
    board_file_name,
    concede_message,
    invalid_opponent_message,
    move_number_error_message,
    move_reply,
    new_game_file_name,
    parse_move_number,
    play_reply,
    MoveNumberError,
    AUTHOR_IN_GAME_MSG,
    NOT_YOUR_TURN_MSG,
};
use pikadick::commands::tiktok_embed::{
    calc_target_bitrate,
    embed_flag_changes,
    next_video_file_action,
    reencoded_file_name,
    reencoded_size_ok,
    select_encoder,
    video_file_name,
    Encoder,
    VideoFileAction,
};
use pikadick::database::model::{
    TicTacToeGame,
    TicTacToePlayer,
};
use pikadick::database::tic_tac_toe::{
    TicTacToeCreateGameError,
    TicTacToeTryMoveError,
    TicTacToeTryMoveResponse,
};
use pikadick::tic_tac_toe::{
    Board,
    Team,
};

#[test]
fn move_numbers() {
    assert_eq!(parse_move_number("1"), Ok(0));
    assert_eq!(parse_move_number("9"), Ok(8));
    assert_eq!(parse_move_number("+5"), Ok(4));
    assert_eq!(parse_move_number("0"), Err(MoveNumberError::OutOfRange));
    assert_eq!(parse_move_number("10"), Err(MoveNumberError::OutOfRange));
    assert_eq!(parse_move_number("255"), Err(MoveNumberError::OutOfRange));
    assert!(matches!(parse_move_number("256"), Err(MoveNumberError::NotANumber(_))));
    assert!(matches!(parse_move_number("x"), Err(MoveNumberError::NotANumber(_))));
    assert_eq!(
        move_number_error_message(&MoveNumberError::OutOfRange, 7),
        "Your move number must be between 1 and 9 <@7>"
    );
    assert_eq!(
        move_number_error_message(&MoveNumberError::NotANumber("bad".into()), 7),
        "That move is not a number: bad\nUse `tic-tac-toe play <computer/@user> <X/O> to start a game.`"
    );
}

#[test]
fn move_replies() {
    let game = TicTacToeGame::new(TicTacToePlayer::User(1), TicTacToePlayer::User(2));
    let won = Ok(TicTacToeTryMoveResponse::Winner {
        game,
        winner: TicTacToePlayer::User(1),
        loser: TicTacToePlayer::User(2),
    });
    let reply = move_reply(&won, 1);
    assert_eq!(reply.text, "<@1> has triumphed over <@2> in Tic-Tac-Toe");
    assert!(reply.board.is_some());

    let tie = Ok(TicTacToeTryMoveResponse::Tie { game });
    assert_eq!(move_reply(&tie, 1).text, "<@1> has tied with <@2> in Tic-Tac-Toe");

    let next = Ok(TicTacToeTryMoveResponse::NextTurn { game });
    assert_eq!(move_reply(&next, 2).text, "Your turn <@1>");

    let refused: Result<TicTacToeTryMoveResponse, TicTacToeTryMoveError> =
        Err(TicTacToeTryMoveError::InvalidTurn);
    let reply = move_reply(&refused, 2);
    assert_eq!(reply.text, NOT_YOUR_TURN_MSG);
    assert!(reply.board.is_none());
    assert_eq!(
        move_reply(&Err(TicTacToeTryMoveError::InvalidMove), 3).text,
        "Invalid move <@3>. Please choose one of the available squares.\n"
    );
    assert_eq!(
        move_reply(&Err(TicTacToeTryMoveError::NotInAGame), 3).text,
        "No games in progress. Make one with `tic-tac-toe play <computer/@user> <X/O>`."
    );
    assert_eq!(
        move_reply(&Err(TicTacToeTryMoveError::Database("x".into())), 3).text,
        "database error"
    );
}

#[test]
fn play_replies() {
    let game = TicTacToeGame::new(TicTacToePlayer::User(1), TicTacToePlayer::User(2));
    let ok: Result<TicTacToeGame, TicTacToeCreateGameError> = Ok(game);
    assert_eq!(
        play_reply(&ok, 1, Team::X, TicTacToePlayer::User(2)).text,
        "Game created! Your turn <@1>"
    );
    assert_eq!(
        play_reply(&ok, 1, Team::O, TicTacToePlayer::User(2)).text,
        "Game created! Your turn <@2>"
    );
    assert_eq!(
        play_reply(&ok, 1, Team::O, TicTacToePlayer::Computer).text,
        "Game created! Your turn <@1>"
    );
    assert_eq!(
        play_reply(&Err(TicTacToeCreateGameError::AuthorInGame), 1, Team::X, TicTacToePlayer::Computer).text,
        AUTHOR_IN_GAME_MSG
    );
    assert_eq!(
        play_reply(&Err(TicTacToeCreateGameError::OpponentInGame), 1, Team::X, TicTacToePlayer::Computer).text,
        "Your opponent is currently in another game in this server. Wait for them to finish."
    );
    assert_eq!(
        invalid_opponent_message(),
        "Invalid opponent. Choose 'computer' or '@user'. Error: invalid player"
    );
}

#[test]
fn concessions_and_file_names() {
    let game = TicTacToeGame::new(TicTacToePlayer::User(1), TicTacToePlayer::Computer);
    assert_eq!(concede_message(&game, 1).as_deref(), Some("<@1> has conceded to computer."));
    assert_eq!(concede_message(&game, 5), None);
    let board = Board::new().set(0, Some(Team::X)).set(1, Some(Team::O));
    assert_eq!(board_file_name(&board), "ttt-7.png");
    assert_eq!(new_game_file_name(&board), "7.png");
    assert_eq!(board_file_name(&Board::new()), "ttt-0.png");
}

#[test]
fn polldaddy_jobs() {
    let mut job = Job::new(11, 3, 42);
    assert_eq!(job.quiz_id(), 11);
    assert_eq!(job.answer_count(), 3);
    assert_eq!(job.user(), 42);
    assert!(!job.in_progress());
    assert_eq!(job.get_votes_remaining(), 100);
    assert_eq!(job.get_estimated_time_remaining(), 1000);
    assert_eq!(
        job.info_text(),
        "**Job Info**\nVotes sent: 0\nEstimated time remaining: 16:40\n\n"
    );
    assert!(!job.expired_after(600_000_000_000));
    assert!(job.expired_after(600_000_000_001));
    assert!(!job.expired());
    job.start();
    assert!(job.in_progress());
    job.record_vote(Some("1) yes | 3 votes | 100%".into()));
    job.record_vote(None);
    assert_eq!(job.get_votes_remaining(), 98);
    assert_eq!(
        job.info_text(),
        "**Job Info**\nVotes sent: 2\nEstimated time remaining: 16:20\n\n1) yes | 3 votes | 100%\n"
    );
    for _ in 0..97 {
        job.record_vote(None);
    }
    assert_eq!(job.get_estimated_time_remaining(), 10);
    assert_eq!(
        job.info_text(),
        "**Job Info**\nVotes sent: 99\nEstimated time remaining: 00:10\n\n1) yes | 3 votes | 100%\n"
    );
}

#[test]
fn polldaddy_requests() {
    assert_eq!(check_new_job(Some(5), None), Err(JobError::QuotaUsed(5)));
    assert_eq!(check_new_job(Some(5), Some(false)), Err(JobError::QuotaUsed(5)));
    assert_eq!(check_new_job(None, Some(false)), Err(JobError::Occupied));
    assert_eq!(check_new_job(None, Some(true)), Ok(()));
    assert_eq!(check_new_job(None, None), Ok(()));
    assert_eq!(classify_input("3", false), PollInput::Answer(3));
    assert_eq!(classify_input("3", true), PollInput::Both);
    assert_eq!(classify_input("https://x", true), PollInput::Url);
    assert_eq!(classify_input("nope", false), PollInput::Neither);
    assert_eq!(check_answer(2, 3), Ok(1));
    assert_eq!(check_answer(3, 3), Ok(2));
    assert_eq!(
        check_answer(0, 3),
        Err("Invalid Option. Choose an option from 1 to 3".to_string())
    );
    assert_eq!(
        check_answer(4, 3),
        Err("Invalid Option. Choose an option from 1 to 3".to_string())
    );
    assert_eq!(
        job_request_reply(Ok(())),
        "Use `polldaddy <option_number>` to select an answer."
    );
    assert_eq!(
        job_request_reply(Err(JobError::QuotaUsed(1))),
        "You have reached your quota; wait for your jobs to finish"
    );
    assert_eq!(votes_sent_message(), "Sent 100 votes");
}

#[test]
fn command_switches() {
    let names: Vec<String> = vec!["ping".into(), "uwuify".into()];
    assert_eq!(
        parse_cmd_request("disable", "ping", &names),
        CmdRequest::Apply { disable: true, name: "ping".into() }
    );
    assert_eq!(
        parse_cmd_request("enable", "uwuify", &names),
        CmdRequest::Apply { disable: false, name: "uwuify".into() }
    );
    assert_eq!(parse_cmd_request("toggle", "ping", &names), CmdRequest::Refuse(INVALID_ARG_MSG));
    assert_eq!(parse_cmd_request("enable", "pong", &names), CmdRequest::Refuse(INVALID_COMMAND_MSG));
    assert_eq!(status_to_str(true), "disabled");
    assert_eq!(status_to_str(false), "enabled");
    assert_eq!(set_reply("ping", Ok(true)), "Command 'ping' disabled.");
    assert_eq!(set_reply("ping", Err(())), "Failed to disable command 'ping' ");
    assert_eq!(
        list_text(&vec![("ping".to_string(), true), ("uwuify".to_string(), false)]),
        "Commands:\nping: **DISABLED**\nuwuify: **ENABLED**\n"
    );
    assert_eq!(list_text(&vec![]), "Commands:\n");
}

#[test]
fn shift_games() {
    assert_eq!(GameArg::from_str("bl").unwrap().0, Game::Borderlands);
    assert_eq!(GameArg::from_str("bl2").unwrap().0, Game::Borderlands2);
    assert_eq!(GameArg::from_str("blps").unwrap().0, Game::BorderlandsPreSequel);
    assert_eq!(GameArg::from_str("bl3").unwrap().0, Game::Borderlands3);
    assert_eq!(GameArg::from_str("bl4").unwrap_err().0, "bl4");
    assert_eq!(bad_game_reply(Some("bl4")), "Invalid arg 'bl4'. Valid: bl, bl2, blps, bl3");
    assert_eq!(bad_game_reply(None), "Need arg. Valid: bl, bl2, blps, bl3");
    assert_eq!(no_codes_reply(Game::BorderlandsPreSequel), "No valid codes for BorderlandsPreSequel");
    let code = ShiftCodeText {
        source: "orcz".into(),
        issue_date: None,
        rewards: "5 keys".into(),
        pc: "AAAAA-BBBBB".into(),
    };
    assert_eq!(
        code_reply(&code),
        "Source: orcz\nIssue Date: unknown\nReward: 5 keys\nCode: AAAAA-BBBBB"
    );
}

#[test]
fn tiktok_video_steps() {
    assert_eq!(calc_target_bitrate(56_000, 7), 8_000);
    assert_eq!(next_video_file_action(true, None, 0), VideoFileAction::UseReencoded);
    assert_eq!(next_video_file_action(false, None, 0), VideoFileAction::Download);
    assert_eq!(next_video_file_action(false, Some(8_000_000), 0), VideoFileAction::UseOriginal);
    assert_eq!(next_video_file_action(false, Some(8_000_001), 10), VideoFileAction::Reencode(5_600));
    assert!(reencoded_size_ok(7_999_999));
    assert!(!reencoded_size_ok(8_000_000));
    assert_eq!(video_file_name("123", "mp4"), "123.mp4");
    assert_eq!(reencoded_file_name("123"), "123-reencoded.mp4");
    let (set, unset) = embed_flag_changes(Some(true), Some(false));
    assert_eq!((set.bits(), unset.bits()), (1, 2));
    let (set, unset) = embed_flag_changes(None, Some(true));
    assert_eq!((set.bits(), unset.bits()), (2, 0));
}

#[test]
fn encoder_choice() {
    let enc = |name: &str, desc: &str| Encoder { name: name.into(), description: desc.into() };
    let encoders = vec![
        enc("libx264", "libx264 H.264 (codec h264)"),
        enc("h264_qsv", "H.264 QSV (codec h264)"),
        enc("h264_nvenc", "NVENC (codec hevc)"),
    ];
    assert_eq!(select_encoder(&encoders), Some("h264_qsv"));
    assert_eq!(select_encoder(&vec![enc("mpeg4", "MPEG-4 (codec mpeg4)")]), None);
    assert_eq!(select_encoder(&vec![]), None);
}

#[test]
fn polldaddy_spam_requests() {
    assert_eq!(
        spam_request(None, 1),
        Err("You do not have a job yet, use `polldaddy <url>` to start.".to_string())
    );
    let mut job = Job::new(1, 2, 3);
    assert_eq!(spam_request(Some(&job), 2), Ok(1));
    assert_eq!(
        spam_request(Some(&job), 3),
        Err("Invalid Option. Choose an option from 1 to 2".to_string())
    );
    job.start();
    assert_eq!(
        spam_request(Some(&job), 1),
        Err("You have already started a job. Use `polldaddy info` to view the progress.".to_string())
    );
    assert_eq!(info_reply(None), "You have no running jobs.");
    assert_eq!(
        info_reply(Some(&job)),
        "**Job Info**\nVotes sent: 0\nEstimated time remaining: 16:40\n\n"
    );
}

#[test]
fn polldaddy_job_registry() {
    let mut registry = JobRegistry::new();
    assert!(registry.get_job_by_user(7).is_none());
    assert!(!registry.start_job_of(7));
    assert!(!registry.record_vote_of(7, None));
    assert!(registry.remove_job_by_user(7).is_none());

    assert_eq!(registry.insert_job_given(11, 3, 7, false), Ok(()));
    let job = registry.get_job_by_user(7).unwrap();
    assert_eq!(job.quiz_id(), 11);
    assert_eq!(job.answer_count(), 3);
    assert_eq!(job.user(), 7);
    assert!(!job.in_progress());

    // One job per user, whatever the quiz.
    assert_eq!(
        registry.insert_job_given(12, 2, 7, true),
        Err(JobError::QuotaUsed(11))
    );
    // One live job per quiz.
    assert_eq!(
        registry.insert_job_given(11, 3, 8, false),
        Err(JobError::Occupied)
    );
    assert!(registry.get_job_by_user(8).is_none());

    assert!(registry.start_job_of(7));
    assert!(registry.record_vote_of(7, Some("1) yes | 1 votes | 100%".to_string())));
    let job = registry.get_job_by_user(7).unwrap();
    assert!(job.in_progress());
    assert_eq!(job.get_votes_remaining(), 99);

    // A quiz whose job has expired takes a new one, which replaces it.
    assert_eq!(registry.insert_job_given(11, 4, 8, true), Ok(()));
    assert_eq!(registry.get_job_by_user(8).unwrap().answer_count(), 4);

    let (id, removed) = registry.remove_job_by_user(8).unwrap();
    assert_eq!(id, 11);
    assert_eq!(removed.user(), 8);
    assert!(registry.get_job_by_user(8).is_none());
    // The first user's entry names a quiz whose job is gone.
    assert!(registry.get_job_by_user(7).is_none());
    assert!(registry.remove_job_by_user(7).is_none());

    // With nothing running, the clock decides nothing.
    assert_eq!(registry.insert_job(20, 2, 9), Ok(()));
    assert_eq!(registry.insert_job(21, 2, 9), Err(JobError::QuotaUsed(20)));
    assert_eq!(registry.insert_job(20, 2, 10), Err(JobError::Occupied));
}
