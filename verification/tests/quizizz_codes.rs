use pikadick::commands::quizizz::{
    guess_codes,
    random_start_code,
    reply_message,
    search_finished,
    start_code,
    take_guess,
    CodeCache,
    GuessOutcome,
    SearchReply,
    LIMIT_REACHED_MSG,
    MAX_CODE,
    MAX_TRIES,
};

#[test]
fn start_codes_stay_below_the_limit() {
    assert_eq!(start_code(1_000_000), 1);
    assert_eq!(start_code(999_998), 999_998);
    assert_eq!(start_code(u32::MAX), u32::MAX % 999_999);
    for _ in 0..100 {
        assert!(random_start_code() < MAX_CODE);
    }
}

#[test]
fn guesses_count_up_with_six_digits() {
    let codes = guess_codes(5);
    assert_eq!(codes.len(), MAX_TRIES);
    assert_eq!(codes[0], "000005");
    assert_eq!(codes[1], "000006");
    assert_eq!(codes[999], "001004");
    let codes = guess_codes(999_500);
    assert_eq!(codes[499], "999999");
    assert_eq!(codes[500], "1000000");
}

#[test]
fn guesses_wrap_around() {
    let codes = guess_codes(u32::MAX);
    assert_eq!(codes[0], "4294967295");
    assert_eq!(codes[1], "000000");
    assert_eq!(codes[2], "000001");
}

#[test]
fn cache_hands_out_oldest_first() {
    let mut cache = CodeCache::new();
    assert!(cache.is_empty());
    cache.push_at("222222".to_string(), 10);
    cache.push_at("111111".to_string(), 0);
    assert_eq!(cache.len(), 2);
    assert_eq!(cache.trim_pop_at(20).as_deref(), Some("111111"));
    assert_eq!(cache.trim_pop_at(20).as_deref(), Some("222222"));
    assert_eq!(cache.trim_pop_at(20), None);
}

#[test]
fn cache_ties_go_to_the_greater_code() {
    let mut cache = CodeCache::new();
    cache.push_at("100000".to_string(), 5);
    cache.push_at("300000".to_string(), 5);
    cache.push_at("200000".to_string(), 5);
    assert_eq!(cache.trim_pop_at(5).as_deref(), Some("300000"));
    assert_eq!(cache.trim_pop_at(5).as_deref(), Some("200000"));
    assert_eq!(cache.trim_pop_at(5).as_deref(), Some("100000"));
}

#[test]
fn cache_drops_codes_older_than_ten_minutes() {
    let ten_minutes: u64 = 600_000_000_000;
    let mut cache = CodeCache::new();
    cache.push_at("old".to_string(), 0);
    cache.push_at("edge".to_string(), 1);
    cache.push_at("new".to_string(), ten_minutes);
    cache.trim_at(ten_minutes + 1);
    assert_eq!(cache.len(), 2);
    assert_eq!(cache.trim_pop_at(ten_minutes + 1).as_deref(), Some("edge"));
    assert_eq!(cache.trim_pop_at(2 * ten_minutes + 1), None);
    assert!(cache.is_empty());
}

#[test]
fn cache_with_the_clock() {
    let mut cache = CodeCache::default();
    cache.push("123456".to_string());
    cache.trim();
    assert_eq!(cache.len(), 1);
    assert_eq!(cache.trim_pop().as_deref(), Some("123456"));
    assert_eq!(cache.trim_pop(), None);
}

#[test]
fn first_running_room_answers_and_later_ones_are_cached() {
    let mut cache = CodeCache::new();
    let (answered, reply) = take_guess(false, &mut cache, "000001".into(), GuessOutcome::NotFound);
    assert!(!answered);
    assert!(reply.is_none());
    let (answered, reply) = take_guess(answered, &mut cache, "000002".into(), GuessOutcome::NotRunning);
    assert!(!answered);
    assert!(reply.is_none());
    let (answered, reply) = take_guess(answered, &mut cache, "000003".into(), GuessOutcome::Running);
    assert!(answered);
    assert!(matches!(reply, Some(SearchReply::Found(ref c)) if c == "000003"));
    assert!(cache.is_empty());
    let (answered, reply) = take_guess(answered, &mut cache, "000004".into(), GuessOutcome::Running);
    assert!(answered);
    assert!(reply.is_none());
    assert_eq!(cache.len(), 1);
    let (_, reply) = take_guess(true, &mut cache, "000005".into(), GuessOutcome::Failed("boom".into()));
    assert!(reply.is_none());
    assert!(search_finished(true).is_none());
}

#[test]
fn first_error_answers_and_no_find_reaches_the_limit() {
    let mut cache = CodeCache::new();
    let (answered, reply) = take_guess(false, &mut cache, "000001".into(), GuessOutcome::Failed("boom".into()));
    assert!(answered);
    assert!(matches!(reply, Some(SearchReply::Failed(ref m)) if m == "boom"));
    assert!(matches!(search_finished(false), Some(SearchReply::LimitReached)));
}

#[test]
fn search_replies() {
    assert_eq!(
        reply_message(&SearchReply::Found("123456".into())),
        "Located quizizz code: 123456"
    );
    assert_eq!(reply_message(&SearchReply::LimitReached), LIMIT_REACHED_MSG);
    assert_eq!(
        reply_message(&SearchReply::LimitReached),
        "Reached limit while searching for quizizz code, quitting..."
    );
    assert_eq!(reply_message(&SearchReply::Failed("oops".into())), "oops");
}
