use pikadick::config::{
    count_validation_errors,
    default_prefix,
    ActivityKind,
    Config,
    DeviantArtConfig,
    FmlConfig,
    LogConfig,
    Severity,
    StatusConfig,
    ValidationError,
    ValidationMessage,
};
use pikadick::database::model::{
    user_id_from_sql,
    FromSqlError,
    MaybeGuildString,
    SqlValue,
    TicTacToePlayer,
    TicTacToePlayerParseError,
    TikTokEmbedFlags,
};

fn config(token: &str, status: Option<StatusConfig>) -> Config {
    Config {
        token: token.into(),
        application_id: 1,
        prefix: default_prefix(),
        status,
        data_dir: "data".into(),
        test_guild: None,
        fml: FmlConfig { key: String::new() },
        deviantart: DeviantArtConfig {
            username: String::new(),
            password: String::new(),
        },
        log: LogConfig::default(),
    }
}

fn findings(messages: &[ValidationMessage]) -> Vec<(Severity, String)> {
    messages
        .iter()
        .map(|m| (m.severity(), m.error().message()))
        .collect()
}

#[test]
fn defaults() {
    assert_eq!(default_prefix(), "p!");
    assert_eq!(ActivityKind::default(), ActivityKind::Playing);
    assert_eq!(
        LogConfig::default_directives(),
        vec!["pikadick=info".to_string(), "serenity::framework::standard=info".to_string()]
    );
    let log = LogConfig::default();
    assert!(!log.use_opentelemetry);
    assert!(log.endpoint.is_none());
    assert!(log.headers.is_empty());
}

#[test]
fn valid_config_has_no_findings() {
    let mut c = config("abc.def.ghi", None);
    let messages = c.validate();
    assert!(messages.is_empty());
    assert_eq!(count_validation_errors(&messages), 0);
    let mut c = config("Bot abc.def.ghi", None);
    assert!(c.validate().is_empty());
}

#[test]
fn invalid_tokens_are_errors() {
    for token in ["", "abc", "a.b", "a.b.c.d", "a..c", ".b.c", "a.b."] {
        let mut c = config(token, None);
        let messages = c.validate();
        assert_eq!(
            findings(&messages),
            vec![(Severity::Error, "invalid token".to_string())],
            "{}",
            token
        );
        assert_eq!(count_validation_errors(&messages), 1);
    }
}

#[test]
fn status_findings() {
    let mut c = config(
        "a.b.c",
        Some(StatusConfig {
            kind: Some(ActivityKind::Streaming),
            name: "live".into(),
            url: None,
        }),
    );
    let messages = c.validate();
    assert_eq!(
        findings(&messages),
        vec![(Severity::Error, "missing stream url type".to_string())]
    );
    assert_eq!(c.status_name(), Some("live"));
    assert_eq!(c.status_url(), None);
    assert_eq!(c.status_type(), Some(ActivityKind::Streaming));

    let mut c = config(
        "bad",
        Some(StatusConfig {
            kind: None,
            name: "x".into(),
            url: Some("https://example.com".into()),
        }),
    );
    let messages = c.validate();
    assert_eq!(
        findings(&messages),
        vec![
            (Severity::Error, "invalid token".to_string()),
            (Severity::Warn, "missing status type".to_string()),
        ]
    );
    assert_eq!(count_validation_errors(&messages), 1);
    assert_eq!(c.status_url(), Some("https://example.com"));
}

#[test]
fn validation_message_parts() {
    let m = ValidationMessage::new(Severity::Warn, ValidationError::Generic("custom".into()));
    assert_eq!(m.severity(), Severity::Warn);
    assert_eq!(m.error().message(), "custom");
}

#[test]
fn players_from_text() {
    assert_eq!(TicTacToePlayer::from_str("computer"), Ok(TicTacToePlayer::Computer));
    assert_eq!(TicTacToePlayer::from_str("CoMpUtEr"), Ok(TicTacToePlayer::Computer));
    assert_eq!(TicTacToePlayer::from_str("<@123>"), Ok(TicTacToePlayer::User(123)));
    assert_eq!(TicTacToePlayer::from_str("<@!456>"), Ok(TicTacToePlayer::User(456)));
    assert_eq!(TicTacToePlayer::from_str("789"), Ok(TicTacToePlayer::User(789)));
    assert_eq!(TicTacToePlayer::from_str("+7"), Ok(TicTacToePlayer::User(7)));
    assert_eq!(TicTacToePlayer::from_str("abc"), Err(TicTacToePlayerParseError));
    assert_eq!(TicTacToePlayer::from_str(""), Err(TicTacToePlayerParseError));
}

#[test]
fn players_parsed_from_any_text() {
    assert_eq!(TicTacToePlayer::parse("COMPUTER"), Ok(TicTacToePlayer::Computer));
    assert_eq!(TicTacToePlayer::parse("<@123>"), Ok(TicTacToePlayer::User(123)));
    assert_eq!(TicTacToePlayer::parse("42"), Ok(TicTacToePlayer::User(42)));
    // The mention parser would cut inside the last character here.
    assert_eq!(TicTacToePlayer::parse("<@12é"), Err(TicTacToePlayerParseError));
    assert_eq!(TicTacToePlayer::parse("<@1👑"), Err(TicTacToePlayerParseError));
    assert_eq!(TicTacToePlayer::parse("<@é"), Err(TicTacToePlayerParseError));
}

#[test]
fn player_names_and_mentions() {
    assert_eq!(TicTacToePlayer::Computer.name(), "computer");
    assert_eq!(TicTacToePlayer::User(42).name(), "42");
    assert_eq!(TicTacToePlayer::Computer.mention(), "computer");
    assert_eq!(TicTacToePlayer::User(42).mention(), "<@42>");
    assert!(TicTacToePlayer::Computer.is_computer());
    assert!(TicTacToePlayer::User(1).is_user());
    assert_eq!(TicTacToePlayer::User(1).get_user(), Some(1));
    assert_eq!(TicTacToePlayer::Computer.get_user(), None);
}

#[test]
fn players_in_storage() {
    assert_eq!(TicTacToePlayer::Computer.to_sql(), SqlValue::Null);
    assert_eq!(TicTacToePlayer::User(5).to_sql(), SqlValue::Integer(5));
    assert_eq!(TicTacToePlayer::User(u64::MAX).to_sql(), SqlValue::Integer(-1));
    assert_eq!(
        TicTacToePlayer::column_result(&SqlValue::Integer(-1)),
        Ok(TicTacToePlayer::User(u64::MAX))
    );
    assert_eq!(
        TicTacToePlayer::column_result(&SqlValue::Null),
        Ok(TicTacToePlayer::Computer)
    );
    assert_eq!(
        TicTacToePlayer::column_result(&SqlValue::Integer(0)),
        Err(FromSqlError::OutOfRange(0))
    );
    assert_eq!(
        TicTacToePlayer::column_result(&SqlValue::Text("1".into())),
        Err(FromSqlError::InvalidType)
    );
    assert_eq!(user_id_from_sql(&SqlValue::Integer(9)), Ok(9));
    assert_eq!(user_id_from_sql(&SqlValue::Null), Err(FromSqlError::InvalidType));
}

#[test]
fn guild_ids_in_storage() {
    assert_eq!(
        MaybeGuildString::from(Some(12)).to_sql(),
        SqlValue::Text("12".into())
    );
    assert_eq!(MaybeGuildString::from(None).to_sql(), SqlValue::Text("empty".into()));
    assert_eq!(
        MaybeGuildString::column_result(&SqlValue::Text("12".into())),
        Ok(MaybeGuildString { guild_id: Some(12) })
    );
    assert_eq!(
        MaybeGuildString::column_result(&SqlValue::Text("empty".into())),
        Ok(MaybeGuildString { guild_id: None })
    );
    assert_eq!(
        MaybeGuildString::column_result(&SqlValue::Text("0".into())),
        Err(FromSqlError::Other)
    );
    assert_eq!(
        MaybeGuildString::column_result(&SqlValue::Integer(3)),
        Err(FromSqlError::InvalidType)
    );
}

#[test]
fn tiktok_flags() {
    assert_eq!(TikTokEmbedFlags::enabled().bits(), 1);
    assert_eq!(TikTokEmbedFlags::delete_link().bits(), 2);
    assert_eq!(TikTokEmbedFlags::all().bits(), 3);
    assert!(TikTokEmbedFlags::default().is_empty());
    assert_eq!(TikTokEmbedFlags::from_bits(4), None);
    assert_eq!(TikTokEmbedFlags::from_bits(2).map(|f| f.bits()), Some(2));
    let mut flags = TikTokEmbedFlags::empty();
    flags.set(TikTokEmbedFlags::enabled(), true);
    assert!(flags.contains(TikTokEmbedFlags::enabled()));
    assert!(!flags.contains(TikTokEmbedFlags::all()));
    flags.insert(TikTokEmbedFlags::delete_link());
    assert!(flags.contains(TikTokEmbedFlags::all()));
    flags.set(TikTokEmbedFlags::enabled(), false);
    assert!(!flags.contains(TikTokEmbedFlags::enabled()));
    flags.remove(TikTokEmbedFlags::delete_link());
    assert!(flags.is_empty());
    assert_eq!(TikTokEmbedFlags::all().to_sql(), SqlValue::Integer(3));
    assert_eq!(
        TikTokEmbedFlags::column_result(&SqlValue::Integer(1)).map(|f| f.bits()),
        Ok(1)
    );
    assert_eq!(
        TikTokEmbedFlags::column_result(&SqlValue::Integer(8)).map(|f| f.bits()),
        Err(FromSqlError::OutOfRange(8))
    );
    assert_eq!(
        TikTokEmbedFlags::column_result(&SqlValue::Integer(-1)).map(|f| f.bits()),
        Err(FromSqlError::OutOfRange(-1))
    );
}

#[test]
fn storage_round_trips() {
    for p in [
        TicTacToePlayer::Computer,
        TicTacToePlayer::User(1),
        TicTacToePlayer::User(1 << 63),
        TicTacToePlayer::User(u64::MAX),
    ] {
        assert_eq!(TicTacToePlayer::column_result(&p.to_sql()), Ok(p));
    }
    for g in [None, Some(1), Some(123_456_789_012_345_678), Some(u64::MAX)] {
        let stored = MaybeGuildString::from(g);
        assert_eq!(MaybeGuildString::column_result(&stored.to_sql()), Ok(stored));
    }
    for bits in 0..4u32 {
        let flags = TikTokEmbedFlags::from_bits(bits).unwrap();
        assert_eq!(
            TikTokEmbedFlags::column_result(&flags.to_sql()).map(|f| f.bits()),
            Ok(bits)
        );
    }
}
