use pikadick::config::{
    Severity,
    ValidationError,
    ValidationMessage,
};
use pikadick::database::model::TikTokEmbedFlags;
use pikadick::database::settings::{
    apply_flag_changes,
    set_tiktok_enabled,
    stored_flags,
    stored_switch,
};
use pikadick::logger::delay_writer::{
    DelayWriterInner,
    InitError,
    ALREADY_INITIALIZED_MSG,
};
use pikadick::setup::{
    data_dir_action,
    finding_message,
    validation_report,
    DataDirAction,
    DataDirState,
};

#[test]
fn validation_reports() {
    let messages = vec![
        ValidationMessage::new(Severity::Warn, ValidationError::MissingStatusType),
        ValidationMessage::new(Severity::Error, ValidationError::InvalidToken),
        ValidationMessage::new(Severity::Error, ValidationError::MissingStreamUrl),
    ];
    let (lines, outcome) = validation_report(&messages);
    assert_eq!(
        lines,
        vec![
            "validation warning: missing status type".to_string(),
            "validation error: invalid token".to_string(),
            "validation error: missing stream url type".to_string(),
        ]
    );
    assert_eq!(outcome, Err("validation failed with 2 errors.".to_string()));
    let warn_only = vec![ValidationMessage::new(Severity::Warn, ValidationError::Generic("odd".into()))];
    let (lines, outcome) = validation_report(&warn_only);
    assert_eq!(lines, vec!["validation warning: odd".to_string()]);
    assert_eq!(outcome, Ok(()));
    assert_eq!(validation_report(&vec![]), (vec![], Ok(())));
    assert_eq!(
        finding_message(&ValidationMessage::new(Severity::Error, ValidationError::InvalidToken)),
        "validation error: invalid token"
    );
}

#[test]
fn data_dir_actions() {
    assert_eq!(data_dir_action(DataDirState::Missing), DataDirAction::Create);
    assert_eq!(data_dir_action(DataDirState::Directory), DataDirAction::UseExisting);
    assert_eq!(data_dir_action(DataDirState::File), DataDirAction::RefuseFile);
    assert_eq!(data_dir_action(DataDirState::Other), DataDirAction::Proceed);
}

#[test]
fn stored_settings() {
    assert!(stored_flags(None).is_empty());
    assert_eq!(stored_flags(Some(TikTokEmbedFlags::all())).bits(), 3);
    assert!(!stored_switch(None));
    assert!(stored_switch(Some(true)));
    assert!(!stored_switch(Some(false)));
    let (flags, was_on) = set_tiktok_enabled(None, true);
    assert_eq!((flags.bits(), was_on), (1, false));
    let (flags, was_on) = set_tiktok_enabled(Some(TikTokEmbedFlags::all()), false);
    assert_eq!((flags.bits(), was_on), (2, true));
    let (old, new) = apply_flag_changes(
        Some(TikTokEmbedFlags::delete_link()),
        TikTokEmbedFlags::enabled(),
        TikTokEmbedFlags::delete_link(),
    );
    assert_eq!((old.bits(), new.bits()), (2, 1));
    let (old, new) = apply_flag_changes(None, TikTokEmbedFlags::all(), TikTokEmbedFlags::empty());
    assert_eq!((old.bits(), new.bits()), (0, 3));
}

#[test]
fn delay_writer_buffers_until_init() {
    let mut inner: DelayWriterInner<Vec<u8>> = DelayWriterInner::new();
    assert_eq!(inner.write(b"hello ").unwrap(), 6);
    inner.write_all(b"world").unwrap();
    inner.flush().unwrap();
    let mut target: Vec<u8> = b">".to_vec();
    assert!(inner.init(std::mem::take(&mut target)).is_ok());
    inner.write_all(b"!").unwrap();
    match &inner {
        DelayWriterInner::Writer(w) => assert_eq!(w.as_slice(), b">hello world!"),
        DelayWriterInner::Buffer(_) => panic!("not initialized"),
    }
    let err = inner.init(Vec::new()).unwrap_err();
    assert!(matches!(err, InitError::AlreadyInitialized));
    assert_eq!(err.other_message(), Some("already initalized"));
    let io = err.into_io_error();
    assert_eq!(io.kind(), std::io::ErrorKind::Other);
    assert_eq!(io.to_string(), "already initalized");
    assert_eq!(ALREADY_INITIALIZED_MSG, "already initalized");
    match &inner {
        DelayWriterInner::Writer(w) => assert_eq!(w.as_slice(), b">hello world!"),
        DelayWriterInner::Buffer(_) => panic!("not initialized"),
    }
}

#[test]
fn delay_writer_pending_and_finish() {
    let mut inner: DelayWriterInner<Vec<u8>> = DelayWriterInner::new();
    assert_eq!(inner.pending_bytes(), Some(&b""[..]));
    inner.write_all(b"ab").unwrap();
    inner.write_all(b"cd").unwrap();
    assert_eq!(inner.pending_bytes(), Some(&b"abcd"[..]));

    // A failed write is reported with its own error and the buffer stays.
    let failed = std::io::Error::new(std::io::ErrorKind::BrokenPipe, "pipe closed");
    match inner.finish_init(Vec::new(), Err(failed)) {
        Err(InitError::Write(e)) => {
            assert_eq!(e.kind(), std::io::ErrorKind::BrokenPipe);
            assert_eq!(e.to_string(), "pipe closed");
        },
        other => panic!("unexpected {:?}", other),
    }
    assert_eq!(inner.pending_bytes(), Some(&b"abcd"[..]));

    // A good write installs the writer as given.
    assert!(inner.finish_init(b"xyz".to_vec(), Ok(())).is_ok());
    assert_eq!(inner.pending_bytes(), None);
    match &inner {
        DelayWriterInner::Writer(w) => assert_eq!(w.as_slice(), b"xyz"),
        DelayWriterInner::Buffer(_) => panic!("not initialized"),
    }
    assert!(matches!(
        inner.finish_init(Vec::new(), Ok(())),
        Err(InitError::AlreadyInitialized)
    ));

    // A writer that fails keeps the buffer for a later init.
    struct Broken;
    impl std::io::Write for Broken {
        fn write(&mut self, _buf: &[u8]) -> std::io::Result<usize> {
            Err(std::io::Error::new(std::io::ErrorKind::Other, "broken"))
        }
        fn flush(&mut self) -> std::io::Result<()> {
            Ok(())
        }
    }
    let mut inner: DelayWriterInner<Broken> = DelayWriterInner::new();
    inner.write_all(b"log").unwrap();
    match inner.init(Broken) {
        Err(InitError::Write(e)) => assert_eq!(e.to_string(), "broken"),
        _ => panic!("the write should fail"),
    }
    assert_eq!(inner.pending_bytes(), Some(&b"log"[..]));
}
