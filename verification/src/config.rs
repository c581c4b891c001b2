//! The bot config and its validation.

use crate::util::{
    chars_of,
    string_from_chars,
};
use std::collections::HashMap;
use vstd::prelude::*;

verus! {

/// The prefix used when the config names none.
pub fn default_prefix() -> (res: String)
    ensures
        res@ == "p!"@,
{
    String::from_str("p!")
}

/// The kind of activity shown as the bot's status.
#[derive(Debug, Clone, Copy, PartialEq, Eq, Structural)]
pub enum ActivityKind {
    Listening,
    Playing,
    Streaming,
}

impl ActivityKind {
    /// The default activity: playing.
    pub fn default() -> (res: Self)
        ensures
            res == ActivityKind::Playing,
    {
        ActivityKind::Playing
    }
}

/// Status config
#[derive(Debug, Clone)]
pub struct StatusConfig {
    /// The kind of activity
    pub kind: Option<ActivityKind>,
    /// The status text
    pub name: String,
    /// The stream url
    pub url: Option<String>,
}

/// FML config
#[derive(Debug, Clone)]
pub struct FmlConfig {
    /// FML API key
    pub key: String,
}

/// DeviantArt config
#[derive(Debug, Clone)]
pub struct DeviantArtConfig {
    /// Username
    pub username: String,
    /// Password
    pub password: String,
}

/// Log Config
#[derive(Debug)]
pub struct LogConfig {
    /// The logging directives.
    pub directives: Vec<String>,
    /// Whether to use open telemetry
    pub use_opentelemetry: bool,
    /// The OTLP endpoint
    pub endpoint: Option<String>,
    /// Headers
    pub headers: HashMap<String, String>,
}

impl LogConfig {
    /// The logging directives used when the config gives none: only this bot
    /// and serenity's command framework log at `info`.
    pub fn default_directives() -> (res: Vec<String>)
        ensures
            res@.len() == 2,
            res@[0]@ == "pikadick=info"@,
            res@[1]@ == "serenity::framework::standard=info"@,
    {
        let mut v = Vec::new();
        v.push(String::from_str("pikadick=info"));
        v.push(String::from_str("serenity::framework::standard=info"));
        v
    }

    /// The default log config: the default directives, no open telemetry, no
    /// endpoint and no headers.
    pub fn default() -> (res: Self)
        ensures
            res.directives@.len() == 2,
            res.directives@[0]@ == "pikadick=info"@,
            res.directives@[1]@ == "serenity::framework::standard=info"@,
            !res.use_opentelemetry,
            res.endpoint is None,
            res.headers@ == Map::<String, String>::empty(),
    {
        LogConfig {
            directives: Self::default_directives(),
            use_opentelemetry: false,
            endpoint: None,
            headers: HashMap::new(),
        }
    }
}

/// The bot config
#[derive(Debug)]
pub struct Config {
    /// The discord token
    pub token: String,
    /// The application id
    pub application_id: u64,
    /// Prefix for the bot
    pub prefix: String,
    /// Status config
    pub status: Option<StatusConfig>,
    /// Data dir
    pub data_dir: String,
    /// The test guild
    pub test_guild: Option<u64>,
    /// FML config
    pub fml: FmlConfig,
    /// DeviantArt config
    pub deviantart: DeviantArtConfig,
    /// The log config
    pub log: LogConfig,
}

/// How bad a validation finding is.
#[derive(Debug, Clone, Copy, PartialEq, Eq, Structural)]
pub enum Severity {
    Warn,
    Error,
}

/// Validation Errors
#[derive(Debug, Clone)]
pub enum ValidationError {
    InvalidToken,
    MissingStatusType,
    MissingStreamUrl,
    Generic(String),
}

impl ValidationError {
    /// The message of this error.
    pub open spec fn spec_message(&self) -> Seq<char> {
        match self {
            ValidationError::InvalidToken => "invalid token"@,
            ValidationError::MissingStatusType => "missing status type"@,
            ValidationError::MissingStreamUrl => "missing stream url type"@,
            ValidationError::Generic(s) => s@,
        }
    }

    /// The message of this error.
    pub fn message(&self) -> (res: String)
        ensures
            res@ == self.spec_message(),
    {
        match self {
            ValidationError::InvalidToken => String::from_str("invalid token"),
            ValidationError::MissingStatusType => String::from_str("missing status type"),
            ValidationError::MissingStreamUrl => String::from_str("missing stream url type"),
            ValidationError::Generic(s) => s.clone(),
        }
    }
}

/// A finding of config validation.
#[derive(Debug)]
pub struct ValidationMessage {
    severity: Severity,
    error: ValidationError,
}

impl ValidationMessage {
    /// The severity of the finding.
    pub closed spec fn spec_severity(&self) -> Severity {
        self.severity
    }

    /// The error that was found.
    pub closed spec fn spec_error(&self) -> ValidationError {
        self.error
    }

    /// Make a finding.
    pub fn new(severity: Severity, error: ValidationError) -> (res: Self)
        ensures
            res.spec_severity() == severity,
            res.spec_error() == error,
    {
        ValidationMessage { severity, error }
    }

    /// The severity of the finding.
    pub fn severity(&self) -> (res: Severity)
        ensures
            res == self.spec_severity(),
    {
        self.severity
    }

    /// The error that was found.
    pub fn error(&self) -> (res: &ValidationError)
        ensures
            *res == self.spec_error(),
    {
        &self.error
    }
}

/// `s` with every leading `Bot ` removed.
pub open spec fn strip_bot_prefix(s: Seq<char>) -> Seq<char>
    decreases s.len(),
{
    if s.len() >= 4 && s.take(4) == "Bot "@ {
        strip_bot_prefix(s.skip(4))
    } else {
        s
    }
}

/// `t` is three non-empty parts joined by two periods.
pub open spec fn has_three_parts(t: Seq<char>) -> bool {
    exists|i: int, j: int|
        0 < i && i + 1 < j && j + 1 < t.len() && t[i] == '.' && t[j] == '.' && forall|k: int|
            0 <= k < t.len() && k != i && k != j ==> t[k] != '.'
}

/// What serenity's token check accepts: after leading `Bot ` prefixes, three
/// non-empty parts separated by periods.
pub open spec fn token_is_valid(token: Seq<char>) -> bool {
    has_three_parts(strip_bot_prefix(token))
}

/// Check the shape of a Discord token with `serenity::utils::validate_token`:
/// the contract claims what its source checks, three non-empty parts split by
/// periods after any leading `Bot ` prefixes.
#[verifier::external_body]
fn validate_token(token: &str) -> (res: bool)
    ensures
        res == token_is_valid(token@),
{
    serenity::utils::validate_token(token).is_ok()
}

/// The findings of validating a config with this token and status.
pub open spec fn validation_findings(token: Seq<char>, status: Option<StatusConfig>) -> Seq<
    (Severity, ValidationError),
> {
    let token_findings = if token_is_valid(token) {
        Seq::<(Severity, ValidationError)>::empty()
    } else {
        seq![(Severity::Error, ValidationError::InvalidToken)]
    };
    let status_findings = match status {
        None => Seq::<(Severity, ValidationError)>::empty(),
        Some(s) => {
            let stream = if s.kind == Some(ActivityKind::Streaming) && s.url is None {
                seq![(Severity::Error, ValidationError::MissingStreamUrl)]
            } else {
                Seq::<(Severity, ValidationError)>::empty()
            };
            let kind = if s.kind is None {
                seq![(Severity::Warn, ValidationError::MissingStatusType)]
            } else {
                Seq::<(Severity, ValidationError)>::empty()
            };
            stream + kind
        },
    };
    token_findings + status_findings
}

/// The severity and error of each message.
pub open spec fn findings_of(messages: Seq<ValidationMessage>) -> Seq<(Severity, ValidationError)> {
    messages.map_values(|m: ValidationMessage| (m.spec_severity(), m.spec_error()))
}

impl Config {
    /// Shortcut for getting the status name
    pub fn status_name(&self) -> (res: Option<&str>)
        ensures
            match self.status {
                Some(s) => res matches Some(n) && n@ == s.name@,
                None => res is None,
            },
    {
        match &self.status {
            Some(s) => Some(s.name.as_str()),
            None => None,
        }
    }

    /// Shortcut for getting the status url
    pub fn status_url(&self) -> (res: Option<&str>)
        ensures
            match self.status {
                Some(s) => match s.url {
                    Some(u) => res matches Some(r) && r@ == u@,
                    None => res is None,
                },
                None => res is None,
            },
    {
        match &self.status {
            Some(s) => match &s.url {
                Some(u) => Some(u.as_str()),
                None => None,
            },
            None => None,
        }
    }

    /// Shortcut for getting the status type
    pub fn status_type(&self) -> (res: Option<ActivityKind>)
        ensures
            res == (match self.status {
                Some(s) => s.kind,
                None => None,
            }),
    {
        match &self.status {
            Some(s) => s.kind,
            None => None,
        }
    }

    /// Validate a config: an invalid token is an error; a streaming status
    /// without a url is an error; a status without a type is a warning.
    pub fn validate(&mut self) -> (res: Vec<ValidationMessage>)
        ensures
            findings_of(res@) == validation_findings(old(self).token@, old(self).status),
            *final(self) == *old(self),
    {
        let mut errors: Vec<ValidationMessage> = Vec::new();
        if !validate_token(self.token.as_str()) {
            errors.push(ValidationMessage::new(Severity::Error, ValidationError::InvalidToken));
        }
        let ghost after_token = errors@;
        match &self.status {
            Some(config) => {
                let streaming = match config.kind {
                    Some(ActivityKind::Streaming) => true,
                    _ => false,
                };
                if streaming && config.url.is_none() {
                    errors.push(
                        ValidationMessage::new(Severity::Error, ValidationError::MissingStreamUrl),
                    );
                }
                if config.kind.is_none() {
                    errors.push(
                        ValidationMessage::new(Severity::Warn, ValidationError::MissingStatusType),
                    );
                }
            },
            None => {},
        }
        assert(findings_of(errors@) =~= validation_findings(self.token@, self.status));
        errors
    }
}

/// The number of messages that are errors, not warnings.
pub open spec fn error_count(messages: Seq<ValidationMessage>) -> nat
    decreases messages.len(),
{
    if messages.len() == 0 {
        0
    } else {
        error_count(messages.drop_last()) + if messages.last().spec_severity() == Severity::Error {
            1nat
        } else {
            0nat
        }
    }
}

/// Count the findings that are errors; a config loads only if there are none.
pub fn count_validation_errors(messages: &Vec<ValidationMessage>) -> (res: usize)
    ensures
        res == error_count(messages@),
{
    let mut n: usize = 0;
    let mut i: usize = 0;
    while i < messages.len()
        invariant
            0 <= i <= messages.len(),
            n == error_count(messages@.take(i as int)),
            n <= i,
        decreases messages.len() - i,
    {
        assert(messages@.take(i + 1).drop_last() =~= messages@.take(i as int));
        match messages[i].severity() {
            Severity::Error => {
                n = n + 1;
            },
            Severity::Warn => {},
        }
        i = i + 1;
    }
    assert(messages@.take(messages.len() as int) =~= messages@);
    n
}

} // verus!
