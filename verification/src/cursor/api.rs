//! Talking to Cursor's API: the key, the configuration, and what a refusal
//! means.

use crate::cursor::model::RepoUrl;
use crate::decimal::{decimal, decimal_text};
use crate::json::{parse_json, parsed_json, Json, JsonView};
use crate::text::{
    has_prefix, is_padding_char, same_text, starts_with, strip_padding, without_leading_padding,
    without_padding, without_trailing_padding, Text,
};
use vstd::prelude::*;

verus! {

/// An API key. It can be read where it is used, and is never printed.
#[derive(PartialEq, Eq)]
pub struct ApiKey {
    key: String,
}

impl ApiKey {
    /// The key itself.
    pub closed spec fn secret(self) -> Text {
        self.key@
    }

    /// Take a key as it was configured. Keys pasted into configuration arrive
    /// quoted or newline-terminated; white space and quotation marks around
    /// them are dropped.
    pub fn new(raw: &str) -> (key: ApiKey)
        ensures
            key.secret() == without_padding(raw@),
    {
        ApiKey { key: strip_padding(raw).to_owned() }
    }

    /// The key itself, for the request that needs it.
    pub fn expose(&self) -> (key: &str)
        ensures
            key@ == self.secret(),
    {
        self.key.as_str()
    }
}

impl Clone for ApiKey {
    fn clone(&self) -> (copy: Self)
        ensures
            copy == *self,
    {
        ApiKey { key: self.key.clone() }
    }
}

/// How the API is reached.
#[derive(PartialEq, Eq)]
pub struct CursorConfig {
    /// The key.
    pub api_key: ApiKey,
    /// The API's base url.
    pub base_url: String,
    /// The model every new session starts on.
    pub model: Option<String>,
    /// The ref new agents start from.
    pub starting_ref: String,
    /// Where each run's raw stream is recorded.
    pub record_dir: Option<String>,
}

/// An optional field as a log prints it.
pub open spec fn printed_option(field: Option<Text>) -> Text {
    match field {
        Some(text) => text,
        None => "none"@,
    }
}

/// A configuration as a log prints it, key redacted.
pub open spec fn printed_config(
    base_url: Text,
    model: Option<Text>,
    starting_ref: Text,
    record_dir: Option<Text>,
) -> Text {
    "CursorConfig { api_key: [redacted], base_url: "@ + base_url + ", model: "@ + printed_option(
        model,
    ) + ", starting_ref: "@ + starting_ref + ", record_dir: "@ + printed_option(record_dir)
        + " }"@
}

/// What a log shows of a configuration.
pub open spec fn config_printed(config: CursorConfig) -> Text {
    printed_config(
        config.base_url@,
        config.model.deep_view(),
        config.starting_ref@,
        config.record_dir.deep_view(),
    )
}

fn print_option(field: &Option<String>) -> (text: String)
    ensures
        text@ == printed_option(field.deep_view()),
{
    match field {
        Some(text) => text.clone(),
        None => "none".to_owned(),
    }
}

impl CursorConfig {
    /// The configuration for a log. What is printed is made from everything
    /// but the key.
    pub fn printed(&self) -> (text: String)
        ensures
            text@ == config_printed(*self),
    {
        let mut text: String = "CursorConfig { api_key: [redacted], base_url: ".to_owned();
        text.append(self.base_url.as_str());
        text.append(", model: ");
        text.append(print_option(&self.model).as_str());
        text.append(", starting_ref: ");
        text.append(self.starting_ref.as_str());
        text.append(", record_dir: ");
        text.append(print_option(&self.record_dir).as_str());
        text.append(" }");
        text
    }
}

/// Why a client cannot be built.
#[derive(Debug, PartialEq, Eq)]
pub enum CursorClientError {
    /// What is configured is not a key. A length and a short prefix are enough
    /// to recognize a placeholder by.
    MalformedKey {
        /// How long it is.
        length: usize,
        /// How it begins.
        prefix: String,
    },
}

/// How many characters of a malformed key are shown.
pub const SHOWN_PREFIX: usize = 5;

/// What a malformed key's error says.
pub open spec fn malformed_words(length: nat, prefix: Text) -> Text {
    "CURSOR_API_KEY is not a Cursor key: "@ + decimal_text(length) + " characters beginning with "@
        + prefix
}

impl CursorClientError {
    /// The error in words.
    pub fn message(&self) -> (words: String)
        ensures
            words@ == (match *self {
                CursorClientError::MalformedKey { length, prefix } => malformed_words(
                    length as nat,
                    prefix@,
                ),
            }),
    {
        match self {
            CursorClientError::MalformedKey { length, prefix } => {
                let mut words: String = "CURSOR_API_KEY is not a Cursor key: ".to_owned();
                words.append(decimal(*length as u64).as_str());
                words.append(" characters beginning with ");
                words.append(prefix.as_str());
                words
            },
        }
    }
}

/// A client of the API.
#[derive(PartialEq, Eq)]
pub struct CursorClient {
    config: CursorConfig,
}

/// Whether a key has the shape of Cursor's keys.
pub open spec fn is_cursor_key(key: Text) -> bool {
    has_prefix(key, "crsr_"@)
}

/// The first characters of a text.
pub open spec fn shown_prefix(text: Text) -> Text {
    text.take(
        if text.len() < SHOWN_PREFIX {
            text.len() as int
        } else {
            SHOWN_PREFIX as int
        },
    )
}

impl CursorClient {
    /// How the client reaches the API.
    pub closed spec fn configured(self) -> CursorConfig {
        self.config
    }

    /// Build a client, or say that what is configured is not a key.
    pub fn new(config: CursorConfig) -> (client: Result<CursorClient, CursorClientError>)
        ensures
            match client {
                Ok(client) => is_cursor_key(config.api_key.secret()) && client.configured()
                    == config,
                Err(CursorClientError::MalformedKey { length, prefix }) => !is_cursor_key(
                    config.api_key.secret(),
                ) && length == config.api_key.secret().len() && prefix@ == shown_prefix(
                    config.api_key.secret(),
                ),
            },
    {
        let key: &str = config.api_key.expose();
        if starts_with(key, "crsr_") {
            return Ok(CursorClient { config });
        }
        let length: usize = key.unicode_len();
        let shown: usize = if length < SHOWN_PREFIX {
            length
        } else {
            SHOWN_PREFIX
        };
        let prefix: String = key.substring_char(0, shown).to_owned();
        assert(prefix@ =~= shown_prefix(config.api_key.secret()));
        Err(CursorClientError::MalformedKey { length, prefix })
    }

    /// How the client reaches the API.
    pub fn config(&self) -> (config: &CursorConfig)
        ensures
            *config == self.configured(),
    {
        &self.config
    }

    /// The client for a log, key redacted.
    pub fn printed(&self) -> (text: String)
        ensures
            text@ == config_printed(self.configured()),
    {
        self.config.printed()
    }
}

/// What is printed does not depend on the key: clients that differ in nothing
/// else print the same.
pub proof fn law_the_key_is_never_printed(left: CursorConfig, right: CursorConfig)
    requires
        left.base_url == right.base_url,
        left.model == right.model,
        left.starting_ref == right.starting_ref,
        left.record_dir == right.record_dir,
    ensures
        config_printed(left) == config_printed(right),
{
}

/// A key read back from where it is stored is the key that was configured,
/// without what a configuration file wraps around it: dropping the padding
/// again changes nothing.
pub proof fn law_padding_is_dropped_once(raw: Text)
    ensures
        without_padding(without_padding(raw)) == without_padding(raw),
{
    lemma_leading_dropped(raw);
    let body = without_leading_padding(raw);
    lemma_trailing_dropped(body);
    let stripped = without_trailing_padding(body);
    if stripped.len() > 0 {
        assert(stripped[0] == body[0]);
    }
    lemma_trailing_dropped(stripped);
}

proof fn lemma_leading_dropped(text: Text)
    ensures
        ({
            let rest = without_leading_padding(text);
            rest.len() == 0 || !is_padding_char(rest[0])
        }),
    decreases text.len(),
{
    if text.len() > 0 && is_padding_char(text[0]) {
        lemma_leading_dropped(text.skip(1));
    }
}

proof fn lemma_trailing_dropped(text: Text)
    ensures
        ({
            let rest = without_trailing_padding(text);
            &&& rest.len() == 0 || !is_padding_char(rest.last())
            &&& rest.len() <= text.len()
            &&& rest == text.take(rest.len() as int)
        }),
    decreases text.len(),
{
    if text.len() > 0 && is_padding_char(text.last()) {
        let shorter = text.drop_last();
        lemma_trailing_dropped(shorter);
        let rest = without_trailing_padding(shorter);
        assert(shorter.take(rest.len() as int) =~= text.take(rest.len() as int));
    } else {
        assert(text.take(text.len() as int) =~= text);
    }
}

/// Why Cursor did not start an agent.
#[derive(Debug, PartialEq, Eq)]
pub enum CreateFailure {
    /// The repository is not one Cursor can reach for this user: the one
    /// refusal a person can act on.
    RepositoryUnavailable {
        /// The repository.
        repo: RepoUrl,
        /// Cursor's own body, for the logs.
        detail: String,
    },
    /// Cursor definitely did not take the prompt.
    Rejected {
        /// Cursor's own body.
        detail: String,
    },
    /// Whether Cursor took the prompt is unknown.
    Unknown {
        /// What is known.
        detail: String,
    },
}

/// Whether a body names the code Cursor refuses a repository with.
pub open spec fn refuses_repository(body: Option<JsonView>) -> bool {
    match body {
        Some(body) => match body.member("error"@) {
            Some(error) => error.text_member("code"@) == Some("repository_access"@),
            None => false,
        },
        None => false,
    }
}

/// Whether a status is one of the client's own errors.
pub open spec fn is_client_error(status: u16) -> bool {
    400 <= status < 500
}

fn names_repository_access(body: &Option<Json>) -> (found: bool)
    ensures
        found == refuses_repository(
            match *body {
                Some(json) => Some(json@),
                None => None,
            },
        ),
{
    if let Some(json) = body {
        if let Some(error) = json.get("error") {
            if let Some(code) = error.text_member("code") {
                return same_text(code.as_str(), "repository_access");
            }
        }
    }
    false
}

/// What a refusal to create an agent means, given the parsed body. Every client
/// error but the one about the repository stays a generic rejection, so a new
/// error code is never sold to the user as a repository to go connect.
pub fn classify_parsed(
    status: u16,
    body: &str,
    parsed: &Option<Json>,
    repo: Option<&RepoUrl>,
) -> (failure: CreateFailure)
    ensures
        ({
            let json = match *parsed {
                Some(json) => Some(json@),
                None => None,
            };
            match failure {
                CreateFailure::RepositoryUnavailable { repo: refused, detail } => {
                    is_client_error(status) && refuses_repository(json) && repo is Some
                        && refused.deep_view() == repo->0.deep_view() && detail@ == body@
                },
                CreateFailure::Rejected { detail } => is_client_error(status) && !(
                refuses_repository(json) && repo is Some) && detail@ == body@,
                CreateFailure::Unknown { detail } => !is_client_error(status) && detail@ == body@,
            }
        }),
{
    let detail: String = body.to_owned();
    if status < 400 || status >= 500 {
        return CreateFailure::Unknown { detail };
    }
    if names_repository_access(parsed) {
        if let Some(repo) = repo {
            return CreateFailure::RepositoryUnavailable { repo: repo.clone(), detail };
        }
    }
    CreateFailure::Rejected { detail }
}

/// What a refusal to create an agent means.
pub fn classify_create_failure(status: u16, body: &str, repo: Option<&RepoUrl>) -> (failure:
    CreateFailure)
    ensures
        failure is RepositoryUnavailable <==> is_client_error(status) && refuses_repository(
            parsed_json(body@),
        ) && repo is Some,
        failure is Unknown <==> !is_client_error(status),
        match failure {
            CreateFailure::RepositoryUnavailable { repo: refused, detail } => repo is Some
                && refused.deep_view() == repo->0.deep_view() && detail@ == body@,
            CreateFailure::Rejected { detail } => detail@ == body@,
            CreateFailure::Unknown { detail } => detail@ == body@,
        },
{
    let parsed: Option<Json> = parse_json(body);
    classify_parsed(status, body, &parsed, repo)
}

/// Where the debug log goes.
#[derive(Debug, PartialEq, Eq)]
pub enum DebugLog {
    /// Nowhere.
    Disabled,
    /// Into a directory.
    Directory(String),
}

/// Decide where the debug log goes: a configured `off` or `none` disables it,
/// any other setting names the directory, and without one it goes under the
/// user's home, where there is one.
pub fn debug_log(configured: Option<&str>, home: Option<&str>) -> (log: DebugLog)
    ensures
        match configured {
            Some(dir) => if dir@ == "off"@ || dir@ == "none"@ {
                log is Disabled
            } else {
                log matches DebugLog::Directory(path) && path@ == dir@
            },
            None => match home {
                Some(home) => log matches DebugLog::Directory(path) && path@ == home@
                    + "/.cursor-debug"@,
                None => log is Disabled,
            },
        },
{
    match configured {
        Some(dir) => {
            if same_text(dir, "off") || same_text(dir, "none") {
                DebugLog::Disabled
            } else {
                DebugLog::Directory(dir.to_owned())
            }
        },
        None => match home {
            Some(home) => {
                let mut path: String = home.to_owned();
                path.append("/.cursor-debug");
                DebugLog::Directory(path)
            },
            None => DebugLog::Disabled,
        },
    }
}

/// The name of a process's debug log file. One per process: interleaved frames
/// from two sessions are what makes a log useless.
pub fn debug_log_file(process: u32) -> (name: String)
    ensures
        name@ == "acp-"@ + decimal_text(process as nat) + ".log"@,
{
    let mut name: String = "acp-".to_owned();
    name.append(decimal(process as u64).as_str());
    name.append(".log");
    name
}

} // verus!
