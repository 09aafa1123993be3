//! Building a client, what a refusal means, and above all the key never being
//! printable.

use agent_sessions::cursor::api::{
    classify_create_failure, classify_parsed, debug_log, debug_log_file, ApiKey, CreateFailure,
    CursorClient, CursorClientError, CursorConfig, DebugLog,
};
use agent_sessions::cursor::git::{GitRepositoryChooser, SessionIntent};
use agent_sessions::cursor::model::RepoUrl;
use agent_sessions::json::Json;

const KEY: &str = "crsr_secret_do_not_print_me";

fn config() -> CursorConfig {
    CursorConfig {
        api_key: ApiKey::new(KEY),
        base_url: "https://api.cursor.test".to_owned(),
        model: None,
        starting_ref: "main".to_owned(),
        record_dir: None,
    }
}

fn repo() -> RepoUrl {
    RepoUrl { value: "https://github.com/macro-inc/macro".to_owned() }
}

#[test]
fn debug_output_never_contains_the_key() {
    let config = config();
    let printed = config.printed();
    assert!(
        !printed.contains(KEY),
        "the plaintext key must not appear in {printed}"
    );
    assert!(!printed.contains("secret_do_not_print_me"));

    let client = CursorClient::new(config).expect("a shape-valid key builds a client");
    let printed = client.printed();
    assert!(
        !printed.contains(KEY),
        "the plaintext key must not appear in {printed}"
    );
    assert!(!printed.contains("secret_do_not_print_me"));
}

#[test]
fn printed_output_says_everything_but_the_key() {
    let printed = config().printed();
    assert_eq!(
        printed,
        "CursorConfig { api_key: [redacted], base_url: https://api.cursor.test, model: none, \
         starting_ref: main, record_dir: none }"
    );
    let other = CursorConfig { api_key: ApiKey::new("crsr_other"), ..config() };
    assert_eq!(other.printed(), printed);
}

#[test]
fn the_key_is_still_readable_where_it_is_used() {
    assert_eq!(ApiKey::new(KEY).expose(), KEY);
}

#[test]
fn a_client_keeps_its_configuration() {
    let client = CursorClient::new(config()).ok().expect("a key");
    assert_eq!(client.config().api_key.expose(), KEY);
    assert_eq!(client.config().base_url, "https://api.cursor.test");
}

#[test]
fn surrounding_quotes_and_whitespace_are_trimmed() {
    assert_eq!(ApiKey::new("  \"crsr_abc\"\n").expose(), "crsr_abc");
    assert_eq!(ApiKey::new("'crsr_abc'").expose(), "crsr_abc");
}

#[test]
fn trimming_a_trimmed_key_changes_nothing() {
    for raw in ["  \"crsr_abc\"\n", "", "\"\"", "crsr_a b"] {
        let once = ApiKey::new(raw);
        assert_eq!(ApiKey::new(once.expose()).expose(), once.expose());
    }
}

#[test]
fn a_placeholder_key_is_rejected_with_a_diagnostic() {
    let error = CursorClient::new(CursorConfig {
        api_key: ApiKey::new("..."),
        ..config()
    })
    .err()
    .expect("a placeholder is not a key");
    assert!(matches!(
        error,
        CursorClientError::MalformedKey { length: 3, .. }
    ));
}

#[test]
fn a_malformed_key_shows_its_length_and_a_short_prefix() {
    let error = CursorClient::new(CursorConfig {
        api_key: ApiKey::new("sk-ant-0123456789"),
        ..config()
    })
    .err()
    .expect("not a Cursor key");
    assert_eq!(
        error.message(),
        "CURSOR_API_KEY is not a Cursor key: 17 characters beginning with sk-an"
    );
}

#[test]
fn a_repository_rejection_is_typed_with_the_repository() {
    let body =
        r#"{"error":{"code":"repository_access","message":"Repository not accessible"}}"#;
    let failure = classify_create_failure(400, body, Some(&repo()));
    let CreateFailure::RepositoryUnavailable { repo: unavailable, detail } = failure else {
        panic!("a repository rejection is typed as one: {failure:?}");
    };
    assert_eq!(unavailable, repo());
    assert!(
        detail.contains("repository_access"),
        "cursor's own body is kept for the logs: {detail}"
    );
}

#[test]
fn an_unrelated_client_error_is_still_a_plain_rejection() {
    let body = r#"{"error":{"code":"validation_error","message":"Model 'nope' does not match a known variant"}}"#;
    let failure = classify_create_failure(400, body, Some(&repo()));
    let CreateFailure::Rejected { detail } = failure else {
        panic!("an unrecognized code is not a repository problem: {failure:?}");
    };
    assert!(detail.contains("validation_error"), "the raw body still travels: {detail}");
}

#[test]
fn only_client_errors_are_definite() {
    assert_eq!(
        classify_create_failure(503, "down", Some(&repo())),
        CreateFailure::Unknown { detail: "down".to_owned() }
    );
    assert_eq!(
        classify_create_failure(399, "?", None),
        CreateFailure::Unknown { detail: "?".to_owned() }
    );
    assert_eq!(
        classify_create_failure(499, "not json", Some(&repo())),
        CreateFailure::Rejected { detail: "not json".to_owned() }
    );
    // Without a repository there is none to name.
    assert_eq!(
        classify_create_failure(400, r#"{"error":{"code":"repository_access"}}"#, None),
        CreateFailure::Rejected {
            detail: r#"{"error":{"code":"repository_access"}}"#.to_owned()
        }
    );
    assert_eq!(
        classify_parsed(400, "b", &Some(Json::Text("repository_access".to_owned())), Some(&repo())),
        CreateFailure::Rejected { detail: "b".to_owned() }
    );
}

#[test]
fn the_debug_log_can_be_moved_or_switched_off() {
    assert_eq!(debug_log(Some("off"), Some("/home/u")), DebugLog::Disabled);
    assert_eq!(debug_log(Some("none"), Some("/home/u")), DebugLog::Disabled);
    assert_eq!(
        debug_log(Some("/var/log"), Some("/home/u")),
        DebugLog::Directory("/var/log".to_owned())
    );
    assert_eq!(
        debug_log(None, Some("/home/u")),
        DebugLog::Directory("/home/u/.cursor-debug".to_owned())
    );
    assert_eq!(debug_log(None, None), DebugLog::Disabled);
    assert_eq!(debug_log_file(4711), "acp-4711.log");
}

#[test]
fn an_override_wins_over_the_checkout() {
    let origin = RepoUrl { value: "https://github.com/a/origin".to_owned() };
    let chooser = GitRepositoryChooser::new(Some(repo()), Some(origin.clone()));
    let intent = chooser.choose_repository("anything");
    assert_eq!(intent.repository, Some(repo()));

    let chooser = GitRepositoryChooser::new(None, Some(origin.clone()));
    assert_eq!(chooser.choose_repository("anything").repository, Some(origin));

    let chooser = GitRepositoryChooser::new(None, None);
    assert_eq!(chooser.choose_repository("anything").repository, None);
    assert_eq!(SessionIntent::default().repository, None);
}
