//! Decoding the provider's event stream.

use agent_sessions::cursor::event::{CursorEvent, GitBranch, InteractionUpdate};
use agent_sessions::cursor::model::{CursorRunId, RunStatus};
use agent_sessions::json::{parse_json, Json};

fn json(text: &str) -> Json {
    parse_json(text).expect("valid JSON")
}

#[test]
fn documented_events_decode() {
    let status =
        CursorEvent::from_wire("status", &json(r#"{"runId": "run-1", "status": "RUNNING"}"#));
    assert_eq!(
        status,
        CursorEvent::Status {
            run_id: CursorRunId::new("run-1"),
            status: RunStatus::Running,
        }
    );

    let result = CursorEvent::from_wire(
        "result",
        &json(r#"{"runId": "run-1", "status": "FINISHED", "text": "done", "durationMs": 12}"#),
    );
    assert_eq!(
        result,
        CursorEvent::Result {
            run_id: CursorRunId::new("run-1"),
            status: RunStatus::Finished,
            text: Some("done".to_owned()),
            duration_ms: Some(12),
            git: None,
        }
    );

    // A result without `git` still decodes; degrading to Unknown here would
    // lose the run's terminal status.
    assert!(matches!(
        CursorEvent::from_wire("result", &json(r#"{"runId": "run-1", "status": "FINISHED"}"#)),
        CursorEvent::Result { git: None, .. }
    ));

    assert_eq!(
        CursorEvent::from_wire("heartbeat", &json("{}")),
        CursorEvent::Heartbeat
    );
    assert_eq!(CursorEvent::from_wire("done", &json("{}")), CursorEvent::Done);
}

#[test]
fn interaction_subtypes_decode() {
    let started = CursorEvent::from_wire(
        "interaction_update",
        &json(r#"{"type": "tool-call-started", "callId": "c1", "toolCall": {"type": "shell"}}"#),
    );
    assert_eq!(
        started,
        CursorEvent::Interaction(InteractionUpdate::ToolCallStarted {
            call_id: "c1".to_owned(),
            tool_type: Some("shell".to_owned()),
        })
    );

    let tokens = CursorEvent::from_wire(
        "interaction_update",
        &json(r#"{"type": "token-delta", "tokens": 7}"#),
    );
    assert_eq!(
        tokens,
        CursorEvent::Interaction(InteractionUpdate::TokenDelta { tokens: 7 })
    );

    // The duplicating text subtypes land in Other, which the translation drops.
    let delta = CursorEvent::from_wire(
        "interaction_update",
        &json(r#"{"type": "text-delta", "text": "hi"}"#),
    );
    assert_eq!(
        delta,
        CursorEvent::Interaction(InteractionUpdate::Other {
            kind: "text-delta".to_owned()
        })
    );
}

#[test]
fn the_providers_echo_of_a_prompt_decodes() {
    let echo = CursorEvent::from_wire(
        "interaction_update",
        &json(r#"{"type": "user-message-appended", "userMessage": {"text": "hello"}}"#),
    );
    assert_eq!(
        echo,
        CursorEvent::Interaction(InteractionUpdate::UserMessage { text: "hello".to_owned() })
    );
}

#[test]
fn malformed_payloads_degrade_to_unknown() {
    let event = CursorEvent::from_wire("status", &json(r#"{"unexpected": true}"#));
    assert!(matches!(event, CursorEvent::Unknown { .. }));
    let event = CursorEvent::from_wire("brand_new_event", &json("{}"));
    assert!(matches!(event, CursorEvent::Unknown { .. }));
}

#[test]
fn a_truncated_object_still_decodes_the_tool_call() {
    let event = CursorEvent::from_wire(
        "tool_call",
        &json(
            r#"{
                "callId": "call-1",
                "name": "read_file",
                "status": "completed",
                "truncated": { "result": true }
            }"#,
        ),
    );
    let CursorEvent::ToolCall(call) = event else {
        panic!("a tool_call with a truncation object must still decode: {event:?}");
    };
    assert_eq!(call.name, "read_file");
    assert!(call.truncated.result, "the result half was truncated");
    assert!(!call.truncated.args);
}

#[test]
fn an_unexpected_truncation_shape_costs_only_the_flag() {
    for shape in ["true", r#""result""#, r#"{ "somethingNew": true }"#] {
        let event = CursorEvent::from_wire(
            "tool_call",
            &json(&format!(
                r#"{{"callId": "call-1", "name": "read_file", "truncated": {shape}}}"#
            )),
        );
        let CursorEvent::ToolCall(call) = event else {
            panic!("an unknown truncation shape must not fail the call: {event:?}");
        };
        assert!(!call.truncated.result);
        assert!(!call.truncated.args);
    }
}

#[test]
fn a_result_carries_its_git_branches() {
    let result = CursorEvent::from_wire(
        "result",
        &json(
            r#"{
                "runId": "run-1",
                "status": "FINISHED",
                "text": "done",
                "durationMs": 3667,
                "git": {"branches": [
                    {
                        "repoUrl": "github.com/macro-inc/macro",
                        "branch": "cursor/single-word-output-70ef",
                        "prUrl": "https://github.com/macro-inc/macro/pull/123"
                    },
                    { "repoUrl": "github.com/macro-inc/other" }
                ]}
            }"#,
        ),
    );

    let CursorEvent::Result { git: Some(git), .. } = result else {
        panic!("expected a result with git state, got {result:?}");
    };
    assert_eq!(
        git.branches,
        vec![
            GitBranch {
                repo_url: "github.com/macro-inc/macro".to_owned(),
                branch: Some("cursor/single-word-output-70ef".to_owned()),
                pr_url: Some("https://github.com/macro-inc/macro/pull/123".to_owned()),
            },
            GitBranch {
                repo_url: "github.com/macro-inc/other".to_owned(),
                branch: None,
                pr_url: None,
            },
        ]
    );
}

#[test]
fn an_explicit_null_git_is_no_git() {
    assert!(matches!(
        CursorEvent::from_wire(
            "result",
            &json(r#"{"runId": "r", "status": "FINISHED", "text": "answer", "durationMs": 42, "git": null}"#)
        ),
        CursorEvent::Result { git: None, duration_ms: Some(42), .. }
    ));
}
