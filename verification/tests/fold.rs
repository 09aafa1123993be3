//! Reading what Cursor's own tools say.

use agent_sessions::fold::cursor::{
    informative, lenient_u32, parsed_error_text, pull_request_url, Count, Cursor, Descriptor,
    EditOutcome, Envelope, FileDiff, KnownToolCall, MessagePart, PathArguments, PathOutcome,
    ShellArguments, ShellOutcome, Step, SubagentInput, SubagentResult, SubagentType,
    TaskArguments, ToolBody, ToolCallStep, ToolDetail, ToolStatus, Transcript, UnknownToolCall,
};
use agent_sessions::json::parse_json;
use agent_sessions::ordered::OrderedMap;

fn text(value: &str) -> Option<String> {
    Some(value.to_owned())
}

fn success<T>(payload: T) -> Envelope<T> {
    Envelope { success: Some(payload), failure: None, error: None }
}

fn nothing<T>() -> Envelope<T> {
    Envelope { success: None, failure: None, error: None }
}

fn keys(names: &[&str]) -> OrderedMap<()> {
    let mut map = OrderedMap::new();
    for name in names {
        map.insert((*name).to_owned(), ());
    }
    map
}

fn transcript(steps: Vec<Step>) -> Transcript {
    Transcript { agent_id: text("child"), duration_ms: Some(12), conversation_steps: steps }
}

fn call(id: &str, descriptor: Descriptor) -> Step {
    Step::ToolCall(ToolCallStep::Known(KnownToolCall {
        tool_call_id: id.to_owned(),
        descriptor,
    }))
}

fn shell(command: &str, outcome: ShellOutcome) -> Descriptor {
    Descriptor::Shell(ToolBody {
        args: Some(ShellArguments { command: text(command) }),
        result: success(outcome),
    })
}

fn quiet() -> ShellOutcome {
    ShellOutcome { stdout: None, stderr: None, interleaved_output: None, exit_code: None }
}

#[test]
fn the_harness_is_recognized_by_name() {
    for name in ["cursor", "Cursor Agent", "my-CURSOR-cli"] {
        assert!(Cursor.announces(name), "{name}");
    }
    for name in ["", "curse", "sonnet"] {
        assert!(!Cursor.announces(name), "{name}");
    }
}

#[test]
fn placeholders_say_nothing() {
    assert_eq!(informative(text("")), None);
    assert_eq!(informative(text("default")), None);
    assert_eq!(informative(text("gpt")), text("gpt"));
    assert_eq!(informative(None), None);
}

#[test]
fn counts_are_read_in_either_encoding_and_saturate() {
    assert_eq!(lenient_u32(Some(Count::Number(7))), Some(7));
    assert_eq!(lenient_u32(Some(Count::Text("8".to_owned()))), Some(8));
    assert_eq!(lenient_u32(Some(Count::Number(1 << 40))), Some(u32::MAX));
    assert_eq!(lenient_u32(Some(Count::Text("x".to_owned()))), None);
    assert_eq!(lenient_u32(Some(Count::Other)), None);
    assert_eq!(lenient_u32(None), None);
}

#[test]
fn agent_types_are_read_in_either_spelling() {
    let kinded = |kind: &str, name: Option<&str>| SubagentType::Kinded {
        kind: kind.to_owned(),
        name: name.map(str::to_owned),
    };
    assert_eq!(kinded("explore", None).name(), text("explore"));
    assert_eq!(kinded("custom", Some("writer")).name(), text("writer"));
    assert_eq!(kinded("unspecified", None).name(), None);
    assert_eq!(SubagentType::Keyed(keys(&["explore"])).name(), text("explore"));
    assert_eq!(SubagentType::Keyed(keys(&["unspecified"])).name(), None);
    assert_eq!(SubagentType::Keyed(keys(&[])).name(), None);
}

#[test]
fn what_every_harness_says_comes_first() {
    let generic = |agent_type: Option<String>| SubagentInput {
        description: text("d"),
        prompt: text("p"),
        agent_type,
    };
    let arguments = || {
        Some(TaskArguments {
            subagent_type: Some(SubagentType::Keyed(keys(&["explore"]))),
            model: text("default"),
            agent_id: None,
        })
    };
    let input = Cursor.subagent_input(generic(None), arguments());
    assert_eq!(input, generic(text("explore")));
    let input = Cursor.subagent_input(generic(text("planner")), arguments());
    assert_eq!(input, generic(text("planner")));
}

#[test]
fn a_subagents_answer_is_its_closing_prose() {
    let steps = || {
        vec![
            Step::ThinkingMessage("hmm".to_owned()),
            call("c1", shell("ls", quiet())),
            Step::Unrecognized,
            Step::AssistantMessage("all done".to_owned()),
        ]
    };
    let result = Cursor
        .subagent_result(Some(success(transcript(steps()))), None, None)
        .expect("a report");
    assert_eq!(result.text, text("all done"));
    assert_eq!(result.agent_id, text("child"));
    assert_eq!(result.duration_ms, Some(12));
    assert_eq!(result.tool_uses, Some(1));

    let parts = Cursor.subagent_transcript(Some(success(transcript(steps()))));
    assert_eq!(parts.len(), 2, "{parts:?}");
    assert_eq!(parts[0], MessagePart::Thought { text: "hmm".to_owned() });
    assert!(matches!(parts[1], MessagePart::ToolUse { .. }));
}

#[test]
fn a_transcript_that_ends_in_work_has_no_answer() {
    let steps = vec![
        Step::AssistantMessage("first".to_owned()),
        call("c1", shell("ls", quiet())),
    ];
    let transcript = transcript(steps);
    assert_eq!(transcript.answer(), None);
    assert_eq!(transcript.into_parts().len(), 2);
}

#[test]
fn a_report_that_says_nothing_is_no_report() {
    assert_eq!(Cursor.subagent_result(Some(nothing()), None, None), None);
    assert_eq!(Cursor.subagent_result(None, None, None), None);
    assert!(Cursor.subagent_transcript(None).is_empty());
    let generic = SubagentResult { text: text("hi"), ..SubagentResult::default() };
    let told = Cursor
        .subagent_result(
            None,
            Some(generic),
            Some(TaskArguments { subagent_type: None, model: text("gpt"), agent_id: text("a") }),
        )
        .expect("a report");
    assert_eq!(told.text, text("hi"));
    assert_eq!(told.model, text("gpt"));
    assert_eq!(told.agent_id, text("a"));
}

#[test]
fn a_failed_task_reports_its_error() {
    let failed: Envelope<Transcript> =
        Envelope { success: None, failure: None, error: text(r#""boom""#) };
    assert_eq!(failed.status(), ToolStatus::Failed);
    assert_eq!(failed.error_text(), text("boom"));
    let result = Cursor.subagent_result(Some(failed), None, None).expect("a report");
    assert_eq!(result.error, text("boom"));
    assert_eq!(nothing::<Transcript>().status(), ToolStatus::Pending);
    assert_eq!(success(1u8).status(), ToolStatus::Completed);

    let odd = r#"{"code":7}"#.to_owned();
    assert_eq!(parsed_error_text(&parse_json(&odd), &odd), odd);
    let plain = r#""plain words""#.to_owned();
    assert_eq!(parsed_error_text(&parse_json(&plain), &plain), "plain words");
}

#[test]
fn a_shell_call_shows_its_command_and_output() {
    let outcome = ShellOutcome {
        stdout: text("out"),
        stderr: text("err"),
        interleaved_output: text("mixed"),
        exit_code: Some(1),
    };
    assert_eq!(outcome.output(), text("mixed"));
    let (name, status, detail) = shell("ls", outcome).into_detail();
    assert_eq!(name, "shell");
    assert_eq!(status, ToolStatus::Completed);
    // What succeeded exited with zero, whatever else it says.
    assert_eq!(
        detail,
        ToolDetail::Terminal {
            command: text("ls"),
            output: text("mixed"),
            exit_code: Some(0),
        }
    );
    let failed = ShellOutcome {
        stdout: None,
        stderr: text("err"),
        interleaved_output: None,
        exit_code: Some(2),
    };
    let (_, status, detail) = Descriptor::Shell(ToolBody {
        args: None,
        result: Envelope { success: None, failure: Some(failed), error: None },
    })
    .into_detail();
    assert_eq!(status, ToolStatus::Failed);
    assert_eq!(
        detail,
        ToolDetail::Terminal { command: None, output: text("err"), exit_code: Some(2) }
    );
}

#[test]
fn paths_come_from_the_arguments_or_the_outcome() {
    let body = |argument: Option<&str>, outcome: Option<&str>| ToolBody {
        args: Some(PathArguments { path: argument.map(str::to_owned) }),
        result: success(PathOutcome { path: outcome.map(str::to_owned) }),
    };
    let (status, paths) = body(Some("a.rs"), Some("b.rs")).status_and_paths();
    assert_eq!(status, ToolStatus::Completed);
    assert_eq!(paths.len(), 1, "{paths:?}");
    let (_, paths) = body(None, None).status_and_paths();
    assert!(paths.is_empty());
    let (name, _, detail) = Descriptor::Delete(body(Some("a.rs"), None)).into_detail();
    assert_eq!(name, "delete");
    assert_eq!(detail, ToolDetail::Delete { paths: vec!["a.rs".to_owned()] });
}

#[test]
fn an_edit_is_a_diff_only_with_both_a_path_and_contents() {
    let edit = EditOutcome {
        path: text("a.rs"),
        before_full_file_content: text("old"),
        after_full_file_content: text("new"),
    };
    assert_eq!(
        edit.into_diff(),
        Some(FileDiff { path: "a.rs".to_owned(), old_text: text("old"), new_text: "new".to_owned() })
    );
    let edit = EditOutcome {
        path: text("a.rs"),
        before_full_file_content: None,
        after_full_file_content: None,
    };
    assert_eq!(edit.into_diff(), None);
}

#[test]
fn an_unknown_tool_is_named_by_its_key() {
    let part = UnknownToolCall {
        tool_call_id: "c9".to_owned(),
        rest: keys(&["webSearchToolCall"]),
    }
    .into_part();
    let MessagePart::ToolUse { id, name, .. } = part else {
        panic!("a tool use: {part:?}");
    };
    assert!(id.contains("c9"), "{id}");
    assert!(!name.is_empty());
}

#[test]
fn an_empty_pull_request_is_none() {
    assert_eq!(pull_request_url(text("")), None);
    assert_eq!(pull_request_url(None), None);
    assert_eq!(pull_request_url(text("https://x/1")), text("https://x/1"));
}
