//! Replaying native input into a conversation.

use agent_sessions::cursor::event::CursorEvent;
use agent_sessions::cursor::journal::{
    read_poll, ContentBlock, JournalEntry, JournalInput, NativeRecord, ReplayError, ReplayMachine,
    ReplayStep,
};
use agent_sessions::cursor::model::{CursorRunId, RunStatus, TurnOutcome};
use agent_sessions::cursor::projection::{history_projection, project_entry, replay_input, HistoryError};
use agent_sessions::json::parse_json;

fn run() -> CursorRunId {
    CursorRunId::new("r")
}

fn sse(event: &str, data: &str) -> JournalInput {
    JournalInput::Sse(NativeRecord {
        event: event.to_owned(),
        data: data.to_owned(),
        id: None,
    })
}

fn assistant(text: &str) -> JournalInput {
    sse("assistant", &format!(r#"{{"text":"{text}"}}"#))
}

fn text_block(text: &str) -> ContentBlock {
    ContentBlock::Text(text.to_owned())
}

fn prompt(texts: &[&str]) -> JournalInput {
    JournalInput::Prompt(texts.iter().map(|text| text_block(text)).collect())
}

fn entry(sequence: i64, run: Option<&str>, input: JournalInput) -> JournalEntry {
    JournalEntry { sequence, run: run.map(CursorRunId::new), input }
}

/// What the client sees of some steps: the agent's text, with tool cleanup
/// invisible where no call is open.
fn shown(steps: &[ReplayStep]) -> Vec<String> {
    steps
        .iter()
        .filter_map(|step| match step {
            ReplayStep::Translate { event: CursorEvent::Assistant { text }, .. } => {
                Some(format!("agent:{text}"))
            }
            ReplayStep::UserMessage(ContentBlock::Text(text)) => Some(format!("user:{text}")),
            ReplayStep::UserMessage(ContentBlock::Other(json)) => Some(format!("user:{json}")),
            _ => None,
        })
        .collect()
}

#[test]
fn polling_appends_only_missing_suffix_and_never_repeats_a_final_answer() {
    let run = run();
    let mut machine = ReplayMachine::default();
    machine.push(Some(&run), &assistant("hel")).unwrap();
    let poll = JournalInput::Poll(
        r#"{"status":"FINISHED","result":"hello","unknown":{"keep":true}}"#.into(),
    );
    let updates = machine.push(Some(&run), &poll).unwrap();
    assert_eq!(shown(&updates), vec!["agent:lo"]);
    assert!(shown(&machine.push(Some(&run), &poll).unwrap()).is_empty());
    assert!(machine
        .push(
            Some(&run),
            &JournalInput::Poll(r#"{"status":"FINISHED","result":"different"}"#.into())
        )
        .is_err());
}

#[test]
fn original_blocks_suppress_the_provider_prompt_echo_once_per_run() {
    let run = run();
    let mut machine = ReplayMachine::default();
    assert_eq!(
        machine
            .push(Some(&run), &prompt(&["original", "content"]))
            .unwrap()
            .len(),
        2
    );
    assert!(machine
        .push(
            Some(&run),
            &sse(
                "interaction_update",
                r#"{"type":"user-message-appended","userMessage":{"text":"original\ncontent"}}"#
            )
        )
        .unwrap()
        .is_empty());
}

#[test]
fn result_requires_a_known_terminal_status_before_completeness_or_tool_cleanup() {
    let run = CursorRunId::new("run");
    for status in ["RUNNING", "CREATING", "PAUSED"] {
        let mut machine = ReplayMachine::default();
        machine.push(Some(&run), &prompt(&["go"])).unwrap();
        assert!(machine
            .push(
                Some(&run),
                &sse(
                    "result",
                    &format!(r#"{{"runId":"run","status":"{status}","text":"not final"}}"#)
                )
            )
            .is_err());
        assert!(!machine.complete(&run));
        assert!(machine.terminal_status(&run).is_none());
    }
}

#[test]
fn unknown_data_and_ids_survive_in_the_record() {
    let record = NativeRecord {
        event: "future-event".to_owned(),
        data: "{ this is not json\nstill original }".to_owned(),
        id: Some("provider-17".to_owned()),
    };
    assert_eq!(
        record.decode(),
        CursorEvent::Unknown { event: "future-event".to_owned() }
    );
    assert!(record.is_content());
    assert!(record.same(&record.clone()));
    let other = NativeRecord { id: Some("provider-18".to_owned()), ..record.clone() };
    assert!(!record.same(&other));
}

#[test]
fn a_translated_event_keeps_the_message_it_came_from() {
    let run = run();
    let mut machine = ReplayMachine::default();
    let data = r#"{"callId":"c1","name":"shell","args":{"command":"ls"}}"#;
    let steps = machine.push(Some(&run), &sse("tool_call", data)).unwrap();
    let [ReplayStep::Translate { event: CursorEvent::ToolCall(call), record: Some(record) }] =
        &steps[..]
    else {
        panic!("one tool call: {steps:?}");
    };
    assert_eq!(call.name, "shell");
    assert_eq!(record.data, data, "the arguments are still there to render");
}

#[test]
fn framing_alone_decides_what_is_content() {
    for (event, content) in [
        ("status", false),
        ("heartbeat", false),
        ("error", false),
        ("assistant", true),
        ("result", true),
        ("anything", true),
    ] {
        let record =
            NativeRecord { event: event.to_owned(), data: String::new(), id: None };
        assert_eq!(record.is_content(), content, "{event}");
    }
}

#[test]
fn an_echo_is_the_prompt_when_no_original_is_known() {
    let run = run();
    let mut machine = ReplayMachine::default();
    let echo = sse(
        "interaction_update",
        r#"{"type":"user-message-appended","userMessage":{"text":"hello"}}"#,
    );
    let steps = machine.push(Some(&run), &echo).unwrap();
    assert_eq!(steps, vec![ReplayStep::UserMessage(text_block("hello"))]);
    assert!(machine.has_prompt(&run));
    assert!(machine.push(Some(&run), &echo).unwrap().is_empty(), "an echo is shown once");
}

#[test]
fn a_finished_run_is_complete_only_with_its_prompt() {
    let run = run();
    let finished = sse("result", r#"{"runId":"r","status":"FINISHED","text":"hi"}"#);
    let mut machine = ReplayMachine::default();
    machine.push(Some(&run), &finished).unwrap();
    assert!(!machine.complete(&run));
    assert_eq!(machine.terminal_status(&run), Some(RunStatus::Finished));

    let mut machine = ReplayMachine::default();
    machine.push(Some(&run), &prompt(&["go"])).unwrap();
    let steps = machine.push(Some(&run), &finished).unwrap();
    assert_eq!(shown(&steps), vec!["agent:hi"]);
    assert!(steps.contains(&ReplayStep::CloseOpenCalls));
    assert!(machine.complete(&run));
    assert!(machine.has_prompt(&run));
}

#[test]
fn a_poll_of_a_running_run_shows_nothing() {
    let run = run();
    let mut machine = ReplayMachine::default();
    assert!(machine
        .push(Some(&run), &JournalInput::Poll(r#"{"status":"RUNNING"}"#.into()))
        .unwrap()
        .is_empty());
    assert!(machine.terminal_status(&run).is_none());
}

#[test]
fn a_poll_that_cannot_be_read_is_an_error_and_changes_nothing() {
    let run = run();
    let mut machine = ReplayMachine::default();
    machine.push(Some(&run), &prompt(&["go"])).unwrap();
    let error = machine
        .push(Some(&run), &JournalInput::Poll("not json".into()))
        .unwrap_err();
    assert!(matches!(error, ReplayError::PollNotJson(_)));
    assert!(!error.message().is_empty());
    let error = machine
        .push(Some(&run), &JournalInput::Poll("{}".into()))
        .unwrap_err();
    assert_eq!(error, ReplayError::PollWithoutStatus);
    assert!(machine.has_prompt(&run));
    assert!(machine.terminal_status(&run).is_none());
}

#[test]
fn a_polling_body_reads_result_before_text() {
    let outcome = read_poll(r#"{"status":"FINISHED","result":"a","text":"b"}"#).unwrap();
    assert_eq!(outcome.status, RunStatus::Finished);
    assert_eq!(outcome.text.as_deref(), Some("a"));
    assert!(outcome.is_terminal());
    let outcome = read_poll(r#"{"status":"CANCELLED","text":"b"}"#).unwrap();
    assert_eq!(outcome.text.as_deref(), Some("b"));
    assert_eq!(outcome.status, RunStatus::Cancelled);
    let outcome = read_poll(r#"{"status":"RUNNING","result":7}"#).unwrap();
    assert_eq!(outcome.text, None);
    assert!(!outcome.is_terminal());
    assert!(parse_json("{").is_none());
}

#[test]
fn an_accepted_prompt_is_replayed_from_its_original() {
    let entries = vec![
        entry(1, None, prompt(&["fix it"])),
        entry(2, Some("r"), JournalInput::PromptAccepted(1)),
    ];
    assert_eq!(replay_input(&entries[1], &entries).unwrap(), prompt(&["fix it"]));
    let missing = vec![entry(2, Some("r"), JournalInput::PromptAccepted(1))];
    assert_eq!(
        replay_input(&missing[0], &missing).unwrap_err(),
        ReplayError::MissingPrompt
    );
    // The prompt is told with the run's first fact, not with its acceptance.
    let entries = vec![
        entry(1, None, prompt(&["fix it"])),
        entry(2, Some("r"), JournalInput::PromptAccepted(1)),
        entry(3, Some("r"), assistant("ok")),
    ];
    let mut machine = ReplayMachine::default();
    assert!(project_entry(&mut machine, &entries[0], &entries).unwrap().is_empty());
    assert!(project_entry(&mut machine, &entries[1], &entries).unwrap().is_empty());
    let steps = project_entry(&mut machine, &entries[2], &entries).unwrap();
    assert_eq!(shown(&steps), vec!["user:fix it", "agent:ok"]);
    assert!(machine.has_prompt(&run()));
}

#[test]
fn a_history_is_told_once_per_run() {
    let entries = vec![
        entry(1, None, prompt(&["fix it"])),
        entry(2, Some("r"), JournalInput::PromptAccepted(1)),
        entry(3, Some("r"), assistant("hel")),
        entry(
            4,
            Some("r"),
            sse("result", r#"{"runId":"r","status":"FINISHED","text":"hello"}"#),
        ),
    ];
    let (machine, batches) = history_projection(&entries).unwrap();
    assert!(machine.complete(&run()));
    let all: Vec<String> = batches.iter().flat_map(|batch| shown(&batch.steps)).collect();
    assert_eq!(all, vec!["user:fix it", "agent:hel", "agent:lo"]);
    assert!(batches
        .iter()
        .any(|batch| batch.outcome == Some(TurnOutcome::Finished)));
}

#[test]
fn a_prompt_whose_fate_is_unknown_makes_a_history_unavailable() {
    let entries = vec![entry(1, None, prompt(&["fix it"]))];
    let error = history_projection(&entries).unwrap_err();
    assert_eq!(error, HistoryError::UnknownAcceptance);
    assert!(!error.message().is_empty());
    let settled = vec![
        entry(1, None, prompt(&["fix it"])),
        entry(2, None, JournalInput::PromptAborted(1)),
    ];
    assert!(history_projection(&settled).is_ok());
}

#[test]
fn a_run_without_its_prompt_makes_a_history_unavailable() {
    let entries = vec![entry(1, Some("r"), assistant("hi"))];
    assert_eq!(
        history_projection(&entries).unwrap_err(),
        HistoryError::PromptUnavailable(run())
    );
}

#[test]
fn a_diverging_answer_is_an_error() {
    let run = run();
    let mut machine = ReplayMachine::default();
    machine.push(Some(&run), &assistant("abc")).unwrap();
    let error = machine
        .push(
            Some(&run),
            &sse("result", r#"{"runId":"r","status":"FINISHED","text":"xyz"}"#),
        )
        .unwrap_err();
    assert_eq!(error, ReplayError::DivergedText(run));
    assert_eq!(
        error.message(),
        "Cursor final text diverged from the captured stream for r"
    );
}
