//! Whole sessions, driven by a host that answers from a script.

use agent_sessions::cursor::backfill::{
    plan_mirror, Backfill, BackfillAction, BackfillEvent,
};
use agent_sessions::cursor::ingest::{
    content_records, Ingest, IngestAction, IngestEvent, IngestMode, POLL_ATTEMPTS,
    POLL_INTERVAL_MILLIS, STREAM_RETRIES, STREAM_RETRY_MILLIS,
};
use agent_sessions::cursor::journal::{
    ContentBlock, JournalEntry, JournalInput, NativeRecord, ReplayStep,
};
use agent_sessions::cursor::loading::{
    JournalRead, Load, LoadAction, LoadEvent, ReadAction, ReadEvent,
};
use agent_sessions::cursor::model::{
    CursorAgentId, CursorRunId, RepoUrl, RunListing, RunOutcome, RunStatus, SessionId, StopReason,
    TurnOutcome,
};
use agent_sessions::cursor::models::{CursorModel, ModelChoice};
use agent_sessions::cursor::polling::{Poll, PollAction, PollEvent, POLL_ERROR_TOLERANCE};
use agent_sessions::cursor::queueing::{Queue, QueueAction, QueueEvent, BUSY_ATTEMPTS};
use agent_sessions::cursor::registry::{current_runs, CancelPlan, SessionRegistry};
use agent_sessions::cursor::session::{
    CaptureStart, Captured, CursorFailure, SessionError, SessionState,
};
use agent_sessions::cursor::stopping::{cancel_answer, Stop, StopAction, StopEvent};
use agent_sessions::cursor::turn::{
    meet_lock, run_reconciled, verdict, Admission, Turn, TurnAction, TurnEvent, TurnRequest,
};

fn run(id: &str) -> CursorRunId {
    CursorRunId::new(id)
}

fn agent() -> CursorAgentId {
    CursorAgentId::new("bc-1")
}

fn record(event: &str, data: &str) -> NativeRecord {
    NativeRecord { event: event.to_owned(), data: data.to_owned(), id: None }
}

fn assistant(text: &str) -> NativeRecord {
    record("assistant", &format!(r#"{{"text":"{text}"}}"#))
}

fn finished(run: &str, text: &str) -> NativeRecord {
    record("result", &format!(r#"{{"runId":"{run}","status":"FINISHED","text":"{text}"}}"#))
}

fn done() -> NativeRecord {
    record("done", "{}")
}

fn blocks(text: &str) -> Vec<ContentBlock> {
    vec![ContentBlock::Text(text.to_owned())]
}

fn failure(message: &str, rejected: bool) -> CursorFailure {
    CursorFailure { message: message.to_owned(), rejected }
}

fn entry(sequence: i64, run: Option<&str>, input: JournalInput) -> JournalEntry {
    JournalEntry { sequence, run: run.map(CursorRunId::new), input }
}

fn listing(id: &str, status: RunStatus) -> RunListing {
    RunListing { id: run(id), status }
}

/// Appends an input to the session's journal as a store would.
fn capture(
    state: &mut SessionState,
    run: Option<&CursorRunId>,
    input: JournalInput,
    emit: bool,
) -> Result<Option<Captured>, SessionError> {
    match state.begin_capture(run, &input) {
        CaptureStart::Refused(error) => Err(error),
        CaptureStart::Duplicate => Ok(None),
        CaptureStart::Append { expected } => {
            let entry = JournalEntry { sequence: expected + 1, run: run.cloned(), input };
            state.finish_capture(run, entry, emit).map(Some)
        }
    }
}

/// Ingests a run from a scripted stream; polls answer `Finished` with the
/// given text.
fn ingest(
    state: &mut SessionState,
    run: &CursorRunId,
    mode: IngestMode,
    records: Vec<NativeRecord>,
    polled: &str,
) -> Result<StopReason, SessionError> {
    let mut stream = records.into_iter();
    let (mut machine, mut action) = Ingest::start(state, run, mode);
    loop {
        let event = match action {
            IngestAction::OpenStream => IngestEvent::Opened(Ok(())),
            IngestAction::Read => match stream.next() {
                Some(record) => IngestEvent::Record(record),
                None => IngestEvent::StreamEnded,
            },
            IngestAction::Capture { input, emit } => IngestEvent::Captured(
                capture(state, Some(run), input, emit).map(|_| ()),
            ),
            IngestAction::Poll => IngestEvent::Polled(Ok(RunOutcome {
                status: RunStatus::Finished,
                text: Some(polled.to_owned()),
            })),
            IngestAction::Sleep { .. } => IngestEvent::Slept { cancelled: false },
            IngestAction::Finish(outcome) => return outcome,
        };
        assert!(machine.expects(&event), "{machine:?} does not expect {event:?}");
        (machine, action) = machine.step(state, false, event);
    }
}

fn opened() -> SessionState {
    SessionState::opened(Vec::new())
}

fn request() -> TurnRequest {
    TurnRequest {
        session: SessionId::new("cursor-acp-1"),
        repo: Some(RepoUrl { value: "https://github.com/a/b".to_owned() }),
        prompt: "go".to_owned(),
        blocks: blocks("go"),
    }
}

/// Drives a turn whose agent is created as `bc-1`/`run-1` and streams the
/// given records.
fn turn(
    state: &mut SessionState,
    records: Vec<NativeRecord>,
    created: Result<(), CursorFailure>,
) -> (Result<StopReason, SessionError>, Vec<String>) {
    let request = request();
    let mut log: Vec<String> = Vec::new();
    let mut records = Some(records);
    let mut created = Some(created);
    let (mut machine, mut action) = Turn::start(state);
    loop {
        let event = match action {
            TurnAction::ResolveModel => TurnEvent::Chosen(Ok(None)),
            TurnAction::LoadJournal => TurnEvent::Done(Ok(())),
            TurnAction::Backfill { current, .. } => {
                log.push(format!("backfill {:?}", current.map(|run| run.value)));
                TurnEvent::Done(Ok(()))
            }
            TurnAction::Capture { run, input, emit } => {
                log.push(format!("capture {}", name(&input)));
                TurnEvent::Done(capture(state, run.as_ref(), input, emit).map(|_| ()))
            }
            TurnAction::CreateAgent { open_pull_request, prompt, .. } => {
                log.push(format!("create {prompt} {open_pull_request}"));
                TurnEvent::Created(
                    created
                        .take()
                        .expect("created once")
                        .map(|()| (agent(), run("run-1")))
                        .map_err(SessionError::Cursor),
                )
            }
            TurnAction::CreateRun { .. } => {
                log.push("create run".to_owned());
                TurnEvent::Created(Ok((agent(), run("run-2"))))
            }
            TurnAction::CancelRun { run, .. } => {
                log.push(format!("cancel {}", run.value));
                TurnEvent::Done(Ok(()))
            }
            TurnAction::Stream { run } => {
                log.push(format!("stream {}", run.value));
                TurnEvent::Streamed(ingest(
                    state,
                    &run,
                    IngestMode::live(),
                    records.take().expect("streamed once"),
                    "hello",
                ))
            }
            TurnAction::Checkpoint { run } => {
                log.push(format!("checkpoint {}", run.value));
                TurnEvent::Done(Ok(()))
            }
            TurnAction::Finish(outcome) => return (outcome, log),
        };
        assert!(machine.expects(state, &event), "{machine:?} does not expect {event:?}");
        (machine, action) = machine.step(state, &request, event);
    }
}

fn name(input: &JournalInput) -> String {
    match input {
        JournalInput::HistoryComplete => "complete".to_owned(),
        JournalInput::Prompt(_) => "prompt".to_owned(),
        JournalInput::PromptAccepted(at) => format!("accepted {at}"),
        JournalInput::PromptAborted(at) => format!("aborted {at}"),
        JournalInput::TransportError(message) => format!("transport {message}"),
        JournalInput::Sse(record) => record.event.clone(),
        JournalInput::Poll(_) => "poll".to_owned(),
        JournalInput::Interrupted(reason) => format!("interrupted {reason}"),
        JournalInput::Reconciled => "reconciled".to_owned(),
    }
}

#[test]
fn a_turn_journals_its_prompt_sends_it_and_checkpoints() {
    let mut state = opened();
    let (outcome, log) = turn(
        &mut state,
        vec![assistant("hel"), finished("run-1", "hello"), done()],
        Ok(()),
    );
    assert_eq!(outcome, Ok(StopReason::EndTurn));
    assert_eq!(
        log,
        vec![
            "capture prompt",
            "create go true",
            "capture accepted 1",
            "backfill Some(\"run-1\")",
            "stream run-1",
            "checkpoint run-1",
        ]
    );
    assert_eq!(state.agent, Some(agent()));
    assert_eq!(state.active_run, None);
    assert_eq!(state.last_run, Some(run("run-1")));
    assert!(state.machine.complete(&run("run-1")));
    assert!(run_reconciled(&state.journal_entries, &run("run-1")));
    let sequences: Vec<i64> =
        state.journal_entries.iter().map(|entry| entry.sequence).collect();
    assert!(sequences.windows(2).all(|pair| pair[0] < pair[1]), "{sequences:?}");
}

#[test]
fn a_restored_session_must_load_before_it_takes_a_prompt() {
    let mut state = SessionState::restored(Some(agent()), None);
    let (outcome, log) = turn(&mut state, Vec::new(), Ok(()));
    assert_eq!(
        outcome,
        Err(SessionError::cursor(
            "Cursor session must load successfully before prompting".to_owned()
        ))
    );
    assert!(log.is_empty());
}

#[test]
fn a_rejected_prompt_is_journaled_as_aborted() {
    let mut state = opened();
    let (outcome, log) = turn(&mut state, Vec::new(), Err(failure("no", true)));
    assert_eq!(outcome, Err(SessionError::Cursor(failure("no", true))));
    assert_eq!(log, vec!["capture prompt", "create go true", "capture aborted 1"]);
}

#[test]
fn a_prompt_of_unknown_fate_is_left_as_it_is() {
    let mut state = opened();
    let (outcome, log) = turn(&mut state, Vec::new(), Err(failure("timeout", false)));
    assert_eq!(outcome, Err(SessionError::Cursor(failure("timeout", false))));
    assert_eq!(log, vec!["capture prompt", "create go true"]);
}

#[test]
fn a_follow_up_is_a_run_of_the_same_agent() {
    let mut state = opened();
    turn(&mut state, vec![finished("run-1", "a"), done()], Ok(())).0.unwrap();
    let (outcome, log) = turn(&mut state, vec![finished("run-2", "b"), done()], Ok(()));
    assert_eq!(outcome, Ok(StopReason::EndTurn));
    assert_eq!(log[0], "backfill None");
    assert!(log.contains(&"create run".to_owned()));
    assert_eq!(state.last_run, Some(run("run-2")));
}

#[test]
fn a_stop_before_the_run_exists_abandons_the_prompt() {
    let mut state = opened();
    let (mut machine, mut action) = Turn::start(&mut state);
    let request = request();
    let mut log = Vec::new();
    let outcome = loop {
        let event = match action {
            TurnAction::ResolveModel => {
                assert_eq!(state.cancel(), CancelPlan::Nothing);
                TurnEvent::Chosen(Ok(None))
            }
            TurnAction::LoadJournal => TurnEvent::Done(Ok(())),
            TurnAction::Capture { run, input, emit } => {
                log.push(name(&input));
                TurnEvent::Done(capture(&mut state, run.as_ref(), input, emit).map(|_| ()))
            }
            TurnAction::Finish(outcome) => break outcome,
            other => panic!("nothing is sent after a stop: {other:?}"),
        };
        assert!(machine.expects(&state, &event));
        (machine, action) = machine.step(&mut state, &request, event);
    };
    assert_eq!(outcome, Ok(StopReason::Cancelled));
    assert_eq!(log, vec!["prompt", "aborted 1"]);
}

#[test]
fn a_stop_that_outran_the_run_is_sent_once_the_run_exists() {
    let mut state = opened();
    let request = request();
    let (mut machine, mut action) = Turn::start(&mut state);
    let mut log = Vec::new();
    let outcome = loop {
        let event = match action {
            TurnAction::ResolveModel => TurnEvent::Chosen(Ok(None)),
            TurnAction::LoadJournal => TurnEvent::Done(Ok(())),
            TurnAction::Backfill { .. } => TurnEvent::Done(Ok(())),
            TurnAction::Capture { run, input, emit } => {
                log.push(name(&input));
                TurnEvent::Done(capture(&mut state, run.as_ref(), input, emit).map(|_| ()))
            }
            TurnAction::CreateAgent { .. } => {
                assert_eq!(state.cancel(), CancelPlan::Nothing);
                TurnEvent::Created(Ok((agent(), run("run-1"))))
            }
            TurnAction::CancelRun { run, .. } => {
                log.push(format!("cancel {}", run.value));
                TurnEvent::Done(Err(SessionError::cursor("best effort".to_owned())))
            }
            TurnAction::Stream { .. } => {
                log.push("stream".to_owned());
                TurnEvent::Streamed(Ok(StopReason::EndTurn))
            }
            TurnAction::Finish(outcome) => break outcome,
            other => panic!("not part of this turn: {other:?}"),
        };
        assert!(machine.expects(&state, &event));
        (machine, action) = machine.step(&mut state, &request, event);
    };
    assert_eq!(outcome, Ok(StopReason::Cancelled));
    assert_eq!(
        log,
        vec![
            "prompt",
            "accepted 1",
            "cancel run-1",
            "stream",
            "interrupted user cancelled the turn",
        ]
    );
    assert_eq!(state.active_run, None);
    assert_eq!(state.last_run, None, "nothing was reconciled");
}

#[test]
fn a_stop_does_not_cut_a_stream_that_still_speaks() {
    let state = opened();
    let r = run("r");
    let (ingest, action) = Ingest::start(&state, &r, IngestMode::live());
    assert_eq!(action, IngestAction::OpenStream);
    let (ingest, action) = ingest.step(&state, true, IngestEvent::Opened(Ok(())));
    assert_eq!(action, IngestAction::Read);
    let (ingest, action) = ingest.step(&state, true, IngestEvent::Record(assistant("hi")));
    assert_eq!(
        action,
        IngestAction::Capture { input: JournalInput::Sse(assistant("hi")), emit: true }
    );
    let (_, action) = ingest.step(&state, true, IngestEvent::Captured(Ok(())));
    assert_eq!(action, IngestAction::Read);
}

#[test]
fn an_interrupted_run_is_not_reconciled() {
    let state = opened();
    let r = run("r");
    let (ingest, _) = Ingest::start(&state, &r, IngestMode::live());
    let (ingest, _) = ingest.step(&state, false, IngestEvent::Opened(Err("down".to_owned())));
    let (ingest, action) = ingest.step(&state, false, IngestEvent::Captured(Ok(())));
    assert_eq!(action, IngestAction::Poll);
    let running = RunOutcome { status: RunStatus::Running, text: None };
    let (ingest, _) = ingest.step(&state, false, IngestEvent::Polled(Ok(running)));
    let (ingest, action) = ingest.step(&state, true, IngestEvent::Slept { cancelled: true });
    assert_eq!(
        action,
        IngestAction::Capture {
            input: JournalInput::Interrupted("cancelled while disconnected".to_owned()),
            emit: true,
        }
    );
    let (_, action) = ingest.step(&state, true, IngestEvent::Captured(Ok(())));
    assert_eq!(action, IngestAction::Finish(Ok(StopReason::Cancelled)));
}

#[test]
fn a_second_prompt_meets_a_busy_lock() {
    let mut state = opened();
    let session = SessionId::new("s");
    assert_eq!(meet_lock(true, &state, &session), Admission::Enter);
    assert_eq!(meet_lock(false, &state, &session), Admission::Wait);
    state.active_run = Some(run("r"));
    assert_eq!(
        meet_lock(false, &state, &session),
        Admission::Refuse(SessionError::TurnAlreadyActive(SessionId::new("s")))
    );
}

#[test]
fn a_cancelled_turn_answers_cancelled_unless_capture_failed() {
    assert_eq!(verdict(Ok(StopReason::EndTurn), false), Ok(StopReason::EndTurn));
    assert_eq!(verdict(Ok(StopReason::EndTurn), true), Ok(StopReason::Cancelled));
    assert_eq!(
        verdict(Err(SessionError::cursor("x".to_owned())), true),
        Ok(StopReason::Cancelled)
    );
    assert_eq!(
        verdict(Err(SessionError::Journal("x".to_owned())), true),
        Err(SessionError::Journal("x".to_owned()))
    );
}

#[test]
fn a_broken_stream_falls_back_to_polling() {
    let mut state = opened();
    let r = run("r");
    capture(&mut state, Some(&r), JournalInput::Prompt(blocks("go")), false).unwrap();
    let outcome = ingest(&mut state, &r, IngestMode::live(), vec![assistant("hel")], "hello");
    assert_eq!(outcome, Ok(StopReason::EndTurn));
    assert_eq!(name(&state.journal_entries.last().unwrap().input), "reconciled");
}

#[test]
fn a_reconnect_skips_what_is_already_captured() {
    let mut state = opened();
    let r = run("r");
    capture(&mut state, Some(&r), JournalInput::Sse(assistant("hel")), false).unwrap();
    assert_eq!(content_records(&state.journal_entries, &r), vec![assistant("hel")]);
    let before = state.journal_entries.len();
    let outcome = ingest(
        &mut state,
        &r,
        IngestMode::live(),
        vec![assistant("hel"), finished("r", "hello"), done()],
        "hello",
    );
    assert_eq!(outcome, Ok(StopReason::EndTurn));
    let captured: Vec<String> =
        state.journal_entries[before..].iter().map(|entry| name(&entry.input)).collect();
    assert_eq!(captured, vec!["result", "done", "reconciled"]);
}

#[test]
fn a_stream_that_does_not_continue_the_capture_is_refused() {
    let mut state = opened();
    let r = run("r");
    capture(&mut state, Some(&r), JournalInput::Sse(assistant("hel")), false).unwrap();
    let outcome = ingest(&mut state, &r, IngestMode::live(), vec![assistant("other")], "hello");
    assert_eq!(
        outcome,
        Err(SessionError::cursor(
            "Cursor stream prefix cannot be reconciled for r; refusing incomplete history"
                .to_owned()
        ))
    );
}

#[test]
fn an_unavailable_stream_is_opened_again_a_few_times() {
    let state = opened();
    let r = run("r");
    let unavailable = || record("error", r#"{"code":"stream_unavailable","message":"wait"}"#);
    let (mut machine, mut action) = Ingest::start(&state, &r, IngestMode::live());
    let mut opens = 0usize;
    let mut sleeps = 0usize;
    loop {
        let event = match action {
            IngestAction::OpenStream => {
                opens += 1;
                IngestEvent::Opened(Ok(()))
            }
            IngestAction::Read => IngestEvent::Record(unavailable()),
            IngestAction::Capture { .. } => IngestEvent::Captured(Ok(())),
            IngestAction::Sleep { millis } => {
                assert_eq!(millis, STREAM_RETRY_MILLIS);
                sleeps += 1;
                IngestEvent::Slept { cancelled: false }
            }
            IngestAction::Poll => break,
            IngestAction::Finish(outcome) => panic!("polling is left: {outcome:?}"),
        };
        assert!(machine.expects(&event));
        (machine, action) = machine.step(&state, false, event);
    }
    assert_eq!(opens, STREAM_RETRIES + 1);
    assert_eq!(sleeps, STREAM_RETRIES);
}

#[test]
fn hydration_needs_the_whole_stream() {
    let mut state = opened();
    let r = run("r");
    let outcome = ingest(&mut state, &r, IngestMode::hydrate(), vec![assistant("hel")], "hello");
    assert_eq!(
        outcome,
        Err(SessionError::cursor(
            "Cursor cannot fully hydrate run r: complete native stream unavailable".to_owned()
        ))
    );
}

#[test]
fn polling_gives_up_on_a_run_that_never_ends() {
    let state = opened();
    let r = run("r");
    let (mut machine, mut action) = Ingest::start(&state, &r, IngestMode::mirror());
    let mut polls = 0usize;
    let outcome = loop {
        let event = match action {
            IngestAction::OpenStream => IngestEvent::Opened(Err("down".to_owned())),
            IngestAction::Capture { .. } => IngestEvent::Captured(Ok(())),
            IngestAction::Poll => {
                polls += 1;
                IngestEvent::Polled(Ok(RunOutcome { status: RunStatus::Running, text: None }))
            }
            IngestAction::Sleep { millis } => {
                assert_eq!(millis, POLL_INTERVAL_MILLIS);
                IngestEvent::Slept { cancelled: false }
            }
            IngestAction::Read => panic!("the stream never opened"),
            IngestAction::Finish(outcome) => break outcome,
        };
        assert!(machine.expects(&event));
        (machine, action) = machine.step(&state, false, event);
    };
    assert_eq!(polls, POLL_ATTEMPTS);
    assert_eq!(
        outcome,
        Err(SessionError::cursor("Cursor run r did not reach a terminal state".to_owned()))
    );
}

#[test]
fn a_poll_tolerates_a_few_failures() {
    let (mut poll, mut action) = Poll::start();
    let mut asked = 0usize;
    let outcome = loop {
        let event = match action {
            PollAction::Ask => {
                asked += 1;
                PollEvent::Answered(Err(failure("500", false)))
            }
            PollAction::Sleep { .. } => PollEvent::Slept { cancelled: false },
            PollAction::Capture { .. } => panic!("nothing was answered"),
            PollAction::Finish(outcome) => break outcome,
        };
        assert!(poll.expects(&event));
        (poll, action) = poll.step(event);
    };
    assert_eq!(asked, POLL_ERROR_TOLERANCE + 1);
    assert_eq!(outcome, Err(SessionError::Cursor(failure("500", false))));
}

#[test]
fn a_poll_captures_the_answer_before_reading_it() {
    let (poll, action) = Poll::start();
    assert_eq!(action, PollAction::Ask);
    let raw = r#"{"status":"FINISHED","result":"hi"}"#;
    let (poll, action) = poll.step(PollEvent::Answered(Ok(raw.to_owned())));
    assert_eq!(action, PollAction::Capture { raw: raw.to_owned() });
    let (poll, action) = poll.step(PollEvent::Captured(Ok(())));
    assert_eq!(
        action,
        PollAction::Finish(Ok(RunOutcome {
            status: RunStatus::Finished,
            text: Some("hi".to_owned()),
        }))
    );
    assert!(!poll.expects(&PollEvent::Slept { cancelled: false }));
}

#[test]
fn a_busy_agent_is_waited_for() {
    let busy = |n: usize| if n < 3 { Err(failure("agent_busy", true)) } else { Ok(run("run-9")) };
    let (mut queue, mut action) = Queue::start(false);
    let mut asked = 0usize;
    let outcome = loop {
        let event = match action {
            QueueAction::Ask => {
                let answer = busy(asked);
                asked += 1;
                QueueEvent::Answered(answer)
            }
            QueueAction::Sleep { .. } => QueueEvent::Slept { cancelled: false },
            QueueAction::Finish(outcome) => break outcome,
        };
        assert!(queue.expects(&event));
        (queue, action) = queue.step(false, event);
    };
    assert_eq!(asked, 4);
    assert_eq!(outcome, Ok(run("run-9")));
}

#[test]
fn an_agent_that_stays_busy_rejects_the_prompt() {
    let (mut queue, mut action) = Queue::start(false);
    let mut asked = 0usize;
    let outcome = loop {
        let event = match action {
            QueueAction::Ask => {
                asked += 1;
                QueueEvent::Answered(Err(failure("agent_busy", true)))
            }
            QueueAction::Sleep { .. } => QueueEvent::Slept { cancelled: false },
            QueueAction::Finish(outcome) => break outcome,
        };
        (queue, action) = queue.step(false, event);
    };
    assert_eq!(asked, BUSY_ATTEMPTS);
    assert_eq!(
        outcome,
        Err(SessionError::Cursor(failure("the agent stayed busy for 900 seconds", true)))
    );
}

#[test]
fn a_stop_while_waiting_abandons_the_prompt() {
    let abandoned =
        failure("the prompt was cancelled while waiting for the agent to be free", true);
    let (_, action) = Queue::start(true);
    assert_eq!(action, QueueAction::Finish(Err(SessionError::Cursor(abandoned))));
    let (queue, _) = Queue::start(false);
    let (queue, action) =
        queue.step(false, QueueEvent::Answered(Err(failure("not found", true))));
    assert_eq!(
        action,
        QueueAction::Finish(Err(SessionError::Cursor(failure("not found", true))))
    );
    assert!(!queue.expects(&QueueEvent::Slept { cancelled: false }));
}

#[test]
fn a_failed_capture_stops_everything_until_reload() {
    let mut state = opened();
    assert_eq!(
        state.fail_capture("disk full".to_owned()),
        SessionError::Journal("disk full".to_owned())
    );
    assert_eq!(
        state.begin_capture(None, &JournalInput::HistoryComplete),
        CaptureStart::Refused(SessionError::Journal(
            "reload required after native journal failure".to_owned()
        ))
    );
    assert!(!state.ready_for_sync);
}

#[test]
fn a_repeated_poll_is_captured_once() {
    let mut state = opened();
    let r = run("r");
    let poll = || JournalInput::Poll(r#"{"status":"RUNNING"}"#.to_owned());
    assert!(capture(&mut state, Some(&r), poll(), true).unwrap().is_some());
    assert!(capture(&mut state, Some(&r), poll(), true).unwrap().is_none());
    assert_eq!(state.journal_entries.len(), 1);
}

#[test]
fn a_silent_capture_delivers_nothing() {
    let mut state = opened();
    let r = run("r");
    let captured = capture(&mut state, Some(&r), JournalInput::Sse(assistant("hi")), false)
        .unwrap()
        .unwrap();
    assert_eq!(captured.steps.len(), 1);
    assert!(captured.steps.iter().all(|shown| !shown.deliver));
    assert_eq!(captured.completion, None);
}

#[test]
fn a_recovered_tail_publishes_its_end_and_a_local_prompt_is_not_echoed() {
    let mut state = opened();
    let r = run("r");
    capture(&mut state, None, JournalInput::Prompt(blocks("go")), false).unwrap();
    state.active_run = Some(r.clone());
    let accepted =
        capture(&mut state, Some(&r), JournalInput::PromptAccepted(1), true).unwrap().unwrap();
    assert!(accepted
        .steps
        .iter()
        .all(|shown| !shown.deliver || !matches!(shown.step, ReplayStep::UserMessage(_))));

    state.active_run = None;
    let ended = capture(&mut state, Some(&r), JournalInput::Sse(finished("r", "hi")), true)
        .unwrap()
        .unwrap();
    assert_eq!(ended.completion, Some(TurnOutcome::Finished));
}

fn backfill(
    state: &mut SessionState,
    listings: Vec<RunListing>,
    reconcile: bool,
) -> (Result<bool, SessionError>, Vec<String>) {
    let mut log = Vec::new();
    let mut listings = Some(listings);
    let (mut machine, mut action) = Backfill::start();
    loop {
        let event = match action {
            BackfillAction::LoadJournal => BackfillEvent::Done(Ok(())),
            BackfillAction::ListRuns => {
                BackfillEvent::Listed(Ok(listings.take().expect("listed once")))
            }
            BackfillAction::Ingest { run } => {
                log.push(format!("ingest {}", run.value));
                if reconcile {
                    capture(state, Some(&run), JournalInput::Prompt(blocks("p")), false).unwrap();
                    capture(state, Some(&run), JournalInput::Reconciled, false).unwrap();
                }
                BackfillEvent::Done(Ok(()))
            }
            BackfillAction::RequireReload => {
                log.push("reload".to_owned());
                BackfillEvent::Done(Ok(()))
            }
            BackfillAction::Finish(outcome) => return (outcome, log),
        };
        assert!(machine.expects(&event), "{machine:?} does not expect {event:?}");
        (machine, action) = machine.step(state, &None, event);
    }
}

#[test]
fn runs_made_elsewhere_are_caught_up_oldest_first() {
    let mut state = opened();
    state.agent = Some(agent());
    state.last_run = Some(run("r1"));
    let listings = vec![
        listing("r3", RunStatus::Finished),
        listing("r2", RunStatus::Finished),
        listing("r1", RunStatus::Finished),
        listing("r0", RunStatus::Finished),
    ];
    let (outcome, log) = backfill(&mut state, listings, true);
    assert_eq!(outcome, Ok(true));
    assert_eq!(log, vec!["ingest r2", "ingest r3", "reload"]);
    assert!(state.reload_pending);
}

#[test]
fn nothing_newer_means_nothing_to_do() {
    let mut state = opened();
    state.last_run = Some(run("r1"));
    let (outcome, log) =
        backfill(&mut state, vec![listing("r1", RunStatus::Finished)], true);
    assert_eq!(outcome, Ok(false));
    assert!(log.is_empty());
}

#[test]
fn an_unreconciled_catch_up_is_an_error() {
    let mut state = opened();
    state.last_run = Some(run("r1"));
    let listings = vec![listing("r2", RunStatus::Finished), listing("r1", RunStatus::Finished)];
    let (outcome, _) = backfill(&mut state, listings, false);
    assert!(matches!(outcome, Err(SessionError::Cursor(_))), "{outcome:?}");
}

#[test]
fn without_a_watermark_only_pending_runs_are_mirrored() {
    let entries = vec![entry(1, Some("r2"), JournalInput::Sse(assistant("hi")))];
    let listings = vec![
        listing("r3", RunStatus::Finished),
        listing("r2", RunStatus::Finished),
        listing("r1", RunStatus::Finished),
    ];
    assert_eq!(plan_mirror(&entries, &listings, &None, &None), vec![run("r2")]);
    assert_eq!(
        plan_mirror(&entries, &listings, &Some(run("r1")), &Some(run("r3"))),
        vec![run("r2")],
        "the current run is left to its own turn"
    );
    let lost = vec![entry(1, Some("gone"), JournalInput::Sse(assistant("hi")))];
    assert_eq!(
        plan_mirror(&lost, &listings, &Some(run("r2")), &None),
        vec![run("gone"), run("r3")],
        "a pending run the list leaves out comes first"
    );
}

fn load(
    state: &mut SessionState,
    journal: Vec<JournalEntry>,
    listings: Vec<RunListing>,
) -> (Result<(), SessionError>, Vec<String>) {
    let mut log = Vec::new();
    let mut journal = Some(journal);
    let mut listings = Some(listings);
    let (mut machine, mut action) = Load::start(state);
    loop {
        let event = match action {
            LoadAction::LoadJournal => LoadEvent::Done(
                state.adopt_journal(journal.take().expect("loaded once")).map(|_| ()),
            ),
            LoadAction::ListRuns => LoadEvent::Listed(Ok(listings.take().expect("listed once"))),
            LoadAction::Hydrate { run } => {
                log.push(format!("hydrate {}", run.value));
                let outcome = ingest(
                    state,
                    &run,
                    IngestMode::hydrate(),
                    vec![
                        record(
                            "interaction_update",
                            r#"{"type":"user-message-appended","userMessage":{"text":"hi"}}"#,
                        ),
                        finished(&run.value, "done"),
                        done(),
                    ],
                    "done",
                );
                LoadEvent::Done(outcome.map(|_| ()))
            }
            LoadAction::CaptureComplete => {
                log.push("complete".to_owned());
                LoadEvent::Done(
                    capture(state, None, JournalInput::HistoryComplete, false).map(|_| ()),
                )
            }
            LoadAction::Deliver { batches } => {
                log.push(format!("deliver {}", batches.len()));
                LoadEvent::Done(Ok(()))
            }
            LoadAction::Checkpoint { run } => {
                log.push(format!("checkpoint {}", run.value));
                LoadEvent::Done(Ok(()))
            }
            LoadAction::Finish(outcome) => return (outcome, log),
        };
        assert!(machine.expects(&event), "{machine:?} does not expect {event:?}");
        (machine, action) = machine.step(state, event);
    }
}

#[test]
fn a_restored_session_is_hydrated_from_the_provider_once() {
    let mut state = SessionState::restored(Some(agent()), None);
    let listings = vec![listing("r2", RunStatus::Finished), listing("r1", RunStatus::Finished)];
    let (outcome, log) = load(&mut state, Vec::new(), listings);
    assert_eq!(outcome, Ok(()));
    assert_eq!(log[0], "hydrate r1");
    assert_eq!(log[1], "hydrate r2");
    assert_eq!(log[2], "complete");
    assert_eq!(log.last().unwrap(), "checkpoint r2");
    assert_eq!(state.last_run, Some(run("r2")));

    // The journal alone rebuilds it the next time.
    let journal: Vec<JournalEntry> = state
        .journal_entries
        .iter()
        .map(|entry| JournalEntry {
            sequence: entry.sequence,
            run: entry.run.clone(),
            input: entry.input.clone(),
        })
        .collect();
    let mut again = SessionState::restored(Some(agent()), None);
    let (outcome, log) = load(&mut again, journal, Vec::new());
    assert_eq!(outcome, Ok(()));
    assert!(log.iter().all(|line| !line.starts_with("hydrate")), "{log:?}");
    assert!(again.machine.complete(&run("r1")));
    assert!(again.machine.complete(&run("r2")));
}

#[test]
fn a_restored_agent_without_runs_has_no_history() {
    let mut state = SessionState::restored(Some(agent()), None);
    let (outcome, _) = load(&mut state, Vec::new(), Vec::new());
    assert_eq!(
        outcome,
        Err(SessionError::cursor(
            "Cursor history unavailable for restored session".to_owned()
        ))
    );
}

#[test]
fn sessions_are_minted_past_restored_ids() {
    let mut registry: SessionRegistry<u8> = SessionRegistry::new();
    assert_eq!(registry.open(1), SessionId::new("cursor-acp-1"));
    registry.restore(SessionId::new("cursor-acp-2"), 7);
    assert_eq!(registry.open(2), SessionId::new("cursor-acp-3"));
    assert!(registry.has_session(&SessionId::new("cursor-acp-2")));
    assert_eq!(registry.session(&SessionId::new("cursor-acp-2")), Ok(&7));
    registry.restore(SessionId::new("cursor-acp-2"), 8);
    assert_eq!(registry.session(&SessionId::new("cursor-acp-2")), Ok(&8));
    assert_eq!(registry.len(), 3);
    assert!(registry.close(&SessionId::new("cursor-acp-2")));
    assert!(!registry.close(&SessionId::new("cursor-acp-2")));
    assert_eq!(
        registry.session(&SessionId::new("cursor-acp-2")),
        Err(SessionError::UnknownSession(SessionId::new("cursor-acp-2")))
    );
    assert_eq!(registry.len(), 2);
    assert_eq!(*registry.session(&registry.at(0).id).unwrap(), registry.at(0).value);
}

#[test]
fn a_stop_goes_to_the_active_run_or_to_whatever_is_current() {
    let mut state = opened();
    assert_eq!(state.cancel(), CancelPlan::Nothing);
    assert!(state.cancelled);
    state.agent = Some(agent());
    assert_eq!(state.cancel(), CancelPlan::Current { agent: agent() });
    state.active_run = Some(run("r"));
    assert_eq!(state.cancel(), CancelPlan::Run { agent: agent(), run: run("r") });
    assert_eq!(state.cancel(), CancelPlan::Run { agent: agent(), run: run("r") });
    assert_eq!(
        current_runs(&vec![
            listing("r3", RunStatus::Running),
            listing("r2", RunStatus::Creating),
            listing("r1", RunStatus::Finished),
        ]),
        vec![run("r3"), run("r2")]
    );
}

#[test]
fn a_new_session_skips_an_id_that_was_restored() {
    let mut registry: SessionRegistry<u8> = SessionRegistry::new();
    registry.restore(SessionId::new("cursor-acp-1"), 1);
    assert!(registry.has_room());
    assert_eq!(registry.open(2), SessionId::new("cursor-acp-2"));
    assert!(registry.has_session(&SessionId::new("cursor-acp-1")));
    assert!(registry.has_session(&SessionId::new("cursor-acp-2")));
    let walked: Vec<u8> = (0..registry.len()).map(|place| registry.at(place).value).collect();
    assert_eq!(walked.len(), 2);
    assert!(walked.contains(&1) && walked.contains(&2), "{walked:?}");
}

#[test]
fn a_stop_attempts_every_current_run_and_tells_the_first_failure() {
    let mut state = opened();
    let (stop, action) = Stop::start(&mut state);
    assert_eq!(action, StopAction::Finish(Ok(())), "there is no agent to ask");
    assert!(!stop.expects(&StopEvent::Cancelled(Vec::new())));
    assert!(state.cancelled);

    state.agent = Some(agent());
    let (stop, action) = Stop::start(&mut state);
    assert_eq!(action, StopAction::ListRuns { agent: agent() });
    let listed = StopEvent::Listed(Ok(vec![
        listing("r3", RunStatus::Running),
        listing("r2", RunStatus::Finished),
        listing("r1", RunStatus::Creating),
    ]));
    assert!(stop.expects(&listed));
    let (stop, action) = stop.step(listed);
    assert_eq!(
        action,
        StopAction::CancelAll { agent: agent(), runs: vec![run("r3"), run("r1")] }
    );
    assert!(!stop.expects(&StopEvent::Cancelled(vec![Ok(())])), "one outcome for each run");
    let outcomes = StopEvent::Cancelled(vec![Ok(()), Err(failure("gone", false))]);
    let (_, action) = stop.step(outcomes);
    assert_eq!(action, StopAction::Finish(Err(SessionError::Cursor(failure("gone", false)))));

    state.active_run = Some(run("r"));
    let (stop, action) = Stop::start(&mut state);
    assert_eq!(action, StopAction::CancelAll { agent: agent(), runs: vec![run("r")] });
    let (_, action) = stop.step(StopEvent::Cancelled(vec![Ok(())]));
    assert_eq!(action, StopAction::Finish(Ok(())));
}

#[test]
fn a_stop_that_finds_nothing_is_no_error() {
    let mut state = opened();
    state.agent = Some(agent());
    let (stop, _) = Stop::start(&mut state);
    let (_, action) = stop.step(StopEvent::Listed(Err(failure("down", false))));
    assert_eq!(action, StopAction::Finish(Ok(())));
    let (stop, _) = Stop::start(&mut state);
    let (_, action) =
        stop.step(StopEvent::Listed(Ok(vec![listing("r1", RunStatus::Finished)])));
    assert_eq!(action, StopAction::Finish(Ok(())));
    assert_eq!(cancel_answer(Vec::new()), Ok(()));
    assert_eq!(
        cancel_answer(vec![Err(failure("a", false)), Err(failure("b", true))]),
        Err(SessionError::Cursor(failure("a", false)))
    );
}

#[test]
fn a_fresh_session_records_that_its_history_begins_here() {
    let mut state = opened();
    let (read, action) = JournalRead::start(&state);
    assert_eq!(action, ReadAction::Read);
    let (read, action) = read.step(&mut state, ReadEvent::Read(Ok(Vec::new())));
    assert_eq!(action, ReadAction::Rebuild { steps: Vec::new() });
    let (read, action) = read.step(&mut state, ReadEvent::Rebuilt(Ok(())));
    assert_eq!(action, ReadAction::CaptureComplete);
    assert!(state.fresh);
    let (read, action) = read.step(&mut state, ReadEvent::Captured(Ok(())));
    assert_eq!(action, ReadAction::Finish(Ok(())));
    assert!(!state.fresh);
    assert!(!read.expects(&ReadEvent::Captured(Ok(()))));
    let (_, action) = JournalRead::start(&state);
    assert_eq!(action, ReadAction::Finish(Ok(())), "a loaded journal is not read again");
}

#[test]
fn a_restored_session_begins_no_history_and_a_failed_read_is_told() {
    let mut state = SessionState::restored(Some(agent()), None);
    let (read, _) = JournalRead::start(&state);
    let (_, action) = read.step(&mut state, ReadEvent::Read(Err("offline".to_owned())));
    assert_eq!(
        action,
        ReadAction::Finish(Err(SessionError::cursor("offline".to_owned())))
    );
    assert!(!state.journal_loaded);
    let (read, _) = JournalRead::start(&state);
    let entries = vec![entry(1, Some("r"), JournalInput::Sse(assistant("hi")))];
    let (read, action) = read.step(&mut state, ReadEvent::Read(Ok(entries)));
    assert!(matches!(action, ReadAction::Rebuild { steps } if steps.len() == 1));
    let (_, action) = read.step(&mut state, ReadEvent::Rebuilt(Ok(())));
    assert_eq!(action, ReadAction::Finish(Ok(())));
}

#[test]
fn a_resolved_model_is_remembered() {
    let offered = Some(vec![CursorModel {
        id: "gpt".to_owned(),
        display_name: None,
        variants: Vec::new(),
    }]);
    let preferred = Some("gpt".to_owned());
    let mut state = opened();
    assert!(state.needs_models(&None, &preferred, &None));
    assert!(!state.needs_models(&None, &preferred, &offered));
    assert!(!state.needs_models(&None, &None, &None));
    assert_eq!(state.settle_model(&None, &preferred, &None), None);
    assert_eq!(state.model, None);
    let chosen = state.settle_model(&None, &preferred, &offered);
    assert_eq!(chosen, Some(ModelChoice { id: "gpt".to_owned(), params: Vec::new() }));
    assert_eq!(state.model, chosen);
    assert!(!state.needs_models(&None, &preferred, &None));
}

#[test]
fn only_a_loaded_session_takes_background_updates() {
    let mut state = opened();
    assert_eq!(state.sync_target(), None);
    state.agent = Some(agent());
    assert_eq!(state.sync_target(), Some(agent()));
    state.reload_pending = true;
    assert_eq!(state.sync_target(), None);
    assert_eq!(SessionState::restored(Some(agent()), None).sync_target(), None);
    state.set_model(ModelChoice { id: "m".to_owned(), params: Vec::new() });
    assert_eq!(state.model.as_ref().map(|model| model.id.as_str()), Some("m"));
}
