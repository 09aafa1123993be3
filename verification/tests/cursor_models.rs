//! Which model a run uses, and what the states of a run mean.

use agent_sessions::cursor::model::{turn_outcome, RunStatus, TurnOutcome};
use agent_sessions::cursor::models::{
    choose_model, clone_servers, effective_model, model_lookup, resolve_model_id, CursorModel,
    McpServer, McpTransport, ModelChoice, ModelLookup, ModelParam, ModelVariant,
};

fn param(id: &str, value: &str) -> ModelParam {
    ModelParam { id: id.to_owned(), value: value.to_owned() }
}

fn variant(value: &str, is_default: bool) -> ModelVariant {
    ModelVariant { params: vec![param("effort", value)], is_default }
}

fn model(id: &str, variants: Vec<ModelVariant>) -> CursorModel {
    CursorModel { id: id.to_owned(), display_name: None, variants }
}

fn models() -> Vec<CursorModel> {
    vec![
        model("auto", Vec::new()),
        model("gpt", vec![variant("low", false), variant("high", true)]),
        model("opus", vec![variant("low", false), variant("max", false)]),
    ]
}

fn choice(id: &str, params: Vec<ModelParam>) -> ModelChoice {
    ModelChoice { id: id.to_owned(), params }
}

#[test]
fn a_model_is_chosen_with_its_default_variant() {
    assert_eq!(
        resolve_model_id(&models(), "gpt"),
        Some(choice("gpt", vec![param("effort", "high")]))
    );
    assert_eq!(
        resolve_model_id(&models(), "opus"),
        Some(choice("opus", vec![param("effort", "low")]))
    );
    assert_eq!(resolve_model_id(&models(), "auto"), Some(choice("auto", Vec::new())));
    assert_eq!(resolve_model_id(&models(), "nope"), None);
}

#[test]
fn an_unknown_model_is_refused_with_the_list() {
    assert!(choose_model(&models(), "gpt").is_ok());
    let refusal = choose_model(&models(), "nope").expect_err("not offered");
    for word in ["nope", "auto", "gpt", "opus"] {
        assert!(refusal.contains(word), "{refusal}");
    }
}

#[test]
fn an_explicit_choice_wins_then_the_restored_one_then_the_default() {
    let explicit = Some(choice("x", Vec::new()));
    let restored = Some("gpt".to_owned());
    let default = Some("auto".to_owned());
    assert_eq!(
        model_lookup(&explicit, &restored, &default),
        ModelLookup::Chosen(choice("x", Vec::new()))
    );
    assert_eq!(
        model_lookup(&None, &restored, &default),
        ModelLookup::Resolve("gpt".to_owned())
    );
    assert_eq!(model_lookup(&None, &None, &default), ModelLookup::Resolve("auto".to_owned()));
    assert_eq!(model_lookup(&None, &None, &None), ModelLookup::NoOpinion);
}

#[test]
fn a_preference_that_cannot_be_resolved_is_no_opinion() {
    let lookup = || ModelLookup::Resolve("nope".to_owned());
    assert_eq!(effective_model(lookup(), &Some(models())), None);
    assert_eq!(effective_model(lookup(), &None), None);
    assert_eq!(effective_model(ModelLookup::NoOpinion, &Some(models())), None);
    assert_eq!(
        effective_model(ModelLookup::Chosen(choice("x", Vec::new())), &None),
        Some(choice("x", Vec::new()))
    );
}

#[test]
fn servers_are_copied_in_order() {
    let servers = vec![McpServer {
        name: "docs".to_owned(),
        transport: McpTransport::Sse,
        url: "https://x".to_owned(),
        headers: Vec::new(),
    }];
    assert_eq!(clone_servers(&servers), servers);
}

#[test]
fn run_states_are_read_from_the_wire() {
    for (text, status) in [
        ("CREATING", RunStatus::Creating),
        ("RUNNING", RunStatus::Running),
        ("FINISHED", RunStatus::Finished),
        ("CANCELLED", RunStatus::Cancelled),
        ("ERROR", RunStatus::Error),
        ("PAUSED", RunStatus::Unknown("PAUSED".to_owned())),
    ] {
        assert_eq!(RunStatus::from_wire(text), status);
    }
    assert!(RunStatus::Finished.is_terminal());
    assert!(RunStatus::Cancelled.is_terminal());
    assert!(RunStatus::Error.is_terminal());
    assert!(!RunStatus::Running.is_terminal());
    assert!(!RunStatus::Unknown("PAUSED".to_owned()).is_terminal());
    assert!(RunStatus::Creating.in_progress());
    assert!(!RunStatus::Finished.in_progress());
}

#[test]
fn an_end_is_reported_for_what_it_is() {
    assert_eq!(turn_outcome(&RunStatus::Finished), TurnOutcome::Finished);
    assert_eq!(turn_outcome(&RunStatus::Cancelled), TurnOutcome::Cancelled);
    let TurnOutcome::Failed { message } = turn_outcome(&RunStatus::Error) else {
        panic!("an error is a failure");
    };
    assert!(message.contains("Error") || message.contains("ERROR"), "{message}");
    let unknown = RunStatus::Unknown("a\"b".to_owned());
    assert!(unknown.label().contains("a\\\"b"), "{}", unknown.label());
}
