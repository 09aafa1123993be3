//! The bodies sent to the Cloud Agents endpoints.

use agent_sessions::cursor::models::{McpHeader, McpServer, McpTransport, ModelChoice, ModelParam};
use agent_sessions::cursor::wire::{
    CreateAgentRequest, CreateRunRequest, CreateRunResponse, McpServerSelection, ModelSelection,
    PromptBody, RepoSelection, RunSummary,
};
use agent_sessions::json::Json;

fn value(json: &Json) -> serde_json::Value {
    match json {
        Json::Null | Json::Number(None) => serde_json::Value::Null,
        Json::Bool(value) => serde_json::Value::Bool(*value),
        Json::Number(Some(value)) => serde_json::Value::from(*value),
        Json::Text(text) => serde_json::Value::String(text.clone()),
        Json::Array(items) => serde_json::Value::Array(items.iter().map(value).collect()),
        Json::Object(members) => serde_json::Value::Object(
            members
                .iter()
                .map(|member| (member.name.clone(), value(&member.value)))
                .collect(),
        ),
        Json::Verbatim(text) => parsed(text),
    }
}

fn parsed(text: &str) -> serde_json::Value {
    serde_json::from_str(text).expect("valid JSON")
}

fn request() -> CreateAgentRequest {
    CreateAgentRequest {
        prompt: PromptBody { text: "hi".to_owned() },
        repos: Vec::new(),
        model: None,
        mcp_servers: Vec::new(),
        auto_create_pr: false,
    }
}

#[test]
fn mcp_servers_serialize_to_the_documented_shape() {
    let server = McpServer {
        name: "docs".to_owned(),
        transport: McpTransport::Sse,
        url: "https://mcp.example.com/sse".to_owned(),
        headers: vec![McpHeader {
            name: "Authorization".to_owned(),
            value: "Bearer t".to_owned(),
        }],
    };

    assert_eq!(
        value(&McpServerSelection::from_server(&server).to_json()),
        parsed(
            r#"{
                "name": "docs",
                "type": "sse",
                "url": "https://mcp.example.com/sse",
                "headers": { "Authorization": "Bearer t" }
            }"#
        )
    );
}

#[test]
fn headerless_mcp_servers_omit_the_key() {
    let server = McpServer {
        name: "plain".to_owned(),
        transport: McpTransport::Http,
        url: "https://mcp.example.com".to_owned(),
        headers: Vec::new(),
    };

    assert_eq!(
        value(&McpServerSelection::from_server(&server).to_json()),
        parsed(r#"{ "name": "plain", "type": "http", "url": "https://mcp.example.com" }"#)
    );
}

#[test]
fn a_repeated_header_keeps_its_last_value_and_names_are_sorted() {
    let header = |name: &str, value: &str| McpHeader {
        name: name.to_owned(),
        value: value.to_owned(),
    };
    let server = McpServer {
        name: "docs".to_owned(),
        transport: McpTransport::Http,
        url: "https://mcp.example.com".to_owned(),
        headers: vec![header("b", "1"), header("a", "2"), header("b", "3")],
    };
    let selection = McpServerSelection::from_server(&server);
    assert_eq!(selection.headers.len(), 2);
    assert_eq!(selection.headers.key(0), "a");
    assert_eq!(selection.headers.at(1).value, "3");
    assert_eq!(
        value(&selection.to_json())["headers"],
        parsed(r#"{"a": "2", "b": "3"}"#)
    );
}

#[test]
fn no_mcp_servers_means_no_field() {
    let body = value(&request().to_json());
    assert!(body.get("mcpServers").is_none(), "got {body}");
}

#[test]
fn a_repo_agent_asks_for_a_pull_request() {
    let request = CreateAgentRequest {
        repos: vec![RepoSelection {
            url: "https://github.com/macro-inc/macro".to_owned(),
            starting_ref: "main".to_owned(),
        }],
        auto_create_pr: true,
        ..request()
    };
    let body = value(&request.to_json());
    assert_eq!(body.get("autoCreatePR"), Some(&serde_json::Value::Bool(true)));
    assert_eq!(
        body["repos"],
        parsed(r#"[{"url": "https://github.com/macro-inc/macro", "startingRef": "main"}]"#)
    );
}

#[test]
fn a_repoless_agent_omits_the_pull_request_flag() {
    let body = value(&request().to_json());
    assert!(body.get("autoCreatePR").is_none(), "got {body}");
    assert_eq!(body, parsed(r#"{"prompt": {"text": "hi"}}"#));
}

#[test]
fn a_run_sends_its_model_with_the_variants_parameters() {
    let choice = ModelChoice {
        id: "gpt".to_owned(),
        params: vec![ModelParam { id: "effort".to_owned(), value: "high".to_owned() }],
    };
    let request = CreateRunRequest {
        prompt: PromptBody { text: "go".to_owned() },
        model: Some(ModelSelection::from_choice(&choice)),
    };
    assert_eq!(
        value(&request.to_json()),
        parsed(
            r#"{"prompt": {"text": "go"},
                "model": {"id": "gpt", "params": [{"id": "effort", "value": "high"}]}}"#
        )
    );
    let plain = CreateRunRequest {
        prompt: PromptBody { text: "go".to_owned() },
        model: Some(ModelSelection { id: "gpt".to_owned(), params: Vec::new() }),
    };
    assert_eq!(value(&plain.to_json())["model"], parsed(r#"{"id": "gpt"}"#));
}

#[test]
fn a_created_run_is_read_in_both_shapes() {
    let run = || RunSummary { id: "run-1".to_owned() };
    assert_eq!(CreateRunResponse::Wrapped { run: run() }.into_run_id(), "run-1");
    assert_eq!(CreateRunResponse::Bare(run()).into_run_id(), "run-1");
}
