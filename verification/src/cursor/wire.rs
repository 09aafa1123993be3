//! Request and response bodies of the Cloud Agents endpoints.
//!
//! Only the fields this library reads or writes are modelled. Request bodies
//! know their own JSON: a field with nothing to say is left out rather than
//! sent empty, because Cursor reads an empty one as an opinion.

use crate::cursor::model::RunStatus;
use crate::cursor::models::{
    ChoiceView, HeaderView, McpHeader, McpServer, McpTransport, ModelChoice, ParamView,
};
use crate::json::{
    array, find_member, items_view, members_view, no_items, no_members, object, push_item,
    push_member, string, Json, JsonView, Member,
};
use crate::ordered::{text_less, OrderedMap, Pair};
use crate::text::Text;
use vstd::prelude::*;

verus! {

/// The prompt payload shared by agent and run creation.
#[derive(Debug, PartialEq, Eq)]
pub struct PromptBody {
    /// The prompt text.
    pub text: String,
}

/// One repository for a new agent to clone.
#[derive(Debug, PartialEq, Eq)]
pub struct RepoSelection {
    /// HTTPS repository url.
    pub url: String,
    /// Ref to start from.
    pub starting_ref: String,
}

/// An explicit model choice: an id plus the params that pin its variant.
#[derive(Debug, PartialEq, Eq)]
pub struct ModelSelection {
    /// Model id.
    pub id: String,
    /// The variant's parameters. Left out when empty rather than sent as `[]`,
    /// which Cursor reads as "a variant with no params" and may not have.
    pub params: Vec<ModelParamSelection>,
}

/// One `{id, value}` parameter of a model variant.
#[derive(Debug, PartialEq, Eq)]
pub struct ModelParamSelection {
    /// The parameter's id.
    pub id: String,
    /// Its value.
    pub value: String,
}

/// The models an account is offered.
#[derive(Debug, PartialEq, Eq)]
pub struct ListModelsResponse {
    /// The offered models.
    pub items: Vec<ModelListing>,
}

/// One model as it is offered.
#[derive(Debug, PartialEq, Eq)]
pub struct ModelListing {
    /// The id to send.
    pub id: String,
    /// The human-readable name.
    pub display_name: Option<String>,
    /// The accepted id and parameter combinations.
    pub variants: Vec<VariantListing>,
}

/// One accepted parameter combination for a model.
#[derive(Debug, PartialEq, Eq)]
pub struct VariantListing {
    /// The parameters this variant fixes.
    pub params: Vec<ParamListing>,
    /// Whether Cursor marks this the default.
    pub is_default: bool,
}

/// One `{id, value}` pair inside a variant.
#[derive(Debug, PartialEq, Eq)]
pub struct ParamListing {
    /// The parameter's id.
    pub id: String,
    /// Its value.
    pub value: String,
}

/// One tool server for a new agent to connect to. Only remote transports: the
/// agent's sandbox cannot reach a local executable.
#[derive(Debug, PartialEq, Eq)]
pub struct McpServerSelection {
    /// The client's name for the server.
    pub name: String,
    /// How it is reached.
    pub transport: McpTransport,
    /// The server's url.
    pub url: String,
    /// Headers to send with each request. Left out entirely when there are
    /// none.
    pub headers: OrderedMap<String>,
}

/// A request to create an agent.
#[derive(Debug, PartialEq, Eq)]
pub struct CreateAgentRequest {
    /// The initial prompt.
    pub prompt: PromptBody,
    /// Repositories to clone; empty means a repo-less agent.
    pub repos: Vec<RepoSelection>,
    /// Model override, when configured.
    pub model: Option<ModelSelection>,
    /// Tool servers the client configured. Left out when empty so Cursor's own
    /// configuration is left alone.
    pub mcp_servers: Vec<McpServerSelection>,
    /// Ask Cursor to open a pull request. Left out when false, so a repo-less
    /// agent sends no opinion at all.
    pub auto_create_pr: bool,
}

/// The created agent and its first run together.
#[derive(Debug, PartialEq, Eq)]
pub struct CreateAgentResponse {
    /// The created agent.
    pub agent: AgentSummary,
    /// Its initial run.
    pub run: RunSummary,
}

/// The slice of an agent record this library reads.
#[derive(Debug, PartialEq, Eq)]
pub struct AgentSummary {
    /// Agent id.
    pub id: String,
    /// Display name Cursor derived from the prompt.
    pub name: String,
    /// The agent's page on cursor.com.
    pub url: String,
}

/// The slice of a run record the fallback poll reads.
#[derive(Debug, PartialEq, Eq)]
pub struct RunDetail {
    /// Where the run is in its lifecycle.
    pub status: RunStatus,
    /// The final assistant reply, present once the run is terminal.
    pub result: Option<String>,
}

/// A page of an agent's runs.
#[derive(Debug, PartialEq, Eq)]
pub struct ListRunsResponse {
    /// The agent's runs, newest first.
    pub items: Vec<RunListItem>,
    /// Where the next page begins, absent on the last page.
    pub next_cursor: Option<String>,
}

/// One run in a page.
#[derive(Debug, PartialEq, Eq)]
pub struct RunListItem {
    /// Run id.
    pub id: String,
    /// Where the run is in its lifecycle.
    pub status: RunStatus,
}

/// A page of agents.
#[derive(Debug, PartialEq, Eq)]
pub struct ListAgentsResponse {
    /// The page of agents, newest first.
    pub items: Vec<AgentSummary>,
    /// Where the next page begins, absent on the last page.
    pub next_cursor: Option<String>,
}

/// The answer to archiving an agent.
#[derive(Debug, PartialEq, Eq)]
pub struct ArchiveAgentResponse {
    /// The archived agent's id.
    pub id: String,
}

/// Who an API key is. Service-account keys carry only the key's own name.
#[derive(Debug, PartialEq, Eq)]
pub struct MeResponse {
    /// Display name of the API key.
    pub api_key_name: String,
    /// Email of the key's owner; absent on service-account keys.
    pub user_email: Option<String>,
}

/// The slice of a run record this library reads.
#[derive(Debug, PartialEq, Eq)]
pub struct RunSummary {
    /// Run id.
    pub id: String,
}

/// A request to open a follow-up run.
#[derive(Debug, PartialEq, Eq)]
pub struct CreateRunRequest {
    /// The follow-up prompt.
    pub prompt: PromptBody,
    /// The model for this run.
    pub model: Option<ModelSelection>,
}

/// The created run. Observed both as a bare run object and under a `run` key;
/// both shapes are accepted rather than betting on one.
#[derive(Debug, PartialEq, Eq)]
pub enum CreateRunResponse {
    /// The run nested under a `run` key.
    Wrapped {
        /// The created run.
        run: RunSummary,
    },
    /// The run as the whole body.
    Bare(RunSummary),
}

impl CreateRunResponse {
    /// The created run's id, whichever shape arrived.
    pub fn into_run_id(self) -> (id: String)
        ensures
            id == (match self {
                CreateRunResponse::Wrapped { run } => run.id,
                CreateRunResponse::Bare(run) => run.id,
            }),
    {
        match self {
            CreateRunResponse::Wrapped { run } => run.id,
            CreateRunResponse::Bare(run) => run.id,
        }
    }
}

impl DeepView for ModelParamSelection {
    type V = ParamView;

    open spec fn deep_view(&self) -> ParamView {
        ParamView { id: self.id@, value: self.value@ }
    }
}

impl DeepView for ModelSelection {
    type V = ChoiceView;

    open spec fn deep_view(&self) -> ChoiceView {
        ChoiceView { id: self.id@, params: self.params.deep_view() }
    }
}

impl ModelSelection {
    /// The selection that sends a choice.
    pub fn from_choice(choice: &ModelChoice) -> (selection: ModelSelection)
        ensures
            selection.deep_view() == choice.deep_view(),
    {
        let mut params: Vec<ModelParamSelection> = Vec::new();
        let mut i: usize = 0;
        while i < choice.params.len()
            invariant
                i <= choice.params@.len(),
                params@.len() == i,
                forall|k: int|
                    0 <= k < i ==> (#[trigger] params@[k]).deep_view()
                        == choice.params@[k].deep_view(),
            decreases choice.params@.len() - i,
        {
            params.push(
                ModelParamSelection {
                    id: choice.params[i].id.clone(),
                    value: choice.params[i].value.clone(),
                },
            );
            i = i + 1;
        }
        assert(params.deep_view() =~= choice.params.deep_view());
        ModelSelection { id: choice.id.clone(), params }
    }
}

/// Headers as a map. A repeated name is the client contradicting itself, and
/// last-wins is the only reading a map allows.
pub open spec fn header_map(headers: Seq<HeaderView>) -> Map<Text, Text>
    decreases headers.len(),
{
    if headers.len() == 0 {
        Map::empty()
    } else {
        header_map(headers.drop_last()).insert(headers.last().name, headers.last().value)
    }
}

/// The contents of a map of strings, as text.
pub open spec fn text_contents(map: OrderedMap<String>) -> Map<Text, Text> {
    map.contents().map_values(|value: String| value@)
}

impl McpServerSelection {
    /// The selection that sends a server.
    pub fn from_server(server: &McpServer) -> (selection: McpServerSelection)
        ensures
            selection.name@ == server.name@,
            selection.transport == server.transport,
            selection.url@ == server.url@,
            selection.headers.wf(),
            text_contents(selection.headers) == header_map(server.headers.deep_view()),
    {
        let ghost all = server.headers.deep_view();
        let mut headers: OrderedMap<String> = OrderedMap::new();
        assert(text_contents(headers) =~= header_map(all.take(0)));
        let mut i: usize = 0;
        while i < server.headers.len()
            invariant
                i <= server.headers@.len(),
                all == server.headers.deep_view(),
                headers.wf(),
                text_contents(headers) == header_map(all.take(i as int)),
            decreases server.headers@.len() - i,
        {
            let header: &McpHeader = &server.headers[i];
            let ghost before = text_contents(headers);
            proof {
                assert(all.take(i + 1).drop_last() =~= all.take(i as int));
                assert(all.take(i + 1).last() == header.deep_view());
            }
            headers.insert(header.name.clone(), header.value.clone());
            assert(text_contents(headers) =~= before.insert(header.name@, header.value@));
            i = i + 1;
        }
        assert(all.take(i as int) =~= all);
        McpServerSelection {
            name: server.name.clone(),
            transport: server.transport,
            url: server.url.clone(),
            headers,
        }
    }
}

/// How a transport is named on the wire.
pub open spec fn transport_name(transport: McpTransport) -> Text {
    match transport {
        McpTransport::Http => "http"@,
        McpTransport::Sse => "sse"@,
    }
}

impl McpTransport {
    /// How the transport is named on the wire.
    pub fn as_str(&self) -> (name: &'static str)
        ensures
            name@ == transport_name(*self),
    {
        match self {
            McpTransport::Http => "http",
            McpTransport::Sse => "sse",
        }
    }
}

/// A member that is there only where it has something to say.
pub open spec fn optional_member(present: bool, name: Text, value: JsonView) -> Seq<
    (Text, JsonView),
> {
    if present {
        seq![(name, value)]
    } else {
        Seq::empty()
    }
}

/// A prompt's JSON.
pub open spec fn prompt_json(prompt: PromptBody) -> JsonView {
    JsonView::Object(seq![("text"@, JsonView::Text(prompt.text@))])
}

/// A repository's JSON.
pub open spec fn repo_json(repo: RepoSelection) -> JsonView {
    JsonView::Object(
        seq![
            ("url"@, JsonView::Text(repo.url@)),
            ("startingRef"@, JsonView::Text(repo.starting_ref@)),
        ],
    )
}

/// A parameter's JSON.
pub open spec fn param_json(param: ModelParamSelection) -> JsonView {
    JsonView::Object(
        seq![("id"@, JsonView::Text(param.id@)), ("value"@, JsonView::Text(param.value@))],
    )
}

/// A model selection's JSON.
pub open spec fn model_json(model: ModelSelection) -> JsonView {
    JsonView::Object(
        seq![("id"@, JsonView::Text(model.id@))] + optional_member(
            model.params@.len() > 0,
            "params"@,
            JsonView::Array(
                model.params@.map_values(|param: ModelParamSelection| param_json(param)),
            ),
        ),
    )
}

/// The member of a model that was chosen.
pub open spec fn model_member(model: Option<ModelSelection>) -> Seq<(Text, JsonView)> {
    match model {
        Some(model) => seq![("model"@, model_json(model))],
        None => Seq::empty(),
    }
}

/// The headers' JSON, in the order of their names.
pub open spec fn headers_json(headers: OrderedMap<String>) -> Seq<(Text, JsonView)> {
    Seq::new(
        headers.count(),
        |i: int|
            (
                headers.key_at(i),
                JsonView::Text(headers.contents()[headers.key_at(i)]@),
            ),
    )
}

/// A tool server's JSON.
pub open spec fn server_json(server: McpServerSelection) -> JsonView {
    JsonView::Object(
        seq![
            ("name"@, JsonView::Text(server.name@)),
            ("type"@, JsonView::Text(transport_name(server.transport))),
            ("url"@, JsonView::Text(server.url@)),
        ] + optional_member(
            server.headers.count() > 0,
            "headers"@,
            JsonView::Object(headers_json(server.headers)),
        ),
    )
}

/// An agent request's JSON.
pub open spec fn create_agent_json(request: CreateAgentRequest) -> JsonView {
    JsonView::Object(
        seq![("prompt"@, prompt_json(request.prompt))] + optional_member(
            request.repos@.len() > 0,
            "repos"@,
            JsonView::Array(request.repos@.map_values(|repo: RepoSelection| repo_json(repo))),
        ) + model_member(request.model) + optional_member(
            request.mcp_servers@.len() > 0,
            "mcpServers"@,
            JsonView::Array(
                request.mcp_servers@.map_values(|server: McpServerSelection| server_json(server)),
            ),
        ) + optional_member(request.auto_create_pr, "autoCreatePR"@, JsonView::Bool(true)),
    )
}

/// A run request's JSON.
pub open spec fn create_run_json(request: CreateRunRequest) -> JsonView {
    JsonView::Object(
        seq![("prompt"@, prompt_json(request.prompt))] + model_member(request.model),
    )
}

impl PromptBody {
    /// The prompt's JSON.
    pub fn to_json(&self) -> (json: Json)
        ensures
            json@ == prompt_json(*self),
    {
        let mut members: Vec<Member> = no_members();
        push_member(&mut members, "text", string(self.text.as_str()));
        assert(members_view(members@) =~= seq![("text"@, JsonView::Text(self.text@))]);
        object(members)
    }
}

impl RepoSelection {
    /// The repository's JSON.
    pub fn to_json(&self) -> (json: Json)
        ensures
            json@ == repo_json(*self),
    {
        let mut members: Vec<Member> = no_members();
        push_member(&mut members, "url", string(self.url.as_str()));
        push_member(&mut members, "startingRef", string(self.starting_ref.as_str()));
        assert(members_view(members@) =~= seq![
            ("url"@, JsonView::Text(self.url@)),
            ("startingRef"@, JsonView::Text(self.starting_ref@)),
        ]);
        object(members)
    }
}

impl ModelParamSelection {
    /// The parameter's JSON.
    pub fn to_json(&self) -> (json: Json)
        ensures
            json@ == param_json(*self),
    {
        let mut members: Vec<Member> = no_members();
        push_member(&mut members, "id", string(self.id.as_str()));
        push_member(&mut members, "value", string(self.value.as_str()));
        assert(members_view(members@) =~= seq![
            ("id"@, JsonView::Text(self.id@)),
            ("value"@, JsonView::Text(self.value@)),
        ]);
        object(members)
    }
}

impl ModelSelection {
    /// The selection's JSON.
    pub fn to_json(&self) -> (json: Json)
        ensures
            json@ == model_json(*self),
    {
        let mut members: Vec<Member> = no_members();
        push_member(&mut members, "id", string(self.id.as_str()));
        let ghost id = seq![("id"@, JsonView::Text(self.id@))];
        assert(members_view(members@) =~= id);
        if !self.params.is_empty() {
            let mut items: Vec<Json> = no_items();
            let mut i: usize = 0;
            let ghost views = self.params@.map_values(
                |param: ModelParamSelection| param_json(param),
            );
            assert(views.take(0) =~= Seq::<JsonView>::empty());
            while i < self.params.len()
                invariant
                    i <= self.params@.len(),
                    views == self.params@.map_values(
                        |param: ModelParamSelection| param_json(param),
                    ),
                    items_view(items@) == views.take(i as int),
                decreases self.params@.len() - i,
            {
                push_item(&mut items, self.params[i].to_json());
                assert(views.take(i + 1) =~= views.take(i as int).push(views[i as int]));
                i = i + 1;
            }
            assert(views.take(i as int) =~= views);
            push_member(&mut members, "params", array(items));
            assert(members_view(members@) =~= id + seq![("params"@, JsonView::Array(views))]);
        } else {
            assert(id + Seq::<(Text, JsonView)>::empty() =~= id);
        }
        object(members)
    }
}

impl McpServerSelection {
    /// The server's JSON.
    pub fn to_json(&self) -> (json: Json)
        requires
            self.headers.wf(),
        ensures
            json@ == server_json(*self),
    {
        let mut members: Vec<Member> = no_members();
        push_member(&mut members, "name", string(self.name.as_str()));
        push_member(&mut members, "type", string(self.transport.as_str()));
        push_member(&mut members, "url", string(self.url.as_str()));
        let ghost fixed = seq![
            ("name"@, JsonView::Text(self.name@)),
            ("type"@, JsonView::Text(transport_name(self.transport))),
            ("url"@, JsonView::Text(self.url@)),
        ];
        assert(members_view(members@) =~= fixed);
        if !self.headers.is_empty() {
            let mut headers: Vec<Member> = no_members();
            let mut i: usize = 0;
            let count: usize = self.headers.len();
            let ghost views = headers_json(self.headers);
            assert(views.take(0) =~= Seq::<(Text, JsonView)>::empty());
            while i < count
                invariant
                    i <= count,
                    count == self.headers.count(),
                    self.headers.wf(),
                    views == headers_json(self.headers),
                    members_view(headers@) == views.take(i as int),
                decreases count - i,
            {
                let pair: &Pair<String> = self.headers.at(i);
                push_member(&mut headers, pair.key.as_str(), string(pair.value.as_str()));
                assert(views.take(i + 1) =~= views.take(i as int).push(views[i as int]));
                i = i + 1;
            }
            assert(views.take(i as int) =~= views);
            push_member(&mut members, "headers", object(headers));
            assert(members_view(members@) =~= fixed + seq![("headers"@, JsonView::Object(views))]);
        } else {
            assert(fixed + Seq::<(Text, JsonView)>::empty() =~= fixed);
        }
        object(members)
    }
}

fn repos_json(repos: &Vec<RepoSelection>) -> (json: Json)
    ensures
        json@ == JsonView::Array(repos@.map_values(|repo: RepoSelection| repo_json(repo))),
{
    let mut items: Vec<Json> = no_items();
    let mut i: usize = 0;
    let ghost views = repos@.map_values(|repo: RepoSelection| repo_json(repo));
    assert(views.take(0) =~= Seq::<JsonView>::empty());
    while i < repos.len()
        invariant
            i <= repos@.len(),
            views == repos@.map_values(|repo: RepoSelection| repo_json(repo)),
            items_view(items@) == views.take(i as int),
        decreases repos@.len() - i,
    {
        push_item(&mut items, repos[i].to_json());
        assert(views.take(i + 1) =~= views.take(i as int).push(views[i as int]));
        i = i + 1;
    }
    assert(views.take(i as int) =~= views);
    array(items)
}

fn servers_json(servers: &Vec<McpServerSelection>) -> (json: Json)
    requires
        forall|i: int| 0 <= i < servers@.len() ==> (#[trigger] servers@[i]).headers.wf(),
    ensures
        json@ == JsonView::Array(
            servers@.map_values(|server: McpServerSelection| server_json(server)),
        ),
{
    let mut items: Vec<Json> = no_items();
    let mut i: usize = 0;
    let ghost views = servers@.map_values(|server: McpServerSelection| server_json(server));
    assert(views.take(0) =~= Seq::<JsonView>::empty());
    while i < servers.len()
        invariant
            i <= servers@.len(),
            forall|k: int| 0 <= k < servers@.len() ==> (#[trigger] servers@[k]).headers.wf(),
            views == servers@.map_values(|server: McpServerSelection| server_json(server)),
            items_view(items@) == views.take(i as int),
        decreases servers@.len() - i,
    {
        push_item(&mut items, servers[i].to_json());
        assert(views.take(i + 1) =~= views.take(i as int).push(views[i as int]));
        i = i + 1;
    }
    assert(views.take(i as int) =~= views);
    array(items)
}

impl CreateAgentRequest {
    /// Header maps are in order.
    pub open spec fn wf(self) -> bool {
        forall|i: int|
            0 <= i < self.mcp_servers@.len() ==> (#[trigger] self.mcp_servers@[i]).headers.wf()
    }

    /// The request's JSON.
    pub fn to_json(&self) -> (json: Json)
        requires
            self.wf(),
        ensures
            json@ == create_agent_json(*self),
    {
        let mut members: Vec<Member> = no_members();
        push_member(&mut members, "prompt", self.prompt.to_json());
        let ghost prompt = seq![("prompt"@, prompt_json(self.prompt))];
        assert(members_view(members@) =~= prompt);
        if !self.repos.is_empty() {
            push_member(&mut members, "repos", repos_json(&self.repos));
        }
        let ghost repos = prompt + optional_member(
            self.repos@.len() > 0,
            "repos"@,
            JsonView::Array(self.repos@.map_values(|repo: RepoSelection| repo_json(repo))),
        );
        assert(members_view(members@) =~= repos);
        if let Some(model) = &self.model {
            push_member(&mut members, "model", model.to_json());
        }
        let ghost model = repos + model_member(self.model);
        assert(members_view(members@) =~= model);
        if !self.mcp_servers.is_empty() {
            push_member(&mut members, "mcpServers", servers_json(&self.mcp_servers));
        }
        let ghost servers = model + optional_member(
            self.mcp_servers@.len() > 0,
            "mcpServers"@,
            JsonView::Array(
                self.mcp_servers@.map_values(|server: McpServerSelection| server_json(server)),
            ),
        );
        assert(members_view(members@) =~= servers);
        if self.auto_create_pr {
            push_member(&mut members, "autoCreatePR", Json::Bool(true));
        }
        assert(members_view(members@) =~= servers + optional_member(
            self.auto_create_pr,
            "autoCreatePR"@,
            JsonView::Bool(true),
        ));
        object(members)
    }
}

impl CreateRunRequest {
    /// The request's JSON.
    pub fn to_json(&self) -> (json: Json)
        ensures
            json@ == create_run_json(*self),
    {
        let mut members: Vec<Member> = no_members();
        push_member(&mut members, "prompt", self.prompt.to_json());
        let ghost prompt = seq![("prompt"@, prompt_json(self.prompt))];
        assert(members_view(members@) =~= prompt);
        if let Some(model) = &self.model {
            push_member(&mut members, "model", model.to_json());
        }
        assert(members_view(members@) =~= prompt + model_member(self.model));
        object(members)
    }
}

/// A member of two lists joined is the first list's, or else the second's.
pub proof fn lemma_member_of_either(
    left: Seq<(Text, JsonView)>,
    right: Seq<(Text, JsonView)>,
    name: Text,
)
    ensures
        find_member(left + right, name) == (match find_member(left, name) {
            Some(value) => Some(value),
            None => find_member(right, name),
        }),
    decreases left.len(),
{
    if left.len() == 0 {
        assert(left + right =~= right);
    } else {
        assert((left + right).skip(1) =~= left.skip(1) + right);
        lemma_member_of_either(left.skip(1), right, name);
    }
}

/// A field that is sent only sometimes is found exactly when it is sent.
pub proof fn lemma_optional_member(present: bool, name: Text, value: JsonView, wanted: Text)
    ensures
        find_member(optional_member(present, name, value), wanted) == (if present && name
            == wanted {
            Some(value)
        } else {
            None
        }),
{
    let members = optional_member(present, name, value);
    if present {
        assert(members.skip(1) =~= Seq::<(Text, JsonView)>::empty());
        assert(find_member(members.skip(1), wanted) is None);
    }
}

/// A request for an agent mentions repositories, a model, tool servers or a
/// pull request exactly when it has an opinion on them: an empty field is
/// absent, never empty.
pub proof fn law_an_empty_field_is_absent(request: CreateAgentRequest)
    ensures
        create_agent_json(request).member("prompt"@) == Some(prompt_json(request.prompt)),
        create_agent_json(request).member("repos"@) is Some <==> request.repos@.len() > 0,
        create_agent_json(request).member("model"@) is Some <==> request.model is Some,
        create_agent_json(request).member("mcpServers"@) is Some <==> request.mcp_servers@.len()
            > 0,
        create_agent_json(request).member("autoCreatePR"@) is Some <==> request.auto_create_pr,
{
    reveal_strlit("prompt");
    reveal_strlit("repos");
    reveal_strlit("model");
    reveal_strlit("mcpServers");
    reveal_strlit("autoCreatePR");
    assert("prompt"@.len() == 6 && "repos"@.len() == 5 && "model"@.len() == 5
        && "mcpServers"@.len() == 10 && "autoCreatePR"@.len() == 12);
    assert("repos"@[0] == 'r' && "model"@[0] == 'm');
    let names = seq!["prompt"@, "repos"@, "model"@, "mcpServers"@, "autoCreatePR"@];
    let prompt = seq![("prompt"@, prompt_json(request.prompt))];
    assert(prompt =~= optional_member(true, "prompt"@, prompt_json(request.prompt)));
    let repos = optional_member(
        request.repos@.len() > 0,
        "repos"@,
        JsonView::Array(request.repos@.map_values(|repo: RepoSelection| repo_json(repo))),
    );
    let chosen = match request.model {
        Some(model) => model_json(model),
        None => JsonView::Null,
    };
    let model = model_member(request.model);
    assert(model =~= optional_member(request.model is Some, "model"@, chosen));
    let servers = optional_member(
        request.mcp_servers@.len() > 0,
        "mcpServers"@,
        JsonView::Array(
            request.mcp_servers@.map_values(|server: McpServerSelection| server_json(server)),
        ),
    );
    let pull = optional_member(request.auto_create_pr, "autoCreatePR"@, JsonView::Bool(true));
    assert forall|i: int| 0 <= i < names.len() implies {
        let name = #[trigger] names[i];
        &&& i == 0 ==> find_member(prompt + repos + model + servers + pull, name) == Some(
            prompt_json(request.prompt),
        )
        &&& find_member(prompt + repos + model + servers + pull, name) is Some <==> (i == 0 || (i
            == 1 && request.repos@.len() > 0) || (i == 2 && request.model is Some) || (i == 3
            && request.mcp_servers@.len() > 0) || (i == 4 && request.auto_create_pr))
    } by {
        let name = names[i];
        lemma_member_of_either(prompt + repos + model + servers, pull, name);
        lemma_member_of_either(prompt + repos + model, servers, name);
        lemma_member_of_either(prompt + repos, model, name);
        lemma_member_of_either(prompt, repos, name);
        lemma_optional_member(true, "prompt"@, prompt_json(request.prompt), name);
        lemma_optional_member(
            request.repos@.len() > 0,
            "repos"@,
            JsonView::Array(request.repos@.map_values(|repo: RepoSelection| repo_json(repo))),
            name,
        );
        lemma_optional_member(request.model is Some, "model"@, chosen, name);
        lemma_optional_member(
            request.mcp_servers@.len() > 0,
            "mcpServers"@,
            JsonView::Array(
                request.mcp_servers@.map_values(|server: McpServerSelection| server_json(server)),
            ),
            name,
        );
        lemma_optional_member(request.auto_create_pr, "autoCreatePR"@, JsonView::Bool(true), name);
    }
    assert(names[0] == "prompt"@ && names[1] == "repos"@ && names[2] == "model"@ && names[3]
        == "mcpServers"@ && names[4] == "autoCreatePR"@);
}

/// A model without parameters sends no `params`, and a server without headers
/// no `headers`: Cursor reads an empty list as an opinion.
pub proof fn law_an_empty_list_is_absent(model: ModelSelection, server: McpServerSelection)
    ensures
        model_json(model).member("params"@) is Some <==> model.params@.len() > 0,
        server_json(server).member("headers"@) is Some <==> server.headers.count() > 0,
{
    reveal_strlit("id");
    reveal_strlit("params");
    reveal_strlit("name");
    reveal_strlit("type");
    reveal_strlit("url");
    reveal_strlit("headers");
    assert("id"@.len() == 2 && "params"@.len() == 6 && "name"@.len() == 4 && "type"@.len() == 4
        && "url"@.len() == 3 && "headers"@.len() == 7);
    let params = JsonView::Array(
        model.params@.map_values(|param: ModelParamSelection| param_json(param)),
    );
    let id = seq![("id"@, JsonView::Text(model.id@))];
    assert(id =~= optional_member(true, "id"@, JsonView::Text(model.id@)));
    lemma_optional_member(true, "id"@, JsonView::Text(model.id@), "params"@);
    lemma_optional_member(model.params@.len() > 0, "params"@, params, "params"@);
    lemma_member_of_either(
        id,
        optional_member(model.params@.len() > 0, "params"@, params),
        "params"@,
    );
    let headers = JsonView::Object(headers_json(server.headers));
    let fixed = seq![
        ("name"@, JsonView::Text(server.name@)),
        ("type"@, JsonView::Text(transport_name(server.transport))),
        ("url"@, JsonView::Text(server.url@)),
    ];
    assert(fixed.skip(1).skip(1).skip(1) =~= Seq::<(Text, JsonView)>::empty());
    assert(find_member(fixed.skip(1).skip(1).skip(1), "headers"@) is None);
    assert(find_member(fixed.skip(1).skip(1), "headers"@) is None);
    assert(find_member(fixed.skip(1), "headers"@) is None);
    assert(find_member(fixed, "headers"@) is None);
    lemma_optional_member(server.headers.count() > 0, "headers"@, headers, "headers"@);
    lemma_member_of_either(
        fixed,
        optional_member(server.headers.count() > 0, "headers"@, headers),
        "headers"@,
    );
}

/// A server's headers are sent in ascending order of their names, each name
/// once, and every header is sent with its value.
pub proof fn law_headers_are_sent_in_order(server: McpServerSelection)
    requires
        server.headers.wf(),
    ensures
        ({
            let sent = headers_json(server.headers);
            &&& forall|i: int, j: int|
                0 <= i < j < sent.len() ==> text_less(
                    (#[trigger] sent[i]).0,
                    (#[trigger] sent[j]).0,
                )
            &&& forall|name: Text| #[trigger]
                server.headers.contents().dom().contains(name) <==> exists|i: int|
                    0 <= i < sent.len() && (#[trigger] sent[i]) == (
                        name,
                        JsonView::Text(server.headers.contents()[name]@),
                    )
        }),
{
    let sent = headers_json(server.headers);
    server.headers.law_keys_ascend_by_place();
    assert forall|i: int, j: int| 0 <= i < j < sent.len() implies text_less(
        (#[trigger] sent[i]).0,
        (#[trigger] sent[j]).0,
    ) by {
        assert(text_less(server.headers.key_at(i), server.headers.key_at(j)));
    }
    assert forall|name: Text| #[trigger]
        server.headers.contents().dom().contains(name) <==> exists|i: int|
            0 <= i < sent.len() && (#[trigger] sent[i]) == (
                name,
                JsonView::Text(server.headers.contents()[name]@),
            ) by {
        if server.headers.contents().dom().contains(name) {
            let i = choose|i: int|
                0 <= i < server.headers.count() && #[trigger] server.headers.key_at(i) == name;
            assert(sent[i] == (name, JsonView::Text(server.headers.contents()[name]@)));
        }
        if exists|i: int|
            0 <= i < sent.len() && (#[trigger] sent[i]) == (
                name,
                JsonView::Text(server.headers.contents()[name]@),
            ) {
            let i = choose|i: int|
                0 <= i < sent.len() && (#[trigger] sent[i]) == (
                    name,
                    JsonView::Text(server.headers.contents()[name]@),
                );
            assert(server.headers.key_at(i) == name);
        }
    }
}

} // verus!
