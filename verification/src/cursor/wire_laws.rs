//! What Cursor is sent.

use crate::cursor::models::HeaderView;
use crate::cursor::wire::{
    create_agent_json, create_run_json, header_map, headers_json, lemma_member_of_either,
    lemma_optional_member, model_json, model_member, optional_member, param_json, prompt_json,
    repo_json, server_json, CreateAgentRequest, CreateRunRequest, McpServerSelection,
    ModelParamSelection, ModelSelection, PromptBody, RepoSelection,
};
use crate::json::{find_member, law_a_member_is_found_by_its_name, JsonView};
use crate::text::Text;
use vstd::prelude::*;

verus! {

proof fn lemma_field_names()
    ensures
        "prompt"@.len() == 6,
        "repos"@.len() == 5 && "repos"@[0] == 'r',
        "model"@.len() == 5 && "model"@[0] == 'm',
        "mcpServers"@.len() == 10,
        "autoCreatePR"@.len() == 12,
        "id"@.len() == 2,
        "params"@.len() == 6 && "params"@[1] == 'a' && "prompt"@[1] == 'r',
        "name"@.len() == 4 && "name"@[0] == 'n',
        "type"@.len() == 4 && "type"@[0] == 't',
        "url"@.len() == 3,
        "headers"@.len() == 7,
        "value"@.len() == 5,
        "startingRef"@.len() == 11,
        "text"@.len() == 4,
{
    reveal_strlit("prompt");
    reveal_strlit("repos");
    reveal_strlit("model");
    reveal_strlit("mcpServers");
    reveal_strlit("autoCreatePR");
    reveal_strlit("id");
    reveal_strlit("params");
    reveal_strlit("name");
    reveal_strlit("type");
    reveal_strlit("url");
    reveal_strlit("headers");
    reveal_strlit("value");
    reveal_strlit("startingRef");
    reveal_strlit("text");
}

/// A prompt is sent as its text.
pub proof fn law_a_prompt_is_sent_as_its_text(prompt: PromptBody)
    ensures
        prompt_json(prompt).member("text"@) == Some(JsonView::Text(prompt.text@)),
{
    law_a_member_is_found_by_its_name(prompt_json(prompt)->Object_0, 0, "text"@);
}

/// A repository is sent with its url and the ref to start from; a parameter
/// with its id and its value.
pub proof fn law_a_repository_is_sent_with_its_ref(
    repo: RepoSelection,
    param: ModelParamSelection,
)
    ensures
        repo_json(repo).member("url"@) == Some(JsonView::Text(repo.url@)),
        repo_json(repo).member("startingRef"@) == Some(JsonView::Text(repo.starting_ref@)),
        param_json(param).member("id"@) == Some(JsonView::Text(param.id@)),
        param_json(param).member("value"@) == Some(JsonView::Text(param.value@)),
{
    lemma_field_names();
    law_a_member_is_found_by_its_name(repo_json(repo)->Object_0, 0, "url"@);
    law_a_member_is_found_by_its_name(repo_json(repo)->Object_0, 1, "startingRef"@);
    law_a_member_is_found_by_its_name(param_json(param)->Object_0, 0, "id"@);
    law_a_member_is_found_by_its_name(param_json(param)->Object_0, 1, "value"@);
}

/// A model is sent by its id, with every parameter of its variant in order.
pub proof fn law_a_model_is_sent_with_its_parameters(model: ModelSelection, at: int)
    ensures
        model_json(model).member("id"@) == Some(JsonView::Text(model.id@)),
        0 <= at < model.params@.len() ==> {
            let params = model_json(model).member("params"@);
            &&& params is Some
            &&& params->0 is Array
            &&& params->0->Array_0.len() == model.params@.len()
            &&& params->0->Array_0[at].member("id"@) == Some(JsonView::Text(model.params@[at].id@))
            &&& params->0->Array_0[at].member("value"@) == Some(
                JsonView::Text(model.params@[at].value@),
            )
        },
        model.params@.len() == 0 ==> model_json(model).member("params"@) is None,
{
    lemma_field_names();
    let members = model_json(model)->Object_0;
    law_a_member_is_found_by_its_name(members, 0, "id"@);
    law_a_member_is_found_by_its_name(members, 1, "params"@);
    if 0 <= at < model.params@.len() {
        law_a_repository_is_sent_with_its_ref(
            RepoSelection { url: model.id, starting_ref: model.id },
            model.params@[at],
        );
    }
}

/// A tool server is sent with its name, how it is reached, and where; its
/// headers go with it where there are any.
pub proof fn law_a_server_is_sent_as_configured(server: McpServerSelection)
    ensures
        server_json(server).member("name"@) == Some(JsonView::Text(server.name@)),
        server_json(server).member("url"@) == Some(JsonView::Text(server.url@)),
        server.transport is Http ==> server_json(server).member("type"@) == Some(
            JsonView::Text("http"@),
        ),
        server.transport is Sse ==> server_json(server).member("type"@) == Some(
            JsonView::Text("sse"@),
        ),
        server.headers.count() > 0 ==> server_json(server).member("headers"@) == Some(
            JsonView::Object(headers_json(server.headers)),
        ),
{
    lemma_field_names();
    let members = server_json(server)->Object_0;
    law_a_member_is_found_by_its_name(members, 0, "name"@);
    law_a_member_is_found_by_its_name(members, 1, "type"@);
    law_a_member_is_found_by_its_name(members, 2, "url"@);
    law_a_member_is_found_by_its_name(members, 3, "headers"@);
}

/// Of a header named twice the last value counts; every other header keeps its
/// own.
pub proof fn law_the_last_header_counts(headers: Seq<HeaderView>, header: HeaderView, other: Text)
    requires
        other != header.name,
    ensures
        header_map(headers.push(header)).dom().contains(header.name),
        header_map(headers.push(header))[header.name] == header.value,
        header_map(headers.push(header)).dom().contains(other) <==> header_map(
            headers,
        ).dom().contains(other),
        header_map(headers.push(header))[other] == header_map(headers)[other],
        !header_map(Seq::empty()).dom().contains(other),
{
    assert(headers.push(header).drop_last() =~= headers);
}

/// An agent is asked for with everything its request holds: the prompt, every
/// repository, the model, every tool server, each list in order, and a pull
/// request exactly where one is wanted.
pub proof fn law_an_agent_is_asked_for_in_full(request: CreateAgentRequest)
    ensures
        ({
            let json = create_agent_json(request);
            &&& json.member("prompt"@) == Some(prompt_json(request.prompt))
            &&& json.member("repos"@) == (if request.repos@.len() > 0 {
                Some(
                    JsonView::Array(
                        Seq::new(request.repos@.len(), |i: int| repo_json(request.repos@[i])),
                    ),
                )
            } else {
                None
            })
            &&& json.member("model"@) == (match request.model {
                Some(model) => Some(model_json(model)),
                None => None,
            })
            &&& json.member("mcpServers"@) == (if request.mcp_servers@.len() > 0 {
                Some(
                    JsonView::Array(
                        Seq::new(
                            request.mcp_servers@.len(),
                            |i: int| server_json(request.mcp_servers@[i]),
                        ),
                    ),
                )
            } else {
                None
            })
            &&& json.member("autoCreatePR"@) == (if request.auto_create_pr {
                Some(JsonView::Bool(true))
            } else {
                None
            })
        }),
{
    lemma_field_names();
    let prompt = seq![("prompt"@, prompt_json(request.prompt))];
    assert(prompt =~= optional_member(true, "prompt"@, prompt_json(request.prompt)));
    let every_repo = JsonView::Array(
        request.repos@.map_values(|repo: RepoSelection| repo_json(repo)),
    );
    assert(every_repo->Array_0 =~= Seq::new(
        request.repos@.len(),
        |i: int| repo_json(request.repos@[i]),
    ));
    let repos = optional_member(request.repos@.len() > 0, "repos"@, every_repo);
    let chosen = match request.model {
        Some(model) => model_json(model),
        None => JsonView::Null,
    };
    let model = model_member(request.model);
    assert(model =~= optional_member(request.model is Some, "model"@, chosen));
    let every_server = JsonView::Array(
        request.mcp_servers@.map_values(|server: McpServerSelection| server_json(server)),
    );
    assert(every_server->Array_0 =~= Seq::new(
        request.mcp_servers@.len(),
        |i: int| server_json(request.mcp_servers@[i]),
    ));
    let servers = optional_member(request.mcp_servers@.len() > 0, "mcpServers"@, every_server);
    let pull = optional_member(request.auto_create_pr, "autoCreatePR"@, JsonView::Bool(true));
    let names = seq!["prompt"@, "repos"@, "model"@, "mcpServers"@, "autoCreatePR"@];
    assert forall|i: int| 0 <= i < names.len() implies find_member(
        prompt + repos + model + servers + pull,
        #[trigger] names[i],
    ) == (if i == 0 {
        Some(prompt_json(request.prompt))
    } else if i == 1 {
        find_member(repos, names[i])
    } else if i == 2 {
        find_member(model, names[i])
    } else if i == 3 {
        find_member(servers, names[i])
    } else {
        find_member(pull, names[i])
    }) by {
        let name = names[i];
        lemma_member_of_either(prompt + repos + model + servers, pull, name);
        lemma_member_of_either(prompt + repos + model, servers, name);
        lemma_member_of_either(prompt + repos, model, name);
        lemma_member_of_either(prompt, repos, name);
        lemma_optional_member(true, "prompt"@, prompt_json(request.prompt), name);
        lemma_optional_member(request.repos@.len() > 0, "repos"@, every_repo, name);
        lemma_optional_member(request.model is Some, "model"@, chosen, name);
        lemma_optional_member(request.mcp_servers@.len() > 0, "mcpServers"@, every_server, name);
        lemma_optional_member(request.auto_create_pr, "autoCreatePR"@, JsonView::Bool(true), name);
    }
    lemma_optional_member(request.repos@.len() > 0, "repos"@, every_repo, "repos"@);
    lemma_optional_member(request.model is Some, "model"@, chosen, "model"@);
    lemma_optional_member(
        request.mcp_servers@.len() > 0,
        "mcpServers"@,
        every_server,
        "mcpServers"@,
    );
    lemma_optional_member(
        request.auto_create_pr,
        "autoCreatePR"@,
        JsonView::Bool(true),
        "autoCreatePR"@,
    );
    assert(names[0] == "prompt"@ && names[1] == "repos"@ && names[2] == "model"@ && names[3]
        == "mcpServers"@ && names[4] == "autoCreatePR"@);
}

/// A follow-up run is asked for with its prompt, and with its model where it
/// has one.
pub proof fn law_a_run_is_asked_for_in_full(request: CreateRunRequest)
    ensures
        create_run_json(request).member("prompt"@) == Some(prompt_json(request.prompt)),
        create_run_json(request).member("model"@) == (match request.model {
            Some(model) => Some(model_json(model)),
            None => None,
        }),
{
    lemma_field_names();
    let members = create_run_json(request)->Object_0;
    law_a_member_is_found_by_its_name(members, 0, "prompt"@);
    law_a_member_is_found_by_its_name(members, 1, "model"@);
}

} // verus!
