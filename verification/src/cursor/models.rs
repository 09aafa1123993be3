//! Which model a session's next run uses, and which tool servers it gets.
//!
//! A client's explicit choice comes first, then what the session used before
//! the process restarted, then what the deployment pins. The last two are
//! preferences: an id this account is not offered means "no opinion", and
//! Cursor's own default stands.

use crate::text::{join, joined, same_text, Text};
use vstd::prelude::*;

verus! {

/// One `{id, value}` parameter of a model variant.
#[derive(Debug, PartialEq, Eq)]
pub struct ModelParam {
    /// The parameter.
    pub id: String,
    /// Its value.
    pub value: String,
}

/// A model together with the parameters that pin its variant.
#[derive(Debug, PartialEq, Eq)]
pub struct ModelChoice {
    /// The model.
    pub id: String,
    /// The variant's parameters.
    pub params: Vec<ModelParam>,
}

/// One accepted parameter combination of a model.
#[derive(Debug, PartialEq, Eq)]
pub struct ModelVariant {
    /// The parameters this variant fixes.
    pub params: Vec<ModelParam>,
    /// Whether Cursor marks this the default.
    pub is_default: bool,
}

/// A model this account may choose.
#[derive(Debug, PartialEq, Eq)]
pub struct CursorModel {
    /// The id to send.
    pub id: String,
    /// The human-readable name.
    pub display_name: Option<String>,
    /// The accepted parameter combinations.
    pub variants: Vec<ModelVariant>,
}

/// The mathematical model of [`ModelParam`].
pub struct ParamView {
    pub id: Text,
    pub value: Text,
}

/// The mathematical model of [`ModelChoice`].
pub struct ChoiceView {
    pub id: Text,
    pub params: Seq<ParamView>,
}

/// The mathematical model of [`ModelVariant`].
pub struct VariantView {
    pub params: Seq<ParamView>,
    pub is_default: bool,
}

/// The mathematical model of [`CursorModel`].
pub struct ModelView {
    pub id: Text,
    pub display_name: Option<Text>,
    pub variants: Seq<VariantView>,
}

impl DeepView for ModelParam {
    type V = ParamView;

    open spec fn deep_view(&self) -> ParamView {
        ParamView { id: self.id@, value: self.value@ }
    }
}

impl DeepView for ModelChoice {
    type V = ChoiceView;

    open spec fn deep_view(&self) -> ChoiceView {
        ChoiceView { id: self.id@, params: self.params.deep_view() }
    }
}

impl DeepView for ModelVariant {
    type V = VariantView;

    open spec fn deep_view(&self) -> VariantView {
        VariantView { params: self.params.deep_view(), is_default: self.is_default }
    }
}

impl DeepView for CursorModel {
    type V = ModelView;

    open spec fn deep_view(&self) -> ModelView {
        ModelView {
            id: self.id@,
            display_name: self.display_name.deep_view(),
            variants: self.variants.deep_view(),
        }
    }
}

impl Clone for ModelParam {
    fn clone(&self) -> (copy: Self)
        ensures
            copy == *self,
    {
        ModelParam { id: self.id.clone(), value: self.value.clone() }
    }
}

fn clone_params(params: &Vec<ModelParam>) -> (copy: Vec<ModelParam>)
    ensures
        copy.deep_view() == params.deep_view(),
{
    let copy: Vec<ModelParam> = params.clone();
    assert(copy.deep_view() =~= params.deep_view());
    copy
}

impl Clone for ModelChoice {
    fn clone(&self) -> (copy: Self)
        ensures
            copy.deep_view() == self.deep_view(),
    {
        ModelChoice { id: self.id.clone(), params: clone_params(&self.params) }
    }
}

/// How a remote tool server is reached.
#[derive(Debug, Clone, Copy, PartialEq, Eq, Structural)]
pub enum McpTransport {
    /// Plain HTTP.
    Http,
    /// Server-sent events.
    Sse,
}

/// One header to send with each request.
#[derive(Debug, PartialEq, Eq)]
pub struct McpHeader {
    /// The header's name.
    pub name: String,
    /// The header's value.
    pub value: String,
}

/// A remote tool server the client configured.
#[derive(Debug, PartialEq, Eq)]
pub struct McpServer {
    /// The client's name for the server.
    pub name: String,
    /// How it is reached.
    pub transport: McpTransport,
    /// The server's url.
    pub url: String,
    /// Headers to send with each request.
    pub headers: Vec<McpHeader>,
}

/// The mathematical model of [`McpHeader`].
pub struct HeaderView {
    pub name: Text,
    pub value: Text,
}

/// The mathematical model of [`McpServer`].
pub struct ServerView {
    pub name: Text,
    pub transport: McpTransport,
    pub url: Text,
    pub headers: Seq<HeaderView>,
}

impl DeepView for McpHeader {
    type V = HeaderView;

    open spec fn deep_view(&self) -> HeaderView {
        HeaderView { name: self.name@, value: self.value@ }
    }
}

impl DeepView for McpServer {
    type V = ServerView;

    open spec fn deep_view(&self) -> ServerView {
        ServerView {
            name: self.name@,
            transport: self.transport,
            url: self.url@,
            headers: self.headers.deep_view(),
        }
    }
}

impl Clone for McpHeader {
    fn clone(&self) -> (copy: Self)
        ensures
            copy == *self,
    {
        McpHeader { name: self.name.clone(), value: self.value.clone() }
    }
}

impl Clone for McpServer {
    fn clone(&self) -> (copy: Self)
        ensures
            copy.deep_view() == self.deep_view(),
    {
        let headers: Vec<McpHeader> = self.headers.clone();
        assert(headers.deep_view() =~= self.headers.deep_view());
        McpServer {
            name: self.name.clone(),
            transport: self.transport,
            url: self.url.clone(),
            headers,
        }
    }
}

/// A copy of a list of tool servers.
pub fn clone_servers(servers: &Vec<McpServer>) -> (copy: Vec<McpServer>)
    ensures
        copy.deep_view() == servers.deep_view(),
{
    let copy: Vec<McpServer> = servers.clone();
    assert(copy.deep_view() =~= servers.deep_view());
    copy
}

/// The variant Cursor runs a bare model as: the one it marks default, or its
/// first.
pub open spec fn default_variant(variants: Seq<VariantView>) -> Option<VariantView> {
    if exists|i: int| 0 <= i < variants.len() && (#[trigger] variants[i]).is_default {
        Some(first_default(variants))
    } else if variants.len() > 0 {
        Some(variants[0])
    } else {
        None
    }
}

/// The first variant marked default.
pub open spec fn first_default(variants: Seq<VariantView>) -> VariantView
    decreases variants.len(),
{
    if variants.len() == 0 || variants[0].is_default {
        variants[0]
    } else {
        first_default(variants.skip(1))
    }
}

/// A model with the parameters of its default variant.
pub open spec fn default_choice_of(model: ModelView) -> ChoiceView {
    ChoiceView {
        id: model.id,
        params: match default_variant(model.variants) {
            Some(variant) => variant.params,
            None => Seq::empty(),
        },
    }
}

impl CursorModel {
    /// The model with the parameters of its default variant: Cursor rejects an
    /// id whose parameters are not a variant it knows.
    pub fn default_choice(&self) -> (choice: ModelChoice)
        ensures
            choice.deep_view() == default_choice_of(self.deep_view()),
    {
        let ghost all = self.variants.deep_view();
        let mut i: usize = 0;
        assert(all.skip(0) =~= all);
        while i < self.variants.len()
            invariant
                i <= self.variants@.len(),
                all == self.variants.deep_view(),
                forall|k: int| 0 <= k < i ==> !(#[trigger] all[k]).is_default,
                first_default(all) == first_default(all.skip(i as int)),
            decreases self.variants@.len() - i,
        {
            assert(all[i as int] == self.variants@[i as int].deep_view());
            if self.variants[i].is_default {
                assert(all.skip(i as int)[0] == all[i as int]);
                return ModelChoice {
                    id: self.id.clone(),
                    params: clone_params(&self.variants[i].params),
                };
            }
            assert(all.skip(i as int).skip(1) =~= all.skip(i + 1));
            i = i + 1;
        }
        if self.variants.len() > 0 {
            ModelChoice { id: self.id.clone(), params: clone_params(&self.variants[0].params) }
        } else {
            let params: Vec<ModelParam> = Vec::new();
            assert(params.deep_view() =~= Seq::<ParamView>::empty());
            ModelChoice { id: self.id.clone(), params }
        }
    }
}

/// The first model of an id.
pub open spec fn model_named(models: Seq<ModelView>, id: Text) -> Option<ModelView>
    decreases models.len(),
{
    if models.len() == 0 {
        None
    } else if models[0].id == id {
        Some(models[0])
    } else {
        model_named(models.skip(1), id)
    }
}

/// The choice an id resolves to, or nothing for an id this account is not
/// offered.
pub open spec fn resolved_model(models: Seq<ModelView>, id: Text) -> Option<ChoiceView> {
    match model_named(models, id) {
        Some(model) => Some(default_choice_of(model)),
        None => None,
    }
}

/// The id resolved to a choice Cursor will accept, or `None` for an id this
/// account is not offered.
pub fn resolve_model_id(models: &Vec<CursorModel>, id: &str) -> (choice: Option<ModelChoice>)
    ensures
        choice.deep_view() == resolved_model(models.deep_view(), id@),
{
    let ghost all = models.deep_view();
    let mut i: usize = 0;
    assert(all.skip(0) =~= all);
    while i < models.len()
        invariant
            i <= models@.len(),
            all == models.deep_view(),
            model_named(all, id@) == model_named(all.skip(i as int), id@),
        decreases models@.len() - i,
    {
        assert(all.skip(i as int)[0] == models@[i as int].deep_view());
        if same_text(models[i].id.as_str(), id) {
            return Some(models[i].default_choice());
        }
        assert(all.skip(i as int).skip(1) =~= all.skip(i + 1));
        i = i + 1;
    }
    None
}

/// The refusal of a model this account is not offered: it names what is.
pub open spec fn model_refusal(models: Seq<ModelView>, id: Text) -> Text {
    "no cursor model with id "@ + id + "; this account offers "@ + joined(
        models.map_values(|model: ModelView| model.id),
        ", "@,
    )
}

/// Choose a model by id, or refuse it with the list of those offered.
pub fn choose_model(models: &Vec<CursorModel>, id: &str) -> (choice: Result<ModelChoice, String>)
    ensures
        match choice {
            Ok(choice) => resolved_model(models.deep_view(), id@) == Some(choice.deep_view()),
            Err(message) => resolved_model(models.deep_view(), id@) is None && message@
                == model_refusal(models.deep_view(), id@),
        },
{
    if let Some(choice) = resolve_model_id(models, id) {
        return Ok(choice);
    }
    let mut ids: Vec<String> = Vec::new();
    let mut i: usize = 0;
    while i < models.len()
        invariant
            i <= models@.len(),
            ids@.len() == i,
            forall|k: int| 0 <= k < i ==> (#[trigger] ids@[k])@ == models@[k].id@,
        decreases models@.len() - i,
    {
        ids.push(models[i].id.clone());
        i = i + 1;
    }
    assert(ids.deep_view() =~= models.deep_view().map_values(|model: ModelView| model.id));
    let mut message: String = "no cursor model with id ".to_owned();
    message.append(id);
    message.append("; this account offers ");
    message.append(join(&ids, ", ").as_str());
    Err(message)
}

/// How a session's model is found.
#[derive(Debug, PartialEq, Eq)]
pub enum ModelLookup {
    /// The client chose; nothing is looked up.
    Chosen(ModelChoice),
    /// A preferred id, to be resolved against the models Cursor offers.
    Resolve(String),
    /// Nobody has an opinion.
    NoOpinion,
}

/// The mathematical model of [`ModelLookup`].
pub enum LookupView {
    Chosen(ChoiceView),
    Resolve(Text),
    NoOpinion,
}

impl DeepView for ModelLookup {
    type V = LookupView;

    open spec fn deep_view(&self) -> LookupView {
        match self {
            ModelLookup::Chosen(choice) => LookupView::Chosen(choice.deep_view()),
            ModelLookup::Resolve(id) => LookupView::Resolve(id@),
            ModelLookup::NoOpinion => LookupView::NoOpinion,
        }
    }
}

/// An explicit choice first, then what the session used before the restart,
/// then what the deployment pins.
pub open spec fn lookup_of(
    explicit: Option<ChoiceView>,
    restored: Option<Text>,
    default: Option<Text>,
) -> LookupView {
    match explicit {
        Some(choice) => LookupView::Chosen(choice),
        None => match restored {
            Some(id) => LookupView::Resolve(id),
            None => match default {
                Some(id) => LookupView::Resolve(id),
                None => LookupView::NoOpinion,
            },
        },
    }
}

/// How to find the model a session's next run uses.
pub fn model_lookup(
    explicit: &Option<ModelChoice>,
    restored: &Option<String>,
    default: &Option<String>,
) -> (lookup: ModelLookup)
    ensures
        lookup.deep_view() == lookup_of(
            explicit.deep_view(),
            restored.deep_view(),
            default.deep_view(),
        ),
{
    if let Some(choice) = explicit {
        return ModelLookup::Chosen(choice.clone());
    }
    if let Some(id) = restored {
        return ModelLookup::Resolve(id.clone());
    }
    match default {
        Some(id) => ModelLookup::Resolve(id.clone()),
        None => ModelLookup::NoOpinion,
    }
}

/// The model a lookup ends in. Models that could not be fetched (`None`) cost
/// the preference, never the prompt.
pub open spec fn effective_model_of(
    lookup: LookupView,
    models: Option<Seq<ModelView>>,
) -> Option<ChoiceView> {
    match lookup {
        LookupView::Chosen(choice) => Some(choice),
        LookupView::Resolve(id) => match models {
            Some(models) => resolved_model(models, id),
            None => None,
        },
        LookupView::NoOpinion => None,
    }
}

/// The model a lookup ends in.
pub fn effective_model(lookup: ModelLookup, models: &Option<Vec<CursorModel>>) -> (choice: Option<
    ModelChoice,
>)
    ensures
        choice.deep_view() == effective_model_of(lookup.deep_view(), models.deep_view()),
{
    match lookup {
        ModelLookup::Chosen(choice) => Some(choice),
        ModelLookup::Resolve(id) => match models {
            Some(models) => resolve_model_id(models, id.as_str()),
            None => None,
        },
        ModelLookup::NoOpinion => None,
    }
}

} // verus!
