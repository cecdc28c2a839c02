//! Requests to model providers, what they stream back, and the registry of
//! providers.

use crate::json;
use crate::protocol::id::MessageId;
use crate::protocol::tool::{clone_specs, ToolSpec, ToolSpecView};
use crate::table::Table;
use crate::text;
use serde_json::Value;
use vstd::prelude::*;

verus! {

/// What is known of a model.
#[derive(Debug, Clone)]
pub struct ModelInfo {
    /// The canonical name of the model.
    pub id: String,
    /// The provider it belongs to.
    pub provider: String,
    pub display_name: String,
    /// The size of its context in tokens.
    pub context_window: u64,
    pub supports_tools: bool,
    pub supports_reasoning: bool,
    /// Other names for it.
    pub aliases: Vec<String>,
    pub max_output_tokens: Option<u64>,
}

/// What is known of a model, over plain texts.
pub struct ModelInfoView {
    pub id: Seq<char>,
    pub provider: Seq<char>,
    pub display_name: Seq<char>,
    pub context_window: u64,
    pub supports_tools: bool,
    pub supports_reasoning: bool,
    pub aliases: Seq<Seq<char>>,
    pub max_output_tokens: Option<u64>,
}

impl View for ModelInfo {
    type V = ModelInfoView;

    open spec fn view(&self) -> ModelInfoView {
        ModelInfoView {
            id: self.id@,
            provider: self.provider@,
            display_name: self.display_name@,
            context_window: self.context_window,
            supports_tools: self.supports_tools,
            supports_reasoning: self.supports_reasoning,
            aliases: text::texts(self.aliases@),
            max_output_tokens: self.max_output_tokens,
        }
    }
}

/// One piece of a streamed response.
#[derive(Debug)]
pub enum ModelDelta {
    /// Text of the answer.
    Text(String),
    /// Text of the reasoning; some of it has to be sent back later.
    Reasoning { delta: String, replay_required: bool },
    /// A tool call begins.
    ToolCallStart { call_id: String, tool_name: String },
    /// A piece of the arguments of a tool call.
    ToolCallArgumentsDelta { call_id: String, delta: String },
    /// A tool call is ready to be carried out.
    ToolCallComplete { call_id: String, tool_name: String, arguments: Value },
    /// The response is over.
    End,
}

/// A piece of a response, over plain texts.
pub enum DeltaView {
    Text(Seq<char>),
    Reasoning { delta: Seq<char>, replay_required: bool },
    ToolCallStart { call_id: Seq<char>, tool_name: Seq<char> },
    ToolCallArgumentsDelta { call_id: Seq<char>, delta: Seq<char> },
    ToolCallComplete { call_id: Seq<char>, tool_name: Seq<char>, arguments: Seq<char> },
    End,
}

impl View for ModelDelta {
    type V = DeltaView;

    open spec fn view(&self) -> DeltaView {
        match *self {
            ModelDelta::Text(x) => DeltaView::Text(x@),
            ModelDelta::Reasoning { delta, replay_required } => DeltaView::Reasoning { delta: delta@, replay_required },
            ModelDelta::ToolCallStart { call_id, tool_name } => DeltaView::ToolCallStart { call_id: call_id@, tool_name: tool_name@ },
            ModelDelta::ToolCallArgumentsDelta { call_id, delta } => DeltaView::ToolCallArgumentsDelta { call_id: call_id@, delta: delta@ },
            ModelDelta::ToolCallComplete { call_id, tool_name, arguments } => DeltaView::ToolCallComplete { call_id: call_id@, tool_name: tool_name@, arguments: json::json_text(arguments) },
            ModelDelta::End => DeltaView::End,
        }
    }
}

impl Clone for ModelDelta {
    fn clone(&self) -> (r: Self)
        ensures
            r@ == self@,
    {
        match self {
            ModelDelta::Text(x) => ModelDelta::Text(x.clone()),
            ModelDelta::Reasoning { delta, replay_required } => ModelDelta::Reasoning { delta: delta.clone(), replay_required: *replay_required },
            ModelDelta::ToolCallStart { call_id, tool_name } => ModelDelta::ToolCallStart { call_id: call_id.clone(), tool_name: tool_name.clone() },
            ModelDelta::ToolCallArgumentsDelta { call_id, delta } => ModelDelta::ToolCallArgumentsDelta { call_id: call_id.clone(), delta: delta.clone() },
            ModelDelta::ToolCallComplete { call_id, tool_name, arguments } => ModelDelta::ToolCallComplete { call_id: call_id.clone(), tool_name: tool_name.clone(), arguments: arguments.clone() },
            ModelDelta::End => ModelDelta::End,
        }
    }
}

/// Who speaks in a message.
#[derive(Debug, Clone, Copy, PartialEq, Eq, Structural)]
pub enum MessageRole {
    System,
    User,
    Assistant,
    Tool,
}

/// A tool call of the assistant within the history.
#[derive(Debug)]
pub struct ModelToolCall {
    pub call_id: String,
    pub tool_name: String,
    pub arguments: Value,
}

/// A tool call of the assistant, over plain texts.
pub struct CallView {
    pub call_id: Seq<char>,
    pub tool_name: Seq<char>,
    pub arguments: Seq<char>,
}

impl View for ModelToolCall {
    type V = CallView;

    open spec fn view(&self) -> CallView {
        CallView {
            call_id: self.call_id@,
            tool_name: self.tool_name@,
            arguments: json::json_text(self.arguments),
        }
    }
}

impl Clone for ModelToolCall {
    fn clone(&self) -> (r: Self)
        ensures
            r@ == self@,
    {
        ModelToolCall {
            call_id: self.call_id.clone(),
            tool_name: self.tool_name.clone(),
            arguments: self.arguments.clone(),
        }
    }
}

/// A list of tool calls, copied one by one.
pub fn clone_calls(v: &Vec<ModelToolCall>) -> (r: Vec<ModelToolCall>)
    ensures
        r@.map_values(|x: ModelToolCall| x@) == v@.map_values(|x: ModelToolCall| x@),
{
    let mut r: Vec<ModelToolCall> = Vec::new();
    let mut i: usize = 0;
    while i < v.len()
        invariant
            i <= v.len(),
            r.len() == i,
            forall|j: int| 0 <= j < i ==> r@[j]@ == v@[j]@,
        decreases v.len() - i,
    {
        r.push(v[i].clone());
        i = i + 1;
    }
    assert(r@.map_values(|x: ModelToolCall| x@) =~= v@.map_values(|x: ModelToolCall| x@));
    r
}

/// A message of a conversation.
#[derive(Debug)]
pub struct ModelMessage {
    pub role: MessageRole,
    pub content: Option<String>,
    pub tool_calls: Vec<ModelToolCall>,
    pub tool_call_id: Option<String>,
    /// Reasoning that belongs to an assistant message.
    pub reasoning_content: Option<String>,
}

/// A message, over plain texts.
pub struct MessageView {
    pub role: MessageRole,
    pub content: Option<Seq<char>>,
    pub tool_calls: Seq<CallView>,
    pub tool_call_id: Option<Seq<char>>,
    pub reasoning_content: Option<Seq<char>>,
}

impl View for ModelMessage {
    type V = MessageView;

    open spec fn view(&self) -> MessageView {
        MessageView {
            role: self.role,
            content: text::opt_text(self.content),
            tool_calls: self.tool_calls@.map_values(|v: ModelToolCall| v@),
            tool_call_id: text::opt_text(self.tool_call_id),
            reasoning_content: text::opt_text(self.reasoning_content),
        }
    }
}

impl Clone for ModelMessage {
    fn clone(&self) -> (r: Self)
        ensures
            r@ == self@,
    {
        ModelMessage {
            role: self.role,
            content: text::clone_opt(&self.content),
            tool_calls: clone_calls(&self.tool_calls),
            tool_call_id: text::clone_opt(&self.tool_call_id),
            reasoning_content: text::clone_opt(&self.reasoning_content),
        }
    }
}

/// The messages of a list, over plain texts.
pub open spec fn messages(v: Seq<ModelMessage>) -> Seq<MessageView> {
    v.map_values(|x: ModelMessage| x@)
}

/// A list of messages, copied one by one.
pub fn clone_messages(v: &Vec<ModelMessage>) -> (r: Vec<ModelMessage>)
    ensures
        messages(r@) == messages(v@),
{
    let mut r: Vec<ModelMessage> = Vec::new();
    let mut i: usize = 0;
    while i < v.len()
        invariant
            i <= v.len(),
            r.len() == i,
            forall|j: int| 0 <= j < i ==> r@[j]@ == v@[j]@,
        decreases v.len() - i,
    {
        r.push(v[i].clone());
        i = i + 1;
    }
    assert(messages(r@) =~= messages(v@));
    r
}

/// Reasoning to send back to the provider.
#[derive(Debug)]
pub struct ReasoningReplay {
    pub message_id: MessageId,
    pub reasoning_content: String,
}

/// Reasoning to send back, over plain texts.
pub struct ReplayView {
    pub message_id: Seq<char>,
    pub reasoning_content: Seq<char>,
}

impl View for ReasoningReplay {
    type V = ReplayView;

    open spec fn view(&self) -> ReplayView {
        ReplayView {
            message_id: self.message_id@,
            reasoning_content: self.reasoning_content@,
        }
    }
}

impl Clone for ReasoningReplay {
    fn clone(&self) -> (r: Self)
        ensures
            r@ == self@,
    {
        ReasoningReplay {
            message_id: self.message_id.clone(),
            reasoning_content: self.reasoning_content.clone(),
        }
    }
}

/// A list of replays, copied one by one.
pub fn clone_replays(v: &Vec<ReasoningReplay>) -> (r: Vec<ReasoningReplay>)
    ensures
        r@.map_values(|x: ReasoningReplay| x@) == v@.map_values(|x: ReasoningReplay| x@),
{
    let mut r: Vec<ReasoningReplay> = Vec::new();
    let mut i: usize = 0;
    while i < v.len()
        invariant
            i <= v.len(),
            r.len() == i,
            forall|j: int| 0 <= j < i ==> r@[j]@ == v@[j]@,
        decreases v.len() - i,
    {
        r.push(v[i].clone());
        i = i + 1;
    }
    assert(r@.map_values(|x: ReasoningReplay| x@) =~= v@.map_values(|x: ReasoningReplay| x@));
    r
}

/// The replays of a list, over plain texts.
pub open spec fn replays(o: Option<Vec<ReasoningReplay>>) -> Option<Seq<ReplayView>> {
    match o {
        Some(v) => Some(v@.map_values(|x: ReasoningReplay| x@)),
        None => None,
    }
}

pub fn clone_opt_replays(o: &Option<Vec<ReasoningReplay>>) -> (r: Option<Vec<ReasoningReplay>>)
    ensures
        replays(r) == replays(*o),
{
    match o {
        Some(v) => Some(clone_replays(v)),
        None => None,
    }
}

/// A request to a model provider.
#[derive(Debug)]
pub struct ModelRequest {
    pub model: String,
    pub messages: Vec<ModelMessage>,
    pub tools: Vec<ToolSpec>,
    pub max_output_tokens: Option<u64>,
    pub system_prompt: Option<String>,
    /// Reasoning that the provider wants back.
    pub replay_reasoning: Option<Vec<ReasoningReplay>>,
}

/// A request, over plain texts.
pub struct RequestView {
    pub model: Seq<char>,
    pub messages: Seq<MessageView>,
    pub tools: Seq<ToolSpecView>,
    pub max_output_tokens: Option<u64>,
    pub system_prompt: Option<Seq<char>>,
    pub replay_reasoning: Option<Seq<ReplayView>>,
}

/// The tools of a list, over plain texts.
pub open spec fn tools(v: Seq<ToolSpec>) -> Seq<ToolSpecView> {
    v.map_values(|t: ToolSpec| t@)
}

impl View for ModelRequest {
    type V = RequestView;

    open spec fn view(&self) -> RequestView {
        RequestView {
            model: self.model@,
            messages: messages(self.messages@),
            tools: tools(self.tools@),
            max_output_tokens: self.max_output_tokens,
            system_prompt: text::opt_text(self.system_prompt),
            replay_reasoning: replays(self.replay_reasoning),
        }
    }
}

impl Clone for ModelRequest {
    fn clone(&self) -> (r: Self)
        ensures
            r@ == self@,
    {
        ModelRequest {
            model: self.model.clone(),
            messages: clone_messages(&self.messages),
            tools: clone_specs(&self.tools),
            max_output_tokens: self.max_output_tokens,
            system_prompt: text::clone_opt(&self.system_prompt),
            replay_reasoning: clone_opt_replays(&self.replay_reasoning),
        }
    }
}

/// The registry of providers: handles by name, the models they know, and the other
/// names of those models.
pub struct ProviderRegistry<P> {
    providers: Table<P>,
    models: Vec<ModelInfo>,
    aliases: Table<String>,
}

/// Adds the other names of a model, the first `n` of them, to a map of names.
pub open spec fn with_aliases(
    map: Map<Seq<char>, Seq<char>>,
    model: ModelInfoView,
    n: nat,
) -> Map<Seq<char>, Seq<char>>
    decreases n,
{
    if n == 0 {
        map
    } else {
        with_aliases(map, model, (n - 1) as nat).insert(model.aliases[n - 1], model.id)
    }
}

/// Adds the other names of the models of a list: of two models that claim one name
/// the later one has it.
pub open spec fn with_models(
    map: Map<Seq<char>, Seq<char>>,
    models: Seq<ModelInfoView>,
) -> Map<Seq<char>, Seq<char>>
    decreases models.len(),
{
    if models.len() == 0 {
        map
    } else {
        let m = models.last();
        with_aliases(with_models(map, models.drop_last()), m, m.aliases.len())
    }
}

/// The models of a list, over plain texts.
pub open spec fn infos(v: Seq<ModelInfo>) -> Seq<ModelInfoView> {
    v.map_values(|m: ModelInfo| m@)
}

/// The first model with an id.
pub open spec fn find_model(models: Seq<ModelInfoView>, id: Seq<char>) -> Option<ModelInfoView>
    decreases models.len(),
{
    if models.len() == 0 {
        None
    } else if models[0].id == id {
        Some(models[0])
    } else {
        find_model(models.skip(1), id)
    }
}

impl<P> ProviderRegistry<P> {
    pub closed spec fn wf(&self) -> bool {
        self.providers.wf() && self.aliases.wf()
    }

    /// The handles by the name of the provider.
    pub closed spec fn by_name(&self) -> Map<Seq<char>, P> {
        self.providers@
    }

    /// The models of all providers, in the order of registration.
    pub closed spec fn known(&self) -> Seq<ModelInfoView> {
        infos(self.models@)
    }

    /// The canonical names by other names.
    pub closed spec fn canonical(&self) -> Map<Seq<char>, Seq<char>> {
        self.aliases@.map_values(|s: String| s@)
    }

    /// The canonical name of a requested one: what the other name stands for, or
    /// the name itself.
    pub open spec fn canonical_name(&self, requested: Seq<char>) -> Seq<char> {
        if self.canonical().dom().contains(requested) {
            self.canonical()[requested]
        } else {
            requested
        }
    }

    pub fn new() -> (r: Self)
        ensures
            r.wf(),
            r.by_name() == Map::<Seq<char>, P>::empty(),
            r.known() == Seq::<ModelInfoView>::empty(),
            r.canonical() == Map::<Seq<char>, Seq<char>>::empty(),
    {
        let r = ProviderRegistry { providers: Table::new(), models: Vec::new(), aliases: Table::new() };
        assert(r.known() =~= Seq::<ModelInfoView>::empty());
        assert(r.canonical() =~= Map::<Seq<char>, Seq<char>>::empty());
        r
    }

    /// Registers a provider under its name with the models it knows.
    pub fn register(&mut self, name: &str, known_models: Vec<ModelInfo>, provider: P)
        requires
            old(self).wf(),
        ensures
            final(self).wf(),
            final(self).by_name() == old(self).by_name().insert(name@, provider),
            final(self).known() == old(self).known() + infos(known_models@),
            final(self).canonical() == with_models(old(self).canonical(), infos(known_models@)),
    {
        let ghost before = *self;
        let ghost all = infos(known_models@);
        let mut rest = known_models;
        let ghost mut done: int = 0;
        assert(all.take(0) =~= Seq::empty());
        assert(self.known() =~= before.known() + all.take(0));
        assert(known_models@.skip(0) =~= known_models@);
        while rest.len() > 0
            invariant
                self.wf(),
                all == infos(known_models@),
                0 <= done <= known_models@.len(),
                rest@ == known_models@.skip(done),
                self.by_name() == before.by_name(),
                self.known() == before.known() + all.take(done),
                self.canonical() == with_models(before.canonical(), all.take(done)),
            decreases rest.len(),
        {
            let m = rest.remove(0);
            assert(m == known_models@[done]);
            assert(rest@ =~= known_models@.skip(done + 1));
            let ghost map0 = self.canonical();
            let mut j: usize = 0;
            while j < m.aliases.len()
                invariant
                    self.wf(),
                    j <= m.aliases.len(),
                    self.by_name() == before.by_name(),
                    self.known() == before.known() + all.take(done),
                    self.canonical() == with_aliases(map0, m@, j as nat),
                decreases m.aliases.len() - j,
            {
                let ghost prior = self.canonical();
                self.aliases.insert(m.aliases[j].clone(), m.id.clone());
                assert(self.canonical() =~= prior.insert(m@.aliases[j as int], m@.id));
                j = j + 1;
            }
            let ghost known0 = self.known();
            self.models.push(m);
            proof {
                assert(self.known() =~= known0.push(m@));
                assert(all.take(done + 1) =~= all.take(done).push(m@));
                assert(all.take(done + 1).drop_last() =~= all.take(done));
                done = done + 1;
            }
        }
        assert(all.take(done) =~= all);
        self.providers.insert(text::owned(name), provider);
    }

    /// The canonical name of a model and the handle of its provider. `None` where
    /// no model has that name or the provider of the model is not registered.
    pub fn resolve(&self, requested: &str) -> (r: Option<(String, &P)>)
        requires
            self.wf(),
        ensures
            match find_model(self.known(), self.canonical_name(requested@)) {
                Some(m) if self.by_name().dom().contains(m.provider) => r matches Some((name, p))
                    && name@ == self.canonical_name(requested@) && *p == self.by_name()[m.provider],
                _ => r is None,
            },
    {
        let canonical: String = match self.aliases.get(requested) {
            Some(c) => c.clone(),
            None => text::owned(requested),
        };
        assert(canonical@ == self.canonical_name(requested@));
        let ghost all = self.known();
        assert(all.skip(0) =~= all);
        let mut i: usize = 0;
        while i < self.models.len()
            invariant
                self.wf(),
                i <= self.models.len(),
                all == self.known(),
                canonical@ == self.canonical_name(requested@),
                find_model(all, canonical@) == find_model(all.skip(i as int), canonical@),
            decreases self.models.len() - i,
        {
            assert(all.skip(i as int)[0] == self.models@[i as int]@);
            assert(all.skip(i as int).skip(1) =~= all.skip(i + 1));
            if text::str_eq(self.models[i].id.as_str(), canonical.as_str()) {
                return match self.providers.get(self.models[i].provider.as_str()) {
                    Some(p) => Some((canonical, p)),
                    None => None,
                };
            }
            i = i + 1;
        }
        None
    }

    pub fn list_models(&self) -> (r: &Vec<ModelInfo>)
        ensures
            infos(r@) == self.known(),
    {
        &self.models
    }

    pub fn get_provider(&self, name: &str) -> (r: Option<&P>)
        requires
            self.wf(),
        ensures
            r == (if self.by_name().dom().contains(name@) {
                Some(&self.by_name()[name@])
            } else {
                None
            }),
    {
        self.providers.get(name)
    }
}

impl<P> Default for ProviderRegistry<P> {
    fn default() -> (r: Self)
        ensures
            r.wf(),
            r.by_name() == Map::<Seq<char>, P>::empty(),
            r.known() == Seq::<ModelInfoView>::empty(),
            r.canonical() == Map::<Seq<char>, Seq<char>>::empty(),
    {
        ProviderRegistry::new()
    }
}

/// Whether a model claims a name besides its id.
pub open spec fn claims(m: ModelInfoView, name: Seq<char>) -> bool {
    m.aliases.contains(name)
}

proof fn lemma_claimed(map: Map<Seq<char>, Seq<char>>, m: ModelInfoView, n: nat, name: Seq<char>)
    requires
        n <= m.aliases.len(),
    ensures
        m.aliases.take(n as int).contains(name) ==> with_aliases(map, m, n).dom().contains(name)
            && with_aliases(map, m, n)[name] == m.id,
        !m.aliases.take(n as int).contains(name) ==> (with_aliases(map, m, n).dom().contains(name)
            == map.dom().contains(name)) && (map.dom().contains(name) ==> with_aliases(map, m, n)[name]
            == map[name]),
    decreases n,
{
    if n > 0 {
        lemma_claimed(map, m, (n - 1) as nat, name);
        let all = m.aliases.take(n as int);
        assert(all =~= m.aliases.take(n - 1).push(m.aliases[n - 1]));
        if all.contains(name) && name != m.aliases[n - 1] {
            let j = all.index_of(name);
            assert(m.aliases.take(n - 1)[j] == name);
        }
        if m.aliases.take(n - 1).contains(name) {
            let j = m.aliases.take(n - 1).index_of(name);
            assert(all[j] == name);
        }
        if name == m.aliases[n - 1] {
            assert(all[n - 1] == name);
        }
    }
}

/// Each name that a registered model claims leads to that model, unless a later one claims it
/// too; a name that no model claims keeps its meaning.
pub proof fn law_names_lead_to_models(
    map: Map<Seq<char>, Seq<char>>,
    models: Seq<ModelInfoView>,
    i: int,
    name: Seq<char>,
)
    requires
        -1 <= i < models.len(),
        i >= 0 ==> claims(models[i], name),
        forall|k: int| i < k < models.len() ==> !claims(#[trigger] models[k], name),
    ensures
        i >= 0 ==> with_models(map, models).dom().contains(name) && with_models(map, models)[name]
            == models[i].id,
        i < 0 ==> with_models(map, models).dom().contains(name) == map.dom().contains(name) && (
        map.dom().contains(name) ==> with_models(map, models)[name] == map[name]),
    decreases models.len(),
{
    if models.len() > 0 {
        let m = models.last();
        let before = with_models(map, models.drop_last());
        lemma_claimed(before, m, m.aliases.len(), name);
        assert(m.aliases.take(m.aliases.len() as int) =~= m.aliases);
        if i < models.len() - 1 {
            assert(!claims(models[models.len() - 1], name));
            assert forall|k: int| i < k < models.drop_last().len() implies !claims(
                #[trigger] models.drop_last()[k],
                name,
            ) by {
                assert(models[k] == models.drop_last()[k]);
            }
            law_names_lead_to_models(map, models.drop_last(), i, name);
        }
    }
}

/// Errors of a model provider.
#[derive(Debug)]
pub enum ModelProviderError {
    HttpError { status: u16, body: String },
    StreamError(String),
    RateLimited { retry_after_secs: Option<u64> },
    Timeout,
    InvalidResponse(String),
    AuthError(String),
    UnknownModel(String),
}

impl ModelProviderError {
    /// The text of the error.
    pub open spec fn message(&self) -> Seq<char> {
        match *self {
            ModelProviderError::HttpError { status, body } => "HTTP "@ + text::decimal(
                status as nat,
            ) + ": "@ + body@,
            ModelProviderError::StreamError(m) => "stream error: "@ + m@,
            ModelProviderError::RateLimited { retry_after_secs } => match retry_after_secs {
                Some(secs) => "rate limited, retry after "@ + text::decimal(secs as nat) + "s"@,
                None => "rate limited"@,
            },
            ModelProviderError::Timeout => "request timed out"@,
            ModelProviderError::InvalidResponse(m) => "invalid response: "@ + m@,
            ModelProviderError::AuthError(m) => "auth error: "@ + m@,
            ModelProviderError::UnknownModel(m) => "unknown model: "@ + m@,
        }
    }

    pub fn to_string(&self) -> (r: String)
        ensures
            r@ == self.message(),
    {
        match self {
            ModelProviderError::HttpError { status, body } => {
                let n = text::u64_text(*status as u64);
                let head = text::cat3("HTTP ", n.as_str(), ": ");
                text::cat(head.as_str(), body.as_str())
            },
            ModelProviderError::StreamError(m) => text::cat("stream error: ", m.as_str()),
            ModelProviderError::RateLimited { retry_after_secs } => match retry_after_secs {
                Some(secs) => {
                    let n = text::u64_text(*secs);
                    text::cat3("rate limited, retry after ", n.as_str(), "s")
                },
                None => text::owned("rate limited"),
            },
            ModelProviderError::Timeout => text::owned("request timed out"),
            ModelProviderError::InvalidResponse(m) => text::cat("invalid response: ", m.as_str()),
            ModelProviderError::AuthError(m) => text::cat("auth error: ", m.as_str()),
            ModelProviderError::UnknownModel(m) => text::cat("unknown model: ", m.as_str()),
        }
    }
}

/// The model that is found under an id is the first of the list that has it.
pub proof fn law_first_model_is_found(models: Seq<ModelInfoView>, id: Seq<char>, i: int)
    requires
        0 <= i <= models.len(),
        forall|j: int| 0 <= j < i ==> (#[trigger] models[j]).id != id,
        i < models.len() ==> models[i].id == id,
    ensures
        i < models.len() ==> find_model(models, id) == Some(models[i]),
        i == models.len() ==> find_model(models, id) is None,
    decreases models.len(),
{
    if models.len() > 0 && i > 0 {
        let rest = models.skip(1);
        assert(models[0].id != id);
        assert forall|j: int| 0 <= j < i - 1 implies (#[trigger] rest[j]).id != id by {
            assert(rest[j] == models[j + 1]);
        }
        law_first_model_is_found(rest, id, i - 1);
    }
}

/// A name stands for what was claimed under it, and else for itself.
pub proof fn law_names_stand_for_models<P>(r: ProviderRegistry<P>, requested: Seq<char>)
    ensures
        r.canonical().dom().contains(requested) ==> r.canonical_name(requested)
            == r.canonical()[requested],
        !r.canonical().dom().contains(requested) ==> r.canonical_name(requested) == requested,
{
}

/// What is seen of a message is all that it holds: its role, its text, its calls with their
/// ids, tools and arguments in their order, the call it answers, and its reasoning.
pub proof fn law_messages_are_seen_whole(m: ModelMessage, i: int)
    ensures
        m@.role == m.role,
        m.content matches Some(s) ==> m@.content == Some(s@),
        m.content is None ==> m@.content is None,
        m@.tool_calls.len() == m.tool_calls@.len(),
        0 <= i < m.tool_calls@.len() ==> m@.tool_calls[i].call_id == m.tool_calls@[i].call_id@
            && m@.tool_calls[i].tool_name == m.tool_calls@[i].tool_name@
            && m@.tool_calls[i].arguments == json::json_text(m.tool_calls@[i].arguments),
        m.tool_call_id matches Some(s) ==> m@.tool_call_id == Some(s@),
        m.tool_call_id is None ==> m@.tool_call_id is None,
        m.reasoning_content matches Some(s) ==> m@.reasoning_content == Some(s@),
        m.reasoning_content is None ==> m@.reasoning_content is None,
{
}

/// What is seen of a request is all that it holds: its model, its messages in their order,
/// its tools, its limit, its system prompt, and the reasoning that goes back.
pub proof fn law_requests_are_seen_whole(r: ModelRequest, i: int)
    ensures
        r@.model == r.model@,
        r@.messages.len() == r.messages@.len(),
        0 <= i < r.messages@.len() ==> r@.messages[i] == r.messages@[i]@,
        r@.tools.len() == r.tools@.len(),
        0 <= i < r.tools@.len() ==> r@.tools[i] == r.tools@[i]@,
        r@.max_output_tokens == r.max_output_tokens,
        r.system_prompt matches Some(s) ==> r@.system_prompt == Some(s@),
        r.system_prompt is None ==> r@.system_prompt is None,
        r.replay_reasoning is None ==> r@.replay_reasoning is None,
        r.replay_reasoning matches Some(v) ==> (r@.replay_reasoning matches Some(w) && w.len()
            == v@.len() && (0 <= i < v@.len() ==> w[i].message_id == v@[i].message_id@
            && w[i].reasoning_content == v@[i].reasoning_content@)),
{
}

/// The errors of a provider say what it said.
pub proof fn law_provider_errors_say_why(e: ModelProviderError)
    ensures
        e matches ModelProviderError::HttpError { status, body } ==> e.message() == "HTTP "@
            + text::decimal(status as nat) + ": "@ + body@,
        e matches ModelProviderError::StreamError(m) ==> e.message() == "stream error: "@ + m@,
        e matches ModelProviderError::RateLimited { retry_after_secs } ==> (
        retry_after_secs matches Some(s) ==> e.message() == "rate limited, retry after "@
            + text::decimal(s as nat) + "s"@) && (retry_after_secs is None ==> e.message()
            == "rate limited"@),
        e is Timeout ==> e.message() == "request timed out"@,
        e matches ModelProviderError::InvalidResponse(m) ==> e.message() == "invalid response: "@
            + m@,
        e matches ModelProviderError::AuthError(m) ==> e.message() == "auth error: "@ + m@,
        e matches ModelProviderError::UnknownModel(m) ==> e.message() == "unknown model: "@ + m@,
{
}

/// What is seen of a model delta is all that it holds.
pub proof fn law_model_delta_is_seen_whole(m: ModelDelta)
    ensures
        m matches ModelDelta::Text(x) ==> m@ == (DeltaView::Text(x@)),
        m matches ModelDelta::Reasoning { delta, replay_required } ==> m@ == (DeltaView::Reasoning { delta: delta@, replay_required }),
        m matches ModelDelta::ToolCallStart { call_id, tool_name } ==> m@ == (DeltaView::ToolCallStart { call_id: call_id@, tool_name: tool_name@ }),
        m matches ModelDelta::ToolCallArgumentsDelta { call_id, delta } ==> m@ == (DeltaView::ToolCallArgumentsDelta { call_id: call_id@, delta: delta@ }),
        m matches ModelDelta::ToolCallComplete { call_id, tool_name, arguments } ==> m@ == (DeltaView::ToolCallComplete { call_id: call_id@, tool_name: tool_name@, arguments: json::json_text(arguments) }),
        m is End ==> m@ is End,
{
}

/// What is seen of a model info is all that it holds.
pub proof fn law_model_info_is_seen_whole(m: ModelInfo)
    ensures
        m@.id == m.id@,
        m@.provider == m.provider@,
        m@.display_name == m.display_name@,
        m@.context_window == m.context_window,
        m@.supports_tools == m.supports_tools,
        m@.supports_reasoning == m.supports_reasoning,
        m@.aliases == text::texts(m.aliases@),
        m@.max_output_tokens == m.max_output_tokens,
{
}

} // verus!
