//! Context fragments and their assembly under a token budget.

use super::budget::TokenBudget;
use crate::protocol::id::{MessageId, TurnId};
use crate::text;
use vstd::prelude::*;
use vstd::string::*;

verus! {

/// The role of a fragment in the conversation.
#[derive(Debug, Clone, Copy, PartialEq, Eq, Structural)]
pub enum FragmentRole {
    /// An instruction that is never dropped.
    System,
    /// Context that is interleaved into the history under a marker.
    Developer,
    /// Content of the conversation.
    User,
}

/// A piece of the context of a turn.
#[allow(inconsistent_fields)]
#[derive(Debug, Clone)]
pub enum ContextFragment {
    /// The system prompt; never dropped.
    System { content: String },
    /// Descriptions of tools.
    ToolSchemas { content: String },
    /// The instructions of a skill.
    SkillInstruction { skill_name: String, content: String },
    /// The summary of a plugin.
    PluginCapability { plugin_id: String, content: String },
    /// A message of the conversation.
    ConversationMessage { role: String, content: String, message_id: Option<MessageId> },
    /// A tool result that the turn goes on with; never dropped.
    ToolResult { call_id: String, content: String },
    /// Reasoning that has to be sent back; never dropped.
    ReasoningReplay { message_id: MessageId, content: String },
    /// The workspace and the like.
    Environment { content: String },
}

/// The groups in which fragments are laid out and dropped.
pub enum FragmentGroup {
    Protected,
    Schemas,
    Skills,
    Plugins,
    History,
    Environment,
}

/// The tokens of a text of a given size: four of its units each, rounded up.
pub open spec fn tokens_of(n: nat) -> nat {
    (n + 3) / 4
}

/// The tokens of a text of a given size.
pub fn to_tokens(n: u64) -> (r: u64)
    ensures
        r == tokens_of(n as nat),
{
    if n % 4 == 0 {
        n / 4
    } else {
        n / 4 + 1
    }
}

impl ContextFragment {
    /// The text of a fragment.
    pub open spec fn content(self) -> Seq<char> {
        match self {
            ContextFragment::System { content } => content@,
            ContextFragment::ToolSchemas { content } => content@,
            ContextFragment::SkillInstruction { content, .. } => content@,
            ContextFragment::PluginCapability { content, .. } => content@,
            ContextFragment::ConversationMessage { content, .. } => content@,
            ContextFragment::ToolResult { content, .. } => content@,
            ContextFragment::ReasoningReplay { content, .. } => content@,
            ContextFragment::Environment { content } => content@,
        }
    }

    /// The estimated number of tokens.
    pub open spec fn tokens(self) -> nat {
        tokens_of(self.content().len())
    }

    pub open spec fn group(self) -> FragmentGroup {
        match self {
            ContextFragment::System { .. } => FragmentGroup::Protected,
            ContextFragment::ToolSchemas { .. } => FragmentGroup::Schemas,
            ContextFragment::SkillInstruction { .. } => FragmentGroup::Skills,
            ContextFragment::PluginCapability { .. } => FragmentGroup::Plugins,
            ContextFragment::ConversationMessage { .. } => FragmentGroup::History,
            ContextFragment::ToolResult { .. } => FragmentGroup::Protected,
            ContextFragment::ReasoningReplay { .. } => FragmentGroup::Protected,
            ContextFragment::Environment { .. } => FragmentGroup::Environment,
        }
    }

    /// The marker of a fragment that is interleaved into the history.
    pub open spec fn marker(self) -> Option<Seq<char>> {
        match self {
            ContextFragment::ToolSchemas { .. } => Some("tool-schemas"@),
            ContextFragment::SkillInstruction { .. } => Some("skill-instruction"@),
            ContextFragment::PluginCapability { .. } => Some("plugin-capability"@),
            ContextFragment::Environment { .. } => Some("environment"@),
            _ => None,
        }
    }

    /// The number of tokens, estimated as a quarter of the characters, rounded up.
    pub fn estimated_tokens(&self) -> (r: u64)
        ensures
            r == self.tokens(),
            r <= u64::MAX / 4 + 1,
    {
        let s: &String = match self {
            ContextFragment::System { content } => content,
            ContextFragment::ToolSchemas { content } => content,
            ContextFragment::SkillInstruction { content, .. } => content,
            ContextFragment::PluginCapability { content, .. } => content,
            ContextFragment::ConversationMessage { content, .. } => content,
            ContextFragment::ToolResult { content, .. } => content,
            ContextFragment::ReasoningReplay { content, .. } => content,
            ContextFragment::Environment { content } => content,
        };
        let n: usize = s.as_str().unicode_len();
        to_tokens(n as u64)
    }

    pub fn role(&self) -> (r: FragmentRole)
        ensures
            r == (match *self {
                ContextFragment::System { .. } => FragmentRole::System,
                ContextFragment::ConversationMessage { .. } => FragmentRole::User,
                ContextFragment::ToolResult { .. } => FragmentRole::User,
                ContextFragment::ReasoningReplay { .. } => FragmentRole::User,
                _ => FragmentRole::Developer,
            }),
    {
        match self {
            ContextFragment::System { .. } => FragmentRole::System,
            ContextFragment::ConversationMessage { .. }
            | ContextFragment::ToolResult { .. }
            | ContextFragment::ReasoningReplay { .. } => FragmentRole::User,
            _ => FragmentRole::Developer,
        }
    }

    pub fn marker_tag(&self) -> (r: Option<&'static str>)
        ensures
            (match r {
                Some(s) => Some(s@),
                None => None,
            }) == self.marker(),
    {
        match self {
            ContextFragment::ToolSchemas { .. } => Some("tool-schemas"),
            ContextFragment::SkillInstruction { .. } => Some("skill-instruction"),
            ContextFragment::PluginCapability { .. } => Some("plugin-capability"),
            ContextFragment::Environment { .. } => Some("environment"),
            _ => None,
        }
    }

    /// Whether the fragment is never dropped.
    pub fn is_protected(&self) -> (r: bool)
        ensures
            r == (self.group() is Protected),
    {
        match self {
            ContextFragment::System { .. }
            | ContextFragment::ToolResult { .. }
            | ContextFragment::ReasoningReplay { .. } => true,
            _ => false,
        }
    }
}

/// What was done to make the context fit.
#[derive(Debug, Clone)]
pub enum OverflowAction {
    DroppedPluginCapability { plugin_id: String },
    DroppedInactiveSkill { skill_name: String },
    TruncatedToolOutput { call_id: String, original_tokens: u64, truncated_tokens: u64 },
    CompactedHistory { removed_messages: usize },
}

/// The context of a turn as it is sent.
#[derive(Debug, Clone)]
pub struct AssembledContext {
    pub turn_id: TurnId,
    pub messages: Vec<ContextFragment>,
    pub budget: TokenBudget,
    pub overflow_actions: Vec<OverflowAction>,
}

/// The estimated tokens of a list of fragments.
pub open spec fn cost(v: Seq<ContextFragment>) -> nat
    decreases v.len(),
{
    if v.len() == 0 {
        0
    } else {
        cost(v.drop_last()) + v.last().tokens()
    }
}

/// The fragments of one group, in their order.
pub open spec fn of_group(v: Seq<ContextFragment>, g: FragmentGroup) -> Seq<ContextFragment> {
    v.filter(|f: ContextFragment| f.group() == g)
}

/// How many fragments go, one by one from the last, while `used` tokens are at or
/// over the limit.
pub open spec fn dropped_last(limit: nat, used: nat, v: Seq<ContextFragment>) -> nat
    decreases v.len(),
{
    if used >= limit && v.len() > 0 {
        1 + dropped_last(limit, (used - v.last().tokens()) as nat, v.drop_last())
    } else {
        0
    }
}

/// How many fragments go, one by one from the first, while `used` tokens are at or
/// over the limit. The last one stays.
pub open spec fn dropped_first(limit: nat, used: nat, v: Seq<ContextFragment>) -> nat
    decreases v.len(),
{
    if used >= limit && v.len() > 1 {
        1 + dropped_first(limit, (used - v[0].tokens()) as nat, v.skip(1))
    } else {
        0
    }
}

/// The tokens above which a tool output is large.
pub const LARGE_OUTPUT_TOKENS: u64 = 500;

/// Whether a fragment is a tool output that is large enough to be cut.
pub open spec fn is_large(f: ContextFragment) -> bool {
    f is ToolResult && f.tokens() > LARGE_OUTPUT_TOKENS
}

/// Whether `g` is the tool output `f` cut to the beginning of its text, half of its tokens.
pub open spec fn is_cut_of(f: ContextFragment, g: ContextFragment) -> bool {
    &&& f is ToolResult
    &&& g is ToolResult
    &&& g->ToolResult_call_id == f->ToolResult_call_id
    &&& g.content() == f.content().take(4 * (f.tokens() / 2) as int)
}

/// The tokens that are saved where large tool outputs are cut, one by one from the first,
/// while `used` tokens are at or over the limit.
pub open spec fn saved(limit: nat, used: nat, v: Seq<ContextFragment>) -> nat
    decreases v.len(),
{
    if v.len() == 0 {
        0
    } else {
        let before = saved(limit, used, v.drop_last());
        let f = v.last();
        if is_large(f) && used - before >= limit {
            before + (f.tokens() - f.tokens() / 2) as nat
        } else {
            before
        }
    }
}

/// Whether the fragment at a place is cut.
pub open spec fn cut_at(limit: nat, used: nat, v: Seq<ContextFragment>, i: int) -> bool {
    is_large(v[i]) && used - saved(limit, used, v.take(i)) >= limit
}

/// Whether `w` is `v` with the large tool outputs cut that have to be.
pub open spec fn is_trimmed(
    limit: nat,
    used: nat,
    v: Seq<ContextFragment>,
    w: Seq<ContextFragment>,
) -> bool {
    &&& w.len() == v.len()
    &&& forall|i: int|
        0 <= i < v.len() ==> if #[trigger] cut_at(limit, used, v, i) {
            is_cut_of(v[i], w[i])
        } else {
            w[i] == v[i]
        }
}

/// The record of the tool outputs that are cut, in their order.
pub open spec fn cut_reports(limit: nat, used: nat, v: Seq<ContextFragment>) -> Seq<OverflowAction>
    decreases v.len(),
{
    if v.len() == 0 {
        Seq::empty()
    } else {
        let before = cut_reports(limit, used, v.drop_last());
        if cut_at(limit, used, v, v.len() - 1) {
            before.push(
                OverflowAction::TruncatedToolOutput {
                    call_id: v.last()->ToolResult_call_id,
                    original_tokens: v.last().tokens() as u64,
                    truncated_tokens: (v.last().tokens() / 2) as u64,
                },
            )
        } else {
            before
        }
    }
}

/// How many plugin summaries, skills and history messages go, and how many tokens are used
/// when it comes to the tool outputs.
pub struct Drops {
    pub plugins: nat,
    pub skills: nat,
    pub before_cut: nat,
    pub history: nat,
}

/// The tokens that a budget lets a context use: the total less the margin.
pub open spec fn limit_of(total: u64) -> nat {
    let b = TokenBudget::of(total);
    super::budget::minus(b.total as nat, b.margin_tokens as nat)
}

/// What goes, in order: plugin summaries from the last, then skills from the last, then, when
/// large tool outputs are cut, history from the oldest, each only while the budget is
/// exhausted.
pub open spec fn drops(frags: Seq<ContextFragment>, total: u64) -> Drops {
    let limit = limit_of(total);
    let plugins = of_group(frags, FragmentGroup::Plugins);
    let skills = of_group(frags, FragmentGroup::Skills);
    let history = of_group(frags, FragmentGroup::History);
    let p = dropped_last(limit, cost(frags), plugins);
    let used1 = (cost(frags) - cost(plugins.skip(plugins.len() - p))) as nat;
    let s = dropped_last(limit, used1, skills);
    let used2 = (used1 - cost(skills.skip(skills.len() - s))) as nat;
    let used3 = (used2 - saved(limit, used2, of_group(frags, FragmentGroup::Protected))) as nat;
    let h = dropped_first(limit, used3, history);
    Drops { plugins: p, skills: s, before_cut: used2, history: h }
}

/// The fragments that are sent behind the protected ones: schemas, skills, plugin summaries,
/// history, environment, each group in its order and without what goes.
#[verifier::opaque]
pub open spec fn open_part(frags: Seq<ContextFragment>, total: u64) -> Seq<ContextFragment> {
    let d = drops(frags, total);
    let plugins = of_group(frags, FragmentGroup::Plugins);
    let skills = of_group(frags, FragmentGroup::Skills);
    of_group(frags, FragmentGroup::Schemas)
        + skills.take(skills.len() - d.skills) + plugins.take(plugins.len() - d.plugins) + of_group(
        frags,
        FragmentGroup::History,
    ).skip(d.history as int) + of_group(frags, FragmentGroup::Environment)
}

/// Whether `out` are the fragments that are sent: the protected ones in their order, with
/// large tool outputs cut where that is needed, and the others behind them.
pub open spec fn is_laid_out(
    frags: Seq<ContextFragment>,
    total: u64,
    out: Seq<ContextFragment>,
) -> bool {
    let protected = of_group(frags, FragmentGroup::Protected);
    let n = protected.len() as int;
    &&& out.len() == n + open_part(frags, total).len()
    &&& is_trimmed(limit_of(total), drops(frags, total).before_cut, protected, out.take(n))
    &&& out.skip(n) == open_part(frags, total)
}

/// The record of what goes: each plugin and each skill in the order in which it is
/// dropped, then the tool outputs that are cut, then the number of history messages where
/// there are any.
#[verifier::opaque]
pub open spec fn reported(frags: Seq<ContextFragment>, total: u64) -> Seq<OverflowAction> {
    let d = drops(frags, total);
    let plugins = of_group(frags, FragmentGroup::Plugins);
    let skills = of_group(frags, FragmentGroup::Skills);
    Seq::new(
        d.plugins,
        |i: int|
            OverflowAction::DroppedPluginCapability {
                plugin_id: plugins[plugins.len() - 1 - i]->PluginCapability_plugin_id,
            },
    ) + Seq::new(
        d.skills,
        |i: int|
            OverflowAction::DroppedInactiveSkill {
                skill_name: skills[skills.len() - 1 - i]->SkillInstruction_skill_name,
            },
    ) + cut_reports(
        limit_of(total),
        d.before_cut,
        of_group(frags, FragmentGroup::Protected),
    ) + if d.history > 0 {
        seq![OverflowAction::CompactedHistory { removed_messages: d.history as usize }]
    } else {
        Seq::empty()
    }
}

proof fn lemma_cost_push(v: Seq<ContextFragment>, f: ContextFragment)
    ensures
        cost(v.push(f)) == cost(v) + f.tokens(),
{
    assert(v.push(f).drop_last() =~= v);
}

proof fn lemma_cost_add(a: Seq<ContextFragment>, b: Seq<ContextFragment>)
    ensures
        cost(a + b) == cost(a) + cost(b),
    decreases b.len(),
{
    if b.len() == 0 {
        assert(a + b =~= a);
    } else {
        assert((a + b).drop_last() =~= a + b.drop_last());
        lemma_cost_add(a, b.drop_last());
    }
}

proof fn lemma_cost_split(v: Seq<ContextFragment>, n: int)
    requires
        0 <= n <= v.len(),
    ensures
        cost(v) == cost(v.take(n)) + cost(v.skip(n)),
{
    assert(v =~= v.take(n) + v.skip(n));
    lemma_cost_add(v.take(n), v.skip(n));
}

proof fn lemma_group_push(v: Seq<ContextFragment>, f: ContextFragment, g: FragmentGroup)
    ensures
        of_group(v.push(f), g) == (if f.group() == g {
            of_group(v, g).push(f)
        } else {
            of_group(v, g)
        }),
{
    reveal(Seq::filter);
    assert(v.push(f).drop_last() =~= v);
}

/// The sum over the six groups is the sum over all fragments.
proof fn lemma_cost_groups(v: Seq<ContextFragment>)
    ensures
        cost(v) == cost(of_group(v, FragmentGroup::Protected)) + cost(
            of_group(v, FragmentGroup::Schemas),
        ) + cost(of_group(v, FragmentGroup::Skills)) + cost(of_group(v, FragmentGroup::Plugins))
            + cost(of_group(v, FragmentGroup::History)) + cost(
            of_group(v, FragmentGroup::Environment),
        ),
        v.len() == of_group(v, FragmentGroup::Protected).len() + of_group(
            v,
            FragmentGroup::Schemas,
        ).len() + of_group(v, FragmentGroup::Skills).len() + of_group(
            v,
            FragmentGroup::Plugins,
        ).len() + of_group(v, FragmentGroup::History).len() + of_group(
            v,
            FragmentGroup::Environment,
        ).len(),
    decreases v.len(),
{
    reveal(Seq::filter);
    if v.len() > 0 {
        let p = v.drop_last();
        let f = v.last();
        lemma_cost_groups(p);
        assert(v =~= p.push(f));
        lemma_group_push(p, f, FragmentGroup::Protected);
        lemma_group_push(p, f, FragmentGroup::Schemas);
        lemma_group_push(p, f, FragmentGroup::Skills);
        lemma_group_push(p, f, FragmentGroup::Plugins);
        lemma_group_push(p, f, FragmentGroup::History);
        lemma_group_push(p, f, FragmentGroup::Environment);
        lemma_cost_push(of_group(p, f.group()), f);
    }
}

proof fn lemma_group_members(v: Seq<ContextFragment>, g: FragmentGroup)
    ensures
        forall|i: int| 0 <= i < of_group(v, g).len() ==> (#[trigger] of_group(v, g)[i]).group() == g,
    decreases v.len(),
{
    reveal(Seq::filter);
    if v.len() > 0 {
        lemma_group_members(v.drop_last(), g);
    }
}

proof fn lemma_dropped_last_bound(limit: nat, used: nat, v: Seq<ContextFragment>)
    ensures
        dropped_last(limit, used, v) <= v.len(),
    decreases v.len(),
{
    if used >= limit && v.len() > 0 {
        lemma_dropped_last_bound(limit, (used - v.last().tokens()) as nat, v.drop_last());
    }
}

proof fn lemma_dropped_first_bound(limit: nat, used: nat, v: Seq<ContextFragment>)
    ensures
        v.len() == 0 ==> dropped_first(limit, used, v) == 0,
        v.len() > 0 ==> dropped_first(limit, used, v) < v.len(),
    decreases v.len(),
{
    if used >= limit && v.len() > 1 {
        lemma_dropped_first_bound(limit, (used - v[0].tokens()) as nat, v.skip(1));
    }
}

proof fn lemma_saved_bound(limit: nat, used: nat, v: Seq<ContextFragment>)
    ensures
        saved(limit, used, v) <= cost(v),
    decreases v.len(),
{
    if v.len() > 0 {
        lemma_saved_bound(limit, used, v.drop_last());
    }
}

/// A cut tool output has half the tokens.
proof fn lemma_cut_tokens(f: ContextFragment, g: ContextFragment)
    requires
        is_large(f),
        is_cut_of(f, g),
    ensures
        4 * (f.tokens() / 2) <= f.content().len(),
        g.tokens() == f.tokens() / 2,
{
    assert(g.content().len() == 4 * (f.tokens() / 2));
}

/// Cutting saves what it is said to save.
proof fn lemma_trimmed_cost(
    limit: nat,
    used: nat,
    v: Seq<ContextFragment>,
    w: Seq<ContextFragment>,
)
    requires
        is_trimmed(limit, used, v, w),
    ensures
        cost(w) == cost(v) - saved(limit, used, v),
    decreases v.len(),
{
    if v.len() > 0 {
        let a = v.drop_last();
        let b = w.drop_last();
        assert forall|i: int| 0 <= i < a.len() implies if #[trigger] cut_at(limit, used, a, i) {
            is_cut_of(a[i], b[i])
        } else {
            b[i] == a[i]
        } by {
            assert(a.take(i) =~= v.take(i));
            assert(cut_at(limit, used, v, i) == cut_at(limit, used, a, i));
        }
        lemma_trimmed_cost(limit, used, a, b);
        let n = v.len() - 1;
        assert(v.take(n) =~= a);
        if cut_at(limit, used, v, n) {
            lemma_cut_tokens(v.last(), w.last());
        }
        lemma_saved_bound(limit, used, a);
    }
}

fn sum_tokens(v: &Vec<ContextFragment>) -> (r: u64)
    requires
        cost(v@) <= u64::MAX,
    ensures
        r == cost(v@),
{
    let mut sum: u64 = 0;
    let mut i: usize = 0;
    assert(v@.take(0) =~= Seq::empty());
    while i < v.len()
        invariant
            i <= v.len(),
            sum == cost(v@.take(i as int)),
            cost(v@) <= u64::MAX,
        decreases v.len() - i,
    {
        proof {
            assert(v@.take(i + 1) =~= v@.take(i as int).push(v@[i as int]));
            lemma_cost_push(v@.take(i as int), v@[i as int]);
            lemma_cost_split(v@, i + 1);
        }
        sum = sum + v[i].estimated_tokens();
        i = i + 1;
    }
    assert(v@.take(i as int) =~= v@);
    sum
}

/// Lays out the fragments of a turn under a token budget.
///
/// While the budget is exhausted, plugin summaries are dropped first, then skills; then large
/// tool outputs are cut to half of their tokens, the oldest first; then the oldest messages
/// of the conversation are dropped. Protected fragments, schemas, the environment and the
/// newest message always stay.
#[verifier::rlimit(60)]
pub fn assemble_context(
    turn_id: TurnId,
    fragments: Vec<ContextFragment>,
    budget_total: u64,
) -> (r: AssembledContext)
    requires
        budget_total * 65 <= u64::MAX,
        cost(fragments@) <= u64::MAX,
    ensures
        r.turn_id == turn_id,
        is_laid_out(fragments@, budget_total, r.messages@),
        r.budget == (TokenBudget {
            consumed: cost(r.messages@) as u64,
            ..TokenBudget::of(budget_total)
        }),
        cost(r.messages@) <= u64::MAX,
        r.overflow_actions@ == reported(fragments@, budget_total),
{
    proof {
        reveal(open_part);
        reveal(reported);
    }
    let ghost all = fragments@;
    let ghost limit = limit_of(budget_total);
    let mut budget = TokenBudget::new(budget_total);
    let all_tokens: u64 = sum_tokens(&fragments);
    budget.consume(all_tokens);
    let mut protected: Vec<ContextFragment> = Vec::new();
    let mut schemas: Vec<ContextFragment> = Vec::new();
    let mut skills: Vec<ContextFragment> = Vec::new();
    let mut plugins: Vec<ContextFragment> = Vec::new();
    let mut history: Vec<ContextFragment> = Vec::new();
    let mut env: Vec<ContextFragment> = Vec::new();
    let mut backwards: Vec<ContextFragment> = fragments;
    let mut rest: Vec<ContextFragment> = Vec::new();
    assert(all.skip(all.len() as int).reverse() =~= Seq::empty());
    assert(all.take(all.len() as int) =~= all);
    while backwards.len() > 0
        invariant
            backwards@ == all.take(backwards.len() as int),
            backwards.len() <= all.len(),
            rest@ == all.skip(backwards.len() as int).reverse(),
        decreases backwards.len(),
    {
        let ghost n = backwards.len() as int;
        let f = backwards.pop().unwrap();
        rest.push(f);
        assert(backwards@ =~= all.take(n - 1));
        assert(rest@ =~= all.skip(n - 1).reverse());
    }
    let ghost mut done: int = 0;
    proof {
        reveal(Seq::filter);
        assert(all.take(0) =~= Seq::empty());
    }
    while rest.len() > 0
        invariant
            0 <= done <= all.len(),
            rest@ == all.skip(done).reverse(),
            rest.len() == all.len() - done,
            protected@ == of_group(all.take(done), FragmentGroup::Protected),
            schemas@ == of_group(all.take(done), FragmentGroup::Schemas),
            skills@ == of_group(all.take(done), FragmentGroup::Skills),
            plugins@ == of_group(all.take(done), FragmentGroup::Plugins),
            history@ == of_group(all.take(done), FragmentGroup::History),
            env@ == of_group(all.take(done), FragmentGroup::Environment),
        decreases rest.len(),
    {
        let f = rest.pop().unwrap();
        proof {
            assert(f == all[done]);
            assert(rest@ =~= all.skip(done + 1).reverse());
            assert(all.take(done + 1) =~= all.take(done).push(f));
            lemma_group_push(all.take(done), f, FragmentGroup::Protected);
            lemma_group_push(all.take(done), f, FragmentGroup::Schemas);
            lemma_group_push(all.take(done), f, FragmentGroup::Skills);
            lemma_group_push(all.take(done), f, FragmentGroup::Plugins);
            lemma_group_push(all.take(done), f, FragmentGroup::History);
            lemma_group_push(all.take(done), f, FragmentGroup::Environment);
            done = done + 1;
        }
        if f.is_protected() {
            protected.push(f);
        } else {
            match f {
                ContextFragment::ToolSchemas { .. } => schemas.push(f),
                ContextFragment::SkillInstruction { .. } => skills.push(f),
                ContextFragment::PluginCapability { .. } => plugins.push(f),
                ContextFragment::ConversationMessage { .. } => history.push(f),
                _ => env.push(f),
            }
        }
    }
    assert(all.take(done) =~= all);
    let mut actions: Vec<OverflowAction> = Vec::new();
    let ghost d = drops(all, budget_total);
    let ghost plugins0 = plugins@;
    let ghost skills0 = skills@;
    let ghost history0 = history@;
    let ghost protected0 = protected@;
    proof {
        lemma_cost_groups(all);
        lemma_group_members(all, FragmentGroup::Plugins);
        lemma_group_members(all, FragmentGroup::Skills);
        lemma_dropped_last_bound(limit, cost(all), plugins0);
        assert(plugins0.skip(plugins0.len() as int) =~= Seq::empty());
    }
    let ghost np = d.plugins as int;
    drop_plugins(&mut budget, &mut plugins, &mut actions);
    let ghost used1 = budget.consumed as nat;
    proof {
        lemma_cost_split(plugins0, plugins0.len() - np);
        lemma_dropped_last_bound(limit, used1, skills0);
    }
    let ghost ns = d.skills as int;
    drop_skills(&mut budget, &mut skills, &mut actions);
    let ghost used2 = budget.consumed as nat;
    proof {
        lemma_cost_split(skills0, skills0.len() - ns);
        lemma_saved_bound(limit, used2, protected0);
    }
    cut_outputs(&mut budget, &mut protected, &mut actions);
    let ghost protected1 = protected@;
    let ghost used3 = budget.consumed as nat;
    proof {
        lemma_trimmed_cost(limit, used2, protected0, protected1);
        lemma_dropped_first_bound(limit, used3, history0);
    }
    let removed: usize = drop_history(&mut budget, &mut history);
    if removed > 0 {
        actions.push(OverflowAction::CompactedHistory { removed_messages: removed });
    }
    assert(actions@ =~= reported(all, budget_total));
    let mut out = protected;
    out.append(&mut schemas);
    out.append(&mut skills);
    out.append(&mut plugins);
    out.append(&mut history);
    out.append(&mut env);
    assert(out@ =~= protected1 + open_part(all, budget_total));
    assert(out@.take(protected1.len() as int) =~= protected1);
    assert(out@.skip(protected1.len() as int) =~= open_part(all, budget_total));
    proof {
        let a = protected1;
        let b = of_group(all, FragmentGroup::Schemas);
        let c = skills0.take(skills0.len() - ns);
        let e = plugins0.take(plugins0.len() - np);
        let h = history0.skip(d.history as int);
        let v = of_group(all, FragmentGroup::Environment);
        lemma_cost_add(a, b);
        lemma_cost_add(a + b, c);
        lemma_cost_add(a + b + c, e);
        lemma_cost_add(a + b + c + e, h);
        lemma_cost_add(a + b + c + e + h, v);
        lemma_cost_split(history0, d.history as int);
        assert(out@ =~= a + b + c + e + h + v);
    }
    let total_consumed: u64 = sum_tokens(&out);
    budget.consumed = total_consumed;
    AssembledContext { turn_id, messages: out, budget, overflow_actions: actions }
}

/// Drops plugin summaries from the last while the budget is exhausted.
fn drop_plugins(
    budget: &mut TokenBudget,
    plugins: &mut Vec<ContextFragment>,
    actions: &mut Vec<OverflowAction>,
)
    requires
        cost(old(plugins)@) <= old(budget).consumed,
        forall|i: int| 0 <= i < old(plugins)@.len() ==> (#[trigger] old(plugins)@[i]) is PluginCapability,
    ensures
        ({
            let v = old(plugins)@;
            let n = dropped_last(
                super::budget::minus(old(budget).total as nat, old(budget).margin_tokens as nat),
                old(budget).consumed as nat,
                v,
            ) as int;
            &&& 0 <= n <= v.len()
            &&& final(plugins)@ == v.take(v.len() - n)
            &&& *final(budget) == (TokenBudget {
                consumed: (old(budget).consumed - cost(v.skip(v.len() - n))) as u64,
                ..*old(budget)
            })
            &&& final(budget).consumed == old(budget).consumed - cost(v.skip(v.len() - n))
            &&& final(actions)@ == old(actions)@ + Seq::new(
                n as nat,
                |i: int|
                    OverflowAction::DroppedPluginCapability {
                        plugin_id: v[v.len() - 1 - i]->PluginCapability_plugin_id,
                    },
            )
        }),
{
    let ghost v = plugins@;
    let ghost limit = super::budget::minus(budget.total as nat, budget.margin_tokens as nat);
    let ghost start = *budget;
    let ghost acts = actions@;
    let ghost total_n = dropped_last(limit, budget.consumed as nat, v) as int;
    let ghost mut k: int = 0;
    proof {
        lemma_dropped_last_bound(limit, budget.consumed as nat, v);
        assert(v.take(v.len() as int) =~= v);
        assert(v.skip(v.len() as int) =~= Seq::empty());
        assert(actions@ =~= acts + Seq::new(
            0,
            |i: int|
                OverflowAction::DroppedPluginCapability {
                    plugin_id: v[v.len() - 1 - i]->PluginCapability_plugin_id,
                },
        ));
    }
    while budget.is_exhausted() && plugins.len() > 0
        invariant
            0 <= k <= v.len(),
            plugins@ == v.take(v.len() - k),
            start.total == budget.total && start.margin_tokens == budget.margin_tokens,
            *budget == (TokenBudget { consumed: budget.consumed, ..start }),
            limit == super::budget::minus(budget.total as nat, budget.margin_tokens as nat),
            budget.consumed == start.consumed - cost(v.skip(v.len() - k)),
            cost(v) <= start.consumed,
            total_n == k + dropped_last(limit, budget.consumed as nat, plugins@),
            forall|i: int| 0 <= i < v.len() ==> (#[trigger] v[i]) is PluginCapability,
            actions@ == acts + Seq::new(
                k as nat,
                |i: int|
                    OverflowAction::DroppedPluginCapability {
                        plugin_id: v[v.len() - 1 - i]->PluginCapability_plugin_id,
                    },
            ),
        decreases plugins.len(),
    {
        let ghost p0 = plugins@;
        let dropped = plugins.pop().unwrap();
        proof {
            assert(dropped == v[v.len() - 1 - k]);
            assert(plugins@ =~= p0.drop_last());
            assert(plugins@ =~= v.take(v.len() - k - 1));
            assert(v.skip(v.len() - k - 1) =~= seq![dropped] + v.skip(v.len() - k));
            lemma_cost_add(seq![dropped], v.skip(v.len() - k));
            assert(seq![dropped].drop_last() =~= Seq::empty());
            assert(cost(seq![dropped]) == dropped.tokens()) by {
                assert(cost(seq![dropped].drop_last()) == 0);
            }
            lemma_cost_split(v, v.len() - k - 1);
        }
        let est: u64 = dropped.estimated_tokens();
        budget.consumed = budget.consumed.saturating_sub(est);
        if let ContextFragment::PluginCapability { plugin_id, .. } = dropped {
            actions.push(OverflowAction::DroppedPluginCapability { plugin_id });
        }
        proof {
            k = k + 1;
            assert(actions@ =~= acts + Seq::new(
                k as nat,
                |i: int|
                    OverflowAction::DroppedPluginCapability {
                        plugin_id: v[v.len() - 1 - i]->PluginCapability_plugin_id,
                    },
            ));
        }
    }
}

/// Drops skills from the last while the budget is exhausted.
fn drop_skills(
    budget: &mut TokenBudget,
    skills: &mut Vec<ContextFragment>,
    actions: &mut Vec<OverflowAction>,
)
    requires
        cost(old(skills)@) <= old(budget).consumed,
        forall|i: int| 0 <= i < old(skills)@.len() ==> (#[trigger] old(skills)@[i]) is SkillInstruction,
    ensures
        ({
            let v = old(skills)@;
            let n = dropped_last(
                super::budget::minus(old(budget).total as nat, old(budget).margin_tokens as nat),
                old(budget).consumed as nat,
                v,
            ) as int;
            &&& 0 <= n <= v.len()
            &&& final(skills)@ == v.take(v.len() - n)
            &&& *final(budget) == (TokenBudget {
                consumed: (old(budget).consumed - cost(v.skip(v.len() - n))) as u64,
                ..*old(budget)
            })
            &&& final(budget).consumed == old(budget).consumed - cost(v.skip(v.len() - n))
            &&& final(actions)@ == old(actions)@ + Seq::new(
                n as nat,
                |i: int|
                    OverflowAction::DroppedInactiveSkill {
                        skill_name: v[v.len() - 1 - i]->SkillInstruction_skill_name,
                    },
            )
        }),
{
    let ghost v = skills@;
    let ghost limit = super::budget::minus(budget.total as nat, budget.margin_tokens as nat);
    let ghost start = *budget;
    let ghost acts = actions@;
    let ghost total_n = dropped_last(limit, budget.consumed as nat, v) as int;
    let ghost mut k: int = 0;
    proof {
        lemma_dropped_last_bound(limit, budget.consumed as nat, v);
        assert(v.take(v.len() as int) =~= v);
        assert(v.skip(v.len() as int) =~= Seq::empty());
        assert(actions@ =~= acts + Seq::new(
            0,
            |i: int|
                OverflowAction::DroppedInactiveSkill {
                    skill_name: v[v.len() - 1 - i]->SkillInstruction_skill_name,
                },
        ));
    }
    while budget.is_exhausted() && skills.len() > 0
        invariant
            0 <= k <= v.len(),
            skills@ == v.take(v.len() - k),
            start.total == budget.total && start.margin_tokens == budget.margin_tokens,
            *budget == (TokenBudget { consumed: budget.consumed, ..start }),
            limit == super::budget::minus(budget.total as nat, budget.margin_tokens as nat),
            budget.consumed == start.consumed - cost(v.skip(v.len() - k)),
            cost(v) <= start.consumed,
            total_n == k + dropped_last(limit, budget.consumed as nat, skills@),
            forall|i: int| 0 <= i < v.len() ==> (#[trigger] v[i]) is SkillInstruction,
            actions@ == acts + Seq::new(
                k as nat,
                |i: int|
                    OverflowAction::DroppedInactiveSkill {
                        skill_name: v[v.len() - 1 - i]->SkillInstruction_skill_name,
                    },
            ),
        decreases skills.len(),
    {
        let ghost p0 = skills@;
        let dropped = skills.pop().unwrap();
        proof {
            assert(dropped == v[v.len() - 1 - k]);
            assert(skills@ =~= p0.drop_last());
            assert(skills@ =~= v.take(v.len() - k - 1));
            assert(v.skip(v.len() - k - 1) =~= seq![dropped] + v.skip(v.len() - k));
            lemma_cost_add(seq![dropped], v.skip(v.len() - k));
            assert(seq![dropped].drop_last() =~= Seq::empty());
            assert(cost(seq![dropped]) == dropped.tokens()) by {
                assert(cost(seq![dropped].drop_last()) == 0);
            }
            lemma_cost_split(v, v.len() - k - 1);
        }
        let est: u64 = dropped.estimated_tokens();
        budget.consumed = budget.consumed.saturating_sub(est);
        if let ContextFragment::SkillInstruction { skill_name, .. } = dropped {
            actions.push(OverflowAction::DroppedInactiveSkill { skill_name });
        }
        proof {
            k = k + 1;
            assert(actions@ =~= acts + Seq::new(
                k as nat,
                |i: int|
                    OverflowAction::DroppedInactiveSkill {
                        skill_name: v[v.len() - 1 - i]->SkillInstruction_skill_name,
                    },
            ));
        }
    }
}

/// Cuts large tool outputs to half of their tokens, from the first, while the budget is
/// exhausted.
fn cut_outputs(
    budget: &mut TokenBudget,
    protected: &mut Vec<ContextFragment>,
    actions: &mut Vec<OverflowAction>,
)
    requires
        cost(old(protected)@) <= old(budget).consumed,
    ensures
        ({
            let v = old(protected)@;
            let limit = super::budget::minus(
                old(budget).total as nat,
                old(budget).margin_tokens as nat,
            );
            let used = old(budget).consumed as nat;
            &&& is_trimmed(limit, used, v, final(protected)@)
            &&& *final(budget) == (TokenBudget {
                consumed: (old(budget).consumed - saved(limit, used, v)) as u64,
                ..*old(budget)
            })
            &&& final(budget).consumed == old(budget).consumed - saved(limit, used, v)
            &&& final(actions)@ == old(actions)@ + cut_reports(limit, used, v)
        }),
{
    let ghost v = protected@;
    let ghost limit = super::budget::minus(budget.total as nat, budget.margin_tokens as nat);
    let ghost start = *budget;
    let ghost used = budget.consumed as nat;
    let ghost acts = actions@;
    let n: usize = protected.len();
    let mut i: usize = 0;
    proof {
        assert(v.take(0) =~= Seq::empty());
        assert(actions@ =~= acts + cut_reports(limit, used, v.take(0)));
    }
    while i < n
        invariant
            i <= n,
            n == v.len(),
            protected.len() == n,
            *budget == (TokenBudget { consumed: budget.consumed, ..start }),
            limit == super::budget::minus(budget.total as nat, budget.margin_tokens as nat),
            used == start.consumed,
            cost(v) <= used,
            budget.consumed == used - saved(limit, used, v.take(i as int)),
            actions@ == acts + cut_reports(limit, used, v.take(i as int)),
            forall|j: int|
                0 <= j < i ==> if #[trigger] cut_at(limit, used, v, j) {
                    is_cut_of(v[j], protected@[j])
                } else {
                    protected@[j] == v[j]
                },
            forall|j: int| i <= j < n ==> #[trigger] protected@[j] == v[j],
        decreases n - i,
    {
        let ghost before = protected@;
        let ghost next = v.take(i + 1);
        let over: bool = budget.is_exhausted();
        let est: u64 = protected[i].estimated_tokens();
        proof {
            assert(next.drop_last() =~= v.take(i as int));
            assert(next.take(i as int) =~= v.take(i as int));
            assert(next.last() == v[i as int]);
            assert(cut_at(limit, used, next, i as int) == cut_at(limit, used, v, i as int));
            lemma_saved_bound(limit, used, next);
            lemma_cost_split(v, i + 1);
        }
        if over && est > LARGE_OUTPUT_TOKENS {
            let mut shortened: Option<ContextFragment> = None;
            if let ContextFragment::ToolResult { call_id, content } = &protected[i] {
                let half: u64 = est / 2;
                assert(4 * half <= content@.len());
                let size: usize = content.as_str().unicode_len();
                assert(4 * half <= size);
                let keep: usize = half as usize * 4;
                let short = text::owned(content.as_str().substring_char(0, keep));
                assert(short@ =~= content@.take(keep as int));
                actions.push(
                    OverflowAction::TruncatedToolOutput {
                        call_id: call_id.clone(),
                        original_tokens: est,
                        truncated_tokens: half,
                    },
                );
                budget.consumed = budget.consumed.saturating_sub(est - half);
                shortened = Some(
                    ContextFragment::ToolResult { call_id: call_id.clone(), content: short },
                );
            }
            if let Some(f) = shortened {
                protected.set(i, f);
            }
        }
        proof {
            assert(actions@ =~= acts + cut_reports(limit, used, next));
            assert(over == (used - saved(limit, used, v.take(i as int)) >= limit));
            assert(if cut_at(limit, used, v, i as int) {
                is_cut_of(v[i as int], protected@[i as int])
            } else {
                protected@[i as int] == v[i as int]
            });
        }
        i = i + 1;
    }
    assert(v.take(i as int) =~= v);
}

/// Drops messages from the oldest while the budget is exhausted; the newest stays.
/// Returns how many went.
fn drop_history(budget: &mut TokenBudget, history: &mut Vec<ContextFragment>) -> (r: usize)
    requires
        cost(old(history)@) <= old(budget).consumed,
    ensures
        ({
            let v = old(history)@;
            let n = dropped_first(
                super::budget::minus(old(budget).total as nat, old(budget).margin_tokens as nat),
                old(budget).consumed as nat,
                v,
            ) as int;
            &&& r == n
            &&& 0 <= n <= v.len()
            &&& final(history)@ == v.skip(n)
            &&& *final(budget) == (TokenBudget {
                consumed: (old(budget).consumed - cost(v.take(n))) as u64,
                ..*old(budget)
            })
        }),
{
    let ghost v = history@;
    let ghost limit = super::budget::minus(budget.total as nat, budget.margin_tokens as nat);
    let ghost start = *budget;
    let ghost total_n = dropped_first(limit, budget.consumed as nat, v) as int;
    let mut removed: usize = 0;
    let len: usize = history.len();
    proof {
        assert(v.skip(0) =~= v);
        assert(v.take(0) =~= Seq::empty());
    }
    while budget.is_exhausted() && history.len() > 1
        invariant
            0 <= removed <= v.len(),
            v.len() == len,
            history@ == v.skip(removed as int),
            *budget == (TokenBudget { consumed: budget.consumed, ..start }),
            limit == super::budget::minus(budget.total as nat, budget.margin_tokens as nat),
            budget.consumed == start.consumed - cost(v.take(removed as int)),
            cost(v) <= start.consumed,
            total_n == removed + dropped_first(limit, budget.consumed as nat, history@),
        decreases history.len(),
    {
        let ghost h0 = history@;
        let oldest = history.remove(0);
        proof {
            assert(oldest == v[removed as int]);
            assert(history@ =~= h0.skip(1));
            assert(history@ =~= v.skip(removed + 1));
            assert(v.take(removed + 1) =~= v.take(removed as int).push(oldest));
            lemma_cost_push(v.take(removed as int), oldest);
            lemma_cost_split(v, removed + 1);
        }
        let est: u64 = oldest.estimated_tokens();
        budget.consumed = budget.consumed.saturating_sub(est);
        removed = removed + 1;
    }
    removed
}

proof fn lemma_group_add(a: Seq<ContextFragment>, b: Seq<ContextFragment>, g: FragmentGroup)
    ensures
        of_group(a + b, g) == of_group(a, g) + of_group(b, g),
    decreases b.len(),
{
    reveal(Seq::filter);
    if b.len() == 0 {
        assert(a + b =~= a);
        assert(of_group(a, g) + of_group(b, g) =~= of_group(a, g));
    } else {
        let c = b.drop_last();
        let f = b.last();
        lemma_group_add(a, c, g);
        assert(a + b =~= (a + c).push(f));
        assert(b =~= c.push(f));
        lemma_group_push(a + c, f, g);
        lemma_group_push(c, f, g);
        assert(of_group(a + b, g) =~= of_group(a, g) + of_group(b, g));
    }
}

/// A list whose fragments are all of one group is that group, and has none of the
/// others.
proof fn lemma_group_pure(v: Seq<ContextFragment>, g: FragmentGroup, h: FragmentGroup)
    requires
        forall|i: int| 0 <= i < v.len() ==> (#[trigger] v[i]).group() == g,
    ensures
        of_group(v, h) == (if g == h {
            v
        } else {
            Seq::empty()
        }),
    decreases v.len(),
{
    reveal(Seq::filter);
    if v.len() > 0 {
        let c = v.drop_last();
        assert forall|i: int| 0 <= i < c.len() implies (#[trigger] c[i]).group() == g by {
            assert(c[i] == v[i]);
        }
        lemma_group_pure(c, g, h);
        assert(v =~= c.push(v.last()));
        assert(v[v.len() - 1].group() == g);
        lemma_group_push(c, v.last(), h);
    }
}

/// After the drops from the back either all are gone or what is used is below the
/// limit.
proof fn lemma_dropped_last_stops(limit: nat, used: nat, v: Seq<ContextFragment>)
    requires
        cost(v) <= used,
    ensures
        ({
            let n = dropped_last(limit, used, v);
            &&& n <= v.len()
            &&& n == v.len() || used - cost(v.skip(v.len() - n)) < limit
            &&& used < limit ==> n == 0
        }),
    decreases v.len(),
{
    lemma_dropped_last_bound(limit, used, v);
    if used >= limit && v.len() > 0 {
        let f = v.last();
        let n = dropped_last(limit, used, v);
        lemma_dropped_last_stops(limit, (used - f.tokens()) as nat, v.drop_last());
        lemma_dropped_last_bound(limit, (used - f.tokens()) as nat, v.drop_last());
        let w = v.drop_last();
        assert(v.skip(v.len() - n) =~= w.skip(w.len() - (n - 1)).push(f));
        lemma_cost_push(w.skip(w.len() - (n - 1)), f);
    } else {
        assert(v.skip(v.len() as int) =~= Seq::empty());
    }
}

proof fn lemma_dropped_first_stops(limit: nat, used: nat, v: Seq<ContextFragment>)
    requires
        cost(v) <= used,
    ensures
        ({
            let n = dropped_first(limit, used, v);
            &&& n <= v.len()
            &&& v.len() - n <= 1 || used - cost(v.take(n as int)) < limit
            &&& used < limit ==> n == 0
        }),
    decreases v.len(),
{
    lemma_dropped_first_bound(limit, used, v);
    if used >= limit && v.len() > 1 {
        let f = v[0];
        let n = dropped_first(limit, used, v);
        let w = v.skip(1);
        lemma_cost_split(v, 1);
        assert(v.take(1) =~= seq![f]);
        lemma_cost_one(f);
        lemma_dropped_first_stops(limit, (used - f.tokens()) as nat, w);
        assert(v.take(n as int) =~= seq![f] + w.take(n - 1));
        lemma_cost_add(seq![f], w.take(n - 1));
    } else {
        assert(v.take(0) =~= Seq::empty());
    }
}

proof fn lemma_cost_one(f: ContextFragment)
    ensures
        cost(seq![f]) == f.tokens(),
{
    assert(seq![f].drop_last() =~= Seq::empty());
    assert(cost(seq![f].drop_last()) == 0);
}

/// What is saved falls short of the limit only where every large output is cut.
proof fn lemma_saved_stops(limit: nat, used: nat, v: Seq<ContextFragment>)
    ensures
        used < limit ==> saved(limit, used, v) == 0 && cut_reports(limit, used, v) == Seq::<
            OverflowAction,
        >::empty(),
        used - saved(limit, used, v) >= limit ==> forall|i: int|
            0 <= i < v.len() && is_large(v[i]) ==> #[trigger] cut_at(limit, used, v, i),
    decreases v.len(),
{
    if v.len() > 0 {
        let a = v.drop_last();
        let n = v.len() - 1;
        lemma_saved_stops(limit, used, a);
        assert(v.take(n) =~= a);
        if used - saved(limit, used, v) >= limit {
            assert forall|i: int| 0 <= i < v.len() && is_large(v[i]) implies #[trigger] cut_at(
                limit,
                used,
                v,
                i,
            ) by {
                if i < n {
                    assert(a.take(i) =~= v.take(i));
                    assert(is_large(a[i]));
                    assert(cut_at(limit, used, a, i));
                }
            }
        }
    }
}

/// The sizes of what is dropped.
proof fn lemma_drops(frags: Seq<ContextFragment>, total: u64)
    ensures
        ({
            let d = drops(frags, total);
            let limit = limit_of(total);
            let protected = of_group(frags, FragmentGroup::Protected);
            let plugins = of_group(frags, FragmentGroup::Plugins);
            let skills = of_group(frags, FragmentGroup::Skills);
            let history = of_group(frags, FragmentGroup::History);
            let cut = saved(limit, d.before_cut, protected);
            &&& d.plugins <= plugins.len()
            &&& d.skills <= skills.len()
            &&& d.history <= history.len()
            &&& history.len() > 0 ==> d.history < history.len()
            &&& d.skills > 0 ==> d.plugins == plugins.len()
            &&& d.before_cut >= limit ==> d.plugins == plugins.len() && d.skills == skills.len()
            &&& d.history > 0 ==> d.before_cut - cut >= limit
            &&& cost(frags) < limit ==> d.plugins == 0 && d.skills == 0 && d.history == 0
                && d.before_cut < limit
            &&& cost(protected) + cost(history) <= d.before_cut
            &&& d.before_cut == cost(protected) + cost(of_group(frags, FragmentGroup::Schemas))
                + cost(skills.take(skills.len() - d.skills)) + cost(
                plugins.take(plugins.len() - d.plugins),
            ) + cost(history) + cost(of_group(frags, FragmentGroup::Environment))
            &&& d.before_cut <= cost(frags)
            &&& history.len() - d.history <= 1 || d.before_cut - cut - cost(
                history.take(d.history as int),
            ) < limit
        }),
{
    let limit = limit_of(total);
    let protected = of_group(frags, FragmentGroup::Protected);
    let plugins = of_group(frags, FragmentGroup::Plugins);
    let skills = of_group(frags, FragmentGroup::Skills);
    let history = of_group(frags, FragmentGroup::History);
    lemma_cost_groups(frags);
    let d = drops(frags, total);
    lemma_dropped_last_stops(limit, cost(frags), plugins);
    let np = plugins.len() - d.plugins;
    lemma_cost_split(plugins, np);
    let used1 = (cost(frags) - cost(plugins.skip(np))) as nat;
    lemma_dropped_last_stops(limit, used1, skills);
    let ns = skills.len() - d.skills;
    lemma_cost_split(skills, ns);
    let used2 = (used1 - cost(skills.skip(ns))) as nat;
    lemma_saved_bound(limit, used2, protected);
    lemma_saved_stops(limit, used2, protected);
    let used3 = (used2 - saved(limit, used2, protected)) as nat;
    lemma_dropped_first_stops(limit, used3, history);
    lemma_dropped_first_bound(limit, used3, history);
    assert(plugins.skip(plugins.len() as int) =~= Seq::empty());
    assert(skills.skip(skills.len() as int) =~= Seq::empty());
}

/// What the fragments that are sent cost.
proof fn lemma_laid_out_cost(frags: Seq<ContextFragment>, total: u64, out: Seq<ContextFragment>)
    requires
        is_laid_out(frags, total, out),
    ensures
        ({
            let d = drops(frags, total);
            let protected = of_group(frags, FragmentGroup::Protected);
            let history = of_group(frags, FragmentGroup::History);
            cost(out) == d.before_cut - saved(limit_of(total), d.before_cut, protected) - cost(
                history.take(d.history as int),
            )
        }),
{
    reveal(open_part);
    lemma_drops(frags, total);
    let d = drops(frags, total);
    let protected = of_group(frags, FragmentGroup::Protected);
    let plugins = of_group(frags, FragmentGroup::Plugins);
    let skills = of_group(frags, FragmentGroup::Skills);
    let history = of_group(frags, FragmentGroup::History);
    let a = out.take(protected.len() as int);
    let b = of_group(frags, FragmentGroup::Schemas);
    let c = skills.take(skills.len() - d.skills);
    let e = plugins.take(plugins.len() - d.plugins);
    let h = history.skip(d.history as int);
    let v = of_group(frags, FragmentGroup::Environment);
    lemma_trimmed_cost(limit_of(total), d.before_cut, protected, a);
    lemma_cost_split(history, d.history as int);
    lemma_cost_add(b, c);
    lemma_cost_add(b + c, e);
    lemma_cost_add(b + c + e, h);
    lemma_cost_add(b + c + e + h, v);
    lemma_cost_add(a, open_part(frags, total));
    assert(out =~= a + open_part(frags, total));
}

/// Protected fragments, tool schemas and the environment are never dropped and keep their
/// order. Of the protected ones only large tool outputs can change: one that is cut keeps
/// the id of its call and the beginning of its text.
pub proof fn law_protected_stay(
    frags: Seq<ContextFragment>,
    total: u64,
    out: Seq<ContextFragment>,
)
    requires
        is_laid_out(frags, total, out),
    ensures
        is_trimmed(
            limit_of(total),
            drops(frags, total).before_cut,
            of_group(frags, FragmentGroup::Protected),
            of_group(out, FragmentGroup::Protected),
        ),
        of_group(out, FragmentGroup::Schemas) == of_group(frags, FragmentGroup::Schemas),
        of_group(out, FragmentGroup::Environment) == of_group(frags, FragmentGroup::Environment),
        forall|i: int|
            0 <= i < frags.len() && (#[trigger] frags[i]).group() is Protected && !is_large(
                frags[i],
            ) ==> out.contains(frags[i]),
        forall|i: int|
            0 <= i < frags.len() && is_large(#[trigger] frags[i]) ==> out.contains(frags[i])
                || exists|j: int|
                0 <= j < out.len() && is_cut_of(frags[i], #[trigger] out[j]),
{
    lemma_laid_out_groups(frags, total, out);
    assert forall|i: int|
        0 <= i < frags.len() && (#[trigger] frags[i]).group() is Protected && !is_large(
            frags[i],
        ) implies out.contains(frags[i]) by {
        lemma_protected_stays(frags, total, out, i);
    }
    assert forall|i: int| 0 <= i < frags.len() && is_large(#[trigger] frags[i]) implies out.contains(
        frags[i],
    ) || exists|j: int| 0 <= j < out.len() && is_cut_of(frags[i], #[trigger] out[j]) by {
        lemma_protected_stays(frags, total, out, i);
    }
}

/// The protected fragments of what is sent are its front, and no schema and nothing of the
/// environment is missing.
proof fn lemma_laid_out_groups(frags: Seq<ContextFragment>, total: u64, out: Seq<ContextFragment>)
    requires
        is_laid_out(frags, total, out),
    ensures
        of_group(out, FragmentGroup::Protected) == out.take(
            of_group(frags, FragmentGroup::Protected).len() as int,
        ),
        of_group(out, FragmentGroup::Schemas) == of_group(frags, FragmentGroup::Schemas),
        of_group(out, FragmentGroup::Environment) == of_group(frags, FragmentGroup::Environment),
{
    let d = drops(frags, total);
    let p = of_group(frags, FragmentGroup::Protected);
    let a = out.take(p.len() as int);
    lemma_group_members(frags, FragmentGroup::Protected);
    assert forall|i: int| 0 <= i < a.len() implies (#[trigger] a[i]).group()
        == FragmentGroup::Protected by {
        assert(p[i].group() == FragmentGroup::Protected);
        if cut_at(limit_of(total), d.before_cut, p, i) {
            assert(is_cut_of(p[i], a[i]));
        }
    }
    assert(out =~= a + open_part(frags, total));
    lemma_kept_group(frags, total, a, FragmentGroup::Protected);
    lemma_kept_group(frags, total, a, FragmentGroup::Schemas);
    lemma_kept_group(frags, total, a, FragmentGroup::Environment);
}

/// A protected fragment is sent as it is, or it is a large tool output and is sent cut.
proof fn lemma_protected_stays(
    frags: Seq<ContextFragment>,
    total: u64,
    out: Seq<ContextFragment>,
    i: int,
)
    requires
        is_laid_out(frags, total, out),
        0 <= i < frags.len(),
        frags[i].group() is Protected,
    ensures
        out.contains(frags[i]) || is_large(frags[i]) && exists|j: int|
            0 <= j < out.len() && is_cut_of(frags[i], #[trigger] out[j]),
{
    let p = of_group(frags, FragmentGroup::Protected);
    let a = out.take(p.len() as int);
    lemma_group_has(frags, FragmentGroup::Protected, i);
    let k = choose|k: int| 0 <= k < p.len() && p[k] == frags[i];
    assert(a[k] == out[k]);
    if cut_at(limit_of(total), drops(frags, total).before_cut, p, k) {
        assert(is_cut_of(frags[i], out[k]));
    } else {
        assert(out[k] == frags[i]);
    }
}

proof fn lemma_group_has(v: Seq<ContextFragment>, g: FragmentGroup, i: int)
    requires
        0 <= i < v.len(),
        v[i].group() == g,
    ensures
        of_group(v, g).contains(v[i]),
    decreases v.len(),
{
    let c = v.drop_last();
    assert(v =~= c.push(v.last()));
    lemma_group_push(c, v.last(), g);
    if i == v.len() - 1 {
        assert(of_group(v, g)[of_group(v, g).len() - 1] == v[i]);
    } else {
        assert(c[i] == v[i]);
        lemma_group_has(c, g, i);
        let k = choose|k: int| 0 <= k < of_group(c, g).len() && of_group(c, g)[k] == v[i];
        assert(of_group(v, g)[k] == v[i]);
    }
}

/// The groups of which all fragments are sent, behind a list of protected ones.
proof fn lemma_kept_group(
    frags: Seq<ContextFragment>,
    total: u64,
    a: Seq<ContextFragment>,
    g: FragmentGroup,
)
    requires
        g is Protected || g is Schemas || g is Environment,
        forall|i: int| 0 <= i < a.len() ==> (#[trigger] a[i]).group() == FragmentGroup::Protected,
    ensures
        of_group(a + open_part(frags, total), g) == (if g is Protected {
            a
        } else {
            of_group(frags, g)
        }),
{
    lemma_open_group(frags, total, g);
    lemma_group_pure(a, FragmentGroup::Protected, g);
    lemma_group_add(a, open_part(frags, total), g);
    assert(a + Seq::<ContextFragment>::empty() =~= a);
    assert(Seq::<ContextFragment>::empty() + of_group(frags, g) =~= of_group(frags, g));
}

/// What the fragments behind the protected ones hold of a group of which none goes.
proof fn lemma_open_group(frags: Seq<ContextFragment>, total: u64, g: FragmentGroup)
    requires
        g is Protected || g is Schemas || g is Environment,
    ensures
        of_group(open_part(frags, total), g) == (if g is Protected {
            Seq::empty()
        } else {
            of_group(frags, g)
        }),
{
    reveal(open_part);
    lemma_drops(frags, total);
    let d = drops(frags, total);
    let plugins = of_group(frags, FragmentGroup::Plugins);
    let skills = of_group(frags, FragmentGroup::Skills);
    let history = of_group(frags, FragmentGroup::History);
    let b = of_group(frags, FragmentGroup::Schemas);
    let c = skills.take(skills.len() - d.skills);
    let e = plugins.take(plugins.len() - d.plugins);
    let h = history.skip(d.history as int);
    let v = of_group(frags, FragmentGroup::Environment);
    lemma_group_members(frags, FragmentGroup::Schemas);
    lemma_group_members(frags, FragmentGroup::Skills);
    lemma_group_members(frags, FragmentGroup::Plugins);
    lemma_group_members(frags, FragmentGroup::History);
    lemma_group_members(frags, FragmentGroup::Environment);
    lemma_group_pure(b, FragmentGroup::Schemas, g);
    lemma_group_pure(c, FragmentGroup::Skills, g);
    lemma_group_pure(e, FragmentGroup::Plugins, g);
    lemma_group_pure(h, FragmentGroup::History, g);
    lemma_group_pure(v, FragmentGroup::Environment, g);
    lemma_group_add(b, c, g);
    lemma_group_add(b + c, e, g);
    lemma_group_add(b + c + e, h, g);
    lemma_group_add(b + c + e + h, v, g);
    assert(of_group(open_part(frags, total), g) =~= (if g is Protected {
        Seq::empty()
    } else {
        of_group(frags, g)
    }));
}

/// Skills go only when every plugin summary is gone; tool outputs are cut only when every
/// skill is gone too; history goes only when, besides, every large tool output is cut. The
/// newest message of the conversation never goes.
pub proof fn law_overflow_order(frags: Seq<ContextFragment>, total: u64)
    ensures
        ({
            let d = drops(frags, total);
            let limit = limit_of(total);
            let protected = of_group(frags, FragmentGroup::Protected);
            let plugins = of_group(frags, FragmentGroup::Plugins);
            let skills = of_group(frags, FragmentGroup::Skills);
            let history = of_group(frags, FragmentGroup::History);
            &&& d.skills > 0 ==> d.plugins == plugins.len()
            &&& saved(limit, d.before_cut, protected) > 0 ==> d.plugins == plugins.len() && d.skills
                == skills.len()
            &&& d.history > 0 ==> d.plugins == plugins.len() && d.skills == skills.len()
            &&& d.history > 0 ==> forall|i: int|
                0 <= i < protected.len() && is_large(protected[i]) ==> #[trigger] cut_at(
                    limit,
                    d.before_cut,
                    protected,
                    i,
                )
            &&& history.len() > 0 ==> d.history < history.len()
        }),
{
    lemma_drops(frags, total);
    let d = drops(frags, total);
    lemma_saved_stops(limit_of(total), d.before_cut, of_group(frags, FragmentGroup::Protected));
}

/// A context that fits is laid out whole, and nothing is reported.
pub proof fn law_fitting_context_is_kept(
    frags: Seq<ContextFragment>,
    total: u64,
    out: Seq<ContextFragment>,
)
    requires
        cost(frags) < limit_of(total),
        is_laid_out(frags, total, out),
    ensures
        out.len() == frags.len(),
        cost(out) == cost(frags),
        of_group(out, FragmentGroup::Protected) == of_group(frags, FragmentGroup::Protected),
        reported(frags, total) == Seq::<OverflowAction>::empty(),
{
    reveal(open_part);
    reveal(reported);
    lemma_drops(frags, total);
    lemma_cost_groups(frags);
    lemma_laid_out_cost(frags, total, out);
    law_protected_stay(frags, total, out);
    let d = drops(frags, total);
    let p = of_group(frags, FragmentGroup::Protected);
    let w = of_group(out, FragmentGroup::Protected);
    let plugins = of_group(frags, FragmentGroup::Plugins);
    let skills = of_group(frags, FragmentGroup::Skills);
    let history = of_group(frags, FragmentGroup::History);
    lemma_saved_stops(limit_of(total), d.before_cut, p);
    assert forall|i: int| 0 <= i < p.len() implies w[i] == p[i] by {
        assert(!cut_at(limit_of(total), d.before_cut, p, i));
    }
    assert(w =~= p);
    assert(plugins.take(plugins.len() as int) =~= plugins);
    assert(skills.take(skills.len() as int) =~= skills);
    assert(history.skip(0) =~= history);
    assert(history.take(0) =~= Seq::empty());
    assert(reported(frags, total) =~= Seq::<OverflowAction>::empty());
}

/// A context that is still over the limit has lost all that may go, and every large tool
/// output in it is cut.
pub proof fn law_over_limit_only_if_bare(
    frags: Seq<ContextFragment>,
    total: u64,
    out: Seq<ContextFragment>,
)
    requires
        is_laid_out(frags, total, out),
        cost(out) >= limit_of(total),
    ensures
        ({
            let d = drops(frags, total);
            let protected = of_group(frags, FragmentGroup::Protected);
            &&& d.plugins == of_group(frags, FragmentGroup::Plugins).len()
            &&& d.skills == of_group(frags, FragmentGroup::Skills).len()
            &&& of_group(frags, FragmentGroup::History).len() - d.history <= 1
            &&& forall|i: int|
                0 <= i < protected.len() && is_large(protected[i]) ==> #[trigger] cut_at(
                    limit_of(total),
                    d.before_cut,
                    protected,
                    i,
                )
        }),
{
    lemma_drops(frags, total);
    lemma_laid_out_cost(frags, total, out);
    let d = drops(frags, total);
    lemma_saved_stops(limit_of(total), d.before_cut, of_group(frags, FragmentGroup::Protected));
}

/// Four characters are a token, and a rest of fewer counts as one.
pub proof fn law_tokens_are_rounded_up(n: nat)
    ensures
        n <= 4 * tokens_of(n) < n + 4,
{
}

/// What a fragment says is the text it holds, whatever its kind, and its estimate is that of
/// this text.
pub proof fn law_fragment_says_its_text(f: ContextFragment)
    ensures
        f matches ContextFragment::System { content } ==> f.content() == content@,
        f matches ContextFragment::ToolSchemas { content } ==> f.content() == content@,
        f matches ContextFragment::SkillInstruction { content, .. } ==> f.content() == content@,
        f matches ContextFragment::PluginCapability { content, .. } ==> f.content() == content@,
        f matches ContextFragment::ConversationMessage { content, .. } ==> f.content() == content@,
        f matches ContextFragment::ToolResult { content, .. } ==> f.content() == content@,
        f matches ContextFragment::ReasoningReplay { content, .. } ==> f.content() == content@,
        f matches ContextFragment::Environment { content } ==> f.content() == content@,
        f.content().len() <= 4 * f.tokens() < f.content().len() + 4,
{
}

/// The system prompt, tool results and reasoning that has to go back are protected, and
/// nothing else is; every other kind has a group of its own, and a marker unless it is part
/// of the conversation.
pub proof fn law_protected_kinds(f: ContextFragment)
    ensures
        f.group() is Protected <==> (f is System || f is ToolResult || f is ReasoningReplay),
        f.group() is Schemas <==> f is ToolSchemas,
        f.group() is Skills <==> f is SkillInstruction,
        f.group() is Plugins <==> f is PluginCapability,
        f.group() is History <==> f is ConversationMessage,
        f.group() is Environment <==> f is Environment,
        f.marker() is None <==> (f.group() is Protected || f.group() is History),
        f is ToolSchemas ==> f.marker() == Some("tool-schemas"@),
        f is SkillInstruction ==> f.marker() == Some("skill-instruction"@),
        f is PluginCapability ==> f.marker() == Some("plugin-capability"@),
        f is Environment ==> f.marker() == Some("environment"@),
{
}

/// A tool output is large where it has more than two thousand characters. One that is cut is
/// still the output of its call: it holds the beginning of the text, half of its tokens.
pub proof fn law_cut_keeps_the_beginning(f: ContextFragment, g: ContextFragment)
    ensures
        is_large(f) <==> f is ToolResult && f.content().len() > 2000,
        is_large(f) && is_cut_of(f, g) ==> {
            &&& g is ToolResult
            &&& g->ToolResult_call_id == f->ToolResult_call_id
            &&& 0 < g.content().len() < f.content().len()
            &&& g.content() == f.content().take(g.content().len() as int)
            &&& g.tokens() == f.tokens() / 2
        },
{
    if is_large(f) && is_cut_of(f, g) {
        lemma_cut_tokens(f, g);
    }
}

/// A budget lets a context use what its margin of 5 hundredths leaves.
pub proof fn law_limit_leaves_the_margin(total: u64)
    requires
        total * 65 <= u64::MAX,
    ensures
        100 * (total - limit_of(total)) <= 5 * total < 100 * (total - limit_of(total)) + 100,
{
}

/// The cost of a context is the sum of the estimates of its fragments.
pub proof fn law_costs_add_up(v: Seq<ContextFragment>, f: ContextFragment)
    ensures
        cost(Seq::<ContextFragment>::empty()) == 0,
        cost(v.push(f)) == cost(v) + f.tokens(),
{
    lemma_cost_push(v, f);
}

/// A group holds the fragments of its kind in their order, and no others.
pub proof fn law_groups_are_by_kind(
    v: Seq<ContextFragment>,
    f: ContextFragment,
    g: FragmentGroup,
)
    ensures
        of_group(Seq::<ContextFragment>::empty(), g).len() == 0,
        f.group() == g ==> of_group(v.push(f), g) == of_group(v, g).push(f),
        f.group() != g ==> of_group(v.push(f), g) == of_group(v, g),
{
    reveal(Seq::filter);
    lemma_group_push(v, f, g);
}

/// What is saved and what is reported of cut outputs goes output by output: one more that
/// is large, while the context is at or over the limit, saves half of its tokens and is
/// reported with its call and both sizes; any other changes nothing.
pub proof fn law_outputs_are_cut_one_by_one(
    limit: nat,
    used: nat,
    v: Seq<ContextFragment>,
    f: ContextFragment,
)
    ensures
        saved(limit, used, Seq::<ContextFragment>::empty()) == 0,
        cut_reports(limit, used, Seq::<ContextFragment>::empty()).len() == 0,
        ({
            let cut = f is ToolResult && f.tokens() > 500 && used - saved(limit, used, v) >= limit;
            &&& cut ==> saved(limit, used, v.push(f)) == saved(limit, used, v) + f.tokens()
                - f.tokens() / 2
            &&& !cut ==> saved(limit, used, v.push(f)) == saved(limit, used, v)
            &&& cut <==> cut_at(limit, used, v.push(f), v.len() as int)
            &&& cut ==> cut_reports(limit, used, v.push(f)) == cut_reports(limit, used, v).push(
                OverflowAction::TruncatedToolOutput {
                    call_id: f->ToolResult_call_id,
                    original_tokens: f.tokens() as u64,
                    truncated_tokens: (f.tokens() / 2) as u64,
                },
            )
            &&& !cut ==> cut_reports(limit, used, v.push(f)) == cut_reports(limit, used, v)
        }),
{
    let w = v.push(f);
    assert(w.drop_last() =~= v);
    assert(w.take(v.len() as int) =~= v);
}

proof fn lemma_dropped_last_needed(limit: nat, used: nat, v: Seq<ContextFragment>)
    requires
        cost(v) <= used,
    ensures
        ({
            let n = dropped_last(limit, used, v);
            n > 0 ==> used - cost(v.skip(v.len() - n + 1)) >= limit
        }),
    decreases v.len(),
{
    lemma_dropped_last_bound(limit, used, v);
    if used >= limit && v.len() > 0 {
        let n = dropped_last(limit, used, v);
        let f = v.last();
        let w = v.drop_last();
        lemma_dropped_last_needed(limit, (used - f.tokens()) as nat, w);
        lemma_dropped_last_bound(limit, (used - f.tokens()) as nat, w);
        if n == 1 {
            assert(v.skip(v.len() as int) =~= Seq::empty());
        } else {
            assert(v.skip(v.len() - n + 1) =~= w.skip(w.len() - (n - 1) + 1).push(f));
            lemma_cost_push(w.skip(w.len() - (n - 1) + 1), f);
        }
    }
}

proof fn lemma_dropped_first_needed(limit: nat, used: nat, v: Seq<ContextFragment>)
    requires
        cost(v) <= used,
    ensures
        ({
            let n = dropped_first(limit, used, v);
            n > 0 ==> used - cost(v.take(n - 1)) >= limit
        }),
    decreases v.len(),
{
    lemma_dropped_first_bound(limit, used, v);
    if used >= limit && v.len() > 1 {
        let n = dropped_first(limit, used, v);
        let f = v[0];
        let w = v.skip(1);
        lemma_cost_split(v, 1);
        assert(v.take(1) =~= seq![f]);
        lemma_cost_one(f);
        lemma_dropped_first_needed(limit, (used - f.tokens()) as nat, w);
        if n == 1 {
            assert(v.take(0) =~= Seq::empty());
        } else {
            assert(v.take(n - 1) =~= seq![f] + w.take(n - 2));
            lemma_cost_add(seq![f], w.take(n - 2));
        }
    }
}

/// No more goes than has to: when the last of the dropped plugin summaries went, the context
/// was still at or over the limit, and the same holds of the last skill and of the last
/// message of the conversation that went.
pub proof fn law_no_more_goes_than_has_to(frags: Seq<ContextFragment>, total: u64)
    ensures
        ({
            let d = drops(frags, total);
            let limit = limit_of(total);
            let plugins = of_group(frags, FragmentGroup::Plugins);
            let skills = of_group(frags, FragmentGroup::Skills);
            let history = of_group(frags, FragmentGroup::History);
            let protected = of_group(frags, FragmentGroup::Protected);
            let bare = cost(frags) - cost(plugins.skip(plugins.len() - d.plugins));
            &&& d.plugins > 0 ==> cost(frags) - cost(plugins.skip(plugins.len() - d.plugins + 1))
                >= limit
            &&& d.skills > 0 ==> bare - cost(skills.skip(skills.len() - d.skills + 1)) >= limit
            &&& d.before_cut == bare - cost(skills.skip(skills.len() - d.skills))
            &&& d.history > 0 ==> d.before_cut - saved(limit, d.before_cut, protected) - cost(
                history.take(d.history - 1),
            ) >= limit
        }),
{
    let limit = limit_of(total);
    let protected = of_group(frags, FragmentGroup::Protected);
    let plugins = of_group(frags, FragmentGroup::Plugins);
    let skills = of_group(frags, FragmentGroup::Skills);
    let history = of_group(frags, FragmentGroup::History);
    lemma_drops(frags, total);
    lemma_cost_groups(frags);
    let d = drops(frags, total);
    lemma_dropped_last_needed(limit, cost(frags), plugins);
    let np = plugins.len() - d.plugins;
    lemma_cost_split(plugins, np);
    let used1 = (cost(frags) - cost(plugins.skip(np))) as nat;
    lemma_dropped_last_needed(limit, used1, skills);
    let ns = skills.len() - d.skills;
    lemma_cost_split(skills, ns);
    let used2 = (used1 - cost(skills.skip(ns))) as nat;
    lemma_saved_bound(limit, used2, protected);
    let used3 = (used2 - saved(limit, used2, protected)) as nat;
    lemma_dropped_first_needed(limit, used3, history);
}

/// The fragments that are sent behind the protected ones.
proof fn lemma_open_part(frags: Seq<ContextFragment>, total: u64)
    ensures
        ({
            let d = drops(frags, total);
            let skills = of_group(frags, FragmentGroup::Skills);
            let plugins = of_group(frags, FragmentGroup::Plugins);
            let history = of_group(frags, FragmentGroup::History);
            open_part(frags, total) == of_group(frags, FragmentGroup::Schemas) + skills.take(
                skills.len() - d.skills,
            ) + plugins.take(plugins.len() - d.plugins) + history.skip(d.history as int) + of_group(
                frags,
                FragmentGroup::Environment,
            )
        }),
{
    reveal(open_part);
}

/// What is sent stands in this order: the protected fragments, the schemas, the skills, the
/// plugin summaries, the conversation and the environment. Of the skills and the plugin
/// summaries the first ones are left, of the conversation the newest messages, each in its
/// order and as it was.
pub proof fn law_layout_is_by_group(
    frags: Seq<ContextFragment>,
    total: u64,
    out: Seq<ContextFragment>,
)
    requires
        is_laid_out(frags, total, out),
    ensures
        ({
            let d = drops(frags, total);
            let n = of_group(frags, FragmentGroup::Protected).len() as int;
            let skills = of_group(frags, FragmentGroup::Skills);
            let plugins = of_group(frags, FragmentGroup::Plugins);
            let history = of_group(frags, FragmentGroup::History);
            &&& out.take(n) == of_group(out, FragmentGroup::Protected)
            &&& out.skip(n) == of_group(frags, FragmentGroup::Schemas) + skills.take(
                skills.len() - d.skills,
            ) + plugins.take(plugins.len() - d.plugins) + history.skip(d.history as int) + of_group(
                frags,
                FragmentGroup::Environment,
            )
        }),
{
    lemma_laid_out_groups(frags, total, out);
    lemma_open_part(frags, total);
}

/// All that goes is reported, in the order in which it goes: first each dropped plugin by its
/// id, the last one first; then each dropped skill by its name; then the outputs that were
/// cut; and last, where messages of the conversation went, how many.
pub proof fn law_all_that_goes_is_reported(frags: Seq<ContextFragment>, total: u64)
    ensures
        ({
            let d = drops(frags, total);
            let r = reported(frags, total);
            let plugins = of_group(frags, FragmentGroup::Plugins);
            let skills = of_group(frags, FragmentGroup::Skills);
            let cuts = cut_reports(
                limit_of(total),
                d.before_cut,
                of_group(frags, FragmentGroup::Protected),
            );
            &&& r.len() == d.plugins + d.skills + cuts.len() + (if d.history > 0 {
                1nat
            } else {
                0nat
            })
            &&& forall|i: int|
                0 <= i < d.plugins ==> (#[trigger] r[i] matches OverflowAction::DroppedPluginCapability {
                    plugin_id,
                } && plugin_id == plugins[plugins.len() - 1 - i]->PluginCapability_plugin_id)
            &&& forall|i: int|
                0 <= i < d.skills ==> (#[trigger] r[d.plugins + i] matches OverflowAction::DroppedInactiveSkill {
                    skill_name,
                } && skill_name == skills[skills.len() - 1 - i]->SkillInstruction_skill_name)
            &&& forall|i: int|
                0 <= i < cuts.len() ==> #[trigger] r[d.plugins + d.skills + i] == cuts[i]
            &&& d.history > 0 ==> (r.last() matches OverflowAction::CompactedHistory {
                removed_messages,
            } && removed_messages == d.history as usize)
        }),
{
    reveal(reported);
}

} // verus!
