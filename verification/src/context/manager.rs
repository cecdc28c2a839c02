//! The history of a conversation and its token accounting.

use super::compaction::{append_copies, copy_messages};
use super::normalize::normalize_history;
use crate::json;
use crate::model;
use crate::model::{CallView, MessageRole, MessageView, ModelMessage, ModelToolCall};
use crate::protocol::usage::Usage;
use crate::text;
use vstd::prelude::*;

verus! {

/// What happens to old items when new ones are recorded.
#[derive(Debug, Clone, Copy, PartialEq, Eq, Structural)]
pub enum TruncationPolicy {
    /// All items stay.
    KeepAll,
    /// Only the newest items stay.
    KeepLast { max_items: usize },
    /// The newest items stay whose estimated tokens fit together.
    TokenBudget { max_tokens: u64 },
}

impl Default for TruncationPolicy {
    fn default() -> (r: Self)
        ensures
            r == TruncationPolicy::KeepAll,
    {
        TruncationPolicy::KeepAll
    }
}

/// The token counts of the last response of a provider.
#[derive(Debug, Clone, Copy, PartialEq, Eq, Structural)]
pub struct TokenUsageInfo {
    pub prompt_tokens: u64,
    pub completion_tokens: u64,
    pub total_tokens: u64,
    pub context_window: Option<u64>,
}

/// A history at one point in time.
#[derive(Debug, Clone)]
pub struct ContextSnapshot {
    pub items: Vec<ModelMessage>,
    pub history_version: u64,
    pub token_info: Option<TokenUsageInfo>,
}

/// A history at one point in time, over plain texts.
pub struct SnapshotView {
    pub items: Seq<MessageView>,
    pub history_version: u64,
    pub token_info: Option<TokenUsageInfo>,
}

impl View for ContextSnapshot {
    type V = SnapshotView;

    open spec fn view(&self) -> SnapshotView {
        SnapshotView {
            items: model::messages(self.items@),
            history_version: self.history_version,
            token_info: self.token_info,
        }
    }
}

/// The history of a conversation.
#[derive(Debug, Clone)]
pub struct ContextManager {
    items: Vec<ModelMessage>,
    history_version: u64,
    token_info: Option<TokenUsageInfo>,
    reference_context: Option<ContextSnapshot>,
    last_usage_item_count: usize,
}

/// The history of a conversation, over plain texts.
pub struct ContextView {
    pub items: Seq<MessageView>,
    pub history_version: u64,
    pub token_info: Option<TokenUsageInfo>,
    pub reference_context: Option<SnapshotView>,
    /// How many items there were when the token counts came in.
    pub last_usage_item_count: usize,
}

impl ContextView {
    /// The history without items.
    pub open spec fn start(items: Seq<MessageView>) -> ContextView {
        ContextView {
            items,
            history_version: 0,
            token_info: None,
            reference_context: None,
            last_usage_item_count: 0,
        }
    }

    /// The tokens that the last response counted and those estimated for the items
    /// since then, with the size of the window. `None` where no counts have come
    /// in, or no window that is larger than zero.
    pub open spec fn load(self) -> Option<(u64, u64)> {
        match self.token_info {
            Some(info) => match info.context_window {
                Some(w) if w > 0 => {
                    let sum = info.total_tokens + local_tokens(self);
                    Some(((if sum <= u64::MAX { sum } else { u64::MAX as int }) as u64, w))
                },
                _ => None,
            },
            None => None,
        }
    }
}

/// The bytes of the contents of messages.
pub open spec fn content_bytes(v: Seq<MessageView>) -> nat
    decreases v.len(),
{
    if v.len() == 0 {
        0
    } else {
        content_bytes(v.drop_last()) + opt_bytes(v.last().content)
    }
}

pub open spec fn opt_bytes(o: Option<Seq<char>>) -> nat {
    match o {
        Some(s) => text::byte_len(s),
        None => 0,
    }
}

/// The estimate for the items that came in after the last token counts.
pub open spec fn local_tokens(c: ContextView) -> nat {
    if c.items.len() <= c.last_usage_item_count {
        0
    } else {
        super::assembly::tokens_of(
            content_bytes(c.items.skip(c.last_usage_item_count as int)),
        )
    }
}

/// The bytes of the arguments and names of tool calls.
pub open spec fn call_bytes(v: Seq<CallView>) -> nat
    decreases v.len(),
{
    if v.len() == 0 {
        0
    } else {
        call_bytes(v.drop_last()) + text::byte_len(v.last().arguments) + text::byte_len(
            v.last().tool_name,
        )
    }
}

/// The estimated tokens of one message: a quarter of the bytes of its content,
/// reasoning and tool calls, rounded up, and at least one.
pub open spec fn message_tokens(m: MessageView) -> nat {
    let t = super::assembly::tokens_of(
        opt_bytes(m.content) + opt_bytes(m.reasoning_content) + call_bytes(m.tool_calls),
    );
    if t >= 1 {
        t
    } else {
        1
    }
}

/// The estimated tokens of a history.
pub open spec fn history_tokens(v: Seq<MessageView>) -> nat
    decreases v.len(),
{
    if v.len() == 0 {
        0
    } else {
        history_tokens(v.drop_last()) + message_tokens(v.last())
    }
}

/// The next version of a history; the count stops at the largest number.
pub open spec fn next_version(v: u64) -> u64 {
    if v < u64::MAX {
        (v + 1) as u64
    } else {
        v
    }
}

/// A history and its version after the oldest items have gone, one by one, while the
/// estimate is over the limit.
pub open spec fn shed(v: Seq<MessageView>, version: u64, max_tokens: u64) -> (Seq<MessageView>, u64)
    decreases v.len(),
{
    if history_tokens(v) > max_tokens {
        shed(v.skip(1), next_version(version), max_tokens)
    } else {
        (v, version)
    }
}

/// What a policy leaves of a history, with its version.
pub open spec fn truncated(v: Seq<MessageView>, version: u64, policy: TruncationPolicy) -> (
    Seq<MessageView>,
    u64,
) {
    match policy {
        TruncationPolicy::KeepAll => (v, version),
        TruncationPolicy::KeepLast { max_items } => if v.len() > max_items {
            (v.skip(v.len() - max_items), next_version(version))
        } else {
            (v, version)
        },
        TruncationPolicy::TokenBudget { max_tokens } => shed(v, version, max_tokens),
    }
}

/// The place of the `n`-th message of the user from the end.
pub open spec fn nth_user_from_end(v: Seq<MessageView>, n: nat) -> Option<int>
    decreases v.len(),
{
    if v.len() == 0 || n == 0 {
        None
    } else if v.last().role is User {
        if n == 1 {
            Some(v.len() - 1)
        } else {
            nth_user_from_end(v.drop_last(), (n - 1) as nat)
        }
    } else {
        nth_user_from_end(v.drop_last(), n)
    }
}

fn opt_byte_count(o: &Option<String>) -> (r: usize)
    ensures
        r == opt_bytes(text::opt_text(*o)),
{
    match o {
        Some(s) => text::byte_count(s.as_str()),
        None => 0,
    }
}

/// The bytes of tool calls, where they can be counted.
fn count_call_bytes(v: &Vec<ModelToolCall>) -> (r: Option<u128>)
    ensures
        ({
            let n = call_bytes(v@.map_values(|c: ModelToolCall| c@));
            match r {
                Some(k) => k == n,
                None => n > u128::MAX,
            }
        }),
{
    let ghost all = v@.map_values(|c: ModelToolCall| c@);
    let mut sum: u128 = 0;
    let mut i: usize = 0;
    assert(all.take(0) =~= Seq::empty());
    while i < v.len()
        invariant
            i <= v.len(),
            all == v@.map_values(|c: ModelToolCall| c@),
            sum == call_bytes(all.take(i as int)),
        decreases v.len() - i,
    {
        proof {
            assert(all.take(i + 1).drop_last() =~= all.take(i as int));
            lemma_call_bytes_grow(all, i + 1);
        }
        let rendered = json::render(&v[i].arguments);
        let a: usize = text::byte_count(rendered.as_str());
        let b: usize = text::byte_count(v[i].tool_name.as_str());
        match sum.checked_add(a as u128 + b as u128) {
            Some(s) => {
                sum = s;
            },
            None => {
                return None;
            },
        }
        i = i + 1;
    }
    assert(all.take(i as int) =~= all);
    Some(sum)
}

proof fn lemma_call_bytes_grow(v: Seq<CallView>, i: int)
    requires
        0 <= i <= v.len(),
    ensures
        call_bytes(v.take(i)) <= call_bytes(v),
    decreases v.len(),
{
    if i < v.len() {
        lemma_call_bytes_grow(v.drop_last(), i);
        assert(v.drop_last().take(i) =~= v.take(i));
    } else {
        assert(v.take(i) =~= v);
    }
}

proof fn lemma_history_tokens_grow(v: Seq<MessageView>, i: int)
    requires
        0 <= i <= v.len(),
    ensures
        history_tokens(v.take(i)) <= history_tokens(v),
    decreases v.len(),
{
    if i < v.len() {
        lemma_history_tokens_grow(v.drop_last(), i);
        assert(v.drop_last().take(i) =~= v.take(i));
    } else {
        assert(v.take(i) =~= v);
    }
}

proof fn lemma_content_bytes_grow(v: Seq<MessageView>, i: int)
    requires
        0 <= i <= v.len(),
    ensures
        content_bytes(v.take(i)) <= content_bytes(v),
    decreases v.len(),
{
    if i < v.len() {
        lemma_content_bytes_grow(v.drop_last(), i);
        assert(v.drop_last().take(i) =~= v.take(i));
    } else {
        assert(v.take(i) =~= v);
    }
}

/// The estimated tokens of one message, where they fit.
fn estimate_message(m: &ModelMessage) -> (r: Option<u64>)
    ensures
        match r {
            Some(n) => n == message_tokens(m@),
            None => message_tokens(m@) > u64::MAX,
        },
{
    let content: usize = opt_byte_count(&m.content);
    let reasoning: usize = opt_byte_count(&m.reasoning_content);
    match count_call_bytes(&m.tool_calls) {
        Some(calls) => match calls.checked_add(content as u128 + reasoning as u128) {
            Some(bytes) => {
                let t: u128 = if bytes % 4 == 0 {
                    bytes / 4
                } else {
                    bytes / 4 + 1
                };
                if t > u64::MAX as u128 {
                    None
                } else if t == 0 {
                    Some(1)
                } else {
                    Some(t as u64)
                }
            },
            None => None,
        },
        None => None,
    }
}

/// The estimated tokens of a history; `None` where they do not fit.
pub fn estimated_messages_tokens(items: &Vec<ModelMessage>) -> (r: Option<u64>)
    ensures
        match r {
            Some(n) => n == history_tokens(model::messages(items@)),
            None => history_tokens(model::messages(items@)) > u64::MAX,
        },
{
    let ghost all = model::messages(items@);
    let mut sum: u64 = 0;
    let mut i: usize = 0;
    assert(all.take(0) =~= Seq::empty());
    while i < items.len()
        invariant
            i <= items.len(),
            all == model::messages(items@),
            sum == history_tokens(all.take(i as int)),
        decreases items.len() - i,
    {
        proof {
            assert(all.take(i + 1).drop_last() =~= all.take(i as int));
            lemma_history_tokens_grow(all, i + 1);
        }
        match estimate_message(&items[i]) {
            Some(t) => match sum.checked_add(t) {
                Some(s) => {
                    sum = s;
                },
                None => {
                    return None;
                },
            },
            None => {
                return None;
            },
        }
        i = i + 1;
    }
    assert(all.take(i as int) =~= all);
    Some(sum)
}

impl View for ContextManager {
    type V = ContextView;

    closed spec fn view(&self) -> ContextView {
        ContextView {
            items: model::messages(self.items@),
            history_version: self.history_version,
            token_info: self.token_info,
            reference_context: match self.reference_context {
                Some(s) => Some(s@),
                None => None,
            },
            last_usage_item_count: self.last_usage_item_count,
        }
    }
}

impl ContextManager {
    pub fn new() -> (r: Self)
        ensures
            r@ == ContextView::start(Seq::empty()),
    {
        let r = ContextManager {
            items: Vec::new(),
            history_version: 0,
            token_info: None,
            reference_context: None,
            last_usage_item_count: 0,
        };
        assert(r@.items =~= Seq::empty());
        r
    }

    /// The history of the given items.
    pub fn from_items(items: Vec<ModelMessage>) -> (r: Self)
        ensures
            r@ == ContextView::start(model::messages(items@)),
    {
        ContextManager {
            items,
            history_version: 0,
            token_info: None,
            reference_context: None,
            last_usage_item_count: 0,
        }
    }

    /// Puts items behind the history and applies a policy to the whole.
    pub fn record_items(&mut self, items: &[ModelMessage], policy: TruncationPolicy)
        ensures
            final(self)@ == ({
                let t = truncated(
                    old(self)@.items + model::messages(items@),
                    old(self)@.history_version,
                    policy,
                );
                ContextView { items: t.0, history_version: t.1, ..old(self)@ }
            }),
    {
        append_copies(&mut self.items, items);
        self.apply_truncation(policy);
    }

    fn apply_truncation(&mut self, policy: TruncationPolicy)
        ensures
            final(self)@ == ({
                let t = truncated(old(self)@.items, old(self)@.history_version, policy);
                ContextView { items: t.0, history_version: t.1, ..old(self)@ }
            }),
    {
        let ghost before = self@;
        match policy {
            TruncationPolicy::KeepAll => {},
            TruncationPolicy::KeepLast { max_items } => {
                if self.items.len() > max_items {
                    let excess: usize = self.items.len() - max_items;
                    let ghost all = self.items@;
                    let rest = self.items.split_off(excess);
                    self.items = rest;
                    self.history_version = self.history_version.saturating_add(1);
                    assert(model::messages(self.items@) =~= model::messages(all).skip(excess as int));
                }
            },
            TruncationPolicy::TokenBudget { max_tokens } => {
                loop
                    invariant
                        self@ == (ContextView {
                            items: self@.items,
                            history_version: self@.history_version,
                            ..before
                        }),
                        shed(self@.items, self@.history_version, max_tokens) == shed(
                            before.items,
                            before.history_version,
                            max_tokens,
                        ),
                    ensures
                        self@ == ({
                            let t = shed(before.items, before.history_version, max_tokens);
                            ContextView { items: t.0, history_version: t.1, ..before }
                        }),
                    decreases self.items.len(),
                {
                    let over: bool = match estimated_messages_tokens(&self.items) {
                        Some(n) => n > max_tokens,
                        None => true,
                    };
                    if !over {
                        break;
                    }
                    let ghost all = self.items@;
                    let gone = self.items.remove(0);
                    self.history_version = self.history_version.saturating_add(1);
                    assert(model::messages(self.items@) =~= model::messages(all).skip(1));
                }
            },
        }
    }

    /// The history as it goes into a prompt: without orphan tool results, empty messages and
    /// repetitions.
    pub fn for_prompt(&self) -> (r: Vec<ModelMessage>)
        ensures
            model::messages(r@) == super::normalize::normalized(self@.items),
    {
        let mut items = copy_messages(self.items.as_slice());
        normalize_history(&mut items);
        items
    }

    pub fn replace_history(&mut self, items: Vec<ModelMessage>)
        ensures
            final(self)@ == (ContextView {
                items: model::messages(items@),
                history_version: next_version(old(self)@.history_version),
                ..old(self)@
            }),
    {
        self.items = items;
        self.history_version = self.history_version.saturating_add(1);
    }

    /// Takes in the token counts of a response.
    pub fn update_token_info(&mut self, usage: &Usage, context_window: Option<u64>)
        requires
            usage.prompt_tokens + usage.completion_tokens <= u64::MAX,
        ensures
            final(self)@.last_usage_item_count == old(self)@.items.len(),
            final(self)@ == (ContextView {
                last_usage_item_count: final(self)@.last_usage_item_count,
                token_info: Some(
                    TokenUsageInfo {
                        prompt_tokens: usage.prompt_tokens,
                        completion_tokens: usage.completion_tokens,
                        total_tokens: (match usage.total_tokens {
                            Some(t) => t as int,
                            None => usage.prompt_tokens + usage.completion_tokens,
                        }) as u64,
                        context_window,
                    },
                ),
                ..old(self)@
            }),
    {
        self.last_usage_item_count = self.items.len();
        self.token_info = Some(
            TokenUsageInfo {
                prompt_tokens: usage.prompt_tokens,
                completion_tokens: usage.completion_tokens,
                total_tokens: usage.total(),
                context_window,
            },
        );
    }

    /// The estimate for the items since the last token counts; the largest number
    /// where it does not fit.
    fn estimated_local_tokens(&self) -> (r: u64)
        ensures
            r == (if local_tokens(self@) <= u64::MAX {
                local_tokens(self@)
            } else {
                u64::MAX as nat
            }),
    {
        if self.items.len() <= self.last_usage_item_count {
            return 0;
        }
        let start: usize = self.last_usage_item_count;
        let ghost tail = self@.items.skip(start as int);
        let mut sum: u128 = 0;
        let mut i: usize = start;
        assert(tail.take(0) =~= Seq::empty());
        while i < self.items.len()
            invariant
                start <= i <= self.items.len(),
                start == self@.last_usage_item_count,
                start < self.items.len(),
                tail == self@.items.skip(start as int),
                sum == content_bytes(tail.take(i - start)),
            decreases self.items.len() - i,
        {
            proof {
                assert(tail.take(i + 1 - start).drop_last() =~= tail.take(i - start));
                assert(tail.take(i + 1 - start).last() == self.items@[i as int]@);
                lemma_content_bytes_grow(tail, i + 1 - start);
            }
            let n: usize = opt_byte_count(&self.items[i].content);
            match sum.checked_add(n as u128) {
                Some(s) => {
                    sum = s;
                },
                None => {
                    return u64::MAX;
                },
            }
            i = i + 1;
        }
        assert(tail.take(i - start) =~= tail);
        let t: u128 = if sum % 4 == 0 {
            sum / 4
        } else {
            sum / 4 + 1
        };
        if t > u64::MAX as u128 {
            u64::MAX
        } else {
            t as u64
        }
    }

    /// How full the window is: the tokens used and the size of the window. `None`
    /// where nothing is known of either.
    pub fn window_load(&self) -> (r: Option<(u64, u64)>)
        ensures
            r == self@.load(),
    {
        match &self.token_info {
            Some(info) => match info.context_window {
                Some(w) => {
                    if w == 0 {
                        None
                    } else {
                        Some((info.total_tokens.saturating_add(self.estimated_local_tokens()), w))
                    }
                },
                None => None,
            },
            None => None,
        }
    }

    pub fn snapshot(&self) -> (r: ContextSnapshot)
        ensures
            r@ == (SnapshotView {
                items: self@.items,
                history_version: self@.history_version,
                token_info: self@.token_info,
            }),
    {
        ContextSnapshot {
            items: copy_messages(self.items.as_slice()),
            history_version: self.history_version,
            token_info: self.token_info,
        }
    }

    pub fn set_reference_context(&mut self)
        ensures
            final(self)@ == (ContextView {
                reference_context: Some(
                    SnapshotView {
                        items: old(self)@.items,
                        history_version: old(self)@.history_version,
                        token_info: old(self)@.token_info,
                    },
                ),
                ..old(self)@
            }),
    {
        let s = self.snapshot();
        self.reference_context = Some(s);
    }

    pub fn reference_context(&self) -> (r: Option<&ContextSnapshot>)
        ensures
            (match r {
                Some(s) => Some(s@),
                None => None,
            }) == self@.reference_context,
    {
        self.reference_context.as_ref()
    }

    pub fn history_version(&self) -> (r: u64)
        ensures
            r == self@.history_version,
    {
        self.history_version
    }

    pub fn len(&self) -> (r: usize)
        ensures
            r == self@.items.len(),
    {
        self.items.len()
    }

    pub fn is_empty(&self) -> (r: bool)
        ensures
            r == (self@.items.len() == 0),
    {
        self.items.len() == 0
    }

    /// Drops the last `n` turns of the user with all that follows them, and returns
    /// how many items went. Where there are fewer turns nothing is dropped.
    pub fn drop_last_n_user_turns(&mut self, n: usize) -> (r: usize)
        ensures
            match nth_user_from_end(old(self)@.items, n as nat) {
                Some(i) => r == old(self)@.items.len() - i && final(self)@ == (ContextView {
                    items: old(self)@.items.take(i),
                    history_version: next_version(old(self)@.history_version),
                    ..old(self)@
                }),
                None => r == 0 && final(self)@ == old(self)@,
            },
    {
        if n == 0 {
            return 0;
        }
        let ghost all = self@.items;
        let mut left: usize = n;
        let mut i: usize = self.items.len();
        assert(all.take(all.len() as int) =~= all);
        while i > 0
            invariant
                i <= self.items.len(),
                all == self@.items,
                *self == *old(self),
                left >= 1,
                nth_user_from_end(all, n as nat) == nth_user_from_end(
                    all.take(i as int),
                    left as nat,
                ),
            decreases i,
        {
            assert(all.take(i as int).drop_last() =~= all.take(i - 1));
            assert(all.take(i as int).last() == self.items@[i - 1]@);
            i = i - 1;
            match self.items[i].role {
                MessageRole::User => {
                    if left == 1 {
                        let removed: usize = self.items.len() - i;
                        let ghost items = self.items@;
                        self.items.truncate(i);
                        self.history_version = self.history_version.saturating_add(1);
                        assert(model::messages(self.items@) =~= all.take(i as int));
                        return removed;
                    }
                    left = left - 1;
                },
                _ => {},
            }
        }
        0
    }
}

impl Default for ContextManager {
    fn default() -> (r: Self)
        ensures
            r@ == ContextView::start(Seq::empty()),
    {
        ContextManager::new()
    }
}

/// Dropping turns cuts at a message of the user that has exactly `n - 1` others
/// behind it.
pub proof fn law_drop_cuts_at_user(v: Seq<MessageView>, n: nat)
    ensures
        nth_user_from_end(v, n) matches Some(i) ==> 0 <= i < v.len() && v[i].role is User && users(
            v.skip(i),
        ) == n,
        nth_user_from_end(v, n) is None ==> n == 0 || users(v) < n,
    decreases v.len(),
{
    if v.len() > 0 && n > 0 {
        let w = v.drop_last();
        if v.last().role is User {
            if n == 1 {
                assert(v.skip(v.len() - 1) =~= seq![v.last()]);
                assert(seq![v.last()].drop_last() =~= Seq::empty());
                assert(users(seq![v.last()].drop_last()) == 0);
            } else {
                law_drop_cuts_at_user(w, (n - 1) as nat);
                if let Some(i) = nth_user_from_end(v, n) {
                    assert(v.skip(i) =~= w.skip(i).push(v.last()));
                    assert(v.skip(i).drop_last() =~= w.skip(i));
                }
            }
        } else {
            law_drop_cuts_at_user(w, n);
            if let Some(i) = nth_user_from_end(v, n) {
                assert(v.skip(i) =~= w.skip(i).push(v.last()));
                assert(v.skip(i).drop_last() =~= w.skip(i));
            }
        }
    }
}

/// How many messages of the user a history holds.
pub open spec fn users(v: Seq<MessageView>) -> nat
    decreases v.len(),
{
    if v.len() == 0 {
        0
    } else {
        users(v.drop_last()) + if v.last().role is User {
            1nat
        } else {
            0nat
        }
    }
}

/// A policy only ever removes the oldest items: what is left is a tail of the
/// history.
pub proof fn law_truncation_keeps_a_tail(v: Seq<MessageView>, version: u64, policy: TruncationPolicy)
    ensures
        exists|k: int| 0 <= k <= v.len() && truncated(v, version, policy).0 == #[trigger] v.skip(k),
{
    assert(v.skip(0) =~= v);
    match policy {
        TruncationPolicy::KeepAll => {},
        TruncationPolicy::KeepLast { max_items } => {
            if v.len() > max_items {
                assert(v.skip(v.len() - max_items) == truncated(v, version, policy).0);
            }
        },
        TruncationPolicy::TokenBudget { max_tokens } => {
            lemma_shed(v, version, max_tokens);
        },
    }
}

proof fn lemma_shed(v: Seq<MessageView>, version: u64, max_tokens: u64) -> (k: int)
    ensures
        0 <= k <= v.len(),
        shed(v, version, max_tokens).0 == v.skip(k),
        history_tokens(v.skip(k)) <= max_tokens,
        forall|j: int| 0 <= j < k ==> history_tokens(#[trigger] v.skip(j)) > max_tokens,
    decreases v.len(),
{
    assert(v.skip(0) =~= v);
    if history_tokens(v) > max_tokens {
        let w = v.skip(1);
        let k = lemma_shed(w, next_version(version), max_tokens);
        assert(w.skip(k) =~= v.skip(k + 1));
        assert forall|j: int| 0 <= j < k + 1 implies history_tokens(#[trigger] v.skip(j))
            > max_tokens by {
            if j > 0 {
                assert(w.skip(j - 1) =~= v.skip(j));
            }
        }
        k + 1
    } else {
        0
    }
}

/// Under a token policy the history that is left fits, and it is the longest tail that does.
pub proof fn law_token_policy_fits(v: Seq<MessageView>, version: u64, max_tokens: u64)
    ensures
        ({
            let left = truncated(v, version, TruncationPolicy::TokenBudget { max_tokens }).0;
            &&& history_tokens(left) <= max_tokens
            &&& forall|j: int|
                0 <= j < v.len() - left.len() ==> history_tokens(#[trigger] v.skip(j)) > max_tokens
        }),
{
    let k = lemma_shed(v, version, max_tokens);
}

/// A history starts with its items and nothing else.
pub proof fn law_history_starts_plain(items: Seq<MessageView>)
    ensures
        ContextView::start(items).items == items,
        ContextView::start(items).history_version == 0,
        ContextView::start(items).token_info is None,
        ContextView::start(items).reference_context is None,
        ContextView::start(items).last_usage_item_count == 0,
        ContextView::start(items).load() is None,
{
}

/// The estimate of a message is a quarter of its bytes, rounded up and at least one: those of
/// its content, of its reasoning, and of the names and arguments of its calls.
pub proof fn law_messages_are_estimated_by_bytes(m: MessageView)
    ensures
        message_tokens(m) >= 1,
        4 * message_tokens(m) >= opt_bytes(m.content) + opt_bytes(m.reasoning_content) + call_bytes(
            m.tool_calls,
        ),
        message_tokens(m) > 1 ==> 4 * message_tokens(m) < opt_bytes(m.content) + opt_bytes(
            m.reasoning_content,
        ) + call_bytes(m.tool_calls) + 4,
        m.content matches Some(s) ==> opt_bytes(m.content) == text::byte_len(s),
        m.content is None ==> opt_bytes(m.content) == 0,
        m.reasoning_content matches Some(s) ==> opt_bytes(m.reasoning_content) == text::byte_len(s),
{
}

/// Estimates add up: one more call counts the bytes of its name and of its arguments, one
/// more message its own estimate, and one more item since the last counts the bytes of its
/// content.
pub proof fn law_estimates_add_up(
    calls: Seq<CallView>,
    c: CallView,
    items: Seq<MessageView>,
    m: MessageView,
)
    ensures
        call_bytes(Seq::<CallView>::empty()) == 0,
        call_bytes(calls.push(c)) == call_bytes(calls) + text::byte_len(c.tool_name)
            + text::byte_len(c.arguments),
        history_tokens(Seq::<MessageView>::empty()) == 0,
        history_tokens(items.push(m)) == history_tokens(items) + message_tokens(m),
        content_bytes(Seq::<MessageView>::empty()) == 0,
        m.content matches Some(s) ==> content_bytes(items.push(m)) == content_bytes(items)
            + text::byte_len(s),
        m.content is None ==> content_bytes(items.push(m)) == content_bytes(items),
{
    assert(calls.push(c).drop_last() =~= calls);
    assert(items.push(m).drop_last() =~= items);
}

/// How full a window is: what the last response counted and, for the items since then, a
/// quarter of their bytes, rounded up. Nothing is known without counts or without a window.
pub proof fn law_load_counts_what_came_since(c: ContextView)
    ensures
        c.token_info is None ==> c.load() is None,
        c.token_info matches Some(info) ==> info.context_window is None ==> c.load() is None,
        c.token_info matches Some(info) ==> info.context_window == Some(0u64) ==> c.load() is None,
        c.token_info matches Some(info) ==> info.context_window matches Some(w) ==> w > 0 ==> (
        c.load() matches Some((used, window)) && window == w && used >= info.total_tokens && (
        info.total_tokens + local_tokens(c) <= u64::MAX ==> used == info.total_tokens
            + local_tokens(c))),
        c.items.len() <= c.last_usage_item_count ==> local_tokens(c) == 0,
        c.items.len() > c.last_usage_item_count ==> {
            let bytes = content_bytes(c.items.skip(c.last_usage_item_count as int));
            bytes <= 4 * local_tokens(c) < bytes + 4
        },
{
}

/// Keeping all keeps all; keeping the last ones keeps exactly so many, or all where there
/// are no more.
pub proof fn law_policies_keep_what_they_say(v: Seq<MessageView>, version: u64, max_items: usize)
    ensures
        truncated(v, version, TruncationPolicy::KeepAll).0 == v,
        truncated(v, version, TruncationPolicy::KeepLast { max_items }).0.len() == (if v.len()
            <= max_items {
            v.len() as int
        } else {
            max_items as int
        }),
        v.len() <= max_items ==> truncated(v, version, TruncationPolicy::KeepLast { max_items }).0
            == v,
        v.len() > max_items > 0 ==> truncated(
            v,
            version,
            TruncationPolicy::KeepLast { max_items },
        ).0.last() == v.last(),
{
}

/// The version of a history moves exactly where items went: once for a cut to the last ones,
/// and once for each item that a token policy takes.
pub proof fn law_version_counts_the_cuts(v: Seq<MessageView>, version: u64, policy: TruncationPolicy)
    requires
        version + v.len() < u64::MAX,
    ensures
        policy is KeepAll ==> truncated(v, version, policy).1 == version,
        policy is KeepLast ==> truncated(v, version, policy).1 == version + (if truncated(
            v,
            version,
            policy,
        ).0.len() < v.len() {
            1int
        } else {
            0int
        }),
        policy is TokenBudget ==> truncated(v, version, policy).1 == version + v.len() - truncated(
            v,
            version,
            policy,
        ).0.len(),
{
    if let TruncationPolicy::TokenBudget { max_tokens } = policy {
        lemma_shed_version(v, version, max_tokens);
    }
}

proof fn lemma_shed_version(v: Seq<MessageView>, version: u64, max_tokens: u64)
    requires
        version + v.len() < u64::MAX,
    ensures
        shed(v, version, max_tokens).1 == version + v.len() - shed(v, version, max_tokens).0.len(),
    decreases v.len(),
{
    if history_tokens(v) > max_tokens {
        lemma_shed_version(v.skip(1), next_version(version), max_tokens);
    }
}

/// The version of a history goes up by one, and stops at the largest number.
pub proof fn law_version_goes_up(version: u64)
    ensures
        version < u64::MAX ==> next_version(version) == version + 1,
        next_version(u64::MAX) == u64::MAX,
{
}

/// How many messages of the user there are is counted one by one.
pub proof fn law_users_are_counted(v: Seq<MessageView>, m: MessageView)
    ensures
        users(Seq::<MessageView>::empty()) == 0,
        m.role is User ==> users(v.push(m)) == users(v) + 1,
        !(m.role is User) ==> users(v.push(m)) == users(v),
{
    assert(v.push(m).drop_last() =~= v);
}

/// What is seen of a context snapshot is all that it holds.
pub proof fn law_context_snapshot_is_seen_whole(c: ContextSnapshot)
    ensures
        c@.items == model::messages(c.items@),
        c@.history_version == c.history_version,
        c@.token_info == c.token_info,
{
}

} // verus!
