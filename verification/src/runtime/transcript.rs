//! The conversation of a turn, rebuilt from what was stored of it.

use crate::context::compaction;
use crate::context::manager::{ContextManager, ContextView, TokenUsageInfo, TruncationPolicy};
use crate::context::request_compiler;
use crate::journal;
use crate::journal::{EntryView, JournalEntry, JournalRecord, RecordView};
use crate::json;
use crate::model;
use crate::model::{CallView, MessageRole, MessageView, ModelMessage, ModelToolCall};
use crate::protocol::id::ToolCallId;
use crate::protocol::turn::{ItemView, TurnItem};
use crate::protocol::usage::Usage;
use crate::text;
use serde_json::Value;
use vstd::prelude::*;

verus! {

/// The size of the context window where a model does not say.
pub const DEFAULT_CONTEXT_WINDOW: u64 = 128_000;

/// The message in which the assistant calls a tool.
pub open spec fn call_message(
    call_id: Seq<char>,
    tool_name: Seq<char>,
    arguments: Seq<char>,
) -> MessageView {
    MessageView {
        role: MessageRole::Assistant,
        content: None,
        tool_calls: seq![CallView { call_id, tool_name, arguments }],
        tool_call_id: None,
        reasoning_content: None,
    }
}

/// The message that holds what is known of the output of a tool.
pub open spec fn output_message(call_id: Seq<char>, output: Option<Seq<char>>) -> MessageView {
    MessageView {
        role: MessageRole::Tool,
        content: output,
        tool_calls: Seq::empty(),
        tool_call_id: Some(call_id),
        reasoning_content: None,
    }
}

fn make_call_message(call_id: &ToolCallId, tool_name: &String, arguments: &Value) -> (r: ModelMessage)
    ensures
        r@ == call_message(call_id@, tool_name@, json::json_text(*arguments)),
{
    let mut calls: Vec<ModelToolCall> = Vec::new();
    calls.push(
        ModelToolCall {
            call_id: call_id.to_string(),
            tool_name: tool_name.clone(),
            arguments: arguments.clone(),
        },
    );
    let r = ModelMessage {
        role: MessageRole::Assistant,
        content: None,
        tool_calls: calls,
        tool_call_id: None,
        reasoning_content: None,
    };
    assert(r@.tool_calls =~= call_message(
        call_id@,
        tool_name@,
        json::json_text(*arguments),
    ).tool_calls);
    r
}

fn make_output_message(call_id: &ToolCallId, output: &Option<String>) -> (r: ModelMessage)
    ensures
        r@ == output_message(call_id@, text::opt_text(*output)),
{
    let r = ModelMessage {
        role: MessageRole::Tool,
        content: text::clone_opt(output),
        tool_calls: Vec::new(),
        tool_call_id: Some(call_id.to_string()),
        reasoning_content: None,
    };
    assert(r@.tool_calls =~= Seq::empty());
    r
}

/// What an entry of the journal adds to the transcript: a call whose arguments are
/// known, or an output.
pub open spec fn entry_message(e: EntryView) -> Option<MessageView> {
    match e {
        EntryView::ApprovalPending { call_id, tool_name, arguments, .. } => if arguments
            != "null"@ {
            Some(call_message(call_id, tool_name, arguments))
        } else {
            None
        },
        EntryView::ToolCallRequested { call_id, tool_name, arguments } => if arguments != "null"@ {
            Some(call_message(call_id, tool_name, arguments))
        } else {
            None
        },
        EntryView::ToolCallCompleted { call_id, output, .. } => Some(
            output_message(call_id, output),
        ),
        _ => None,
    }
}

/// The transcript that the journal holds.
pub open spec fn journal_transcript(v: Seq<RecordView>) -> Seq<MessageView>
    decreases v.len(),
{
    if v.len() == 0 {
        Seq::empty()
    } else {
        match entry_message(v.last().entry) {
            Some(m) => journal_transcript(v.drop_last()).push(m),
            None => journal_transcript(v.drop_last()),
        }
    }
}

/// What a recorded item adds to the transcript.
pub open spec fn item_message(i: ItemView) -> Option<MessageView> {
    match i {
        ItemView::UserMessage { content } => Some(compaction::plain(MessageRole::User, content)),
        ItemView::ToolCall { call_id, tool_name, arguments } => Some(
            call_message(call_id, tool_name, arguments),
        ),
        ItemView::ToolResult { call_id, output_preview, .. } => Some(
            output_message(call_id, output_preview),
        ),
        _ => None,
    }
}

/// The transcript that the recorded items hold.
pub open spec fn item_transcript(v: Seq<ItemView>) -> Seq<MessageView>
    decreases v.len(),
{
    if v.len() == 0 {
        Seq::empty()
    } else {
        match item_message(v.last()) {
            Some(m) => item_transcript(v.drop_last()).push(m),
            None => item_transcript(v.drop_last()),
        }
    }
}

/// The transcript of a turn: that of the journal, or that of the items where the
/// journal holds none.
pub open spec fn stored_transcript(records: Seq<RecordView>, items: Seq<ItemView>) -> Seq<
    MessageView,
> {
    if journal_transcript(records).len() > 0 {
        journal_transcript(records)
    } else {
        item_transcript(items)
    }
}

fn message_of_entry(e: &JournalEntry) -> (r: Option<ModelMessage>)
    ensures
        (match r {
            Some(m) => Some(m@),
            None => None,
        }) == entry_message(e@),
{
    match e {
        JournalEntry::ApprovalPending { call_id, tool_name, arguments, .. } => {
            if json::is_null(arguments) {
                None
            } else {
                Some(make_call_message(call_id, tool_name, arguments))
            }
        },
        JournalEntry::ToolCallRequested { call_id, tool_name, arguments } => {
            if json::is_null(arguments) {
                None
            } else {
                Some(make_call_message(call_id, tool_name, arguments))
            }
        },
        JournalEntry::ToolCallCompleted { call_id, output, .. } => Some(
            make_output_message(call_id, output),
        ),
        _ => None,
    }
}

fn message_of_item(i: &TurnItem) -> (r: Option<ModelMessage>)
    ensures
        (match r {
            Some(m) => Some(m@),
            None => None,
        }) == item_message(i@),
{
    match i {
        TurnItem::UserMessage { content } => Some(
            compaction::plain_message(MessageRole::User, content.clone()),
        ),
        TurnItem::ToolCall { call_id, tool_name, arguments } => Some(
            make_call_message(call_id, tool_name, arguments),
        ),
        TurnItem::ToolResult { call_id, output_preview, .. } => Some(
            make_output_message(call_id, output_preview),
        ),
        _ => None,
    }
}

/// Rebuilds the transcript of a turn from its journal records.
pub fn build_transcript_from_journal(records: &Vec<JournalRecord>) -> (r: Vec<ModelMessage>)
    ensures
        model::messages(r@) == journal_transcript(journal::records(records@)),
{
    let ghost all = journal::records(records@);
    let mut out: Vec<ModelMessage> = Vec::new();
    let mut i: usize = 0;
    assert(all.take(0) =~= Seq::empty());
    assert(model::messages(out@) =~= Seq::empty());
    while i < records.len()
        invariant
            i <= records.len(),
            all == journal::records(records@),
            model::messages(out@) == journal_transcript(all.take(i as int)),
        decreases records.len() - i,
    {
        assert(all.take(i + 1).drop_last() =~= all.take(i as int));
        assert(all.take(i + 1).last() == records@[i as int]@);
        match message_of_entry(&records[i].entry) {
            Some(m) => {
                let ghost prior = out@;
                out.push(m);
                assert(model::messages(out@) =~= model::messages(prior).push(m@));
            },
            None => {},
        }
        i = i + 1;
    }
    assert(all.take(i as int) =~= all);
    out
}

/// The items of a list, over plain texts.
pub open spec fn items_of(v: Seq<TurnItem>) -> Seq<ItemView> {
    v.map_values(|x: TurnItem| x@)
}

/// Rebuilds the transcript of a turn from its journal records, or from its recorded
/// items where the journal holds none.
pub fn build_transcript_from_items(records: &Vec<JournalRecord>, items: &Vec<TurnItem>) -> (r: Vec<
    ModelMessage,
>)
    ensures
        model::messages(r@) == stored_transcript(journal::records(records@), items_of(items@)),
{
    let from_journal = build_transcript_from_journal(records);
    if from_journal.len() > 0 {
        return from_journal;
    }
    let ghost all = items_of(items@);
    let mut out: Vec<ModelMessage> = Vec::new();
    let mut i: usize = 0;
    assert(all.take(0) =~= Seq::empty());
    assert(model::messages(out@) =~= Seq::empty());
    while i < items.len()
        invariant
            i <= items.len(),
            all == items_of(items@),
            model::messages(out@) == item_transcript(all.take(i as int)),
        decreases items.len() - i,
    {
        assert(all.take(i + 1).drop_last() =~= all.take(i as int));
        assert(all.take(i + 1).last() == items@[i as int]@);
        match message_of_item(&items[i]) {
            Some(m) => {
                let ghost prior = out@;
                out.push(m);
                assert(model::messages(out@) =~= model::messages(prior).push(m@));
            },
            None => {},
        }
        i = i + 1;
    }
    assert(all.take(i as int) =~= all);
    out
}

/// The tool calls and outputs of a turn as the history of its thread keeps them.
pub open spec fn tool_messages(v: Seq<RecordView>) -> Seq<MessageView>
    decreases v.len(),
{
    if v.len() == 0 {
        Seq::empty()
    } else {
        let before = tool_messages(v.drop_last());
        match v.last().entry {
            EntryView::ToolCallRequested { call_id, tool_name, arguments } => before.push(
                call_message(call_id, tool_name, arguments),
            ),
            EntryView::ToolCallCompleted { call_id, output, .. } => before.push(
                output_message(call_id, output),
            ),
            _ => before,
        }
    }
}

/// The last token counts that the journal of a turn holds.
pub open spec fn last_usage(v: Seq<RecordView>) -> Option<(u64, u64)>
    decreases v.len(),
{
    if v.len() == 0 {
        None
    } else {
        match v.last().entry {
            EntryView::ProviderUsage { prompt_tokens, completion_tokens } => Some(
                (prompt_tokens, completion_tokens),
            ),
            _ => last_usage(v.drop_last()),
        }
    }
}

/// Whether the token counts of a turn can be added up.
pub open spec fn usage_fits(v: Seq<RecordView>) -> bool {
    forall|i: int|
        0 <= i < v.len() ==> ((#[trigger] v[i]).entry matches EntryView::ProviderUsage {
            prompt_tokens,
            completion_tokens,
        } ==> prompt_tokens + completion_tokens <= u64::MAX)
}

/// Tests whether the token counts of a turn can be added up.
pub fn records_fit(v: &Vec<JournalRecord>) -> (r: bool)
    ensures
        r == usage_fits(journal::records(v@)),
{
    let ghost all = journal::records(v@);
    let mut i: usize = 0;
    while i < v.len()
        invariant
            i <= v.len(),
            all == journal::records(v@),
            usage_fits(all.take(i as int)),
        decreases v.len() - i,
    {
        assert(all[i as int] == v@[i as int]@);
        if let JournalEntry::ProviderUsage { prompt_tokens, completion_tokens } = &v[i].entry {
            if prompt_tokens.checked_add(*completion_tokens).is_none() {
                return false;
            }
        }
        assert(all.take(i + 1) =~= all.take(i as int).push(all[i as int]));
        i = i + 1;
    }
    assert(all.take(i as int) =~= all);
    true
}

/// A history with the token counts of a turn.
pub open spec fn with_usage(c: ContextView, v: Seq<RecordView>) -> ContextView {
    match last_usage(v) {
        Some((p, k)) => ContextView {
            last_usage_item_count: c.items.len() as usize,
            token_info: Some(
                TokenUsageInfo {
                    prompt_tokens: p,
                    completion_tokens: k,
                    total_tokens: (p + k) as u64,
                    context_window: Some(DEFAULT_CONTEXT_WINDOW),
                },
            ),
            ..c
        },
        None => c,
    }
}

/// A history with the token counts of a turn and its tool calls with their outputs.
pub open spec fn with_tools(c: ContextView, records: Option<Seq<RecordView>>) -> ContextView {
    match records {
        Some(v) => {
            let u = with_usage(c, v);
            ContextView { items: u.items + tool_messages(v), ..u }
        },
        None => c,
    }
}

/// The records of a turn, if they could be read.
pub open spec fn opt_records(o: Option<Vec<JournalRecord>>) -> Option<Seq<RecordView>> {
    match o {
        Some(v) => Some(journal::records(v@)),
        None => None,
    }
}

/// The history of a thread after one of its turns: the token counts are taken in, then
/// the tool calls with their outputs follow, then the answer. Where the records of the
/// turn could not be read only the answer follows.
pub open spec fn after_turn(
    c: ContextView,
    records: Option<Seq<RecordView>>,
    answer: Seq<char>,
) -> ContextView {
    let told = with_tools(c, records);
    ContextView {
        items: told.items.push(compaction::plain(MessageRole::Assistant, answer)),
        ..told
    }
}

/// Takes a completed turn into the history of its thread.
pub fn record_turn(
    context: &mut ContextManager,
    records: Option<Vec<JournalRecord>>,
    answer: &str,
)
    requires
        records matches Some(v) ==> usage_fits(journal::records(v@)),
    ensures
        final(context)@ == after_turn(old(context)@, opt_records(records), answer@),
{
    let ghost start = context@;
    let ghost told = with_tools(start, opt_records(records));
    if let Some(v) = &records {
        let ghost all = journal::records(v@);
        let mut out: Vec<ModelMessage> = Vec::new();
        let mut i: usize = 0;
        assert(all.take(0) =~= Seq::empty());
        assert(model::messages(out@) =~= Seq::empty());
        while i < v.len()
            invariant
                i <= v.len(),
                all == journal::records(v@),
                usage_fits(all),
                context@ == with_usage(start, all.take(i as int)),
                model::messages(out@) == tool_messages(all.take(i as int)),
            decreases v.len() - i,
        {
            assert(all.take(i + 1).drop_last() =~= all.take(i as int));
            assert(all.take(i + 1).last() == v@[i as int]@);
            assert(all[i as int] == v@[i as int]@);
            let ghost prior = out@;
            match &v[i].entry {
                JournalEntry::ToolCallRequested { call_id, tool_name, arguments } => {
                    let m = make_call_message(call_id, tool_name, arguments);
                    out.push(m);
                    assert(model::messages(out@) =~= model::messages(prior).push(m@));
                },
                JournalEntry::ToolCallCompleted { call_id, output, .. } => {
                    let m = make_output_message(call_id, output);
                    out.push(m);
                    assert(model::messages(out@) =~= model::messages(prior).push(m@));
                },
                JournalEntry::ProviderUsage { prompt_tokens, completion_tokens } => {
                    context.update_token_info(
                        &Usage {
                            prompt_tokens: *prompt_tokens,
                            completion_tokens: *completion_tokens,
                            reasoning_tokens: None,
                            cached_tokens: None,
                            total_tokens: None,
                        },
                        Some(DEFAULT_CONTEXT_WINDOW),
                    );
                },
                _ => {},
            }
            i = i + 1;
        }
        assert(all.take(i as int) =~= all);
        if out.len() > 0 {
            context.record_items(out.as_slice(), TruncationPolicy::KeepAll);
        } else {
            assert(context@.items + tool_messages(all) =~= context@.items);
        }
    }
    assert(context@ == told);
    let m = compaction::plain_message(MessageRole::Assistant, text::owned(answer));
    let mut list: Vec<ModelMessage> = Vec::new();
    list.push(m);
    context.record_items(list.as_slice(), TruncationPolicy::KeepAll);
    assert(told.items + model::messages(list@) =~= told.items.push(m@));
}

/// A turn that waits for an approval goes on from the call that waits: whatever its journal
/// held before, the call ends the rebuilt transcript, and its result follows it. A call
/// without arguments is left out.
pub proof fn law_waiting_call_is_rebuilt(
    before: Seq<RecordView>,
    waiting: RecordView,
    items: Seq<ItemView>,
)
    requires
        waiting.entry is ApprovalPending,
        waiting.entry->ApprovalPending_arguments != "null"@,
    ensures
        ({
            let all = stored_transcript(before.push(waiting), items);
            &&& all == journal_transcript(before).push(
                call_message(
                    waiting.entry->ApprovalPending_call_id,
                    waiting.entry->ApprovalPending_tool_name,
                    waiting.entry->ApprovalPending_arguments,
                ),
            )
        }),
{
    assert(before.push(waiting).drop_last() =~= before);
}

/// What the history keeps of the tools of a turn, record by record: a call that was requested
/// becomes a message of the assistant with that one call, under its id, with its name and its
/// arguments; a call that was completed becomes a message of the tool under its id, whose text
/// is exactly the output of the record; any other record adds nothing. Each stands behind what
/// the records before it made.
pub proof fn law_tools_are_kept(v: Seq<RecordView>, r: RecordView)
    ensures
        tool_messages(Seq::<RecordView>::empty()).len() == 0,
        ({
            let before = tool_messages(v);
            let all = tool_messages(v.push(r));
            match r.entry {
                EntryView::ToolCallRequested { call_id, tool_name, arguments } => {
                    &&& all.len() == before.len() + 1
                    &&& all.drop_last() == before
                    &&& all.last().role == MessageRole::Assistant
                    &&& all.last().content is None
                    &&& all.last().tool_calls.len() == 1
                    &&& all.last().tool_calls[0].call_id == call_id
                    &&& all.last().tool_calls[0].tool_name == tool_name
                    &&& all.last().tool_calls[0].arguments == arguments
                    &&& all.last().tool_call_id is None
                    &&& all.last().reasoning_content is None
                },
                EntryView::ToolCallCompleted { call_id, output, .. } => {
                    &&& all.len() == before.len() + 1
                    &&& all.drop_last() == before
                    &&& all.last().role == MessageRole::Tool
                    &&& all.last().tool_call_id == Some(call_id)
                    &&& all.last().content == output
                    &&& all.last().tool_calls.len() == 0
                    &&& all.last().reasoning_content is None
                },
                _ => all == before,
            }
        }),
{
    assert(v.push(r).drop_last() =~= v);
    assert(tool_messages(v.push(r)).len() > tool_messages(v).len() ==> tool_messages(
        v.push(r),
    ).drop_last() =~= tool_messages(v));
}

/// How many records of a list say that a tool call was requested or completed.
pub open spec fn tool_count(v: Seq<RecordView>) -> nat
    decreases v.len(),
{
    if v.len() == 0 {
        0
    } else {
        tool_count(v.drop_last()) + if v.last().entry is ToolCallCompleted
            || v.last().entry is ToolCallRequested {
            1nat
        } else {
            0
        }
    }
}

proof fn lemma_tool_place(v: Seq<RecordView>, i: int)
    requires
        0 <= i < v.len(),
        v[i].entry is ToolCallCompleted || v[i].entry is ToolCallRequested,
    ensures
        tool_messages(v).len() == tool_count(v),
        tool_count(v.take(i)) < tool_messages(v).len(),
        v[i].entry matches EntryView::ToolCallCompleted { call_id, output, .. } ==> {
            let m = tool_messages(v)[tool_count(v.take(i)) as int];
            m.role == MessageRole::Tool && m.tool_call_id == Some(call_id) && m.content == output
        },
        v[i].entry matches EntryView::ToolCallRequested { call_id, tool_name, arguments } ==> {
            let m = tool_messages(v)[tool_count(v.take(i)) as int];
            m.role == MessageRole::Assistant && m.tool_calls == seq![
                CallView { call_id, tool_name, arguments },
            ]
        },
    decreases v.len(),
{
    let w = v.drop_last();
    lemma_tool_len(v);
    lemma_tool_len(w);
    if i == v.len() - 1 {
        assert(v.take(i) =~= w);
    } else {
        assert(w[i] == v[i]);
        lemma_tool_place(w, i);
        assert(w.take(i) =~= v.take(i));
    }
}

proof fn lemma_tool_len(v: Seq<RecordView>)
    ensures
        tool_messages(v).len() == tool_count(v),
    decreases v.len(),
{
    if v.len() > 0 {
        lemma_tool_len(v.drop_last());
    }
}

/// After a completed turn the history holds what it held, then the tools of the turn, then
/// the answer, as a message of the assistant. For every completed tool call of the journal
/// there is, in its place among the tools, a message of the tool with the id of the call and
/// exactly its output, and for every requested one a message of the assistant with that call.
pub proof fn law_turn_is_kept(
    c: ContextView,
    records: Seq<RecordView>,
    answer: Seq<char>,
    i: int,
)
    ensures
        ({
            let items = after_turn(c, Some(records), answer).items;
            let n = c.items.len() as int;
            &&& items.len() == n + tool_count(records) + 1
            &&& forall|j: int| 0 <= j < n ==> #[trigger] items[j] == c.items[j]
            &&& items.last().role == MessageRole::Assistant
            &&& items.last().content == Some(answer)
            &&& items.last().tool_calls.len() == 0
            &&& 0 <= i < records.len() ==> (records[i].entry matches EntryView::ToolCallCompleted {
                call_id,
                output,
                ..
            } ==> {
                let m = items[n + tool_count(records.take(i))];
                m.role == MessageRole::Tool && m.tool_call_id == Some(call_id) && m.content
                    == output
            })
            &&& 0 <= i < records.len() ==> (records[i].entry matches EntryView::ToolCallRequested {
                call_id,
                tool_name,
                arguments,
            } ==> {
                let m = items[n + tool_count(records.take(i))];
                m.role == MessageRole::Assistant && m.tool_calls == seq![
                    CallView { call_id, tool_name, arguments },
                ]
            })
        }),
        ({
            let items = after_turn(c, None, answer).items;
            &&& items.len() == c.items.len() + 1
            &&& forall|j: int| 0 <= j < c.items.len() ==> #[trigger] items[j] == c.items[j]
            &&& items.last().role == MessageRole::Assistant
            &&& items.last().content == Some(answer)
        }),
{
    lemma_tool_len(records);
    if 0 <= i < records.len() && (records[i].entry is ToolCallCompleted
        || records[i].entry is ToolCallRequested) {
        lemma_tool_place(records, i);
    }
}

/// The token counts of a thread after a turn are the last ones that the journal of the turn
/// holds, counted for the history as it was; where it holds none they stay as they were.
pub proof fn law_last_counts_are_kept(
    c: ContextView,
    v: Seq<RecordView>,
    r: RecordView,
    answer: Seq<char>,
)
    ensures
        r.entry matches EntryView::ProviderUsage { prompt_tokens, completion_tokens } ==> {
            let after = after_turn(c, Some(v.push(r)), answer);
            &&& after.token_info matches Some(info)
            &&& info.prompt_tokens == prompt_tokens
            &&& info.completion_tokens == completion_tokens
            &&& prompt_tokens + completion_tokens <= u64::MAX ==> info.total_tokens == prompt_tokens
                + completion_tokens
            &&& info.context_window == Some(128_000u64)
            &&& after.last_usage_item_count == c.items.len() as usize
        },
        !(r.entry is ProviderUsage) ==> after_turn(c, Some(v.push(r)), answer).token_info
            == after_turn(c, Some(v), answer).token_info && after_turn(
            c,
            Some(v.push(r)),
            answer,
        ).last_usage_item_count == after_turn(c, Some(v), answer).last_usage_item_count,
        after_turn(c, Some(Seq::<RecordView>::empty()), answer).token_info == c.token_info,
        after_turn(c, None, answer).token_info == c.token_info,
        after_turn(c, Some(v), answer).history_version == c.history_version,
        after_turn(c, Some(v), answer).reference_context == c.reference_context,
{
    assert(v.push(r).drop_last() =~= v);
}

/// The transcript that is rebuilt from a journal, record by record: a call that waited or was
/// requested with arguments becomes a message of the assistant with that call, a completed one
/// a message of the tool with its output; nothing else becomes a message.
pub proof fn law_journal_is_rebuilt(v: Seq<RecordView>, r: RecordView)
    ensures
        journal_transcript(Seq::<RecordView>::empty()).len() == 0,
        ({
            let before = journal_transcript(v);
            let all = journal_transcript(v.push(r));
            match r.entry {
                EntryView::ApprovalPending { call_id, tool_name, arguments, .. } => {
                    &&& arguments == "null"@ ==> all == before
                    &&& arguments != "null"@ ==> all.drop_last() == before && all.len()
                        == before.len() + 1 && all.last().role == MessageRole::Assistant
                        && all.last().tool_calls == seq![
                        CallView { call_id, tool_name, arguments },
                    ] && all.last().content is None && all.last().tool_call_id is None
                },
                EntryView::ToolCallRequested { call_id, tool_name, arguments } => {
                    &&& arguments == "null"@ ==> all == before
                    &&& arguments != "null"@ ==> all.drop_last() == before && all.len()
                        == before.len() + 1 && all.last().role == MessageRole::Assistant
                        && all.last().tool_calls == seq![
                        CallView { call_id, tool_name, arguments },
                    ] && all.last().content is None && all.last().tool_call_id is None
                },
                EntryView::ToolCallCompleted { call_id, output, .. } => all.drop_last() == before
                    && all.len() == before.len() + 1 && all.last().role == MessageRole::Tool
                    && all.last().tool_call_id == Some(call_id) && all.last().content == output
                    && all.last().tool_calls.len() == 0,
                _ => all == before,
            }
        }),
{
    assert(v.push(r).drop_last() =~= v);
    assert(journal_transcript(v.push(r)).len() > journal_transcript(v).len() ==> journal_transcript(
        v.push(r),
    ).drop_last() =~= journal_transcript(v));
}

/// The transcript that is rebuilt from recorded items, item by item: the words of the user,
/// the calls of the assistant, and the outputs of the tools, each as it was recorded.
pub proof fn law_items_are_rebuilt(v: Seq<ItemView>, x: ItemView)
    ensures
        item_transcript(Seq::<ItemView>::empty()).len() == 0,
        ({
            let before = item_transcript(v);
            let all = item_transcript(v.push(x));
            match x {
                ItemView::UserMessage { content } => all.drop_last() == before && all.len()
                    == before.len() + 1 && all.last().role == MessageRole::User
                    && all.last().content == Some(content) && all.last().tool_calls.len() == 0,
                ItemView::ToolCall { call_id, tool_name, arguments } => all.drop_last() == before
                    && all.len() == before.len() + 1 && all.last().role == MessageRole::Assistant
                    && all.last().tool_calls == seq![CallView { call_id, tool_name, arguments }]
                    && all.last().content is None,
                ItemView::ToolResult { call_id, output_preview, .. } => all.drop_last() == before
                    && all.len() == before.len() + 1 && all.last().role == MessageRole::Tool
                    && all.last().tool_call_id == Some(call_id) && all.last().content
                    == output_preview,
                _ => all == before,
            }
        }),
{
    assert(v.push(x).drop_last() =~= v);
    assert(item_transcript(v.push(x)).len() > item_transcript(v).len() ==> item_transcript(
        v.push(x),
    ).drop_last() =~= item_transcript(v));
}

/// The journal is asked first: the items count only where the journal holds nothing of the
/// conversation.
pub proof fn law_journal_comes_first(records: Seq<RecordView>, items: Seq<ItemView>)
    ensures
        journal_transcript(records).len() > 0 ==> stored_transcript(records, items)
            == journal_transcript(records),
        journal_transcript(records).len() == 0 ==> stored_transcript(records, items)
            == item_transcript(items),
{
}

/// Records and items are seen one by one, in their order, where they could be read.
pub proof fn law_stored_parts_are_seen(v: Vec<JournalRecord>, items: Seq<TurnItem>, i: int)
    ensures
        opt_records(None) is None,
        opt_records(Some(v)) matches Some(r) && r.len() == v@.len() && (0 <= i < v@.len() ==> r[i]
            == v@[i]@),
        items_of(items).len() == items.len(),
        0 <= i < items.len() ==> items_of(items)[i] == items[i]@,
{
}

} // verus!
