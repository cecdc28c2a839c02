//! What the operations of a session come to: the results that the coordinator reports,
//! and what hosts that wait for a turn are given of them.

use super::error::{RuntimeError, RuntimeErrorView};
use super::threads::{ActiveThreads, ActiveView};
use crate::context::manager;
use crate::context::manager::ContextView;
use crate::context::normalize;
use crate::engine::approval::ApprovalCoordinator;
use crate::engine::turn_coordinator::{TurnOpError, TurnOpResult};
use crate::journal::{EntryView, JournalEntry};
use crate::model;
use crate::protocol::event::{Event, EventMsg};
use crate::protocol::id;
use crate::protocol::id::{MessageId, ThreadId, TurnId};
use crate::protocol::op::SubmissionId;
use crate::protocol::turn::{CreateTurnRequest, Turn, TurnStatus, TurnView};
use crate::text;
use vstd::prelude::*;

verus! {

/// How many turns of the user a compaction drops.
pub const COMPACTION_TURNS: usize = 5;

/// How many messages a compaction keeps of a long history with few turns.
pub const COMPACTION_TAIL: usize = 20;

/// The status of a turn in the result of an operation.
pub open spec fn op_status(s: TurnStatus) -> Seq<char> {
    match s {
        TurnStatus::Started => "started"@,
        TurnStatus::Streaming => "streaming"@,
        TurnStatus::WaitingForApproval => "waiting_for_approval"@,
        TurnStatus::ExecutingTool => "executing_tool"@,
        TurnStatus::Completed => "completed"@,
        TurnStatus::Failed => "failed"@,
        TurnStatus::Interrupted => "interrupted"@,
    }
}

pub fn turn_status_to_op_status(status: &TurnStatus) -> (r: &'static str)
    ensures
        r@ == op_status(*status),
{
    match status {
        TurnStatus::Started => "started",
        TurnStatus::Streaming => "streaming",
        TurnStatus::WaitingForApproval => "waiting_for_approval",
        TurnStatus::ExecutingTool => "executing_tool",
        TurnStatus::Completed => "completed",
        TurnStatus::Failed => "failed",
        TurnStatus::Interrupted => "interrupted",
    }
}

/// The result of an operation that ran a turn.
pub fn turn_result_to_op_result(thread_id: &ThreadId, result: Result<Turn, RuntimeError>) -> (r:
    Result<TurnOpResult, TurnOpError>)
    ensures
        match result {
            Ok(turn) => r matches Ok(o) && o.thread_id@ == thread_id@ && (o.turn_id matches Some(t)
                && t@ == turn@.id) && o.status@ == op_status(turn@.status) && o.user_input@
                == turn@.user_input,
            Err(e) => r matches Err(o) && o.thread_id@ == thread_id@ && o.error@ == "error: "@
                + e@.text(),
        },
{
    match result {
        Ok(turn) => Ok(
            TurnOpResult {
                thread_id: thread_id.clone(),
                status: text::owned(turn_status_to_op_status(&turn.status)),
                turn_id: Some(turn.id),
                user_input: turn.user_input,
            },
        ),
        Err(e) => {
            let message = e.to_string();
            Err(TurnOpError::new(thread_id.clone(), text::cat("error: ", message.as_str())))
        },
    }
}

/// The turn that an input of the user asks for.
pub fn user_input_request(input: String, model: Option<String>) -> (r: CreateTurnRequest)
    ensures
        r == (CreateTurnRequest {
            input,
            model,
            parent_turn_id: None,
            subagent_id: None,
            max_token_budget: None,
        }),
{
    CreateTurnRequest {
        input,
        model,
        parent_turn_id: None,
        subagent_id: None,
        max_token_budget: None,
    }
}

/// The turn that a decision is about. The approval is taken out of memory.
pub fn handle_approval(approvals: &mut ApprovalCoordinator, approval_id: &str) -> (r: Result<
    TurnId,
    RuntimeError,
>)
    requires
        old(approvals).wf(),
    ensures
        final(approvals).wf(),
        final(approvals).waiting() == old(approvals).waiting().remove(approval_id@),
        if old(approvals).waiting().dom().contains(approval_id@) {
            r matches Ok(t) && t == old(approvals).waiting()[approval_id@].turn_id
        } else {
            r matches Err(e) && e@ == RuntimeErrorView::NotReady(
                "no pending approval for "@ + approval_id@,
            )
        },
{
    match approvals.resolve_by_approval_id(approval_id) {
        Some(p) => Ok(p.turn_id),
        None => Err(RuntimeError::NotReady(text::cat("no pending approval for ", approval_id))),
    }
}

/// The turn that occupies a thread.
pub open spec fn active_turn(threads: Map<Seq<char>, ActiveView>, thread_id: Seq<char>) -> Option<
    Seq<char>,
> {
    if threads.dom().contains(thread_id) {
        threads[thread_id].active_turn
    } else {
        None
    }
}

fn find_active_turn(threads: &ActiveThreads, thread_id: &ThreadId) -> (r: Option<TurnId>)
    requires
        threads.wf(),
    ensures
        (match r {
            Some(t) => Some(t@),
            None => None,
        }) == active_turn(threads@, thread_id@),
{
    match threads.get(thread_id) {
        Some(t) => match &t.active_turn_id {
            Some(id) => Some(id.clone()),
            None => None,
        },
        None => None,
    }
}

/// An entry for the journal of a turn.
pub open spec fn is_entry_for(
    e: (TurnId, JournalEntry),
    turn_id: Seq<char>,
    entry: EntryView,
) -> bool {
    e.0@ == turn_id && e.1@ == entry
}

/// Cancels the active turn of a thread, if it has one: the journal is told. The operation
/// succeeds in any case.
pub fn handle_cancel(threads: &ActiveThreads, thread_id: ThreadId) -> (r: (
    Option<(TurnId, JournalEntry)>,
    TurnOpResult,
))
    requires
        threads.wf(),
    ensures
        match active_turn(threads@, thread_id@) {
            Some(t) => r.0 matches Some(e) && is_entry_for(
                e,
                t,
                EntryView::TurnInterrupted { reason: "cancelled by user"@ },
            ),
            None => r.0 is None,
        },
        r.1.thread_id == thread_id,
        r.1.turn_id is None,
        r.1.status@ == "interrupted"@,
        r.1.user_input@ == ""@,
{
    let entry = match find_active_turn(threads, &thread_id) {
        Some(t) => Some(
            (t, JournalEntry::TurnInterrupted { reason: text::owned("cancelled by user") }),
        ),
        None => None,
    };
    (entry, TurnOpResult::ok(thread_id, None, "interrupted"))
}

/// A history after a compaction: the last turns of the user are dropped. Where there are
/// too few of them, a long history is cut to its last messages.
pub open spec fn compacted(c: ContextView) -> ContextView {
    match manager::nth_user_from_end(c.items, COMPACTION_TURNS as nat) {
        Some(i) => ContextView {
            items: c.items.take(i),
            history_version: manager::next_version(c.history_version),
            ..c
        },
        None => if c.items.len() > COMPACTION_TAIL {
            let all = normalize::normalized(c.items);
            ContextView {
                items: if all.len() > COMPACTION_TAIL {
                    all.skip(all.len() - COMPACTION_TAIL)
                } else {
                    all
                },
                history_version: manager::next_version(c.history_version),
                ..c
            }
        } else {
            c
        },
    }
}

/// The thread after its history was compacted: the tracker counts the success.
pub open spec fn compacted_thread(t: ActiveView) -> ActiveView {
    ActiveView {
        context: compacted(t.context),
        tracker: t.tracker.succeeded(
            t.context.items.len() as u64,
            compacted(t.context).items.len() as u64,
        ),
        ..t
    }
}

/// A compaction, and how many messages there were before and after it.
#[derive(Debug)]
pub struct Compaction {
    pub before: u64,
    pub after: u64,
    /// What the journal is told, each under a turn of its own.
    pub entries: Vec<JournalEntry>,
    pub result: TurnOpResult,
}

/// Compacts the history of a thread.
pub fn handle_compact(threads: &mut ActiveThreads, thread_id: ThreadId) -> (r: Result<
    Compaction,
    TurnOpError,
>)
    requires
        old(threads).wf(),
        old(threads)@.dom().contains(thread_id@) ==> old(
            threads,
        )@[thread_id@].tracker.total_compactions < u64::MAX,
    ensures
        final(threads).wf(),
        if old(threads)@.dom().contains(thread_id@) {
            let t = old(threads)@[thread_id@];
            r matches Ok(c) && final(threads)@ == old(threads)@.insert(
                thread_id@,
                compacted_thread(t),
            ) && c.before == t.context.items.len() && c.after == compacted(t.context).items.len()
                && c.entries@.map_values(|e: JournalEntry| e@) == seq![
                EntryView::ContextCompactionStarted,
                EntryView::ContextCompactionCompleted,
            ] && c.result.thread_id == thread_id && c.result.turn_id is None && c.result.status@
                == "completed"@ && c.result.user_input@ == ""@
        } else {
            r matches Err(e) && e.thread_id == thread_id && e.error@ == "thread not found"@
                && final(threads)@ == old(threads)@
        },
{
    let ghost start = threads@;
    match threads.take(&thread_id) {
        Some(t) => {
            let mut t = t;
            let ghost c = t@.context;
            let before: usize = t.context_manager.len();
            let removed: usize = t.context_manager.drop_last_n_user_turns(COMPACTION_TURNS);
            proof {
                manager::law_drop_cuts_at_user(c.items, COMPACTION_TURNS as nat);
            }
            if removed == 0 && before > COMPACTION_TAIL {
                let mut kept = t.context_manager.for_prompt();
                if kept.len() > COMPACTION_TAIL {
                    let n: usize = kept.len() - COMPACTION_TAIL;
                    let ghost all = kept@;
                    kept = kept.split_off(n);
                    assert(model::messages(kept@) =~= model::messages(all).skip(n as int));
                }
                t.context_manager.replace_history(kept);
            }
            assert(t@.context == compacted(c));
            let after: usize = t.context_manager.len();
            t.compaction_tracker.record_success(before as u64, after as u64);
            threads.put(&thread_id, t);
            assert(threads@ =~= start.insert(thread_id@, compacted_thread(start[thread_id@])));
            let mut entries: Vec<JournalEntry> = Vec::new();
            entries.push(JournalEntry::ContextCompactionStarted);
            entries.push(JournalEntry::ContextCompactionCompleted);
            assert(entries@.map_values(|e: JournalEntry| e@) =~= seq![
                EntryView::ContextCompactionStarted,
                EntryView::ContextCompactionCompleted,
            ]);
            Ok(
                Compaction {
                    before: before as u64,
                    after: after as u64,
                    entries,
                    result: TurnOpResult::ok(thread_id, None, "completed"),
                },
            )
        },
        None => {
            assert(threads@ =~= start);
            Err(TurnOpError::new(thread_id, text::owned("thread not found")))
        },
    }
}

/// Steers the active turn of a thread: the text goes into the journal of the turn. A
/// thread without an active turn cannot be steered.
pub fn handle_steer(threads: &ActiveThreads, thread_id: ThreadId, steer_text: &str) -> (r: Result<
    ((TurnId, JournalEntry), TurnOpResult),
    TurnOpError,
>)
    requires
        threads.wf(),
    ensures
        match active_turn(threads@, thread_id@) {
            Some(t) => r matches Ok((e, o)) && is_entry_for(
                e,
                t,
                EntryView::AssistantDelta {
                    message_id: "steer"@,
                    delta: "<steer>"@ + steer_text@ + "</steer>"@,
                },
            ) && o.thread_id == thread_id && (o.turn_id matches Some(u) && u@ == t) && o.status@
                == "started"@ && o.user_input@ == ""@,
            None => r matches Err(e) && e.thread_id == thread_id && e.error@
                == "no active turn for steer input"@,
        },
{
    match find_active_turn(threads, &thread_id) {
        Some(t) => {
            let entry = JournalEntry::AssistantDelta {
                message_id: MessageId::from_string("steer"),
                delta: text::cat3("<steer>", steer_text, "</steer>"),
            };
            Ok(((t.clone(), entry), TurnOpResult::ok(thread_id, Some(t), "started")))
        },
        None => Err(TurnOpError::new(thread_id, text::owned("no active turn for steer input"))),
    }
}

/// The status that the result of an operation names; an unknown name counts as completed.
pub open spec fn status_of_op(s: Seq<char>) -> TurnStatus {
    if s == "waiting_for_approval"@ {
        TurnStatus::WaitingForApproval
    } else if s == "failed"@ {
        TurnStatus::Failed
    } else if s == "interrupted"@ {
        TurnStatus::Interrupted
    } else if s == "started"@ {
        TurnStatus::Started
    } else {
        TurnStatus::Completed
    }
}

/// Whether a turn with this status is over.
pub open spec fn is_over(s: TurnStatus) -> bool {
    s is Completed || s is Failed || s is Interrupted
}

/// The turn that the result of an operation stands for.
pub open spec fn turn_of_op(r: TurnOpResult, turn_id: Seq<char>, now: i64) -> TurnView {
    let status = status_of_op(r.status@);
    TurnView {
        id: turn_id,
        thread_id: r.thread_id@,
        status,
        user_input: r.user_input@,
        created_at: now,
        completed_at: if is_over(status) {
            Some(now)
        } else {
            None
        },
        model: None,
        model_provider: None,
        parent_turn_id: None,
        parent_thread_id: None,
        subagent_id: None,
    }
}

/// The turn that a waiting host is given of the result of an operation. A result whose
/// status tells of an error is an error; one without a turn gets a new id.
pub fn turn_op_result_to_turn(result: TurnOpResult, now: i64) -> (r: Result<Turn, RuntimeError>)
    ensures
        if "error:"@.is_prefix_of(result.status@) {
            r matches Err(e) && e@ == RuntimeErrorView::NotReady(result.status@)
        } else {
            r matches Ok(t) && t@ == turn_of_op(result, t@.id, now) && match result.turn_id {
                Some(id) => t@.id == id@,
                None => id::is_fresh_id(t@.id, "turn-"@),
            }
        },
{
    if text::strip_prefix(result.status.as_str(), "error:").is_some() {
        return Err(RuntimeError::NotReady(result.status));
    }
    let name = result.status.as_str();
    let status = if text::str_eq(name, "waiting_for_approval") {
        TurnStatus::WaitingForApproval
    } else if text::str_eq(name, "failed") {
        TurnStatus::Failed
    } else if text::str_eq(name, "interrupted") {
        TurnStatus::Interrupted
    } else if text::str_eq(name, "started") {
        TurnStatus::Started
    } else {
        TurnStatus::Completed
    };
    let completed_at: Option<i64> = match status {
        TurnStatus::Completed | TurnStatus::Failed | TurnStatus::Interrupted => Some(now),
        _ => None,
    };
    let turn_id = match result.turn_id {
        Some(t) => t,
        None => TurnId::new(),
    };
    Ok(
        Turn {
            id: turn_id,
            thread_id: result.thread_id,
            status,
            user_input: result.user_input,
            created_at: now,
            completed_at,
            model: None,
            model_provider: None,
            parent_turn_id: None,
            parent_thread_id: None,
            subagent_id: None,
        },
    )
}

/// What an event tells a host that waits for a submission: `None` for the events of
/// others and for those that do not end the operation.
pub fn outcome_of_event(event: Event, awaited: &SubmissionId, now: i64) -> (r: Option<
    Result<Turn, RuntimeError>,
>)
    ensures
        if event.id@ != awaited@ {
            r is None
        } else {
            match event.msg {
                EventMsg::OpCompleted { thread_id, turn_id, status, user_input } => {
                    let o = TurnOpResult { thread_id, turn_id, status, user_input };
                    if "error:"@.is_prefix_of(status@) {
                        r matches Some(Err(e)) && e@ == RuntimeErrorView::NotReady(status@)
                    } else {
                        r matches Some(Ok(t)) && t@ == turn_of_op(o, t@.id, now)
                            && match turn_id {
                            Some(id) => t@.id == id@,
                            None => id::is_fresh_id(t@.id, "turn-"@),
                        }
                    }
                },
                EventMsg::OpFailed { error, .. } => r matches Some(Err(e)) && e@
                    == RuntimeErrorView::NotReady(error@),
                _ => r is None,
            }
        },
{
    if !text::str_eq(event.id.as_str(), awaited.as_str()) {
        return None;
    }
    match event.msg {
        EventMsg::OpCompleted { thread_id, turn_id, status, user_input } => Some(
            turn_op_result_to_turn(TurnOpResult { thread_id, turn_id, status, user_input }, now),
        ),
        EventMsg::OpFailed { error, .. } => Some(Err(RuntimeError::NotReady(error))),
        _ => None,
    }
}

/// A host reads from the result of an operation the status that its turn ended with.
pub proof fn law_status_survives(s: TurnStatus)
    requires
        !(s is Streaming),
        !(s is ExecutingTool),
    ensures
        status_of_op(op_status(s)) == s,
        !"error:"@.is_prefix_of(op_status(s)),
{
    reveal_strlit("error:");
    reveal_strlit("started");
    reveal_strlit("waiting_for_approval");
    reveal_strlit("completed");
    reveal_strlit("failed");
    reveal_strlit("interrupted");
    assert("error:"@[0] == 'e');
    assert("started"@[0] == 's');
    assert("waiting_for_approval"@[0] == 'w');
    assert("completed"@[0] == 'c');
    assert("failed"@[0] == 'f');
    assert("interrupted"@[0] == 'i');
    if "error:"@.is_prefix_of(op_status(s)) {
        assert("error:"@[0] == op_status(s)[0]);
    }
}

/// A compaction never makes a history longer.
pub proof fn law_compaction_shrinks(c: ContextView)
    ensures
        compacted(c).items.len() <= c.items.len(),
{
    manager::law_drop_cuts_at_user(c.items, COMPACTION_TURNS as nat);
    if c.items.len() > COMPACTION_TAIL {
        normalize::lemma_not_longer(c.items);
    }
}

/// No two statuses have the same name in the results of operations, and how a turn ended
/// is named as it is.
pub proof fn law_op_statuses_are_told_apart(a: TurnStatus, b: TurnStatus)
    ensures
        op_status(a) == op_status(b) ==> a == b,
        a is Completed ==> op_status(a) == "completed"@,
        a is Failed ==> op_status(a) == "failed"@,
        a is Interrupted ==> op_status(a) == "interrupted"@,
        a is WaitingForApproval ==> op_status(a) == "waiting_for_approval"@,
        a is Started ==> op_status(a) == "started"@,
{
    reveal_strlit("started");
    reveal_strlit("streaming");
    reveal_strlit("waiting_for_approval");
    reveal_strlit("executing_tool");
    reveal_strlit("completed");
    reveal_strlit("failed");
    reveal_strlit("interrupted");
    assert("started"@.len() == 7);
    assert("streaming"@.len() == 9 && "streaming"@[0] == 's');
    assert("waiting_for_approval"@.len() == 20);
    assert("executing_tool"@.len() == 14);
    assert("completed"@.len() == 9 && "completed"@[0] == 'c');
    assert("failed"@.len() == 6);
    assert("interrupted"@.len() == 11);
}

/// A waiting host is given the turn of the result: its thread, its words, its status, and
/// the time at which it was over where it is.
pub proof fn law_host_gets_the_turn_of_the_result(r: TurnOpResult, turn_id: Seq<char>, now: i64)
    ensures
        ({
            let t = turn_of_op(r, turn_id, now);
            &&& t.id == turn_id
            &&& t.thread_id == r.thread_id@
            &&& t.user_input == r.user_input@
            &&& t.created_at == now
            &&& r.status@ == "failed"@ ==> t.status is Failed && t.completed_at == Some(now)
            &&& r.status@ == "interrupted"@ ==> t.status is Interrupted && t.completed_at == Some(
                now,
            )
            &&& r.status@ == "completed"@ ==> t.status is Completed && t.completed_at == Some(now)
            &&& r.status@ == "waiting_for_approval"@ ==> t.status is WaitingForApproval
                && t.completed_at is None
            &&& r.status@ == "started"@ ==> t.status is Started && t.completed_at is None
            &&& t.model is None
            &&& t.model_provider is None
            &&& t.parent_turn_id is None
            &&& t.parent_thread_id is None
            &&& t.subagent_id is None
        }),
{
    law_status_survives(TurnStatus::Failed);
    law_status_survives(TurnStatus::Interrupted);
    law_status_survives(TurnStatus::Completed);
    law_status_survives(TurnStatus::WaitingForApproval);
    law_status_survives(TurnStatus::Started);
}

/// The active turn of a thread is the one in its slot; a thread that is gone has none.
pub proof fn law_active_turn_is_in_the_slot(
    threads: Map<Seq<char>, ActiveView>,
    thread_id: Seq<char>,
)
    ensures
        threads.dom().contains(thread_id) ==> active_turn(threads, thread_id)
            == threads[thread_id].active_turn,
        !threads.dom().contains(thread_id) ==> active_turn(threads, thread_id) is None,
{
}

/// A compaction makes nothing up: where the history has five turns of the user it is cut at
/// the first of the last five; else, where it is long, it is the end of what the model would
/// be shown; else it stays as it is. The version moves exactly where the history was cut.
pub proof fn law_compaction_only_cuts(c: ContextView)
    ensures
        compacted(c).token_info == c.token_info,
        compacted(c).reference_context == c.reference_context,
        compacted(c).last_usage_item_count == c.last_usage_item_count,
        manager::nth_user_from_end(c.items, 5) matches Some(i) ==> compacted(c).items
            == c.items.subrange(0, i),
        manager::nth_user_from_end(c.items, 5) is None ==> c.items.len() <= 20 ==> compacted(c)
            == c,
        manager::nth_user_from_end(c.items, 5) is None ==> c.items.len() > 20
            ==> normalize::normalized(c.items).len() <= 20 ==> compacted(c).items
            == normalize::normalized(c.items),
        manager::nth_user_from_end(c.items, 5) is None ==> c.items.len() > 20
            ==> normalize::normalized(c.items).len() > 20 ==> compacted(c).items.len() == 20
            && normalize::normalized(c.items).take(normalize::normalized(c.items).len() - 20)
            + compacted(c).items == normalize::normalized(c.items),
{
    let all = normalize::normalized(c.items);
    if all.len() > 20 {
        assert(all.take(all.len() - 20) + all.skip(all.len() - 20) =~= all);
    }
}

/// Compacting a thread changes its history and the counts of its compactions, nothing else.
pub proof fn law_compaction_keeps_the_thread(t: ActiveView)
    ensures
        compacted_thread(t).thread == t.thread,
        compacted_thread(t).active_turn == t.active_turn,
        compacted_thread(t).machine == t.machine,
        compacted_thread(t).context == compacted(t.context),
        compacted_thread(t).tracker == t.tracker.succeeded(
            t.context.items.len() as u64,
            compacted(t.context).items.len() as u64,
        ),
{
}

/// An entry for a turn is that entry, under that turn.
pub proof fn law_entries_go_to_their_turn(
    e: (TurnId, JournalEntry),
    turn_id: Seq<char>,
    entry: EntryView,
)
    ensures
        is_entry_for(e, turn_id, entry) <==> e.0@ == turn_id && e.1@ == entry,
{
}

} // verus!
