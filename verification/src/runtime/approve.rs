//! Answers to pending approvals: an approved tool call lets its turn go on, a rejected
//! one fails it.

use super::error::{RuntimeError, RuntimeErrorView};
use super::records;
use super::submit;
use super::threads::{ActiveThreads, ActiveView};
use super::transcript;
use crate::agent::config::{ConfigView, ResumeTurnRequest, TurnConfig};
use crate::agent::turn::{TurnError, TurnResult};
use crate::engine::approval::{ApprovalCoordinator, PendingApproval, PendingView};
use crate::journal;
use crate::journal::{EntryView, JournalEntry, JournalRecord};
use crate::json;
use crate::model;
use crate::policy::AgentMode;
use crate::protocol::id::{ThreadId, ToolCallId, TurnId};
use crate::protocol::op::Op;
use crate::protocol::turn::{Turn, TurnItem, TurnStatus, TurnView};
use crate::text;
use vstd::prelude::*;

verus! {

/// A pending approval as the durable state keeps it.
#[derive(Debug)]
pub struct DurableApproval {
    pub approval_id: String,
    pub call_id: String,
    pub tool_name: String,
    pub arguments_json: String,
    pub model: String,
    pub workspace: String,
    pub config_json: String,
}

/// The approval that a stored row stands for. Arguments that are no JSON become null.
pub open spec fn restored(d: DurableApproval, thread_id: Seq<char>, turn_id: Seq<char>) -> PendingView {
    PendingView {
        approval_id: d.approval_id@,
        thread_id,
        turn_id,
        call_id: d.call_id@,
        tool_name: d.tool_name@,
        arguments: json::json_parse_or_null(d.arguments_json@),
        model: d.model@,
        workspace: d.workspace@,
        config_json: d.config_json@,
    }
}

/// The approval of a turn where memory holds none: the stored one, if there is one and
/// the store can be read.
pub open spec fn is_durable_answer(
    r: Result<PendingApproval, RuntimeError>,
    durable: Result<Option<DurableApproval>, String>,
    thread_id: Seq<char>,
    turn_id: Seq<char>,
) -> bool {
    match durable {
        Ok(Some(d)) => r matches Ok(p) && p@ == restored(d, thread_id, turn_id),
        Ok(None) => r matches Err(e) && e@ == RuntimeErrorView::NotReady(
            "no pending approval for this turn"@,
        ),
        Err(m) => r matches Err(e) && e@ == RuntimeErrorView::State(m@),
    }
}

/// Takes out the approval of a turn: the one in memory, else the stored one. What the
/// store says counts only where memory holds none.
pub fn resolve_pending_approval(
    approvals: &mut ApprovalCoordinator,
    thread_id: &ThreadId,
    turn_id: &TurnId,
    durable: Result<Option<DurableApproval>, String>,
) -> (r: Result<PendingApproval, RuntimeError>)
    requires
        old(approvals).wf(),
    ensures
        final(approvals).wf(),
        if exists|k: Seq<char>| #[trigger] old(approvals).of_turn(k, thread_id@, turn_id@) {
            r matches Ok(p) && old(approvals).of_turn(p.approval_id@, thread_id@, turn_id@) && p
                == old(approvals).waiting()[p.approval_id@] && final(approvals).waiting() == old(
                approvals,
            ).waiting().remove(p.approval_id@)
        } else {
            final(approvals).waiting() == old(approvals).waiting() && is_durable_answer(
                r,
                durable,
                thread_id@,
                turn_id@,
            )
        },
{
    if let Some(p) = approvals.resolve_by_turn(thread_id, turn_id) {
        assert(old(approvals).of_turn(p.approval_id@, thread_id@, turn_id@));
        return Ok(p);
    }
    match durable {
        Ok(Some(d)) => Ok(
            PendingApproval {
                approval_id: d.approval_id,
                thread_id: thread_id.clone(),
                turn_id: turn_id.clone(),
                call_id: ToolCallId::from_string(d.call_id.as_str()),
                tool_name: d.tool_name,
                arguments: json::parse_or_null(d.arguments_json.as_str()),
                model: d.model,
                workspace: d.workspace,
                config_json: d.config_json,
            },
        ),
        Ok(None) => Err(
            RuntimeError::NotReady(text::owned("no pending approval for this turn")),
        ),
        Err(e) => Err(RuntimeError::State(e)),
    }
}

/// The decision on the approval of a turn as an operation for its session. The approval
/// stays in memory until the operation is carried out.
pub fn decision_op(
    approvals: &mut ApprovalCoordinator,
    thread_id: &ThreadId,
    turn_id: &TurnId,
    durable: Result<Option<DurableApproval>, String>,
    approved: bool,
) -> (r: Result<Op, RuntimeError>)
    requires
        old(approvals).wf(),
    ensures
        final(approvals).wf(),
        match r {
            Ok(op) => op matches Op::ApprovalDecision { thread_id: t, approval_id, approved: a }
                && t@ == thread_id@ && a == approved && final(approvals).of_turn(
                approval_id@,
                thread_id@,
                turn_id@,
            ) && final(approvals).waiting() == old(approvals).waiting().insert(
                approval_id@,
                final(approvals).waiting()[approval_id@],
            ),
            Err(_) => final(approvals).waiting() == old(approvals).waiting(),
        },
        if exists|k: Seq<char>| #[trigger] old(approvals).of_turn(k, thread_id@, turn_id@) {
            r is Ok && final(approvals).waiting() == old(approvals).waiting()
        } else {
            match durable {
                Ok(Some(d)) => {
                    &&& r matches Ok(Op::ApprovalDecision { approval_id, .. }) && approval_id@
                        == d.approval_id@
                    &&& final(approvals).waiting()[d.approval_id@]@ == restored(
                        d,
                        thread_id@,
                        turn_id@,
                    )
                },
                Ok(None) => r matches Err(e) && e@ == RuntimeErrorView::NotReady(
                    "no pending approval for this turn"@,
                ),
                Err(m) => r matches Err(e) && e@ == RuntimeErrorView::State(m@),
            }
        },
{
    match resolve_pending_approval(approvals, thread_id, turn_id, durable) {
        Ok(p) => {
            let approval_id = p.approval_id.clone();
            approvals.register(p);
            assert((exists|k: Seq<char>| #[trigger]
                old(approvals).of_turn(k, thread_id@, turn_id@)) ==> approvals.waiting() =~= old(
                approvals,
            ).waiting());
            assert(approvals.waiting() =~= old(approvals).waiting().insert(
                approval_id@,
                approvals.waiting()[approval_id@],
            ));
            Ok(Op::ApprovalDecision { thread_id: thread_id.clone(), approval_id, approved })
        },
        Err(e) => Err(e),
    }
}

/// The place of an approved turn between two steps.
#[derive(Debug, Clone, Copy, PartialEq, Eq, Structural)]
pub enum ApprovalStage {
    Approving,
    Resolving,
    Reading,
    Running,
    Closing { status: TurnStatus },
    Updating { status: TurnStatus },
    Ended,
}

/// The work that an approved turn asks for.
#[derive(Debug)]
pub enum ApprovalStep {
    /// Append an entry to the journal of the turn.
    Append { entry: JournalEntry },
    /// Find the provider of a model.
    ResolveProvider { model: String },
    /// Read what is stored of the turn, and the settings from their JSON.
    ReadTranscript { config_json: String },
    /// Go on with the turn.
    Resume { request: ResumeTurnRequest },
    /// Set the stored status of the turn.
    UpdateStatus { status: &'static str },
    /// The turn went on as far as it could.
    Done { turn: Turn },
    /// The approval could not be carried out.
    Failed { error: RuntimeError },
}

/// A turn that goes on after an approval.
#[derive(Debug)]
pub struct ApprovalJob {
    thread_id: ThreadId,
    turn_id: TurnId,
    pending: PendingApproval,
    stage: ApprovalStage,
}

/// A turn that goes on after an approval, over plain texts.
pub struct ApprovalJobView {
    pub thread_id: Seq<char>,
    pub turn_id: Seq<char>,
    pub pending: PendingView,
    pub stage: ApprovalStage,
}

impl View for ApprovalJob {
    type V = ApprovalJobView;

    closed spec fn view(&self) -> ApprovalJobView {
        ApprovalJobView {
            thread_id: self.thread_id@,
            turn_id: self.turn_id@,
            pending: self.pending@,
            stage: self.stage,
        }
    }
}

impl ApprovalJobView {
    /// The job at another stage.
    pub open spec fn at(self, stage: ApprovalStage) -> ApprovalJobView {
        ApprovalJobView { stage, ..self }
    }

    /// The settings that a turn goes on with where its own cannot be read.
    pub open spec fn fallback_config(self) -> ConfigView {
        ConfigView {
            model: self.pending.model,
            max_output_tokens: None,
            token_budget: submit::TURN_TOKEN_BUDGET,
            turn_timeout: None,
            agent_mode: AgentMode::Agent,
            system_prompt: None,
            workspace: self.pending.workspace,
        }
    }
}

/// What is returned of a turn whose approval was answered.
pub open spec fn answered_turn(
    thread_id: Seq<char>,
    turn_id: Seq<char>,
    status: TurnStatus,
    now: i64,
) -> TurnView {
    TurnView {
        id: turn_id,
        thread_id,
        status,
        user_input: Seq::empty(),
        created_at: now,
        completed_at: Some(now),
        model: None,
        model_provider: None,
        parent_turn_id: None,
        parent_thread_id: None,
        subagent_id: None,
    }
}

fn make_answered_turn(thread_id: &ThreadId, turn_id: &TurnId, status: TurnStatus, now: i64) -> (r:
    Turn)
    ensures
        r@ == answered_turn(thread_id@, turn_id@, status, now),
{
    Turn {
        id: turn_id.clone(),
        thread_id: thread_id.clone(),
        status,
        user_input: String::new(),
        created_at: now,
        completed_at: Some(now),
        model: None,
        model_provider: None,
        parent_turn_id: None,
        parent_thread_id: None,
        subagent_id: None,
    }
}

/// The threads with the slot of one of them freed, whatever turn holds it.
pub open spec fn freed(threads: Map<Seq<char>, ActiveView>, thread_id: Seq<char>) -> Map<
    Seq<char>,
    ActiveView,
> {
    if threads.dom().contains(thread_id) {
        threads.insert(thread_id, ActiveView { active_turn: None, ..threads[thread_id] })
    } else {
        threads
    }
}

fn free_slot(threads: &mut ActiveThreads, thread_id: &ThreadId)
    requires
        old(threads).wf(),
    ensures
        final(threads).wf(),
        final(threads)@ == freed(old(threads)@, thread_id@),
{
    let ghost before = threads@;
    if let Some(t) = threads.take(thread_id) {
        let mut t = t;
        t.active_turn_id = None;
        threads.put(thread_id, t);
        assert(threads@ =~= freed(before, thread_id@));
    } else {
        assert(threads@ =~= before);
    }
}

/// The text of an error of the journal.
pub fn journal_failure(e: &str) -> (r: RuntimeError)
    ensures
        r@ == submit::journal_error(e@),
{
    RuntimeError::State(text::cat("journal append failed: ", e))
}

/// What a turn goes on with.
pub open spec fn is_resume_request(
    r: ResumeTurnRequest,
    job: ApprovalJobView,
    config: ConfigView,
    stored: Seq<model::MessageView>,
) -> bool {
    &&& r.thread_id@ == job.thread_id
    &&& r.turn_id@ == job.turn_id
    &&& r.call_id@ == job.pending.call_id
    &&& r.tool_name@ == job.pending.tool_name
    &&& json::json_text(r.arguments) == job.pending.arguments
    &&& r.config@ == config
    &&& r.tool_result_content@ == Seq::<char>::empty()
    &&& model::messages(r.transcript@) == stored
    &&& r.reasoning_to_replay is None
    &&& !r.recording
}

/// A step that appends an entry.
pub open spec fn is_entry(step: ApprovalStep, e: EntryView) -> bool {
    step matches ApprovalStep::Append { entry } && entry@ == e
}

/// A step that ends in an error.
pub open spec fn is_error(step: ApprovalStep, e: RuntimeErrorView) -> bool {
    step matches ApprovalStep::Failed { error } && error@ == e
}

/// A step that sets the stored status.
pub open spec fn is_status(step: ApprovalStep, status: TurnStatus) -> bool {
    step matches ApprovalStep::UpdateStatus { status: s } && s@ == records::turn_status_name(status)
}

/// What becomes of the job once the answer was written to the journal, or could not be.
pub open spec fn is_after_answer(
    before: ApprovalJobView,
    after: ApprovalJobView,
    step: ApprovalStep,
    written: Result<(), String>,
) -> bool {
    match written {
        Ok(_) => after == before.at(ApprovalStage::Resolving) && (
        step matches ApprovalStep::ResolveProvider { model } && model@ == before.pending.model),
        Err(e) => after == before.at(ApprovalStage::Ended) && is_error(
            step,
            submit::journal_error(e@),
        ),
    }
}

/// What becomes of the job and the threads once the end of the turn was written to the
/// journal, or could not be.
pub open spec fn is_after_close(
    before: ApprovalJobView,
    after: ApprovalJobView,
    step: ApprovalStep,
    threads: Map<Seq<char>, ActiveView>,
    threads_after: Map<Seq<char>, ActiveView>,
    written: Result<(), String>,
) -> bool {
    match written {
        Ok(_) => after == before.at(
            ApprovalStage::Updating { status: before.stage->Closing_status },
        ) && threads_after == freed(threads, before.thread_id) && is_status(
            step,
            before.stage->Closing_status,
        ),
        Err(e) => after == before.at(ApprovalStage::Ended) && threads_after == threads
            && is_error(step, submit::journal_error(e@)),
    }
}

impl ApprovalJob {
    /// Approves a tool call: the answer goes into the journal first.
    pub fn begin(thread_id: ThreadId, turn_id: TurnId, pending: PendingApproval) -> (r: (
        ApprovalJob,
        ApprovalStep,
    ))
        ensures
            r.0@ == (ApprovalJobView {
                thread_id: thread_id@,
                turn_id: turn_id@,
                pending: pending@,
                stage: ApprovalStage::Approving,
            }),
            is_entry(
                r.1,
                EntryView::ApprovalResolved { approval_id: pending@.approval_id, approved: true },
            ),
    {
        let entry = JournalEntry::ApprovalResolved {
            approval_id: pending.approval_id.clone(),
            approved: true,
        };
        (
            ApprovalJob { thread_id, turn_id, pending, stage: ApprovalStage::Approving },
            ApprovalStep::Append { entry },
        )
    }

    /// The answer was written to the journal, or could not be.
    pub fn on_approved(&mut self, written: Result<(), String>) -> (r: ApprovalStep)
        requires
            old(self)@.stage is Approving,
        ensures
            is_after_answer(old(self)@, final(self)@, r, written),
    {
        match written {
            Ok(_) => {
                self.stage = ApprovalStage::Resolving;
                ApprovalStep::ResolveProvider { model: self.pending.model.clone() }
            },
            Err(e) => {
                self.stage = ApprovalStage::Ended;
                ApprovalStep::Failed { error: journal_failure(e.as_str()) }
            },
        }
    }

    /// A provider was found or not.
    pub fn on_provider(&mut self, found: bool) -> (r: ApprovalStep)
        requires
            old(self)@.stage is Resolving,
        ensures
            if found {
                final(self)@ == old(self)@.at(ApprovalStage::Reading) && (
                r matches ApprovalStep::ReadTranscript { config_json } && config_json@ == old(
                    self,
                )@.pending.config_json)
            } else {
                final(self)@ == old(self)@.at(ApprovalStage::Ended) && is_error(
                    r,
                    RuntimeErrorView::NotReady(
                        "provider for model '"@ + old(self)@.pending.model + "' not available"@,
                    ),
                )
            },
    {
        if found {
            self.stage = ApprovalStage::Reading;
            ApprovalStep::ReadTranscript { config_json: self.pending.config_json.clone() }
        } else {
            self.stage = ApprovalStage::Ended;
            ApprovalStep::Failed {
                error: RuntimeError::NotReady(
                    text::cat3(
                        "provider for model '",
                        self.pending.model.as_str(),
                        "' not available",
                    ),
                ),
            }
        }
    }

    /// What is stored of the turn was read: the turn goes on. Settings that could not be
    /// read are replaced.
    pub fn on_transcript(
        &mut self,
        log: &Vec<JournalRecord>,
        items: &Vec<TurnItem>,
        config: Option<TurnConfig>,
    ) -> (r: ApprovalStep)
        requires
            old(self)@.stage is Reading,
        ensures
            final(self)@ == old(self)@.at(ApprovalStage::Running),
            r matches ApprovalStep::Resume { request } && is_resume_request(
                request,
                old(self)@,
                match config {
                    Some(c) => c@,
                    None => old(self)@.fallback_config(),
                },
                transcript::stored_transcript(
                    journal::records(log@),
                    transcript::items_of(items@),
                ),
            ),
    {
        let config = match config {
            Some(c) => c,
            None => TurnConfig {
                model: self.pending.model.clone(),
                max_output_tokens: None,
                token_budget: submit::TURN_TOKEN_BUDGET,
                turn_timeout: None,
                agent_mode: AgentMode::Agent,
                system_prompt: None,
                workspace: self.pending.workspace.clone(),
            },
        };
        self.stage = ApprovalStage::Running;
        ApprovalStep::Resume {
            request: ResumeTurnRequest {
                thread_id: self.thread_id.clone(),
                turn_id: self.turn_id.clone(),
                call_id: self.pending.call_id.clone(),
                tool_name: self.pending.tool_name.clone(),
                arguments: self.pending.arguments.clone(),
                config,
                tool_result_content: String::new(),
                transcript: transcript::build_transcript_from_items(log, items),
                reasoning_to_replay: None,
                recording: false,
            },
        }
    }

    /// The turn ran on. A turn that waits for another approval keeps its slot.
    pub fn on_result(&mut self, result: Result<TurnResult, TurnError>) -> (r: ApprovalStep)
        requires
            old(self)@.stage is Running,
        ensures
            match result {
                Ok(TurnResult::Completed { .. }) => final(self)@ == old(self)@.at(
                    ApprovalStage::Closing { status: TurnStatus::Completed },
                ) && is_entry(r, EntryView::TurnCompleted),
                Ok(TurnResult::NeedsApproval { .. }) => final(self)@ == old(self)@.at(
                    ApprovalStage::Updating { status: TurnStatus::WaitingForApproval },
                ) && is_status(r, TurnStatus::WaitingForApproval),
                Err(e) => final(self)@ == old(self)@.at(
                    ApprovalStage::Closing { status: TurnStatus::Failed },
                ) && is_entry(r, EntryView::TurnFailed { error: e@.text() }),
            },
    {
        match result {
            Ok(TurnResult::Completed { .. }) => {
                self.stage = ApprovalStage::Closing { status: TurnStatus::Completed };
                ApprovalStep::Append { entry: JournalEntry::TurnCompleted }
            },
            Ok(TurnResult::NeedsApproval { .. }) => {
                self.stage = ApprovalStage::Updating { status: TurnStatus::WaitingForApproval };
                ApprovalStep::UpdateStatus {
                    status: records::turn_status_text(TurnStatus::WaitingForApproval),
                }
            },
            Err(e) => {
                self.stage = ApprovalStage::Closing { status: TurnStatus::Failed };
                ApprovalStep::Append { entry: JournalEntry::TurnFailed { error: e.to_string() } }
            },
        }
    }

    /// The end of the turn was written to the journal, or could not be: once it is
    /// written, the slot is freed.
    pub fn on_closed(&mut self, threads: &mut ActiveThreads, written: Result<(), String>) -> (r:
        ApprovalStep)
        requires
            old(threads).wf(),
            old(self)@.stage is Closing,
        ensures
            final(threads).wf(),
            is_after_close(
                old(self)@,
                final(self)@,
                r,
                old(threads)@,
                final(threads)@,
                written,
            ),
    {
        match written {
            Ok(_) => {
                let status = match self.stage {
                    ApprovalStage::Closing { status } => status,
                    _ => TurnStatus::Failed,
                };
                free_slot(threads, &self.thread_id);
                self.stage = ApprovalStage::Updating { status };
                ApprovalStep::UpdateStatus { status: records::turn_status_text(status) }
            },
            Err(e) => {
                self.stage = ApprovalStage::Ended;
                ApprovalStep::Failed { error: journal_failure(e.as_str()) }
            },
        }
    }

    /// The entry that the job asked to append was written to the journal, or could not be:
    /// the answer, or the end of the turn.
    pub fn on_appended(&mut self, threads: &mut ActiveThreads, written: Result<(), String>) -> (r:
        ApprovalStep)
        requires
            old(threads).wf(),
            old(self)@.stage is Approving || old(self)@.stage is Closing,
        ensures
            final(threads).wf(),
            if old(self)@.stage is Approving {
                is_after_answer(old(self)@, final(self)@, r, written) && final(threads)@ == old(
                    threads,
                )@
            } else {
                is_after_close(
                    old(self)@,
                    final(self)@,
                    r,
                    old(threads)@,
                    final(threads)@,
                    written,
                )
            },
    {
        match self.stage {
            ApprovalStage::Approving => self.on_approved(written),
            _ => self.on_closed(threads, written),
        }
    }

    /// The status of the turn was stored, or could not be.
    pub fn on_status(&mut self, stored: Result<(), String>, now: i64) -> (r: ApprovalStep)
        requires
            old(self)@.stage is Updating,
        ensures
            final(self)@ == old(self)@.at(ApprovalStage::Ended),
            match stored {
                Ok(_) => r matches ApprovalStep::Done { turn } && turn@ == answered_turn(
                    old(self)@.thread_id,
                    old(self)@.turn_id,
                    old(self)@.stage->Updating_status,
                    now,
                ),
                Err(e) => is_error(r, RuntimeErrorView::State(e@)),
            },
    {
        let status = match self.stage {
            ApprovalStage::Updating { status } => status,
            _ => TurnStatus::Failed,
        };
        self.stage = ApprovalStage::Ended;
        match stored {
            Ok(_) => ApprovalStep::Done {
                turn: make_answered_turn(&self.thread_id, &self.turn_id, status, now),
            },
            Err(e) => ApprovalStep::Failed { error: RuntimeError::State(e) },
        }
    }
}

/// The error of a turn whose tool call was rejected.
pub open spec fn rejection_text() -> Seq<char> {
    "tool call rejected by user"@
}

/// What the journal is told of a rejection, in this order: the answer, that the call was
/// rejected, and that the turn failed.
pub open spec fn rejection_entries(p: PendingView) -> Seq<EntryView> {
    seq![
        EntryView::ApprovalResolved { approval_id: p.approval_id, approved: false },
        EntryView::ToolCallRejected { call_id: p.call_id },
        EntryView::TurnFailed { error: rejection_text() },
    ]
}

/// Rejects a tool call: the entries to append to the journal.
pub fn reject_tool(pending: &PendingApproval) -> (r: Vec<JournalEntry>)
    ensures
        r@.map_values(|e: JournalEntry| e@) == rejection_entries(pending@),
{
    let mut out: Vec<JournalEntry> = Vec::new();
    out.push(
        JournalEntry::ApprovalResolved {
            approval_id: pending.approval_id.clone(),
            approved: false,
        },
    );
    out.push(JournalEntry::ToolCallRejected { call_id: pending.call_id.clone() });
    out.push(JournalEntry::TurnFailed { error: text::owned("tool call rejected by user") });
    assert(out@.map_values(|e: JournalEntry| e@) =~= rejection_entries(pending@));
    out
}

/// The entries of a rejection were written: the slot of the thread is freed, and the turn
/// is stored under the status that is returned.
pub fn free_rejected(threads: &mut ActiveThreads, thread_id: &ThreadId) -> (r: &'static str)
    requires
        old(threads).wf(),
    ensures
        final(threads).wf(),
        final(threads)@ == freed(old(threads)@, thread_id@),
        r@ == "failed"@,
{
    free_slot(threads, thread_id);
    "failed"
}

/// The status of a rejected turn was stored, or could not be.
pub fn conclude_rejection(
    thread_id: &ThreadId,
    turn_id: &TurnId,
    stored: Result<(), String>,
    now: i64,
) -> (r: Result<Turn, RuntimeError>)
    ensures
        match stored {
            Ok(_) => r matches Ok(t) && t@ == answered_turn(
                thread_id@,
                turn_id@,
                TurnStatus::Failed,
                now,
            ),
            Err(m) => r matches Err(e) && e@ == RuntimeErrorView::State(m@),
        },
{
    match stored {
        Ok(_) => Ok(make_answered_turn(thread_id, turn_id, TurnStatus::Failed, now)),
        Err(e) => Err(RuntimeError::State(e)),
    }
}

/// A rejected call is never run: its journal holds no call and no result of the tool, and
/// the last word on the turn is that it failed.
pub proof fn law_rejected_call_is_not_run(p: PendingView)
    ensures
        forall|i: int|
            0 <= i < rejection_entries(p).len() ==> !((#[trigger] rejection_entries(
                p,
            )[i]) is ToolCallRequested) && !(rejection_entries(p)[i] is ToolCallApproved) && !(
            rejection_entries(p)[i] is ToolCallCompleted),
        rejection_entries(p).last() is TurnFailed,
{
}

/// A stored approval comes back as the call it was stored for: the same approval, call,
/// tool, model, workspace and settings, of the turn and the thread it is asked for. The
/// arguments are those that the stored text says.
pub proof fn law_stored_approval_comes_back(
    d: DurableApproval,
    thread_id: Seq<char>,
    turn_id: Seq<char>,
)
    ensures
        ({
            let p = restored(d, thread_id, turn_id);
            &&& p.approval_id == d.approval_id@
            &&& p.thread_id == thread_id
            &&& p.turn_id == turn_id
            &&& p.call_id == d.call_id@
            &&& p.tool_name == d.tool_name@
            &&& p.arguments == json::json_parse_or_null(d.arguments_json@)
            &&& p.model == d.model@
            &&& p.workspace == d.workspace@
            &&& p.config_json == d.config_json@
        }),
{
}

/// Without an approval in memory the store decides: what it holds is the answer, that it
/// holds none is told, and so is that it cannot be read.
pub proof fn law_store_decides(
    r: Result<PendingApproval, RuntimeError>,
    durable: Result<Option<DurableApproval>, String>,
    thread_id: Seq<char>,
    turn_id: Seq<char>,
)
    requires
        is_durable_answer(r, durable, thread_id, turn_id),
    ensures
        r is Ok <==> (durable matches Ok(d) && d is Some),
        durable matches Ok(Some(d)) ==> r matches Ok(p) && p@.approval_id == d.approval_id@
            && p@.call_id == d.call_id@ && p@.tool_name == d.tool_name@ && p@.turn_id == turn_id
            && p@.thread_id == thread_id,
        durable matches Ok(None) ==> r matches Err(e) && e@ == RuntimeErrorView::NotReady(
            "no pending approval for this turn"@,
        ),
        durable matches Err(m) ==> r matches Err(e) && e@ == RuntimeErrorView::State(m@),
{
}

/// An approved turn goes on with the very call that was approved: its id, its tool, its
/// arguments, behind what is stored of the turn, with nothing made up for its result.
pub proof fn law_approved_call_goes_on(
    r: ResumeTurnRequest,
    job: ApprovalJobView,
    config: ConfigView,
    stored: Seq<model::MessageView>,
)
    requires
        is_resume_request(r, job, config, stored),
    ensures
        r.thread_id@ == job.thread_id,
        r.turn_id@ == job.turn_id,
        r.call_id@ == job.pending.call_id,
        r.tool_name@ == job.pending.tool_name,
        json::json_text(r.arguments) == job.pending.arguments,
        r.config@ == config,
        r.tool_result_content@.len() == 0,
        model::messages(r.transcript@) == stored,
        r.reasoning_to_replay is None,
        !r.recording,
{
}

/// Settings that cannot be read are replaced by those that the approval was kept with.
pub proof fn law_fallback_keeps_model_and_workspace(job: ApprovalJobView)
    ensures
        job.fallback_config().model == job.pending.model,
        job.fallback_config().workspace == job.pending.workspace,
        job.fallback_config().token_budget == 100_000,
        job.fallback_config().agent_mode is Agent,
        job.fallback_config().max_output_tokens is None,
        job.fallback_config().turn_timeout is None,
        job.fallback_config().system_prompt is None,
{
}

/// Another stage is all that moves of a job.
pub proof fn law_approval_stage_is_all_that_moves(job: ApprovalJobView, stage: ApprovalStage)
    ensures
        job.at(stage).stage == stage,
        job.at(stage).thread_id == job.thread_id,
        job.at(stage).turn_id == job.turn_id,
        job.at(stage).pending == job.pending,
{
}

/// What is returned of an answered turn is that turn, over at the time of the answer.
pub proof fn law_answered_turn_is_over(
    thread_id: Seq<char>,
    turn_id: Seq<char>,
    status: TurnStatus,
    now: i64,
)
    ensures
        ({
            let t = answered_turn(thread_id, turn_id, status, now);
            &&& t.id == turn_id
            &&& t.thread_id == thread_id
            &&& t.status == status
            &&& t.user_input.len() == 0
            &&& t.created_at == now
            &&& t.completed_at == Some(now)
            &&& t.model is None
            &&& t.model_provider is None
            &&& t.parent_turn_id is None
            &&& t.parent_thread_id is None
            &&& t.subagent_id is None
        }),
{
}

/// Freeing a thread empties its slot and leaves its history, its counts and all other
/// threads as they were.
pub proof fn law_freeing_keeps_the_history(
    threads: Map<Seq<char>, ActiveView>,
    thread_id: Seq<char>,
    other: Seq<char>,
)
    ensures
        freed(threads, thread_id).dom() == threads.dom(),
        threads.dom().contains(thread_id) ==> {
            let f = freed(threads, thread_id)[thread_id];
            let t = threads[thread_id];
            f.active_turn is None && f.thread == t.thread && f.context == t.context && f.tracker
                == t.tracker && f.machine == t.machine
        },
        other != thread_id && threads.dom().contains(other) ==> freed(threads, thread_id)[other]
            == threads[other],
{
    assert(freed(threads, thread_id).dom() =~= threads.dom());
}

/// A rejection tells the journal three things in this order: that the approval was
/// answered with no, that its call was rejected, and why the turn failed.
pub proof fn law_rejection_is_told(p: PendingView)
    ensures
        rejection_entries(p).len() == 3,
        rejection_entries(p)[0] matches EntryView::ApprovalResolved { approval_id, approved }
            && approval_id == p.approval_id && !approved,
        rejection_entries(p)[1] matches EntryView::ToolCallRejected { call_id } && call_id
            == p.call_id,
        rejection_entries(p)[2] matches EntryView::TurnFailed { error } && error
            == "tool call rejected by user"@,
{
}

/// Once the answer is in the journal the model of the approval is looked for; a journal that
/// cannot be written to ends the job.
pub proof fn law_answer_leads_on(
    before: ApprovalJobView,
    after: ApprovalJobView,
    step: ApprovalStep,
    written: Result<(), String>,
)
    requires
        is_after_answer(before, after, step, written),
    ensures
        after.pending == before.pending,
        after.turn_id == before.turn_id,
        after.thread_id == before.thread_id,
        match written {
            Ok(_) => after.stage is Resolving && (step matches ApprovalStep::ResolveProvider {
                model,
            } && model@ == before.pending.model),
            Err(e) => after.stage is Ended && (step matches ApprovalStep::Failed { error } && error@
                == RuntimeErrorView::State("journal append failed: "@ + e@)),
        },
{
}

/// Once the end is in the journal the thread is free and the end is stored under its name;
/// before that the thread stays taken.
pub proof fn law_close_frees_the_thread(
    before: ApprovalJobView,
    after: ApprovalJobView,
    step: ApprovalStep,
    threads: Map<Seq<char>, ActiveView>,
    threads_after: Map<Seq<char>, ActiveView>,
    written: Result<(), String>,
)
    requires
        before.stage is Closing,
        is_after_close(before, after, step, threads, threads_after, written),
    ensures
        match written {
            Ok(_) => (after.stage matches ApprovalStage::Updating { status } && status
                == before.stage->Closing_status) && (threads.dom().contains(before.thread_id)
                ==> threads_after[before.thread_id].active_turn is None) && (
            step matches ApprovalStep::UpdateStatus { status } && (
            before.stage->Closing_status is Completed ==> status@ == "completed"@) && (
            before.stage->Closing_status is Failed ==> status@ == "failed"@)),
            Err(e) => after.stage is Ended && threads_after == threads && (
            step matches ApprovalStep::Failed { error } && error@ == RuntimeErrorView::State(
                "journal append failed: "@ + e@,
            )),
        },
{
}

/// A step that appends holds the very entry, one that fails the very error, and one that
/// stores a status names it.
pub proof fn law_approval_steps_hold_what_they_say(
    step: ApprovalStep,
    entry: EntryView,
    error: RuntimeErrorView,
    status: TurnStatus,
)
    ensures
        is_entry(step, entry) ==> (step matches ApprovalStep::Append { entry: e } && e@ == entry),
        is_error(step, error) ==> (step matches ApprovalStep::Failed { error: e } && e@ == error),
        is_status(step, status) ==> (step matches ApprovalStep::UpdateStatus { status: s } && s@
            == records::turn_status_name(status)),
{
}

} // verus!
