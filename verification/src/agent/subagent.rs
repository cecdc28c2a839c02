//! Sub-agents: a task that runs as a turn of its own.

use super::config::{RunTurnRequest, TurnConfig};
use super::effect;
use super::effect::{EffectView, TurnEffect};
use super::turn::{TurnError, TurnErrorView, TurnResult};
use crate::context::request_compiler::TurnRequestKind;
use crate::engine::agent_control::AgentControl;
use crate::journal::{EntryView, JournalEntry};
use crate::model::ModelMessage;
use crate::protocol::agent::{AgentPath, InterAgentMessage};
use crate::protocol::event::{EventFrame, FrameView};
use crate::protocol::id;
use crate::protocol::id::{SubagentId, ThreadId, TurnId};
use crate::text;
use vstd::prelude::*;

verus! {

/// What a sub-agent came back with.
#[derive(Debug)]
pub struct SubagentResult {
    pub subagent_id: SubagentId,
    pub answer: String,
}

/// A sub-agent about to run.
#[derive(Debug)]
pub struct SubagentPlan {
    pub subagent_id: SubagentId,
    pub child_thread_id: ThreadId,
    /// The effects on the thread of the parent.
    pub effects: Vec<TurnEffect>,
    /// The turn of the child.
    pub request: RunTurnRequest,
}

/// The end of a sub-agent.
#[derive(Debug)]
pub struct SubagentEnd {
    /// The effects on the thread of the parent.
    pub effects: Vec<TurnEffect>,
    /// What is sent to the parent, if anything.
    pub message: Option<InterAgentMessage>,
    pub result: Result<SubagentResult, TurnError>,
}

/// The journal is told of a sub-agent twice: by the frame that hosts see, and by an
/// entry of its own.
pub open spec fn spawned_effects(
    parent_turn_id: Seq<char>,
    subagent_id: Seq<char>,
    task: Seq<char>,
) -> Seq<EffectView> {
    effect::emitted(FrameView::SubagentSpawned { parent_turn_id, subagent_id, task })
        + effect::appended(
        parent_turn_id,
        EntryView::SubagentSpawned { parent_turn_id, subagent_id, task },
    )
}

pub open spec fn completed_effects(
    parent_turn_id: Seq<char>,
    subagent_id: Seq<char>,
    result_summary: Seq<char>,
) -> Seq<EffectView> {
    effect::emitted(FrameView::SubagentCompleted { parent_turn_id, subagent_id, result_summary })
        + effect::appended(
        parent_turn_id,
        EntryView::SubagentCompleted { parent_turn_id, subagent_id, result_summary },
    )
}

pub open spec fn failed_effects(
    parent_turn_id: Seq<char>,
    subagent_id: Seq<char>,
    error: Seq<char>,
) -> Seq<EffectView> {
    effect::emitted(FrameView::SubagentFailed { parent_turn_id, subagent_id, error })
        + effect::appended(
        parent_turn_id,
        EntryView::SubagentFailed { parent_turn_id, subagent_id, error },
    )
}

/// Whether the limits let a sub-agent be spawned; without limits it always may.
pub open spec fn may_spawn(control: Option<&AgentControl>) -> bool {
    control matches Some(c) ==> c.max_depth > 0
}

impl SubagentPlan {
    /// Whether a plan is the one for a task.
    pub open spec fn is_for(
        &self,
        parent_turn_id: Seq<char>,
        task: Seq<char>,
        config: TurnConfig,
    ) -> bool {
        &&& effect::effects(self.effects@) == spawned_effects(
            parent_turn_id,
            self.subagent_id@,
            task,
        )
        &&& self.request.kind == TurnRequestKind::NewTurn
        &&& self.request.thread_id@ == self.child_thread_id@
        &&& self.request.user_input@ == task
        &&& self.request.config == config
        &&& self.request.conversation_history@ == Seq::<ModelMessage>::empty()
        &&& self.request.reasoning_to_replay is None
        &&& !self.request.use_approval_store
        &&& !self.request.recording
    }
}

/// Plans a sub-agent with new ids.
pub fn spawn_subagent(
    parent_turn_id: &TurnId,
    task: String,
    config: TurnConfig,
    control: Option<&AgentControl>,
) -> (r: Result<SubagentPlan, TurnError>)
    ensures
        r is Ok <==> may_spawn(control),
        r matches Ok(plan) ==> plan.is_for(parent_turn_id@, task@, config) && id::is_fresh_id(
            plan.subagent_id@,
            "subagent-"@,
        ) && id::is_fresh_id(plan.child_thread_id@, "thread-"@) && id::is_fresh_id(
            plan.request.turn_id@,
            "turn-"@,
        ),
        r matches Err(e) ==> e@ == TurnErrorView::ProviderError("agent spawn limit reached"@),
{
    spawn_subagent_with(
        parent_turn_id,
        task,
        config,
        control,
        SubagentId::new(),
        ThreadId::new(),
        TurnId::new(),
    )
}

/// Plans a sub-agent with the given ids.
pub fn spawn_subagent_with(
    parent_turn_id: &TurnId,
    task: String,
    config: TurnConfig,
    control: Option<&AgentControl>,
    subagent_id: SubagentId,
    child_thread_id: ThreadId,
    child_turn_id: TurnId,
) -> (r: Result<SubagentPlan, TurnError>)
    ensures
        r is Ok <==> may_spawn(control),
        r matches Ok(plan) ==> plan.is_for(parent_turn_id@, task@, config) && plan.subagent_id
            == subagent_id && plan.child_thread_id == child_thread_id && plan.request.turn_id
            == child_turn_id,
        r matches Err(e) ==> e@ == TurnErrorView::ProviderError("agent spawn limit reached"@),
{
    if let Some(c) = control {
        if !c.can_spawn(0) {
            return Err(TurnError::ProviderError(text::owned("agent spawn limit reached")));
        }
    }
    let mut out: Vec<TurnEffect> = Vec::new();
    assert(effect::effects(out@) =~= Seq::empty());
    effect::emit(
        &mut out,
        EventFrame::SubagentSpawned {
            parent_turn_id: parent_turn_id.clone(),
            subagent_id: subagent_id.clone(),
            task: task.clone(),
        },
    );
    effect::append(
        &mut out,
        parent_turn_id.clone(),
        JournalEntry::SubagentSpawned {
            parent_turn_id: parent_turn_id.clone(),
            subagent_id: subagent_id.clone(),
            task: task.clone(),
        },
    );
    assert(effect::effects(out@) =~= spawned_effects(parent_turn_id@, subagent_id@, task@));
    Ok(
        SubagentPlan {
            subagent_id,
            effects: out,
            request: RunTurnRequest {
                kind: TurnRequestKind::NewTurn,
                thread_id: child_thread_id.clone(),
                turn_id: child_turn_id,
                user_input: task,
                config,
                conversation_history: Vec::new(),
                reasoning_to_replay: None,
                use_approval_store: false,
                recording: false,
            },
            child_thread_id,
        },
    )
}

/// Ends a sub-agent. A completed turn is reported to the parent with its answer. A turn
/// that stopped for approval counts as a failure, described by `shown`, but is no error;
/// a turn that failed is both.
pub fn conclude_subagent(
    parent_turn_id: &TurnId,
    subagent_id: SubagentId,
    outcome: Result<TurnResult, TurnError>,
    shown: &str,
) -> (r: SubagentEnd)
    ensures
        match outcome {
            Ok(TurnResult::Completed { answer, .. }) => {
                &&& effect::effects(r.effects@) == completed_effects(
                    parent_turn_id@,
                    subagent_id@,
                    answer@,
                )
                &&& r.message matches Some(m) && m.author@ == "/root/"@ + subagent_id@
                    && m.recipient@ == "/root"@ && m.other_recipients@.len() == 0 && m.content@
                    == answer@ && m.trigger_turn
                &&& r.result matches Ok(s) && s.subagent_id == subagent_id && s.answer@ == answer@
            },
            Ok(TurnResult::NeedsApproval { .. }) => {
                &&& effect::effects(r.effects@) == failed_effects(
                    parent_turn_id@,
                    subagent_id@,
                    "unexpected turn result: "@ + shown@,
                )
                &&& r.message is None
                &&& r.result matches Ok(s) && s.subagent_id == subagent_id && s.answer@
                    == "sub-agent did not complete normally"@
            },
            Err(e) => {
                &&& effect::effects(r.effects@) == failed_effects(
                    parent_turn_id@,
                    subagent_id@,
                    e.message(),
                )
                &&& r.message is None
                &&& r.result == Err::<SubagentResult, TurnError>(e)
            },
        },
{
    let mut out: Vec<TurnEffect> = Vec::new();
    assert(effect::effects(out@) =~= Seq::empty());
    match outcome {
        Ok(TurnResult::Completed { answer, .. }) => {
            let path = text::cat("/root/", subagent_id.as_str());
            let message = InterAgentMessage {
                author: AgentPath::from_string(path.as_str()),
                recipient: AgentPath::root(),
                other_recipients: Vec::new(),
                content: answer.clone(),
                trigger_turn: true,
            };
            effect::emit(
                &mut out,
                EventFrame::SubagentCompleted {
                    parent_turn_id: parent_turn_id.clone(),
                    subagent_id: subagent_id.clone(),
                    result_summary: answer.clone(),
                },
            );
            effect::append(
                &mut out,
                parent_turn_id.clone(),
                JournalEntry::SubagentCompleted {
                    parent_turn_id: parent_turn_id.clone(),
                    subagent_id: subagent_id.clone(),
                    result_summary: answer.clone(),
                },
            );
            assert(effect::effects(out@) =~= completed_effects(
                parent_turn_id@,
                subagent_id@,
                answer@,
            ));
            SubagentEnd {
                effects: out,
                message: Some(message),
                result: Ok(SubagentResult { subagent_id, answer }),
            }
        },
        Ok(TurnResult::NeedsApproval { .. }) => {
            let error = text::cat("unexpected turn result: ", shown);
            fail(&mut out, parent_turn_id, &subagent_id, error);
            SubagentEnd {
                effects: out,
                message: None,
                result: Ok(
                    SubagentResult {
                        subagent_id,
                        answer: text::owned("sub-agent did not complete normally"),
                    },
                ),
            }
        },
        Err(e) => {
            let error = e.to_string();
            fail(&mut out, parent_turn_id, &subagent_id, error);
            SubagentEnd { effects: out, message: None, result: Err(e) }
        },
    }
}

fn fail(
    out: &mut Vec<TurnEffect>,
    parent_turn_id: &TurnId,
    subagent_id: &SubagentId,
    error: String,
)
    requires
        effect::effects(old(out)@) == Seq::<EffectView>::empty(),
    ensures
        effect::effects(final(out)@) == failed_effects(parent_turn_id@, subagent_id@, error@),
{
    effect::emit(
        out,
        EventFrame::SubagentFailed {
            parent_turn_id: parent_turn_id.clone(),
            subagent_id: subagent_id.clone(),
            error: error.clone(),
        },
    );
    effect::append(
        out,
        parent_turn_id.clone(),
        JournalEntry::SubagentFailed {
            parent_turn_id: parent_turn_id.clone(),
            subagent_id: subagent_id.clone(),
            error: error.clone(),
        },
    );
    assert(effect::effects(out@) =~= failed_effects(parent_turn_id@, subagent_id@, error@));
}

/// The journal of the parent is told twice of a sub-agent that is spawned, each time with its
/// id and its very task.
pub proof fn law_spawn_is_told(parent_turn_id: Seq<char>, subagent_id: Seq<char>, task: Seq<char>)
    ensures
        spawned_effects(parent_turn_id, subagent_id, task).len() == 2,
        forall|i: int|
            0 <= i < 2 ==> (#[trigger] spawned_effects(
                parent_turn_id,
                subagent_id,
                task,
            )[i] matches EffectView::Append {
                turn_id,
                entry: EntryView::SubagentSpawned { parent_turn_id: p, subagent_id: s, task: t },
            } && turn_id == parent_turn_id && p == parent_turn_id && s == subagent_id && t == task),
{
}

/// It is told twice of the answer of a sub-agent that completed, and of the error of one
/// that failed, each time in full.
pub proof fn law_end_is_told(parent_turn_id: Seq<char>, subagent_id: Seq<char>, what: Seq<char>)
    ensures
        completed_effects(parent_turn_id, subagent_id, what).len() == 2,
        forall|i: int|
            0 <= i < 2 ==> (#[trigger] completed_effects(
                parent_turn_id,
                subagent_id,
                what,
            )[i] matches EffectView::Append {
                turn_id,
                entry: EntryView::SubagentCompleted {
                    parent_turn_id: p,
                    subagent_id: s,
                    result_summary: t,
                },
            } && turn_id == parent_turn_id && p == parent_turn_id && s == subagent_id && t == what),
        failed_effects(parent_turn_id, subagent_id, what).len() == 2,
        forall|i: int|
            0 <= i < 2 ==> (#[trigger] failed_effects(
                parent_turn_id,
                subagent_id,
                what,
            )[i] matches EffectView::Append {
                turn_id,
                entry: EntryView::SubagentFailed { parent_turn_id: p, subagent_id: s, error: t },
            } && turn_id == parent_turn_id && p == parent_turn_id && s == subagent_id && t == what),
{
}

/// A sub-agent runs its task as a new turn of its own thread, with the settings it was given
/// and without the history of its parent.
pub proof fn law_subagent_runs_its_task(
    plan: SubagentPlan,
    parent_turn_id: Seq<char>,
    task: Seq<char>,
    config: TurnConfig,
)
    requires
        plan.is_for(parent_turn_id, task, config),
    ensures
        plan.request.user_input@ == task,
        plan.request.kind is NewTurn,
        plan.request.thread_id@ == plan.child_thread_id@,
        plan.request.config == config,
        plan.request.conversation_history@.len() == 0,
        plan.request.reasoning_to_replay is None,
        !plan.request.use_approval_store,
        !plan.request.recording,
        effect::effects(plan.effects@) == spawned_effects(parent_turn_id, plan.subagent_id@, task),
{
}

/// Without limits a sub-agent may always be spawned; with limits only where some depth is
/// allowed.
pub proof fn law_limits_decide(control: Option<&AgentControl>)
    ensures
        control is None ==> may_spawn(control),
        control matches Some(c) ==> (may_spawn(control) <==> c.max_depth >= 1),
{
}

} // verus!
