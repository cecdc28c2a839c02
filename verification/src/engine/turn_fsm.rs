//! The states of a turn and the ways between them.

use crate::protocol::id::{ThreadId, TurnId};
use crate::text;
use vstd::prelude::*;

verus! {

/// The states of a turn.
#[derive(Debug, Clone, Copy, PartialEq, Eq, Structural)]
pub enum TurnState {
    Started,
    Streaming,
    WaitingForApproval,
    ExecutingTool,
    Completed,
    Failed,
    Interrupted,
}

impl TurnState {
    pub open spec fn terminal(self) -> bool {
        self is Completed || self is Failed || self is Interrupted
    }

    pub open spec fn name(self) -> Seq<char> {
        match self {
            TurnState::Started => "started"@,
            TurnState::Streaming => "streaming"@,
            TurnState::WaitingForApproval => "waiting_for_approval"@,
            TurnState::ExecutingTool => "executing_tool"@,
            TurnState::Completed => "completed"@,
            TurnState::Failed => "failed"@,
            TurnState::Interrupted => "interrupted"@,
        }
    }

    /// The name of the variant.
    pub open spec fn label(self) -> Seq<char> {
        match self {
            TurnState::Started => "Started"@,
            TurnState::Streaming => "Streaming"@,
            TurnState::WaitingForApproval => "WaitingForApproval"@,
            TurnState::ExecutingTool => "ExecutingTool"@,
            TurnState::Completed => "Completed"@,
            TurnState::Failed => "Failed"@,
            TurnState::Interrupted => "Interrupted"@,
        }
    }

    pub fn is_terminal(&self) -> (r: bool)
        ensures
            r == self.terminal(),
    {
        match self {
            TurnState::Completed | TurnState::Failed | TurnState::Interrupted => true,
            _ => false,
        }
    }

    pub fn as_str(&self) -> (r: &'static str)
        ensures
            r@ == self.name(),
    {
        match self {
            TurnState::Started => "started",
            TurnState::Streaming => "streaming",
            TurnState::WaitingForApproval => "waiting_for_approval",
            TurnState::ExecutingTool => "executing_tool",
            TurnState::Completed => "completed",
            TurnState::Failed => "failed",
            TurnState::Interrupted => "interrupted",
        }
    }

    fn variant_name(&self) -> (r: &'static str)
        ensures
            r@ == self.label(),
    {
        match self {
            TurnState::Started => "Started",
            TurnState::Streaming => "Streaming",
            TurnState::WaitingForApproval => "WaitingForApproval",
            TurnState::ExecutingTool => "ExecutingTool",
            TurnState::Completed => "Completed",
            TurnState::Failed => "Failed",
            TurnState::Interrupted => "Interrupted",
        }
    }
}

/// Whether a turn may go from one state to another. Every state may stay as it is or
/// be interrupted.
pub open spec fn may_follow(from: TurnState, to: TurnState) -> bool {
    ||| from == to
    ||| to is Interrupted
    ||| from is Started && to is Streaming
    ||| from is Streaming && (to is WaitingForApproval || to is ExecutingTool || to is Completed
        || to is Failed)
    ||| from is WaitingForApproval && (to is ExecutingTool || to is Failed)
    ||| from is ExecutingTool && (to is Streaming || to is Completed || to is Failed)
}

/// Why a transition was refused.
#[derive(Debug, Clone, Copy, PartialEq, Eq, Structural)]
pub enum TurnFsmError {
    InvalidTransition { from: TurnState, to: TurnState },
}

impl TurnFsmError {
    pub open spec fn message(&self) -> Seq<char> {
        match *self {
            TurnFsmError::InvalidTransition { from, to } => "invalid turn transition: "@
                + from.label() + " -> "@ + to.label(),
        }
    }

    pub fn to_string(&self) -> (r: String)
        ensures
            r@ == self.message(),
    {
        match self {
            TurnFsmError::InvalidTransition { from, to } => {
                let head = text::cat3("invalid turn transition: ", from.variant_name(), " -> ");
                text::cat(head.as_str(), to.variant_name())
            },
        }
    }
}

/// A turn and the state it is in.
#[derive(Debug)]
pub struct TurnStateMachine {
    pub thread_id: ThreadId,
    pub turn_id: TurnId,
    pub state: TurnState,
    pub user_input: String,
}

/// A turn and the state it is in, over plain texts.
pub struct MachineView {
    pub thread_id: Seq<char>,
    pub turn_id: Seq<char>,
    pub state: TurnState,
    pub user_input: Seq<char>,
}

impl View for TurnStateMachine {
    type V = MachineView;

    open spec fn view(&self) -> MachineView {
        MachineView {
            thread_id: self.thread_id@,
            turn_id: self.turn_id@,
            state: self.state,
            user_input: self.user_input@,
        }
    }
}

impl TurnStateMachine {
    pub fn new(thread_id: ThreadId, turn_id: TurnId, user_input: String) -> (r: Self)
        ensures
            r == (TurnStateMachine { thread_id, turn_id, state: TurnState::Started, user_input }),
    {
        TurnStateMachine { thread_id, turn_id, state: TurnState::Started, user_input }
    }

    /// Goes to a new state where that is allowed; a refused transition changes
    /// nothing.
    pub fn transition(&mut self, new_state: TurnState) -> (r: Result<(), TurnFsmError>)
        ensures
            if may_follow(old(self).state, new_state) {
                r is Ok && *final(self) == (TurnStateMachine { state: new_state, ..*old(self) })
            } else {
                r == Err::<(), TurnFsmError>(
                    TurnFsmError::InvalidTransition { from: old(self).state, to: new_state },
                ) && *final(self) == *old(self)
            },
    {
        let valid: bool = match (self.state, new_state) {
            (TurnState::Started, TurnState::Streaming) => true,
            (TurnState::Streaming, TurnState::WaitingForApproval) => true,
            (TurnState::Streaming, TurnState::ExecutingTool) => true,
            (TurnState::Streaming, TurnState::Completed) => true,
            (TurnState::Streaming, TurnState::Failed) => true,
            (TurnState::WaitingForApproval, TurnState::ExecutingTool) => true,
            (TurnState::WaitingForApproval, TurnState::Failed) => true,
            (TurnState::ExecutingTool, TurnState::Streaming) => true,
            (TurnState::ExecutingTool, TurnState::Completed) => true,
            (TurnState::ExecutingTool, TurnState::Failed) => true,
            (_, TurnState::Interrupted) => true,
            (from, to) => from == to,
        };
        if valid {
            self.state = new_state;
            Ok(())
        } else {
            Err(TurnFsmError::InvalidTransition { from: self.state, to: new_state })
        }
    }
}

/// A turn that has ended stays ended: from a terminal state only the same state or an
/// interruption follows, and nothing follows an interruption.
pub proof fn law_terminal_states_hold(from: TurnState, to: TurnState)
    requires
        from.terminal(),
        may_follow(from, to),
    ensures
        to.terminal(),
        to == from || to is Interrupted,
        from is Interrupted ==> to is Interrupted,
{
}

/// A turn is completed only out of streaming or out of a tool, so never before it has
/// streamed; and no turn goes back to its start.
pub proof fn law_completion_needs_streaming(from: TurnState)
    ensures
        may_follow(from, TurnState::Completed) ==> from is Streaming || from is ExecutingTool
            || from is Completed,
        may_follow(from, TurnState::Started) ==> from is Started,
{
}

/// What a turn may do next: it starts by streaming; a stream may wait for an approval, run a
/// tool or end; what waits may run its tool or fail; a tool leads back to the stream or ends
/// the turn. Any turn may be interrupted or stay as it is, and nothing else.
pub proof fn law_ways_of_a_turn(from: TurnState, to: TurnState)
    ensures
        may_follow(from, from),
        may_follow(from, TurnState::Interrupted),
        may_follow(TurnState::Started, to) <==> (to is Started || to is Streaming
            || to is Interrupted),
        may_follow(TurnState::Streaming, to) <==> !(to is Started),
        may_follow(TurnState::WaitingForApproval, to) <==> (to is WaitingForApproval
            || to is ExecutingTool || to is Failed || to is Interrupted),
        may_follow(TurnState::ExecutingTool, to) <==> (to is ExecutingTool || to is Streaming
            || to is Completed || to is Failed || to is Interrupted),
        from.terminal() <==> (from is Completed || from is Failed || from is Interrupted),
{
}

/// A refused transition names both states.
pub proof fn law_refusal_names_both_states(e: TurnFsmError)
    ensures
        e matches TurnFsmError::InvalidTransition { from, to } ==> e.message()
            == "invalid turn transition: "@ + from.label() + " -> "@ + to.label(),
{
}

/// The states have names of their own.
pub proof fn law_states_are_named(s: TurnState)
    ensures
        s is Started ==> s.name() == "started"@ && s.label() == "Started"@,
        s is Streaming ==> s.name() == "streaming"@ && s.label() == "Streaming"@,
        s is WaitingForApproval ==> s.name() == "waiting_for_approval"@ && s.label()
            == "WaitingForApproval"@,
        s is ExecutingTool ==> s.name() == "executing_tool"@ && s.label() == "ExecutingTool"@,
        s is Completed ==> s.name() == "completed"@ && s.label() == "Completed"@,
        s is Failed ==> s.name() == "failed"@ && s.label() == "Failed"@,
        s is Interrupted ==> s.name() == "interrupted"@ && s.label() == "Interrupted"@,
{
}

} // verus!
