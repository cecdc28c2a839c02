//! The coordinator of operations: it hands each to the service that carries it out and
//! reports its whole life on the event queue of the session.

use super::session_loop;
use super::session_loop::OpHandler;
use crate::protocol::event::{Event, EventMsg, MsgView, SessionEventView};
use crate::protocol::id::{ThreadId, TurnId};
use crate::protocol::op;
use crate::protocol::op::{Op, Submission, SubmissionId};
use crate::text;
use vstd::prelude::*;

verus! {

/// The services that carry operations out.
pub trait TurnServices {
    /// Runs a new turn on a thread.
    fn handle_user_input(
        &mut self,
        thread_id: ThreadId,
        text_input: String,
        model: Option<String>,
        submission_id: SubmissionId,
    ) -> Result<TurnOpResult, TurnOpError>;

    /// Decides a pending approval.
    fn handle_approval(
        &mut self,
        thread_id: ThreadId,
        approval_id: String,
        approved: bool,
        submission_id: SubmissionId,
    ) -> Result<TurnOpResult, TurnOpError>;

    /// Cancels the active turn.
    fn handle_cancel(&mut self, thread_id: ThreadId, submission_id: SubmissionId) -> Result<
        TurnOpResult,
        TurnOpError,
    >;

    /// Compacts the history of a thread.
    fn handle_compact(&mut self, thread_id: ThreadId, submission_id: SubmissionId) -> Result<
        TurnOpResult,
        TurnOpError,
    >;

    /// Steers the active turn.
    fn handle_steer(
        &mut self,
        thread_id: ThreadId,
        steer_text: String,
        submission_id: SubmissionId,
    ) -> Result<TurnOpResult, TurnOpError>;
}

/// What a carried-out operation came to.
#[derive(Debug, Clone)]
pub struct TurnOpResult {
    pub thread_id: ThreadId,
    pub turn_id: Option<TurnId>,
    pub status: String,
    pub user_input: String,
}

impl TurnOpResult {
    pub fn ok(thread_id: ThreadId, turn_id: Option<TurnId>, status: &str) -> (r: Self)
        ensures
            r.thread_id == thread_id,
            r.turn_id == turn_id,
            r.status@ == status@,
            r.user_input@ == ""@,
    {
        TurnOpResult {
            thread_id,
            turn_id,
            status: text::owned(status),
            user_input: text::owned(""),
        }
    }
}

/// The failure of an operation.
#[derive(Debug, Clone)]
pub struct TurnOpError {
    pub thread_id: ThreadId,
    pub error: String,
}

impl TurnOpError {
    pub fn new(thread_id: ThreadId, error: String) -> (r: Self)
        ensures
            r == (TurnOpError { thread_id, error }),
    {
        TurnOpError { thread_id, error }
    }

    pub fn to_string(&self) -> (r: String)
        ensures
            r@ == self.error@,
    {
        self.error.clone()
    }
}

/// The service that an operation asks for, with its arguments.
#[derive(Debug, Clone)]
pub enum OpCall {
    UserInput { thread_id: ThreadId, text: String, model: Option<String> },
    Approval { thread_id: ThreadId, approval_id: String, approved: bool },
    Cancel { thread_id: ThreadId },
    Compact { thread_id: ThreadId },
    Steer { thread_id: ThreadId, text: String },
}

/// A service with its arguments, over plain texts.
pub enum OpCallView {
    UserInput { thread_id: Seq<char>, text: Seq<char>, model: Option<Seq<char>> },
    Approval { thread_id: Seq<char>, approval_id: Seq<char>, approved: bool },
    Cancel { thread_id: Seq<char> },
    Compact { thread_id: Seq<char> },
    Steer { thread_id: Seq<char>, text: Seq<char> },
}

impl View for OpCall {
    type V = OpCallView;

    open spec fn view(&self) -> OpCallView {
        match *self {
            OpCall::UserInput { thread_id, text, model } => OpCallView::UserInput {
                thread_id: thread_id@,
                text: text@,
                model: text::opt_text(model),
            },
            OpCall::Approval { thread_id, approval_id, approved } => OpCallView::Approval {
                thread_id: thread_id@,
                approval_id: approval_id@,
                approved,
            },
            OpCall::Cancel { thread_id } => OpCallView::Cancel { thread_id: thread_id@ },
            OpCall::Compact { thread_id } => OpCallView::Compact { thread_id: thread_id@ },
            OpCall::Steer { thread_id, text } => OpCallView::Steer {
                thread_id: thread_id@,
                text: text@,
            },
        }
    }
}

/// The service that an operation asks for. Of an input only the first text is taken.
pub open spec fn call_of(o: Op) -> OpCallView {
    match o {
        Op::UserInput { thread_id, input, settings } => OpCallView::UserInput {
            thread_id: thread_id@,
            text: op::first_text(input@),
            model: text::opt_text(settings.model),
        },
        Op::SteerInput { thread_id, input } => OpCallView::Steer {
            thread_id: thread_id@,
            text: op::first_text(input@),
        },
        Op::ApprovalDecision { thread_id, approval_id, approved } => OpCallView::Approval {
            thread_id: thread_id@,
            approval_id: approval_id@,
            approved,
        },
        Op::Cancel { thread_id } => OpCallView::Cancel { thread_id: thread_id@ },
        Op::Compact { thread_id } => OpCallView::Compact { thread_id: thread_id@ },
    }
}

/// The message that reports the end of an operation.
pub open spec fn end_message(result: Result<TurnOpResult, TurnOpError>) -> MsgView {
    match result {
        Ok(o) => MsgView::OpCompleted {
            thread_id: o.thread_id@,
            turn_id: (match o.turn_id {
                Some(t) => Some(t@),
                None => None,
            }),
            status: o.status@,
            user_input: o.user_input@,
        },
        Err(e) => MsgView::OpFailed { thread_id: e.thread_id@, error: e.error@ },
    }
}

/// The event that reports the start of a submission's operation.
pub open spec fn start_event(submission: Submission) -> SessionEventView {
    SessionEventView {
        id: submission.id@,
        msg: MsgView::OpStarted { thread_id: submission.op.thread()@ },
    }
}

/// Begins an operation: the event that reports its start, and the service it asks for.
pub fn begin_op(submission: Submission) -> (r: (Event, OpCall))
    ensures
        r.0@ == start_event(submission),
        r.1@ == call_of(submission.op),
{
    let event = Event {
        id: submission.id.clone(),
        msg: EventMsg::OpStarted { thread_id: op::op_thread_id(&submission.op) },
    };
    let call = match submission.op {
        Op::UserInput { thread_id, input, settings } => OpCall::UserInput {
            thread_id,
            text: op::find_text(&input),
            model: settings.model,
        },
        Op::SteerInput { thread_id, input } => OpCall::Steer {
            thread_id,
            text: op::find_text(&input),
        },
        Op::ApprovalDecision { thread_id, approval_id, approved } => OpCall::Approval {
            thread_id,
            approval_id,
            approved,
        },
        Op::Cancel { thread_id } => OpCall::Cancel { thread_id },
        Op::Compact { thread_id } => OpCall::Compact { thread_id },
    };
    (event, call)
}

/// Ends an operation: the event that reports how it went.
pub fn end_op(id: SubmissionId, result: Result<TurnOpResult, TurnOpError>) -> (r: Event)
    ensures
        r@ == (SessionEventView { id: id@, msg: end_message(result) }),
{
    let msg = match result {
        Ok(o) => EventMsg::OpCompleted {
            thread_id: o.thread_id,
            turn_id: o.turn_id,
            status: o.status,
            user_input: o.user_input,
        },
        Err(e) => EventMsg::OpFailed { thread_id: e.thread_id, error: e.error },
    };
    Event { id, msg }
}

/// The coordinator, with the services it calls.
#[derive(Debug)]
pub struct TurnCoordinator<S> {
    services: S,
}

impl<S> TurnCoordinator<S> {
    pub closed spec fn served_by(&self) -> S {
        self.services
    }

    pub fn new(services: S) -> (r: Self)
        ensures
            r.served_by() == services,
    {
        TurnCoordinator { services }
    }
}

/// The life of an operation on the event queue: its start and then exactly one end, both
/// under the id of the submission.
pub open spec fn is_life(submission: Submission, events: Seq<Event>) -> bool {
    &&& events.len() == 2
    &&& events[0]@ == start_event(submission)
    &&& events[1]@.id == submission.id@
    &&& events[1]@.msg is OpCompleted || events[1]@.msg is OpFailed
}

impl<S: TurnServices> OpHandler for TurnCoordinator<S> {
    /// Hands the operation to the service it asks for, once and with its own arguments, and
    /// reports what that service answered.
    fn handle_op(&mut self, submission: Submission) -> (r: Vec<Event>)
        ensures
            is_life(submission, r@),
            match call_of(submission.op) {
                OpCallView::UserInput { thread_id, text, model } => exists|
                    s: &mut S,
                    t: ThreadId,
                    x: String,
                    m: Option<String>,
                    i: SubmissionId,
                    result: Result<TurnOpResult, TurnOpError>,
                |
                    #![trigger call_ensures(S::handle_user_input, (s, t, x, m, i), result)]
                    call_ensures(S::handle_user_input, (s, t, x, m, i), result) && *s == old(
                        self,
                    ).served_by() && *final(s) == final(self).served_by() && t@ == thread_id && x@
                        == text && text::opt_text(m) == model && i@ == submission.id@ && r@[1]@.msg
                        == end_message(result),
                OpCallView::Approval { thread_id, approval_id, approved } => exists|
                    s: &mut S,
                    t: ThreadId,
                    a: String,
                    b: bool,
                    i: SubmissionId,
                    result: Result<TurnOpResult, TurnOpError>,
                |
                    #![trigger call_ensures(S::handle_approval, (s, t, a, b, i), result)]
                    call_ensures(S::handle_approval, (s, t, a, b, i), result) && *s == old(
                        self,
                    ).served_by() && *final(s) == final(self).served_by() && t@ == thread_id && a@
                        == approval_id && b == approved && i@ == submission.id@ && r@[1]@.msg
                        == end_message(result),
                OpCallView::Cancel { thread_id } => exists|
                    s: &mut S,
                    t: ThreadId,
                    i: SubmissionId,
                    result: Result<TurnOpResult, TurnOpError>,
                |
                    #![trigger call_ensures(S::handle_cancel, (s, t, i), result)]
                    call_ensures(S::handle_cancel, (s, t, i), result) && *s == old(
                        self,
                    ).served_by() && *final(s) == final(self).served_by() && t@ == thread_id && i@
                        == submission.id@ && r@[1]@.msg == end_message(result),
                OpCallView::Compact { thread_id } => exists|
                    s: &mut S,
                    t: ThreadId,
                    i: SubmissionId,
                    result: Result<TurnOpResult, TurnOpError>,
                |
                    #![trigger call_ensures(S::handle_compact, (s, t, i), result)]
                    call_ensures(S::handle_compact, (s, t, i), result) && *s == old(
                        self,
                    ).served_by() && *final(s) == final(self).served_by() && t@ == thread_id && i@
                        == submission.id@ && r@[1]@.msg == end_message(result),
                OpCallView::Steer { thread_id, text } => exists|
                    s: &mut S,
                    t: ThreadId,
                    x: String,
                    i: SubmissionId,
                    result: Result<TurnOpResult, TurnOpError>,
                |
                    #![trigger call_ensures(S::handle_steer, (s, t, x, i), result)]
                    call_ensures(S::handle_steer, (s, t, x, i), result) && *s == old(
                        self,
                    ).served_by() && *final(s) == final(self).served_by() && t@ == thread_id && x@
                        == text && i@ == submission.id@ && r@[1]@.msg == end_message(result),
            },
    {
        let id = submission.id.clone();
        let (started, call) = begin_op(submission);
        let result = match call {
            OpCall::UserInput { thread_id, text, model } => self.services.handle_user_input(
                thread_id,
                text,
                model,
                id.clone(),
            ),
            OpCall::Approval { thread_id, approval_id, approved } => self.services.handle_approval(
                thread_id,
                approval_id,
                approved,
                id.clone(),
            ),
            OpCall::Cancel { thread_id } => self.services.handle_cancel(thread_id, id.clone()),
            OpCall::Compact { thread_id } => self.services.handle_compact(thread_id, id.clone()),
            OpCall::Steer { thread_id, text } => self.services.handle_steer(
                thread_id,
                text,
                id.clone(),
            ),
        };
        let mut events: Vec<Event> = Vec::new();
        events.push(started);
        events.push(end_op(id, result));
        events
    }
}

/// Every event of a submission carries its id: what is reported of the life of an operation,
/// and the two events of the session around it.
pub proof fn law_events_carry_the_id(submission: Submission, reported: Seq<Event>, all: Seq<Event>)
    requires
        is_life(submission, reported),
        all.len() == reported.len() + 2,
        all.first()@ == session_loop::accepted_event(submission),
        all.subrange(1, all.len() - 1) == reported,
        all.last()@ == session_loop::done_event(submission),
    ensures
        all.len() == 4,
        all[0]@.msg is SubmissionStarted,
        all[1]@.msg is OpStarted,
        all[2]@.msg is OpCompleted || all[2]@.msg is OpFailed,
        all[3]@.msg is SubmissionCompleted,
        forall|i: int| 0 <= i < all.len() ==> (#[trigger] all[i])@.id == submission.id@,
{
    assert(all[1] == reported[0]);
    assert(all[2] == reported[1]);
}

/// No operation is lost: the service that is called gets the thread of the operation.
pub proof fn law_call_keeps_thread(o: Op)
    ensures
        match call_of(o) {
            OpCallView::UserInput { thread_id, .. } => o is UserInput && thread_id == o.thread()@,
            OpCallView::Approval { thread_id, .. } => o is ApprovalDecision && thread_id
                == o.thread()@,
            OpCallView::Cancel { thread_id } => o is Cancel && thread_id == o.thread()@,
            OpCallView::Compact { thread_id } => o is Compact && thread_id == o.thread()@,
            OpCallView::Steer { thread_id, .. } => o is SteerInput && thread_id == o.thread()@,
        },
{
}

/// A service gets the arguments of the operation: the first text of an input and the model
/// that its settings name, or the approval and its answer.
pub proof fn law_services_get_the_arguments(o: Op)
    ensures
        o matches Op::UserInput { thread_id, input, settings } ==> (
        call_of(o) matches OpCallView::UserInput { thread_id: t, text, model } && t == thread_id@
            && text == op::first_text(input@) && (settings.model matches Some(m) ==> model
            == Some(m@)) && (settings.model is None ==> model is None)),
        o matches Op::SteerInput { thread_id, input } ==> (call_of(o) matches OpCallView::Steer {
            thread_id: t,
            text,
        } && t == thread_id@ && text == op::first_text(input@)),
        o matches Op::ApprovalDecision { thread_id, approval_id, approved } ==> (
        call_of(o) matches OpCallView::Approval { thread_id: t, approval_id: a, approved: b } && t
            == thread_id@ && a == approval_id@ && b == approved),
        o matches Op::Cancel { thread_id } ==> (call_of(o) matches OpCallView::Cancel {
            thread_id: t,
        } && t == thread_id@),
        o matches Op::Compact { thread_id } ==> (call_of(o) matches OpCallView::Compact {
            thread_id: t,
        } && t == thread_id@),
{
}

/// The end of an operation is reported as the service answered it: what it completed with,
/// word for word, or the error with which it failed.
pub proof fn law_answers_are_reported(result: Result<TurnOpResult, TurnOpError>)
    ensures
        result matches Ok(o) ==> (end_message(result) matches MsgView::OpCompleted {
            thread_id,
            turn_id,
            status,
            user_input,
        } && thread_id == o.thread_id@ && (o.turn_id matches Some(t) ==> turn_id == Some(t@)) && (
        o.turn_id is None ==> turn_id is None) && status == o.status@ && user_input
            == o.user_input@),
        result matches Err(e) ==> (end_message(result) matches MsgView::OpFailed {
            thread_id,
            error,
        } && thread_id == e.thread_id@ && error == e.error@),
{
}

/// The start of an operation is reported under the id of its submission, for its thread.
pub proof fn law_start_is_reported(submission: Submission)
    ensures
        start_event(submission).id == submission.id@,
        start_event(submission).msg matches MsgView::OpStarted { thread_id } && thread_id
            == submission.op.thread()@,
{
}

} // verus!
