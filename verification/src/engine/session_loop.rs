//! The loop of a session: it takes submissions one after the other and hands each to the
//! handler, so that the operations of a thread keep their order.

use crate::protocol::event::{Event, EventMsg, MsgView, SessionEventView};
use crate::protocol::id;
use crate::protocol::id::ThreadId;
use crate::protocol::op::{op_thread_id, Op, Submission, SubmissionId};
use crate::text;
use vstd::prelude::*;

verus! {

/// What handles the submissions of a session.
pub trait OpHandler {
    /// Handles a submission, and returns the events to report on it.
    fn handle_op(&mut self, submission: Submission) -> Vec<Event>;
}

/// Errors of a session loop.
#[derive(Debug, Clone, Copy, PartialEq, Eq, Structural)]
pub enum SessionLoopError {
    /// Nobody takes submissions any more.
    Closed,
}

impl SessionLoopError {
    pub fn to_string(&self) -> (r: String)
        ensures
            r@ == "session loop closed"@,
    {
        text::owned("session loop closed")
    }
}

/// Makes a submission of an operation, under a new id.
pub fn submission_of(op: Op) -> (r: Submission)
    ensures
        r.op == op,
        id::is_fresh_id(r.id@, "sub-"@),
{
    Submission { id: SubmissionId::new(), op }
}

/// The events of the session about a submission: it was accepted, and it is done with.
pub open spec fn accepted_event(submission: Submission) -> SessionEventView {
    SessionEventView {
        id: submission.id@,
        msg: MsgView::SubmissionStarted { thread_id: submission.op.thread()@ },
    }
}

pub open spec fn done_event(submission: Submission) -> SessionEventView {
    SessionEventView {
        id: submission.id@,
        msg: MsgView::SubmissionCompleted { thread_id: submission.op.thread()@ },
    }
}

/// Frames the work on a submission: the events to send before and after it.
pub fn frame_submission(submission: &Submission) -> (r: (Event, Event))
    ensures
        r.0@ == accepted_event(*submission),
        r.1@ == done_event(*submission),
{
    let thread_id = op_thread_id(&submission.op);
    (
        Event {
            id: submission.id.clone(),
            msg: EventMsg::SubmissionStarted { thread_id: thread_id.clone() },
        },
        Event { id: submission.id.clone(), msg: EventMsg::SubmissionCompleted { thread_id } },
    )
}

/// Puts what a handler reported between the two events of its submission.
pub fn enclose(frame: (Event, Event), reported: Vec<Event>) -> (r: Vec<Event>)
    ensures
        r@ == seq![frame.0] + reported@ + seq![frame.1],
{
    let mut events: Vec<Event> = Vec::new();
    let mut inner = reported;
    events.push(frame.0);
    events.append(&mut inner);
    events.push(frame.1);
    assert(events@ =~= seq![frame.0] + reported@ + seq![frame.1]);
    events
}

/// The loop of one session.
#[derive(Debug)]
pub struct SessionLoop {
    thread_id: ThreadId,
}

impl SessionLoop {
    pub closed spec fn thread(&self) -> ThreadId {
        self.thread_id
    }

    pub fn new(thread_id: ThreadId) -> (r: Self)
        ensures
            r.thread() == thread_id,
    {
        SessionLoop { thread_id }
    }

    /// Works on one submission: the handler gets it, and all that it reports stands, in its
    /// order, between the two events of the session.
    pub fn process<H: OpHandler>(&self, handler: &mut H, submission: Submission) -> (r: Vec<Event>)
        ensures
            r@.len() >= 2,
            r@.first()@ == accepted_event(submission),
            r@.last()@ == done_event(submission),
            exists|h: &mut H, reported: Vec<Event>|
                #![trigger call_ensures(H::handle_op, (h, submission), reported)]
                call_ensures(H::handle_op, (h, submission), reported) && *h == *old(handler)
                    && *final(h) == *final(handler) && r@.len() == reported@.len() + 2
                    && r@.subrange(1, r@.len() - 1) == reported@,
    {
        let frame = frame_submission(&submission);
        let reported = handler.handle_op(submission);
        enclose(frame, reported)
    }

    /// The event that reports the end of the session, under a given id.
    pub fn closed_event(&self, id: SubmissionId) -> (r: Event)
        ensures
            r@ == (SessionEventView {
                id: id@,
                msg: MsgView::StreamClosed { thread_id: self.thread()@ },
            }),
    {
        Event { id, msg: EventMsg::StreamClosed { thread_id: self.thread_id.clone() } }
    }
}

/// The events of the session about a submission carry its id and name the thread of its
/// operation.
pub proof fn law_session_names_the_submission(submission: Submission)
    ensures
        accepted_event(submission).id == submission.id@,
        accepted_event(submission).msg matches MsgView::SubmissionStarted { thread_id }
            && thread_id == submission.op.thread()@,
        done_event(submission).id == submission.id@,
        done_event(submission).msg matches MsgView::SubmissionCompleted { thread_id } && thread_id
            == submission.op.thread()@,
{
}

} // verus!
