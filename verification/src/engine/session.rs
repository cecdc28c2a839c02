//! Active sessions, one for each thread. A session has a loop that takes submissions and
//! at most one reader of its events.

use super::session_loop::{submission_of, SessionLoopError};
use crate::protocol::id;
use crate::protocol::id::ThreadId;
use crate::protocol::op::{Op, Submission};
use crate::table::Table;
use vstd::prelude::*;

verus! {

/// An active session: its thread, the handle of its loop, and the receiver of its events
/// while nobody holds it.
#[derive(Debug)]
pub struct SessionHandle<L, R> {
    pub thread_id: ThreadId,
    pub session_loop: L,
    pub events: Option<R>,
}

/// The active sessions by thread.
#[derive(Debug)]
pub struct SessionManager<L, R> {
    sessions: Table<SessionHandle<L, R>>,
}

/// The sessions after the receiver of one was put or taken.
pub open spec fn with_events<L, R>(
    m: Map<Seq<char>, SessionHandle<L, R>>,
    k: Seq<char>,
    events: Option<R>,
) -> Map<Seq<char>, SessionHandle<L, R>> {
    if m.dom().contains(k) {
        m.insert(k, SessionHandle { events, ..m[k] })
    } else {
        m
    }
}

/// The receiver that a session has to give.
pub open spec fn receiver_of<L, R>(m: Map<Seq<char>, SessionHandle<L, R>>, k: Seq<char>) -> Option<R> {
    if m.dom().contains(k) {
        m[k].events
    } else {
        None
    }
}

/// The receiver of a session has one reader: once taken it is not there until it is
/// returned, and what was returned is what is taken next.
pub proof fn law_single_reader<L, R>(
    m: Map<Seq<char>, SessionHandle<L, R>>,
    k: Seq<char>,
    receiver: R,
)
    ensures
        receiver_of(with_events(m, k, None), k) is None,
        m.dom().contains(k) ==> receiver_of(with_events(m, k, Some(receiver)), k) == Some(receiver),
        forall|other: Seq<char>, e: Option<R>|
            other != k ==> #[trigger] receiver_of(with_events(m, k, e), other) == receiver_of(m, other),
{
}

impl<L, R> SessionManager<L, R> {
    pub closed spec fn active(&self) -> Map<Seq<char>, SessionHandle<L, R>> {
        self.sessions@
    }

    pub closed spec fn wf(&self) -> bool {
        self.sessions.wf()
    }

    pub fn new() -> (r: Self)
        ensures
            r.wf(),
            r.active() == Map::<Seq<char>, SessionHandle<L, R>>::empty(),
    {
        SessionManager { sessions: Table::new() }
    }

    /// Registers a session without a receiver of events.
    pub fn register(&mut self, thread_id: ThreadId, session_loop: L)
        requires
            old(self).wf(),
        ensures
            final(self).wf(),
            final(self).active() == old(self).active().insert(
                thread_id@,
                SessionHandle { thread_id, session_loop, events: None },
            ),
    {
        self.register_with_events(thread_id, session_loop, None)
    }

    /// Registers a session; one that the thread had before is replaced.
    pub fn register_with_events(&mut self, thread_id: ThreadId, session_loop: L, events: Option<R>)
        requires
            old(self).wf(),
        ensures
            final(self).wf(),
            final(self).active() == old(self).active().insert(
                thread_id@,
                SessionHandle { thread_id, session_loop, events },
            ),
    {
        let key = thread_id.to_string();
        self.sessions.insert(key, SessionHandle { thread_id, session_loop, events });
    }

    /// Removes the session of a thread.
    pub fn remove(&mut self, thread_id: &ThreadId)
        requires
            old(self).wf(),
        ensures
            final(self).wf(),
            final(self).active() == old(self).active().remove(thread_id@),
    {
        let gone = self.sessions.remove(thread_id.as_str());
    }

    pub fn has(&self, thread_id: &ThreadId) -> (r: bool)
        requires
            self.wf(),
        ensures
            r == self.active().dom().contains(thread_id@),
    {
        self.sessions.contains(thread_id.as_str())
    }

    /// The handle of the loop of a thread.
    pub fn get_handle(&self, thread_id: &ThreadId) -> (r: Option<&L>)
        requires
            self.wf(),
        ensures
            r == (if self.active().dom().contains(thread_id@) {
                Some(&self.active()[thread_id@].session_loop)
            } else {
                None
            }),
    {
        match self.sessions.get(thread_id.as_str()) {
            Some(h) => Some(&h.session_loop),
            None => None,
        }
    }

    /// Takes the receiver of a session's events. Nobody else gets it until it is
    /// returned.
    pub fn take_event_receiver(&mut self, thread_id: &ThreadId) -> (r: Option<R>)
        requires
            old(self).wf(),
        ensures
            final(self).wf(),
            r == receiver_of(old(self).active(), thread_id@),
            final(self).active() == with_events(old(self).active(), thread_id@, None),
    {
        match self.sessions.remove(thread_id.as_str()) {
            Some(h) => {
                let SessionHandle { thread_id: id, session_loop, events } = h;
                self.sessions.insert(
                    thread_id.to_string(),
                    SessionHandle { thread_id: id, session_loop, events: None },
                );
                assert(self.active() =~= with_events(old(self).active(), thread_id@, None));
                events
            },
            None => {
                assert(self.active() =~= old(self).active());
                None
            },
        }
    }

    /// Returns the receiver to its session.
    pub fn return_event_receiver(&mut self, thread_id: &ThreadId, receiver: R)
        requires
            old(self).wf(),
        ensures
            final(self).wf(),
            final(self).active() == with_events(
                old(self).active(),
                thread_id@,
                Some(receiver),
            ),
    {
        match self.sessions.remove(thread_id.as_str()) {
            Some(h) => {
                let SessionHandle { thread_id: id, session_loop, events } = h;
                self.sessions.insert(
                    thread_id.to_string(),
                    SessionHandle { thread_id: id, session_loop, events: Some(receiver) },
                );
                assert(self.active() =~= with_events(
                    old(self).active(),
                    thread_id@,
                    Some(receiver),
                ));
            },
            None => {
                assert(self.active() =~= old(self).active());
            },
        }
    }

    /// Makes a submission for the session of a thread: the handle to send it to, and the
    /// submission under a new id. A thread without a session takes none.
    pub fn submit_to(&self, thread_id: &ThreadId, op: Op) -> (r: Result<
        (&L, Submission),
        SessionLoopError,
    >)
        requires
            self.wf(),
        ensures
            match r {
                Ok((l, s)) => self.active().dom().contains(thread_id@) && *l
                    == self.active()[thread_id@].session_loop && s.op == op && id::is_fresh_id(
                    s.id@,
                    "sub-"@,
                ),
                Err(e) => e == SessionLoopError::Closed && !self.active().dom().contains(
                    thread_id@,
                ),
            },
    {
        match self.sessions.get(thread_id.as_str()) {
            Some(h) => Ok((&h.session_loop, submission_of(op))),
            None => Err(SessionLoopError::Closed),
        }
    }
}

impl<L, R> Default for SessionManager<L, R> {
    fn default() -> (r: Self)
        ensures
            r.wf(),
            r.active() == Map::<Seq<char>, SessionHandle<L, R>>::empty(),
    {
        SessionManager::new()
    }
}

/// Handing out or taking back a receiver changes nothing else of a session, and no other
/// session.
pub proof fn law_sessions_stay<L, R>(
    m: Map<Seq<char>, SessionHandle<L, R>>,
    k: Seq<char>,
    events: Option<R>,
    other: Seq<char>,
)
    ensures
        with_events(m, k, events).dom() == m.dom(),
        m.dom().contains(k) ==> with_events(m, k, events)[k].session_loop == m[k].session_loop
            && with_events(m, k, events)[k].thread_id == m[k].thread_id && with_events(
            m,
            k,
            events,
        )[k].events == events,
        other != k && m.dom().contains(other) ==> with_events(m, k, events)[other] == m[other],
        m.dom().contains(k) ==> receiver_of(m, k) == m[k].events,
        !m.dom().contains(k) ==> receiver_of(m, k) is None,
{
    assert(with_events(m, k, events).dom() =~= m.dom());
}

} // verus!
