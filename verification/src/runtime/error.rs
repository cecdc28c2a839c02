//! Errors of the runtime.

use crate::protocol::id::ThreadId;
use crate::text;
use vstd::prelude::*;

verus! {

/// What can go wrong in the runtime.
#[derive(Debug)]
pub enum RuntimeError {
    Config(String),
    State(String),
    ThreadNotFound(ThreadId),
    InvalidTransition(String),
    NotReady(String),
}

/// An error of the runtime, over plain texts.
pub enum RuntimeErrorView {
    Config(Seq<char>),
    State(Seq<char>),
    ThreadNotFound(Seq<char>),
    InvalidTransition(Seq<char>),
    NotReady(Seq<char>),
}

impl View for RuntimeError {
    type V = RuntimeErrorView;

    open spec fn view(&self) -> RuntimeErrorView {
        match *self {
            RuntimeError::Config(x) => RuntimeErrorView::Config(x@),
            RuntimeError::State(x) => RuntimeErrorView::State(x@),
            RuntimeError::ThreadNotFound(x) => RuntimeErrorView::ThreadNotFound(x@),
            RuntimeError::InvalidTransition(x) => RuntimeErrorView::InvalidTransition(x@),
            RuntimeError::NotReady(x) => RuntimeErrorView::NotReady(x@),
        }
    }
}

impl RuntimeErrorView {
    /// The text of the error.
    pub open spec fn text(self) -> Seq<char> {
        match self {
            RuntimeErrorView::Config(m) => "config error: "@ + m,
            RuntimeErrorView::State(m) => "state error: "@ + m,
            RuntimeErrorView::ThreadNotFound(id) => "thread not found: "@ + id,
            RuntimeErrorView::InvalidTransition(m) => "invalid state transition: "@ + m,
            RuntimeErrorView::NotReady(m) => "runtime not ready: "@ + m,
        }
    }
}

impl RuntimeError {
    pub fn to_string(&self) -> (r: String)
        ensures
            r@ == self@.text(),
    {
        match self {
            RuntimeError::Config(m) => text::cat("config error: ", m.as_str()),
            RuntimeError::State(m) => text::cat("state error: ", m.as_str()),
            RuntimeError::ThreadNotFound(id) => text::cat("thread not found: ", id.as_str()),
            RuntimeError::InvalidTransition(m) => text::cat(
                "invalid state transition: ",
                m.as_str(),
            ),
            RuntimeError::NotReady(m) => text::cat("runtime not ready: ", m.as_str()),
        }
    }
}

/// The text of an error says what kind it is and ends in what went wrong.
pub proof fn law_errors_say_why(e: RuntimeErrorView)
    ensures
        e matches RuntimeErrorView::Config(m) ==> e.text() == "config error: "@ + m,
        e matches RuntimeErrorView::State(m) ==> e.text() == "state error: "@ + m,
        e matches RuntimeErrorView::ThreadNotFound(id) ==> e.text() == "thread not found: "@ + id,
        e matches RuntimeErrorView::InvalidTransition(m) ==> e.text()
            == "invalid state transition: "@ + m,
        e matches RuntimeErrorView::NotReady(m) ==> e.text() == "runtime not ready: "@ + m,
{
}

/// What is seen of a runtime error is all that it holds.
pub proof fn law_runtime_error_is_seen_whole(r: RuntimeError)
    ensures
        r matches RuntimeError::Config(x) ==> r@ == (RuntimeErrorView::Config(x@)),
        r matches RuntimeError::State(x) ==> r@ == (RuntimeErrorView::State(x@)),
        r matches RuntimeError::ThreadNotFound(x) ==> r@ == (RuntimeErrorView::ThreadNotFound(x@)),
        r matches RuntimeError::InvalidTransition(x) ==> r@ == (RuntimeErrorView::InvalidTransition(x@)),
        r matches RuntimeError::NotReady(x) ==> r@ == (RuntimeErrorView::NotReady(x@)),
{
}

} // verus!
