//! Operations: the one way for a host to act on the core.

use super::id::ThreadId;
use crate::digest;
use crate::text;
use vstd::prelude::*;

verus! {

/// The identifier of a submission, handed out when it is accepted.
#[derive(Debug, PartialEq, Eq, Hash)]
pub struct SubmissionId(pub String);

impl View for SubmissionId {
    type V = Seq<char>;

    open spec fn view(&self) -> Seq<char> {
        self.0@
    }
}

impl SubmissionId {
    /// A new identifier: `sub-` and a random UUID.
    pub fn new() -> (r: Self)
        ensures
            super::id::is_fresh_id(r@, "sub-"@),
    {
        let id = digest::random_uuid();
        proof {
            super::id::lemma_fresh_id("sub-"@, id@);
        }
        SubmissionId(text::cat("sub-", id.as_str()))
    }

    pub fn as_str(&self) -> (r: &str)
        ensures
            r@ == self@,
    {
        self.0.as_str()
    }

    pub fn to_string(&self) -> (r: String)
        ensures
            r@ == self@,
    {
        self.0.clone()
    }
}

impl Clone for SubmissionId {
    fn clone(&self) -> (r: Self)
        ensures
            r == *self,
    {
        SubmissionId(self.0.clone())
    }
}

impl Default for SubmissionId {
    fn default() -> (r: Self)
        ensures
            super::id::is_fresh_id(r@, "sub-"@),
    {
        SubmissionId::new()
    }
}

/// One piece of what a user enters.
#[derive(Debug, Clone)]
pub enum UserInput {
    Text { text: String },
    Image { image_url: String },
    LocalImage { path: String },
    Skill { name: String, path: String },
    Mention { name: String, path: String },
}

/// Settings for one turn.
#[derive(Debug, Clone)]
pub struct TurnSettings {
    pub model: Option<String>,
    pub cwd: Option<String>,
    pub approval_policy: Option<String>,
    pub sandbox_policy: Option<String>,
    pub max_token_budget: Option<u64>,
}

impl Default for TurnSettings {
    fn default() -> (r: Self)
        ensures
            r == (TurnSettings {
                model: None,
                cwd: None,
                approval_policy: None,
                sandbox_policy: None,
                max_token_budget: None,
            }),
    {
        TurnSettings {
            model: None,
            cwd: None,
            approval_policy: None,
            sandbox_policy: None,
            max_token_budget: None,
        }
    }
}

/// Everything that a host can ask of the core.
#[derive(Debug, Clone)]
pub enum Op {
    UserInput { thread_id: ThreadId, input: Vec<UserInput>, settings: TurnSettings },
    SteerInput { thread_id: ThreadId, input: Vec<UserInput> },
    ApprovalDecision { thread_id: ThreadId, approval_id: String, approved: bool },
    Cancel { thread_id: ThreadId },
    Compact { thread_id: ThreadId },
}

impl Op {
    /// The thread that the operation is about.
    pub open spec fn thread(self) -> ThreadId {
        match self {
            Op::UserInput { thread_id, .. } => thread_id,
            Op::SteerInput { thread_id, .. } => thread_id,
            Op::ApprovalDecision { thread_id, .. } => thread_id,
            Op::Cancel { thread_id } => thread_id,
            Op::Compact { thread_id } => thread_id,
        }
    }
}

/// The thread that an operation is about.
pub fn op_thread_id(op: &Op) -> (r: ThreadId)
    ensures
        r == op.thread(),
{
    match op {
        Op::UserInput { thread_id, .. } => thread_id.clone(),
        Op::SteerInput { thread_id, .. } => thread_id.clone(),
        Op::ApprovalDecision { thread_id, .. } => thread_id.clone(),
        Op::Cancel { thread_id } => thread_id.clone(),
        Op::Compact { thread_id } => thread_id.clone(),
    }
}

/// An operation with the identifier it is tracked by.
#[derive(Debug, Clone)]
pub struct Submission {
    pub id: SubmissionId,
    pub op: Op,
}

/// The text of the first textual piece of an input, empty where there is none.
pub open spec fn first_text(input: Seq<UserInput>) -> Seq<char>
    decreases input.len(),
{
    if input.len() == 0 {
        Seq::empty()
    } else {
        match input[0] {
            UserInput::Text { text } => text@,
            _ => first_text(input.skip(1)),
        }
    }
}

/// Takes the text of the first textual piece of an input.
pub fn find_text(input: &Vec<UserInput>) -> (r: String)
    ensures
        r@ == first_text(input@),
{
    let mut i: usize = 0;
    assert(input@.skip(0) =~= input@);
    while i < input.len()
        invariant
            i <= input.len(),
            first_text(input@.skip(i as int)) == first_text(input@),
        decreases input.len() - i,
    {
        assert(input@.skip(i as int).skip(1) =~= input@.skip(i + 1));
        assert(input@.skip(i as int)[0] == input@[i as int]);
        match &input[i] {
            UserInput::Text { text } => {
                return text.clone();
            },
            _ => {},
        }
        i = i + 1;
    }
    String::new()
}

/// The text of an input is that of its first textual piece, whatever stands before it;
/// without a textual piece it is empty.
pub proof fn law_first_text_is_taken(input: Seq<UserInput>, i: int)
    requires
        0 <= i <= input.len(),
        forall|j: int| 0 <= j < i ==> !((#[trigger] input[j]) is Text),
        i < input.len() ==> input[i] is Text,
    ensures
        i < input.len() ==> first_text(input) == input[i]->Text_text@,
        i == input.len() ==> first_text(input).len() == 0,
    decreases input.len(),
{
    if input.len() > 0 && i > 0 {
        let rest = input.skip(1);
        assert(!(input[0] is Text));
        assert forall|j: int| 0 <= j < i - 1 implies !((#[trigger] rest[j]) is Text) by {
            assert(rest[j] == input[j + 1]);
        }
        law_first_text_is_taken(rest, i - 1);
    }
}

/// An operation is about the thread that it names.
pub proof fn law_operations_name_their_thread(o: Op)
    ensures
        o matches Op::UserInput { thread_id, .. } ==> o.thread() == thread_id,
        o matches Op::SteerInput { thread_id, .. } ==> o.thread() == thread_id,
        o matches Op::ApprovalDecision { thread_id, .. } ==> o.thread() == thread_id,
        o matches Op::Cancel { thread_id } ==> o.thread() == thread_id,
        o matches Op::Compact { thread_id } ==> o.thread() == thread_id,
{
}

} // verus!
