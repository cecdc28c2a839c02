//! Typed identifiers of the entities of a session.

use crate::digest;
use crate::text;
use vstd::prelude::*;

verus! {

/// A prefix and a random UUID behind it.
pub open spec fn is_fresh_id(id: Seq<char>, prefix: Seq<char>) -> bool {
    &&& id.len() == prefix.len() + 32
    &&& id.take(prefix.len() as int) == prefix
    &&& digest::is_uuid(id.skip(prefix.len() as int))
}

pub(crate) proof fn lemma_fresh_id(prefix: Seq<char>, id: Seq<char>)
    requires
        digest::is_uuid(id),
    ensures
        is_fresh_id(prefix + id, prefix),
{
    assert((prefix + id).take(prefix.len() as int) =~= prefix);
    assert((prefix + id).skip(prefix.len() as int) =~= id);
}

/// The identifier of a thread.
#[derive(Debug, PartialEq, Eq, Hash)]
pub struct ThreadId(String);

impl View for ThreadId {
    type V = Seq<char>;

    closed spec fn view(&self) -> Seq<char> {
        self.0@
    }
}

impl ThreadId {
    /// A new identifier: `thread-` and a random UUID.
    pub fn new() -> (r: Self)
        ensures
            is_fresh_id(r@, "thread-"@),
    {
        let id = digest::random_uuid();
        let text = text::cat("thread-", id.as_str());
        proof {
            lemma_fresh_id("thread-"@, id@);
        }
        ThreadId(text)
    }

    /// The identifier with the given text.
    pub fn from_string(s: &str) -> (r: Self)
        ensures
            r@ == s@,
    {
        ThreadId(s.to_owned())
    }

    pub fn as_str(&self) -> (r: &str)
        ensures
            r@ == self@,
    {
        self.0.as_str()
    }

    pub fn to_string(&self) -> (r: String)
        ensures
            r@ == self@,
    {
        self.0.clone()
    }
}

impl Clone for ThreadId {
    fn clone(&self) -> (r: Self)
        ensures
            r == *self,
    {
        ThreadId(self.0.clone())
    }
}

impl Default for ThreadId {
    fn default() -> (r: Self)
        ensures
            is_fresh_id(r@, "thread-"@),
    {
        ThreadId::new()
    }
}

impl From<String> for ThreadId {
    fn from(s: String) -> (r: Self)
        ensures
            r@ == s@,
    {
        ThreadId(s)
    }
}

impl vstd::std_specs::convert::FromSpecImpl<String> for ThreadId {
    open spec fn obeys_from_spec() -> bool {
        true
    }

    closed spec fn from_spec(s: String) -> Self {
        ThreadId(s)
    }
}

impl From<ThreadId> for String {
    fn from(id: ThreadId) -> (r: Self)
        ensures
            r@ == id@,
    {
        id.0
    }
}

impl vstd::std_specs::convert::FromSpecImpl<ThreadId> for String {
    open spec fn obeys_from_spec() -> bool {
        true
    }

    closed spec fn from_spec(id: ThreadId) -> Self {
        id.0
    }
}

/// The identifier of a turn.
#[derive(Debug, PartialEq, Eq, Hash)]
pub struct TurnId(String);

impl View for TurnId {
    type V = Seq<char>;

    closed spec fn view(&self) -> Seq<char> {
        self.0@
    }
}

impl TurnId {
    /// A new identifier: `turn-` and a random UUID.
    pub fn new() -> (r: Self)
        ensures
            is_fresh_id(r@, "turn-"@),
    {
        let id = digest::random_uuid();
        let text = text::cat("turn-", id.as_str());
        proof {
            lemma_fresh_id("turn-"@, id@);
        }
        TurnId(text)
    }

    /// The identifier with the given text.
    pub fn from_string(s: &str) -> (r: Self)
        ensures
            r@ == s@,
    {
        TurnId(s.to_owned())
    }

    pub fn as_str(&self) -> (r: &str)
        ensures
            r@ == self@,
    {
        self.0.as_str()
    }

    pub fn to_string(&self) -> (r: String)
        ensures
            r@ == self@,
    {
        self.0.clone()
    }
}

impl Clone for TurnId {
    fn clone(&self) -> (r: Self)
        ensures
            r == *self,
    {
        TurnId(self.0.clone())
    }
}

impl Default for TurnId {
    fn default() -> (r: Self)
        ensures
            is_fresh_id(r@, "turn-"@),
    {
        TurnId::new()
    }
}

impl From<String> for TurnId {
    fn from(s: String) -> (r: Self)
        ensures
            r@ == s@,
    {
        TurnId(s)
    }
}

impl vstd::std_specs::convert::FromSpecImpl<String> for TurnId {
    open spec fn obeys_from_spec() -> bool {
        true
    }

    closed spec fn from_spec(s: String) -> Self {
        TurnId(s)
    }
}

impl From<TurnId> for String {
    fn from(id: TurnId) -> (r: Self)
        ensures
            r@ == id@,
    {
        id.0
    }
}

impl vstd::std_specs::convert::FromSpecImpl<TurnId> for String {
    open spec fn obeys_from_spec() -> bool {
        true
    }

    closed spec fn from_spec(id: TurnId) -> Self {
        id.0
    }
}

/// The identifier of a tool call.
#[derive(Debug, PartialEq, Eq, Hash)]
pub struct ToolCallId(String);

impl View for ToolCallId {
    type V = Seq<char>;

    closed spec fn view(&self) -> Seq<char> {
        self.0@
    }
}

impl ToolCallId {
    /// A new identifier: `call-` and a random UUID.
    pub fn new() -> (r: Self)
        ensures
            is_fresh_id(r@, "call-"@),
    {
        let id = digest::random_uuid();
        let text = text::cat("call-", id.as_str());
        proof {
            lemma_fresh_id("call-"@, id@);
        }
        ToolCallId(text)
    }

    /// The identifier with the given text.
    pub fn from_string(s: &str) -> (r: Self)
        ensures
            r@ == s@,
    {
        ToolCallId(s.to_owned())
    }

    pub fn as_str(&self) -> (r: &str)
        ensures
            r@ == self@,
    {
        self.0.as_str()
    }

    pub fn to_string(&self) -> (r: String)
        ensures
            r@ == self@,
    {
        self.0.clone()
    }
}

impl Clone for ToolCallId {
    fn clone(&self) -> (r: Self)
        ensures
            r == *self,
    {
        ToolCallId(self.0.clone())
    }
}

impl Default for ToolCallId {
    fn default() -> (r: Self)
        ensures
            is_fresh_id(r@, "call-"@),
    {
        ToolCallId::new()
    }
}

impl From<String> for ToolCallId {
    fn from(s: String) -> (r: Self)
        ensures
            r@ == s@,
    {
        ToolCallId(s)
    }
}

impl vstd::std_specs::convert::FromSpecImpl<String> for ToolCallId {
    open spec fn obeys_from_spec() -> bool {
        true
    }

    closed spec fn from_spec(s: String) -> Self {
        ToolCallId(s)
    }
}

impl From<ToolCallId> for String {
    fn from(id: ToolCallId) -> (r: Self)
        ensures
            r@ == id@,
    {
        id.0
    }
}

impl vstd::std_specs::convert::FromSpecImpl<ToolCallId> for String {
    open spec fn obeys_from_spec() -> bool {
        true
    }

    closed spec fn from_spec(id: ToolCallId) -> Self {
        id.0
    }
}

/// The identifier of an assistant message.
#[derive(Debug, PartialEq, Eq, Hash)]
pub struct MessageId(String);

impl View for MessageId {
    type V = Seq<char>;

    closed spec fn view(&self) -> Seq<char> {
        self.0@
    }
}

impl MessageId {
    /// A new identifier: `msg-` and a random UUID.
    pub fn new() -> (r: Self)
        ensures
            is_fresh_id(r@, "msg-"@),
    {
        let id = digest::random_uuid();
        let text = text::cat("msg-", id.as_str());
        proof {
            lemma_fresh_id("msg-"@, id@);
        }
        MessageId(text)
    }

    /// The identifier with the given text.
    pub fn from_string(s: &str) -> (r: Self)
        ensures
            r@ == s@,
    {
        MessageId(s.to_owned())
    }

    pub fn as_str(&self) -> (r: &str)
        ensures
            r@ == self@,
    {
        self.0.as_str()
    }

    pub fn to_string(&self) -> (r: String)
        ensures
            r@ == self@,
    {
        self.0.clone()
    }
}

impl Clone for MessageId {
    fn clone(&self) -> (r: Self)
        ensures
            r == *self,
    {
        MessageId(self.0.clone())
    }
}

impl Default for MessageId {
    fn default() -> (r: Self)
        ensures
            is_fresh_id(r@, "msg-"@),
    {
        MessageId::new()
    }
}

impl From<String> for MessageId {
    fn from(s: String) -> (r: Self)
        ensures
            r@ == s@,
    {
        MessageId(s)
    }
}

impl vstd::std_specs::convert::FromSpecImpl<String> for MessageId {
    open spec fn obeys_from_spec() -> bool {
        true
    }

    closed spec fn from_spec(s: String) -> Self {
        MessageId(s)
    }
}

impl From<MessageId> for String {
    fn from(id: MessageId) -> (r: Self)
        ensures
            r@ == id@,
    {
        id.0
    }
}

impl vstd::std_specs::convert::FromSpecImpl<MessageId> for String {
    open spec fn obeys_from_spec() -> bool {
        true
    }

    closed spec fn from_spec(id: MessageId) -> Self {
        id.0
    }
}

/// The identifier of a sub-agent.
#[derive(Debug, PartialEq, Eq, Hash)]
pub struct SubagentId(String);

impl View for SubagentId {
    type V = Seq<char>;

    closed spec fn view(&self) -> Seq<char> {
        self.0@
    }
}

impl SubagentId {
    /// A new identifier: `subagent-` and a random UUID.
    pub fn new() -> (r: Self)
        ensures
            is_fresh_id(r@, "subagent-"@),
    {
        let id = digest::random_uuid();
        let text = text::cat("subagent-", id.as_str());
        proof {
            lemma_fresh_id("subagent-"@, id@);
        }
        SubagentId(text)
    }

    /// The identifier with the given text.
    pub fn from_string(s: &str) -> (r: Self)
        ensures
            r@ == s@,
    {
        SubagentId(s.to_owned())
    }

    pub fn as_str(&self) -> (r: &str)
        ensures
            r@ == self@,
    {
        self.0.as_str()
    }

    pub fn to_string(&self) -> (r: String)
        ensures
            r@ == self@,
    {
        self.0.clone()
    }
}

impl Clone for SubagentId {
    fn clone(&self) -> (r: Self)
        ensures
            r == *self,
    {
        SubagentId(self.0.clone())
    }
}

impl Default for SubagentId {
    fn default() -> (r: Self)
        ensures
            is_fresh_id(r@, "subagent-"@),
    {
        SubagentId::new()
    }
}

impl From<String> for SubagentId {
    fn from(s: String) -> (r: Self)
        ensures
            r@ == s@,
    {
        SubagentId(s)
    }
}

impl vstd::std_specs::convert::FromSpecImpl<String> for SubagentId {
    open spec fn obeys_from_spec() -> bool {
        true
    }

    closed spec fn from_spec(s: String) -> Self {
        SubagentId(s)
    }
}

impl From<SubagentId> for String {
    fn from(id: SubagentId) -> (r: Self)
        ensures
            r@ == id@,
    {
        id.0
    }
}

impl vstd::std_specs::convert::FromSpecImpl<SubagentId> for String {
    open spec fn obeys_from_spec() -> bool {
        true
    }

    closed spec fn from_spec(id: SubagentId) -> Self {
        id.0
    }
}

/// A sequence number of an event within its thread.
#[derive(Debug, Clone, Copy, PartialEq, Eq, PartialOrd, Ord, Structural)]
pub struct EventSeq(u64);

impl View for EventSeq {
    type V = nat;

    closed spec fn view(&self) -> nat {
        self.0 as nat
    }
}

impl EventSeq {
    pub fn new(seq: u64) -> (r: Self)
        ensures
            r@ == seq,
    {
        EventSeq(seq)
    }

    /// The number after this one.
    pub fn next(&self) -> (r: Self)
        requires
            self@ < u64::MAX,
        ensures
            r@ == self@ + 1,
    {
        EventSeq(self.0 + 1)
    }

    pub fn as_u64(&self) -> (r: u64)
        ensures
            r == self@,
    {
        self.0
    }

    pub fn to_string(&self) -> (r: String)
        ensures
            r@ == text::decimal(self@),
    {
        text::u64_text(self.0)
    }
}

impl Default for EventSeq {
    fn default() -> (r: Self)
        ensures
            r@ == 0,
    {
        EventSeq(0)
    }
}

/// A new identifier is its prefix with a UUID behind it, and nothing more.
pub proof fn law_new_ids_carry_their_prefix(id: Seq<char>, prefix: Seq<char>)
    ensures
        is_fresh_id(id, prefix) ==> id.len() == prefix.len() + 32 && prefix.is_prefix_of(id)
            && digest::is_uuid(id.subrange(prefix.len() as int, id.len() as int)),
        digest::is_uuid(id) ==> is_fresh_id(prefix + id, prefix),
{
    if is_fresh_id(id, prefix) {
        assert(id.skip(prefix.len() as int) =~= id.subrange(prefix.len() as int, id.len() as int));
    }
    if digest::is_uuid(id) {
        lemma_fresh_id(prefix, id);
    }
}

} // verus!
