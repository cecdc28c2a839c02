//! Threads and turns as the durable state keeps them.

use crate::protocol::event::{EventFrame, FrameView};
use crate::protocol::id::{ThreadId, TurnId};
use crate::protocol::thread::{SessionSource, Thread, ThreadStatus, ThreadView};
use crate::protocol::turn::{Turn, TurnStatus, TurnView};
use crate::text;
use vstd::prelude::*;

verus! {

/// A stored thread.
#[derive(Debug)]
pub struct ThreadRecord {
    pub id: String,
    pub preview: String,
    pub ephemeral: bool,
    pub model_provider: String,
    pub created_at: i64,
    pub updated_at: i64,
    pub status: String,
    pub path: Option<String>,
    pub cwd: String,
    pub cli_version: String,
    pub source: String,
    pub name: Option<String>,
    pub sandbox_policy: Option<String>,
    pub approval_mode: Option<String>,
    pub archived: bool,
    pub archived_at: Option<i64>,
    pub parent_thread_id: Option<String>,
}

/// A stored thread, over plain texts.
pub struct ThreadRecordView {
    pub id: Seq<char>,
    pub preview: Seq<char>,
    pub ephemeral: bool,
    pub model_provider: Seq<char>,
    pub created_at: i64,
    pub updated_at: i64,
    pub status: Seq<char>,
    pub path: Option<Seq<char>>,
    pub cwd: Seq<char>,
    pub cli_version: Seq<char>,
    pub source: Seq<char>,
    pub name: Option<Seq<char>>,
    pub sandbox_policy: Option<Seq<char>>,
    pub approval_mode: Option<Seq<char>>,
    pub archived: bool,
    pub archived_at: Option<i64>,
    pub parent_thread_id: Option<Seq<char>>,
}

impl View for ThreadRecord {
    type V = ThreadRecordView;

    open spec fn view(&self) -> ThreadRecordView {
        ThreadRecordView {
            id: self.id@,
            preview: self.preview@,
            ephemeral: self.ephemeral,
            model_provider: self.model_provider@,
            created_at: self.created_at,
            updated_at: self.updated_at,
            status: self.status@,
            path: text::opt_text(self.path),
            cwd: self.cwd@,
            cli_version: self.cli_version@,
            source: self.source@,
            name: text::opt_text(self.name),
            sandbox_policy: text::opt_text(self.sandbox_policy),
            approval_mode: text::opt_text(self.approval_mode),
            archived: self.archived,
            archived_at: self.archived_at,
            parent_thread_id: text::opt_text(self.parent_thread_id),
        }
    }
}

impl Clone for ThreadRecord {
    fn clone(&self) -> (r: Self)
        ensures
            r@ == self@,
    {
        ThreadRecord {
            id: self.id.clone(),
            preview: self.preview.clone(),
            ephemeral: self.ephemeral,
            model_provider: self.model_provider.clone(),
            created_at: self.created_at,
            updated_at: self.updated_at,
            status: self.status.clone(),
            path: text::clone_opt(&self.path),
            cwd: self.cwd.clone(),
            cli_version: self.cli_version.clone(),
            source: self.source.clone(),
            name: text::clone_opt(&self.name),
            sandbox_policy: text::clone_opt(&self.sandbox_policy),
            approval_mode: text::clone_opt(&self.approval_mode),
            archived: self.archived,
            archived_at: self.archived_at,
            parent_thread_id: text::clone_opt(&self.parent_thread_id),
        }
    }
}

/// A stored turn.
#[derive(Debug)]
pub struct TurnRecord {
    pub id: String,
    pub thread_id: String,
    pub status: String,
    pub user_input: String,
    pub created_at: i64,
    pub completed_at: Option<i64>,
    pub model: Option<String>,
    pub model_provider: Option<String>,
    pub parent_turn_id: Option<String>,
    pub parent_thread_id: Option<String>,
    pub subagent_id: Option<String>,
}

/// A stored turn, over plain texts.
pub struct TurnRecordView {
    pub id: Seq<char>,
    pub thread_id: Seq<char>,
    pub status: Seq<char>,
    pub user_input: Seq<char>,
    pub created_at: i64,
    pub completed_at: Option<i64>,
    pub model: Option<Seq<char>>,
    pub model_provider: Option<Seq<char>>,
    pub parent_turn_id: Option<Seq<char>>,
    pub parent_thread_id: Option<Seq<char>>,
    pub subagent_id: Option<Seq<char>>,
}

impl View for TurnRecord {
    type V = TurnRecordView;

    open spec fn view(&self) -> TurnRecordView {
        TurnRecordView {
            id: self.id@,
            thread_id: self.thread_id@,
            status: self.status@,
            user_input: self.user_input@,
            created_at: self.created_at,
            completed_at: self.completed_at,
            model: text::opt_text(self.model),
            model_provider: text::opt_text(self.model_provider),
            parent_turn_id: text::opt_text(self.parent_turn_id),
            parent_thread_id: text::opt_text(self.parent_thread_id),
            subagent_id: text::opt_text(self.subagent_id),
        }
    }
}

impl Clone for TurnRecord {
    fn clone(&self) -> (r: Self)
        ensures
            r@ == self@,
    {
        TurnRecord {
            id: self.id.clone(),
            thread_id: self.thread_id.clone(),
            status: self.status.clone(),
            user_input: self.user_input.clone(),
            created_at: self.created_at,
            completed_at: self.completed_at,
            model: text::clone_opt(&self.model),
            model_provider: text::clone_opt(&self.model_provider),
            parent_turn_id: text::clone_opt(&self.parent_turn_id),
            parent_thread_id: text::clone_opt(&self.parent_thread_id),
            subagent_id: text::clone_opt(&self.subagent_id),
        }
    }
}

/// The name under which the status of a thread is stored.
pub open spec fn thread_status_name(s: ThreadStatus) -> Seq<char> {
    match s {
        ThreadStatus::Idle => "idle"@,
        ThreadStatus::Running => "running"@,
        ThreadStatus::Completed => "completed"@,
        ThreadStatus::Failed => "failed"@,
        ThreadStatus::Paused => "paused"@,
        ThreadStatus::Archived => "archived"@,
    }
}

/// The name under which the source of a session is stored.
pub open spec fn source_name(s: SessionSource) -> Seq<char> {
    match s {
        SessionSource::Interactive => "interactive"@,
        SessionSource::Resume => "resume"@,
        SessionSource::Fork => "fork"@,
        SessionSource::Api => "api"@,
        SessionSource::Unknown => "unknown"@,
    }
}

/// The name under which the status of a turn is stored.
pub open spec fn turn_status_name(s: TurnStatus) -> Seq<char> {
    match s {
        TurnStatus::Started => "started"@,
        TurnStatus::Streaming => "streaming"@,
        TurnStatus::WaitingForApproval => "waitingforapproval"@,
        TurnStatus::ExecutingTool => "executingtool"@,
        TurnStatus::Completed => "completed"@,
        TurnStatus::Failed => "failed"@,
        TurnStatus::Interrupted => "interrupted"@,
    }
}

pub fn thread_status_text(s: ThreadStatus) -> (r: &'static str)
    ensures
        r@ == thread_status_name(s),
{
    match s {
        ThreadStatus::Idle => "idle",
        ThreadStatus::Running => "running",
        ThreadStatus::Completed => "completed",
        ThreadStatus::Failed => "failed",
        ThreadStatus::Paused => "paused",
        ThreadStatus::Archived => "archived",
    }
}

pub fn source_text(s: SessionSource) -> (r: &'static str)
    ensures
        r@ == source_name(s),
{
    match s {
        SessionSource::Interactive => "interactive",
        SessionSource::Resume => "resume",
        SessionSource::Fork => "fork",
        SessionSource::Api => "api",
        SessionSource::Unknown => "unknown",
    }
}

pub fn turn_status_text(s: TurnStatus) -> (r: &'static str)
    ensures
        r@ == turn_status_name(s),
{
    match s {
        TurnStatus::Started => "started",
        TurnStatus::Streaming => "streaming",
        TurnStatus::WaitingForApproval => "waitingforapproval",
        TurnStatus::ExecutingTool => "executingtool",
        TurnStatus::Completed => "completed",
        TurnStatus::Failed => "failed",
        TurnStatus::Interrupted => "interrupted",
    }
}

/// The status that a stored name stands for; an unknown name is an idle thread.
pub open spec fn status_of(s: Seq<char>) -> ThreadStatus {
    if s == "running"@ {
        ThreadStatus::Running
    } else if s == "completed"@ {
        ThreadStatus::Completed
    } else if s == "failed"@ {
        ThreadStatus::Failed
    } else if s == "paused"@ {
        ThreadStatus::Paused
    } else if s == "archived"@ {
        ThreadStatus::Archived
    } else {
        ThreadStatus::Idle
    }
}

pub fn serde_status(s: &str) -> (r: ThreadStatus)
    ensures
        r == status_of(s@),
{
    if text::str_eq(s, "running") {
        ThreadStatus::Running
    } else if text::str_eq(s, "completed") {
        ThreadStatus::Completed
    } else if text::str_eq(s, "failed") {
        ThreadStatus::Failed
    } else if text::str_eq(s, "paused") {
        ThreadStatus::Paused
    } else if text::str_eq(s, "archived") {
        ThreadStatus::Archived
    } else {
        ThreadStatus::Idle
    }
}

/// The source that a stored name stands for; an unknown name is an interactive session.
pub open spec fn source_of(s: Seq<char>) -> SessionSource {
    if s == "resume"@ {
        SessionSource::Resume
    } else if s == "fork"@ {
        SessionSource::Fork
    } else if s == "api"@ {
        SessionSource::Api
    } else if s == "unknown"@ {
        SessionSource::Unknown
    } else {
        SessionSource::Interactive
    }
}

pub fn serde_source(s: &str) -> (r: SessionSource)
    ensures
        r == source_of(s@),
{
    if text::str_eq(s, "resume") {
        SessionSource::Resume
    } else if text::str_eq(s, "fork") {
        SessionSource::Fork
    } else if text::str_eq(s, "api") {
        SessionSource::Api
    } else if text::str_eq(s, "unknown") {
        SessionSource::Unknown
    } else {
        SessionSource::Interactive
    }
}

/// A status or a source that is stored is read back as it was.
pub proof fn law_stored_names_read_back(status: ThreadStatus, source: SessionSource)
    ensures
        status_of(thread_status_name(status)) == status,
        source_of(source_name(source)) == source,
{
    reveal_strlit("idle");
    reveal_strlit("running");
    reveal_strlit("completed");
    reveal_strlit("failed");
    reveal_strlit("paused");
    reveal_strlit("archived");
    reveal_strlit("interactive");
    reveal_strlit("resume");
    reveal_strlit("fork");
    reveal_strlit("api");
    reveal_strlit("unknown");
    assert("running"@[0] == 'r');
    assert("completed"@[0] == 'c');
    assert("failed"@[0] == 'f');
    assert("paused"@[0] == 'p');
    assert("archived"@[0] == 'a');
    assert("idle"@[0] == 'i');
    assert("resume"@[0] == 'r');
    assert("fork"@[0] == 'f');
    assert("api"@[0] == 'a');
    assert("unknown"@[0] == 'u');
    assert("interactive"@[0] == 'i');
}

/// The record of a thread.
pub open spec fn thread_record_of(t: ThreadView) -> ThreadRecordView {
    ThreadRecordView {
        id: t.id,
        preview: t.preview,
        ephemeral: t.ephemeral,
        model_provider: t.model_provider,
        created_at: t.created_at,
        updated_at: t.updated_at,
        status: thread_status_name(t.status),
        path: t.path,
        cwd: t.cwd,
        cli_version: t.cli_version,
        source: source_name(t.source),
        name: t.name,
        sandbox_policy: t.sandbox_policy,
        approval_mode: t.approval_mode,
        archived: false,
        archived_at: None,
        parent_thread_id: t.parent_thread_id,
    }
}

/// Makes the record of a thread.
pub fn persist_thread(thread: &Thread) -> (r: ThreadRecord)
    ensures
        r@ == thread_record_of(thread@),
{
    ThreadRecord {
        id: thread.id.to_string(),
        preview: thread.preview.clone(),
        ephemeral: thread.ephemeral,
        model_provider: thread.model_provider.clone(),
        created_at: thread.created_at,
        updated_at: thread.updated_at,
        status: text::owned(thread_status_text(thread.status)),
        path: text::clone_opt(&thread.path),
        cwd: thread.cwd.clone(),
        cli_version: thread.cli_version.clone(),
        source: text::owned(source_text(thread.source)),
        name: text::clone_opt(&thread.name),
        sandbox_policy: text::clone_opt(&thread.sandbox_policy),
        approval_mode: text::clone_opt(&thread.approval_mode),
        archived: false,
        archived_at: None,
        parent_thread_id: match &thread.parent_thread_id {
            Some(id) => Some(id.to_string()),
            None => None,
        },
    }
}

/// The record of a turn.
pub open spec fn turn_record_of(t: TurnView) -> TurnRecordView {
    TurnRecordView {
        id: t.id,
        thread_id: t.thread_id,
        status: turn_status_name(t.status),
        user_input: t.user_input,
        created_at: t.created_at,
        completed_at: t.completed_at,
        model: t.model,
        model_provider: t.model_provider,
        parent_turn_id: t.parent_turn_id,
        parent_thread_id: t.parent_thread_id,
        subagent_id: t.subagent_id,
    }
}

/// Makes the record of a turn.
pub fn persist_turn(turn: &Turn) -> (r: TurnRecord)
    ensures
        r@ == turn_record_of(turn@),
{
    TurnRecord {
        id: turn.id.to_string(),
        thread_id: turn.thread_id.to_string(),
        status: text::owned(turn_status_text(turn.status)),
        user_input: turn.user_input.clone(),
        created_at: turn.created_at,
        completed_at: turn.completed_at,
        model: text::clone_opt(&turn.model),
        model_provider: text::clone_opt(&turn.model_provider),
        parent_turn_id: match &turn.parent_turn_id {
            Some(id) => Some(id.to_string()),
            None => None,
        },
        parent_thread_id: match &turn.parent_thread_id {
            Some(id) => Some(id.to_string()),
            None => None,
        },
        subagent_id: text::clone_opt(&turn.subagent_id),
    }
}

/// Sets the name and the status of a stored thread, where they are given.
pub fn update_thread_meta(
    record: ThreadRecord,
    name: Option<String>,
    status: Option<String>,
) -> (r: ThreadRecord)
    ensures
        r == (ThreadRecord {
            name: if name is Some {
                name
            } else {
                record.name
            },
            status: match status {
                Some(s) => s,
                None => record.status,
            },
            ..record
        }),
{
    let mut r = record;
    if let Some(n) = name {
        r.name = Some(n);
    }
    if let Some(s) = status {
        r.status = s;
    }
    r
}

/// The turn that a frame is about; frames of threads, of sub-agents and warnings have
/// none.
pub open spec fn turn_of(f: FrameView) -> Seq<char> {
    match f {
        FrameView::TurnStarted { turn_id, .. } => turn_id,
        FrameView::TurnSteered { turn_id, .. } => turn_id,
        FrameView::TurnInterrupted { turn_id, .. } => turn_id,
        FrameView::TurnCompleted { turn_id } => turn_id,
        FrameView::TurnFailed { turn_id, .. } => turn_id,
        FrameView::AssistantMessageDelta { turn_id, .. } => turn_id,
        FrameView::AssistantMessageCompleted { turn_id, .. } => turn_id,
        FrameView::AssistantReasoningDelta { turn_id, .. } => turn_id,
        FrameView::AssistantReasoningCompleted { turn_id, .. } => turn_id,
        FrameView::ToolCallStarted { turn_id, .. } => turn_id,
        FrameView::ToolCallArgumentsDelta { turn_id, .. } => turn_id,
        FrameView::ToolCallRequiresApproval { turn_id, .. } => turn_id,
        FrameView::ToolCallApproved { turn_id, .. } => turn_id,
        FrameView::ToolCallRejected { turn_id, .. } => turn_id,
        FrameView::ToolCallCompleted { turn_id, .. } => turn_id,
        FrameView::ToolCallFailed { turn_id, .. } => turn_id,
        FrameView::ContextCompactionStarted { turn_id } => turn_id,
        FrameView::ContextCompactionCompleted { turn_id } => turn_id,
        _ => ""@,
    }
}

/// The turn that a frame is about, empty where there is none.
pub fn extract_turn_id(event: &EventFrame) -> (r: &str)
    ensures
        r@ == turn_of(event@),
{
    match event {
        EventFrame::TurnStarted { turn_id, .. } => turn_id.as_str(),
        EventFrame::TurnSteered { turn_id, .. } => turn_id.as_str(),
        EventFrame::TurnInterrupted { turn_id, .. } => turn_id.as_str(),
        EventFrame::TurnCompleted { turn_id } => turn_id.as_str(),
        EventFrame::TurnFailed { turn_id, .. } => turn_id.as_str(),
        EventFrame::AssistantMessageDelta { turn_id, .. } => turn_id.as_str(),
        EventFrame::AssistantMessageCompleted { turn_id, .. } => turn_id.as_str(),
        EventFrame::AssistantReasoningDelta { turn_id, .. } => turn_id.as_str(),
        EventFrame::AssistantReasoningCompleted { turn_id, .. } => turn_id.as_str(),
        EventFrame::ToolCallStarted { turn_id, .. } => turn_id.as_str(),
        EventFrame::ToolCallArgumentsDelta { turn_id, .. } => turn_id.as_str(),
        EventFrame::ToolCallRequiresApproval { turn_id, .. } => turn_id.as_str(),
        EventFrame::ToolCallApproved { turn_id, .. } => turn_id.as_str(),
        EventFrame::ToolCallRejected { turn_id, .. } => turn_id.as_str(),
        EventFrame::ToolCallCompleted { turn_id, .. } => turn_id.as_str(),
        EventFrame::ToolCallFailed { turn_id, .. } => turn_id.as_str(),
        EventFrame::ContextCompactionStarted { turn_id } => turn_id.as_str(),
        EventFrame::ContextCompactionCompleted { turn_id } => turn_id.as_str(),
        _ => "",
    }
}

/// A thread that is stored keeps all that it is: its record holds its fields under their
/// names, its status and its source can be read back, and it is not archived.
pub proof fn law_stored_thread_is_the_thread(t: ThreadView)
    ensures
        ({
            let r = thread_record_of(t);
            &&& r.id == t.id
            &&& r.preview == t.preview
            &&& r.ephemeral == t.ephemeral
            &&& r.model_provider == t.model_provider
            &&& r.created_at == t.created_at
            &&& r.updated_at == t.updated_at
            &&& status_of(r.status) == t.status
            &&& r.path == t.path
            &&& r.cwd == t.cwd
            &&& r.cli_version == t.cli_version
            &&& source_of(r.source) == t.source
            &&& r.name == t.name
            &&& r.sandbox_policy == t.sandbox_policy
            &&& r.approval_mode == t.approval_mode
            &&& !r.archived
            &&& r.archived_at is None
            &&& r.parent_thread_id == t.parent_thread_id
        }),
{
    law_stored_names_read_back(t.status, t.source);
}

/// A turn that is stored keeps all that it is, under the names of its fields.
pub proof fn law_stored_turn_is_the_turn(t: TurnView)
    ensures
        ({
            let r = turn_record_of(t);
            &&& r.id == t.id
            &&& r.thread_id == t.thread_id
            &&& r.status == turn_status_name(t.status)
            &&& r.user_input == t.user_input
            &&& r.created_at == t.created_at
            &&& r.completed_at == t.completed_at
            &&& r.model == t.model
            &&& r.model_provider == t.model_provider
            &&& r.parent_turn_id == t.parent_turn_id
            &&& r.parent_thread_id == t.parent_thread_id
            &&& r.subagent_id == t.subagent_id
        }),
{
}

/// No two statuses of turns are stored under the same name, and a turn that is over is
/// stored under the name of how it ended.
pub proof fn law_turn_statuses_are_told_apart(a: TurnStatus, b: TurnStatus)
    ensures
        turn_status_name(a) == turn_status_name(b) ==> a == b,
        a is Completed ==> turn_status_name(a) == "completed"@,
        a is Failed ==> turn_status_name(a) == "failed"@,
        a is Interrupted ==> turn_status_name(a) == "interrupted"@,
        a is Started ==> turn_status_name(a) == "started"@,
{
    reveal_strlit("started");
    reveal_strlit("streaming");
    reveal_strlit("waitingforapproval");
    reveal_strlit("executingtool");
    reveal_strlit("completed");
    reveal_strlit("failed");
    reveal_strlit("interrupted");
    assert("started"@.len() == 7);
    assert("streaming"@.len() == 9 && "streaming"@[0] == 's');
    assert("waitingforapproval"@.len() == 18);
    assert("executingtool"@.len() == 13);
    assert("completed"@.len() == 9 && "completed"@[0] == 'c');
    assert("failed"@.len() == 6);
    assert("interrupted"@.len() == 11);
}

/// A stored name that is none of the known ones is an idle thread or an interactive session.
pub proof fn law_unknown_names_are_harmless(s: Seq<char>)
    ensures
        s != "running"@ && s != "completed"@ && s != "failed"@ && s != "paused"@ && s
            != "archived"@ ==> status_of(s) is Idle,
        s != "resume"@ && s != "fork"@ && s != "api"@ && s != "unknown"@ ==> source_of(
            s,
        ) is Interactive,
        status_of(s) is Running <==> s == "running"@,
        source_of(s) is Resume <==> s == "resume"@,
{
    reveal_strlit("running");
    reveal_strlit("completed");
    reveal_strlit("failed");
    reveal_strlit("paused");
    reveal_strlit("archived");
    reveal_strlit("resume");
    reveal_strlit("fork");
    reveal_strlit("api");
    reveal_strlit("unknown");
}

/// An event is about the turn that its journal entry is kept under, but for the events of
/// sub-agents, which are about none.
pub proof fn law_events_name_their_turn(f: FrameView)
    ensures
        crate::journal::entry_of(f) matches Some(k) ==> !(f is SubagentSpawned
            || f is SubagentCompleted || f is SubagentFailed) ==> turn_of(f) == k.0,
        f matches FrameView::ToolCallRequiresApproval { turn_id, .. } ==> turn_of(f) == turn_id,
        f matches FrameView::TurnSteered { turn_id, .. } ==> turn_of(f) == turn_id,
        f matches FrameView::TurnInterrupted { turn_id, .. } ==> turn_of(f) == turn_id,
        f is SubagentSpawned || f is SubagentCompleted || f is SubagentFailed || f is ThreadCreated
            || f is ThreadUpdated || f is ThreadArchived || f is RuntimeWarning ==> turn_of(
            f,
        ).len() == 0,
{
    reveal_strlit("");
}

/// What is seen of a thread record is all that it holds.
pub proof fn law_thread_record_is_seen_whole(t: ThreadRecord)
    ensures
        t@.id == t.id@,
        t@.preview == t.preview@,
        t@.ephemeral == t.ephemeral,
        t@.model_provider == t.model_provider@,
        t@.created_at == t.created_at,
        t@.updated_at == t.updated_at,
        t@.status == t.status@,
        t@.path == text::opt_text(t.path),
        t@.cwd == t.cwd@,
        t@.cli_version == t.cli_version@,
        t@.source == t.source@,
        t@.name == text::opt_text(t.name),
        t@.sandbox_policy == text::opt_text(t.sandbox_policy),
        t@.approval_mode == text::opt_text(t.approval_mode),
        t@.archived == t.archived,
        t@.archived_at == t.archived_at,
        t@.parent_thread_id == text::opt_text(t.parent_thread_id),
{
}

/// What is seen of a turn record is all that it holds.
pub proof fn law_turn_record_is_seen_whole(t: TurnRecord)
    ensures
        t@.id == t.id@,
        t@.thread_id == t.thread_id@,
        t@.status == t.status@,
        t@.user_input == t.user_input@,
        t@.created_at == t.created_at,
        t@.completed_at == t.completed_at,
        t@.model == text::opt_text(t.model),
        t@.model_provider == text::opt_text(t.model_provider),
        t@.parent_turn_id == text::opt_text(t.parent_turn_id),
        t@.parent_thread_id == text::opt_text(t.parent_thread_id),
        t@.subagent_id == text::opt_text(t.subagent_id),
{
}

} // verus!
