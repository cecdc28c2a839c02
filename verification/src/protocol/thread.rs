//! Threads: long-lived conversations.

use super::id::ThreadId;
use crate::text;
use vstd::prelude::*;

verus! {

/// Where a thread stands.
#[derive(Debug, Clone, Copy, PartialEq, Eq, Structural)]
pub enum ThreadStatus {
    Idle,
    Running,
    Completed,
    Failed,
    Paused,
    Archived,
}

/// Where a session comes from.
#[derive(Debug, Clone, Copy, PartialEq, Eq, Structural)]
pub enum SessionSource {
    Interactive,
    Resume,
    Fork,
    Api,
    Unknown,
}

/// A thread as it is stored and shown.
#[derive(Debug)]
pub struct Thread {
    pub id: ThreadId,
    pub preview: String,
    pub ephemeral: bool,
    pub model_provider: String,
    pub created_at: i64,
    pub updated_at: i64,
    pub status: ThreadStatus,
    pub path: Option<String>,
    pub cwd: String,
    pub cli_version: String,
    pub source: SessionSource,
    pub name: Option<String>,
    pub sandbox_policy: Option<String>,
    pub approval_mode: Option<String>,
    pub parent_thread_id: Option<ThreadId>,
}

/// A thread, over plain texts.
pub struct ThreadView {
    pub id: Seq<char>,
    pub preview: Seq<char>,
    pub ephemeral: bool,
    pub model_provider: Seq<char>,
    pub created_at: i64,
    pub updated_at: i64,
    pub status: ThreadStatus,
    pub path: Option<Seq<char>>,
    pub cwd: Seq<char>,
    pub cli_version: Seq<char>,
    pub source: SessionSource,
    pub name: Option<Seq<char>>,
    pub sandbox_policy: Option<Seq<char>>,
    pub approval_mode: Option<Seq<char>>,
    pub parent_thread_id: Option<Seq<char>>,
}

impl View for Thread {
    type V = ThreadView;

    open spec fn view(&self) -> ThreadView {
        ThreadView {
            id: self.id@,
            preview: self.preview@,
            ephemeral: self.ephemeral,
            model_provider: self.model_provider@,
            created_at: self.created_at,
            updated_at: self.updated_at,
            status: self.status,
            path: text::opt_text(self.path),
            cwd: self.cwd@,
            cli_version: self.cli_version@,
            source: self.source,
            name: text::opt_text(self.name),
            sandbox_policy: text::opt_text(self.sandbox_policy),
            approval_mode: text::opt_text(self.approval_mode),
            parent_thread_id: (match self.parent_thread_id { Some(v) => Some(v@), None => None }),
        }
    }
}

impl Clone for Thread {
    fn clone(&self) -> (r: Self)
        ensures
            r@ == self@,
    {
        Thread {
            id: self.id.clone(),
            preview: self.preview.clone(),
            ephemeral: self.ephemeral,
            model_provider: self.model_provider.clone(),
            created_at: self.created_at,
            updated_at: self.updated_at,
            status: self.status,
            path: text::clone_opt(&self.path),
            cwd: self.cwd.clone(),
            cli_version: self.cli_version.clone(),
            source: self.source,
            name: text::clone_opt(&self.name),
            sandbox_policy: text::clone_opt(&self.sandbox_policy),
            approval_mode: text::clone_opt(&self.approval_mode),
            parent_thread_id: (match &self.parent_thread_id { Some(v) => Some(v.clone()), None => None }),
        }
    }
}

/// A request for a new thread.
#[derive(Debug)]
pub struct CreateThreadRequest {
    pub workspace: String,
    pub model: Option<String>,
    pub model_provider: Option<String>,
    pub name: Option<String>,
    pub approval_policy: Option<String>,
    pub sandbox: Option<String>,
    pub parent_thread_id: Option<ThreadId>,
    pub ephemeral: bool,
}

/// A request for a new thread, over plain texts.
pub struct CreateThreadView {
    pub workspace: Seq<char>,
    pub model: Option<Seq<char>>,
    pub model_provider: Option<Seq<char>>,
    pub name: Option<Seq<char>>,
    pub approval_policy: Option<Seq<char>>,
    pub sandbox: Option<Seq<char>>,
    pub parent_thread_id: Option<Seq<char>>,
    pub ephemeral: bool,
}

impl View for CreateThreadRequest {
    type V = CreateThreadView;

    open spec fn view(&self) -> CreateThreadView {
        CreateThreadView {
            workspace: self.workspace@,
            model: text::opt_text(self.model),
            model_provider: text::opt_text(self.model_provider),
            name: text::opt_text(self.name),
            approval_policy: text::opt_text(self.approval_policy),
            sandbox: text::opt_text(self.sandbox),
            parent_thread_id: (match self.parent_thread_id { Some(v) => Some(v@), None => None }),
            ephemeral: self.ephemeral,
        }
    }
}

impl Clone for CreateThreadRequest {
    fn clone(&self) -> (r: Self)
        ensures
            r@ == self@,
    {
        CreateThreadRequest {
            workspace: self.workspace.clone(),
            model: text::clone_opt(&self.model),
            model_provider: text::clone_opt(&self.model_provider),
            name: text::clone_opt(&self.name),
            approval_policy: text::clone_opt(&self.approval_policy),
            sandbox: text::clone_opt(&self.sandbox),
            parent_thread_id: (match &self.parent_thread_id { Some(v) => Some(v.clone()), None => None }),
            ephemeral: self.ephemeral,
        }
    }
}

/// What is seen of a thread is all that it holds.
pub proof fn law_thread_is_seen_whole(t: Thread)
    ensures
        t@.id == t.id@,
        t@.preview == t.preview@,
        t@.ephemeral == t.ephemeral,
        t@.model_provider == t.model_provider@,
        t@.created_at == t.created_at,
        t@.updated_at == t.updated_at,
        t@.status == t.status,
        t@.path == text::opt_text(t.path),
        t@.cwd == t.cwd@,
        t@.cli_version == t.cli_version@,
        t@.source == t.source,
        t@.name == text::opt_text(t.name),
        t@.sandbox_policy == text::opt_text(t.sandbox_policy),
        t@.approval_mode == text::opt_text(t.approval_mode),
        t@.parent_thread_id == (match t.parent_thread_id { Some(v) => Some(v@), None => None }),
{
}

} // verus!
