//! The threads that are active in the runtime.

use crate::context::manager::{ContextManager, ContextView};
use crate::engine::compaction::CompactionTracker;
use crate::engine::turn_fsm::{MachineView, TurnStateMachine};
use crate::protocol::id::{ThreadId, TurnId};
use crate::protocol::thread::{
    CreateThreadRequest, SessionSource, Thread, ThreadStatus, ThreadView,
};
use crate::table::Table;
use crate::text;
use vstd::prelude::*;

verus! {

/// A thread with the turn that runs in it and its history.
#[derive(Debug)]
pub struct ActiveThread {
    pub thread: Thread,
    pub active_turn_id: Option<TurnId>,
    pub context_manager: ContextManager,
    pub compaction_tracker: CompactionTracker,
    pub turn_fsm: Option<TurnStateMachine>,
}

/// An active thread, over plain texts.
pub struct ActiveView {
    pub thread: ThreadView,
    /// The turn that occupies the thread.
    pub active_turn: Option<Seq<char>>,
    pub context: ContextView,
    pub tracker: CompactionTracker,
    /// The state machine of that turn.
    pub machine: Option<MachineView>,
}

impl View for ActiveThread {
    type V = ActiveView;

    open spec fn view(&self) -> ActiveView {
        ActiveView {
            thread: self.thread@,
            active_turn: match self.active_turn_id {
                Some(t) => Some(t@),
                None => None,
            },
            context: self.context_manager@,
            tracker: self.compaction_tracker,
            machine: match self.turn_fsm {
                Some(f) => Some(f@),
                None => None,
            },
        }
    }
}

impl ActiveView {
    /// A thread in which nothing has happened.
    pub open spec fn start(thread: ThreadView) -> ActiveView {
        ActiveView {
            thread,
            active_turn: None,
            context: ContextView::start(Seq::empty()),
            tracker: CompactionTracker {
                consecutive_failures: 0,
                total_compactions: 0,
                last_token_reduction: None,
            },
            machine: None,
        }
    }
}

/// The active threads by id.
#[derive(Debug)]
pub struct ActiveThreads {
    table: Table<ActiveThread>,
}

impl View for ActiveThreads {
    type V = Map<Seq<char>, ActiveView>;

    closed spec fn view(&self) -> Map<Seq<char>, ActiveView> {
        self.table@.map_values(|t: ActiveThread| t@)
    }
}

/// The threads with the turn slot of one of them freed, if that turn holds it.
pub open spec fn cleared(
    threads: Map<Seq<char>, ActiveView>,
    thread_id: Seq<char>,
    turn_id: Seq<char>,
) -> Map<Seq<char>, ActiveView> {
    if threads.dom().contains(thread_id) && threads[thread_id].active_turn == Some(turn_id) {
        threads.insert(thread_id, ActiveView { active_turn: None, ..threads[thread_id] })
    } else {
        threads
    }
}

impl ActiveThreads {
    pub closed spec fn wf(&self) -> bool {
        self.table.wf()
    }

    pub fn new() -> (r: Self)
        ensures
            r.wf(),
            r@ == Map::<Seq<char>, ActiveView>::empty(),
    {
        let r = ActiveThreads { table: Table::new() };
        assert(r@ =~= Map::<Seq<char>, ActiveView>::empty());
        r
    }

    pub fn get(&self, thread_id: &ThreadId) -> (r: Option<&ActiveThread>)
        requires
            self.wf(),
        ensures
            match r {
                Some(t) => self@.dom().contains(thread_id@) && t@ == self@[thread_id@],
                None => !self@.dom().contains(thread_id@),
            },
    {
        self.table.get(thread_id.as_str())
    }

    /// Takes a thread out.
    pub fn take(&mut self, thread_id: &ThreadId) -> (r: Option<ActiveThread>)
        requires
            old(self).wf(),
        ensures
            final(self).wf(),
            final(self)@ == old(self)@.remove(thread_id@),
            match r {
                Some(t) => old(self)@.dom().contains(thread_id@) && t@ == old(self)@[thread_id@],
                None => !old(self)@.dom().contains(thread_id@),
            },
    {
        let ghost before = self@;
        let r = self.table.remove(thread_id.as_str());
        assert(self@ =~= before.remove(thread_id@));
        r
    }

    /// Puts a thread in under an id.
    pub fn put(&mut self, thread_id: &ThreadId, thread: ActiveThread)
        requires
            old(self).wf(),
        ensures
            final(self).wf(),
            final(self)@ == old(self)@.insert(thread_id@, thread@),
    {
        let ghost before = self@;
        self.table.insert(thread_id.to_string(), thread);
        assert(self@ =~= before.insert(thread_id@, thread@));
    }

    /// Adds a thread in which nothing has happened.
    pub fn activate(&mut self, thread: Thread)
        requires
            old(self).wf(),
        ensures
            final(self).wf(),
            final(self)@ == old(self)@.insert(thread@.id, ActiveView::start(thread@)),
    {
        let id = thread.id.clone();
        self.put(
            &id,
            ActiveThread {
                thread,
                active_turn_id: None,
                context_manager: ContextManager::new(),
                compaction_tracker: CompactionTracker::new(),
                turn_fsm: None,
            },
        );
    }

    /// Frees the turn slot of a thread, if the turn holds it.
    pub fn clear_active_turn(&mut self, thread_id: &ThreadId, turn_id: &TurnId)
        requires
            old(self).wf(),
        ensures
            final(self).wf(),
            final(self)@ == cleared(old(self)@, thread_id@, turn_id@),
    {
        let ghost before = self@;
        if let Some(t) = self.take(thread_id) {
            let mut t = t;
            let held: bool = match &t.active_turn_id {
                Some(id) => text::str_eq(id.as_str(), turn_id.as_str()),
                None => false,
            };
            if held {
                t.active_turn_id = None;
            }
            self.put(thread_id, t);
            assert(self@ =~= cleared(before, thread_id@, turn_id@));
        } else {
            assert(self@ =~= before);
        }
    }

    /// The ids of all threads, each once, in any order.
    pub fn ids(&self) -> (r: Vec<ThreadId>)
        requires
            self.wf(),
        ensures
            id_texts(r@).no_duplicates(),
            id_texts(r@).to_set() == self@.dom(),
    {
        let ghost order = self.table.order();
        let n: usize = self.table.len();
        let mut out: Vec<ThreadId> = Vec::new();
        let mut i: usize = 0;
        while i < n
            invariant
                self.wf(),
                order == self.table.order(),
                n == order.len(),
                i <= n,
                out.len() == i,
                forall|j: int| 0 <= j < i ==> (#[trigger] out@[j])@ == order[j],
            decreases n - i,
        {
            out.push(ThreadId::from_string(self.table.key_at(i)));
            i = i + 1;
        }
        assert(id_texts(out@) =~= order);
        proof {
            self.table.lemma_order();
            assert forall|k: Seq<char>| #[trigger] order.to_set().contains(k)
                <==> self@.dom().contains(k) by {
                assert(self.table@.dom().contains(k) <==> order.contains(k));
            }
            assert(order.to_set() =~= self@.dom());
        }
        out
    }
}

/// Ids, over plain texts.
pub open spec fn id_texts(v: Seq<ThreadId>) -> Seq<Seq<char>> {
    v.map_values(|t: ThreadId| t@)
}

/// The name that a thread without one gets from the number of threads created.
pub open spec fn default_name(counter: u64) -> Seq<char> {
    "Thread "@ + text::decimal(counter as nat)
}

/// The thread that a request asks for.
pub open spec fn thread_of(
    request: CreateThreadRequest,
    id: Seq<char>,
    provider: Seq<char>,
    counter: u64,
    now: i64,
) -> ThreadView {
    ThreadView {
        id,
        preview: Seq::empty(),
        ephemeral: request.ephemeral,
        model_provider: provider,
        created_at: now,
        updated_at: now,
        status: ThreadStatus::Idle,
        path: Some(request.workspace@),
        cwd: request.workspace@,
        cli_version: "0.1.0"@,
        source: SessionSource::Interactive,
        name: Some(
            match request.name {
                Some(n) => n@,
                None => default_name(counter),
            },
        ),
        sandbox_policy: text::opt_text(request.sandbox),
        approval_mode: text::opt_text(request.approval_policy),
        parent_thread_id: match request.parent_thread_id {
            Some(p) => Some(p@),
            None => None,
        },
    }
}

/// Makes the thread that a request asks for. The counter is the number of threads
/// created, this one included.
pub fn create_thread(
    request: CreateThreadRequest,
    id: ThreadId,
    provider: &str,
    counter: u64,
    now: i64,
) -> (r: Thread)
    ensures
        r@ == thread_of(request, id@, provider@, counter, now),
{
    let name = match request.name {
        Some(n) => n,
        None => {
            let n = text::u64_text(counter);
            text::cat("Thread ", n.as_str())
        },
    };
    Thread {
        id,
        preview: String::new(),
        ephemeral: request.ephemeral,
        model_provider: text::owned(provider),
        created_at: now,
        updated_at: now,
        status: ThreadStatus::Idle,
        path: Some(request.workspace.clone()),
        cwd: request.workspace,
        cli_version: text::owned("0.1.0"),
        source: SessionSource::Interactive,
        name: Some(name),
        sandbox_policy: request.sandbox,
        approval_mode: request.approval_policy,
        parent_thread_id: request.parent_thread_id,
    }
}

/// A thread starts with nothing in it: no turn, no history, no counts.
pub proof fn law_thread_starts_empty(thread: ThreadView)
    ensures
        ActiveView::start(thread).thread == thread,
        ActiveView::start(thread).active_turn is None,
        ActiveView::start(thread).machine is None,
        ActiveView::start(thread).context.items.len() == 0,
        ActiveView::start(thread).context.token_info is None,
        ActiveView::start(thread).tracker.consecutive_failures == 0,
        ActiveView::start(thread).tracker.total_compactions == 0,
        ActiveView::start(thread).tracker.last_token_reduction is None,
{
}

/// A thread is made as it was asked for: it works in the workspace of the request, under
/// the given id and provider, with the name, the sandbox, the approval policy and the parent
/// of the request, idle and as old as it is new.
pub proof fn law_thread_is_made_as_asked(
    request: CreateThreadRequest,
    id: Seq<char>,
    provider: Seq<char>,
    counter: u64,
    now: i64,
)
    ensures
        ({
            let t = thread_of(request, id, provider, counter, now);
            &&& t.id == id
            &&& t.preview.len() == 0
            &&& t.ephemeral == request.ephemeral
            &&& t.model_provider == provider
            &&& t.created_at == now
            &&& t.updated_at == now
            &&& t.status is Idle
            &&& t.path == Some(request.workspace@)
            &&& t.cwd == request.workspace@
            &&& t.cli_version == "0.1.0"@
            &&& t.source is Interactive
            &&& request.name matches Some(n) ==> t.name == Some(n@)
            &&& request.name is None ==> t.name == Some("Thread "@ + text::decimal(counter as nat))
            &&& request.sandbox matches Some(s) ==> t.sandbox_policy == Some(s@)
            &&& request.sandbox is None ==> t.sandbox_policy is None
            &&& request.approval_policy matches Some(a) ==> t.approval_mode == Some(a@)
            &&& request.approval_policy is None ==> t.approval_mode is None
            &&& request.parent_thread_id matches Some(p) ==> t.parent_thread_id == Some(p@)
            &&& request.parent_thread_id is None ==> t.parent_thread_id is None
        }),
{
}

/// A turn frees only the slot that it holds, and frees nothing but the slot.
pub proof fn law_only_the_holder_frees(
    threads: Map<Seq<char>, ActiveView>,
    thread_id: Seq<char>,
    turn_id: Seq<char>,
    other: Seq<char>,
)
    ensures
        cleared(threads, thread_id, turn_id).dom() == threads.dom(),
        threads.dom().contains(thread_id) ==> {
            let t = threads[thread_id];
            let c = cleared(threads, thread_id, turn_id)[thread_id];
            &&& t.active_turn == Some(turn_id) ==> c.active_turn is None
            &&& t.active_turn != Some(turn_id) ==> c.active_turn == t.active_turn
            &&& c.thread == t.thread
            &&& c.context == t.context
            &&& c.tracker == t.tracker
            &&& c.machine == t.machine
        },
        other != thread_id && threads.dom().contains(other) ==> cleared(
            threads,
            thread_id,
            turn_id,
        )[other] == threads[other],
{
    assert(cleared(threads, thread_id, turn_id).dom() =~= threads.dom());
}

/// What is seen of an active thread is all that it holds.
pub proof fn law_active_thread_is_seen_whole(a: ActiveThread)
    ensures
        a@.thread == a.thread@,
        a@.active_turn == (match a.active_turn_id { Some(t) => Some(t@), None => None, }),
        a@.context == a.context_manager@,
        a@.tracker == a.compaction_tracker,
        a@.machine == (match a.turn_fsm { Some(f) => Some(f@), None => None, }),
{
}

} // verus!
