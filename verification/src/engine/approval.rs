//! Approvals that hosts have not answered yet.

use crate::json;
use crate::protocol::id::{ThreadId, ToolCallId, TurnId};
use crate::table::Table;
use crate::text;
use serde_json::Value;
use vstd::prelude::*;

verus! {

/// An approval that is waiting for its answer, with all that is needed to go on.
#[derive(Debug)]
pub struct PendingApproval {
    pub approval_id: String,
    pub thread_id: ThreadId,
    pub turn_id: TurnId,
    pub call_id: ToolCallId,
    pub tool_name: String,
    pub arguments: Value,
    pub model: String,
    pub workspace: String,
    pub config_json: String,
}

/// A pending approval, over plain texts.
pub struct PendingView {
    pub approval_id: Seq<char>,
    pub thread_id: Seq<char>,
    pub turn_id: Seq<char>,
    pub call_id: Seq<char>,
    pub tool_name: Seq<char>,
    pub arguments: Seq<char>,
    pub model: Seq<char>,
    pub workspace: Seq<char>,
    pub config_json: Seq<char>,
}

impl View for PendingApproval {
    type V = PendingView;

    open spec fn view(&self) -> PendingView {
        PendingView {
            approval_id: self.approval_id@,
            thread_id: self.thread_id@,
            turn_id: self.turn_id@,
            call_id: self.call_id@,
            tool_name: self.tool_name@,
            arguments: json::json_text(self.arguments),
            model: self.model@,
            workspace: self.workspace@,
            config_json: self.config_json@,
        }
    }
}

impl Clone for PendingApproval {
    fn clone(&self) -> (r: Self)
        ensures
            r@ == self@,
    {
        PendingApproval {
            approval_id: self.approval_id.clone(),
            thread_id: self.thread_id.clone(),
            turn_id: self.turn_id.clone(),
            call_id: self.call_id.clone(),
            tool_name: self.tool_name.clone(),
            arguments: self.arguments.clone(),
            model: self.model.clone(),
            workspace: self.workspace.clone(),
            config_json: self.config_json.clone(),
        }
    }
}

/// The approvals that are waiting, by their id.
#[derive(Debug)]
pub struct ApprovalCoordinator {
    pending: Table<PendingApproval>,
}

impl ApprovalCoordinator {
    /// The waiting approvals by id.
    pub closed spec fn waiting(&self) -> Map<Seq<char>, PendingApproval> {
        self.pending@
    }

    /// Each approval is kept under its own id.
    pub closed spec fn wf(&self) -> bool {
        &&& self.pending.wf()
        &&& forall|k: Seq<char>|
            #[trigger] self.pending@.dom().contains(k) ==> self.pending@[k].approval_id@ == k
    }

    /// An approval is found under its own id.
    pub proof fn law_kept_under_own_id(&self, k: Seq<char>)
        requires
            self.wf(),
            self.waiting().dom().contains(k),
        ensures
            self.waiting()[k].approval_id@ == k,
    {
    }

    /// Whether the approval under an id belongs to a turn.
    pub open spec fn of_turn(&self, k: Seq<char>, thread_id: Seq<char>, turn_id: Seq<char>) -> bool {
        &&& self.waiting().dom().contains(k)
        &&& self.waiting()[k].thread_id@ == thread_id
        &&& self.waiting()[k].turn_id@ == turn_id
    }

    pub fn new() -> (r: Self)
        ensures
            r.wf(),
            r.waiting() == Map::<Seq<char>, PendingApproval>::empty(),
    {
        ApprovalCoordinator { pending: Table::new() }
    }

    /// Keeps an approval under its id.
    pub fn register(&mut self, approval: PendingApproval)
        requires
            old(self).wf(),
        ensures
            final(self).wf(),
            final(self).waiting() == old(self).waiting().insert(approval.approval_id@, approval),
    {
        let key = approval.approval_id.clone();
        self.pending.insert(key, approval);
    }

    /// Takes out an approval of a turn. `None` exactly where the turn has none.
    pub fn resolve_by_turn(&mut self, thread_id: &ThreadId, turn_id: &TurnId) -> (r: Option<
        PendingApproval,
    >)
        requires
            old(self).wf(),
        ensures
            final(self).wf(),
            match r {
                Some(a) => old(self).of_turn(a.approval_id@, thread_id@, turn_id@) && a == old(
                    self,
                ).waiting()[a.approval_id@] && final(self).waiting() == old(self).waiting().remove(
                    a.approval_id@,
                ),
                None => final(self).waiting() == old(self).waiting() && forall|k: Seq<char>|
                    !#[trigger] old(self).of_turn(k, thread_id@, turn_id@),
            },
    {
        let n: usize = self.pending.len();
        let mut i: usize = 0;
        while i < n
            invariant
                self.wf(),
                *self == *old(self),
                n == self.pending.order().len(),
                i <= n,
                forall|j: int|
                    0 <= j < i ==> !self.of_turn(
                        #[trigger] self.pending.order()[j],
                        thread_id@,
                        turn_id@,
                    ),
            decreases n - i,
        {
            let a = self.pending.value_at(i);
            if text::str_eq(a.thread_id.as_str(), thread_id.as_str()) && text::str_eq(
                a.turn_id.as_str(),
                turn_id.as_str(),
            ) {
                let key = text::owned(self.pending.key_at(i));
                assert(self.of_turn(key@, thread_id@, turn_id@));
                return self.pending.remove(key.as_str());
            }
            i = i + 1;
        }
        proof {
            self.pending.lemma_order();
            assert forall|k: Seq<char>| !#[trigger] self.of_turn(k, thread_id@, turn_id@) by {
                if self.of_turn(k, thread_id@, turn_id@) {
                    let j = self.pending.order().index_of(k);
                    assert(self.pending.order()[j] == k);
                }
            }
        }
        None
    }

    /// Whether a thread has an approval waiting.
    pub fn has_pending(&self, thread_id: &ThreadId) -> (r: bool)
        requires
            self.wf(),
        ensures
            r == exists|k: Seq<char>|
                #[trigger] self.waiting().dom().contains(k) && self.waiting()[k].thread_id@
                    == thread_id@,
    {
        let n: usize = self.pending.len();
        let mut i: usize = 0;
        while i < n
            invariant
                self.wf(),
                n == self.pending.order().len(),
                i <= n,
                forall|j: int|
                    0 <= j < i ==> self.waiting()[#[trigger] self.pending.order()[j]].thread_id@
                        != thread_id@,
            decreases n - i,
        {
            let a = self.pending.value_at(i);
            if text::str_eq(a.thread_id.as_str(), thread_id.as_str()) {
                assert(self.waiting().dom().contains(self.pending.order()[i as int]));
                return true;
            }
            i = i + 1;
        }
        proof {
            self.pending.lemma_order();
            assert forall|k: Seq<char>| #[trigger] self.waiting().dom().contains(k) implies self.waiting()[k].thread_id@
                != thread_id@ by {
                let j = self.pending.order().index_of(k);
                assert(self.pending.order()[j] == k);
            }
        }
        false
    }

    /// Takes out the approval with an id.
    pub fn resolve_by_approval_id(&mut self, approval_id: &str) -> (r: Option<PendingApproval>)
        requires
            old(self).wf(),
        ensures
            final(self).wf(),
            r == (if old(self).waiting().dom().contains(approval_id@) {
                Some(old(self).waiting()[approval_id@])
            } else {
                None
            }),
            final(self).waiting() == old(self).waiting().remove(approval_id@),
    {
        self.pending.remove(approval_id)
    }
}

impl Default for ApprovalCoordinator {
    fn default() -> (r: Self)
        ensures
            r.wf(),
            r.waiting() == Map::<Seq<char>, PendingApproval>::empty(),
    {
        ApprovalCoordinator::new()
    }
}

/// An approval that was registered comes back when it is resolved, and only once.
pub proof fn law_resolved_once(waiting: Map<Seq<char>, PendingApproval>, a: PendingApproval)
    ensures
        waiting.insert(a.approval_id@, a).dom().contains(a.approval_id@),
        waiting.insert(a.approval_id@, a)[a.approval_id@] == a,
        !waiting.insert(a.approval_id@, a).remove(a.approval_id@).dom().contains(a.approval_id@),
{
}

/// An approval is of the turn that it was asked for in, on its thread, and of no other.
pub proof fn law_approvals_are_of_their_turn(
    c: ApprovalCoordinator,
    k: Seq<char>,
    thread_id: Seq<char>,
    turn_id: Seq<char>,
)
    ensures
        c.of_turn(k, thread_id, turn_id) <==> c.waiting().dom().contains(k)
            && c.waiting()[k].thread_id@ == thread_id && c.waiting()[k].turn_id@ == turn_id,
{
}

/// What is seen of an approval is all that it holds.
pub proof fn law_approvals_are_seen_whole(a: PendingApproval)
    ensures
        a@.approval_id == a.approval_id@,
        a@.thread_id == a.thread_id@,
        a@.turn_id == a.turn_id@,
        a@.call_id == a.call_id@,
        a@.tool_name == a.tool_name@,
        a@.arguments == json::json_text(a.arguments),
        a@.model == a.model@,
        a@.workspace == a.workspace@,
        a@.config_json == a.config_json@,
{
}

} // verus!
