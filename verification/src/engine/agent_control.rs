//! The registry of active agents and the limits on spawning more.

use crate::protocol::agent::{AgentInfo, AgentPath};
use crate::table::Table;
use crate::text;
use vstd::prelude::*;

verus! {

/// Why an agent could not be spawned.
#[derive(Debug, Clone, Copy, PartialEq, Eq, Structural)]
pub enum AgentSpawnError {
    LimitReached { max: usize },
}

impl AgentSpawnError {
    pub open spec fn message(&self) -> Seq<char> {
        match *self {
            AgentSpawnError::LimitReached { max } => "agent limit reached (max: "@ + text::decimal(
                max as nat,
            ) + ")"@,
        }
    }

    pub fn to_string(&self) -> (r: String)
        ensures
            r@ == self.message(),
    {
        match self {
            AgentSpawnError::LimitReached { max } => {
                let n = text::u64_text(*max as u64);
                text::cat3("agent limit reached (max: ", n.as_str(), ")")
            },
        }
    }
}

/// The active agents by path, and the number of slots taken.
#[derive(Debug)]
pub struct AgentRegistry {
    agents: Table<AgentInfo>,
    total_count: usize,
}

/// The path of the `n`-th agent below a parent.
pub open spec fn child_path(parent: Seq<char>, n: nat) -> Seq<char> {
    parent + "/agent-"@ + text::decimal(n)
}

/// One less; below zero the count wraps around.
pub open spec fn one_less(n: usize) -> usize {
    if n == 0 {
        usize::MAX
    } else {
        (n - 1) as usize
    }
}

/// The agents of a list that carry a path.
pub open spec fn with_path(list: Seq<AgentInfo>, path: Seq<char>) -> Seq<AgentInfo> {
    list.filter(|a: AgentInfo| a.agent_path@ == path)
}

/// The agents of a list that carry another path.
pub open spec fn without_path(list: Seq<AgentInfo>, path: Seq<char>) -> Seq<AgentInfo> {
    list.filter(|a: AgentInfo| a.agent_path@ != path)
}

proof fn lemma_no_path(list: Seq<AgentInfo>, path: Seq<char>)
    requires
        forall|i: int| 0 <= i < list.len() ==> (#[trigger] list[i]).agent_path@ != path,
    ensures
        with_path(list, path) == Seq::<AgentInfo>::empty(),
        without_path(list, path) == list,
    decreases list.len(),
{
    reveal(Seq::filter);
    if list.len() > 0 {
        let front = list.drop_last();
        assert forall|i: int| 0 <= i < front.len() implies (#[trigger] front[i]).agent_path@
            != path by {
            assert(front[i] == list[i]);
        }
        lemma_no_path(front, path);
        assert(list[list.len() - 1].agent_path@ != path);
        assert(list =~= front.push(list.last()));
    }
}

proof fn lemma_one_path(list: Seq<AgentInfo>, path: Seq<char>, k: int)
    requires
        0 <= k < list.len(),
        forall|i: int|
            0 <= i < list.len() ==> ((#[trigger] list[i]).agent_path@ == path <==> i == k),
    ensures
        with_path(list, path) == seq![list[k]],
        without_path(list, path) == list.remove(k),
    decreases list.len(),
{
    reveal(Seq::filter);
    let front = list.drop_last();
    let last = list.last();
    assert(last == list[list.len() - 1]);
    if k == list.len() - 1 {
        assert forall|i: int| 0 <= i < front.len() implies (#[trigger] front[i]).agent_path@
            != path by {
            assert(front[i] == list[i]);
        }
        lemma_no_path(front, path);
        assert(with_path(list, path) =~= seq![list[k]]);
        assert(without_path(list, path) =~= list.remove(k));
    } else {
        assert forall|i: int| 0 <= i < front.len() implies ((#[trigger] front[i]).agent_path@
            == path <==> i == k) by {
            assert(front[i] == list[i]);
        }
        lemma_one_path(front, path, k);
        assert(with_path(list, path) =~= seq![list[k]]);
        assert(without_path(list, path) =~= list.remove(k));
    }
}

impl AgentRegistry {
    /// The active agents by path.
    pub closed spec fn active(&self) -> Map<Seq<char>, AgentInfo> {
        self.agents@
    }

    /// The paths in the order of registration.
    pub closed spec fn paths(&self) -> Seq<Seq<char>> {
        self.agents.order()
    }

    /// The number of slots taken.
    pub closed spec fn taken(&self) -> usize {
        self.total_count
    }

    /// The active agents in the order of registration.
    pub open spec fn listed(&self) -> Seq<AgentInfo> {
        Seq::new(self.paths().len(), |i: int| self.active()[self.paths()[i]])
    }

    /// Each agent is kept under its own path.
    pub closed spec fn wf(&self) -> bool {
        &&& self.agents.wf()
        &&& forall|p: Seq<char>| #[trigger]
            self.agents@.dom().contains(p) ==> self.agents@[p].agent_path@ == p
    }

    /// The paths are those of the active agents, each once, and each agent carries the path
    /// that it is kept under.
    pub proof fn law_paths_are_unique(&self)
        requires
            self.wf(),
        ensures
            self.paths().no_duplicates(),
            forall|p: Seq<char>| self.active().dom().contains(p) <==> self.paths().contains(p),
            forall|i: int|
                0 <= i < self.listed().len() ==> (#[trigger] self.listed()[i]).agent_path@
                    == self.paths()[i],
    {
        self.agents.lemma_order();
        assert forall|i: int| 0 <= i < self.listed().len() implies (
        #[trigger] self.listed()[i]).agent_path@ == self.paths()[i] by {
            assert(self.paths().contains(self.paths()[i]));
            assert(self.agents@.dom().contains(self.paths()[i]));
        }
    }

    /// A path is listed where an agent is active under it, and nowhere else.
    proof fn lemma_listed(&self, path: Seq<char>)
        requires
            self.wf(),
        ensures
            self.active().dom().contains(path) ==> {
                let k = self.paths().index_of(path);
                &&& 0 <= k < self.listed().len()
                &&& self.paths()[k] == path
                &&& with_path(self.listed(), path) == seq![self.active()[path]]
                &&& without_path(self.listed(), path) == self.listed().remove(k)
            },
            !self.active().dom().contains(path) ==> with_path(self.listed(), path) == Seq::<
                AgentInfo,
            >::empty() && without_path(self.listed(), path) == self.listed(),
    {
        self.law_paths_are_unique();
        if self.active().dom().contains(path) {
            let k = self.paths().index_of(path);
            assert(self.paths().contains(path));
            lemma_one_path(self.listed(), path, k);
        } else {
            assert forall|i: int| 0 <= i < self.listed().len() implies (
            #[trigger] self.listed()[i]).agent_path@ != path by {
                assert(self.paths().contains(self.paths()[i]));
            }
            lemma_no_path(self.listed(), path);
        }
    }

    /// Takes a slot, unless as many as `max` are taken.
    pub fn reserve_slot(&mut self, max: usize) -> (r: Result<(), AgentSpawnError>)
        requires
            old(self).wf(),
        ensures
            final(self).wf(),
            final(self).active() == old(self).active(),
            final(self).paths() == old(self).paths(),
            if old(self).taken() < max {
                r is Ok && final(self).taken() == old(self).taken() + 1
            } else {
                r == Err::<(), AgentSpawnError>(AgentSpawnError::LimitReached { max })
                    && final(self).taken() == old(self).taken()
            },
    {
        if self.total_count >= max {
            return Err(AgentSpawnError::LimitReached { max });
        }
        self.total_count = self.total_count + 1;
        Ok(())
    }

    /// Registers an agent under its path, in place of one that had it before.
    pub fn register(&mut self, info: AgentInfo)
        requires
            old(self).wf(),
        ensures
            final(self).wf(),
            final(self).active() == old(self).active().insert(info.agent_path@, info),
            final(self).paths() == (if old(self).active().dom().contains(info.agent_path@) {
                old(self).paths()
            } else {
                old(self).paths().push(info.agent_path@)
            }),
            with_path(final(self).listed(), info.agent_path@) == seq![info],
            without_path(final(self).listed(), info.agent_path@) == without_path(
                old(self).listed(),
                info.agent_path@,
            ),
            final(self).taken() == old(self).taken(),
    {
        let ghost before = *self;
        let ghost path = info.agent_path@;
        let key = info.agent_path.to_string();
        self.agents.insert(key, info);
        proof {
            before.law_paths_are_unique();
            before.lemma_listed(path);
            self.lemma_listed(path);
            self.law_paths_are_unique();
            if before.active().dom().contains(path) {
                let k = before.paths().index_of(path);
                assert(self.listed().remove(k) =~= before.listed().remove(k)) by {
                    assert forall|i: int| 0 <= i < before.paths().len() && i != k implies
                        self.listed()[i] == #[trigger] before.listed()[i] by {
                        assert(before.paths()[i] != before.paths()[k]);
                    }
                }
            } else {
                let k = before.paths().len() as int;
                assert(self.paths().index_of(path) == k) by {
                    assert(self.paths()[k] == path);
                }
                assert forall|i: int| 0 <= i < k implies self.listed()[i]
                    == #[trigger] before.listed()[i] by {
                    assert(before.paths().contains(before.paths()[i]));
                }
                assert(self.listed().remove(k) =~= before.listed());
            }
        }
    }

    /// Removes an agent and gives its slot back. The slot is given back whether or
    /// not the agent was registered.
    pub fn remove(&mut self, path: &AgentPath)
        requires
            old(self).wf(),
        ensures
            final(self).wf(),
            final(self).active() == old(self).active().remove(path@),
            final(self).paths() == (if old(self).active().dom().contains(path@) {
                old(self).paths().remove(old(self).paths().index_of(path@))
            } else {
                old(self).paths()
            }),
            final(self).listed() == without_path(old(self).listed(), path@),
            final(self).taken() == one_less(old(self).taken()),
    {
        let ghost before = *self;
        let gone = self.agents.remove(path.as_str());
        proof {
            before.law_paths_are_unique();
            before.lemma_listed(path@);
            if before.active().dom().contains(path@) {
                let k = before.paths().index_of(path@);
                assert forall|i: int| 0 <= i < before.paths().len() && i != k implies (
                #[trigger] before.paths()[i]) != path@ by {
                    assert(before.paths()[i] != before.paths()[k]);
                }
                assert(self.agents.order() == before.paths().remove(k));
                assert(Seq::new(self.agents.order().len(), |i: int| self.agents@[self.agents.order()[i]])
                    =~= before.listed().remove(k));
            }
        }
        self.total_count = if self.total_count == 0 {
            usize::MAX
        } else {
            self.total_count - 1
        };
    }

    /// The active agents, in the order of registration.
    pub fn list(&self) -> (r: Vec<AgentInfo>)
        requires
            self.wf(),
        ensures
            r@ == self.listed(),
    {
        let mut out: Vec<AgentInfo> = Vec::new();
        let n: usize = self.agents.len();
        let mut i: usize = 0;
        while i < n
            invariant
                self.wf(),
                n == self.paths().len(),
                i <= n,
                out@.len() == i,
                forall|j: int| 0 <= j < i ==> #[trigger] out@[j] == self.active()[self.paths()[j]],
            decreases n - i,
        {
            out.push(self.agents.value_at(i).clone());
            i = i + 1;
        }
        assert(out@ =~= self.listed());
        out
    }

    /// A path below the parent that no active agent has. The number in it is the
    /// first free one above the number of active agents.
    pub fn allocate_path(&self, parent: &AgentPath) -> (r: AgentPath)
        requires
            self.wf(),
        ensures
            (parent@ + "/agent-"@).is_prefix_of(r@),
            !self.active().dom().contains(r@),
            with_path(self.listed(), r@) == Seq::<AgentInfo>::empty(),
            exists|n: nat| #[trigger] child_path(parent@, n) == r@ && n > self.paths().len() && forall|m: nat|
                self.paths().len() < m < n ==> self.active().dom().contains(#[trigger] child_path(parent@, m)),
            !self.active().dom().contains(child_path(parent@, self.paths().len() + 1)) ==> r@
                == child_path(parent@, self.paths().len() + 1),
    {
        let count: usize = self.agents.len();
        let mut n: u128 = count as u128 + 1;
        proof {
            self.agents.lemma_order();
        }
        loop
            invariant
                self.wf(),
                self.paths().len() == count,
                count < n <= 2 * count + 1,
                self.paths().no_duplicates(),
                forall|p: Seq<char>| self.active().dom().contains(p) <==> self.paths().contains(p),
                forall|m: nat| count < m < n ==> self.active().dom().contains(#[trigger] child_path(parent@, m)),
            decreases 2 * count + 2 - n,
        {
            let digits = text::u128_text(n);
            let p = text::cat3(parent.as_str(), "/agent-", digits.as_str());
            assert(p@ == child_path(parent@, n as nat));
            if !self.agents.contains(p.as_str()) {
                proof {
                    self.lemma_listed(p@);
                    let head = parent@ + "/agent-"@;
                    assert(p@.take(head.len() as int) =~= head);
                }
                return AgentPath(p);
            }
            proof {
                assert forall|m: nat| count < m <= n implies self.paths().contains(#[trigger] child_path(parent@, m)) by {
                    if m == n {
                    } else {
                        assert(self.active().dom().contains(child_path(parent@, m)));
                    }
                }
                lemma_used_paths(self.paths(), parent@, count as nat, n as nat);
            }
            n = n + 1;
        }
    }
}

/// As many different paths as there are in a list of `count` cannot be more than
/// `count`: the numbers in use above `count` end below twice that.
proof fn lemma_used_paths(paths: Seq<Seq<char>>, parent: Seq<char>, count: nat, n: nat)
    requires
        paths.len() == count,
        paths.no_duplicates(),
        count < n,
        forall|m: nat| count < m <= n ==> paths.contains(#[trigger] child_path(parent, m)),
    ensures
        n <= 2 * count,
{
    let used = Seq::new((n - count) as nat, |i: int| child_path(parent, (count + 1 + i) as nat));
    assert(used.no_duplicates()) by {
        assert forall|i: int, j: int| 0 <= i < used.len() && 0 <= j < used.len() && i != j implies used[i] != used[j] by {
            if used[i] == used[j] {
                let a = (count + 1 + i) as nat;
                let b = (count + 1 + j) as nat;
                let head = parent + "/agent-"@;
                assert(child_path(parent, a).skip(head.len() as int) =~= text::decimal(a));
                assert(child_path(parent, b).skip(head.len() as int) =~= text::decimal(b));
                text::lemma_decimal_injective(a, b);
            }
        }
    }
    paths.unique_seq_to_set();
    used.unique_seq_to_set();
    assert(used.to_set().subset_of(paths.to_set())) by {
        assert forall|p: Seq<char>| used.to_set().contains(p) implies paths.to_set().contains(p) by {
            let i = used.index_of(p);
            assert(used[i] == p);
            assert(paths.contains(child_path(parent, (count + 1 + i) as nat)));
        }
    }
    vstd::set_lib::lemma_len_subset(used.to_set(), paths.to_set());
}

impl Default for AgentRegistry {
    fn default() -> (r: Self)
        ensures
            r.wf(),
            r.active() == Map::<Seq<char>, AgentInfo>::empty(),
            r.paths() == Seq::<Seq<char>>::empty(),
            r.taken() == 0,
    {
        AgentRegistry { agents: Table::new(), total_count: 0 }
    }
}

/// The registry with the limits on depth and number of agents.
#[derive(Debug)]
pub struct AgentControl {
    pub registry: AgentRegistry,
    pub max_depth: u32,
    pub max_total: usize,
}

impl AgentControl {
    pub fn new(max_total: usize, max_depth: u32) -> (r: Self)
        ensures
            r.registry.wf(),
            r.registry.active() == Map::<Seq<char>, AgentInfo>::empty(),
            r.registry.paths() == Seq::<Seq<char>>::empty(),
            r.registry.taken() == 0,
            r.max_depth == max_depth,
            r.max_total == max_total,
    {
        AgentControl { registry: AgentRegistry::default(), max_depth, max_total }
    }

    /// Whether an agent at this depth may spawn another.
    pub fn can_spawn(&self, depth: u32) -> (r: bool)
        ensures
            r == (depth < self.max_depth),
    {
        depth < self.max_depth
    }
}

impl Default for AgentControl {
    fn default() -> (r: Self)
        ensures
            r.registry.wf(),
            r.registry.active() == Map::<Seq<char>, AgentInfo>::empty(),
            r.registry.paths() == Seq::<Seq<char>>::empty(),
            r.registry.taken() == 0,
            r.max_depth == 5,
            r.max_total == 10,
    {
        AgentControl::new(10, 5)
    }
}

/// A path below a parent is the path of the parent and the number of the agent, so that no
/// two numbers give the same path.
pub proof fn law_child_paths_are_numbered(parent: Seq<char>, n: nat, m: nat)
    ensures
        child_path(parent, n) == parent + "/agent-"@ + text::decimal(n),
        child_path(parent, n) == child_path(parent, m) ==> n == m,
{
    if child_path(parent, n) == child_path(parent, m) {
        let head = parent + "/agent-"@;
        assert(child_path(parent, n).skip(head.len() as int) =~= text::decimal(n));
        assert(child_path(parent, m).skip(head.len() as int) =~= text::decimal(m));
        text::lemma_decimal_injective(n, m);
    }
}

/// A slot that is given back is one less taken; where none was taken the count wraps around.
pub proof fn law_slots_are_given_back(n: usize)
    ensures
        n > 0 ==> one_less(n) == n - 1,
        one_less(0) == usize::MAX,
{
}

/// An agent of a list either carries a path or does not: the two parts of a list keep its
/// order and leave nothing out.
pub proof fn law_lists_are_parted_by_path(list: Seq<AgentInfo>, a: AgentInfo, path: Seq<char>)
    ensures
        a.agent_path@ == path ==> with_path(list.push(a), path) == with_path(list, path).push(a)
            && without_path(list.push(a), path) == without_path(list, path),
        a.agent_path@ != path ==> with_path(list.push(a), path) == with_path(list, path)
            && without_path(list.push(a), path) == without_path(list, path).push(a),
        with_path(Seq::empty(), path).len() == 0,
        without_path(Seq::empty(), path).len() == 0,
{
    reveal(Seq::filter);
    assert(list.push(a).drop_last() =~= list);
}

/// A refused spawn names the limit.
pub proof fn law_spawn_errors_name_the_limit(e: AgentSpawnError)
    ensures
        e matches AgentSpawnError::LimitReached { max } ==> e.message()
            == "agent limit reached (max: "@ + text::decimal(max as nat) + ")"@,
{
}

} // verus!
