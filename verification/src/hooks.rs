//! Hooks that run at fixed points of a session. A hook that fails affects neither the
//! others nor the turn.

use crate::protocol::id::{ThreadId, ToolCallId, TurnId};
use crate::table::Table;
use crate::text;
use vstd::prelude::*;
use vstd::string::*;

verus! {

/// The points at which hooks run.
#[derive(Debug, Clone, Copy, PartialEq, Eq, Hash, Structural)]
pub enum HookPoint {
    SessionStart,
    UserPromptSubmitted,
    BeforeToolCall,
    PermissionRequested,
    AfterToolCall,
    TurnCompleted,
    SessionStop,
}

/// What a hook is told.
#[derive(Debug)]
pub struct HookContext {
    pub hook_point: HookPoint,
    pub thread_id: Option<ThreadId>,
    pub turn_id: Option<TurnId>,
    pub tool_name: Option<String>,
    pub tool_call_id: Option<ToolCallId>,
    pub data: Option<String>,
    pub approved: Option<bool>,
}

/// What a hook came to.
#[derive(Debug, Clone)]
pub enum HookOutcome {
    /// Nothing more to do.
    Done,
    /// A text to add to the prompt.
    InjectContext { content: String },
    /// A warning to show.
    Warning { message: String },
}

/// A hook.
#[derive(Debug, Clone)]
pub struct Hook {
    pub id: String,
    pub name: String,
    pub hook_points: Vec<HookPoint>,
    pub plugin_id: Option<String>,
    /// How long the hook may run, in milliseconds.
    pub timeout_ms: u64,
}

/// A hook that says what it is.
pub trait HookHandler {
    fn metadata(&self) -> &Hook;
}

/// A registered hook with the handle that runs it.
#[derive(Debug)]
pub struct RegisteredHook<H> {
    pub meta: Hook,
    pub handler: H,
}

/// A hook at a point.
pub struct PointView {
    pub point: HookPoint,
    pub id: Seq<char>,
}

/// The hooks, and at which points they run, in the order of registration.
#[derive(Debug)]
pub struct HookDispatcher<H> {
    handlers: Table<RegisteredHook<H>>,
    points: Vec<(HookPoint, String)>,
}

/// The shortest time, in milliseconds, that a hook is given.
pub const MIN_TIMEOUT_MS: u64 = 1000;

/// The time that a hook is given.
pub open spec fn allowed_time(timeout_ms: u64) -> u64 {
    if timeout_ms >= MIN_TIMEOUT_MS {
        timeout_ms
    } else {
        MIN_TIMEOUT_MS
    }
}

/// The registrations of one hook, in order.
pub open spec fn registrations(points: Seq<HookPoint>, id: Seq<char>) -> Seq<PointView> {
    points.map_values(|p: HookPoint| PointView { point: p, id })
}

/// The hooks that run at a point, in order; those that are not registered any more are
/// skipped.
pub open spec fn due<H>(
    points: Seq<PointView>,
    hooks: Map<Seq<char>, RegisteredHook<H>>,
    point: HookPoint,
) -> Seq<Seq<char>>
    decreases points.len(),
{
    if points.len() == 0 {
        Seq::empty()
    } else {
        let before = due(points.drop_last(), hooks, point);
        let p = points.last();
        if p.point == point && hooks.dom().contains(p.id) {
            before.push(p.id)
        } else {
            before
        }
    }
}

/// Whether a hook belongs to a plugin.
pub open spec fn of_plugin(h: Hook, plugin_id: Seq<char>) -> bool {
    text::opt_text(h.plugin_id) == Some(plugin_id)
}

impl<H> HookDispatcher<H> {
    /// The hooks by id.
    pub closed spec fn hooks(&self) -> Map<Seq<char>, RegisteredHook<H>> {
        self.handlers@
    }

    /// The points in the order of registration.
    pub closed spec fn schedule(&self) -> Seq<PointView> {
        self.points@.map_values(|p: (HookPoint, String)| PointView { point: p.0, id: p.1@ })
    }

    pub closed spec fn count(&self) -> nat {
        self.handlers.order().len()
    }

    /// Each hook is kept under its own id.
    pub closed spec fn wf(&self) -> bool {
        &&& self.handlers.wf()
        &&& forall|k: Seq<char>|
            #[trigger] self.handlers@.dom().contains(k) ==> self.handlers@[k].meta.id@ == k
    }

    pub fn new() -> (r: Self)
        ensures
            r.wf(),
            r.hooks() == Map::<Seq<char>, RegisteredHook<H>>::empty(),
            r.schedule() == Seq::<PointView>::empty(),
            r.count() == 0,
    {
        let r = HookDispatcher { handlers: Table::new(), points: Vec::new() };
        assert(r.schedule() =~= Seq::<PointView>::empty());
        r
    }

    /// Registers a hook at all its points, behind those that are there.
    pub fn register(&mut self, meta: Hook, handler: H)
        requires
            old(self).wf(),
        ensures
            final(self).wf(),
            final(self).hooks() == old(self).hooks().insert(
                meta.id@,
                RegisteredHook { meta, handler },
            ),
            final(self).schedule() == old(self).schedule() + registrations(
                meta.hook_points@,
                meta.id@,
            ),
            final(self).count() == (if old(self).hooks().dom().contains(meta.id@) {
                old(self).count()
            } else {
                old(self).count() + 1
            }),
    {
        let ghost before = self.schedule();
        let ghost want = registrations(meta.hook_points@, meta.id@);
        let mut i: usize = 0;
        assert(before + want.take(0) =~= before);
        while i < meta.hook_points.len()
            invariant
                i <= meta.hook_points.len(),
                self.wf(),
                self.handlers == old(self).handlers,
                want == registrations(meta.hook_points@, meta.id@),
                self.schedule() == before + want.take(i as int),
            decreases meta.hook_points.len() - i,
        {
            let ghost prior = self.schedule();
            self.points.push((meta.hook_points[i], meta.id.clone()));
            assert(self.schedule() =~= prior.push(
                PointView { point: meta.hook_points@[i as int], id: meta.id@ },
            ));
            assert(before + want.take(i + 1) =~= (before + want.take(i as int)).push(
                want[i as int],
            ));
            i = i + 1;
        }
        assert(want.take(i as int) =~= want);
        let key = meta.id.clone();
        self.handlers.insert(key, RegisteredHook { meta, handler });
    }

    /// Removes the hooks of a plugin from everywhere, and returns how many there were.
    pub fn remove_plugin_hooks(&mut self, plugin_id: &str) -> (r: usize)
        requires
            old(self).wf(),
        ensures
            final(self).wf(),
            forall|k: Seq<char>|
                #![trigger final(self).hooks().dom().contains(k)]
                final(self).hooks().dom().contains(k) <==> (old(self).hooks().dom().contains(k)
                    && !of_plugin(old(self).hooks()[k].meta, plugin_id@)),
            forall|k: Seq<char>|
                #[trigger] final(self).hooks().dom().contains(k) ==> final(self).hooks()[k] == old(
                    self,
                ).hooks()[k],
            final(self).schedule() == old(self).schedule().filter(
                |p: PointView|
                    !(old(self).hooks().dom().contains(p.id) && of_plugin(
                        old(self).hooks()[p.id].meta,
                        plugin_id@,
                    )),
            ),
            r + final(self).count() == old(self).count(),
    {
        let ghost start = *self;
        let mut kept: Vec<(HookPoint, String)> = Vec::new();
        let ghost all = self.schedule();
        let ghost stays = |p: PointView|
            !(start.hooks().dom().contains(p.id) && of_plugin(
                start.hooks()[p.id].meta,
                plugin_id@,
            ));
        let mut i: usize = 0;
        proof {
            reveal(Seq::filter);
            assert(all.take(0) =~= Seq::empty());
            assert(points_of(kept@) =~= all.take(0).filter(stays));
        }
        while i < self.points.len()
            invariant
                i <= self.points.len(),
                *self == start,
                self.wf(),
                all == points_of(self.points@),
                stays == (|p: PointView|
                    !(start.hooks().dom().contains(p.id) && of_plugin(
                        start.hooks()[p.id].meta,
                        plugin_id@,
                    ))),
                points_of(kept@) == all.take(i as int).filter(stays),
            decreases self.points.len() - i,
        {
            let id = &self.points[i].1;
            let drops: bool = match self.handlers.get(id.as_str()) {
                Some(h) => is_of_plugin(&h.meta, plugin_id),
                None => false,
            };
            proof {
                reveal(Seq::filter);
                assert(all.take(i + 1).drop_last() =~= all.take(i as int));
                assert(all.take(i + 1).last() == (PointView {
                    point: self.points@[i as int].0,
                    id: id@,
                }));
                assert(drops == !stays(all[i as int]));
            }
            if !drops {
                let ghost prior = kept@;
                kept.push((self.points[i].0, id.clone()));
                assert(points_of(kept@) =~= points_of(prior).push(all[i as int]));
            }
            i = i + 1;
        }
        assert(all.take(i as int) =~= all);
        let total = self.handlers.len();
        let mut removed: usize = 0;
        let mut j: usize = 0;
        while j < self.handlers.len()
            invariant
                self.wf(),
                self.points == start.points,
                j <= self.handlers.order().len(),
                removed + self.handlers.order().len() == start.handlers.order().len(),
                start.handlers.order().len() == total,
                forall|k: Seq<char>|
                    #[trigger] self.handlers@.dom().contains(k) ==> start.handlers@.dom().contains(
                        k,
                    ) && self.handlers@[k] == start.handlers@[k],
                forall|k: Seq<char>|
                    #[trigger] start.handlers@.dom().contains(k) && !of_plugin(
                        start.handlers@[k].meta,
                        plugin_id@,
                    ) ==> self.handlers@.dom().contains(k),
                forall|m: int|
                    0 <= m < j ==> !of_plugin(
                        self.handlers@[#[trigger] self.handlers.order()[m]].meta,
                        plugin_id@,
                    ),
            decreases self.handlers.order().len() - j,
        {
            let ghost prior = self.handlers;
            proof {
                prior.lemma_order();
            }
            if is_of_plugin(&self.handlers.value_at(j).meta, plugin_id) {
                let key = text::owned(self.handlers.key_at(j));
                assert(prior.order()[j as int] == key@);
                assert(prior.order().contains(key@));
                assert(prior.order().index_of(key@) == j);
                let h = self.handlers.remove(key.as_str());
                removed = removed + 1;
                assert forall|m: int| 0 <= m < j implies !of_plugin(
                    self.handlers@[#[trigger] self.handlers.order()[m]].meta,
                    plugin_id@,
                ) by {
                    assert(self.handlers.order()[m] == prior.order()[m]);
                    assert(prior.order()[m] != key@);
                }
            } else {
                j = j + 1;
            }
        }
        proof {
            self.handlers.lemma_order();
            assert forall|k: Seq<char>| #[trigger] self.handlers@.dom().contains(k) implies !of_plugin(
                self.handlers@[k].meta,
                plugin_id@,
            ) by {
                let m = self.handlers.order().index_of(k);
                assert(self.handlers.order().contains(k));
                assert(self.handlers.order()[m] == k);
            }
        }
        self.points = kept;
        removed
    }

    /// The hooks that run at a point, in order, each with the time it is given.
    pub fn dispatch(&self, point: HookPoint) -> (r: Vec<(String, u64)>)
        requires
            self.wf(),
        ensures
            r@.map_values(|p: (String, u64)| p.0@) == due(self.schedule(), self.hooks(), point),
            forall|i: int|
                0 <= i < r@.len() ==> (#[trigger] r@[i]).1 == allowed_time(
                    self.hooks()[r@[i].0@].meta.timeout_ms,
                ),
    {
        let ghost all = self.schedule();
        let mut out: Vec<(String, u64)> = Vec::new();
        let mut i: usize = 0;
        assert(all.take(0) =~= Seq::empty());
        assert(out@.map_values(|p: (String, u64)| p.0@) =~= Seq::empty());
        while i < self.points.len()
            invariant
                i <= self.points.len(),
                self.wf(),
                all == self.schedule(),
                out@.map_values(|p: (String, u64)| p.0@) == due(
                    all.take(i as int),
                    self.hooks(),
                    point,
                ),
                forall|j: int|
                    0 <= j < out@.len() ==> (#[trigger] out@[j]).1 == allowed_time(
                        self.hooks()[out@[j].0@].meta.timeout_ms,
                    ),
            decreases self.points.len() - i,
        {
            proof {
                assert(all.take(i + 1).drop_last() =~= all.take(i as int));
                assert(all.take(i + 1).last() == (PointView {
                    point: self.points@[i as int].0,
                    id: self.points@[i as int].1@,
                }));
            }
            if self.points[i].0 == point {
                let id = &self.points[i].1;
                if let Some(h) = self.handlers.get(id.as_str()) {
                    let t: u64 = if h.meta.timeout_ms >= MIN_TIMEOUT_MS {
                        h.meta.timeout_ms
                    } else {
                        MIN_TIMEOUT_MS
                    };
                    let ghost prior = out@;
                    out.push((id.clone(), t));
                    assert(out@.map_values(|p: (String, u64)| p.0@) =~= prior.map_values(
                        |p: (String, u64)| p.0@,
                    ).push(id@));
                }
            }
            i = i + 1;
        }
        assert(all.take(i as int) =~= all);
        out
    }

    /// The handle that runs a hook.
    pub fn handler(&self, id: &str) -> (r: Option<&RegisteredHook<H>>)
        requires
            self.wf(),
        ensures
            r == (if self.hooks().dom().contains(id@) {
                Some(&self.hooks()[id@])
            } else {
                None
            }),
    {
        self.handlers.get(id)
    }

    pub fn hook_count(&self) -> (r: usize)
        requires
            self.wf(),
        ensures
            r == self.count(),
    {
        self.handlers.len()
    }
}

/// The points of a list, over plain texts.
pub open spec fn points_of(v: Seq<(HookPoint, String)>) -> Seq<PointView> {
    v.map_values(|p: (HookPoint, String)| PointView { point: p.0, id: p.1@ })
}

fn is_of_plugin(h: &Hook, plugin_id: &str) -> (r: bool)
    ensures
        r == of_plugin(*h, plugin_id@),
{
    match &h.plugin_id {
        Some(p) => text::str_eq(p.as_str(), plugin_id),
        None => false,
    }
}

impl<H> Default for HookDispatcher<H> {
    fn default() -> (r: Self)
        ensures
            r.wf(),
            r.hooks() == Map::<Seq<char>, RegisteredHook<H>>::empty(),
            r.schedule() == Seq::<PointView>::empty(),
            r.count() == 0,
    {
        HookDispatcher::new()
    }
}

/// What remains of the runs of hooks: the outcomes of those that came to an end. A run
/// that timed out is `None`; one that failed is an error.
pub open spec fn surviving(runs: Seq<Option<Result<HookOutcome, String>>>) -> Seq<HookOutcome>
    decreases runs.len(),
{
    if runs.len() == 0 {
        Seq::empty()
    } else {
        match runs.last() {
            Some(Ok(o)) => surviving(runs.drop_last()).push(o),
            _ => surviving(runs.drop_last()),
        }
    }
}

/// Keeps the outcomes of the hooks that came to an end, in order.
pub fn collect_outcomes(runs: Vec<Option<Result<HookOutcome, String>>>) -> (r: Vec<HookOutcome>)
    ensures
        r@ == surviving(runs@),
{
    let ghost all = runs@;
    let mut rest = runs;
    let mut back: Vec<HookOutcome> = Vec::new();
    assert(all.take(all.len() as int) =~= all);
    assert(surviving(all.take(rest.len() as int)) + back@.reverse() =~= surviving(all));
    while rest.len() > 0
        invariant
            rest@ == all.take(rest.len() as int),
            rest.len() <= all.len(),
            surviving(rest@) + back@.reverse() == surviving(all),
        decreases rest.len(),
    {
        let ghost r0 = rest@;
        let ghost b0 = back@;
        let run = rest.pop().unwrap();
        assert(rest@ =~= r0.drop_last());
        assert(rest@ =~= all.take(rest.len() as int));
        match run {
            Some(Ok(o)) => {
                back.push(o);
                assert(surviving(r0) + b0.reverse() =~= surviving(rest@) + back@.reverse());
            },
            _ => {},
        }
    }
    let mut out: Vec<HookOutcome> = Vec::new();
    let ghost want = back@.reverse();
    assert(surviving(rest@) + want =~= want);
    let ghost n = back@.len() as int;
    while back.len() > 0
        invariant
            n == want.len(),
            back.len() <= n,
            out.len() == n - back.len(),
            back@ == want.reverse().take(back.len() as int),
            out@ == want.take(n - back.len()),
        decreases back.len(),
    {
        let ghost b0 = back@;
        let o = back.pop().unwrap();
        out.push(o);
        assert(back@ =~= want.reverse().take(back.len() as int));
        assert(out@ =~= want.take(n - back.len()));
    }
    assert(want.take(n) =~= want);
    out
}

/// The texts that hooks add to the prompt, each on a line of its own.
pub open spec fn injected(outcomes: Seq<HookOutcome>) -> Seq<char>
    decreases outcomes.len(),
{
    if outcomes.len() == 0 {
        Seq::empty()
    } else {
        let before = injected(outcomes.drop_last());
        match outcomes.last() {
            HookOutcome::InjectContext { content } => before + content@ + "\n"@,
            _ => before,
        }
    }
}

/// Joins the texts that hooks add to the prompt.
pub fn collect_context(outcomes: &Vec<HookOutcome>) -> (r: String)
    ensures
        r@ == injected(outcomes@),
{
    let mut out = String::new();
    let mut i: usize = 0;
    assert(outcomes@.take(0) =~= Seq::empty());
    while i < outcomes.len()
        invariant
            i <= outcomes.len(),
            out@ == injected(outcomes@.take(i as int)),
        decreases outcomes.len() - i,
    {
        assert(outcomes@.take(i + 1).drop_last() =~= outcomes@.take(i as int));
        match &outcomes[i] {
            HookOutcome::InjectContext { content } => {
                out.append(content.as_str());
                out.append("\n");
            },
            _ => {},
        }
        i = i + 1;
    }
    assert(outcomes@.take(i as int) =~= outcomes@);
    out
}

/// One hook that fails or times out takes nothing away from the others.
pub proof fn law_failures_are_isolated(
    before: Seq<Option<Result<HookOutcome, String>>>,
    failure: Option<Result<HookOutcome, String>>,
    after: Seq<Option<Result<HookOutcome, String>>>,
)
    requires
        !(failure matches Some(Ok(_))),
    ensures
        surviving(before.push(failure) + after) == surviving(before + after),
    decreases after.len(),
{
    if after.len() == 0 {
        assert(before.push(failure) + after =~= before.push(failure));
        assert(before.push(failure).drop_last() =~= before);
        assert(before + after =~= before);
    } else {
        law_failures_are_isolated(before, failure, after.drop_last());
        assert((before.push(failure) + after).drop_last() =~= before.push(failure)
            + after.drop_last());
        assert((before + after).drop_last() =~= before + after.drop_last());
    }
}

/// A hook runs only at points it was registered at, and only while it is registered: once
/// the hooks of a plugin are removed, none of them runs again.
pub proof fn law_only_registered_hooks_run<H>(
    points: Seq<PointView>,
    hooks: Map<Seq<char>, RegisteredHook<H>>,
    point: HookPoint,
    id: Seq<char>,
)
    ensures
        due(points, hooks, point).contains(id) <==> hooks.dom().contains(id) && points.contains(
            PointView { point, id },
        ),
    decreases points.len(),
{
    let runs = due(points, hooks, point);
    let p = PointView { point, id };
    if points.len() > 0 {
        let rest = points.drop_last();
        let before = due(rest, hooks, point);
        law_only_registered_hooks_run(rest, hooks, point, id);
        if runs.contains(id) {
            let i = runs.index_of(id);
            if i < before.len() {
                assert(before[i] == id);
                let j = rest.index_of(p);
                assert(points[j] == p);
            } else {
                assert(points[points.len() - 1] == p);
            }
        }
        if hooks.dom().contains(id) && points.contains(p) {
            let j = points.index_of(p);
            if j < rest.len() {
                assert(rest[j] == p);
                let i = before.index_of(id);
                assert(runs[i] == id);
            } else {
                assert(runs[before.len() as int] == id);
            }
        }
    }
}

/// A hook that writes a line to the log at most points.
#[derive(Debug)]
pub struct LoggingHook {
    meta: Hook,
}

impl LoggingHook {
    pub closed spec fn hook(&self) -> Hook {
        self.meta
    }

    pub fn new() -> (r: Self)
        ensures
            r.hook().id@ == "deepomni.logging"@,
            r.hook().name@ == "Logging Hook"@,
            r.hook().hook_points@ == seq![
                HookPoint::SessionStart,
                HookPoint::UserPromptSubmitted,
                HookPoint::BeforeToolCall,
                HookPoint::AfterToolCall,
                HookPoint::TurnCompleted,
                HookPoint::SessionStop,
            ],
            r.hook().plugin_id is None,
            r.hook().timeout_ms == 2000,
    {
        let mut points: Vec<HookPoint> = Vec::new();
        points.push(HookPoint::SessionStart);
        points.push(HookPoint::UserPromptSubmitted);
        points.push(HookPoint::BeforeToolCall);
        points.push(HookPoint::AfterToolCall);
        points.push(HookPoint::TurnCompleted);
        points.push(HookPoint::SessionStop);
        LoggingHook {
            meta: Hook {
                id: text::owned("deepomni.logging"),
                name: text::owned("Logging Hook"),
                hook_points: points,
                plugin_id: None,
                timeout_ms: 2000,
            },
        }
    }
}

impl HookHandler for LoggingHook {
    fn metadata(&self) -> (r: &Hook)
        ensures
            *r == self.hook(),
    {
        &self.meta
    }
}

impl Default for LoggingHook {
    fn default() -> (r: Self)
        ensures
            r.hook().id@ == "deepomni.logging"@,
            r.hook().name@ == "Logging Hook"@,
            r.hook().hook_points@ == seq![
                HookPoint::SessionStart,
                HookPoint::UserPromptSubmitted,
                HookPoint::BeforeToolCall,
                HookPoint::AfterToolCall,
                HookPoint::TurnCompleted,
                HookPoint::SessionStop,
            ],
            r.hook().plugin_id is None,
            r.hook().timeout_ms == 2000,
    {
        LoggingHook::new()
    }
}

/// A hook is registered at each of its points, in their order.
pub proof fn law_hook_is_at_its_points(points: Seq<HookPoint>, id: Seq<char>)
    ensures
        registrations(points, id).len() == points.len(),
        forall|i: int|
            0 <= i < points.len() ==> (#[trigger] registrations(points, id)[i]).point == points[i]
                && registrations(points, id)[i].id == id,
{
}

/// Hooks run in the order of registration: one more at a point runs behind those that were
/// there, where it is of that point and still registered.
pub proof fn law_hooks_run_in_order<H>(
    points: Seq<PointView>,
    p: PointView,
    hooks: Map<Seq<char>, RegisteredHook<H>>,
    point: HookPoint,
)
    ensures
        due(Seq::<PointView>::empty(), hooks, point).len() == 0,
        p.point == point && hooks.dom().contains(p.id) ==> due(points.push(p), hooks, point)
            == due(points, hooks, point).push(p.id),
        p.point != point || !hooks.dom().contains(p.id) ==> due(points.push(p), hooks, point)
            == due(points, hooks, point),
{
    assert(points.push(p).drop_last() =~= points);
}

/// A hook that came to an end is kept with what it came to, behind those before it.
pub proof fn law_outcomes_are_kept(
    runs: Seq<Option<Result<HookOutcome, String>>>,
    o: HookOutcome,
)
    ensures
        surviving(Seq::empty()).len() == 0,
        surviving(runs.push(Some(Ok(o)))) == surviving(runs).push(o),
{
    assert(runs.push(Some(Ok(o))).drop_last() =~= runs);
}

/// What hooks add to the prompt is joined in their order, each text as it is and on a line
/// of its own; warnings and empty outcomes add nothing.
pub proof fn law_context_is_joined(outcomes: Seq<HookOutcome>, o: HookOutcome)
    ensures
        injected(Seq::<HookOutcome>::empty()).len() == 0,
        o matches HookOutcome::InjectContext { content } ==> injected(outcomes.push(o))
            == injected(outcomes) + content@ + "\n"@,
        !(o is InjectContext) ==> injected(outcomes.push(o)) == injected(outcomes),
{
    assert(outcomes.push(o).drop_last() =~= outcomes);
}

/// A hook is given the time it asks for, and a second where it asks for less.
pub proof fn law_hooks_get_their_time(timeout_ms: u64)
    ensures
        timeout_ms >= 1000 ==> allowed_time(timeout_ms) == timeout_ms,
        timeout_ms < 1000 ==> allowed_time(timeout_ms) == 1000,
{
}

/// A hook is of the plugin that it names; one that names none is of none.
pub proof fn law_hooks_belong_to_their_plugin(h: Hook, plugin_id: Seq<char>)
    ensures
        h.plugin_id matches Some(p) ==> (of_plugin(h, plugin_id) <==> p@ == plugin_id),
        h.plugin_id is None ==> !of_plugin(h, plugin_id),
{
}

} // verus!
