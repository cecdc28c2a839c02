//! The chunks of a streamed answer and the pieces that they become.

use crate::json;
use crate::model::{DeltaView, ModelDelta};
use crate::text;
use vstd::prelude::*;
use vstd::string::*;

verus! {

/// A chunk of an answer.
#[derive(Debug)]
pub struct SseChunk {
    pub choices: Vec<SseChoice>,
}

/// One choice of a chunk.
#[derive(Debug)]
pub struct SseChoice {
    pub delta: SseDelta,
    pub finish_reason: Option<String>,
}

/// What a choice adds.
#[derive(Debug)]
pub struct SseDelta {
    pub content: Option<String>,
    pub reasoning_content: Option<String>,
    pub tool_calls: Option<Vec<SseToolCallDelta>>,
}

/// A piece of a tool call.
#[derive(Debug)]
pub struct SseToolCallDelta {
    pub index: u32,
    pub id: Option<String>,
    pub function: Option<SseFunctionDelta>,
}

/// The function part of a piece of a tool call.
#[derive(Debug)]
pub struct SseFunctionDelta {
    pub name: Option<String>,
    pub arguments: Option<String>,
}

/// What has come of a tool call.
#[derive(Debug)]
pub struct ToolCallState {
    pub id: Option<String>,
    pub name: Option<String>,
    pub arguments: String,
}

/// What has come of a tool call, over plain texts.
pub struct StateView {
    pub id: Option<Seq<char>>,
    pub name: Option<Seq<char>>,
    pub arguments: Seq<char>,
}

impl View for ToolCallState {
    type V = StateView;

    open spec fn view(&self) -> StateView {
        StateView {
            id: text::opt_text(self.id),
            name: text::opt_text(self.name),
            arguments: self.arguments@,
        }
    }
}

impl StateView {
    /// A tool call of which nothing has come.
    pub open spec fn start() -> StateView {
        StateView { id: None, name: None, arguments: Seq::empty() }
    }

    /// The id, empty where none has come.
    pub open spec fn id_text(self) -> Seq<char> {
        match self.id {
            Some(s) => s,
            None => Seq::empty(),
        }
    }
}

impl Default for ToolCallState {
    fn default() -> (r: Self)
        ensures
            r@ == StateView::start(),
    {
        ToolCallState { id: None, name: None, arguments: String::new() }
    }
}

/// The states of a list, over plain texts.
pub open spec fn states_of(v: Seq<ToolCallState>) -> Seq<StateView> {
    v.map_values(|s: ToolCallState| s@)
}

/// The pieces of a list, over plain texts.
pub open spec fn deltas_of(v: Seq<ModelDelta>) -> Seq<DeltaView> {
    v.map_values(|d: ModelDelta| d@)
}

/// The states with enough of them for a place.
pub open spec fn padded(states: Seq<StateView>, index: u32) -> Seq<StateView> {
    if states.len() > index {
        states
    } else {
        states + Seq::new((index + 1 - states.len()) as nat, |i: int| StateView::start())
    }
}

/// A tool call after a piece of it came.
pub open spec fn state_after(s: StateView, d: SseToolCallDelta) -> StateView {
    StateView {
        id: match d.id {
            Some(id) => Some(id@),
            None => s.id,
        },
        name: match d.function {
            Some(f) => match f.name {
                Some(n) => Some(n@),
                None => s.name,
            },
            None => s.name,
        },
        arguments: match d.function {
            Some(f) => match f.arguments {
                Some(a) => s.arguments + a@,
                None => s.arguments,
            },
            None => s.arguments,
        },
    }
}

/// What a piece of a tool call tells: its start where the name comes, and more of its
/// arguments.
pub open spec fn call_deltas(s: StateView, d: SseToolCallDelta) -> Seq<DeltaView> {
    let id = state_after(s, d).id_text();
    match d.function {
        Some(f) => {
            let started = match f.name {
                Some(n) => seq![DeltaView::ToolCallStart { call_id: id, tool_name: n@ }],
                None => Seq::empty(),
            };
            match f.arguments {
                Some(a) => started.push(
                    DeltaView::ToolCallArgumentsDelta { call_id: id, delta: a@ },
                ),
                None => started,
            }
        },
        None => Seq::empty(),
    }
}

/// The states after a list of pieces of tool calls.
pub open spec fn states_after(states: Seq<StateView>, v: Seq<SseToolCallDelta>) -> Seq<StateView>
    decreases v.len(),
{
    if v.len() == 0 {
        states
    } else {
        let before = padded(states_after(states, v.drop_last()), v.last().index);
        before.update(
            v.last().index as int,
            state_after(before[v.last().index as int], v.last()),
        )
    }
}

/// What a list of pieces of tool calls tells.
pub open spec fn calls_deltas(states: Seq<StateView>, v: Seq<SseToolCallDelta>) -> Seq<DeltaView>
    decreases v.len(),
{
    if v.len() == 0 {
        Seq::empty()
    } else {
        let before = padded(states_after(states, v.drop_last()), v.last().index);
        calls_deltas(states, v.drop_last()) + call_deltas(
            before[v.last().index as int],
            v.last(),
        )
    }
}

/// The tool calls that are ready: those with an id and a name. Arguments that are no JSON
/// become null.
pub open spec fn completions(states: Seq<StateView>) -> Seq<DeltaView>
    decreases states.len(),
{
    if states.len() == 0 {
        Seq::empty()
    } else {
        let before = completions(states.drop_last());
        let s = states.last();
        if s.id is Some && s.name is Some {
            before.push(
                DeltaView::ToolCallComplete {
                    call_id: s.id->0,
                    tool_name: s.name->0,
                    arguments: json::json_parse_or_null(s.arguments),
                },
            )
        } else {
            before
        }
    }
}

/// A text that is there and not empty.
pub open spec fn nonempty(o: Option<String>) -> Option<Seq<char>> {
    match o {
        Some(s) => if s@.len() > 0 {
            Some(s@)
        } else {
            None
        },
        None => None,
    }
}

/// What the texts of a choice tell: reasoning first, then the answer.
pub open spec fn text_deltas(d: SseDelta) -> Seq<DeltaView> {
    let thought = match nonempty(d.reasoning_content) {
        Some(s) => seq![DeltaView::Reasoning { delta: s, replay_required: true }],
        None => Seq::empty(),
    };
    match nonempty(d.content) {
        Some(s) => thought.push(DeltaView::Text(s)),
        None => thought,
    }
}

/// The pieces of tool calls of a choice.
pub open spec fn call_pieces(d: SseDelta) -> Seq<SseToolCallDelta> {
    match d.tool_calls {
        Some(v) => v@,
        None => Seq::empty(),
    }
}

/// What the end of a choice tells: the tool calls that are ready, and that the answer is
/// over where it stopped by itself.
pub open spec fn finish_deltas(reason: Option<String>, states: Seq<StateView>) -> Seq<DeltaView> {
    match reason {
        Some(s) => {
            if s@ == "stop"@ {
                completions(states).push(DeltaView::End)
            } else if s@ == "tool_calls"@ {
                completions(states)
            } else {
                Seq::empty()
            }
        },
        None => Seq::empty(),
    }
}

/// What a choice tells.
pub open spec fn choice_deltas(states: Seq<StateView>, c: SseChoice) -> Seq<DeltaView> {
    text_deltas(c.delta) + calls_deltas(states, call_pieces(c.delta)) + finish_deltas(
        c.finish_reason,
        states_after(states, call_pieces(c.delta)),
    )
}

/// The states after a list of choices.
pub open spec fn chunk_states(states: Seq<StateView>, v: Seq<SseChoice>) -> Seq<StateView>
    decreases v.len(),
{
    if v.len() == 0 {
        states
    } else {
        states_after(chunk_states(states, v.drop_last()), call_pieces(v.last().delta))
    }
}

/// What a list of choices tells.
pub open spec fn chunk_deltas(states: Seq<StateView>, v: Seq<SseChoice>) -> Seq<DeltaView>
    decreases v.len(),
{
    if v.len() == 0 {
        Seq::empty()
    } else {
        chunk_deltas(states, v.drop_last()) + choice_deltas(
            chunk_states(states, v.drop_last()),
            v.last(),
        )
    }
}

fn push_delta(out: &mut Vec<ModelDelta>, d: ModelDelta)
    ensures
        deltas_of(final(out)@) == deltas_of(old(out)@).push(d@),
{
    let ghost prior = out@;
    out.push(d);
    assert(deltas_of(out@) =~= deltas_of(prior).push(d@));
}

fn pad(states: &mut Vec<ToolCallState>, index: u32)
    ensures
        states_of(final(states)@) == padded(states_of(old(states)@), index),
        final(states)@.len() > index,
{
    let ghost start = states_of(states@);
    while states.len() <= index as usize
        invariant
            states_of(states@).len() >= start.len(),
            states_of(states@).len() <= start.len() || states_of(states@).len() <= index + 1,
            states_of(states@) =~= start + Seq::new(
                (states_of(states@).len() - start.len()) as nat,
                |i: int| StateView::start(),
            ),
        decreases index + 1 - states.len(),
    {
        let ghost prior = states@;
        states.push(ToolCallState::default());
        assert(states_of(states@) =~= states_of(prior).push(StateView::start()));
    }
    assert(states_of(states@) =~= padded(start, index));
}

fn apply_call(states: &mut Vec<ToolCallState>, d: &SseToolCallDelta, out: &mut Vec<ModelDelta>)
    ensures
        ({
            let before = padded(states_of(old(states)@), d.index);
            &&& states_of(final(states)@) == before.update(
                d.index as int,
                state_after(before[d.index as int], *d),
            )
            &&& deltas_of(final(out)@) == deltas_of(old(out)@) + call_deltas(
                before[d.index as int],
                *d,
            )
        }),
{
    let ghost start = deltas_of(out@);
    pad(states, d.index);
    let ghost before = states_of(states@);
    let i: usize = d.index as usize;
    let id = match &d.id {
        Some(s) => Some(s.clone()),
        None => text::clone_opt(&states[i].id),
    };
    let mut name = text::clone_opt(&states[i].name);
    let mut arguments = states[i].arguments.clone();
    let call_id = match &id {
        Some(s) => s.clone(),
        None => String::new(),
    };
    assert(call_id@ =~= state_after(before[i as int], *d).id_text());
    if let Some(f) = &d.function {
        if let Some(n) = &f.name {
            name = Some(n.clone());
            push_delta(
                out,
                ModelDelta::ToolCallStart { call_id: call_id.clone(), tool_name: n.clone() },
            );
        }
        if let Some(a) = &f.arguments {
            arguments.append(a.as_str());
            push_delta(out, ModelDelta::ToolCallArgumentsDelta { call_id, delta: a.clone() });
        }
    }
    assert(deltas_of(out@) =~= start + call_deltas(before[i as int], *d));
    let state = ToolCallState { id, name, arguments };
    let ghost plain = state@;
    states.set(i, state);
    assert(states_of(states@) =~= before.update(i as int, plain));
}

fn apply_calls(
    states: &mut Vec<ToolCallState>,
    v: &Vec<SseToolCallDelta>,
    out: &mut Vec<ModelDelta>,
)
    ensures
        states_of(final(states)@) == states_after(states_of(old(states)@), v@),
        deltas_of(final(out)@) == deltas_of(old(out)@) + calls_deltas(states_of(old(states)@), v@),
{
    let ghost start = states_of(states@);
    let ghost told = deltas_of(out@);
    let mut i: usize = 0;
    assert(v@.take(0) =~= Seq::empty());
    assert(told + Seq::<DeltaView>::empty() =~= told);
    while i < v.len()
        invariant
            i <= v.len(),
            states_of(states@) == states_after(start, v@.take(i as int)),
            deltas_of(out@) == told + calls_deltas(start, v@.take(i as int)),
        decreases v.len() - i,
    {
        assert(v@.take(i + 1).drop_last() =~= v@.take(i as int));
        apply_call(states, &v[i], out);
        assert(deltas_of(out@) =~= told + calls_deltas(start, v@.take(i + 1)));
        i = i + 1;
    }
    assert(v@.take(i as int) =~= v@);
}

fn complete_calls(states: &Vec<ToolCallState>, out: &mut Vec<ModelDelta>)
    ensures
        deltas_of(final(out)@) == deltas_of(old(out)@) + completions(states_of(states@)),
{
    let ghost all = states_of(states@);
    let ghost told = deltas_of(out@);
    let mut i: usize = 0;
    assert(all.take(0) =~= Seq::empty());
    assert(told + Seq::<DeltaView>::empty() =~= told);
    while i < states.len()
        invariant
            i <= states.len(),
            all == states_of(states@),
            deltas_of(out@) == told + completions(all.take(i as int)),
        decreases states.len() - i,
    {
        assert(all.take(i + 1).drop_last() =~= all.take(i as int));
        assert(all.take(i + 1).last() == states@[i as int]@);
        if let Some(id) = &states[i].id {
            if let Some(name) = &states[i].name {
                let arguments = json::parse_or_null(states[i].arguments.as_str());
                push_delta(
                    out,
                    ModelDelta::ToolCallComplete {
                        call_id: id.clone(),
                        tool_name: name.clone(),
                        arguments,
                    },
                );
            }
        }
        assert(deltas_of(out@) =~= told + completions(all.take(i + 1)));
        i = i + 1;
    }
    assert(all.take(i as int) =~= all);
}

fn has_content(o: &Option<String>) -> (r: Option<String>)
    ensures
        text::opt_text(r) == nonempty(*o),
{
    proof {
        reveal_strlit("");
    }
    match o {
        Some(s) => {
            if text::str_eq(s.as_str(), "") {
                None
            } else {
                assert(s@.len() > 0) by {
                    if s@.len() == 0 {
                        assert(s@ =~= ""@);
                    }
                }
                Some(s.clone())
            }
        },
        None => None,
    }
}

fn apply_choice(states: &mut Vec<ToolCallState>, c: &SseChoice, out: &mut Vec<ModelDelta>)
    ensures
        states_of(final(states)@) == states_after(
            states_of(old(states)@),
            call_pieces(c.delta),
        ),
        deltas_of(final(out)@) == deltas_of(old(out)@) + choice_deltas(
            states_of(old(states)@),
            *c,
        ),
{
    let ghost start = states_of(states@);
    let ghost told = deltas_of(out@);
    if let Some(s) = has_content(&c.delta.reasoning_content) {
        push_delta(out, ModelDelta::Reasoning { delta: s, replay_required: true });
    }
    if let Some(s) = has_content(&c.delta.content) {
        push_delta(out, ModelDelta::Text(s));
    }
    assert(deltas_of(out@) =~= told + text_deltas(c.delta));
    if let Some(v) = &c.delta.tool_calls {
        apply_calls(states, v, out);
    }
    let ghost middle = deltas_of(out@);
    assert(middle =~= told + text_deltas(c.delta) + calls_deltas(start, call_pieces(c.delta)));
    proof {
        reveal_strlit("stop");
        reveal_strlit("tool_calls");
        assert("stop"@.len() != "tool_calls"@.len());
    }
    if let Some(s) = &c.finish_reason {
        let stopped: bool = text::str_eq(s.as_str(), "stop");
        if stopped || text::str_eq(s.as_str(), "tool_calls") {
            complete_calls(states, out);
        }
        if stopped {
            push_delta(out, ModelDelta::End);
        }
    }
    assert(deltas_of(out@) =~= middle + finish_deltas(c.finish_reason, states_of(states@)));
    assert(deltas_of(out@) =~= told + choice_deltas(start, *c));
}

/// The pieces that a chunk becomes. A line that ends the stream, and one that is no chunk,
/// become none and change nothing.
pub fn parse_sse_line(data: &str, chunk: Option<&SseChunk>, states: &mut Vec<ToolCallState>) -> (r:
    Vec<ModelDelta>)
    ensures
        if data@.len() == 0 || data@ == "[DONE]"@ {
            r@.len() == 0 && final(states)@ == old(states)@
        } else {
            match chunk {
                Some(c) => deltas_of(r@) == chunk_deltas(states_of(old(states)@), c.choices@)
                    && states_of(final(states)@) == chunk_states(
                    states_of(old(states)@),
                    c.choices@,
                ),
                None => r@.len() == 0 && final(states)@ == old(states)@,
            }
        },
{
    proof {
        reveal_strlit("");
        assert(data@.len() == 0 ==> data@ =~= ""@);
    }
    let mut out: Vec<ModelDelta> = Vec::new();
    if text::str_eq(data, "") || text::str_eq(data, "[DONE]") {
        return out;
    }
    let c = match chunk {
        Some(c) => c,
        None => {
            return out;
        },
    };
    let ghost start = states_of(states@);
    let ghost all = c.choices@;
    let mut i: usize = 0;
    assert(all.take(0) =~= Seq::empty());
    assert(deltas_of(out@) =~= Seq::<DeltaView>::empty());
    while i < c.choices.len()
        invariant
            i <= c.choices.len(),
            all == c.choices@,
            states_of(states@) == chunk_states(start, all.take(i as int)),
            deltas_of(out@) == chunk_deltas(start, all.take(i as int)),
        decreases c.choices.len() - i,
    {
        assert(all.take(i + 1).drop_last() =~= all.take(i as int));
        apply_choice(states, &c.choices[i], &mut out);
        i = i + 1;
    }
    assert(all.take(i as int) =~= all);
    out
}

/// Cuts the pieces of a chunk behind the first one that ends the answer, and says whether
/// there was one. What stands behind it is not told.
pub fn until_end(pieces: Vec<ModelDelta>) -> (r: (Vec<ModelDelta>, bool))
    ensures
        r.1 == deltas_of(pieces@).contains(DeltaView::End),
        r.0@.is_prefix_of(pieces@),
        !r.1 ==> r.0@ == pieces@,
        r.1 ==> r.0@.len() > 0 && r.0@.last()@ == DeltaView::End && !deltas_of(
            r.0@.drop_last(),
        ).contains(DeltaView::End),
{
    let ghost all = pieces@;
    let mut kept = pieces;
    let mut i: usize = 0;
    while i < kept.len()
        invariant
            i <= kept.len(),
            kept@ == all,
            all == pieces@,
            forall|j: int| 0 <= j < i ==> deltas_of(all)[j] != DeltaView::End,
        decreases kept.len() - i,
    {
        let ends: bool = match &kept[i] {
            ModelDelta::End => true,
            _ => false,
        };
        if ends {
            assert(deltas_of(all)[i as int] == DeltaView::End);
            kept.truncate(i + 1);
            assert(kept@ =~= all.take(i + 1));
            assert(deltas_of(kept@.drop_last()) =~= deltas_of(all).take(i as int));
            return (kept, true);
        }
        assert(deltas_of(all)[i as int] != DeltaView::End);
        i = i + 1;
    }
    (kept, false)
}

/// The arguments of a tool call are put together in the order in which their pieces came:
/// two pieces of a call leave both, one behind the other.
pub proof fn law_arguments_are_joined(s: StateView, a: SseToolCallDelta, b: SseToolCallDelta)
    requires
        a.function matches Some(f) && f.arguments is Some,
        b.function matches Some(f) && f.arguments is Some,
    ensures
        ({
            let x = a.function->0.arguments->0@;
            let y = b.function->0.arguments->0@;
            state_after(state_after(s, a), b).arguments == s.arguments + x + y
        }),
{
}

/// The answer ends only where it stopped by itself: no other piece of a chunk tells the
/// end.
pub proof fn law_only_stop_ends(states: Seq<StateView>, c: SseChoice)
    requires
        c.finish_reason matches Some(s) ==> s@ != "stop"@,
    ensures
        !choice_deltas(states, c).contains(DeltaView::End),
{
    lemma_calls_do_not_end(states, call_pieces(c.delta));
    lemma_completions_do_not_end(states_after(states, call_pieces(c.delta)));
    let a = text_deltas(c.delta);
    let b = calls_deltas(states, call_pieces(c.delta));
    let d = finish_deltas(c.finish_reason, states_after(states, call_pieces(c.delta)));
    assert forall|i: int| 0 <= i < choice_deltas(states, c).len() implies choice_deltas(
        states,
        c,
    )[i] != DeltaView::End by {
        let all = choice_deltas(states, c);
        if i < a.len() {
            assert(all[i] == a[i]);
        } else if i < a.len() + b.len() {
            assert(all[i] == b[i - a.len()]);
        } else {
            assert(all[i] == d[i - a.len() - b.len()]);
        }
    }
}

proof fn lemma_calls_do_not_end(states: Seq<StateView>, v: Seq<SseToolCallDelta>)
    ensures
        forall|i: int|
            0 <= i < calls_deltas(states, v).len() ==> #[trigger] calls_deltas(states, v)[i]
                != DeltaView::End,
    decreases v.len(),
{
    if v.len() > 0 {
        lemma_calls_do_not_end(states, v.drop_last());
        let before = padded(states_after(states, v.drop_last()), v.last().index);
        let a = calls_deltas(states, v.drop_last());
        let b = call_deltas(before[v.last().index as int], v.last());
        assert forall|i: int| 0 <= i < calls_deltas(states, v).len() implies
            #[trigger] calls_deltas(states, v)[i] != DeltaView::End by {
            if i < a.len() {
                assert(calls_deltas(states, v)[i] == a[i]);
            } else {
                assert(calls_deltas(states, v)[i] == b[i - a.len()]);
            }
        }
    }
}

proof fn lemma_completions_do_not_end(states: Seq<StateView>)
    ensures
        forall|i: int|
            0 <= i < completions(states).len() ==> #[trigger] completions(states)[i]
                != DeltaView::End,
    decreases states.len(),
{
    if states.len() > 0 {
        lemma_completions_do_not_end(states.drop_last());
    }
}

/// The argument pieces in a list, joined in their order.
pub open spec fn told_arguments(v: Seq<DeltaView>) -> Seq<char>
    decreases v.len(),
{
    if v.len() == 0 {
        Seq::empty()
    } else {
        told_arguments(v.drop_last()) + match v.last() {
            DeltaView::ToolCallArgumentsDelta { delta, .. } => delta,
            _ => Seq::empty(),
        }
    }
}

proof fn lemma_told_arguments_add(a: Seq<DeltaView>, b: Seq<DeltaView>)
    ensures
        told_arguments(a + b) == told_arguments(a) + told_arguments(b),
    decreases b.len(),
{
    if b.len() == 0 {
        assert(a + b =~= a);
        assert(told_arguments(a) + told_arguments(b) =~= told_arguments(a));
    } else {
        assert((a + b).drop_last() =~= a + b.drop_last());
        lemma_told_arguments_add(a, b.drop_last());
        assert(told_arguments(a + b) =~= told_arguments(a) + told_arguments(b));
    }
}

/// What a piece of a tool call tells of its arguments is just what it brought: what had come
/// before and what the piece tells make up what has come now.
pub proof fn law_piece_tells_what_it_brought(s: StateView, d: SseToolCallDelta)
    ensures
        state_after(s, d).arguments == s.arguments + told_arguments(call_deltas(s, d)),
        d.function matches Some(f) ==> f.arguments matches Some(a) ==> told_arguments(
            call_deltas(s, d),
        ) == a@,
        (d.function is None || d.function->0.arguments is None) ==> told_arguments(
            call_deltas(s, d),
        ).len() == 0,
{
    reveal_with_fuel(told_arguments, 3);
    let v = call_deltas(s, d);
    if v.len() > 0 {
        assert(v.drop_last().len() == 0 || v.drop_last().drop_last().len() == 0);
    }
    assert(state_after(s, d).arguments =~= s.arguments + told_arguments(v));
    if let Some(f) = d.function {
        if let Some(a) = f.arguments {
            assert(told_arguments(v) =~= a@);
        }
    }
}

/// A piece of a tool call tells that the call starts exactly where its name comes, and tells
/// more of its arguments exactly where some come; both under the id of the call.
pub proof fn law_piece_is_told(s: StateView, d: SseToolCallDelta)
    ensures
        ({
            let v = call_deltas(s, d);
            let id = match d.id {
                Some(id) => id@,
                None => match s.id {
                    Some(id) => id,
                    None => Seq::empty(),
                },
            };
            &&& v.len() <= 2
            &&& (exists|i: int| 0 <= i < v.len() && #[trigger] v[i] is ToolCallStart) <==> (
            d.function matches Some(f) && f.name is Some)
            &&& (exists|i: int| 0 <= i < v.len() && #[trigger] v[i] is ToolCallArgumentsDelta)
                <==> (d.function matches Some(f) && f.arguments is Some)
            &&& forall|i: int|
                0 <= i < v.len() ==> match #[trigger] v[i] {
                    DeltaView::ToolCallStart { call_id, tool_name } => i == 0 && call_id == id
                        && tool_name == d.function->0.name->0@,
                    DeltaView::ToolCallArgumentsDelta { call_id, delta } => i == v.len() - 1
                        && call_id == id && delta == d.function->0.arguments->0@,
                    _ => false,
                }
        }),
{
    let v = call_deltas(s, d);
    if let Some(f) = d.function {
        if f.name is Some {
            assert(v[0] is ToolCallStart);
        }
        if f.arguments is Some {
            assert(v[v.len() - 1] is ToolCallArgumentsDelta);
        }
    }
}

/// What has come of a tool call after a piece: a new id or name takes the place of the old
/// one, and none leaves it as it was.
pub proof fn law_piece_is_kept(s: StateView, d: SseToolCallDelta)
    ensures
        d.id matches Some(id) ==> state_after(s, d).id == Some(id@),
        d.id is None ==> state_after(s, d).id == s.id,
        d.function matches Some(f) ==> f.name matches Some(n) ==> state_after(s, d).name == Some(n@),
        (d.function is None || d.function->0.name is None) ==> state_after(s, d).name == s.name,
        d.function matches Some(f) ==> f.arguments matches Some(a) ==> state_after(s, d).arguments
            == s.arguments + a@,
        (d.function is None || d.function->0.arguments is None) ==> state_after(s, d).arguments
            == s.arguments,
{
}

/// One more piece changes the call at its place and no other, and adds just what it brought
/// to what is told.
pub proof fn law_pieces_come_one_by_one(
    states: Seq<StateView>,
    v: Seq<SseToolCallDelta>,
    d: SseToolCallDelta,
)
    ensures
        ({
            let i = d.index as int;
            let a = states_after(states, v);
            let b = states_after(states, v.push(d));
            let was = if i < a.len() {
                a[i]
            } else {
                StateView { id: None, name: None, arguments: Seq::empty() }
            };
            &&& b.len() == (if a.len() > i {
                a.len() as int
            } else {
                i + 1
            })
            &&& b[i] == state_after(was, d)
            &&& forall|j: int| 0 <= j < a.len() && j != i ==> #[trigger] b[j] == a[j]
            &&& forall|j: int|
                a.len() <= j < b.len() && j != i ==> (#[trigger] b[j]).id is None && b[j].name is None
                    && b[j].arguments.len() == 0
            &&& calls_deltas(states, v.push(d)) == calls_deltas(states, v) + call_deltas(was, d)
            &&& told_arguments(calls_deltas(states, v.push(d))) == told_arguments(
                calls_deltas(states, v),
            ) + (if d.function is Some && d.function->0.arguments is Some {
                d.function->0.arguments->0@
            } else {
                Seq::empty()
            })
        }),
{
    let all = v.push(d);
    assert(all.drop_last() =~= v);
    let i = d.index as int;
    let a = states_after(states, v);
    let before = padded(a, d.index);
    law_piece_tells_what_it_brought(before[i], d);
    lemma_told_arguments_add(calls_deltas(states, v), call_deltas(before[i], d));
    assert(told_arguments(call_deltas(before[i], d)) =~= (if d.function is Some
        && d.function->0.arguments is Some {
        d.function->0.arguments->0@
    } else {
        Seq::empty()
    }));
}

/// Over any run of pieces of one tool call, the arguments that are told, joined, are those
/// that came of the call.
pub proof fn law_told_arguments_are_the_arguments(
    states: Seq<StateView>,
    v: Seq<SseToolCallDelta>,
    index: u32,
)
    requires
        forall|i: int| 0 <= i < v.len() ==> (#[trigger] v[i]).index == index,
    ensures
        v.len() > 0 ==> index < states_after(states, v).len() && states_after(
            states,
            v,
        )[index as int].arguments == (if index < states.len() {
            states[index as int].arguments
        } else {
            Seq::empty()
        }) + told_arguments(calls_deltas(states, v)),
    decreases v.len(),
{
    if v.len() > 0 {
        let w = v.drop_last();
        assert forall|i: int| 0 <= i < w.len() implies (#[trigger] w[i]).index == index by {
            assert(w[i] == v[i]);
        }
        law_told_arguments_are_the_arguments(states, w, index);
        assert(v =~= w.push(v.last()));
        assert(v[v.len() - 1].index == index);
        law_pieces_come_one_by_one(states, w, v.last());
        let a = states_after(states, w);
        let i = index as int;
        let was = if i < a.len() {
            a[i]
        } else {
            StateView { id: None, name: None, arguments: Seq::empty() }
        };
        law_piece_tells_what_it_brought(was, v.last());
        lemma_told_arguments_add(calls_deltas(states, w), call_deltas(was, v.last()));
        let first = if index < states.len() {
            states[index as int].arguments
        } else {
            Seq::empty()
        };
        if w.len() == 0 {
            assert(calls_deltas(states, w) =~= Seq::empty());
            assert(a =~= states);
        }
        assert(states_after(states, v)[i].arguments =~= first + told_arguments(
            calls_deltas(states, v),
        ));
    }
}

/// Each tool call that has an id and a name is told as complete, once, in its place among
/// the others, with its own id, name and arguments; no other call is.
pub proof fn law_ready_calls_are_completed(states: Seq<StateView>, s: StateView)
    ensures
        completions(Seq::<StateView>::empty()).len() == 0,
        s.id matches Some(id) ==> s.name matches Some(name) ==> completions(states.push(s)).len()
            == completions(states).len() + 1 && completions(states.push(s)).drop_last()
            == completions(states) && (completions(
            states.push(s),
        ).last() matches DeltaView::ToolCallComplete { call_id, tool_name, arguments } && call_id
            == id && tool_name == name && (match json::json_parse(s.arguments) {
            Some(t) => arguments == t,
            None => arguments == "null"@,
        })),
        s.id is None || s.name is None ==> completions(states.push(s)) == completions(states),
{
    assert(states.push(s).drop_last() =~= states);
    assert(s.id is Some && s.name is Some ==> completions(states.push(s)).drop_last()
        =~= completions(states));
}

/// What a choice tells, in order: its reasoning, which has to be sent back, its text, the
/// pieces of its tool calls, the calls that are ready where the answer stops or calls tools,
/// and the end where it stops. Empty texts tell nothing.
pub proof fn law_choice_is_told(states: Seq<StateView>, c: SseChoice)
    ensures
        ({
            let pieces = match c.delta.tool_calls {
                Some(v) => v@,
                None => Seq::empty(),
            };
            let reasoning = if c.delta.reasoning_content is Some
                && c.delta.reasoning_content->0@.len() > 0 {
                seq![
                    DeltaView::Reasoning {
                        delta: c.delta.reasoning_content->0@,
                        replay_required: true,
                    },
                ]
            } else {
                Seq::empty()
            };
            let said = if c.delta.content is Some && c.delta.content->0@.len() > 0 {
                seq![DeltaView::Text(c.delta.content->0@)]
            } else {
                Seq::empty()
            };
            let after = states_after(states, pieces);
            let reason = text::opt_text(c.finish_reason);
            let ready = if reason == Some("stop"@) || reason == Some("tool_calls"@) {
                completions(after)
            } else {
                Seq::empty()
            };
            let end = if reason == Some("stop"@) {
                seq![DeltaView::End]
            } else {
                Seq::empty()
            };
            choice_deltas(states, c) == reasoning + said + calls_deltas(states, pieces) + ready
                + end
        }),
{
    reveal_strlit("stop");
    reveal_strlit("tool_calls");
    assert("stop"@.len() != "tool_calls"@.len());
    let pieces = call_pieces(c.delta);
    let after = states_after(states, pieces);
    assert(choice_deltas(states, c) =~= text_deltas(c.delta) + calls_deltas(states, pieces)
        + finish_deltas(c.finish_reason, after));
    let reason = text::opt_text(c.finish_reason);
    assert(finish_deltas(c.finish_reason, after) =~= (if reason == Some("stop"@) || reason == Some(
        "tool_calls"@,
    ) {
        completions(after)
    } else {
        Seq::empty()
    }) + (if reason == Some("stop"@) {
        seq![DeltaView::End]
    } else {
        Seq::empty()
    }));
    assert(text_deltas(c.delta) =~= (if c.delta.reasoning_content is Some
        && c.delta.reasoning_content->0@.len() > 0 {
        seq![
            DeltaView::Reasoning { delta: c.delta.reasoning_content->0@, replay_required: true },
        ]
    } else {
        Seq::empty()
    }) + (if c.delta.content is Some && c.delta.content->0@.len() > 0 {
        seq![DeltaView::Text(c.delta.content->0@)]
    } else {
        Seq::empty()
    }));
    assert(choice_deltas(states, c) =~= (if c.delta.reasoning_content is Some
        && c.delta.reasoning_content->0@.len() > 0 {
        seq![
            DeltaView::Reasoning { delta: c.delta.reasoning_content->0@, replay_required: true },
        ]
    } else {
        Seq::empty()
    }) + (if c.delta.content is Some && c.delta.content->0@.len() > 0 {
        seq![DeltaView::Text(c.delta.content->0@)]
    } else {
        Seq::empty()
    }) + calls_deltas(states, pieces) + (if reason == Some("stop"@) || reason == Some(
        "tool_calls"@,
    ) {
        completions(after)
    } else {
        Seq::empty()
    }) + (if reason == Some("stop"@) {
        seq![DeltaView::End]
    } else {
        Seq::empty()
    }));
}

/// One more choice of a chunk tells what it tells after those before it, and goes on from
/// the tool calls as they left them.
pub proof fn law_choices_come_one_by_one(
    states: Seq<StateView>,
    v: Seq<SseChoice>,
    c: SseChoice,
)
    ensures
        chunk_deltas(states, Seq::<SseChoice>::empty()).len() == 0,
        chunk_states(states, Seq::<SseChoice>::empty()) == states,
        chunk_deltas(states, v.push(c)) == chunk_deltas(states, v) + choice_deltas(
            chunk_states(states, v),
            c,
        ),
        c.delta.tool_calls matches Some(p) ==> chunk_states(states, v.push(c)) == states_after(
            chunk_states(states, v),
            p@,
        ),
        c.delta.tool_calls is None ==> chunk_states(states, v.push(c)) == chunk_states(states, v),
{
    assert(v.push(c).drop_last() =~= v);
}

/// What is seen of a tool call state is all that it holds.
pub proof fn law_tool_call_state_is_seen_whole(t: ToolCallState)
    ensures
        t@.id == text::opt_text(t.id),
        t@.name == text::opt_text(t.name),
        t@.arguments == t.arguments@,
{
}

/// The states of calls and the pieces of a response are seen one by one, in their order.
pub proof fn law_stream_lists_are_seen(s: Seq<ToolCallState>, d: Seq<ModelDelta>, i: int)
    ensures
        states_of(s).len() == s.len(),
        0 <= i < s.len() ==> states_of(s)[i] == s[i]@,
        deltas_of(d).len() == d.len(),
        0 <= i < d.len() ==> deltas_of(d)[i] == d[i]@,
{
}

} // verus!
