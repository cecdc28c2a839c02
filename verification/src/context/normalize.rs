//! Histories that are clean enough for a prompt: without tool results that no tool call asked
//! for, without empty messages, and without messages that are there twice in a row.

use crate::json;
use crate::model;
use crate::model::{MessageRole, MessageView, ModelMessage, ModelToolCall};
use crate::text;
use vstd::prelude::*;
use vstd::string::*;

verus! {

/// Whether a message is one of the assistant that makes a call with this id.
pub open spec fn makes_call(m: MessageView, id: Seq<char>) -> bool {
    &&& m.role is Assistant
    &&& exists|k: int| 0 <= k < m.tool_calls.len() && (#[trigger] m.tool_calls[k]).call_id == id
}

/// Whether the assistant makes a call with this id somewhere in a history.
pub open spec fn has_call(history: Seq<MessageView>, id: Seq<char>) -> bool {
    exists|i: int| 0 <= i < history.len() && makes_call(#[trigger] history[i], id)
}

/// Whether a message of a history has a place in a prompt: all do but tool results
/// without an id or without a call of the assistant.
pub open spec fn belongs(history: Seq<MessageView>, m: MessageView) -> bool {
    m.role is Tool ==> (m.tool_call_id matches Some(id) && has_call(history, id))
}

/// A history without orphan tool results; everything else stays in order.
pub open spec fn without_orphans(history: Seq<MessageView>) -> Seq<MessageView> {
    history.filter(|m: MessageView| belongs(history, m))
}

/// Whether an optional text says nothing.
pub open spec fn says_nothing(s: Option<Seq<char>>) -> bool {
    s matches Some(t) ==> t.len() == 0
}

/// Whether a message is empty: it has no text and no reasoning, makes no call and answers
/// none.
pub open spec fn is_empty_message(m: MessageView) -> bool {
    &&& says_nothing(m.content)
    &&& says_nothing(m.reasoning_content)
    &&& m.tool_calls.len() == 0
    &&& m.tool_call_id is None
}

/// A history without empty messages; everything else stays in order.
pub open spec fn without_empty(history: Seq<MessageView>) -> Seq<MessageView> {
    history.filter(|m: MessageView| !is_empty_message(m))
}

/// A history in which each message that repeats the one before it is left out.
pub open spec fn without_repeats(history: Seq<MessageView>) -> Seq<MessageView>
    decreases history.len(),
{
    if history.len() == 0 {
        Seq::empty()
    } else {
        let before = without_repeats(history.drop_last());
        if before.len() > 0 && before.last() == history.last() {
            before
        } else {
            before.push(history.last())
        }
    }
}

/// A history as a prompt may hold it: without orphan tool results, without empty messages
/// and without repeated ones.
pub open spec fn normalized(history: Seq<MessageView>) -> Seq<MessageView> {
    without_repeats(without_empty(without_orphans(history)))
}

fn message_makes_call(m: &ModelMessage, id: &str) -> (r: bool)
    ensures
        r == makes_call(m@, id@),
{
    match m.role {
        MessageRole::Assistant => {},
        _ => {
            return false;
        },
    }
    let mut k: usize = 0;
    while k < m.tool_calls.len()
        invariant
            k <= m.tool_calls.len(),
            m.role is Assistant,
            forall|j: int| 0 <= j < k ==> m@.tool_calls[j].call_id != id@,
        decreases m.tool_calls.len() - k,
    {
        if text::str_eq(m.tool_calls[k].call_id.as_str(), id) {
            assert(m@.tool_calls[k as int].call_id == id@);
            return true;
        }
        k = k + 1;
    }
    false
}

fn history_has_call(history: &Vec<ModelMessage>, id: &str) -> (r: bool)
    ensures
        r == has_call(model::messages(history@), id@),
{
    let mut i: usize = 0;
    while i < history.len()
        invariant
            i <= history.len(),
            forall|j: int| 0 <= j < i ==> !makes_call(model::messages(history@)[j], id@),
        decreases history.len() - i,
    {
        assert(model::messages(history@)[i as int] == history@[i as int]@);
        if message_makes_call(&history[i], id) {
            return true;
        }
        i = i + 1;
    }
    false
}

fn same_text(a: &Option<String>, b: &Option<String>) -> (r: bool)
    ensures
        r == (text::opt_text(*a) == text::opt_text(*b)),
{
    match (a, b) {
        (Some(x), Some(y)) => text::str_eq(x.as_str(), y.as_str()),
        (None, None) => true,
        _ => false,
    }
}

fn is_silent(s: &Option<String>) -> (r: bool)
    ensures
        r == says_nothing(text::opt_text(*s)),
{
    match s {
        Some(t) => t.as_str().unicode_len() == 0,
        None => true,
    }
}

fn same_call(a: &ModelToolCall, b: &ModelToolCall) -> (r: bool)
    ensures
        r == (a@ == b@),
{
    let x = json::render(&a.arguments);
    let y = json::render(&b.arguments);
    text::str_eq(a.call_id.as_str(), b.call_id.as_str()) && text::str_eq(
        a.tool_name.as_str(),
        b.tool_name.as_str(),
    ) && text::str_eq(x.as_str(), y.as_str())
}

fn same_calls(a: &Vec<ModelToolCall>, b: &Vec<ModelToolCall>) -> (r: bool)
    ensures
        r == (a@.map_values(|v: ModelToolCall| v@) == b@.map_values(|v: ModelToolCall| v@)),
{
    let ghost x = a@.map_values(|v: ModelToolCall| v@);
    let ghost y = b@.map_values(|v: ModelToolCall| v@);
    if a.len() != b.len() {
        assert(x.len() != y.len());
        return false;
    }
    let mut i: usize = 0;
    while i < a.len()
        invariant
            i <= a.len(),
            a.len() == b.len(),
            x == a@.map_values(|v: ModelToolCall| v@),
            y == b@.map_values(|v: ModelToolCall| v@),
            forall|j: int| 0 <= j < i ==> x[j] == y[j],
        decreases a.len() - i,
    {
        if !same_call(&a[i], &b[i]) {
            assert(x[i as int] != y[i as int]);
            return false;
        }
        i = i + 1;
    }
    assert(x =~= y);
    true
}

/// Whether two messages say the same.
fn same_message(a: &ModelMessage, b: &ModelMessage) -> (r: bool)
    ensures
        r == (a@ == b@),
{
    a.role == b.role && same_text(&a.content, &b.content) && same_calls(
        &a.tool_calls,
        &b.tool_calls,
    ) && same_text(&a.tool_call_id, &b.tool_call_id) && same_text(
        &a.reasoning_content,
        &b.reasoning_content,
    )
}

/// Removes the orphan tool results of a transcript: those that no tool call of the assistant
/// asked for.
pub fn normalize_transcript(transcript: &mut Vec<ModelMessage>)
    ensures
        model::messages(final(transcript)@) == without_orphans(model::messages(old(transcript)@)),
{
    let ghost all = model::messages(transcript@);
    let ghost keep = |m: MessageView| belongs(all, m);
    let mut out: Vec<ModelMessage> = Vec::new();
    let mut i: usize = 0;
    proof {
        reveal(Seq::filter);
        assert(all.take(0) =~= Seq::empty());
        assert(model::messages(out@) =~= all.take(0).filter(keep));
    }
    while i < transcript.len()
        invariant
            i <= transcript.len(),
            all == model::messages(transcript@),
            keep == (|m: MessageView| belongs(all, m)),
            model::messages(out@) == all.take(i as int).filter(keep),
        decreases transcript.len() - i,
    {
        let m = &transcript[i];
        let stays: bool = match m.role {
            MessageRole::Tool => match &m.tool_call_id {
                Some(id) => history_has_call(transcript, id.as_str()),
                None => false,
            },
            _ => true,
        };
        proof {
            reveal(Seq::filter);
            assert(all.take(i + 1).drop_last() =~= all.take(i as int));
            assert(all.take(i + 1).last() == m@);
            assert(stays == keep(m@));
        }
        if stays {
            let ghost prior = out@;
            out.push(m.clone());
            assert(model::messages(out@) =~= model::messages(prior).push(m@));
        }
        i = i + 1;
    }
    assert(all.take(i as int) =~= all);
    *transcript = out;
}

/// Makes a history fit for a prompt: the tool results that no tool call of the assistant
/// asked for go, and so do empty messages and each message that repeats the one before it.
pub fn normalize_history(items: &mut Vec<ModelMessage>)
    ensures
        model::messages(final(items)@) == normalized(model::messages(old(items)@)),
{
    normalize_transcript(items);
    let ghost all = model::messages(items@);
    let ghost full = |m: MessageView| !is_empty_message(m);
    let mut out: Vec<ModelMessage> = Vec::new();
    let mut i: usize = 0;
    proof {
        reveal(Seq::filter);
        assert(all.take(0) =~= Seq::empty());
        assert(model::messages(out@) =~= Seq::empty());
    }
    while i < items.len()
        invariant
            i <= items.len(),
            all == model::messages(items@),
            full == (|m: MessageView| !is_empty_message(m)),
            model::messages(out@) == without_repeats(all.take(i as int).filter(full)),
        decreases items.len() - i,
    {
        let m = &items[i];
        let empty: bool = is_silent(&m.content) && is_silent(&m.reasoning_content)
            && m.tool_calls.len() == 0 && m.tool_call_id.is_none();
        let repeats: bool = out.len() > 0 && same_message(&out[out.len() - 1], m);
        proof {
            reveal(Seq::filter);
            assert(all.take(i + 1).drop_last() =~= all.take(i as int));
            assert(all.take(i + 1).last() == m@);
            assert(empty == is_empty_message(m@));
            let before = all.take(i as int).filter(full);
            assert(before.push(m@).drop_last() =~= before);
            assert(model::messages(out@).len() == out@.len());
        }
        if !empty && !repeats {
            let ghost prior = out@;
            out.push(m.clone());
            assert(model::messages(out@) =~= model::messages(prior).push(m@));
        }
        i = i + 1;
    }
    assert(all.take(i as int) =~= all);
    *items = out;
}

proof fn lemma_filter_facts(s: Seq<MessageView>, p: spec_fn(MessageView) -> bool)
    ensures
        forall|i: int| 0 <= i < s.filter(p).len() ==> p(#[trigger] s.filter(p)[i]) && s.contains(
            s.filter(p)[i],
        ),
        forall|i: int| 0 <= i < s.len() && p(#[trigger] s[i]) ==> s.filter(p).contains(s[i]),
    decreases s.len(),
{
    reveal(Seq::filter);
    if s.len() > 0 {
        let t = s.drop_last();
        lemma_filter_facts(t, p);
        let f = s.filter(p);
        let g = t.filter(p);
        assert forall|i: int| 0 <= i < f.len() implies p(#[trigger] f[i]) && s.contains(f[i]) by {
            if i < g.len() {
                assert(f[i] == g[i]);
                let k = choose|k: int| 0 <= k < t.len() && t[k] == g[i];
                assert(s[k] == f[i]);
            } else {
                assert(s[s.len() - 1] == f[i]);
            }
        }
        assert forall|i: int| 0 <= i < s.len() && p(#[trigger] s[i]) implies f.contains(s[i]) by {
            if i < t.len() {
                assert(t[i] == s[i]);
                let k = choose|k: int| 0 <= k < g.len() && g[k] == t[i];
                assert(f[k] == s[i]);
            } else {
                assert(f[f.len() - 1] == s[i]);
            }
        }
    }
}

proof fn lemma_filter_len(s: Seq<MessageView>, p: spec_fn(MessageView) -> bool)
    ensures
        s.filter(p).len() <= s.len(),
    decreases s.len(),
{
    reveal(Seq::filter);
    if s.len() > 0 {
        lemma_filter_len(s.drop_last(), p);
    }
}

proof fn lemma_repeats_facts(s: Seq<MessageView>)
    ensures
        without_repeats(s).len() <= s.len(),
        s.len() > 0 ==> without_repeats(s).len() > 0 && without_repeats(s).last() == s.last(),
        forall|i: int|
            0 <= i < without_repeats(s).len() ==> s.contains(#[trigger] without_repeats(s)[i]),
        forall|i: int| 0 <= i < s.len() ==> without_repeats(s).contains(#[trigger] s[i]),
        forall|i: int|
            0 <= i < without_repeats(s).len() - 1 ==> #[trigger] without_repeats(s)[i]
                != without_repeats(s)[i + 1],
    decreases s.len(),
{
    if s.len() > 0 {
        let t = s.drop_last();
        let g = without_repeats(t);
        let f = without_repeats(s);
        lemma_repeats_facts(t);
        assert forall|i: int| 0 <= i < f.len() implies s.contains(#[trigger] f[i]) by {
            if i < g.len() {
                assert(f[i] == g[i]);
                let k = choose|k: int| 0 <= k < t.len() && t[k] == g[i];
                assert(s[k] == f[i]);
            } else {
                assert(s[s.len() - 1] == f[i]);
            }
        }
        assert forall|i: int| 0 <= i < s.len() implies f.contains(#[trigger] s[i]) by {
            if i < t.len() {
                assert(t[i] == s[i]);
                let k = choose|k: int| 0 <= k < g.len() && g[k] == t[i];
                assert(f[k] == s[i]);
            } else {
                assert(f[f.len() - 1] == s[i]);
            }
        }
        assert forall|i: int| 0 <= i < f.len() - 1 implies #[trigger] f[i] != f[i + 1] by {
            if i + 1 < g.len() {
                assert(g[i] != g[i + 1]);
            } else {
                assert(f[i] == g.last());
            }
        }
    }
}

proof fn lemma_repeats_same(s: Seq<MessageView>)
    requires
        forall|i: int| 0 <= i < s.len() - 1 ==> #[trigger] s[i] != s[i + 1],
    ensures
        without_repeats(s) == s,
    decreases s.len(),
{
    if s.len() > 0 {
        let t = s.drop_last();
        assert forall|i: int| 0 <= i < t.len() - 1 implies #[trigger] t[i] != t[i + 1] by {
            assert(s[i] != s[i + 1]);
        }
        lemma_repeats_same(t);
        if t.len() > 0 {
            assert(s[s.len() - 2] != s[s.len() - 2 + 1]);
        }
        assert(s =~= t.push(s.last()));
    }
}

/// What is in a normalized history: the messages of the history that are no orphans and not
/// empty.
proof fn lemma_normalized(history: Seq<MessageView>)
    ensures
        forall|i: int|
            0 <= i < normalized(history).len() ==> {
                let m = #[trigger] normalized(history)[i];
                history.contains(m) && belongs(history, m) && !is_empty_message(m)
            },
        forall|i: int|
            0 <= i < history.len() && belongs(history, #[trigger] history[i])
                && !is_empty_message(history[i]) ==> normalized(history).contains(history[i]),
{
    let keep = |m: MessageView| belongs(history, m);
    let full = |m: MessageView| !is_empty_message(m);
    let a = without_orphans(history);
    let b = without_empty(a);
    let out = normalized(history);
    lemma_filter_facts(history, keep);
    lemma_filter_facts(a, full);
    lemma_repeats_facts(b);
    assert forall|i: int| 0 <= i < out.len() implies {
        let m = #[trigger] out[i];
        history.contains(m) && belongs(history, m) && !is_empty_message(m)
    } by {
        let j = choose|j: int| 0 <= j < b.len() && b[j] == out[i];
        assert(full(b[j]));
        let k = choose|k: int| 0 <= k < a.len() && a[k] == b[j];
        assert(keep(a[k]));
    }
    assert forall|i: int|
        0 <= i < history.len() && belongs(history, #[trigger] history[i]) && !is_empty_message(
            history[i],
        ) implies out.contains(history[i]) by {
        assert(keep(history[i]));
        let k = choose|k: int| 0 <= k < a.len() && a[k] == history[i];
        assert(full(a[k]));
        let j = choose|j: int| 0 <= j < b.len() && b[j] == a[k];
        assert(out.contains(b[j]));
    }
}

/// Normalizing never makes a history longer.
pub proof fn lemma_not_longer(history: Seq<MessageView>)
    ensures
        normalized(history).len() <= history.len(),
{
    lemma_filter_len(history, |m: MessageView| belongs(history, m));
    lemma_filter_len(without_orphans(history), |m: MessageView| !is_empty_message(m));
    lemma_repeats_facts(without_empty(without_orphans(history)));
}

proof fn lemma_filter_same(s: Seq<MessageView>, p: spec_fn(MessageView) -> bool)
    requires
        forall|i: int| 0 <= i < s.len() ==> p(#[trigger] s[i]),
    ensures
        s.filter(p) == s,
    decreases s.len(),
{
    reveal(Seq::filter);
    if s.len() > 0 {
        let t = s.drop_last();
        assert forall|i: int| 0 <= i < t.len() implies p(#[trigger] t[i]) by {
            assert(t[i] == s[i]);
        }
        lemma_filter_same(t, p);
        assert(p(s[s.len() - 1]));
        assert(s =~= t.push(s.last()));
    }
}

/// A normalized history has no orphan: every tool result in it answers a call that is in it
/// too. The same holds of a transcript without orphans.
pub proof fn law_no_orphans(history: Seq<MessageView>)
    ensures
        forall|i: int|
            0 <= i < normalized(history).len() ==> belongs(
                normalized(history),
                #[trigger] normalized(history)[i],
            ),
        forall|i: int|
            0 <= i < without_orphans(history).len() ==> belongs(
                without_orphans(history),
                #[trigger] without_orphans(history)[i],
            ),
{
    lemma_normalized(history);
    let out = normalized(history);
    assert forall|i: int| 0 <= i < out.len() implies belongs(out, #[trigger] out[i]) by {
        let m = out[i];
        if m.role is Tool {
            let id = m.tool_call_id->0;
            let j = choose|j: int|
                0 <= j < history.len() && makes_call(#[trigger] history[j], id);
            assert(belongs(history, history[j]));
            assert(!is_empty_message(history[j]));
            assert(out.contains(history[j]));
            let k = choose|k: int| 0 <= k < out.len() && out[k] == history[j];
            assert(makes_call(out[k], id));
        }
    }
    let keep = |m: MessageView| belongs(history, m);
    lemma_filter_facts(history, keep);
    let rest = without_orphans(history);
    assert forall|i: int| 0 <= i < rest.len() implies belongs(rest, #[trigger] rest[i]) by {
        let m = rest[i];
        assert(keep(m));
        if m.role is Tool {
            let id = m.tool_call_id->0;
            let j = choose|j: int|
                0 <= j < history.len() && makes_call(#[trigger] history[j], id);
            assert(keep(history[j]));
            assert(rest.contains(history[j]));
            let k = choose|k: int| 0 <= k < rest.len() && rest[k] == history[j];
            assert(makes_call(rest[k], id));
        }
    }
}

/// A normalized history has no empty message, and none that repeats the one before it.
pub proof fn law_no_empty_no_repeated(history: Seq<MessageView>)
    ensures
        forall|i: int|
            0 <= i < normalized(history).len() ==> !is_empty_message(
                #[trigger] normalized(history)[i],
            ),
        forall|i: int|
            0 <= i < normalized(history).len() - 1 ==> #[trigger] normalized(history)[i]
                != normalized(history)[i + 1],
{
    lemma_normalized(history);
    lemma_repeats_facts(without_empty(without_orphans(history)));
}

/// What a message says is never lost: one that is no tool result and is not empty is in the
/// normalized history too. Nothing is made up.
pub proof fn law_other_messages_stay(history: Seq<MessageView>, i: int)
    requires
        0 <= i < history.len(),
        !(history[i].role is Tool),
        !is_empty_message(history[i]),
    ensures
        normalized(history).contains(history[i]),
        forall|j: int|
            0 <= j < normalized(history).len() ==> history.contains(
                #[trigger] normalized(history)[j],
            ),
{
    lemma_normalized(history);
}

/// A history without orphans, empty messages and repetitions is left as it is.
pub proof fn law_clean_history_stays(history: Seq<MessageView>)
    requires
        forall|i: int|
            0 <= i < history.len() ==> belongs(history, #[trigger] history[i])
                && !is_empty_message(history[i]),
        forall|i: int| 0 <= i < history.len() - 1 ==> #[trigger] history[i] != history[i + 1],
    ensures
        normalized(history) == history,
{
    lemma_filter_same(history, |m: MessageView| belongs(history, m));
    lemma_filter_same(history, |m: MessageView| !is_empty_message(m));
    lemma_repeats_same(history);
}

/// Normalizing a second time changes nothing.
pub proof fn law_normalized_once(history: Seq<MessageView>)
    ensures
        normalized(normalized(history)) == normalized(history),
        without_orphans(without_orphans(history)) == without_orphans(history),
{
    let out = normalized(history);
    law_no_orphans(history);
    law_no_empty_no_repeated(history);
    law_clean_history_stays(out);
    let rest = without_orphans(history);
    lemma_filter_same(rest, |m: MessageView| belongs(rest, m));
}

/// Only noise is left out of a prompt. Words and reasoning stay, calls stay, and so does the
/// result of a call that the assistant made anywhere in the history; a result of no such
/// call goes, and so does a message that holds nothing at all.
pub proof fn law_only_noise_is_left_out(history: Seq<MessageView>, i: int)
    requires
        0 <= i < history.len(),
    ensures
        !(history[i].role is Tool) && (history[i].content matches Some(c) && c.len() > 0)
            ==> normalized(history).contains(history[i]),
        !(history[i].role is Tool) && (history[i].reasoning_content matches Some(c) && c.len() > 0)
            ==> normalized(history).contains(history[i]),
        !(history[i].role is Tool) && history[i].tool_calls.len() > 0 ==> normalized(
            history,
        ).contains(history[i]),
        forall|j: int, k: int|
            history[i].role is Tool && 0 <= j < history.len() && history[j].role is Assistant && 0
                <= k < history[j].tool_calls.len() && history[i].tool_call_id == Some(
                (#[trigger] history[j].tool_calls[k]).call_id,
            ) ==> normalized(history).contains(history[i]),
        history[i].role is Tool && history[i].tool_call_id is None ==> !normalized(
            history,
        ).contains(history[i]),
        history[i].role is Tool && (forall|j: int, k: int|
            0 <= j < history.len() && history[j].role is Assistant && 0 <= k
                < history[j].tool_calls.len() ==> history[i].tool_call_id != Some(
                (#[trigger] history[j].tool_calls[k]).call_id,
            )) ==> !normalized(history).contains(history[i]),
        (history[i].content is None || history[i].content->0.len() == 0) && (
        history[i].reasoning_content is None || history[i].reasoning_content->0.len() == 0)
            && history[i].tool_calls.len() == 0 && history[i].tool_call_id is None ==> !normalized(
            history,
        ).contains(history[i]),
{
    lemma_normalized(history);
    let m = history[i];
    let out = normalized(history);
    assert forall|j: int, k: int|
        m.role is Tool && 0 <= j < history.len() && history[j].role is Assistant && 0 <= k
            < history[j].tool_calls.len() && m.tool_call_id == Some(
            (#[trigger] history[j].tool_calls[k]).call_id,
        ) implies out.contains(m) by {
        let id = m.tool_call_id->0;
        assert(makes_call(history[j], id));
        assert(has_call(history, id));
        assert(belongs(history, history[i]));
        assert(!is_empty_message(history[i]));
    }
    if out.contains(m) {
        let p = choose|p: int| 0 <= p < out.len() && out[p] == m;
        assert(belongs(history, out[p]));
        assert(!is_empty_message(out[p]));
        if m.role is Tool && m.tool_call_id is Some {
            let id = m.tool_call_id->0;
            let j = choose|j: int| 0 <= j < history.len() && makes_call(#[trigger] history[j], id);
            let k = choose|k: int|
                0 <= k < history[j].tool_calls.len() && (
                #[trigger] history[j].tool_calls[k]).call_id == id;
            assert(history[j].tool_calls[k].call_id == id);
        }
    }
}

} // verus!
