//! Live delivery of events to hosts, and their form on the wire.

use crate::protocol::event::{EnvelopeView, EventEnvelope, EventFrame, FrameView};
use crate::protocol::id::ThreadId;
use crate::table::Table;
use crate::text;
use vstd::prelude::*;

verus! {

/// The tag of a frame.
pub open spec fn tag_of(f: FrameView) -> Seq<char> {
    match f {
        FrameView::ThreadCreated { .. } => "thread.created"@,
        FrameView::ThreadUpdated { .. } => "thread.updated"@,
        FrameView::ThreadArchived { .. } => "thread.archived"@,
        FrameView::TurnStarted { .. } => "turn.started"@,
        FrameView::TurnSteered { .. } => "turn.steered"@,
        FrameView::TurnInterrupted { .. } => "turn.interrupted"@,
        FrameView::AssistantMessageDelta { .. } => "assistant.message.delta"@,
        FrameView::AssistantMessageCompleted { .. } => "assistant.message.completed"@,
        FrameView::AssistantReasoningDelta { .. } => "assistant.reasoning.delta"@,
        FrameView::AssistantReasoningCompleted { .. } => "assistant.reasoning.completed"@,
        FrameView::ToolCallStarted { .. } => "tool.call.started"@,
        FrameView::ToolCallArgumentsDelta { .. } => "tool.call.arguments.delta"@,
        FrameView::ToolCallRequiresApproval { .. } => "tool.call.requires_approval"@,
        FrameView::ToolCallApproved { .. } => "tool.call.approved"@,
        FrameView::ToolCallRejected { .. } => "tool.call.rejected"@,
        FrameView::ToolCallCompleted { .. } => "tool.call.completed"@,
        FrameView::ToolCallFailed { .. } => "tool.call.failed"@,
        FrameView::ContextCompactionStarted { .. } => "context.compaction.started"@,
        FrameView::ContextCompactionCompleted { .. } => "context.compaction.completed"@,
        FrameView::SubagentSpawned { .. } => "subagent.spawned"@,
        FrameView::SubagentCompleted { .. } => "subagent.completed"@,
        FrameView::SubagentFailed { .. } => "subagent.failed"@,
        FrameView::TurnCompleted { .. } => "turn.completed"@,
        FrameView::TurnFailed { .. } => "turn.failed"@,
        FrameView::RuntimeWarning { .. } => "runtime.warning"@,
    }
}

/// The tag under which a frame is sent.
pub fn event_tag(event: &EventFrame) -> (r: &'static str)
    ensures
        r@ == tag_of(event@),
{
    match event {
        EventFrame::ThreadCreated { .. } => "thread.created",
        EventFrame::ThreadUpdated { .. } => "thread.updated",
        EventFrame::ThreadArchived { .. } => "thread.archived",
        EventFrame::TurnStarted { .. } => "turn.started",
        EventFrame::TurnSteered { .. } => "turn.steered",
        EventFrame::TurnInterrupted { .. } => "turn.interrupted",
        EventFrame::AssistantMessageDelta { .. } => "assistant.message.delta",
        EventFrame::AssistantMessageCompleted { .. } => "assistant.message.completed",
        EventFrame::AssistantReasoningDelta { .. } => "assistant.reasoning.delta",
        EventFrame::AssistantReasoningCompleted { .. } => "assistant.reasoning.completed",
        EventFrame::ToolCallStarted { .. } => "tool.call.started",
        EventFrame::ToolCallArgumentsDelta { .. } => "tool.call.arguments.delta",
        EventFrame::ToolCallRequiresApproval { .. } => "tool.call.requires_approval",
        EventFrame::ToolCallApproved { .. } => "tool.call.approved",
        EventFrame::ToolCallRejected { .. } => "tool.call.rejected",
        EventFrame::ToolCallCompleted { .. } => "tool.call.completed",
        EventFrame::ToolCallFailed { .. } => "tool.call.failed",
        EventFrame::ContextCompactionStarted { .. } => "context.compaction.started",
        EventFrame::ContextCompactionCompleted { .. } => "context.compaction.completed",
        EventFrame::SubagentSpawned { .. } => "subagent.spawned",
        EventFrame::SubagentCompleted { .. } => "subagent.completed",
        EventFrame::SubagentFailed { .. } => "subagent.failed",
        EventFrame::TurnCompleted { .. } => "turn.completed",
        EventFrame::TurnFailed { .. } => "turn.failed",
        EventFrame::RuntimeWarning { .. } => "runtime.warning",
    }
}

/// The number of the variant of a frame.
pub open spec fn variant_of(f: FrameView) -> nat {
    match f {
        FrameView::ThreadCreated { .. } => 0,
        FrameView::ThreadUpdated { .. } => 1,
        FrameView::ThreadArchived { .. } => 2,
        FrameView::TurnStarted { .. } => 3,
        FrameView::TurnSteered { .. } => 4,
        FrameView::TurnInterrupted { .. } => 5,
        FrameView::AssistantMessageDelta { .. } => 6,
        FrameView::AssistantMessageCompleted { .. } => 7,
        FrameView::AssistantReasoningDelta { .. } => 8,
        FrameView::AssistantReasoningCompleted { .. } => 9,
        FrameView::ToolCallStarted { .. } => 10,
        FrameView::ToolCallArgumentsDelta { .. } => 11,
        FrameView::ToolCallRequiresApproval { .. } => 12,
        FrameView::ToolCallApproved { .. } => 13,
        FrameView::ToolCallRejected { .. } => 14,
        FrameView::ToolCallCompleted { .. } => 15,
        FrameView::ToolCallFailed { .. } => 16,
        FrameView::ContextCompactionStarted { .. } => 17,
        FrameView::ContextCompactionCompleted { .. } => 18,
        FrameView::SubagentSpawned { .. } => 19,
        FrameView::SubagentCompleted { .. } => 20,
        FrameView::SubagentFailed { .. } => 21,
        FrameView::TurnCompleted { .. } => 22,
        FrameView::TurnFailed { .. } => 23,
        FrameView::RuntimeWarning { .. } => 24,
    }
}

/// The number of the kind of frame that a tag stands for, read off its length and a few
/// of its characters.
spec fn tag_number(t: Seq<char>) -> nat {
    if t.len() == 14 && t[7] == 'c' {
        0
    } else if t.len() == 14 && t[7] == 'u' {
        1
    } else if t.len() == 14 && t[7] == 'm' {
        22
    } else if t.len() == 15 && t[0] == 't' {
        2
    } else if t.len() == 15 && t[0] == 's' {
        21
    } else if t.len() == 15 && t[0] == 'r' {
        24
    } else if t.len() == 12 && t[7] == 'a' {
        3
    } else if t.len() == 12 && t[7] == 'e' {
        4
    } else if t.len() == 16 && t[2] == 'r' {
        5
    } else if t.len() == 16 && t[2] == 'o' {
        16
    } else if t.len() == 16 && t[2] == 'b' {
        19
    } else if t.len() == 23 {
        6
    } else if t.len() == 27 && t[0] == 'a' {
        7
    } else if t.len() == 27 && t[0] == 't' {
        12
    } else if t.len() == 25 && t[0] == 'a' {
        8
    } else if t.len() == 25 && t[0] == 't' {
        11
    } else if t.len() == 29 {
        9
    } else if t.len() == 17 {
        10
    } else if t.len() == 18 && t[10] == 'a' {
        13
    } else if t.len() == 18 && t[10] == 'r' {
        14
    } else if t.len() == 18 && t[10] == 'o' {
        20
    } else if t.len() == 19 {
        15
    } else if t.len() == 26 {
        17
    } else if t.len() == 28 {
        18
    } else if t.len() == 11 {
        23
    } else {
        25
    }
}

proof fn lemma_tag_number(f: FrameView)
    ensures
        tag_number(tag_of(f)) == variant_of(f),
{
    match f {
        FrameView::ThreadCreated { .. } => {
            reveal_strlit("thread.created");
        },
        FrameView::ThreadUpdated { .. } => {
            reveal_strlit("thread.updated");
        },
        FrameView::ThreadArchived { .. } => {
            reveal_strlit("thread.archived");
        },
        FrameView::TurnStarted { .. } => {
            reveal_strlit("turn.started");
        },
        FrameView::TurnSteered { .. } => {
            reveal_strlit("turn.steered");
        },
        FrameView::TurnInterrupted { .. } => {
            reveal_strlit("turn.interrupted");
        },
        FrameView::AssistantMessageDelta { .. } => {
            reveal_strlit("assistant.message.delta");
        },
        FrameView::AssistantMessageCompleted { .. } => {
            reveal_strlit("assistant.message.completed");
        },
        FrameView::AssistantReasoningDelta { .. } => {
            reveal_strlit("assistant.reasoning.delta");
        },
        FrameView::AssistantReasoningCompleted { .. } => {
            reveal_strlit("assistant.reasoning.completed");
        },
        FrameView::ToolCallStarted { .. } => {
            reveal_strlit("tool.call.started");
        },
        FrameView::ToolCallArgumentsDelta { .. } => {
            reveal_strlit("tool.call.arguments.delta");
        },
        FrameView::ToolCallRequiresApproval { .. } => {
            reveal_strlit("tool.call.requires_approval");
        },
        FrameView::ToolCallApproved { .. } => {
            reveal_strlit("tool.call.approved");
        },
        FrameView::ToolCallRejected { .. } => {
            reveal_strlit("tool.call.rejected");
        },
        FrameView::ToolCallCompleted { .. } => {
            reveal_strlit("tool.call.completed");
        },
        FrameView::ToolCallFailed { .. } => {
            reveal_strlit("tool.call.failed");
        },
        FrameView::ContextCompactionStarted { .. } => {
            reveal_strlit("context.compaction.started");
        },
        FrameView::ContextCompactionCompleted { .. } => {
            reveal_strlit("context.compaction.completed");
        },
        FrameView::SubagentSpawned { .. } => {
            reveal_strlit("subagent.spawned");
        },
        FrameView::SubagentCompleted { .. } => {
            reveal_strlit("subagent.completed");
        },
        FrameView::SubagentFailed { .. } => {
            reveal_strlit("subagent.failed");
        },
        FrameView::TurnCompleted { .. } => {
            reveal_strlit("turn.completed");
        },
        FrameView::TurnFailed { .. } => {
            reveal_strlit("turn.failed");
        },
        FrameView::RuntimeWarning { .. } => {
            reveal_strlit("runtime.warning");
        },
    }
}

/// No two kinds of frames have the same tag.
pub proof fn law_tags_are_unique(a: FrameView, b: FrameView)
    requires
        tag_of(a) == tag_of(b),
    ensures
        variant_of(a) == variant_of(b),
{
    lemma_tag_number(a);
    lemma_tag_number(b);
}

/// A frame as a server-sent event: its tag, the given JSON, and an empty line.
pub open spec fn sse_text(tag: Seq<char>, json: Seq<char>) -> Seq<char> {
    "event: "@ + tag + "\ndata: "@ + json + "\n\n"@
}

/// Writes a frame, whose JSON is given, as a server-sent event.
pub fn to_sse_data(event: &EventFrame, json: &str) -> (r: String)
    ensures
        r@ == sse_text(tag_of(event@), json@),
{
    let head = text::cat3("event: ", event_tag(event), "\ndata: ");
    text::cat3(head.as_str(), json, "\n\n")
}

/// A choice of frames by tag.
#[derive(Debug)]
pub struct EventFilter {
    allowed_tags: Option<Vec<String>>,
    min_seq: Option<i64>,
}

impl EventFilter {
    /// The tags that pass; `None` where all do.
    pub closed spec fn tags(&self) -> Option<Seq<Seq<char>>> {
        match self.allowed_tags {
            Some(v) => Some(text::texts(v@)),
            None => None,
        }
    }

    /// The number after which events are wanted. Stores apply it; the filter does not.
    pub closed spec fn since(&self) -> Option<i64> {
        self.min_seq
    }

    pub fn new() -> (r: Self)
        ensures
            r.tags() is None,
            r.since() is None,
    {
        EventFilter { allowed_tags: None, min_seq: None }
    }

    pub fn with_tags(self, tags: Vec<String>) -> (r: Self)
        ensures
            r.tags() == Some(text::texts(tags@)),
            r.since() == self.since(),
    {
        EventFilter { allowed_tags: Some(tags), min_seq: self.min_seq }
    }

    pub fn since_seq(self, seq: i64) -> (r: Self)
        ensures
            r.tags() == self.tags(),
            r.since() == Some(seq),
    {
        EventFilter { allowed_tags: self.allowed_tags, min_seq: Some(seq) }
    }

    /// Whether a frame passes: all do, unless tags are given and its tag is none of
    /// them.
    pub fn matches(&self, event: &EventFrame) -> (r: bool)
        ensures
            r == (self.tags() matches Some(v) ==> v.contains(tag_of(event@))),
    {
        match &self.allowed_tags {
            Some(v) => text::has_text(v, event_tag(event)),
            None => true,
        }
    }
}

impl Default for EventFilter {
    fn default() -> (r: Self)
        ensures
            r.tags() is None,
            r.since() is None,
    {
        EventFilter::new()
    }
}

/// Errors of the event bus.
#[derive(Debug)]
pub enum EventBusError {
    /// The thread has no channel.
    ThreadNotActive(ThreadId),
    /// The event could not be stored.
    PersistError(String),
}

impl EventBusError {
    pub open spec fn message(&self) -> Seq<char> {
        match *self {
            EventBusError::ThreadNotActive(id) => "no active broadcast channel for thread "@ + id@,
            EventBusError::PersistError(m) => "persist error: "@ + m@,
        }
    }

    pub fn to_string(&self) -> (r: String)
        ensures
            r@ == self.message(),
    {
        match self {
            EventBusError::ThreadNotActive(id) => text::cat(
                "no active broadcast channel for thread ",
                id.as_str(),
            ),
            EventBusError::PersistError(m) => text::cat("persist error: ", m.as_str()),
        }
    }
}

/// The bus: the threads that have a channel, each with the handle of its channel.
#[derive(Debug)]
pub struct EventBus<C> {
    channels: Table<C>,
}

/// The number under which an event is delivered: the one it was stored under, where it
/// is stored at all; `None` where storing it failed.
pub open spec fn delivered_seq(seq: i64, stored: Option<Result<i64, String>>) -> Option<i64> {
    match stored {
        Some(Ok(s)) => Some(s),
        Some(Err(_)) => None,
        None => Some(seq),
    }
}

impl<C> EventBus<C> {
    /// The channels by thread.
    pub closed spec fn open_channels(&self) -> Map<Seq<char>, C> {
        self.channels@
    }

    pub closed spec fn count(&self) -> nat {
        self.channels.order().len()
    }

    pub closed spec fn wf(&self) -> bool {
        self.channels.wf()
    }

    pub fn new() -> (r: Self)
        ensures
            r.wf(),
            r.open_channels() == Map::<Seq<char>, C>::empty(),
            r.count() == 0,
    {
        EventBus { channels: Table::new() }
    }

    /// The channel of a thread; where there is none the given one becomes its channel.
    pub fn subscribe(&mut self, thread_id: &ThreadId, fresh: C) -> (r: &C)
        requires
            old(self).wf(),
        ensures
            final(self).wf(),
            final(self).open_channels() == (if old(self).open_channels().dom().contains(
                thread_id@,
            ) {
                old(self).open_channels()
            } else {
                old(self).open_channels().insert(thread_id@, fresh)
            }),
            *r == final(self).open_channels()[thread_id@],
            final(self).count() == (if old(self).open_channels().dom().contains(thread_id@) {
                old(self).count()
            } else {
                old(self).count() + 1
            }),
    {
        if !self.channels.contains(thread_id.as_str()) {
            self.channels.insert(thread_id.to_string(), fresh);
        }
        self.channels.get(thread_id.as_str()).unwrap()
    }

    /// Delivers an event: where it was stored, or is not stored at all, it goes out to
    /// the channel of its thread under the number it was stored under. An event that
    /// could not be stored goes nowhere.
    pub fn emit(
        &self,
        thread_id: &ThreadId,
        seq: i64,
        event: EventFrame,
        stored: Option<Result<i64, String>>,
    ) -> (r: Result<Option<(&C, EventEnvelope)>, EventBusError>)
        requires
            self.wf(),
        ensures
            match delivered_seq(seq, stored) {
                Some(s) => if self.open_channels().dom().contains(thread_id@) {
                    r matches Ok(Some((c, e))) && *c == self.open_channels()[thread_id@] && e@ == (
                    EnvelopeView { seq: s, frame: event@ })
                } else {
                    r matches Ok(None)
                },
                None => r matches Err(EventBusError::PersistError(m)) && stored == Some(
                    Err::<i64, String>(m),
                ),
            },
    {
        let s: i64 = match stored {
            Some(Ok(s)) => s,
            Some(Err(e)) => {
                return Err(EventBusError::PersistError(e));
            },
            None => seq,
        };
        match self.channels.get(thread_id.as_str()) {
            Some(c) => Ok(Some((c, EventEnvelope { seq: s, frame: event }))),
            None => Ok(None),
        }
    }

    /// Removes the channel of a thread.
    pub fn close_thread(&mut self, thread_id: &ThreadId)
        requires
            old(self).wf(),
        ensures
            final(self).wf(),
            final(self).open_channels() == old(self).open_channels().remove(thread_id@),
            final(self).count() == (if old(self).open_channels().dom().contains(thread_id@) {
                (old(self).count() - 1) as nat
            } else {
                old(self).count()
            }),
    {
        proof {
            self.channels.lemma_order();
        }
        let gone = self.channels.remove(thread_id.as_str());
    }

    /// How many threads have a channel.
    pub fn active_thread_count(&self) -> (r: usize)
        requires
            self.wf(),
        ensures
            r == self.count(),
    {
        self.channels.len()
    }
}

impl<C> Default for EventBus<C> {
    fn default() -> (r: Self)
        ensures
            r.wf(),
            r.open_channels() == Map::<Seq<char>, C>::empty(),
            r.count() == 0,
    {
        EventBus::new()
    }
}

/// What a host that has seen the events up to `since` is sent from the store: the
/// events up to the mark.
pub open spec fn replayed_part(stored: Seq<EnvelopeView>, mark: i64) -> Seq<EnvelopeView>
    decreases stored.len(),
{
    if stored.len() == 0 || stored[0].seq > mark {
        Seq::empty()
    } else {
        seq![stored[0]] + replayed_part(stored.skip(1), mark)
    }
}

/// What it is sent from the channel: the events above the mark.
pub open spec fn live_part(live: Seq<EnvelopeView>, mark: i64) -> Seq<EnvelopeView> {
    live.filter(|e: EnvelopeView| e.seq > mark)
}

/// The events of a list, over plain values.
pub open spec fn envelopes(v: Seq<EventEnvelope>) -> Seq<EnvelopeView> {
    v.map_values(|e: EventEnvelope| e@)
}

/// The mark up to which a stream replays: the number of the last stored event, or zero
/// where none is stored.
pub fn high_water(stored: &Vec<EventEnvelope>) -> (r: i64)
    ensures
        r == (if stored@.len() == 0 {
            0
        } else {
            stored@.last().seq
        }),
{
    if stored.len() == 0 {
        0
    } else {
        stored[stored.len() - 1].seq
    }
}

/// How many of the stored events a stream replays.
pub fn replay_count(stored: &Vec<EventEnvelope>, mark: i64) -> (r: usize)
    ensures
        r <= stored@.len(),
        envelopes(stored@).take(r as int) == replayed_part(envelopes(stored@), mark),
{
    let ghost all = envelopes(stored@);
    let mut i: usize = 0;
    assert(all.skip(0) =~= all);
    assert(all.take(0) + replayed_part(all, mark) =~= replayed_part(all, mark));
    while i < stored.len()
        invariant
            i <= stored.len(),
            all == envelopes(stored@),
            all.take(i as int) + replayed_part(all.skip(i as int), mark) == replayed_part(
                all,
                mark,
            ),
        decreases stored.len() - i,
    {
        if stored[i].seq > mark {
            assert(all.take(i as int) + Seq::<EnvelopeView>::empty() =~= all.take(i as int));
            return i;
        }
        assert(all.skip(i as int).skip(1) =~= all.skip(i + 1));
        assert(all.take(i + 1) =~= all.take(i as int) + seq![all[i as int]]);
        assert(all.take(i + 1) + replayed_part(all.skip(i + 1), mark) =~= all.take(i as int) + (
        seq![all[i as int]] + replayed_part(all.skip(i + 1), mark)));
        i = i + 1;
    }
    assert(all.take(i as int) + Seq::<EnvelopeView>::empty() =~= all.take(i as int));
    i
}

/// Whether an event from the channel is sent on: those up to the mark were replayed.
pub fn is_live(mark: i64, event: &EventEnvelope) -> (r: bool)
    ensures
        r == (event@.seq > mark),
{
    event.seq > mark
}

/// The numbers of a list of events rise.
pub open spec fn rising(v: Seq<EnvelopeView>) -> bool {
    forall|i: int, j: int| 0 <= i < j < v.len() ==> (#[trigger] v[i]).seq < (#[trigger] v[j]).seq
}

proof fn lemma_replayed_prefix(stored: Seq<EnvelopeView>, mark: i64)
    requires
        forall|i: int| 0 <= i < stored.len() ==> (#[trigger] stored[i]).seq <= mark,
    ensures
        replayed_part(stored, mark) == stored,
    decreases stored.len(),
{
    if stored.len() > 0 {
        assert forall|i: int| 0 <= i < stored.skip(1).len() implies (
        #[trigger] stored.skip(1)[i]).seq <= mark by {
            assert(stored.skip(1)[i] == stored[i + 1]);
        }
        lemma_replayed_prefix(stored.skip(1), mark);
        assert(seq![stored[0]] + stored.skip(1) =~= stored);
    }
}

proof fn lemma_live_split(live: Seq<EnvelopeView>, k: int, mark: i64)
    requires
        rising(live),
        0 <= k <= live.len(),
        forall|i: int| 0 <= i < k ==> (#[trigger] live[i]).seq <= mark,
        forall|i: int| k <= i < live.len() ==> (#[trigger] live[i]).seq > mark,
    ensures
        live_part(live, mark) == live.skip(k),
    decreases live.len(),
{
    let p = |e: EnvelopeView| e.seq > mark;
    reveal(Seq::filter);
    if live.len() > 0 {
        let front = live.drop_last();
        assert(rising(front)) by {
            assert forall|i: int, j: int| 0 <= i < j < front.len() implies (#[trigger] front[i]).seq
                < (#[trigger] front[j]).seq by {
                assert(front[i] == live[i]);
                assert(front[j] == live[j]);
            }
        }
        if k == live.len() {
            lemma_live_split(front, k - 1, mark);
            assert(front.skip(k - 1) =~= live.skip(k));
            assert(!p(live.last()));
        } else {
            lemma_live_split(front, k, mark);
            assert(p(live.last()));
            assert(front.skip(k).push(live.last()) =~= live.skip(k));
        }
    }
}

/// A host that subscribes first and then replays sees each event once and in order. Take
/// the events of a thread that the host has not seen, in the order of their numbers; say
/// that the store held the first `stored` of them when the mark was read, and that the
/// channel brings all from some earlier point on. Then what is replayed and what comes
/// live make up all of them.
pub proof fn law_stream_has_no_gap(all: Seq<EnvelopeView>, stored: int, from: int, mark: i64)
    requires
        rising(all),
        0 <= from <= stored <= all.len(),
        forall|i: int| 0 <= i < stored ==> (#[trigger] all[i]).seq <= mark,
        forall|i: int| stored <= i < all.len() ==> (#[trigger] all[i]).seq > mark,
    ensures
        replayed_part(all.take(stored), mark) + live_part(all.skip(from), mark) == all,
{
    let front = all.take(stored);
    assert forall|i: int| 0 <= i < front.len() implies (#[trigger] front[i]).seq <= mark by {
        assert(front[i] == all[i]);
    }
    lemma_replayed_prefix(front, mark);
    let live = all.skip(from);
    assert forall|i: int, j: int| 0 <= i < j < live.len() implies (#[trigger] live[i]).seq < (
    #[trigger] live[j]).seq by {
        assert(live[i] == all[from + i]);
        assert(live[j] == all[from + j]);
    }
    let k = stored - from;
    assert forall|i: int| 0 <= i < k implies (#[trigger] live[i]).seq <= mark by {
        assert(live[i] == all[from + i]);
    }
    assert forall|i: int| k <= i < live.len() implies (#[trigger] live[i]).seq > mark by {
        assert(live[i] == all[from + i]);
    }
    lemma_live_split(live, k, mark);
    assert(front + live.skip(k) =~= all);
}

/// A frame as a server-sent event can be taken apart again: the line of the tag, the line of
/// the data with the very JSON that was given, and the empty line that ends the event.
pub proof fn law_sse_carries_tag_and_data(tag: Seq<char>, json: Seq<char>)
    ensures
        sse_text(tag, json).len() == tag.len() + json.len() + 16,
        sse_text(tag, json).take(7) == "event: "@,
        sse_text(tag, json).subrange(7, 7int + tag.len()) == tag,
        sse_text(tag, json).subrange(7int + tag.len(), 14int + tag.len()) == "\ndata: "@,
        sse_text(tag, json).subrange(14int + tag.len(), 14int + tag.len() + json.len()) == json,
        sse_text(tag, json).skip(14int + tag.len() + json.len()) == "\n\n"@,
{
    reveal_strlit("event: ");
    reveal_strlit("\ndata: ");
    reveal_strlit("\n\n");
    let s = sse_text(tag, json);
    assert(s.take(7) =~= "event: "@);
    assert(s.subrange(7, 7int + tag.len()) =~= tag);
    assert(s.subrange(7int + tag.len(), 14int + tag.len()) =~= "\ndata: "@);
    assert(s.subrange(14int + tag.len(), 14int + tag.len() + json.len()) =~= json);
    assert(s.skip(14int + tag.len() + json.len()) =~= "\n\n"@);
}

/// An event goes out under the number that it was stored under; where it is not stored,
/// under its own; where storing it failed, not at all.
pub proof fn law_stored_number_wins(seq: i64, stored: Option<Result<i64, String>>)
    ensures
        stored is None ==> delivered_seq(seq, stored) == Some(seq),
        stored matches Some(Ok(s)) ==> delivered_seq(seq, stored) == Some(s),
        stored matches Some(Err(e)) ==> delivered_seq(seq, stored) is None,
{
}

/// What is replayed are the first of the stored events, as they are, up to the first one
/// above the mark.
pub proof fn law_replay_stops_at_the_mark(stored: Seq<EnvelopeView>, mark: i64)
    ensures
        replayed_part(stored, mark).len() <= stored.len(),
        replayed_part(stored, mark) == stored.take(replayed_part(stored, mark).len() as int),
        forall|i: int|
            0 <= i < replayed_part(stored, mark).len() ==> (#[trigger] stored[i]).seq <= mark,
        replayed_part(stored, mark).len() < stored.len() ==> stored[replayed_part(
            stored,
            mark,
        ).len() as int].seq > mark,
    decreases stored.len(),
{
    let p = replayed_part(stored, mark);
    if stored.len() > 0 && stored[0].seq <= mark {
        let rest = stored.skip(1);
        law_replay_stops_at_the_mark(rest, mark);
        let q = replayed_part(rest, mark);
        assert(p == seq![stored[0]] + q);
        assert forall|i: int| 0 <= i < p.len() implies (#[trigger] stored[i]).seq <= mark by {
            if i > 0 {
                assert(rest[i - 1] == stored[i]);
            }
        }
        assert(p =~= stored.take(p.len() as int)) by {
            assert forall|i: int| 0 <= i < p.len() implies p[i] == stored[i] by {
                if i > 0 {
                    assert(q[i - 1] == rest.take(q.len() as int)[i - 1]);
                    assert(rest[i - 1] == stored[i]);
                }
            }
        }
        if p.len() < stored.len() {
            assert(rest[q.len() as int] == stored[p.len() as int]);
        }
    } else {
        assert(p =~= stored.take(0));
    }
}

/// What comes live is kept event by event: one more event from the channel is one more for
/// the host where it is above the mark, and none where it was replayed.
pub proof fn law_live_events_are_above_the_mark(
    live: Seq<EnvelopeView>,
    e: EnvelopeView,
    mark: i64,
)
    ensures
        live_part(Seq::empty(), mark).len() == 0,
        e.seq > mark ==> live_part(live.push(e), mark) == live_part(live, mark).push(e),
        e.seq <= mark ==> live_part(live.push(e), mark) == live_part(live, mark),
{
    reveal(Seq::filter);
    assert(live.push(e).drop_last() =~= live);
}

/// The messages of the bus name the thread or say what went wrong.
pub proof fn law_bus_errors_say_why(id: ThreadId, m: String)
    ensures
        EventBusError::ThreadNotActive(id).message() == "no active broadcast channel for thread "@
            + id@,
        EventBusError::PersistError(m).message() == "persist error: "@ + m@,
{
}

/// The tag of a frame says what it is about.
pub proof fn law_tags_tell_their_subject(f: FrameView)
    ensures
        f is TurnStarted || f is TurnSteered || f is TurnInterrupted || f is TurnCompleted
            || f is TurnFailed ==> "turn."@.is_prefix_of(tag_of(f)),
        f is ThreadCreated || f is ThreadUpdated || f is ThreadArchived ==> "thread."@.is_prefix_of(tag_of(f)),
        f is AssistantMessageDelta || f is AssistantMessageCompleted ==> "assistant.message."@.is_prefix_of(tag_of(f)),
        f is AssistantReasoningDelta || f is AssistantReasoningCompleted ==> "assistant.reasoning."@.is_prefix_of(tag_of(f)),
        f is ToolCallStarted || f is ToolCallArgumentsDelta || f is ToolCallRequiresApproval
            || f is ToolCallApproved || f is ToolCallRejected || f is ToolCallCompleted
            || f is ToolCallFailed ==> "tool.call."@.is_prefix_of(tag_of(f)),
        f is ContextCompactionStarted || f is ContextCompactionCompleted ==> "context.compaction."@.is_prefix_of(tag_of(f)),
        f is SubagentSpawned || f is SubagentCompleted || f is SubagentFailed ==> "subagent."@.is_prefix_of(tag_of(f)),
        f is RuntimeWarning ==> "runtime."@.is_prefix_of(tag_of(f)),
{
    reveal_strlit("thread.created");
    reveal_strlit("thread.updated");
    reveal_strlit("thread.archived");
    reveal_strlit("turn.started");
    reveal_strlit("turn.steered");
    reveal_strlit("turn.interrupted");
    reveal_strlit("assistant.message.delta");
    reveal_strlit("assistant.message.completed");
    reveal_strlit("assistant.reasoning.delta");
    reveal_strlit("assistant.reasoning.completed");
    reveal_strlit("tool.call.started");
    reveal_strlit("tool.call.arguments.delta");
    reveal_strlit("tool.call.requires_approval");
    reveal_strlit("tool.call.approved");
    reveal_strlit("tool.call.rejected");
    reveal_strlit("tool.call.completed");
    reveal_strlit("tool.call.failed");
    reveal_strlit("context.compaction.started");
    reveal_strlit("context.compaction.completed");
    reveal_strlit("subagent.spawned");
    reveal_strlit("subagent.completed");
    reveal_strlit("subagent.failed");
    reveal_strlit("turn.completed");
    reveal_strlit("turn.failed");
    reveal_strlit("runtime.warning");
    reveal_strlit("turn.");
    reveal_strlit("thread.");
    reveal_strlit("assistant.message.");
    reveal_strlit("assistant.reasoning.");
    reveal_strlit("tool.call.");
    reveal_strlit("context.compaction.");
    reveal_strlit("subagent.");
    reveal_strlit("runtime.");
    if f is TurnStarted || f is TurnSteered || f is TurnInterrupted || f is TurnCompleted
        || f is TurnFailed {
        assert(tag_of(f).take(5) =~= "turn."@);
    } else if f is ThreadCreated || f is ThreadUpdated || f is ThreadArchived {
        assert(tag_of(f).take(7) =~= "thread."@);
    } else if f is AssistantMessageDelta || f is AssistantMessageCompleted {
        assert(tag_of(f).take(18) =~= "assistant.message."@);
    } else if f is AssistantReasoningDelta || f is AssistantReasoningCompleted {
        assert(tag_of(f).take(20) =~= "assistant.reasoning."@);
    } else if f is ContextCompactionStarted || f is ContextCompactionCompleted {
        assert(tag_of(f).take(19) =~= "context.compaction."@);
    } else if f is SubagentSpawned || f is SubagentCompleted || f is SubagentFailed {
        assert(tag_of(f).take(9) =~= "subagent."@);
    } else if f is RuntimeWarning {
        assert(tag_of(f).take(8) =~= "runtime."@);
    } else {
        assert(tag_of(f).take(10) =~= "tool.call."@);
    }
}

/// The tag of a frame says how it went.
pub proof fn law_tags_tell_the_outcome(f: FrameView)
    ensures
        f is TurnCompleted || f is ToolCallCompleted || f is SubagentCompleted
            || f is AssistantMessageCompleted || f is AssistantReasoningCompleted
            || f is ContextCompactionCompleted ==> ".completed"@.is_suffix_of(tag_of(f)),
        f is TurnFailed || f is ToolCallFailed || f is SubagentFailed ==> ".failed"@.is_suffix_of(tag_of(f)),
        f is TurnStarted || f is ToolCallStarted || f is ContextCompactionStarted ==> ".started"@.is_suffix_of(tag_of(f)),
        f is AssistantMessageDelta || f is AssistantReasoningDelta || f is ToolCallArgumentsDelta
            ==> ".delta"@.is_suffix_of(tag_of(f)),
        f is ToolCallApproved ==> ".approved"@.is_suffix_of(tag_of(f)),
        f is ToolCallRejected ==> ".rejected"@.is_suffix_of(tag_of(f)),
        f is ToolCallRequiresApproval ==> ".requires_approval"@.is_suffix_of(tag_of(f)),
        f is TurnInterrupted ==> ".interrupted"@.is_suffix_of(tag_of(f)),
        f is TurnSteered ==> ".steered"@.is_suffix_of(tag_of(f)),
        f is ThreadCreated ==> ".created"@.is_suffix_of(tag_of(f)),
        f is ThreadUpdated ==> ".updated"@.is_suffix_of(tag_of(f)),
        f is ThreadArchived ==> ".archived"@.is_suffix_of(tag_of(f)),
        f is SubagentSpawned ==> ".spawned"@.is_suffix_of(tag_of(f)),
{
    reveal_strlit("thread.created");
    reveal_strlit("thread.updated");
    reveal_strlit("thread.archived");
    reveal_strlit("turn.started");
    reveal_strlit("turn.steered");
    reveal_strlit("turn.interrupted");
    reveal_strlit("assistant.message.delta");
    reveal_strlit("assistant.message.completed");
    reveal_strlit("assistant.reasoning.delta");
    reveal_strlit("assistant.reasoning.completed");
    reveal_strlit("tool.call.started");
    reveal_strlit("tool.call.arguments.delta");
    reveal_strlit("tool.call.requires_approval");
    reveal_strlit("tool.call.approved");
    reveal_strlit("tool.call.rejected");
    reveal_strlit("tool.call.completed");
    reveal_strlit("tool.call.failed");
    reveal_strlit("context.compaction.started");
    reveal_strlit("context.compaction.completed");
    reveal_strlit("subagent.spawned");
    reveal_strlit("subagent.completed");
    reveal_strlit("subagent.failed");
    reveal_strlit("turn.completed");
    reveal_strlit("turn.failed");
    reveal_strlit("runtime.warning");
    let t = tag_of(f);
    if t.len() > 0 && (f is TurnCompleted || f is ToolCallCompleted || f is SubagentCompleted
        || f is AssistantMessageCompleted || f is AssistantReasoningCompleted
        || f is ContextCompactionCompleted) {
        reveal_strlit(".completed");
        assert(t.skip(t.len() - 10) =~= ".completed"@);
    } else if f is TurnFailed || f is ToolCallFailed || f is SubagentFailed {
        reveal_strlit(".failed");
        assert(t.skip(t.len() - 7) =~= ".failed"@);
    } else if f is TurnStarted || f is ToolCallStarted || f is ContextCompactionStarted {
        reveal_strlit(".started");
        assert(t.skip(t.len() - 8) =~= ".started"@);
    } else if f is AssistantMessageDelta || f is AssistantReasoningDelta
        || f is ToolCallArgumentsDelta {
        reveal_strlit(".delta");
        assert(t.skip(t.len() - 6) =~= ".delta"@);
    } else if f is ToolCallApproved {
        reveal_strlit(".approved");
        assert(t.skip(t.len() - 9) =~= ".approved"@);
    } else if f is ToolCallRejected {
        reveal_strlit(".rejected");
        assert(t.skip(t.len() - 9) =~= ".rejected"@);
    } else if f is ToolCallRequiresApproval {
        reveal_strlit(".requires_approval");
        assert(t.skip(t.len() - 18) =~= ".requires_approval"@);
    } else if f is TurnInterrupted {
        reveal_strlit(".interrupted");
        assert(t.skip(t.len() - 12) =~= ".interrupted"@);
    } else if f is TurnSteered {
        reveal_strlit(".steered");
        assert(t.skip(t.len() - 8) =~= ".steered"@);
    } else if f is ThreadCreated {
        reveal_strlit(".created");
        assert(t.skip(t.len() - 8) =~= ".created"@);
    } else if f is ThreadUpdated {
        reveal_strlit(".updated");
        assert(t.skip(t.len() - 8) =~= ".updated"@);
    } else if f is ThreadArchived {
        reveal_strlit(".archived");
        assert(t.skip(t.len() - 9) =~= ".archived"@);
    } else if f is SubagentSpawned {
        reveal_strlit(".spawned");
        assert(t.skip(t.len() - 8) =~= ".spawned"@);
    }
}

/// The events of a list are seen one by one, in their order.
pub proof fn law_events_are_seen_in_order(v: Seq<EventEnvelope>, i: int)
    ensures
        envelopes(v).len() == v.len(),
        0 <= i < v.len() ==> envelopes(v)[i] == v[i]@,
{
}

} // verus!
