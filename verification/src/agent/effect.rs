//! What a turn does to the world, in order: journal entries, transcript items and
//! trace points. A turn only lists its effects; they are carried out elsewhere.

use crate::journal;
use crate::journal::{EntryView, JournalEntry};
use crate::protocol::event::{EventFrame, FrameView};
use crate::protocol::id::TurnId;
use crate::protocol::turn::{ItemView, TurnItem};
use vstd::prelude::*;

verus! {

/// One effect of a turn.
#[derive(Debug)]
pub enum TurnEffect {
    /// Hand an item to the transcript.
    Record(TurnItem),
    /// Append an entry to the journal of the thread.
    Append { turn_id: TurnId, entry: JournalEntry },
    /// Trace that a request goes out to the model.
    TraceInference,
    /// Trace that a tool is about to run.
    TraceToolDispatch { tool_name: String },
    /// Trace that the turn is over.
    TraceTurnCompleted,
}

/// An effect, over plain texts.
pub enum EffectView {
    Record(ItemView),
    Append { turn_id: Seq<char>, entry: EntryView },
    TraceInference,
    TraceToolDispatch { tool_name: Seq<char> },
    TraceTurnCompleted,
}

impl View for TurnEffect {
    type V = EffectView;

    open spec fn view(&self) -> EffectView {
        match *self {
            TurnEffect::Record(x) => EffectView::Record(x@),
            TurnEffect::Append { turn_id, entry } => EffectView::Append { turn_id: turn_id@, entry: entry@ },
            TurnEffect::TraceInference => EffectView::TraceInference,
            TurnEffect::TraceToolDispatch { tool_name } => EffectView::TraceToolDispatch { tool_name: tool_name@ },
            TurnEffect::TraceTurnCompleted => EffectView::TraceTurnCompleted,
        }
    }
}

/// The effects of a list, over plain texts.
pub open spec fn effects(v: Seq<TurnEffect>) -> Seq<EffectView> {
    v.map_values(|e: TurnEffect| e@)
}

/// The effect of showing a frame to hosts: the entry that the journal keeps of it.
pub open spec fn emitted(frame: FrameView) -> Seq<EffectView> {
    match journal::entry_of(frame) {
        Some(kept) => seq![EffectView::Append { turn_id: kept.0, entry: kept.1 }],
        None => Seq::empty(),
    }
}

/// The effect of recording an item: none where nothing takes it.
pub open spec fn recorded(recording: bool, item: ItemView) -> Seq<EffectView> {
    if recording {
        seq![EffectView::Record(item)]
    } else {
        Seq::empty()
    }
}

/// The effect of an entry that goes to the journal.
pub open spec fn appended(turn_id: Seq<char>, entry: EntryView) -> Seq<EffectView> {
    seq![EffectView::Append { turn_id, entry }]
}

/// Adds one effect.
pub fn add_effect(out: &mut Vec<TurnEffect>, e: TurnEffect)
    ensures
        effects(final(out)@) == effects(old(out)@) + seq![e@],
{
    let ghost before = out@;
    out.push(e);
    assert(effects(out@) =~= effects(before) + seq![e@]);
}

/// Shows a frame to hosts.
pub fn emit(out: &mut Vec<TurnEffect>, frame: EventFrame)
    ensures
        effects(final(out)@) == effects(old(out)@) + emitted(frame@),
{
    match journal::event_frame_to_journal_entry(&frame) {
        Some((turn_id, entry)) => {
            add_effect(out, TurnEffect::Append { turn_id, entry });
        },
        None => {
            assert(effects(out@) =~= effects(out@) + emitted(frame@));
        },
    }
}

/// Records an item, if items are recorded.
pub fn record(out: &mut Vec<TurnEffect>, recording: bool, item: TurnItem)
    ensures
        effects(final(out)@) == effects(old(out)@) + recorded(recording, item@),
{
    if recording {
        add_effect(out, TurnEffect::Record(item));
    } else {
        assert(effects(out@) =~= effects(out@) + recorded(recording, item@));
    }
}

/// Appends an entry to the journal.
pub fn append(out: &mut Vec<TurnEffect>, turn_id: TurnId, entry: JournalEntry)
    ensures
        effects(final(out)@) == effects(old(out)@) + appended(turn_id@, entry@),
{
    add_effect(out, TurnEffect::Append { turn_id, entry });
}

/// A frame that the journal keeps is appended to it once, under its turn; any other has no
/// effect. An item is recorded once where items are recorded.
pub proof fn law_effects_are_what_is_told(
    frame: FrameView,
    recording: bool,
    item: ItemView,
    turn_id: Seq<char>,
    entry: EntryView,
)
    ensures
        journal::entry_of(frame) is None ==> emitted(frame).len() == 0,
        journal::entry_of(frame) matches Some(k) ==> emitted(frame).len() == 1 && (emitted(
            frame,
        )[0] matches EffectView::Append { turn_id: t, entry: e } && t == k.0 && e == k.1),
        recording ==> recorded(recording, item).len() == 1 && (recorded(
            recording,
            item,
        )[0] matches EffectView::Record(x) && x == item),
        !recording ==> recorded(recording, item).len() == 0,
        appended(turn_id, entry).len() == 1,
        appended(turn_id, entry)[0] matches EffectView::Append { turn_id: t, entry: e } && t
            == turn_id && e == entry,
{
}

/// Effects are told of in their order, each as it is.
pub proof fn law_effects_are_seen(e: TurnEffect)
    ensures
        e matches TurnEffect::Record(x) ==> e@ == EffectView::Record(x@),
        e matches TurnEffect::Append { turn_id, entry } ==> (e@ matches EffectView::Append {
            turn_id: t,
            entry: n,
        } && t == turn_id@ && n == entry@),
        e is TraceInference ==> e@ is TraceInference,
        e matches TurnEffect::TraceToolDispatch { tool_name } ==> (
        e@ matches EffectView::TraceToolDispatch { tool_name: n } && n == tool_name@),
        e is TraceTurnCompleted ==> e@ is TraceTurnCompleted,
{
}

} // verus!
