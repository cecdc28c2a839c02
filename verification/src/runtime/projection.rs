//! The projection of the journal to the events that hosts see.

use super::error::{RuntimeError, RuntimeErrorView};
use crate::events;
use crate::journal;
use crate::journal::{JournalRecord, RecordView};
use crate::protocol::event::{EnvelopeView, EventEnvelope};
use crate::protocol::id::ThreadId;
use crate::table::Table;
use vstd::prelude::*;

verus! {

/// The threads whose journal is projected.
#[derive(Debug)]
pub struct ProjectionService {
    active: Table<()>,
}

/// The event that a record shows to hosts, under its number.
pub open spec fn projected_one(r: RecordView) -> Option<EnvelopeView> {
    match journal::frame_of(r.thread_id, r.turn_id, r.entry) {
        Some(frame) => Some(EnvelopeView { seq: r.seq, frame }),
        None => None,
    }
}

/// The events that a log shows to hosts, in its order.
pub open spec fn projected(log: Seq<RecordView>) -> Seq<EnvelopeView>
    decreases log.len(),
{
    if log.len() == 0 {
        Seq::empty()
    } else {
        match projected_one(log.last()) {
            Some(e) => projected(log.drop_last()).push(e),
            None => projected(log.drop_last()),
        }
    }
}

/// Projects one record.
pub fn project_record(record: &JournalRecord) -> (r: Option<EventEnvelope>)
    ensures
        (match r {
            Some(e) => Some(e@),
            None => None,
        }) == projected_one(record@),
{
    match journal::journal_to_event_frame(record) {
        Some(frame) => Some(EventEnvelope { seq: record.seq, frame }),
        None => None,
    }
}

/// Projects a log.
pub fn project(log: &Vec<JournalRecord>) -> (r: Vec<EventEnvelope>)
    ensures
        events::envelopes(r@) == projected(journal::records(log@)),
{
    let ghost all = journal::records(log@);
    let mut out: Vec<EventEnvelope> = Vec::new();
    let mut i: usize = 0;
    assert(all.take(0) =~= Seq::empty());
    assert(events::envelopes(out@) =~= Seq::<EnvelopeView>::empty());
    while i < log.len()
        invariant
            i <= log.len(),
            all == journal::records(log@),
            events::envelopes(out@) == projected(all.take(i as int)),
        decreases log.len() - i,
    {
        assert(all.take(i + 1).drop_last() =~= all.take(i as int));
        assert(all.take(i + 1).last() == log@[i as int]@);
        match project_record(&log[i]) {
            Some(e) => {
                let ghost prior = out@;
                out.push(e);
                assert(events::envelopes(out@) =~= events::envelopes(prior).push(e@));
            },
            None => {},
        }
        i = i + 1;
    }
    assert(all.take(i as int) =~= all);
    out
}

/// The events of a thread to replay: those that the journal shows, or the stored events of
/// old where it shows none. A journal that cannot be read is an error; so is a store that
/// is asked and cannot be read.
pub fn replay_events(
    log: Result<Vec<JournalRecord>, String>,
    stored: Result<Vec<EventEnvelope>, String>,
) -> (r: Result<Vec<EventEnvelope>, RuntimeError>)
    ensures
        match log {
            Ok(v) => if projected(journal::records(v@)).len() > 0 {
                r matches Ok(e) && events::envelopes(e@) == projected(journal::records(v@))
            } else {
                match stored {
                    Ok(s) => r == Ok::<Vec<EventEnvelope>, RuntimeError>(s),
                    Err(m) => r matches Err(e) && e@ == RuntimeErrorView::State(m@),
                }
            },
            Err(m) => r matches Err(e) && e@ == RuntimeErrorView::State(m@),
        },
{
    match log {
        Ok(v) => {
            let shown = project(&v);
            assert(events::envelopes(shown@).len() == shown@.len());
            if shown.len() > 0 {
                return Ok(shown);
            }
            match stored {
                Ok(s) => Ok(s),
                Err(e) => Err(RuntimeError::State(e)),
            }
        },
        Err(e) => Err(RuntimeError::State(e)),
    }
}

impl ProjectionService {
    /// The threads that are projected.
    pub closed spec fn threads(&self) -> Set<Seq<char>> {
        self.active@.dom()
    }

    pub closed spec fn wf(&self) -> bool {
        self.active.wf()
    }

    pub fn new() -> (r: Self)
        ensures
            r.wf(),
            r.threads() == Set::<Seq<char>>::empty(),
    {
        let r = ProjectionService { active: Table::new() };
        assert(r.threads() =~= Set::<Seq<char>>::empty());
        r
    }

    /// Notes that a thread is projected, and says whether the projection is to be
    /// started: it is, the first time only.
    pub fn ensure_projection(&mut self, thread_id: &ThreadId) -> (r: bool)
        requires
            old(self).wf(),
        ensures
            final(self).wf(),
            r == !old(self).threads().contains(thread_id@),
            final(self).threads() == old(self).threads().insert(thread_id@),
    {
        let fresh: bool = !self.active.contains(thread_id.as_str());
        if fresh {
            self.active.insert(thread_id.to_string(), ());
        }
        assert(self.threads() =~= old(self).threads().insert(thread_id@));
        fresh
    }
}

/// Asking again for a projection starts no second one.
pub proof fn law_projection_starts_once(threads: Set<Seq<char>>, thread_id: Seq<char>)
    ensures
        threads.insert(thread_id).contains(thread_id),
        threads.insert(thread_id).insert(thread_id) == threads.insert(thread_id),
{
    assert(threads.insert(thread_id).insert(thread_id) =~= threads.insert(thread_id));
}

/// Hosts see the journal in its order: where the records of a log have rising numbers, so
/// have the events.
pub proof fn law_projection_keeps_order(log: Seq<RecordView>)
    requires
        forall|i: int, j: int|
            0 <= i < j < log.len() ==> (#[trigger] log[i]).seq < (#[trigger] log[j]).seq,
    ensures
        events::rising(projected(log)),
        projected(log).len() > 0 ==> log.len() > 0 && projected(log).last().seq <= log.last().seq,
    decreases log.len(),
{
    if log.len() > 0 {
        let front = log.drop_last();
        assert forall|i: int, j: int| 0 <= i < j < front.len() implies (#[trigger] front[i]).seq < (
        #[trigger] front[j]).seq by {
            assert(front[i] == log[i]);
            assert(front[j] == log[j]);
        }
        law_projection_keeps_order(front);
        let before = projected(front);
        if front.len() > 0 {
            assert(front.last() == log[log.len() - 2]);
            assert(log[log.len() - 2].seq < log[log.len() - 1].seq);
        }
        if let Some(e) = projected_one(log.last()) {
            let all = projected(log);
            assert forall|i: int, j: int| 0 <= i < j < all.len() implies (#[trigger] all[i]).seq < (
            #[trigger] all[j]).seq by {
                if j < before.len() {
                    assert(before[i].seq < before[j].seq);
                } else {
                    assert(before[i].seq <= before.last().seq);
                }
            }
        }
    }
}

/// An event shows its record: under the number of the record, with the frame that the
/// journal gives for its thread, its turn and its entry.
pub proof fn law_events_carry_their_record(r: RecordView)
    ensures
        match journal::frame_of(r.thread_id, r.turn_id, r.entry) {
            Some(f) => projected_one(r) matches Some(e) && e.seq == r.seq && e.frame == f,
            None => projected_one(r) is None,
        },
{
}

/// A log is shown record by record: one more record shows one more event at the end, or
/// none where the journal shows nothing of it.
pub proof fn law_log_is_shown_by_record(log: Seq<RecordView>, r: RecordView)
    ensures
        projected(Seq::<RecordView>::empty()).len() == 0,
        journal::frame_of(r.thread_id, r.turn_id, r.entry) is None ==> projected(log.push(r))
            == projected(log),
        journal::frame_of(r.thread_id, r.turn_id, r.entry) matches Some(f) ==> projected(
            log.push(r),
        ) == projected(log).push(EnvelopeView { seq: r.seq, frame: f }),
{
    assert(log.push(r).drop_last() =~= log);
}

} // verus!
