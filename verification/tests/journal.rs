use deepomni::journal::{
    event_frame_to_journal_entry, journal_to_event_frame, InMemoryJournal, JournalEntry,
    JournalError, JournalRecord,
};
use deepomni::protocol::event::EventFrame;
use deepomni::protocol::id::{MessageId, ThreadId, ToolCallId, TurnId};

fn tid() -> ThreadId {
    ThreadId::from_string("e2e-journal")
}

fn turn() -> TurnId {
    TurnId::from_string("e2e-j1")
}

#[test]
fn projects_turn_started_record_to_public_event_frame() {
    let record = JournalRecord {
        seq: 1,
        thread_id: ThreadId::from_string("thread-1"),
        turn_id: TurnId::from_string("turn-1"),
        entry: JournalEntry::TurnStarted { user_input: "hello".to_string() },
        created_at: 1_700_000_000,
    };
    let event = journal_to_event_frame(&record).unwrap();
    match event {
        EventFrame::TurnStarted { thread_id, turn_id, user_input } => {
            assert_eq!(thread_id.as_str(), "thread-1");
            assert_eq!(turn_id.as_str(), "turn-1");
            assert_eq!(user_input, "hello");
        }
        other => panic!("unexpected projection: {other:?}"),
    }
}

#[test]
fn test_e2e_journal_replay_after_turn() {
    let mut journal = InMemoryJournal::new();
    let record = journal
        .append(&tid(), &turn(), JournalEntry::TurnStarted { user_input: "hello".into() }, 9)
        .unwrap();
    assert_eq!(record.seq, 1);
    assert_eq!(record.created_at, 9);
    let replayed = journal.replay(&tid(), 0).unwrap();
    assert_eq!(replayed.len(), 1);
    assert_eq!(replayed[0].seq, 1);
}

#[test]
fn test_journal_replay_preserves_monotonic_seq() {
    let mut journal = InMemoryJournal::new();
    let tid = ThreadId::from_string("sse-replay");
    let t1 = TurnId::from_string("t1");
    journal.append(&tid, &t1, JournalEntry::TurnStarted { user_input: "a".into() }, 0).unwrap();
    journal
        .append(
            &tid,
            &t1,
            JournalEntry::AssistantDelta {
                message_id: MessageId::from_string("m1"),
                delta: "hi".into(),
            },
            0,
        )
        .unwrap();
    journal.append(&tid, &t1, JournalEntry::TurnCompleted, 0).unwrap();

    let all = journal.replay(&tid, 0).unwrap();
    assert_eq!(all.len(), 3);
    assert_eq!(all[0].seq, 1);
    assert_eq!(all[1].seq, 2);
    assert_eq!(all[2].seq, 3);

    let since = journal.replay(&tid, 2).unwrap();
    assert_eq!(since.len(), 1);
    assert_eq!(since[0].seq, 3);
}

#[test]
fn threads_have_journals_of_their_own() {
    let mut journal = InMemoryJournal::new();
    journal.append(&tid(), &turn(), JournalEntry::TurnCompleted, 0).unwrap();
    let other = ThreadId::from_string("other");
    let record = journal.append(&other, &turn(), JournalEntry::TurnCompleted, 0).unwrap();
    assert_eq!(record.seq, 1);
    assert_eq!(journal.replay(&tid(), 0).unwrap().len(), 1);
    assert!(journal.replay(&ThreadId::from_string("none"), 0).unwrap().is_empty());
}

#[test]
fn an_event_survives_its_journal() {
    let event = EventFrame::ToolCallFailed {
        turn_id: turn(),
        call_id: ToolCallId::from_string("c"),
        error: "gone".into(),
    };
    let (turn_id, entry) = event_frame_to_journal_entry(&event).unwrap();
    assert_eq!(turn_id, turn());
    let record =
        JournalRecord { seq: 1, thread_id: tid(), turn_id, entry, created_at: 0 };
    match journal_to_event_frame(&record) {
        Some(EventFrame::ToolCallFailed { turn_id, call_id, error }) => {
            assert_eq!(turn_id, turn());
            assert_eq!(call_id.as_str(), "c");
            assert_eq!(error, "gone");
        }
        other => panic!("unexpected event: {other:?}"),
    }
}

#[test]
fn journal_errors_have_their_texts() {
    assert_eq!(JournalError::Storage("full".into()).to_string(), "journal storage error: full");
    assert_eq!(
        JournalError::Serialization("bad".into()).to_string(),
        "journal serialization error: bad"
    );
}
