use deepomni::events::{
    event_tag, high_water, is_live, replay_count, to_sse_data, EventBus, EventBusError, EventFilter,
};
use deepomni::protocol::event::{EventEnvelope, EventFrame};
use deepomni::protocol::id::{MessageId, SubagentId, ThreadId, ToolCallId, TurnId};
use deepomni::protocol::event::ReasoningVisibility;
use std::cell::RefCell;
use std::rc::Rc;

fn started(input: &str) -> EventFrame {
    EventFrame::TurnStarted {
        thread_id: ThreadId::from_string("t1"),
        turn_id: TurnId::from_string("tu1"),
        user_input: input.into(),
    }
}

fn completed() -> EventFrame {
    EventFrame::TurnCompleted { turn_id: TurnId::from_string("tu1") }
}

#[test]
fn test_event_tag_mapping() {
    let event = EventFrame::TurnStarted {
        thread_id: ThreadId::from_string("t1"),
        turn_id: TurnId::from_string("tu1"),
        user_input: "hello".into(),
    };
    assert_eq!(event_tag(&event), "turn.started");
}

#[test]
fn test_to_sse_data_format() {
    let event = EventFrame::TurnCompleted { turn_id: TurnId::from_string("tu1") };
    let sse = to_sse_data(&event, r#"{"type":"turn.completed","turn_id":"tu1"}"#);
    assert!(sse.starts_with("event: turn.completed\n"));
    assert!(sse.contains("data: "));
    assert!(sse.ends_with("\n\n"));
    assert_eq!(
        sse,
        "event: turn.completed\ndata: {\"type\":\"turn.completed\",\"turn_id\":\"tu1\"}\n\n"
    );
}

type Inbox = Rc<RefCell<Vec<EventEnvelope>>>;

fn deliver(
    bus: &EventBus<Inbox>,
    thread: &ThreadId,
    seq: i64,
    event: EventFrame,
) -> Result<bool, EventBusError> {
    match bus.emit(thread, seq, event, None)? {
        Some((inbox, envelope)) => {
            inbox.borrow_mut().push(envelope);
            Ok(true)
        }
        None => Ok(false),
    }
}

#[test]
fn test_event_bus_subscribe_and_emit() {
    let mut bus: EventBus<Inbox> = EventBus::new();
    let tid = ThreadId::from_string("thread-test");
    let sub = bus.subscribe(&tid, Inbox::default()).clone();
    deliver(
        &bus,
        &tid,
        1,
        EventFrame::TurnStarted {
            thread_id: tid.clone(),
            turn_id: TurnId::from_string("turn-1"),
            user_input: "hello".into(),
        },
    )
    .unwrap();
    let received = sub.borrow();
    match &received[0].frame {
        EventFrame::TurnStarted { user_input, .. } => assert_eq!(user_input, "hello"),
        _ => panic!("wrong event type"),
    }
}

#[test]
fn test_event_bus_multiple_subscribers() {
    let mut bus: EventBus<Inbox> = EventBus::new();
    let tid = ThreadId::from_string("thread-multi");
    let sub1 = bus.subscribe(&tid, Inbox::default()).clone();
    let sub2 = bus.subscribe(&tid, Inbox::default()).clone();
    deliver(&bus, &tid, 1, completed()).unwrap();
    assert_eq!(sub1.borrow().len(), 1);
    assert_eq!(sub2.borrow().len(), 1);
    assert_eq!(bus.active_thread_count(), 1);
}

#[test]
fn test_close_thread() {
    let mut bus: EventBus<Inbox> = EventBus::new();
    let tid = ThreadId::from_string("thread-close");
    let _sub = bus.subscribe(&tid, Inbox::default()).clone();
    assert_eq!(bus.active_thread_count(), 1);
    bus.close_thread(&tid);
    assert_eq!(bus.active_thread_count(), 0);
}

#[test]
fn an_event_that_could_not_be_stored_is_not_sent() {
    let mut bus: EventBus<Inbox> = EventBus::new();
    let tid = ThreadId::from_string("t");
    bus.subscribe(&tid, Inbox::default());
    let refused = bus.emit(&tid, 1, completed(), Some(Err("disk full".into())));
    match refused {
        Err(e @ EventBusError::PersistError(_)) => {
            assert!(e.to_string().contains("disk full"))
        }
        _ => panic!("expected a refusal"),
    }
    let sent = bus.emit(&tid, 1, completed(), Some(Ok(7))).unwrap();
    assert_eq!(sent.unwrap().1.seq, 7);
    assert!(EventBusError::ThreadNotActive(tid).to_string().contains("t"));
}

#[test]
fn an_event_of_a_thread_without_readers_goes_nowhere() {
    let bus: EventBus<Inbox> = EventBus::new();
    let sent = deliver(&bus, &ThreadId::from_string("t"), 1, completed()).unwrap();
    assert!(!sent);
}

#[test]
fn test_event_filter_by_seq() {
    let filter = EventFilter::new().since_seq(5);
    let event = EventFrame::TurnCompleted { turn_id: TurnId::from_string("t1") };
    assert!(filter.matches(&event));
}

#[test]
fn test_event_filter_by_tag() {
    let filter = EventFilter::new().with_tags(vec!["turn.completed".into()]);
    let matched = EventFrame::TurnCompleted { turn_id: TurnId::from_string("t1") };
    let unmatched = EventFrame::TurnStarted {
        thread_id: ThreadId::from_string("t1"),
        turn_id: TurnId::from_string("t2"),
        user_input: "hi".into(),
    };
    assert!(filter.matches(&matched));
    assert!(!filter.matches(&unmatched));
}

#[test]
fn a_stream_shows_each_event_once() {
    let stored: Vec<EventEnvelope> =
        (3..6).map(|seq| EventEnvelope { seq, frame: completed() }).collect();
    let mark = high_water(&stored);
    assert_eq!(mark, 5);
    assert_eq!(replay_count(&stored, mark), 3);
    assert!(!is_live(mark, &EventEnvelope { seq: 5, frame: completed() }));
    assert!(is_live(mark, &EventEnvelope { seq: 6, frame: started("x") }));
    assert_eq!(high_water(&Vec::new()), 0);
}

#[test]
fn test_all_event_tags_unique() {
    let thread_id = ThreadId::from_string("t");
    let turn_id = TurnId::from_string("tu");
    let call_id = ToolCallId::from_string("c");
    let message_id = MessageId::from_string("m");
    let subagent_id = SubagentId::from_string("s");
    let s = || String::from("x");
    let events = vec![
        EventFrame::ThreadCreated { thread_id: thread_id.clone(), workspace: s() },
        EventFrame::ThreadUpdated { thread_id: thread_id.clone() },
        EventFrame::ThreadArchived { thread_id: thread_id.clone() },
        started("hi"),
        EventFrame::TurnSteered {
            thread_id: thread_id.clone(),
            turn_id: turn_id.clone(),
            steering_input: s(),
        },
        EventFrame::TurnInterrupted { thread_id, turn_id: turn_id.clone() },
        EventFrame::AssistantMessageDelta {
            turn_id: turn_id.clone(),
            message_id: message_id.clone(),
            delta: s(),
        },
        EventFrame::AssistantMessageCompleted {
            turn_id: turn_id.clone(),
            message_id: message_id.clone(),
        },
        EventFrame::AssistantReasoningDelta {
            turn_id: turn_id.clone(),
            message_id: message_id.clone(),
            delta: s(),
            replay_required: true,
            visibility: ReasoningVisibility::ReplayOnly,
        },
        EventFrame::AssistantReasoningCompleted {
            turn_id: turn_id.clone(),
            message_id,
            replay_required: true,
        },
        EventFrame::ToolCallStarted {
            turn_id: turn_id.clone(),
            call_id: call_id.clone(),
            tool_name: s(),
        },
        EventFrame::ToolCallArgumentsDelta {
            turn_id: turn_id.clone(),
            call_id: call_id.clone(),
            delta: s(),
        },
        EventFrame::ToolCallRequiresApproval {
            turn_id: turn_id.clone(),
            call_id: call_id.clone(),
            tool_name: s(),
            reason: s(),
        },
        EventFrame::ToolCallApproved { turn_id: turn_id.clone(), call_id: call_id.clone() },
        EventFrame::ToolCallRejected { turn_id: turn_id.clone(), call_id: call_id.clone() },
        EventFrame::ToolCallCompleted {
            turn_id: turn_id.clone(),
            call_id: call_id.clone(),
            tool_name: s(),
            success: true,
            output_preview: None,
        },
        EventFrame::ToolCallFailed { turn_id: turn_id.clone(), call_id, error: s() },
        EventFrame::ContextCompactionStarted { turn_id: turn_id.clone() },
        EventFrame::ContextCompactionCompleted { turn_id: turn_id.clone() },
        EventFrame::SubagentSpawned {
            parent_turn_id: turn_id.clone(),
            subagent_id: subagent_id.clone(),
            task: s(),
        },
        EventFrame::SubagentCompleted {
            parent_turn_id: turn_id.clone(),
            subagent_id: subagent_id.clone(),
            result_summary: s(),
        },
        EventFrame::SubagentFailed { parent_turn_id: turn_id.clone(), subagent_id, error: s() },
        EventFrame::TurnCompleted { turn_id: turn_id.clone() },
        EventFrame::TurnFailed { turn_id, error: s() },
        EventFrame::RuntimeWarning { message: s() },
    ];
    let mut tags: Vec<&str> = events.iter().map(|e| event_tag(e)).collect();
    tags.sort();
    tags.dedup();
    assert_eq!(tags.len(), 25, "all 25 event types must have unique tags");
}
