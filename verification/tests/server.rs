use deepomni::protocol::event::EventFrame;
use deepomni::protocol::id::{MessageId, ThreadId, ToolCallId, TurnId};
use deepomni::protocol::op::{Op, UserInput};
use deepomni::protocol::server_message::{ClientResponse, ServerNotification, ServerRequest};
use deepomni::server::{
    client_response_to_op, event_to_server_message, is_authorized, thread_request, turn_op,
    ServerMessage, TranslationContext,
};

fn test_ctx() -> TranslationContext {
    TranslationContext {
        thread_id: ThreadId::from_string("thread-test"),
        turn_id: TurnId::from_string("turn-test"),
        approval_id: Some("approval-test".into()),
    }
}

#[test]
fn test_turn_started_has_real_ids() {
    let event = EventFrame::TurnStarted {
        thread_id: ThreadId::from_string("t1"),
        turn_id: TurnId::from_string("tu1"),
        user_input: "hello".into(),
    };
    let msg = event_to_server_message(&event, &test_ctx()).unwrap();
    match msg {
        ServerMessage::Notification(n) => match n {
            ServerNotification::TurnStarted { thread_id, turn_id, user_input } => {
                assert_eq!(thread_id.as_str(), "t1");
                assert_eq!(turn_id.as_str(), "tu1");
                assert_eq!(user_input, "hello");
            }
            _ => panic!("wrong notification"),
        },
        _ => panic!("expected notification"),
    }
}

#[test]
fn test_assistant_delta_has_real_ids_from_context() {
    let event = EventFrame::AssistantMessageDelta {
        turn_id: TurnId::from_string("tu-delta"),
        message_id: MessageId::from_string("msg-1"),
        delta: "hi".into(),
    };
    let msg = event_to_server_message(&event, &test_ctx()).unwrap();
    match msg {
        ServerMessage::Notification(n) => match n {
            ServerNotification::AssistantDelta { thread_id, delta, .. } => {
                assert_eq!(thread_id.as_str(), "thread-test");
                assert_eq!(delta, "hi");
            }
            _ => panic!("wrong notification"),
        },
        _ => panic!("expected notification"),
    }
}

#[test]
fn test_approval_needed_has_real_approval_id() {
    let event = EventFrame::ToolCallRequiresApproval {
        turn_id: TurnId::from_string("tu-approval"),
        call_id: ToolCallId::from_string("call-1"),
        tool_name: "write_file".into(),
        reason: "mutating tool".into(),
    };
    let msg = event_to_server_message(&event, &test_ctx()).unwrap();
    match msg {
        ServerMessage::Request(r) => match r {
            ServerRequest::ApprovalNeeded { thread_id, approval_id, tool_name, .. } => {
                assert_eq!(thread_id.as_str(), "thread-test");
                assert_eq!(approval_id, "approval-test");
                assert_eq!(tool_name, "write_file");
            }
        },
        _ => panic!("expected request"),
    }
}

#[test]
fn test_no_placeholder_identities_in_output() {
    let ctx = TranslationContext {
        thread_id: ThreadId::from_string("real-thread"),
        turn_id: TurnId::from_string("real-turn"),
        approval_id: Some("real-approval".into()),
    };
    let events = vec![
        EventFrame::TurnCompleted { turn_id: TurnId::from_string("tu1") },
        EventFrame::TurnFailed { turn_id: TurnId::from_string("tu1"), error: "err".into() },
        EventFrame::AssistantMessageDelta {
            turn_id: TurnId::from_string("tu1"),
            message_id: MessageId::from_string("m1"),
            delta: "d".into(),
        },
    ];
    for event in &events {
        if let Some(msg) = event_to_server_message(event, &ctx) {
            match msg {
                ServerMessage::Notification(n) => {
                    let (tid, tvid) = match n {
                        ServerNotification::TurnStarted { ref thread_id, ref turn_id, .. } => {
                            (thread_id.as_str(), turn_id.as_str())
                        }
                        ServerNotification::AssistantDelta { ref thread_id, ref turn_id, .. } => {
                            (thread_id.as_str(), turn_id.as_str())
                        }
                        ServerNotification::TurnCompleted { ref thread_id, ref turn_id, .. } => {
                            (thread_id.as_str(), turn_id.as_str())
                        }
                        ServerNotification::TurnFailed { ref thread_id, ref turn_id, .. } => {
                            (thread_id.as_str(), turn_id.as_str())
                        }
                        ServerNotification::ToolCallCompleted {
                            ref thread_id,
                            ref turn_id,
                            ..
                        } => (thread_id.as_str(), turn_id.as_str()),
                        _ => continue,
                    };
                    assert!(!tid.is_empty(), "thread_id must not be empty");
                    assert!(!tvid.is_empty(), "turn_id must not be empty");
                }
                ServerMessage::Request(ServerRequest::ApprovalNeeded {
                    ref approval_id, ..
                }) => {
                    assert!(!approval_id.is_empty(), "approval_id must not be empty");
                }
            }
        }
    }
}

#[test]
fn test_client_response_to_op_approval_decision() {
    let response = ClientResponse::ApprovalDecision {
        thread_id: ThreadId::from_string("t1"),
        approval_id: "approval-1".into(),
        approved: true,
    };
    let op = client_response_to_op(&response);
    match op {
        Op::ApprovalDecision { thread_id, approval_id, approved } => {
            assert_eq!(thread_id.as_str(), "t1");
            assert_eq!(approval_id, "approval-1");
            assert!(approved);
        }
        other => panic!("expected ApprovalDecision op, got {other:?}"),
    }
}

#[test]
fn test_client_response_to_op_rejected_approval() {
    let response = ClientResponse::ApprovalDecision {
        thread_id: ThreadId::from_string("t2"),
        approval_id: "approval-2".into(),
        approved: false,
    };
    let op = client_response_to_op(&response);
    match op {
        Op::ApprovalDecision { thread_id, approved, .. } => {
            assert_eq!(thread_id.as_str(), "t2");
            assert!(!approved);
        }
        other => panic!("expected ApprovalDecision op, got {other:?}"),
    }
}

#[test]
fn a_token_opens_the_server() {
    assert!(is_authorized(None, None));
    assert!(is_authorized(Some("abc"), Some("Bearer abc")));
    assert!(!is_authorized(Some("abc"), Some("Bearer abcd")));
    assert!(!is_authorized(Some("abc"), Some("abc")));
    assert!(!is_authorized(Some("abc"), None));
}

#[test]
fn requests_of_clients_are_taken_over() {
    let request = thread_request("/w".into(), Some("m".into()), None);
    assert_eq!(request.workspace, "/w");
    assert_eq!(request.model.as_deref(), Some("m"));
    assert!(!request.ephemeral);
    match turn_op(ThreadId::from_string("t"), "hi".into(), None) {
        Op::UserInput { thread_id, input, settings } => {
            assert_eq!(thread_id.as_str(), "t");
            assert!(matches!(&input[..], [UserInput::Text { text }] if text == "hi"));
            assert!(settings.model.is_none());
        }
        other => panic!("unexpected op: {other:?}"),
    }
}
