use deepomni::protocol::agent::AgentStatus;
use deepomni::protocol::event::{Event, EventMsg};
use deepomni::protocol::id::{EventSeq, ThreadId, TurnId};
use deepomni::protocol::op::SubmissionId;
use deepomni::protocol::permission::{PermissionProfile, PermissionType};
use deepomni::protocol::sandbox::{SandboxMode, SandboxPolicy};
use deepomni::protocol::usage::Usage;

#[test]
fn test_agent_status_terminal() {
    assert!(AgentStatus::Completed.is_terminal());
    assert!(!AgentStatus::Running.is_terminal());
}

#[test]
fn test_event_id_equals_submission_id() {
    let sub_id = SubmissionId("sub-corr-1".into());
    let event = Event {
        id: sub_id.clone(),
        msg: EventMsg::OpCompleted {
            thread_id: ThreadId::from_string("t"),
            turn_id: None,
            status: "ok".into(),
            user_input: String::new(),
        },
    };
    assert_eq!(event.id, sub_id);
}

#[test]
fn test_thread_id_new_format() {
    let id = ThreadId::new();
    assert!(id.as_str().starts_with("thread-"));
}

#[test]
fn test_turn_id_new_format() {
    let id = TurnId::new();
    assert!(id.as_str().starts_with("turn-"));
}

#[test]
fn new_ids_end_in_a_version_four_uuid() {
    let id = ThreadId::new();
    let rest = id.as_str().strip_prefix("thread-").unwrap();
    assert_eq!(rest.len(), 32);
    assert!(rest.chars().all(|c| c.is_ascii_digit() || ('a'..='f').contains(&c)));
    assert_eq!(rest.chars().nth(12), Some('4'));
    assert_ne!(ThreadId::new(), id);
}

#[test]
fn test_event_seq_monotonic() {
    let a = EventSeq::new(0);
    assert!(a.next() > a);
}

#[test]
fn test_id_display() {
    let id = ThreadId::from_string("thread-abc");
    assert_eq!(id.to_string(), "thread-abc");
}

#[test]
fn test_submission_id_unique() {
    let a = SubmissionId::new();
    let b = SubmissionId::new();
    assert_ne!(a, b);
}

#[test]
fn test_default_allow() {
    let profile = PermissionProfile::default();
    assert!(profile.is_allowed(&PermissionType::FilesystemRead));
}

#[test]
fn test_explicit_deny() {
    let profile = PermissionProfile::new().deny(PermissionType::ShellExec);
    assert!(!profile.is_allowed(&PermissionType::ShellExec));
}

#[test]
fn test_default_deny_mode() {
    let profile =
        PermissionProfile::new().allow(PermissionType::FilesystemRead).with_default_deny();
    assert!(profile.is_allowed(&PermissionType::FilesystemRead));
    assert!(!profile.is_allowed(&PermissionType::Network));
}

#[test]
fn test_default_policy() {
    let policy = SandboxPolicy::default();
    assert_eq!(policy.mode, SandboxMode::Auto);
    assert!(policy.always_sandbox_mutating);
}

#[test]
fn test_usage_total() {
    let usage = Usage { prompt_tokens: 100, completion_tokens: 50, ..Default::default() };
    assert_eq!(usage.total(), 150);
}
