use deepomni::engine::agent_control::{AgentControl, AgentRegistry};
use deepomni::engine::approval::{ApprovalCoordinator, PendingApproval};
use deepomni::engine::compaction::CompactionTracker;
use deepomni::engine::mailbox::Mailbox;
use deepomni::engine::request_compiler::EngineRequestCompiler;
use deepomni::engine::session::SessionManager;
use deepomni::engine::session_loop::{
    submission_of, OpHandler, SessionLoop, SessionLoopError,
};
use deepomni::engine::turn_coordinator::{
    TurnCoordinator, TurnOpError, TurnOpResult, TurnServices,
};
use deepomni::engine::turn_fsm::{TurnState, TurnStateMachine};
use deepomni::agent::config::TurnConfig;
use deepomni::context::assembly::ContextFragment;
use deepomni::journal::{InMemoryJournal, JournalEntry};
use deepomni::model::MessageRole;
use deepomni::policy::AgentMode;
use deepomni::protocol::agent::{AgentInfo, AgentPath, AgentStatus, InterAgentMessage};
use deepomni::protocol::event::{Event, EventMsg};
use deepomni::protocol::id::{MessageId, ThreadId, ToolCallId, TurnId};
use deepomni::protocol::op::{Op, Submission, SubmissionId, TurnSettings, UserInput};

#[test]
fn test_registry_reserve_slot() {
    let mut reg = AgentRegistry::default();
    assert!(reg.reserve_slot(3).is_ok());
    assert!(reg.reserve_slot(3).is_ok());
    assert!(reg.reserve_slot(3).is_ok());
    assert!(reg.reserve_slot(3).is_err());
}

#[test]
fn test_registry_allocate_path() {
    let reg = AgentRegistry::default();
    let path = reg.allocate_path(&AgentPath::root());
    assert!(path.as_str().starts_with("/root/agent-"));
}

#[test]
fn test_agent_control_depth() {
    let ctrl = AgentControl::new(10, 3);
    assert!(ctrl.can_spawn(0));
    assert!(ctrl.can_spawn(2));
    assert!(!ctrl.can_spawn(3));
}

#[test]
fn test_e2e_agent_control_enforces_max_depth() {
    let ctrl = AgentControl::new(8, 2);
    assert!(ctrl.can_spawn(0), "depth 0 is within limit");
    assert!(ctrl.can_spawn(1), "depth 1 is within limit");
    assert!(!ctrl.can_spawn(2), "depth 2 exceeds limit");
    assert!(!ctrl.can_spawn(3), "depth 3 exceeds limit");
}

fn agent(path: &str, thread: &str, task: Option<&str>) -> AgentInfo {
    AgentInfo {
        thread_id: ThreadId::from_string(thread),
        agent_path: AgentPath::from_string(path),
        status: AgentStatus::Running,
        task: task.map(|t| t.to_string()),
    }
}

#[test]
fn test_agent_registry_register_and_list() {
    let mut registry = AgentRegistry::default();
    registry.register(agent("/root/child-1", "child-1", Some("review this file")));
    let agents = registry.list();
    assert_eq!(agents.len(), 1);
    assert_eq!(agents[0].thread_id.as_str(), "child-1");
}

#[test]
fn test_agent_control_can_spawn_within_limits() {
    let ctrl = AgentControl::new(5, 3);
    assert!(ctrl.can_spawn(0));
    assert!(ctrl.can_spawn(2));
    assert!(!ctrl.can_spawn(3));
}

#[test]
fn test_agent_registry_enforces_limit() {
    let mut reg = AgentRegistry::default();
    assert!(reg.reserve_slot(2).is_ok());
    assert!(reg.reserve_slot(2).is_ok());
    assert!(reg.reserve_slot(2).is_err());
}

#[test]
fn test_agent_path_allocation() {
    let reg = AgentRegistry::default();
    let path = reg.allocate_path(&AgentPath::root());
    assert!(path.as_str().starts_with("/root/agent-"));
}

#[test]
fn allocated_paths_are_not_taken() {
    let mut reg = AgentRegistry::default();
    let first = reg.allocate_path(&AgentPath::root());
    reg.register(agent(first.as_str(), "c1", None));
    let second = reg.allocate_path(&AgentPath::root());
    assert_ne!(first, second);
}

#[test]
fn test_agent_registry_remove() {
    let mut reg = AgentRegistry::default();
    let path = AgentPath::from_string("/root/child-1");
    reg.register(agent("/root/child-1", "c1", None));
    assert_eq!(reg.list().len(), 1);
    reg.remove(&path);
    assert!(reg.list().is_empty());
}

fn letter(to: &str, content: &str, trigger_turn: bool) -> InterAgentMessage {
    InterAgentMessage {
        author: AgentPath::root(),
        recipient: AgentPath::from_string(to),
        other_recipients: vec![],
        content: content.into(),
        trigger_turn,
    }
}

#[test]
fn test_mailbox_send_receive() {
    let (mut mailbox, mut receiver) = Mailbox::new();
    let seq = mailbox.send(letter("/root/child", "hello", true));
    assert_eq!(seq, 1);
    assert!(receiver.has_trigger_turn(&mut mailbox));
    let drained = receiver.drain(&mut mailbox);
    assert_eq!(drained.len(), 1);
    assert_eq!(drained[0].content, "hello");
}

#[test]
fn test_mailbox_sequence_monotonic() {
    let (mut mailbox, _) = Mailbox::new();
    assert_eq!(mailbox.send(letter("/a", "1", false)), 1);
    assert_eq!(mailbox.send(letter("/b", "2", false)), 2);
}

#[test]
fn test_mailbox_parent_child_communication() {
    let (mut mailbox, mut receiver) = Mailbox::new();
    let msg = InterAgentMessage {
        author: AgentPath::from_string("/root/child-1"),
        recipient: AgentPath::root(),
        other_recipients: vec![],
        content: "found 3 issues in src/main.rs".into(),
        trigger_turn: true,
    };
    let seq = mailbox.send(msg);
    assert_eq!(seq, 1);
    assert!(receiver.has_trigger_turn(&mut mailbox));
    let drained = receiver.drain(&mut mailbox);
    assert_eq!(drained.len(), 1);
    assert_eq!(drained[0].content, "found 3 issues in src/main.rs");
    assert!(drained[0].trigger_turn);
}

#[test]
fn test_child_failure_notification() {
    let (mut mailbox, mut receiver) = Mailbox::new();
    let msg = InterAgentMessage {
        author: AgentPath::from_string("/root/child-1"),
        recipient: AgentPath::root(),
        other_recipients: vec![],
        content: "error: command not found".into(),
        trigger_turn: true,
    };
    mailbox.send(msg);
    assert!(receiver.has_trigger_turn(&mut mailbox));
    let drained = receiver.drain(&mut mailbox);
    assert!(drained[0].content.contains("error"));
}

#[test]
fn test_circuit_breaker() {
    let mut tracker = CompactionTracker::new();
    assert!(tracker.can_auto_compact(3));
    tracker.record_failure();
    tracker.record_failure();
    tracker.record_failure();
    assert!(!tracker.can_auto_compact(3));
}

#[test]
fn test_success_resets_failures() {
    let mut tracker = CompactionTracker::new();
    tracker.record_failure();
    tracker.record_failure();
    tracker.record_success(1000, 500);
    assert!(tracker.can_auto_compact(3));
    assert_eq!(tracker.total_compactions, 1);
}

fn machine() -> TurnStateMachine {
    TurnStateMachine::new(
        ThreadId::from_string("t1"),
        TurnId::from_string("tu1"),
        "hello".into(),
    )
}

#[test]
fn test_valid_transitions() {
    let mut fsm = machine();
    assert!(fsm.transition(TurnState::Streaming).is_ok());
    assert!(fsm.transition(TurnState::WaitingForApproval).is_ok());
    assert!(fsm.transition(TurnState::ExecutingTool).is_ok());
    assert!(fsm.transition(TurnState::Completed).is_ok());
}

#[test]
fn test_invalid_transition() {
    let mut fsm = machine();
    let refused = fsm.transition(TurnState::Completed);
    assert!(refused.is_err());
    assert_eq!(fsm.state, TurnState::Started);
}

#[test]
fn test_terminal_states() {
    assert!(TurnState::Completed.is_terminal());
    assert!(TurnState::Failed.is_terminal());
    assert!(!TurnState::Streaming.is_terminal());
}

#[test]
fn test_approval_register_and_resolve() {
    let mut coord = ApprovalCoordinator::new();
    let tid = ThreadId::from_string("thread-1");
    let turn_id = TurnId::from_string("turn-1");
    coord.register(PendingApproval {
        approval_id: "approval-1".into(),
        thread_id: tid.clone(),
        turn_id: turn_id.clone(),
        call_id: ToolCallId::from_string("call-1"),
        tool_name: "write_file".into(),
        arguments: serde_json::from_str(r#"{"path": "test.txt"}"#).unwrap(),
        model: "deepseek-chat".into(),
        workspace: "/workspace".into(),
        config_json: "{}".into(),
    });
    assert!(coord.has_pending(&tid));
    let resolved = coord.resolve_by_turn(&tid, &turn_id).unwrap();
    assert_eq!(resolved.approval_id, "approval-1");
    assert_eq!(resolved.tool_name, "write_file");
    assert!(coord.resolve_by_approval_id("approval-1").is_none());
}

struct MockServices {
    fail_next: Option<String>,
}

impl MockServices {
    fn new() -> Self {
        MockServices { fail_next: None }
    }

    fn answer(&mut self, thread_id: ThreadId, status: &str) -> Result<TurnOpResult, TurnOpError> {
        match self.fail_next.take() {
            Some(err) => Err(TurnOpError::new(thread_id, err)),
            None => Ok(TurnOpResult::ok(thread_id, None, status)),
        }
    }
}

impl TurnServices for MockServices {
    fn handle_user_input(
        &mut self,
        thread_id: ThreadId,
        text: String,
        _model: Option<String>,
        _submission_id: SubmissionId,
    ) -> Result<TurnOpResult, TurnOpError> {
        self.answer(thread_id, &format!("user_input:{text}"))
    }

    fn handle_approval(
        &mut self,
        thread_id: ThreadId,
        approval_id: String,
        approved: bool,
        _submission_id: SubmissionId,
    ) -> Result<TurnOpResult, TurnOpError> {
        self.answer(thread_id, &format!("approval:{approval_id}:{approved}"))
    }

    fn handle_cancel(
        &mut self,
        thread_id: ThreadId,
        _submission_id: SubmissionId,
    ) -> Result<TurnOpResult, TurnOpError> {
        self.answer(thread_id, "interrupted")
    }

    fn handle_compact(
        &mut self,
        thread_id: ThreadId,
        _submission_id: SubmissionId,
    ) -> Result<TurnOpResult, TurnOpError> {
        self.answer(thread_id, "completed")
    }

    fn handle_steer(
        &mut self,
        thread_id: ThreadId,
        text: String,
        _submission_id: SubmissionId,
    ) -> Result<TurnOpResult, TurnOpError> {
        self.answer(thread_id, &format!("steer:{text}"))
    }
}

fn thread() -> ThreadId {
    ThreadId::from_string("t")
}

fn completes_with(op: Op, expected: &str) {
    let mut coordinator = TurnCoordinator::new(MockServices::new());
    let events = coordinator.handle_op(Submission { id: SubmissionId::new(), op });
    assert_eq!(events.len(), 2);
    assert!(matches!(events[0].msg, EventMsg::OpStarted { .. }));
    assert!(
        matches!(&events[1].msg, EventMsg::OpCompleted { status, .. } if status == expected)
    );
}

#[test]
fn test_coordinator_dispatches_all_five_ops() {
    completes_with(
        Op::UserInput {
            thread_id: thread(),
            input: vec![UserInput::Text { text: "hello".into() }],
            settings: TurnSettings::default(),
        },
        "user_input:hello",
    );
    completes_with(Op::Cancel { thread_id: thread() }, "interrupted");
    completes_with(Op::Compact { thread_id: thread() }, "completed");
    completes_with(
        Op::SteerInput {
            thread_id: thread(),
            input: vec![UserInput::Text { text: "steer me".into() }],
        },
        "steer:steer me",
    );
    completes_with(
        Op::ApprovalDecision {
            thread_id: thread(),
            approval_id: "approval-1".into(),
            approved: true,
        },
        "approval:approval-1:true",
    );
}

#[test]
fn only_the_first_text_of_an_input_counts() {
    completes_with(
        Op::UserInput {
            thread_id: thread(),
            input: vec![
                UserInput::Image { image_url: "u".into() },
                UserInput::Text { text: "one".into() },
                UserInput::Text { text: "two".into() },
            ],
            settings: TurnSettings::default(),
        },
        "user_input:one",
    );
    completes_with(Op::SteerInput { thread_id: thread(), input: vec![] }, "steer:");
}

#[test]
fn test_coordinator_emits_op_failed_on_error() {
    let mut coordinator = TurnCoordinator::new(MockServices {
        fail_next: Some("simulated crash".into()),
    });
    let events = coordinator.handle_op(Submission {
        id: SubmissionId("sub-fail".into()),
        op: Op::Cancel { thread_id: thread() },
    });
    assert_eq!(events.len(), 2, "should emit OpStarted + OpFailed");
    assert!(matches!(events[0].msg, EventMsg::OpStarted { .. }));
    assert!(
        matches!(&events[1].msg, EventMsg::OpFailed { error, .. } if error == "simulated crash")
    );
}

#[test]
fn test_coordinator_correlates_event_id_with_submission() {
    let mut coordinator = TurnCoordinator::new(MockServices::new());
    let sub_id = SubmissionId("sub-corr-1".into());
    let received = coordinator.handle_op(Submission {
        id: sub_id.clone(),
        op: Op::Cancel { thread_id: thread() },
    });
    assert_eq!(received.len(), 2);
    assert_eq!(received[0].id, sub_id);
    assert_eq!(received[1].id, sub_id);
}

struct CollectingHandler {
    seen: Vec<SubmissionId>,
}

impl OpHandler for CollectingHandler {
    fn handle_op(&mut self, submission: Submission) -> Vec<Event> {
        self.seen.push(submission.id);
        Vec::new()
    }
}

#[test]
fn test_session_loop_with_handler_processes_in_order() {
    let session = SessionLoop::new(thread());
    let mut handler = CollectingHandler { seen: Vec::new() };
    let first = submission_of(Op::Cancel { thread_id: thread() });
    let second = submission_of(Op::Compact { thread_id: thread() });
    let ids = vec![first.id.clone(), second.id.clone()];
    assert_ne!(ids[0], ids[1]);
    let events = session.process(&mut handler, first);
    assert_eq!(events.len(), 2);
    assert!(matches!(events[0].msg, EventMsg::SubmissionStarted { .. }));
    assert!(matches!(events[1].msg, EventMsg::SubmissionCompleted { .. }));
    session.process(&mut handler, second);
    assert_eq!(handler.seen, ids);
}

#[test]
fn the_report_of_an_op_stands_within_that_of_its_submission() {
    let session = SessionLoop::new(thread());
    let mut coordinator = TurnCoordinator::new(MockServices::new());
    let submission = submission_of(Op::Cancel { thread_id: thread() });
    let id = submission.id.clone();
    let events = session.process(&mut coordinator, submission);
    assert_eq!(events.len(), 4);
    assert!(matches!(events[1].msg, EventMsg::OpStarted { .. }));
    assert!(matches!(events[2].msg, EventMsg::OpCompleted { .. }));
    assert!(events.iter().all(|e| e.id == id));
    assert!(matches!(events[0].msg, EventMsg::SubmissionStarted { .. }));
    assert!(matches!(events[3].msg, EventMsg::SubmissionCompleted { .. }));
    let closed = session.closed_event(id);
    assert!(matches!(closed.msg, EventMsg::StreamClosed { thread_id } if thread_id == thread()));
}

#[test]
fn test_session_manager_register_and_submit() {
    let mut mgr: SessionManager<&str, Vec<u8>> = SessionManager::new();
    let tid = ThreadId::from_string("test-session");
    mgr.register(tid.clone(), "loop");
    assert!(mgr.has(&tid));
    assert_eq!(mgr.get_handle(&tid), Some(&"loop"));
    let (handle, submission) =
        mgr.submit_to(&tid, Op::Cancel { thread_id: tid.clone() }).unwrap();
    assert_eq!(*handle, "loop");
    assert!(!submission.id.as_str().is_empty());
    assert!(matches!(submission.op, Op::Cancel { .. }));
    mgr.remove(&tid);
    assert!(!mgr.has(&tid));
    let refused = mgr.submit_to(&tid, Op::Cancel { thread_id: tid.clone() });
    assert!(matches!(refused, Err(SessionLoopError::Closed)));
    assert_eq!(SessionLoopError::Closed.to_string(), "session loop closed");
}

#[test]
fn test_session_manager_owns_session_event_receiver() {
    let mut mgr: SessionManager<&str, Vec<u8>> = SessionManager::new();
    let tid = ThreadId::from_string("test-session-events");
    mgr.register_with_events(tid.clone(), "loop", Some(vec![7]));
    let events = mgr.take_event_receiver(&tid).expect("the manager owns the receiver");
    assert!(mgr.take_event_receiver(&tid).is_none(), "event receiver should be single-consumer");
    mgr.return_event_receiver(&tid, events);
    assert_eq!(mgr.take_event_receiver(&tid), Some(vec![7]));
}

#[test]
fn a_resumed_turn_is_compiled_from_the_journal() {
    let mut journal = InMemoryJournal::new();
    let tid = thread();
    let turn = TurnId::from_string("turn-1");
    let other = TurnId::from_string("turn-2");
    journal
        .append(&tid, &turn, JournalEntry::TurnStarted { user_input: "hi".into() }, 1)
        .unwrap();
    journal
        .append(&tid, &other, JournalEntry::TurnStarted { user_input: "no".into() }, 2)
        .unwrap();
    journal
        .append(
            &tid,
            &turn,
            JournalEntry::AssistantDelta {
                message_id: MessageId::from_string("m"),
                delta: "hello".into(),
            },
            3,
        )
        .unwrap();
    let config = TurnConfig {
        model: "m".into(),
        max_output_tokens: None,
        token_budget: 1000,
        turn_timeout: None,
        agent_mode: AgentMode::Agent,
        system_prompt: Some("sys".into()),
        workspace: "/w".into(),
    };
    let fragments: Vec<ContextFragment> = vec![];
    let log = journal.replay(&tid, 0).unwrap();
    let compiler = EngineRequestCompiler::new();
    let messages = compiler.compile_approval_resume(&config, &fragments, Some(&log), &turn);
    let shown: Vec<(MessageRole, Option<&str>)> =
        messages.iter().map(|m| (m.role, m.content.as_deref())).collect();
    assert_eq!(
        shown,
        vec![
            (MessageRole::System, Some("sys")),
            (MessageRole::User, Some("hi")),
            (MessageRole::Assistant, Some("hello")),
        ]
    );
    assert_eq!(compiler.compile_approval_resume(&config, &fragments, None, &turn).len(), 1);
    assert_eq!(compiler.compile_new_turn(&config, &fragments, &messages, "x").len(), 5);
}

#[test]
fn messages_arrive_in_the_order_in_which_they_were_sent() {
    let (mut mailbox, mut receiver) = Mailbox::new();
    mailbox.send(letter("/a", "1", false));
    assert!(receiver.has_pending(&mut mailbox));
    mailbox.send(letter("/a", "2", false));
    assert!(!receiver.has_trigger_turn(&mut mailbox));
    mailbox.send(letter("/a", "3", true));
    let drained = receiver.drain(&mut mailbox);
    let contents: Vec<String> = drained.iter().map(|m| m.content.clone()).collect();
    assert_eq!(contents, vec!["1".to_string(), "2".to_string(), "3".to_string()]);
    assert!(!receiver.has_pending(&mut mailbox));
}

#[test]
fn a_path_that_is_registered_twice_is_listed_once() {
    let mut reg = AgentRegistry::default();
    reg.register(agent("/root/a", "t1", None));
    reg.register(agent("/root/b", "t2", None));
    reg.register(agent("/root/a", "t3", None));
    let listed = reg.list();
    assert_eq!(listed.len(), 2);
    assert_eq!(listed[0].thread_id.as_str(), "t3");
    assert_eq!(listed[1].thread_id.as_str(), "t2");
    reg.remove(&AgentPath::from_string("/root/a"));
    let listed = reg.list();
    assert_eq!(listed.len(), 1);
    assert_eq!(listed[0].agent_path.as_str(), "/root/b");
}
