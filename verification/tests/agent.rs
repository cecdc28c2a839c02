use deepomni::agent::config::{ResumeTurnRequest, RunTurnRequest, TurnConfig};
use deepomni::agent::effect::TurnEffect;
use deepomni::agent::preview::{tool_output_preview, try_preview_text, try_tool_output_preview};
use deepomni::agent::resume::{begin_resume, continue_after_approval};
use deepomni::agent::subagent::{conclude_subagent, spawn_subagent};
use deepomni::agent::turn::{
    approval_key, ToolCallResult, ToolDecision, TurnError, TurnResult, TurnRun, TurnStep,
};
use deepomni::context::request_compiler::TurnRequestKind;
use deepomni::engine::agent_control::AgentControl;
use deepomni::journal::JournalEntry;
use deepomni::model::{MessageRole, ModelDelta, ModelMessage, ModelRequest};
use deepomni::policy::{AgentMode, ApprovalRequirement, PermissionProfile, PolicyEngine};
use deepomni::protocol::id::{ThreadId, ToolCallId, TurnId};
use deepomni::protocol::tool::ToolOutput;
use deepomni::protocol::turn::TurnItem;
use serde_json::Value;
use std::collections::VecDeque;

fn value(text: &str) -> Value {
    serde_json::from_str(text).unwrap()
}

struct Tool {
    name: &'static str,
    mutating: bool,
    output: Result<&'static str, &'static str>,
}

const READ: Tool = Tool {
    name: "read_file",
    mutating: false,
    output: Ok(r#"{"content":"hello world","size":11}"#),
};

const WRITE: Tool = Tool { name: "write_file", mutating: true, output: Ok(r#"{"written":100}"#) };

fn mock_text_response(text: &str) -> Vec<ModelDelta> {
    vec![ModelDelta::Text(text.into()), ModelDelta::End]
}

fn mock_tool_call_response(tool: &str, arguments: &str) -> Vec<ModelDelta> {
    vec![
        ModelDelta::ToolCallStart { call_id: "call-1".into(), tool_name: tool.into() },
        ModelDelta::ToolCallComplete {
            call_id: "call-1".into(),
            tool_name: tool.into(),
            arguments: value(arguments),
        },
        ModelDelta::End,
    ]
}

fn config(mode: AgentMode) -> TurnConfig {
    TurnConfig {
        model: "mock-model".into(),
        max_output_tokens: Some(100),
        token_budget: 10_000,
        turn_timeout: None,
        agent_mode: mode,
        system_prompt: None,
        workspace: "/tmp/test".into(),
    }
}

fn request(mode: AgentMode, user_input: &str) -> RunTurnRequest {
    RunTurnRequest {
        kind: TurnRequestKind::NewTurn,
        thread_id: ThreadId::new(),
        turn_id: TurnId::from_string("turn-1"),
        user_input: user_input.into(),
        config: config(mode),
        conversation_history: vec![],
        reasoning_to_replay: None,
        use_approval_store: false,
        recording: true,
    }
}

struct Outcome {
    result: TurnResult,
    effects: Vec<TurnEffect>,
    requests: Vec<ModelRequest>,
}

impl Outcome {
    fn entries(&self) -> Vec<&JournalEntry> {
        self.effects
            .iter()
            .filter_map(|e| match e {
                TurnEffect::Append { entry, .. } => Some(entry),
                _ => None,
            })
            .collect()
    }
}

/// Runs a turn with the given tools and responses of the model.
fn run_turn(request: RunTurnRequest, tools: &[Tool], responses: Vec<Vec<ModelDelta>>) -> Outcome {
    let policy = PolicyEngine::new(request.config.agent_mode, PermissionProfile::new());
    let mut responses: VecDeque<Vec<ModelDelta>> = responses.into();
    let mut stream: VecDeque<ModelDelta> = VecDeque::new();
    let mut requests = Vec::new();
    let (mut run, mut effects, mut step) = TurnRun::start(request, Vec::new());
    loop {
        assert!(run.fits());
        let (more, next) = match step {
            TurnStep::Stream { request } => {
                requests.push(request);
                stream = responses.pop_front().unwrap_or_default().into();
                (Vec::new(), TurnStep::Next)
            }
            TurnStep::Next => run.on_delta(stream.pop_front()),
            TurnStep::Evaluate { call } => {
                let decision = tools.iter().find(|t| t.name == call.tool_name).map(|t| {
                    match policy.evaluate(t.name, t.mutating, None).approval {
                        ApprovalRequirement::Skip => ToolDecision::Proceed,
                        ApprovalRequirement::NeedsApproval { reason, approval_id } => {
                            ToolDecision::NeedsApproval { reason, approval_id }
                        }
                        ApprovalRequirement::Forbidden { reason } => {
                            ToolDecision::Forbidden { reason }
                        }
                    }
                });
                run.on_decision(decision, "{}".into())
            }
            TurnStep::Execute { calls } => {
                let results = calls
                    .into_iter()
                    .map(|call| {
                        let tool = tools.iter().find(|t| t.name == call.tool_name).unwrap();
                        ToolCallResult {
                            call_id: call.call_id,
                            tool_name: call.tool_name,
                            output: match tool.output {
                                Ok(body) => Ok(ToolOutput::Function {
                                    body: Some(value(body)),
                                    success: true,
                                }),
                                Err(e) => Err(e.to_string()),
                            },
                        }
                    })
                    .collect();
                run.on_results(results)
            }
            TurnStep::Done { result } => return Outcome { result, effects, requests },
        };
        effects.extend(more);
        step = next;
    }
}

#[test]
fn test_full_turn_text_only() {
    let outcome = run_turn(
        request(AgentMode::Agent, "What does the file contain?"),
        &[READ],
        vec![mock_text_response("The file contains hello world")],
    );
    match &outcome.result {
        TurnResult::Completed { answer, .. } => assert!(answer.contains("hello world")),
        other => panic!("expected Completed, got {other:?}"),
    }
    assert_eq!(outcome.requests.len(), 1);
    let last = outcome.requests[0].messages.last().unwrap();
    assert_eq!(last.content.as_deref(), Some("What does the file contain?"));
    assert!(outcome.entries().iter().any(|e| matches!(
        e,
        JournalEntry::AssistantDelta { delta, .. } if delta == "The file contains hello world"
    )));
    assert!(outcome.effects.iter().any(|e| matches!(
        e,
        TurnEffect::Record(TurnItem::UserMessage { content })
            if content == "What does the file contain?"
    )));
}

#[test]
fn a_new_turn_sends_its_input_behind_the_history() {
    let mut second = request(AgentMode::Agent, "and now?");
    second.conversation_history = vec![ModelMessage {
        role: MessageRole::User,
        content: Some("before".into()),
        tool_calls: vec![],
        tool_call_id: None,
        reasoning_content: None,
    }];
    let outcome = run_turn(second, &[], vec![mock_text_response("later")]);
    let sent: Vec<Option<&str>> =
        outcome.requests[0].messages.iter().map(|m| m.content.as_deref()).collect();
    assert_eq!(sent[1..], [Some("before"), Some("and now?")]);
}

#[test]
fn test_full_turn_with_tool_call() {
    let outcome = run_turn(
        request(AgentMode::Agent, "read src/main.rs"),
        &[READ],
        vec![mock_tool_call_response("read_file", r#"{"path": "src/main.rs"}"#)],
    );
    assert!(matches!(outcome.result, TurnResult::Completed { .. }));
    assert_eq!(outcome.requests.len(), 2);
    let fed_back = &outcome.requests[1].messages;
    assert_eq!(fed_back.last().unwrap().role, MessageRole::Tool);
    assert_eq!(
        fed_back.last().unwrap().content.as_deref(),
        Some(r#"{"content":"hello world","size":11}"#)
    );
}

#[test]
fn test_mutating_tool_requires_approval() {
    let outcome = run_turn(
        request(AgentMode::Agent, "Write data to out.txt"),
        &[WRITE],
        vec![mock_tool_call_response(
            "write_file",
            r#"{"path": "out.txt", "content": "data"}"#,
        )],
    );
    match &outcome.result {
        TurnResult::NeedsApproval { tool_name, approval_id, .. } => {
            assert_eq!(tool_name, "write_file");
            assert!(outcome.entries().iter().any(|e| matches!(
                e,
                JournalEntry::ApprovalPending { approval_id: stored, .. } if stored == approval_id
            )));
        }
        other => panic!("expected NeedsApproval, got {other:?}"),
    }
    assert!(!outcome
        .entries()
        .iter()
        .any(|e| matches!(e, JournalEntry::ToolCallCompleted { .. })));
}

#[test]
fn test_trusted_mode_auto_approves() {
    let outcome = run_turn(
        request(AgentMode::Trusted, "Write data"),
        &[WRITE],
        vec![
            mock_tool_call_response("write_file", r#"{"path": "out.txt", "content": "data"}"#),
            mock_text_response("File written successfully"),
        ],
    );
    match &outcome.result {
        TurnResult::Completed { answer, tool_calls, .. } => {
            assert!(answer.contains("File written"));
            assert_eq!(tool_calls.len(), 1);
        }
        other => panic!("expected Completed, got {other:?}"),
    }
}

#[test]
fn test_tool_execution_failure_still_completes() {
    let failing = Tool { name: "shell_exec", mutating: true, output: Err("command not found") };
    let outcome = run_turn(
        request(AgentMode::Trusted, "Run missing command"),
        &[failing],
        vec![
            mock_tool_call_response("shell_exec", r#"{"command": "missing"}"#),
            mock_text_response("The command failed"),
        ],
    );
    assert!(matches!(outcome.result, TurnResult::Completed { .. }));
    assert!(outcome
        .entries()
        .iter()
        .any(|e| matches!(e, JournalEntry::ToolCallFailed { .. })));
}

#[test]
fn test_plan2_unknown_tool_rejected_by_router_in_agent() {
    let outcome = run_turn(
        request(AgentMode::Agent, "use nonexistent tool"),
        &[],
        vec![mock_tool_call_response("nonexistent_tool", r#"{"x": 1}"#)],
    );
    assert!(
        matches!(outcome.result, TurnResult::Completed { .. }),
        "unknown tool should be forbidden by router, turn completes"
    );
}

#[test]
fn unknown_tool_is_rejected_by_router() {
    let outcome = run_turn(
        request(AgentMode::Agent, "use unknown tool"),
        &[],
        vec![mock_tool_call_response("nonexistent_tool", "{}")],
    );
    assert!(
        matches!(outcome.result, TurnResult::Completed { .. }),
        "unknown tool is rejected by router, turn completes"
    );
    assert!(outcome.entries().iter().any(|e| matches!(
        e,
        JournalEntry::ToolCallFailed { error, .. } if error == "unknown tool: nonexistent_tool"
    )));
}

#[test]
fn a_plan_runs_no_tool() {
    let outcome = run_turn(
        request(AgentMode::Plan, "read"),
        &[READ],
        vec![mock_tool_call_response("read_file", "{}")],
    );
    assert!(matches!(outcome.result, TurnResult::Completed { .. }));
    assert!(!outcome
        .entries()
        .iter()
        .any(|e| matches!(e, JournalEntry::ToolCallCompleted { .. })));
}

#[test]
fn the_model_is_asked_a_bounded_number_of_times() {
    let responses = (0..200).map(|_| mock_tool_call_response("read_file", "{}")).collect();
    let outcome = run_turn(request(AgentMode::Agent, "loop"), &[READ], responses);
    assert!(matches!(outcome.result, TurnResult::Completed { .. }));
    assert!(outcome.requests.len() < 200);
}

#[test]
fn test_e2e_plain_chat_turn() {
    let outcome =
        run_turn(request(AgentMode::Agent, "hi"), &[READ], vec![mock_text_response("hello world")]);
    assert!(matches!(outcome.result, TurnResult::Completed { .. }));
}

#[test]
fn test_e2e_tool_turn_continuation() {
    let outcome = run_turn(
        request(AgentMode::Agent, "read f"),
        &[READ],
        vec![
            mock_tool_call_response("read_file", r#"{"path":"f"}"#),
            mock_text_response("file contents"),
        ],
    );
    assert!(
        matches!(outcome.result, TurnResult::Completed { .. }),
        "turn should complete after tool"
    );
}

#[test]
fn test_e2e_approval_needs_approval() {
    let outcome = run_turn(
        request(AgentMode::Agent, "write o"),
        &[WRITE],
        vec![mock_tool_call_response("write_file", r#"{"path":"o","content":"d"}"#)],
    );
    assert!(
        matches!(outcome.result, TurnResult::NeedsApproval { .. }),
        "mutating tool in Agent mode must require approval"
    );
}

#[test]
fn test_e2e_approval_resume_after_approve() {
    let outcome = run_turn(
        request(AgentMode::Trusted, "write o"),
        &[WRITE],
        vec![
            mock_tool_call_response("write_file", r#"{"path":"o","content":"d"}"#),
            mock_text_response("file written"),
        ],
    );
    assert!(
        matches!(outcome.result, TurnResult::Completed { .. }),
        "trusted mode should auto-approve and complete"
    );
}

fn resume() -> ResumeTurnRequest {
    ResumeTurnRequest {
        thread_id: ThreadId::from_string("t"),
        turn_id: TurnId::from_string("turn-1"),
        call_id: ToolCallId::from_string("call-1"),
        tool_name: "write_file".into(),
        arguments: value(r#"{"path":"o"}"#),
        config: config(AgentMode::Agent),
        tool_result_content: String::new(),
        transcript: vec![],
        reasoning_to_replay: None,
        recording: true,
    }
}

#[test]
fn an_approved_call_is_run_and_fed_back() {
    let request = resume();
    let (_, call) = begin_resume(&request);
    assert_eq!(call.tool_name, "write_file");
    assert_eq!(call.arguments, value(r#"{"path":"o"}"#));
    let result = ToolCallResult {
        call_id: call.call_id,
        tool_name: call.tool_name,
        output: Ok(ToolOutput::Function { body: Some(value(r#"{"written":1}"#)), success: true }),
    };
    let (effects, next) = continue_after_approval(request, Some(result)).unwrap();
    assert!(effects.iter().any(|e| matches!(
        e,
        TurnEffect::Append { entry: JournalEntry::ToolCallCompleted { success: true, .. }, .. }
    )));
    assert!(next
        .conversation_history
        .iter()
        .any(|m| m.role == MessageRole::Tool));
    let outcome = run_turn(next, &[WRITE], vec![mock_text_response("done")]);
    assert!(matches!(outcome.result, TurnResult::Completed { answer, .. } if answer == "done"));
}

#[test]
fn an_approved_call_without_a_result_is_an_error() {
    assert!(continue_after_approval(resume(), None).is_err());
}

#[test]
fn test_tool_output_preview() {
    let output =
        ToolOutput::Function { body: Some(value(r#"{"result": "ok"}"#)), success: true };
    let preview = tool_output_preview(&output);
    assert!(preview.contains("ok"));
    assert_eq!(
        tool_output_preview(&ToolOutput::Function { body: None, success: true }),
        "ok"
    );
}

#[test]
fn a_long_preview_is_cut_after_two_hundred_bytes() {
    let long = ToolOutput::Mcp { result: Value::String("a".repeat(300)) };
    let preview = try_tool_output_preview(&long).unwrap();
    assert_eq!(preview.len(), 203);
    assert!(preview.ends_with("..."));
    assert_eq!(try_preview_text(&"a".repeat(200)).unwrap().len(), 200);
    let split = format!("{}\u{e9}{}", "a".repeat(199), "a".repeat(50));
    assert_eq!(try_preview_text(&split), None);
}

#[test]
fn test_subagent_spawn_and_complete() {
    let parent = TurnId::from_string("parent-turn");
    let plan = spawn_subagent(&parent, "Review this file".into(), config(AgentMode::Agent), None)
        .expect("sub-agent should start");
    let id = plan.subagent_id.clone();
    let outcome = run_turn(
        plan.request,
        &[READ],
        vec![mock_text_response("sub-agent result: found 3 issues")],
    );
    let end = conclude_subagent(&parent, id, Ok(outcome.result), "");
    let result = end.result.expect("sub-agent should complete");
    assert_eq!(result.answer, "sub-agent result: found 3 issues");
    assert!(!result.subagent_id.as_str().is_empty());
}

#[test]
fn test_subagent_failure() {
    let parent = TurnId::from_string("parent-turn-fail");
    let plan = spawn_subagent(&parent, "Invalid task".into(), config(AgentMode::Agent), None)
        .expect("sub-agent should start");
    let id = plan.subagent_id.clone();
    let outcome = run_turn(plan.request, &[READ], vec![mock_text_response("")]);
    let end = conclude_subagent(&parent, id, Ok(outcome.result), "");
    assert!(end.result.is_ok());
}

#[test]
fn test_e2e_multi_agent_spawn() {
    let parent = TurnId::from_string("pt");
    let plan =
        spawn_subagent(&parent, "review".into(), config(AgentMode::Agent), None).unwrap();
    let id = plan.subagent_id.clone();
    let outcome = run_turn(plan.request, &[READ], vec![mock_text_response("found 3 issues")]);
    let end = conclude_subagent(&parent, id, Ok(outcome.result), "");
    assert_eq!(end.result.unwrap().answer, "found 3 issues");
}

#[test]
fn a_subagent_beyond_the_depth_is_refused() {
    let parent = TurnId::from_string("pt");
    let control = AgentControl::new(4, 0);
    let refused =
        spawn_subagent(&parent, "review".into(), config(AgentMode::Agent), Some(&control));
    assert!(matches!(
        refused,
        Err(TurnError::ProviderError(m)) if m == "agent spawn limit reached"
    ));
}

#[test]
fn turn_errors_have_their_texts() {
    let shown = |e: TurnError| e.to_string();
    assert!(shown(TurnError::ProviderError("p".into())).contains("p"));
    assert!(!shown(TurnError::Timeout).is_empty());
    assert!(shown(TurnError::UnknownTool("u".into())).contains("u"));
    assert!(shown(TurnError::PolicyDenied("d".into())).contains("d"));
    assert!(!shown(TurnError::Cancelled).is_empty());
    assert!(shown(TurnError::SubagentError("s".into())).contains("s"));
}

#[test]
fn an_approval_is_kept_under_the_tool_and_its_arguments() {
    let key = approval_key("write_file", &value(r#"{"path":"/tmp/a"}"#));
    assert_eq!(key, value(r#"{"tool_name":"write_file","arguments":{"path":"/tmp/a"}}"#));
    assert_ne!(key, approval_key("write_file", &value(r#"{"path":"/tmp/b"}"#)));
}
