use deepomni::agent::config::{ResumeTurnRequest, RunTurnRequest, TurnConfig};
use deepomni::agent::effect::TurnEffect;
use deepomni::agent::resume::{begin_resume, continue_after_approval};
use deepomni::agent::turn::{
    PendingToolCall, ToolCallResult, ToolDecision, TurnError, TurnResult, TurnRun, TurnStep,
};
use deepomni::config::{
    CliOverrides, ConfigStore, ConfigToml, EnvOverrides, ResolvedConfig, SearchRoots,
};
use deepomni::context::manager::TruncationPolicy;
use deepomni::engine::approval::ApprovalCoordinator;
use deepomni::engine::turn_fsm::TurnState;
use deepomni::hooks::HookPoint;
use deepomni::journal::{InMemoryJournal, JournalEntry, JournalRecord};
use deepomni::model::{MessageRole, ModelDelta, ModelMessage};
use deepomni::policy::{AgentMode, ApprovalRequirement, PermissionProfile, PolicyEngine};
use deepomni::protocol::event::{EventEnvelope, EventFrame};
use deepomni::protocol::id::{ThreadId, ToolCallId, TurnId};
use deepomni::protocol::op::Op;
use deepomni::protocol::thread::{CreateThreadRequest, SessionSource, ThreadStatus};
use deepomni::protocol::tool::ToolOutput;
use deepomni::protocol::turn::{CreateTurnRequest, Turn, TurnItem, TurnStatus};
use deepomni::protocol::usage::Usage;
use deepomni::runtime::adapter::{
    handle_approval, handle_cancel, handle_compact, handle_steer, turn_result_to_op_result,
    turn_status_to_op_status,
};
use deepomni::runtime::approve::{
    conclude_rejection, decision_op, free_rejected, reject_tool, resolve_pending_approval,
    ApprovalJob, ApprovalStep, DurableApproval,
};
use deepomni::runtime::builder::{RuntimeBuilder, RuntimeCore};
use deepomni::runtime::child::{child_report, spawn_child_agent};
use deepomni::runtime::error::RuntimeError;
use deepomni::runtime::projection::{project_record, replay_events, ProjectionService};
use deepomni::runtime::records::{
    extract_turn_id, persist_thread, persist_turn, serde_source, serde_status, thread_status_text,
    turn_status_text, TurnRecord,
};
use deepomni::runtime::submit::{JobStep, TurnDefaults, TurnJob};
use deepomni::runtime::threads::{create_thread, ActiveThreads};
use deepomni::runtime::transcript::{build_transcript_from_items, records_fit};
use serde_json::Value;
use std::collections::VecDeque;

fn value(text: &str) -> Value {
    serde_json::from_str(text).unwrap()
}

fn mock_text_response(text: &str) -> Vec<ModelDelta> {
    vec![ModelDelta::Text(text.into()), ModelDelta::End]
}

fn mock_tool_call_response(tool: &str, arguments: &str) -> Vec<ModelDelta> {
    vec![
        ModelDelta::ToolCallStart { call_id: "call-1".into(), tool_name: tool.into() },
        ModelDelta::ToolCallComplete {
            call_id: "call-1".into(),
            tool_name: tool.into(),
            arguments: value(arguments),
        },
        ModelDelta::End,
    ]
}

/// A runtime whose parts are all in memory.
struct Host {
    threads: ActiveThreads,
    approvals: ApprovalCoordinator,
    journal: InMemoryJournal,
    policy: PolicyEngine,
    defaults: TurnDefaults,
    responses: VecDeque<Vec<ModelDelta>>,
    stored: Vec<TurnRecord>,
    config: Option<TurnConfig>,
    provider: bool,
}

impl Host {
    fn new(responses: Vec<Vec<ModelDelta>>) -> Host {
        Host {
            threads: ActiveThreads::new(),
            approvals: ApprovalCoordinator::new(),
            journal: InMemoryJournal::new(),
            policy: PolicyEngine::new(AgentMode::Agent, PermissionProfile::new()),
            defaults: TurnDefaults {
                model: "mock-model".into(),
                provider: "mock".into(),
                mode: AgentMode::Agent,
            },
            responses: responses.into(),
            stored: Vec::new(),
            config: None,
            provider: true,
        }
    }

    fn thread(&mut self, id: &str) -> ThreadId {
        let thread = create_thread(
            CreateThreadRequest {
                workspace: "/tmp/test".into(),
                model: Some("mock-model".into()),
                model_provider: None,
                name: None,
                approval_policy: None,
                sandbox: None,
                parent_thread_id: None,
                ephemeral: false,
            },
            ThreadId::from_string(id),
            "mock",
            0,
            1,
        );
        let id = thread.id.clone();
        self.threads.activate(thread);
        id
    }

    fn append(&mut self, thread: &ThreadId, turn: &TurnId, entry: JournalEntry) -> Result<(), String> {
        self.journal.append(thread, turn, entry, 0).map(|_| ()).map_err(|e| e.to_string())
    }

    fn decide(&self, tool: &str) -> Option<ToolDecision> {
        let mutating = match tool {
            "read_file" => false,
            "write_file" => true,
            _ => return None,
        };
        Some(match self.policy.evaluate(tool, mutating, None).approval {
            ApprovalRequirement::Skip => ToolDecision::Proceed,
            ApprovalRequirement::NeedsApproval { reason, approval_id } => {
                ToolDecision::NeedsApproval { reason, approval_id }
            }
            ApprovalRequirement::Forbidden { reason } => ToolDecision::Forbidden { reason },
        })
    }

    fn execute(&self, call: PendingToolCall) -> ToolCallResult {
        ToolCallResult {
            call_id: call.call_id,
            tool_name: call.tool_name,
            output: Ok(ToolOutput::Function { body: Some(value(r#"{"ok":1}"#)), success: true }),
        }
    }

    fn perform(&mut self, thread: &ThreadId, effects: Vec<TurnEffect>) {
        for effect in effects {
            if let TurnEffect::Append { turn_id, entry } = effect {
                self.append(thread, &turn_id, entry).unwrap();
            }
        }
    }

    fn run(&mut self, request: RunTurnRequest) -> Result<TurnResult, TurnError> {
        let thread = request.thread_id.clone();
        let mut stream: VecDeque<ModelDelta> = VecDeque::new();
        let (mut run, effects, mut step) = TurnRun::start(request, Vec::new());
        self.perform(&thread, effects);
        loop {
            let (effects, next) = match step {
                TurnStep::Stream { .. } => {
                    stream = self.responses.pop_front().unwrap_or_default().into();
                    (Vec::new(), TurnStep::Next)
                }
                TurnStep::Next => run.on_delta(stream.pop_front()),
                TurnStep::Evaluate { call } => {
                    run.on_decision(self.decide(&call.tool_name), "{}".into())
                }
                TurnStep::Execute { calls } => {
                    let results = calls.into_iter().map(|c| self.execute(c)).collect();
                    run.on_results(results)
                }
                TurnStep::Done { result } => return Ok(result),
            };
            self.perform(&thread, effects);
            step = next;
        }
    }

    fn resume(&mut self, request: ResumeTurnRequest) -> Result<TurnResult, TurnError> {
        let thread = request.thread_id.clone();
        let (effects, call) = begin_resume(&request);
        self.perform(&thread, effects);
        let result = self.execute(call);
        let (effects, next) = continue_after_approval(request, Some(result))?;
        self.perform(&thread, effects);
        self.run(next)
    }

    fn submit_turn(&mut self, thread: &ThreadId, turn: &str, input: &str) -> Result<Turn, RuntimeError> {
        let turn_id = TurnId::from_string(turn);
        let (mut job, mut step) = TurnJob::begin(
            &mut self.threads,
            thread,
            turn_id.clone(),
            CreateTurnRequest {
                input: input.into(),
                model: None,
                parent_turn_id: None,
                subagent_id: None,
                max_token_budget: Some(100),
            },
            &self.defaults,
            5,
        )?;
        loop {
            step = match step {
                JobStep::Persist { record } => {
                    self.stored.push(record);
                    job.on_persisted(&mut self.threads, Ok(()))
                }
                JobStep::RunHooks { context } => {
                    assert_eq!(context.hook_point, HookPoint::UserPromptSubmitted);
                    job.on_hooks(String::new())
                }
                JobStep::Append { entry } => {
                    let written = self.append(thread, &turn_id, entry);
                    job.on_appended(&self.threads, written)
                }
                JobStep::ResolveProvider { .. } => {
                    let found = self.provider;
                    job.on_provider(&mut self.threads, found)
                }
                JobStep::RenderSkills => job.on_skills(&self.threads, ""),
                JobStep::Run { request } => {
                    let result = self.run(request);
                    job.on_result(&mut self.threads, result, 6)
                }
                JobStep::UpdateStatus { status, .. } => {
                    self.stored.last_mut().unwrap().status = status.into();
                    job.on_status(Ok(()))
                }
                JobStep::ReadRecords => {
                    let records: Vec<JournalRecord> = self
                        .journal
                        .replay(thread, 0)
                        .unwrap()
                        .into_iter()
                        .filter(|r| r.turn_id == turn_id)
                        .collect();
                    assert!(records_fit(&records));
                    job.on_records(&mut self.threads, Some(records))
                }
                JobStep::RenderConfig { config } => {
                    self.config = Some(config);
                    job.on_config(&mut self.threads, &mut self.approvals, "{}".into())
                }
                JobStep::Done { turn, .. } => return Ok(turn),
                JobStep::Failed { error } => return Err(error),
            }
        }
    }

    fn approve(&mut self, thread: &ThreadId, turn: &TurnId) -> Result<Turn, RuntimeError> {
        let durable = self.stored_approval(thread, turn);
        let pending = resolve_pending_approval(&mut self.approvals, thread, turn, Ok(durable))?;
        let (mut job, mut step) = ApprovalJob::begin(thread.clone(), turn.clone(), pending);
        loop {
            step = match step {
                ApprovalStep::Append { entry } => {
                    let written = self.append(thread, turn, entry);
                    job.on_appended(&mut self.threads, written)
                }
                ApprovalStep::ResolveProvider { .. } => job.on_provider(true),
                ApprovalStep::ReadTranscript { .. } => {
                    let log = self.journal.replay(thread, 0).unwrap();
                    let config = self.config.take();
                    job.on_transcript(&log, &Vec::new(), config)
                }
                ApprovalStep::Resume { request } => {
                    let result = self.resume(request);
                    job.on_result(result)
                }
                ApprovalStep::UpdateStatus { status } => {
                    self.stored.last_mut().unwrap().status = status.into();
                    job.on_status(Ok(()), 9)
                }
                ApprovalStep::Done { turn } => return Ok(turn),
                ApprovalStep::Failed { error } => return Err(error),
            }
        }
    }

    fn stored_approval(&self, thread: &ThreadId, turn: &TurnId) -> Option<DurableApproval> {
        let log = self.journal.replay(thread, 0).unwrap();
        log.into_iter().filter(|r| r.turn_id == *turn).find_map(|r| match r.entry {
            JournalEntry::ApprovalPending {
                call_id,
                approval_id,
                tool_name,
                arguments,
                model,
                workspace,
                config_json,
                ..
            } => Some(DurableApproval {
                approval_id,
                call_id: call_id.to_string(),
                tool_name,
                arguments_json: arguments.to_string(),
                model,
                workspace,
                config_json,
            }),
            _ => None,
        })
    }

    fn events(&self, thread: &ThreadId) -> Vec<EventEnvelope> {
        replay_events(
            self.journal.replay(thread, 0).map_err(|e| e.to_string()),
            Ok(Vec::new()),
        )
        .unwrap()
    }

    fn history(&self, thread: &ThreadId) -> usize {
        self.threads.get(thread).unwrap().context_manager.for_prompt().len()
    }
}

#[test]
fn test_builder_construction() {
    let builder = RuntimeBuilder::new().workspace("/tmp/test".into());
    let plan = builder.plan();
    assert_eq!(plan.workspace.as_deref(), Some("/tmp/test"));
    assert_eq!(plan.tools_workspace, "/tmp/test");
    assert!(plan.state_path.is_none());
}

#[test]
fn test_serde_status_mapping() {
    assert_eq!(serde_status("running"), ThreadStatus::Running);
    assert_eq!(serde_status("idle"), ThreadStatus::Idle);
    assert_eq!(serde_status("unknown"), ThreadStatus::Idle);
}

#[test]
fn test_serde_source_mapping() {
    assert_eq!(serde_source("interactive"), SessionSource::Interactive);
    assert_eq!(serde_source("resume"), SessionSource::Resume);
}

#[test]
fn stored_names_read_back() {
    for status in [ThreadStatus::Idle, ThreadStatus::Running, ThreadStatus::Completed] {
        assert_eq!(serde_status(thread_status_text(status)), status);
    }
}

#[test]
fn journal_append_is_projected_to_event_subscribers() {
    let mut host = Host::new(vec![]);
    let thread = host.thread("t");
    let turn_id = TurnId::from_string("turn-projection-1");
    let record = host
        .journal
        .append(
            &thread,
            &turn_id,
            JournalEntry::TurnStarted { user_input: "hello from journal".into() },
            0,
        )
        .unwrap();
    let envelope = project_record(&record).unwrap();
    match envelope.frame {
        EventFrame::TurnStarted { thread_id, turn_id: projected_turn_id, user_input } => {
            assert_eq!(thread_id, thread);
            assert_eq!(projected_turn_id, turn_id);
            assert_eq!(user_input, "hello from journal");
        }
        other => panic!("unexpected projected event: {other:?}"),
    }
}

#[test]
fn a_projection_starts_once() {
    let mut projections = ProjectionService::new();
    let thread = ThreadId::from_string("t");
    assert!(projections.ensure_projection(&thread));
    assert!(!projections.ensure_projection(&thread));
    assert!(projections.ensure_projection(&ThreadId::from_string("u")));
}

#[test]
fn replay_events_projects_journal_records_before_legacy_events() {
    let mut host = Host::new(vec![]);
    let thread = host.thread("t");
    let turn_id = TurnId::from_string("turn-replay-journal-1");
    host.append(
        &thread,
        &turn_id,
        JournalEntry::TurnStarted { user_input: "journal replay".into() },
    )
    .unwrap();
    let events = host.events(&thread);
    assert_eq!(events.len(), 1);
    assert_eq!(events[0].seq, 1);
    match &events[0].frame {
        EventFrame::TurnStarted { user_input, .. } => assert_eq!(user_input, "journal replay"),
        other => panic!("unexpected replay event: {other:?}"),
    }
}

#[test]
fn events_of_the_store_are_replayed_where_the_journal_is_empty() {
    let stored = vec![EventEnvelope {
        seq: 4,
        frame: EventFrame::RuntimeWarning { message: "w".into() },
    }];
    let events = replay_events(Ok(Vec::new()), Ok(stored)).unwrap();
    assert_eq!(events.len(), 1);
    assert_eq!(events[0].seq, 4);
    assert!(replay_events(Ok(Vec::new()), Err("disk".into())).is_err());
}

#[test]
fn submit_turn_replay_includes_journal_lifecycle_events() {
    let mut host = Host::new(vec![mock_text_response("hello from model")]);
    let thread = host.thread("t");
    host.submit_turn(&thread, "turn-1", "say hello").unwrap();
    let events = host.events(&thread);
    assert!(events.iter().any(|e| matches!(
        &e.frame,
        EventFrame::TurnStarted { user_input, .. } if user_input == "say hello"
    )));
    assert!(events.iter().any(|e| matches!(
        &e.frame,
        EventFrame::AssistantMessageDelta { delta, .. } if delta == "hello from model"
    )));
    assert!(events.iter().any(|e| matches!(e.frame, EventFrame::TurnCompleted { .. })));
    assert_eq!(host.stored[0].status, "completed");
}

#[test]
fn submit_turn_needing_approval_uses_journal_projection_once() {
    let mut host = Host::new(vec![mock_tool_call_response(
        "write_file",
        r#"{"path": "approval.txt", "content": "hello"}"#,
    )]);
    let thread = host.thread("t");
    let turn = host.submit_turn(&thread, "turn-1", "write approval file").unwrap();
    assert_eq!(turn.status, TurnStatus::WaitingForApproval);
    assert!(host.approvals.has_pending(&thread));
    assert!(host.events(&thread).iter().any(|e| matches!(
        &e.frame,
        EventFrame::ToolCallRequiresApproval { tool_name, .. } if tool_name == "write_file"
    )));
}

#[test]
fn transcript_reconstruction_prefers_journal_entries() {
    let mut host = Host::new(vec![]);
    let thread = host.thread("t");
    let turn_id = TurnId::from_string("turn-journal-transcript-1");
    let call_id = ToolCallId::from_string("call-journal-1");
    host.append(
        &thread,
        &turn_id,
        JournalEntry::ApprovalPending {
            call_id: call_id.clone(),
            approval_id: "approval-journal-1".into(),
            tool_name: "write_file".into(),
            arguments: value(r#"{"path": "journal.txt"}"#),
            reason: "mutating tool".into(),
            model: "mock-model".into(),
            workspace: "/tmp/test".into(),
            config_json: "{}".into(),
        },
    )
    .unwrap();
    let records = host.journal.replay(&thread, 0).unwrap();
    let items = vec![TurnItem::UserMessage { content: "not this".into() }];
    let transcript = build_transcript_from_items(&records, &items);
    assert_eq!(transcript.len(), 1);
    assert_eq!(transcript[0].role, MessageRole::Assistant);
    assert_eq!(transcript[0].tool_calls.len(), 1);
    assert_eq!(transcript[0].tool_calls[0].call_id, call_id.to_string());
    assert_eq!(transcript[0].tool_calls[0].tool_name, "write_file");
    assert_eq!(
        transcript[0].tool_calls[0].arguments,
        value(r#"{"path": "journal.txt"}"#)
    );
    let fallback = build_transcript_from_items(&Vec::new(), &items);
    assert_eq!(fallback[0].content.as_deref(), Some("not this"));
}

#[test]
fn test_phase6_context_manager_multi_turn_preserves_history() {
    let mut host = Host::new(vec![
        mock_text_response("turn 1 response"),
        mock_text_response("turn 2 response"),
    ]);
    let thread = host.thread("t");
    let t1 = host.submit_turn(&thread, "turn-1", "first message").unwrap();
    assert!(matches!(t1.status, TurnStatus::Completed));
    let t2 = host.submit_turn(&thread, "turn-2", "second message").unwrap();
    assert!(
        matches!(t2.status, TurnStatus::Completed),
        "second turn should complete (multi-turn context)"
    );
}

#[test]
fn test_context_manager_accumulates_multi_turn_state() {
    let mut host =
        Host::new(vec![mock_text_response("turn 1 answer"), mock_text_response("turn 2 answer")]);
    let thread = host.thread("t");
    assert_eq!(host.history(&thread), 0, "context starts empty");
    host.submit_turn(&thread, "turn-1", "message 1").unwrap();
    let after_turn1 = host.history(&thread);
    assert!(after_turn1 >= 2, "after turn 1, context should have >=2 messages (user + assistant)");
    host.submit_turn(&thread, "turn-2", "message 2").unwrap();
    assert!(host.history(&thread) > after_turn1);
}

#[test]
fn test_plan1_op_user_input_writes_turn_journal_entries() {
    let mut host = Host::new(vec![mock_text_response("ok")]);
    let thread = host.thread("t");
    let turn = host.submit_turn(&thread, "turn-1", "test").unwrap();
    assert!(matches!(turn.status, TurnStatus::Completed));
    let replay = host.events(&thread);
    assert!(
        replay.iter().any(|e| matches!(e.frame, EventFrame::TurnStarted { .. })),
        "journal must contain turn.started"
    );
    assert!(
        replay.iter().any(|e| matches!(e.frame, EventFrame::TurnCompleted { .. })),
        "journal must contain turn.completed"
    );
}

#[test]
fn a_thread_has_one_turn_at_a_time() {
    let mut host = Host::new(vec![mock_tool_call_response("write_file", "{}")]);
    let thread = host.thread("t");
    let other = host.thread("u");
    let begun = TurnJob::begin(
        &mut host.threads,
        &thread,
        TurnId::from_string("turn-1"),
        CreateTurnRequest {
            input: "a".into(),
            model: None,
            parent_turn_id: None,
            subagent_id: None,
            max_token_budget: None,
        },
        &host.defaults,
        0,
    );
    assert!(begun.is_ok());
    assert!(matches!(
        host.submit_turn(&thread, "turn-2", "b"),
        Err(RuntimeError::InvalidTransition(_)) | Err(RuntimeError::NotReady(_))
    ));
    assert!(host.submit_turn(&other, "turn-3", "c").is_ok());
    assert!(matches!(
        host.submit_turn(&ThreadId::from_string("none"), "turn-4", "d"),
        Err(RuntimeError::ThreadNotFound(_))
    ));
}

#[test]
fn a_turn_without_a_provider_is_not_run() {
    let mut host = Host::new(vec![]);
    host.provider = false;
    let thread = host.thread("t");
    assert!(host.submit_turn(&thread, "turn-1", "x").is_err());
    assert!(host.threads.get(&thread).unwrap().active_turn_id.is_none());
}

#[test]
fn test_plan1_op_cancel_accepted_through_session_loop() {
    let mut host = Host::new(vec![]);
    let thread = host.thread("t");
    let (entry, result) = handle_cancel(&host.threads, thread.clone());
    assert!(entry.is_none());
    assert_eq!(result.thread_id, thread);
    TurnJob::begin(
        &mut host.threads,
        &thread,
        TurnId::from_string("turn-1"),
        CreateTurnRequest {
            input: "a".into(),
            model: None,
            parent_turn_id: None,
            subagent_id: None,
            max_token_budget: None,
        },
        &host.defaults,
        0,
    )
    .unwrap();
    let (entry, _) = handle_cancel(&host.threads, thread);
    let (turn, entry) = entry.unwrap();
    assert_eq!(turn.as_str(), "turn-1");
    assert!(matches!(entry, JournalEntry::TurnInterrupted { .. }));
}

#[test]
fn op_steer_input_records_journal_entry() {
    let mut host = Host::new(vec![]);
    let thread = host.thread("t");
    assert!(handle_steer(&host.threads, thread.clone(), "correct the path").is_err());
    TurnJob::begin(
        &mut host.threads,
        &thread,
        TurnId::from_string("turn-1"),
        CreateTurnRequest {
            input: "a".into(),
            model: None,
            parent_turn_id: None,
            subagent_id: None,
            max_token_budget: None,
        },
        &host.defaults,
        0,
    )
    .unwrap();
    let ((turn, _), result) = handle_steer(&host.threads, thread, "correct the path").unwrap();
    assert_eq!(turn.as_str(), "turn-1");
    assert_eq!(result.turn_id, Some(turn));
}

fn fill(host: &mut Host, thread: &ThreadId, count: usize) {
    let mut active = host.threads.take(thread).unwrap();
    for i in 0..count {
        active.context_manager.record_items(
            &[ModelMessage {
                role: MessageRole::User,
                content: Some(format!("message {i}")),
                tool_calls: vec![],
                tool_call_id: None,
                reasoning_content: None,
            }],
            TruncationPolicy::KeepAll,
        );
    }
    host.threads.put(thread, active);
}

#[test]
fn test_plan3_op_compact_writes_compaction_journal_entries() {
    let mut host = Host::new(vec![]);
    let thread = host.thread("t");
    fill(&mut host, &thread, 30);
    let compaction = handle_compact(&mut host.threads, thread.clone()).unwrap();
    for entry in compaction.entries {
        host.append(&thread, &TurnId::from_string("compact"), entry).unwrap();
    }
    let replay = host.events(&thread);
    assert!(
        replay.iter().any(|e| matches!(e.frame, EventFrame::ContextCompactionStarted { .. })),
        "must have compaction started event"
    );
    assert!(
        replay.iter().any(|e| matches!(e.frame, EventFrame::ContextCompactionCompleted { .. })),
        "must have compaction completed event"
    );
    assert!(compaction.after <= compaction.before);
    assert!(host.history(&thread) < 30);
}

#[test]
fn test_auto_compaction_queues_after_threshold() {
    let mut host = Host::new(vec![]);
    let thread = host.thread("t");
    let mut active = host.threads.take(&thread).unwrap();
    active.context_manager.update_token_info(
        &Usage { prompt_tokens: 800, completion_tokens: 100, ..Default::default() },
        Some(1000),
    );
    host.threads.put(&thread, active);
    let needs = |host: &Host| {
        let (used, window) =
            host.threads.get(&thread).unwrap().context_manager.window_load().unwrap();
        used as f64 / window as f64 >= 0.8
    };
    assert!(needs(&host), "context should need compaction at 90% usage");
    let mut active = host.threads.take(&thread).unwrap();
    active.compaction_tracker.record_failure();
    active.compaction_tracker.record_failure();
    active.compaction_tracker.record_failure();
    host.threads.put(&thread, active);
    let blocked = needs(&host)
        && host.threads.get(&thread).unwrap().compaction_tracker.can_auto_compact(3);
    assert!(!blocked, "circuit breaker should block after 3 failures");
}

#[test]
fn test_e2e_approval_flow_through_session_loop() {
    let mut host = Host::new(vec![
        mock_tool_call_response("write_file", r#"{"path": "out.txt", "content": "data"}"#),
        mock_text_response("file written successfully"),
    ]);
    let thread = host.thread("t");
    let turn = host.submit_turn(&thread, "turn-1", "write data to out.txt").unwrap();
    assert_eq!(turn.status, TurnStatus::WaitingForApproval);
    let op = decision_op(&mut host.approvals, &thread, &turn.id, Ok(None), true).unwrap();
    let approval_id = match op {
        Op::ApprovalDecision { approval_id, approved: true, .. } => approval_id,
        other => panic!("unexpected op: {other:?}"),
    };
    let found = handle_approval(&mut host.approvals, &approval_id).unwrap();
    assert_eq!(found, turn.id);
    let resumed = host.approve(&thread, &turn.id).unwrap();
    assert!(
        matches!(resumed.status, TurnStatus::Completed),
        "approval resume should complete"
    );
    let events = host.events(&thread);
    assert!(events.iter().any(|e| matches!(e.frame, EventFrame::ToolCallApproved { .. })));
    assert!(events.iter().any(|e| matches!(
        &e.frame,
        EventFrame::AssistantMessageDelta { delta, .. } if delta == "file written successfully"
    )));
    assert_eq!(host.stored[0].status, "completed");
    assert!(host.threads.get(&thread).unwrap().active_turn_id.is_none());
}

#[test]
fn a_rejected_call_is_not_run() {
    let mut host = Host::new(vec![mock_tool_call_response("write_file", "{}")]);
    let thread = host.thread("t");
    let turn = host.submit_turn(&thread, "turn-1", "write").unwrap();
    let pending =
        resolve_pending_approval(&mut host.approvals, &thread, &turn.id, Ok(None)).unwrap();
    for entry in reject_tool(&pending) {
        host.append(&thread, &turn.id, entry).unwrap();
    }
    assert_eq!(free_rejected(&mut host.threads, &thread), "failed");
    let end = conclude_rejection(&thread, &turn.id, Ok(()), 3).unwrap();
    assert_eq!(end.status, TurnStatus::Failed);
    let events = host.events(&thread);
    assert!(events.iter().any(|e| matches!(e.frame, EventFrame::ToolCallRejected { .. })));
    assert!(!events.iter().any(|e| matches!(e.frame, EventFrame::ToolCallCompleted { .. })));
}

#[test]
fn a_stored_approval_outlives_the_process() {
    let mut approvals = ApprovalCoordinator::new();
    let thread = ThreadId::from_string("t");
    let turn = TurnId::from_string("turn-1");
    let durable = DurableApproval {
        approval_id: "a".into(),
        call_id: "c".into(),
        tool_name: "write_file".into(),
        arguments_json: r#"{"path":"x"}"#.into(),
        model: "m".into(),
        workspace: "/w".into(),
        config_json: "{}".into(),
    };
    let pending =
        resolve_pending_approval(&mut approvals, &thread, &turn, Ok(Some(durable))).unwrap();
    assert_eq!(pending.approval_id, "a");
    assert_eq!(pending.arguments, value(r#"{"path":"x"}"#));
    assert!(resolve_pending_approval(&mut approvals, &thread, &turn, Ok(None)).is_err());
    assert!(matches!(
        resolve_pending_approval(&mut approvals, &thread, &turn, Err("disk".into())),
        Err(RuntimeError::State(_))
    ));
}

#[test]
fn test_e2e_multi_turn_tool_conversation_with_journal_replay() {
    let mut host = Host::new(vec![
        mock_tool_call_response("read_file", r#"{"path": "src/main.rs"}"#),
        mock_text_response("found: fn main()"),
        mock_text_response("the file contains fn main()"),
    ]);
    let thread = host.thread("t");
    let t1 = host.submit_turn(&thread, "turn-1", "read src/main.rs").unwrap();
    assert!(
        matches!(t1.status, TurnStatus::Completed),
        "turn 1 should complete with tool call"
    );
    let t2 = host.submit_turn(&thread, "turn-2", "what did you find?").unwrap();
    assert!(
        matches!(t2.status, TurnStatus::Completed),
        "turn 2 should complete with context from turn 1"
    );
    let replay = host.events(&thread);
    let started =
        replay.iter().filter(|e| matches!(e.frame, EventFrame::TurnStarted { .. })).count();
    let completed =
        replay.iter().filter(|e| matches!(e.frame, EventFrame::TurnCompleted { .. })).count();
    assert!(started >= 2, "must have at least 2 turn started events");
    assert!(completed >= 2, "must have at least 2 turn completed events");
    for w in replay.windows(2) {
        assert!(w[0].seq < w[1].seq, "journal seq must be strictly monotonic");
    }
}

#[test]
fn test_e2e_context_multi_turn_second_sees_first() {
    let mut host = Host::new(vec![
        mock_text_response("first response"),
        mock_text_response("second response referencing first"),
    ]);
    let thread = host.thread("t");
    let t1 = host.submit_turn(&thread, "turn-1", "first message").unwrap();
    assert!(matches!(t1.status, TurnStatus::Completed));
    let t2 = host.submit_turn(&thread, "turn-2", "second message").unwrap();
    assert!(
        matches!(t2.status, TurnStatus::Completed),
        "multi-turn E2E: second turn must complete with context from first"
    );
}

fn resolved(key: Option<&str>) -> ResolvedConfig {
    let mut env = EnvOverrides::default();
    env.api_key = key.map(|k| k.to_string());
    ConfigStore::new(ConfigToml::default()).resolve(
        &CliOverrides::default(),
        &env,
        None,
        &SearchRoots {
            user_plugins: "/p".into(),
            user_skills: "/s".into(),
            workspace_plugins: None,
            workspace_skills: None,
        },
    )
}

#[test]
fn test_all_engine_components_wired_in_runtime() {
    let core = RuntimeCore::new(&resolved(None));
    assert!(core.provider.is_none());
    assert!(core.agents.can_spawn(0), "AgentControl allows depth 0 spawn");
    assert!(!core.agents.can_spawn(4), "agent control must deny spawn at depth >= max");
    assert!(!core.approvals.has_pending(&ThreadId::from_string("t")));
    assert_eq!(core.policy.mode(), AgentMode::Agent);
    let with_key = RuntimeCore::new(&resolved(Some("k")));
    assert_eq!(with_key.provider.unwrap().authorization(), "Bearer k");
}

#[test]
fn a_child_agent_reports_to_its_parent() {
    let core = RuntimeCore::new(&resolved(None));
    let parent = ThreadId::from_string("parent");
    let plan =
        spawn_child_agent(&core.agents, parent.clone(), "review".into(), "mock-model").unwrap();
    assert_eq!(plan.thread.parent_thread_id, Some(parent));
    assert_eq!(plan.turn.input, "review");
    assert_eq!(plan.turn.model.as_deref(), Some("mock-model"));
    let child = ThreadId::from_string("child");
    let report = child_report(&child, &Err(RuntimeError::NotReady("no provider".into())));
    assert!(report.content.contains("no provider"));
    assert!(report.trigger_turn);
}

#[test]
fn records_hold_what_the_thread_and_its_turns_are() {
    let mut host = Host::new(vec![mock_text_response("x")]);
    let thread = host.thread("t");
    let record = persist_thread(&host.threads.get(&thread).unwrap().thread);
    assert_eq!(record.id, "t");
    assert_eq!(record.cwd, "/tmp/test");
    assert!(!record.archived);
    let turn = host.submit_turn(&thread, "turn-1", "q").unwrap();
    let record = persist_turn(&turn);
    assert_eq!(record.status, turn_status_text(TurnStatus::Completed));
    assert_eq!(record.user_input, "q");
    assert_eq!(host.threads.get(&thread).unwrap().turn_fsm.as_ref().map(|f| f.state), None::<TurnState>);
}

#[test]
fn the_status_of_a_turn_is_told_to_the_loop() {
    assert_eq!(turn_status_to_op_status(&TurnStatus::Completed), "completed");
    assert_eq!(
        turn_status_to_op_status(&TurnStatus::WaitingForApproval),
        "waiting_for_approval"
    );
    let thread = ThreadId::from_string("t");
    let failed = turn_result_to_op_result(&thread, Err(RuntimeError::Config("bad".into())));
    assert!(failed.unwrap_err().error.contains("bad"));
}

#[test]
fn runtime_errors_have_their_texts() {
    assert!(RuntimeError::Config("c".into()).to_string().contains("c"));
    assert!(RuntimeError::State("s".into()).to_string().contains("s"));
    assert!(RuntimeError::ThreadNotFound(ThreadId::from_string("tt")).to_string().contains("tt"));
    assert!(RuntimeError::InvalidTransition("i".into()).to_string().contains("i"));
    assert!(RuntimeError::NotReady("n".into()).to_string().contains("n"));
}

#[test]
fn every_thread_is_named_once() {
    let mut host = Host::new(vec![]);
    let first = host.thread("t");
    let second = host.thread("u");
    let taken = host.threads.take(&first).unwrap();
    host.threads.put(&first, taken);
    let mut ids: Vec<String> = host.threads.ids().iter().map(|id| id.to_string()).collect();
    ids.sort();
    assert_eq!(ids, vec![first.to_string(), second.to_string()]);
}

#[test]
fn a_frame_names_its_turn() {
    let turn_id = TurnId::from_string("turn-1");
    assert_eq!(extract_turn_id(&EventFrame::TurnCompleted { turn_id }), "turn-1");
    let created = EventFrame::ThreadCreated {
        thread_id: ThreadId::from_string("t"),
        workspace: "/tmp".into(),
    };
    assert_eq!(extract_turn_id(&created), "");
}

#[test]
fn a_turn_that_begins_has_its_own_state_machine() {
    let mut host = Host::new(vec![]);
    let thread = host.thread("t");
    TurnJob::begin(
        &mut host.threads,
        &thread,
        TurnId::from_string("turn-1"),
        CreateTurnRequest {
            input: "a".into(),
            model: None,
            parent_turn_id: None,
            subagent_id: None,
            max_token_budget: None,
        },
        &host.defaults,
        0,
    )
    .unwrap();
    let machine = host.threads.get(&thread).unwrap().turn_fsm.as_ref().unwrap();
    assert_eq!(machine.thread_id, thread);
    assert_eq!(machine.turn_id.as_str(), "turn-1");
    assert_eq!(machine.user_input, "a");
    assert_eq!(machine.state, TurnState::Started);
}
