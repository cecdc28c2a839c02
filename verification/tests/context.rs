use deepomni::context::assembly::{
    assemble_context, ContextFragment, FragmentRole, OverflowAction,
};
use deepomni::context::budget::TokenBudget;
use deepomni::context::compaction::{build_compacted_history, build_compaction_request};
use deepomni::context::manager::{ContextManager, TruncationPolicy};
use deepomni::context::normalize::{normalize_history, normalize_transcript};
use deepomni::context::request_compiler::{CompileConfig, RequestCompiler};
use deepomni::model::{MessageRole, ModelMessage, ModelToolCall};
use deepomni::prompt::PromptBuilder;
use deepomni::protocol::id::{MessageId, TurnId};
use deepomni::protocol::usage::Usage;
use serde_json::Value;

fn message(role: MessageRole, content: &str) -> ModelMessage {
    ModelMessage {
        role,
        content: Some(content.to_string()),
        tool_calls: Vec::new(),
        tool_call_id: None,
        reasoning_content: None,
    }
}

fn user_msg(content: &str) -> ModelMessage {
    message(MessageRole::User, content)
}

fn call(call_id: &str, tool_name: &str, arguments: &str) -> ModelMessage {
    ModelMessage {
        role: MessageRole::Assistant,
        content: None,
        tool_calls: vec![ModelToolCall {
            call_id: call_id.into(),
            tool_name: tool_name.into(),
            arguments: serde_json::from_str::<Value>(arguments).unwrap(),
        }],
        tool_call_id: None,
        reasoning_content: None,
    }
}

fn tool_result(call_id: &str, content: &str) -> ModelMessage {
    ModelMessage {
        role: MessageRole::Tool,
        content: Some(content.into()),
        tool_calls: vec![],
        tool_call_id: Some(call_id.into()),
        reasoning_content: None,
    }
}

fn needs_compaction(manager: &ContextManager, threshold: f64) -> bool {
    match manager.window_load() {
        Some((used, window)) => used as f64 / window as f64 >= threshold,
        None => false,
    }
}

#[test]
fn compaction_request_includes_summary_prompt() {
    let history = vec![user_msg("fix the bug"), message(MessageRole::Assistant, "done")];
    let request = build_compaction_request(&history);
    assert_eq!(request.len(), 3);
    assert!(request.last().unwrap().content.as_deref().unwrap().contains("summarize"));
}

#[test]
fn compacted_history_starts_with_summary_prefix() {
    let recent = vec![user_msg("latest question")];
    let compacted = build_compacted_history("fixed the login bug", &recent);
    assert_eq!(compacted.len(), 2);
    assert!(compacted[0].content.as_deref().unwrap().contains("compacted"));
    assert!(compacted[0].content.as_deref().unwrap().contains("fixed the login bug"));
}

#[test]
fn records_items_and_preserves_prompt_order() {
    let mut manager = ContextManager::new();
    manager.record_items(
        &[message(MessageRole::User, "first"), message(MessageRole::Assistant, "second")],
        TruncationPolicy::KeepAll,
    );
    let prompt = manager.for_prompt();
    assert_eq!(prompt.len(), 2);
    assert_eq!(prompt[0].content.as_deref(), Some("first"));
    assert_eq!(prompt[1].content.as_deref(), Some("second"));
    assert_eq!(manager.history_version(), 0);
}

#[test]
fn keep_last_policy_truncates_oldest_items_and_bumps_version() {
    let mut manager = ContextManager::new();
    manager.record_items(
        &[
            message(MessageRole::User, "one"),
            message(MessageRole::Assistant, "two"),
            message(MessageRole::User, "three"),
        ],
        TruncationPolicy::KeepLast { max_items: 2 },
    );
    let prompt = manager.for_prompt();
    assert_eq!(prompt.len(), 2);
    assert_eq!(prompt[0].content.as_deref(), Some("two"));
    assert_eq!(prompt[1].content.as_deref(), Some("three"));
    assert_eq!(manager.history_version(), 1);
}

#[test]
fn replace_history_increments_version_and_updates_snapshot() {
    let mut manager = ContextManager::new();
    manager.record_items(&[message(MessageRole::User, "old")], TruncationPolicy::KeepAll);
    manager.replace_history(vec![message(MessageRole::User, "summary")]);
    manager.set_reference_context();

    assert_eq!(manager.history_version(), 1);
    assert_eq!(manager.reference_context().unwrap().items.len(), 1);
    assert_eq!(
        manager.reference_context().unwrap().items[0].content.as_deref(),
        Some("summary")
    );
}

#[test]
fn compaction_threshold_uses_last_usage_window() {
    let mut manager = ContextManager::new();
    manager.update_token_info(
        &Usage { prompt_tokens: 750, completion_tokens: 50, ..Default::default() },
        Some(1000),
    );
    assert!(needs_compaction(&manager, 0.8));
    assert!(!needs_compaction(&manager, 0.9));
    assert_eq!(manager.window_load(), Some((800, 1000)));
}

#[test]
fn for_prompt_removes_orphan_tool_outputs() {
    let mut manager = ContextManager::new();
    manager.record_items(
        &[
            call("call-1", "read", "null"),
            tool_result("call-1", "result"),
            tool_result("call-orphan", "orphan"),
        ],
        TruncationPolicy::KeepAll,
    );
    let prompt = manager.for_prompt();
    assert_eq!(prompt.len(), 2, "orphan tool result should be removed");
    assert!(prompt.iter().all(|m| m.tool_call_id.as_deref() != Some("call-orphan")));
}

#[test]
fn token_usage_includes_local_items_after_last_usage() {
    let mut manager = ContextManager::new();
    manager.update_token_info(
        &Usage { prompt_tokens: 700, completion_tokens: 50, ..Default::default() },
        Some(1000),
    );
    manager.record_items(
        &[message(MessageRole::User, &"x".repeat(400))],
        TruncationPolicy::KeepAll,
    );
    assert!(
        needs_compaction(&manager, 0.8),
        "should need compaction with local items pushing past 80%"
    );
    assert_eq!(manager.window_load(), Some((850, 1000)));
}

#[test]
fn test_token_budget_defaults() {
    let budget = TokenBudget::new(100_000);
    assert_eq!(budget.total, 100_000);
    assert_eq!(budget.system_tokens, 10_000);
    assert_eq!(budget.history_tokens, 65_000);
    assert_eq!(budget.margin_tokens, 5_000);
    assert_eq!(budget.consumed, 0);
    assert!(budget.remaining() > 0);
}

#[test]
fn test_token_budget_exhaustion() {
    let mut budget = TokenBudget::new(1000);
    budget.consume(960);
    assert!(budget.is_exhausted());
}

#[test]
fn test_never_drop_system() {
    let sys = ContextFragment::System { content: "system prompt".into() };
    assert!(sys.is_protected());
}

#[test]
fn test_never_drop_reasoning() {
    let r_replay = ContextFragment::ReasoningReplay {
        message_id: MessageId::from_string("msg-1"),
        content: "thinking...".into(),
    };
    assert!(r_replay.is_protected());
}

#[test]
fn test_assemble_context_truncates_under_budget() {
    let fragments = vec![
        ContextFragment::System { content: "You are an agent.".into() },
        ContextFragment::ToolSchemas { content: "read_file, write_file".into() },
        ContextFragment::ConversationMessage {
            role: "user".into(),
            content: "Fix the bug".into(),
            message_id: Some(MessageId::from_string("msg-2")),
        },
    ];
    let assembled = assemble_context(TurnId::from_string("turn-1"), fragments, 100);
    assert_eq!(assembled.messages.len(), 3);
    assert!(!assembled.budget.is_exhausted() || assembled.budget.total < 100);
}

#[test]
fn test_budget_debug_metadata() {
    let budget = TokenBudget::new(100_000);
    let meta = budget.debug_metadata();
    assert_eq!(meta.allocation_percent.system, 10);
    assert_eq!(meta.allocation_percent.history, 65);
}

#[test]
fn an_overflowing_context_drops_plugins_then_skills_then_history() {
    let fragments = vec![
        ContextFragment::System { content: "keep me".into() },
        ContextFragment::PluginCapability { plugin_id: "p".into(), content: "x".repeat(4000) },
        ContextFragment::SkillInstruction { skill_name: "s".into(), content: "y".repeat(4000) },
        ContextFragment::ConversationMessage {
            role: "user".into(),
            content: "z".repeat(4000),
            message_id: None,
        },
        ContextFragment::ConversationMessage {
            role: "user".into(),
            content: "the last message stays".into(),
            message_id: None,
        },
    ];
    let assembled = assemble_context(TurnId::from_string("turn-1"), fragments, 100);
    assert_eq!(assembled.messages.len(), 2);
    assert!(matches!(
        &assembled.messages[0],
        ContextFragment::System { content } if content == "keep me"
    ));
    let actions = &assembled.overflow_actions;
    assert!(matches!(
        &actions[0],
        OverflowAction::DroppedPluginCapability { plugin_id } if plugin_id == "p"
    ));
    assert!(matches!(
        &actions[1],
        OverflowAction::DroppedInactiveSkill { skill_name } if skill_name == "s"
    ));
    assert!(matches!(actions[2], OverflowAction::CompactedHistory { removed_messages: 1 }));
}

#[test]
fn a_fitting_context_is_kept() {
    let fragments = vec![
        ContextFragment::Environment { content: "cwd".into() },
        ContextFragment::System { content: "sys".into() },
    ];
    let assembled = assemble_context(TurnId::from_string("turn-1"), fragments, 1000);
    assert!(assembled.overflow_actions.is_empty());
    assert_eq!(assembled.messages.len(), 2);
}

#[test]
fn normalizing_twice_is_normalizing_once() {
    let mut once = vec![
        user_msg("q"),
        tool_result("c-missing", "orphan"),
        call("c1", "read", "null"),
        tool_result("c1", "result"),
    ];
    normalize_transcript(&mut once);
    let mut twice = once.clone();
    normalize_transcript(&mut twice);
    assert_eq!(once.len(), 3);
    assert_eq!(twice.len(), once.len());
}

#[test]
fn the_token_policy_keeps_a_tail_that_fits() {
    let mut mgr = ContextManager::new();
    let items: Vec<ModelMessage> = (0..10).map(|_| user_msg(&"w".repeat(400))).collect();
    mgr.record_items(&items, TruncationPolicy::TokenBudget { max_tokens: 250 });
    assert_eq!(mgr.len(), 2);
    assert_eq!(mgr.history_version(), 8);
    mgr.record_items(&[user_msg(&"w".repeat(1004))], TruncationPolicy::TokenBudget { max_tokens: 250 });
    assert!(mgr.is_empty());
    assert_eq!(mgr.history_version(), 11);
    mgr.record_items(&[user_msg(&"w".repeat(1000))], TruncationPolicy::TokenBudget { max_tokens: 250 });
    assert_eq!(mgr.len(), 1);
}

#[test]
fn lib_test_default_prompt() {
    let builder = PromptBuilder::new("You are DeepOmni.".into());
    let built = builder.build();
    assert_eq!(built.content, "You are DeepOmni.");
    assert!(!built.static_hash.is_empty());
}

#[test]
fn test_override_replaces_everything() {
    let built = PromptBuilder::new("default".into())
        .with_override("override".into())
        .with_custom("custom".into())
        .with_append("append".into())
        .build();
    assert_eq!(built.content, "override");
}

#[test]
fn test_custom_overrides_default() {
    let built = PromptBuilder::new("default".into()).with_custom("custom".into()).build();
    assert_eq!(built.content, "custom");
}

#[test]
fn test_agent_replaces_default() {
    let built = PromptBuilder::new("default".into())
        .with_agent("agent".into())
        .with_custom("custom".into())
        .build();
    assert!(built.content.contains("agent"));
}

#[test]
fn lib_test_hash_stability() {
    let a = PromptBuilder::new("test".into()).build();
    let b = PromptBuilder::new("test".into()).build();
    assert_eq!(a.static_hash, b.static_hash);
}

#[test]
fn removes_orphan_tool_results() {
    let mut messages = vec![
        call("c1", "read", "null"),
        tool_result("c1", "result"),
        tool_result("c-missing", "orphan"),
    ];
    normalize_history(&mut messages);
    assert_eq!(messages.len(), 2, "orphan tool result should be removed");
    assert!(messages.iter().all(|m| m.tool_call_id.as_deref() != Some("c-missing")));
}

#[test]
fn non_tool_messages_preserved() {
    let mut messages = vec![user_msg("hello")];
    normalize_history(&mut messages);
    assert_eq!(messages.len(), 1);
}

#[test]
fn test_normalize_transcript_removes_orphan_results() {
    let mut messages = vec![
        call("call-1", "read", "{}"),
        tool_result("call-1", "result"),
        tool_result("missing-call", "orphan"),
    ];
    normalize_transcript(&mut messages);
    assert_eq!(messages.len(), 2, "orphan tool result should be removed");
}

fn test_config() -> CompileConfig<'static> {
    CompileConfig {
        system_prompt: Some("System prompt"),
        fragments: &[],
        tools: vec![],
        max_output_tokens: None,
        model: "test",
        reasoning_to_replay: None,
    }
}

#[test]
fn test_new_turn_message_order() {
    let fragments = vec![ContextFragment::ToolSchemas { content: "tool schemas".into() }];
    let cfg = CompileConfig { fragments: &fragments, ..test_config() };
    let compiled = RequestCompiler::compile_new_turn(&cfg, &[], "hello");
    let msgs = compiled.request.messages;
    assert_eq!(msgs[0].role, MessageRole::System);
    assert!(msgs.last().unwrap().content.as_ref().unwrap().contains("hello"));
    assert!(!compiled.has_tool_continuation);
}

#[test]
fn test_continuation_no_fake_user_message() {
    let transcript = vec![call("call-1", "read_file", "{}"), tool_result("call-1", "file content")];
    let compiled = RequestCompiler::compile_tool_continuation(&test_config(), &transcript);
    let last = compiled.request.messages.last().unwrap();
    assert_eq!(last.role, MessageRole::Tool);
    assert!(compiled.has_tool_continuation);
}

#[test]
fn test_approval_resume_appends_tool_result() {
    let transcript = vec![user_msg("write file")];
    let compiled = RequestCompiler::compile_approval_resume(
        &test_config(),
        &transcript,
        "written 100 bytes",
        "call-1",
    );
    let last = compiled.request.messages.last().unwrap();
    assert_eq!(last.role, MessageRole::Tool);
    assert_eq!(last.tool_call_id.as_deref(), Some("call-1"));
    assert!(compiled.has_tool_continuation);
}

#[test]
fn request_compiler_new_turn_appends_user_input() {
    let config = CompileConfig {
        system_prompt: Some("system"),
        fragments: &[],
        tools: vec![],
        max_output_tokens: Some(100),
        model: "mock-model",
        reasoning_to_replay: None,
    };
    let compiled = RequestCompiler::compile_new_turn(&config, &[], "hello");
    let messages = &compiled.request.messages;
    assert_eq!(messages.len(), 2);
    assert_eq!(messages[0].role, MessageRole::System);
    assert_eq!(messages[1].role, MessageRole::User);
    assert_eq!(messages[1].content.as_deref(), Some("hello"));
}

#[test]
fn request_compiler_tool_continuation_does_not_append_fake_user() {
    let config = CompileConfig {
        system_prompt: Some("system"),
        fragments: &[],
        tools: vec![],
        max_output_tokens: Some(100),
        model: "mock-model",
        reasoning_to_replay: None,
    };
    let transcript = vec![tool_result("call-1", "tool output")];
    let compiled = RequestCompiler::compile_tool_continuation(&config, &transcript);
    let messages = &compiled.request.messages;
    assert_eq!(messages.len(), 2);
    assert_eq!(messages[0].role, MessageRole::System);
    assert_eq!(messages[1].role, MessageRole::Tool);
    assert_eq!(messages[1].content.as_deref(), Some("tool output"));
}

#[test]
fn fragments_are_marked_by_their_kind() {
    let fragments = vec![ContextFragment::Environment { content: "cwd".into() }];
    let cfg = CompileConfig { fragments: &fragments, ..test_config() };
    let compiled = RequestCompiler::compile_new_turn(&cfg, &[], "hi");
    let tag = fragments[0].marker_tag().unwrap();
    assert_eq!(
        compiled.request.messages[1].content.as_deref(),
        Some(format!("<{tag}>\ncwd\n</{tag}>").as_str())
    );
}

#[test]
fn test_context_manager_multi_turn_preserves_history() {
    let mut mgr = ContextManager::new();
    mgr.record_items(&[user_msg("turn 1")], TruncationPolicy::KeepAll);
    let snapshot = mgr.for_prompt();
    assert_eq!(snapshot.len(), 1);
    mgr.record_items(&[message(MessageRole::Assistant, "response")], TruncationPolicy::KeepAll);
    assert_eq!(mgr.for_prompt().len(), 2);
    assert_eq!(mgr.history_version(), 0);
}

#[test]
fn test_context_rollback_drops_recent_turns() {
    let mut mgr = ContextManager::new();
    mgr.record_items(&[user_msg("keep")], TruncationPolicy::KeepAll);
    mgr.record_items(&[user_msg("drop")], TruncationPolicy::KeepAll);
    let removed = mgr.drop_last_n_user_turns(1);
    assert_eq!(removed, 1);
    assert_eq!(mgr.for_prompt().len(), 1);
    assert_eq!(mgr.for_prompt()[0].content.as_deref(), Some("keep"));
}

#[test]
fn rollback_of_more_turns_than_there_are_drops_nothing() {
    let mut mgr = ContextManager::new();
    mgr.record_items(&[user_msg("only")], TruncationPolicy::KeepAll);
    assert_eq!(mgr.drop_last_n_user_turns(2), 0);
    assert_eq!(mgr.len(), 1);
}

#[test]
fn test_e2e_context_normalization_removes_orphan_tool_results() {
    let mut mgr = ContextManager::new();
    mgr.record_items(
        &[
            call("c1", "read", "{}"),
            tool_result("c1", "result"),
            tool_result("c-missing", "orphan"),
        ],
        TruncationPolicy::KeepAll,
    );
    let prompt = mgr.for_prompt();
    assert_eq!(prompt.len(), 2, "orphan tool result must be removed");
    assert!(prompt.iter().all(|m| m.tool_call_id.as_deref() != Some("c-missing")));
}

#[test]
fn fragments_have_the_role_of_their_kind() {
    let text = || "text".to_string();
    assert_eq!(ContextFragment::System { content: text() }.role(), FragmentRole::System);
    assert_eq!(
        ContextFragment::PluginCapability { plugin_id: "p".into(), content: text() }.role(),
        FragmentRole::Developer
    );
    assert_eq!(
        ContextFragment::ConversationMessage {
            role: "assistant".into(),
            content: text(),
            message_id: None,
        }
        .role(),
        FragmentRole::User
    );
}

#[test]
fn the_shares_of_a_budget_fit_into_it() {
    for total in [0u64, 1, 99, 1_000, u64::MAX / 100] {
        let budget = TokenBudget::new(total);
        let shares = [
            budget.system_tokens,
            budget.schema_tokens,
            budget.skill_tokens,
            budget.history_tokens,
            budget.margin_tokens,
        ];
        let sum: u128 = shares.iter().map(|s| *s as u128).sum();
        assert!(sum <= total as u128);
    }
}

#[test]
fn requests_of_every_kind_begin_alike() {
    let fragments = vec![ContextFragment::Environment { content: "cwd".into() }];
    let cfg = CompileConfig { fragments: &fragments, ..test_config() };
    let history = [user_msg("before")];
    let new_turn = RequestCompiler::compile_new_turn(&cfg, &history, "now").request.messages;
    let continued = RequestCompiler::compile_tool_continuation(&cfg, &history).request.messages;
    assert_eq!(new_turn.len(), continued.len() + 1);
    for (a, b) in new_turn.iter().zip(continued.iter()) {
        assert_eq!(a.role, b.role);
        assert_eq!(a.content, b.content);
    }
}

#[test]
fn tokens_are_counted_in_characters() {
    let ascii = ContextFragment::System { content: "abcde".into() };
    let wide = ContextFragment::System { content: "\u{e9}\u{e9}\u{e9}\u{e9}".into() };
    assert_eq!(ascii.estimated_tokens(), 2);
    assert_eq!(wide.estimated_tokens(), 1);
}

#[test]
fn large_tool_outputs_are_cut_before_history_goes() {
    let fragments = vec![
        ContextFragment::System { content: "keep me".into() },
        ContextFragment::ToolResult { call_id: "old".into(), content: "a".repeat(4001) },
        ContextFragment::ToolResult { call_id: "small".into(), content: "b".repeat(2000) },
        ContextFragment::ToolResult { call_id: "new".into(), content: "c".repeat(4000) },
        ContextFragment::ConversationMessage {
            role: "user".into(),
            content: "z".repeat(400),
            message_id: None,
        },
        ContextFragment::ConversationMessage {
            role: "user".into(),
            content: "last".into(),
            message_id: None,
        },
    ];
    let assembled = assemble_context(TurnId::from_string("turn-1"), fragments.clone(), 2500);
    assert_eq!(assembled.overflow_actions.len(), 1);
    assert!(matches!(
        &assembled.overflow_actions[0],
        OverflowAction::TruncatedToolOutput { call_id, original_tokens: 1001, truncated_tokens: 500 }
            if call_id == "old"
    ));
    assert_eq!(assembled.messages.len(), 6);
    assert!(matches!(
        &assembled.messages[1],
        ContextFragment::ToolResult { call_id, content }
            if call_id == "old" && *content == "a".repeat(2000)
    ));
    assert!(matches!(
        &assembled.messages[3],
        ContextFragment::ToolResult { content, .. } if content.len() == 4000
    ));

    let assembled = assemble_context(TurnId::from_string("turn-1"), fragments, 100);
    assert_eq!(assembled.overflow_actions.len(), 3);
    assert!(matches!(
        &assembled.overflow_actions[1],
        OverflowAction::TruncatedToolOutput { call_id, original_tokens: 1000, truncated_tokens: 500 }
            if call_id == "new"
    ));
    assert!(matches!(
        assembled.overflow_actions[2],
        OverflowAction::CompactedHistory { removed_messages: 1 }
    ));
    assert!(matches!(
        &assembled.messages[2],
        ContextFragment::ToolResult { call_id, content }
            if call_id == "small" && content.len() == 2000
    ));
    assert_eq!(assembled.messages.len(), 5);
    assert_eq!(assembled.budget.consumed, 2 + 500 + 500 + 500 + 1);
}

#[test]
fn empty_and_repeated_messages_are_left_out() {
    let mut history = vec![
        user_msg("yes"),
        user_msg(""),
        user_msg("yes"),
        message(MessageRole::Assistant, "done"),
        user_msg("yes"),
        call("c1", "read", "{\"a\": 1}"),
        call("c1", "read", "{\"a\":1}"),
        tool_result("c1", ""),
        tool_result("c1", ""),
    ];
    let mut transcript = history.clone();
    normalize_history(&mut history);
    assert_eq!(history.len(), 5);
    assert_eq!(history[0].content.as_deref(), Some("yes"));
    assert_eq!(history[1].content.as_deref(), Some("done"));
    assert_eq!(history[2].content.as_deref(), Some("yes"));
    assert_eq!(history[3].tool_calls.len(), 1);
    assert_eq!(history[4].tool_call_id.as_deref(), Some("c1"));
    let again = history.clone();
    normalize_history(&mut history);
    assert_eq!(history.len(), again.len());
    normalize_transcript(&mut transcript);
    assert_eq!(transcript.len(), 9);
}

#[test]
fn messages_that_differ_anywhere_are_no_repetitions() {
    let mut reasoned = message(MessageRole::Assistant, "x");
    reasoned.reasoning_content = Some("because".into());
    let mut silent = message(MessageRole::Assistant, "");
    silent.reasoning_content = Some("thought".into());
    let mut history = vec![
        user_msg("x"),
        message(MessageRole::Assistant, "x"),
        reasoned,
        silent,
        call("c1", "read", "null"),
        call("c2", "read", "null"),
        call("c2", "write", "null"),
        call("c2", "write", "1"),
    ];
    normalize_history(&mut history);
    assert_eq!(history.len(), 8);
}
