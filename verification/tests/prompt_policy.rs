use deepomni::policy::{AgentMode, ApprovalRequirement, PermissionProfile, PolicyEngine};
use deepomni::prompt::PromptBuilder;
use deepomni::protocol::permission::PermissionType;
use deepomni::sandbox::{Platform, SandboxAttempt, SandboxDecision, SandboxManager};

#[test]
fn test_default_prompt() {
    let built = PromptBuilder::new("You are DeepOmni.".into()).build();
    assert_eq!(built.content, "You are DeepOmni.");
    assert!(!built.static_hash.is_empty());
}

#[test]
fn test_override_replaces_all() {
    let built = PromptBuilder::new("default".into())
        .with_override("override".into())
        .with_custom("custom".into())
        .with_append("append".into())
        .build();
    assert_eq!(built.content, "override");
}

#[test]
fn test_hash_stability() {
    let a = PromptBuilder::new("test".into()).build();
    let b = PromptBuilder::new("test".into()).build();
    assert_eq!(a.static_hash, b.static_hash);
}

#[test]
fn the_prompt_hash_is_sha_256_in_hexadecimal() {
    let built = PromptBuilder::new("abc".into()).build();
    assert_eq!(
        built.static_hash,
        "ba7816bf8f01cfea414140de5dae2223b00361a396177a9cb410ff61f20015ad"
    );
}

#[test]
fn a_postscript_follows_an_empty_line() {
    let built = PromptBuilder::new("base".into()).with_append("more".into()).build();
    assert_eq!(built.content, "base\n\nmore");
}

#[test]
fn test_plan_mode_rejects_all() {
    let engine = PolicyEngine::new(AgentMode::Plan, PermissionProfile::default());
    let decision = engine.evaluate("read_file", false, None);
    assert!(matches!(decision.approval, ApprovalRequirement::Forbidden { .. }));
}

#[test]
fn test_trusted_mode_approves_all() {
    let engine = PolicyEngine::new(AgentMode::Trusted, PermissionProfile::default());
    let decision = engine.evaluate("shell_exec", true, None);
    assert_eq!(decision.approval, ApprovalRequirement::Skip);
}

#[test]
fn test_agent_mode_read_only_skips() {
    let engine = PolicyEngine::new(AgentMode::Agent, PermissionProfile::default());
    let decision = engine.evaluate("read_file", false, None);
    assert_eq!(decision.approval, ApprovalRequirement::Skip);
}

#[test]
fn test_agent_mode_mutating_needs_approval() {
    let engine = PolicyEngine::new(AgentMode::Agent, PermissionProfile::default());
    let decision = engine.evaluate("write_file", true, None);
    assert!(matches!(decision.approval, ApprovalRequirement::NeedsApproval { .. }));
}

#[test]
fn test_agent_mode_denied_permission() {
    let profile = PermissionProfile::new().deny(PermissionType::ShellExec);
    let engine = PolicyEngine::new(AgentMode::Agent, profile);
    let decision = engine.evaluate("shell_exec", true, Some(&PermissionType::ShellExec));
    assert!(matches!(decision.approval, ApprovalRequirement::Forbidden { .. }));
}

#[test]
fn a_refusal_names_the_permission() {
    let profile = PermissionProfile::new().deny(PermissionType::Other("a\"b".into()));
    let engine = PolicyEngine::new(AgentMode::Agent, profile);
    let decision =
        engine.evaluate("t", true, Some(&PermissionType::Other("a\"b".into())));
    match decision.approval {
        ApprovalRequirement::Forbidden { reason } => assert!(reason.contains("Other(\"a\\\"b\")")),
        other => panic!("expected a refusal, got {other:?}"),
    }
}

#[test]
fn test_remember_approval_cache() {
    let mut engine = PolicyEngine::new(AgentMode::Agent, PermissionProfile::default());
    let decision1 = engine.evaluate("write_file", true, None);
    assert!(matches!(decision1.approval, ApprovalRequirement::NeedsApproval { .. }));

    engine.remember_approval("write_file");
    let decision2 = engine.evaluate("write_file", true, None);
    assert_eq!(decision2.approval, ApprovalRequirement::Skip);
}

#[test]
fn grants_can_be_revoked_and_are_kept_by_thread() {
    let mut engine = PolicyEngine::new(AgentMode::Agent, PermissionProfile::default());
    engine.grant_permission("write_file");
    assert!(engine.is_dynamically_granted("write_file", None));
    engine.revoke_permission("write_file");
    assert!(!engine.is_dynamically_granted("write_file", None));
    engine.grant_thread_permission("t1", "write_file");
    assert!(engine.is_dynamically_granted("write_file", Some("t1")));
    assert!(!engine.is_dynamically_granted("write_file", Some("t2")));
}

#[test]
fn test_permission_profile_default_allow() {
    let profile = PermissionProfile::new();
    assert!(profile.is_allowed(&PermissionType::FilesystemRead));
}

#[test]
fn test_permission_profile_default_deny() {
    let profile = PermissionProfile::new().with_default_deny();
    assert!(!profile.is_allowed(&PermissionType::Network));
}

#[test]
fn test_disabled_sandbox_always_no_sandbox() {
    let manager = SandboxManager::disabled(Platform::from_os("linux"));
    let decision = manager.decide("shell_exec", true, "/workspace");
    assert!(matches!(decision, SandboxDecision::NoSandbox));
}

#[test]
fn test_shell_exec_is_sandboxed() {
    let manager = SandboxManager::new(Platform::from_os("linux"));
    let decision = manager.decide("shell_exec", true, "/workspace");
    match decision {
        SandboxDecision::Sandbox(config) => {
            assert!(config.readwrite_paths.contains(&"/workspace".to_string()));
            assert!(!config.allow_network);
        }
        _ => panic!("expected Sandbox"),
    }
}

#[test]
fn test_read_file_no_sandbox() {
    let manager = SandboxManager::new(Platform::from_os("linux"));
    let decision = manager.decide("read_file", false, "/workspace");
    assert!(matches!(decision, SandboxDecision::NoSandbox));
}

#[test]
fn test_write_file_sandboxed() {
    let manager = SandboxManager::new(Platform::from_os("linux"));
    let decision = manager.decide("write_file", true, "/workspace");
    assert!(matches!(decision, SandboxDecision::Sandbox(_)));
}

#[test]
fn an_approval_is_remembered_for_its_tool_only() {
    let mut engine = PolicyEngine::new(AgentMode::Agent, PermissionProfile::default());
    engine.remember_approval("write_file");
    let remembered = engine.evaluate("write_file", true, None);
    assert_eq!(remembered.approval, ApprovalRequirement::Skip);
    let other = engine.evaluate("shell_exec", true, None);
    assert!(matches!(other.approval, ApprovalRequirement::NeedsApproval { .. }));
}

#[test]
fn the_layers_of_a_prompt_replace_one_another() {
    let built = PromptBuilder::new("default".into())
        .with_custom("custom".into())
        .with_agent("agent".into())
        .with_append("more".into())
        .build();
    assert_eq!(built.content, "agent\n\nmore");
}

#[test]
fn a_cleared_cache_asks_again() {
    let mut engine = PolicyEngine::new(AgentMode::Agent, PermissionProfile::default());
    engine.remember_approval("write_file");
    engine.clear_approval_cache();
    let decision = engine.evaluate("write_file", true, None);
    assert!(matches!(decision.approval, ApprovalRequirement::NeedsApproval { .. }));
    engine.set_mode(AgentMode::Trusted);
    assert_eq!(engine.mode(), AgentMode::Trusted);
    assert_eq!(engine.evaluate("write_file", true, None).approval, ApprovalRequirement::Skip);
}

#[test]
fn a_decision_says_how_a_sandbox_is_tried() {
    assert_eq!(
        SandboxAttempt::from_orchestrator_decision(true, false),
        SandboxAttempt::Required { escalate_on_deny: false }
    );
    assert_eq!(
        SandboxAttempt::from_orchestrator_decision(false, true),
        SandboxAttempt::PreferredWithEscalation
    );
    assert_eq!(
        SandboxAttempt::from_orchestrator_decision(false, false),
        SandboxAttempt::Disabled
    );
}
