//! The construction of a runtime: what a builder was told, and the state that a runtime
//! starts with.

use super::projection::ProjectionService;
use super::submit::TurnDefaults;
use super::threads::{ActiveThreads, ActiveView};
use crate::config::ResolvedConfig;
use crate::deepseek::provider::{DeepSeekProvider, ProviderView, DEFAULT_DEEPSEEK_MODEL};
use crate::engine::agent_control::AgentControl;
use crate::engine::approval::{ApprovalCoordinator, PendingApproval};
use crate::policy::{AgentMode, GrantsView, PermissionProfile, PolicyEngine, PolicyView};
use crate::protocol::agent::AgentInfo;
use crate::protocol::permission::{PermissionType, PermissionView};
use crate::text;
use vstd::prelude::*;

verus! {

/// The most agents that a runtime runs.
pub const MAX_AGENTS: usize = 16;

/// How deep agents may spawn others.
pub const MAX_AGENT_DEPTH: u32 = 4;

/// What a runtime is built from.
#[derive(Debug)]
pub struct RuntimeBuilder {
    workspace: Option<String>,
    config: Option<ResolvedConfig>,
    state_path: Option<String>,
}

/// What a builder was told in the end.
#[derive(Debug)]
pub struct BuildPlan {
    /// The workspace, which decides on the configuration of the workspace.
    pub workspace: Option<String>,
    /// The directory that tools work in.
    pub tools_workspace: String,
    /// The configuration; it is to be loaded where there is none.
    pub config: Option<ResolvedConfig>,
    pub state_path: Option<String>,
}

impl RuntimeBuilder {
    pub closed spec fn told_workspace(&self) -> Option<String> {
        self.workspace
    }

    pub closed spec fn told_config(&self) -> Option<ResolvedConfig> {
        self.config
    }

    pub closed spec fn told_state_path(&self) -> Option<String> {
        self.state_path
    }

    pub fn new() -> (r: Self)
        ensures
            r.told_workspace() is None,
            r.told_config() is None,
            r.told_state_path() is None,
    {
        RuntimeBuilder { workspace: None, config: None, state_path: None }
    }

    pub fn workspace(self, path: String) -> (r: Self)
        ensures
            r.told_workspace() == Some(path),
            r.told_config() == self.told_config(),
            r.told_state_path() == self.told_state_path(),
    {
        RuntimeBuilder { workspace: Some(path), ..self }
    }

    pub fn config(self, config: ResolvedConfig) -> (r: Self)
        ensures
            r.told_workspace() == self.told_workspace(),
            r.told_config() == Some(config),
            r.told_state_path() == self.told_state_path(),
    {
        RuntimeBuilder { config: Some(config), ..self }
    }

    pub fn state_path(self, path: String) -> (r: Self)
        ensures
            r.told_workspace() == self.told_workspace(),
            r.told_config() == self.told_config(),
            r.told_state_path() == Some(path),
    {
        RuntimeBuilder { state_path: Some(path), ..self }
    }

    /// What is to be built. Tools work in the current directory where no workspace was
    /// named.
    pub fn plan(self) -> (r: BuildPlan)
        ensures
            r.workspace == self.told_workspace(),
            r.tools_workspace@ == (match self.told_workspace() {
                Some(w) => w@,
                None => "."@,
            }),
            r.config == self.told_config(),
            r.state_path == self.told_state_path(),
    {
        let tools_workspace = match &self.workspace {
            Some(w) => w.clone(),
            None => text::owned("."),
        };
        BuildPlan {
            workspace: self.workspace,
            tools_workspace,
            config: self.config,
            state_path: self.state_path,
        }
    }
}

impl Default for RuntimeBuilder {
    fn default() -> (r: Self)
        ensures
            r.told_workspace() is None,
            r.told_config() is None,
            r.told_state_path() is None,
    {
        RuntimeBuilder::new()
    }
}

/// The state that a runtime starts with.
#[derive(Debug)]
pub struct RuntimeCore {
    pub defaults: TurnDefaults,
    pub policy: PolicyEngine,
    pub agents: AgentControl,
    pub approvals: ApprovalCoordinator,
    pub threads: ActiveThreads,
    pub projections: ProjectionService,
    /// The provider that is there from the start, if its key is known.
    pub provider: Option<DeepSeekProvider>,
}

/// The profile that tools start with: files may be read and written.
pub open spec fn base_grants() -> GrantsView {
    GrantsView {
        allowed: GrantsView::start().allowed.insert(PermissionView::FilesystemRead).insert(
            PermissionView::FilesystemWrite,
        ),
        ..GrantsView::start()
    }
}

impl RuntimeCore {
    /// Sets a runtime up for a configuration.
    pub fn new(config: &ResolvedConfig) -> (r: Self)
        ensures
            r.policy.wf(),
            r.approvals.wf(),
            r.threads.wf(),
            r.projections.wf(),
            r.agents.registry.wf(),
            r.defaults.model@ == config.model@,
            r.defaults.provider@ == config.provider.name(),
            r.defaults.mode == AgentMode::Agent,
            r.policy@ == PolicyView::start(AgentMode::Agent, base_grants()),
            r.agents.max_total == MAX_AGENTS,
            r.agents.max_depth == MAX_AGENT_DEPTH,
            r.agents.registry.active() == Map::<Seq<char>, AgentInfo>::empty(),
            r.agents.registry.taken() == 0,
            r.approvals.waiting() == Map::<Seq<char>, PendingApproval>::empty(),
            r.threads@ == Map::<Seq<char>, ActiveView>::empty(),
            r.projections.threads() == Set::<Seq<char>>::empty(),
            match config.api_key {
                Some(key) => r.provider matches Some(p) && p@ == (ProviderView {
                    api_key: key@,
                    base_url: config.base_url@,
                    default_model: DEFAULT_DEEPSEEK_MODEL@,
                    last_usage: None,
                }),
                None => r.provider is None,
            },
    {
        let profile = PermissionProfile::new().allow(PermissionType::FilesystemRead).allow(
            PermissionType::FilesystemWrite,
        );
        let provider = match &config.api_key {
            Some(key) => Some(
                DeepSeekProvider::new(key.clone()).with_base_url(config.base_url.clone()),
            ),
            None => None,
        };
        RuntimeCore {
            defaults: TurnDefaults {
                model: config.model.clone(),
                provider: text::owned(config.provider.as_str()),
                mode: AgentMode::Agent,
            },
            policy: PolicyEngine::new(AgentMode::Agent, profile),
            agents: AgentControl::new(MAX_AGENTS, MAX_AGENT_DEPTH),
            approvals: ApprovalCoordinator::new(),
            threads: ActiveThreads::new(),
            projections: ProjectionService::new(),
            provider,
        }
    }
}

/// A runtime starts out letting tools read and write files, denies nothing, and lets through
/// what it does not name.
pub proof fn law_runtime_starts_open(p: PermissionView)
    ensures
        base_grants().allowed.contains(p) <==> p is FilesystemRead || p is FilesystemWrite,
        !base_grants().denied.contains(p),
        !base_grants().default_deny,
        base_grants().permits(p),
{
}

} // verus!
