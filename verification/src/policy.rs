//! Approval, permission and network policy for tool calls.

use crate::digest;
use crate::protocol::id;
use crate::protocol::permission::{PermissionType, PermissionView};
use crate::table::Table;
use crate::text;
use vstd::prelude::*;

verus! {

/// What the agent may do without asking.
#[derive(Debug, Clone, Copy, PartialEq, Eq, Structural)]
pub enum AgentMode {
    /// Exploration only; no tool runs.
    Plan,
    /// Mutating tools need approval.
    Agent,
    /// Every tool runs.
    Trusted,
}

impl AgentMode {
    pub open spec fn name(self) -> Seq<char> {
        match self {
            AgentMode::Plan => "plan"@,
            AgentMode::Agent => "agent"@,
            AgentMode::Trusted => "trusted"@,
        }
    }

    pub fn as_str(&self) -> (r: &'static str)
        ensures
            r@ == self.name(),
    {
        match self {
            AgentMode::Plan => "plan",
            AgentMode::Agent => "agent",
            AgentMode::Trusted => "trusted",
        }
    }
}

/// Whether a tool call has to be approved.
#[derive(Debug, Clone, PartialEq, Eq)]
pub enum ApprovalRequirement {
    /// It runs at once.
    Skip,
    /// A host has to approve it.
    NeedsApproval { reason: String, approval_id: String },
    /// It never runs.
    Forbidden { reason: String },
}

/// An approval requirement, over plain texts.
pub enum RequirementView {
    Skip,
    NeedsApproval { reason: Seq<char>, approval_id: Seq<char> },
    Forbidden { reason: Seq<char> },
}

impl View for ApprovalRequirement {
    type V = RequirementView;

    open spec fn view(&self) -> RequirementView {
        match *self {
            ApprovalRequirement::Skip => RequirementView::Skip,
            ApprovalRequirement::NeedsApproval { reason, approval_id } =>
                RequirementView::NeedsApproval { reason: reason@, approval_id: approval_id@ },
            ApprovalRequirement::Forbidden { reason } => RequirementView::Forbidden {
                reason: reason@,
            },
        }
    }
}

/// The permissions of an agent: two sets and a default.
#[derive(Debug)]
pub struct PermissionProfile {
    pub allowed: Vec<PermissionType>,
    pub denied: Vec<PermissionType>,
    pub default_deny: bool,
}

/// A permission profile, as sets.
pub struct GrantsView {
    pub allowed: Set<PermissionView>,
    pub denied: Set<PermissionView>,
    pub default_deny: bool,
}

impl GrantsView {
    /// Denied permissions never pass, allowed ones that are not denied do, and the
    /// default decides of the rest.
    pub open spec fn permits(self, p: PermissionView) -> bool {
        !self.denied.contains(p) && (self.allowed.contains(p) || !self.default_deny)
    }

    pub open spec fn start() -> GrantsView {
        GrantsView { allowed: Set::empty(), denied: Set::empty(), default_deny: false }
    }
}

impl View for PermissionProfile {
    type V = GrantsView;

    open spec fn view(&self) -> GrantsView {
        GrantsView {
            allowed: crate::protocol::permission::permissions(self.allowed@).to_set(),
            denied: crate::protocol::permission::permissions(self.denied@).to_set(),
            default_deny: self.default_deny,
        }
    }
}

/// Puts a permission into a list that does not hold it yet.
fn add_permission(list: Vec<PermissionType>, p: PermissionType) -> (r: Vec<PermissionType>)
    ensures
        crate::protocol::permission::permissions(r@).to_set()
            == crate::protocol::permission::permissions(list@).to_set().insert(p@),
{
    let ghost before = crate::protocol::permission::permissions(list@);
    if crate::protocol::permission::has_permission(&list, &p) {
        assert(before.to_set() =~= before.to_set().insert(p@));
        return list;
    }
    let mut out = list;
    out.push(p);
    let ghost after = crate::protocol::permission::permissions(out@);
    assert(after =~= before.push(p@));
    proof {
        crate::table::lemma_push_to_set(before, p@);
    }
    assert(after.to_set() =~= before.to_set().insert(p@));
    out
}

impl PermissionProfile {
    pub fn new() -> (r: Self)
        ensures
            r@ == GrantsView::start(),
    {
        let r = PermissionProfile { allowed: Vec::new(), denied: Vec::new(), default_deny: false };
        assert(r@.allowed =~= Set::empty());
        assert(r@.denied =~= Set::empty());
        r
    }

    pub fn allow(self, p: PermissionType) -> (r: Self)
        ensures
            r@ == (GrantsView { allowed: self@.allowed.insert(p@), ..self@ }),
    {
        PermissionProfile { allowed: add_permission(self.allowed, p), denied: self.denied, default_deny: self.default_deny }
    }

    pub fn deny(self, p: PermissionType) -> (r: Self)
        ensures
            r@ == (GrantsView { denied: self@.denied.insert(p@), ..self@ }),
    {
        PermissionProfile { allowed: self.allowed, denied: add_permission(self.denied, p), default_deny: self.default_deny }
    }

    pub fn with_default_deny(self) -> (r: Self)
        ensures
            r@ == (GrantsView { default_deny: true, ..self@ }),
    {
        let mut r = self;
        r.default_deny = true;
        r
    }

    pub fn is_allowed(&self, permission: &PermissionType) -> (r: bool)
        ensures
            r == self@.permits(permission@),
    {
        if crate::protocol::permission::has_permission(&self.denied, permission) {
            return false;
        }
        if crate::protocol::permission::has_permission(&self.allowed, permission) {
            return true;
        }
        !self.default_deny
    }
}

impl Default for PermissionProfile {
    fn default() -> (r: Self)
        ensures
            r@ == GrantsView::start(),
    {
        PermissionProfile::new()
    }
}

/// What a tool may reach on the network.
#[derive(Debug, Clone)]
pub enum NetworkPolicy {
    AllowAll,
    Allowlisted(Vec<String>),
    DenyAll,
    /// The user is asked for each new host.
    PromptPerHost { approved_hosts: Vec<String> },
}

impl Default for NetworkPolicy {
    fn default() -> (r: Self)
        ensures
            r matches NetworkPolicy::PromptPerHost { approved_hosts } && approved_hosts@.len() == 0,
    {
        NetworkPolicy::PromptPerHost { approved_hosts: Vec::new() }
    }
}

/// What the engine decides of a tool call.
#[derive(Debug, Clone)]
pub struct PolicyDecision {
    pub approval: ApprovalRequirement,
    pub sandbox_required: bool,
    pub network_policy: NetworkPolicy,
}

/// The text that names a permission in a refusal.
pub open spec fn permission_text(p: PermissionView) -> Seq<char> {
    match p {
        PermissionView::FilesystemRead => "FilesystemRead"@,
        PermissionView::FilesystemWrite => "FilesystemWrite"@,
        PermissionView::Network => "Network"@,
        PermissionView::NetworkGithub => "NetworkGithub"@,
        PermissionView::NetworkGitlab => "NetworkGitlab"@,
        PermissionView::NetworkApi => "NetworkApi"@,
        PermissionView::ShellExec => "ShellExec"@,
        PermissionView::ShellInstall => "ShellInstall"@,
        PermissionView::ScreenCapture => "ScreenCapture"@,
        PermissionView::InputControl => "InputControl"@,
        PermissionView::WindowInspect => "WindowInspect"@,
        PermissionView::ClipboardRead => "ClipboardRead"@,
        PermissionView::ClipboardWrite => "ClipboardWrite"@,
        PermissionView::Other(name) => "Other("@ + text::debug_form(name) + ")"@,
    }
}

fn permission_name(p: &PermissionType) -> (r: String)
    ensures
        r@ == permission_text(p@),
{
    match p {
        PermissionType::FilesystemRead => text::owned("FilesystemRead"),
        PermissionType::FilesystemWrite => text::owned("FilesystemWrite"),
        PermissionType::Network => text::owned("Network"),
        PermissionType::NetworkGithub => text::owned("NetworkGithub"),
        PermissionType::NetworkGitlab => text::owned("NetworkGitlab"),
        PermissionType::NetworkApi => text::owned("NetworkApi"),
        PermissionType::ShellExec => text::owned("ShellExec"),
        PermissionType::ShellInstall => text::owned("ShellInstall"),
        PermissionType::ScreenCapture => text::owned("ScreenCapture"),
        PermissionType::InputControl => text::owned("InputControl"),
        PermissionType::WindowInspect => text::owned("WindowInspect"),
        PermissionType::ClipboardRead => text::owned("ClipboardRead"),
        PermissionType::ClipboardWrite => text::owned("ClipboardWrite"),
        PermissionType::Other(name) => {
            let d = text::debug_text(name.as_str());
            text::cat3("Other(", d.as_str(), ")")
        },
    }
}

/// The key under which the approval of a mutating tool is remembered.
pub open spec fn approval_key(tool_name: Seq<char>) -> Seq<char> {
    tool_name + ":mutating"@
}

/// The state of a policy engine, over plain texts.
pub struct PolicyView {
    pub mode: AgentMode,
    pub profile: GrantsView,
    /// The keys of remembered approvals.
    pub approvals: Set<Seq<char>>,
    /// Tools granted for the session.
    pub grants: Set<Seq<char>>,
    /// Tools granted for single threads, as pairs of thread and tool.
    pub thread_grants: Set<(Seq<char>, Seq<char>)>,
}

impl PolicyView {
    pub open spec fn start(mode: AgentMode, profile: GrantsView) -> PolicyView {
        PolicyView {
            mode,
            profile,
            approvals: Set::empty(),
            grants: Set::empty(),
            thread_grants: Set::empty(),
        }
    }

    /// Whether a call that needs approval gets by without: the mode decides first,
    /// then whether the tool mutates, then the permission, then what is remembered.
    pub open spec fn requirement(
        self,
        tool_name: Seq<char>,
        is_mutating: bool,
        permission: Option<PermissionView>,
        approval_id: Seq<char>,
    ) -> RequirementView {
        if self.mode == AgentMode::Plan {
            RequirementView::Forbidden { reason: "plan mode does not allow tool execution"@ }
        } else if self.mode == AgentMode::Trusted || !is_mutating {
            RequirementView::Skip
        } else if permission is Some && !self.profile.permits(permission->0) {
            RequirementView::Forbidden {
                reason: "permission '"@ + permission_text(permission->0) + "' is denied"@,
            }
        } else if self.approvals.contains(approval_key(tool_name)) {
            RequirementView::Skip
        } else {
            RequirementView::NeedsApproval {
                reason: "mutating tool '"@ + tool_name + "' requires approval"@,
                approval_id,
            }
        }
    }

    /// The network policy of a call: none where the call is forbidden, all in
    /// trusted mode, and per-host prompts otherwise.
    pub open spec fn network_is(
        self,
        is_mutating: bool,
        permission: Option<PermissionView>,
        n: NetworkPolicy,
    ) -> bool {
        if self.mode == AgentMode::Plan {
            n is DenyAll
        } else if self.mode == AgentMode::Trusted {
            n is AllowAll
        } else if is_mutating && permission is Some && !self.profile.permits(permission->0) {
            n is DenyAll
        } else {
            n matches NetworkPolicy::PromptPerHost { approved_hosts } && approved_hosts@.len() == 0
        }
    }

    /// Whether a tool is granted, for the session or for the thread.
    pub open spec fn granted(self, tool_name: Seq<char>, thread_id: Option<Seq<char>>) -> bool {
        ||| self.grants.contains(tool_name)
        ||| thread_id is Some && self.thread_grants.contains((thread_id->0, tool_name))
    }
}

/// An optional permission, over plain texts.
pub open spec fn opt_permission(p: Option<&PermissionType>) -> Option<PermissionView> {
    match p {
        Some(p) => Some(p@),
        None => None,
    }
}

/// The policy engine of a session.
#[derive(Debug)]
pub struct PolicyEngine {
    mode: AgentMode,
    base_profile: PermissionProfile,
    approval_cache: Table<()>,
    dynamic_grants: Table<()>,
    thread_grants: Table<Table<()>>,
}

impl View for PolicyEngine {
    type V = PolicyView;

    closed spec fn view(&self) -> PolicyView {
        PolicyView {
            mode: self.mode,
            profile: self.base_profile@,
            approvals: self.approval_cache@.dom(),
            grants: self.dynamic_grants@.dom(),
            thread_grants: Set::new(
                |p: (Seq<char>, Seq<char>)|
                    self.thread_grants@.dom().contains(p.0) && self.thread_grants@[p.0]@.dom().contains(
                        p.1,
                    ),
            ),
        }
    }
}

impl PolicyEngine {
    pub closed spec fn wf(&self) -> bool {
        &&& self.approval_cache.wf()
        &&& self.dynamic_grants.wf()
        &&& self.thread_grants.wf()
        &&& forall|t: Seq<char>|
            #[trigger] self.thread_grants@.dom().contains(t) ==> self.thread_grants@[t].wf()
    }

    pub fn new(mode: AgentMode, base_profile: PermissionProfile) -> (r: Self)
        ensures
            r.wf(),
            r@ == PolicyView::start(mode, base_profile@),
    {
        let r = PolicyEngine {
            mode,
            base_profile,
            approval_cache: Table::new(),
            dynamic_grants: Table::new(),
            thread_grants: Table::new(),
        };
        assert(r@.approvals =~= Set::empty());
        assert(r@.grants =~= Set::empty());
        assert(r@.thread_grants =~= Set::empty());
        r
    }

    pub fn mode(&self) -> (r: AgentMode)
        ensures
            r == self@.mode,
    {
        self.mode
    }

    pub fn set_mode(&mut self, mode: AgentMode)
        requires
            old(self).wf(),
        ensures
            final(self).wf(),
            final(self)@ == (PolicyView { mode, ..old(self)@ }),
    {
        self.mode = mode;
    }

    /// Decides of a tool call; an approval that is needed gets the given id.
    pub fn evaluate_with_id(
        &self,
        tool_name: &str,
        is_mutating: bool,
        permission: Option<&PermissionType>,
        approval_id: String,
    ) -> (r: PolicyDecision)
        requires
            self.wf(),
        ensures
            r.approval@ == self@.requirement(
                tool_name@,
                is_mutating,
                opt_permission(permission),
                approval_id@,
            ),
            self@.network_is(is_mutating, opt_permission(permission), r.network_policy),
            !r.sandbox_required,
    {
        match self.mode {
            AgentMode::Plan => {
                return PolicyDecision {
                    approval: ApprovalRequirement::Forbidden {
                        reason: text::owned("plan mode does not allow tool execution"),
                    },
                    sandbox_required: false,
                    network_policy: NetworkPolicy::DenyAll,
                };
            },
            AgentMode::Trusted => {
                return PolicyDecision {
                    approval: ApprovalRequirement::Skip,
                    sandbox_required: false,
                    network_policy: NetworkPolicy::AllowAll,
                };
            },
            AgentMode::Agent => {},
        }
        if !is_mutating {
            return PolicyDecision {
                approval: ApprovalRequirement::Skip,
                sandbox_required: false,
                network_policy: NetworkPolicy::default(),
            };
        }
        if let Some(p) = permission {
            if !self.base_profile.is_allowed(p) {
                let name = permission_name(p);
                return PolicyDecision {
                    approval: ApprovalRequirement::Forbidden {
                        reason: text::cat3("permission '", name.as_str(), "' is denied"),
                    },
                    sandbox_required: false,
                    network_policy: NetworkPolicy::DenyAll,
                };
            }
        }
        let key = text::cat(tool_name, ":mutating");
        if self.approval_cache.contains(key.as_str()) {
            return PolicyDecision {
                approval: ApprovalRequirement::Skip,
                sandbox_required: false,
                network_policy: NetworkPolicy::default(),
            };
        }
        PolicyDecision {
            approval: ApprovalRequirement::NeedsApproval {
                reason: text::cat3("mutating tool '", tool_name, "' requires approval"),
                approval_id,
            },
            sandbox_required: false,
            network_policy: NetworkPolicy::default(),
        }
    }

    /// Decides of a tool call. An approval that is needed gets a new id.
    pub fn evaluate(
        &self,
        tool_name: &str,
        is_mutating: bool,
        permission: Option<&PermissionType>,
    ) -> (r: PolicyDecision)
        requires
            self.wf(),
        ensures
            exists|approval_id: Seq<char>|
                id::is_fresh_id(approval_id, "approval-"@) && r.approval@
                    == #[trigger] self@.requirement(
                    tool_name@,
                    is_mutating,
                    opt_permission(permission),
                    approval_id,
                ),
            self@.network_is(is_mutating, opt_permission(permission), r.network_policy),
            !r.sandbox_required,
    {
        let uuid = digest::random_uuid();
        let approval_id = text::cat("approval-", uuid.as_str());
        proof {
            id::lemma_fresh_id("approval-"@, uuid@);
        }
        self.evaluate_with_id(tool_name, is_mutating, permission, approval_id)
    }

    /// Remembers the approval of a tool for the rest of the session.
    pub fn remember_approval(&mut self, tool_name: &str)
        requires
            old(self).wf(),
        ensures
            final(self).wf(),
            final(self)@ == (PolicyView {
                approvals: old(self)@.approvals.insert(approval_key(tool_name@)),
                ..old(self)@
            }),
    {
        let ghost before = self@;
        self.approval_cache.insert(text::cat(tool_name, ":mutating"), ());
        assert(self@.approvals =~= before.approvals.insert(approval_key(tool_name@)));
    }

    pub fn clear_approval_cache(&mut self)
        requires
            old(self).wf(),
        ensures
            final(self).wf(),
            final(self)@ == (PolicyView { approvals: Set::empty(), ..old(self)@ }),
    {
        self.approval_cache = Table::new();
        assert(self@.approvals =~= Set::empty());
    }

    pub fn grant_permission(&mut self, tool_pattern: &str)
        requires
            old(self).wf(),
        ensures
            final(self).wf(),
            final(self)@ == (PolicyView {
                grants: old(self)@.grants.insert(tool_pattern@),
                ..old(self)@
            }),
    {
        let ghost before = self@;
        self.dynamic_grants.insert(text::owned(tool_pattern), ());
        assert(self@.grants =~= before.grants.insert(tool_pattern@));
    }

    pub fn revoke_permission(&mut self, tool_pattern: &str)
        requires
            old(self).wf(),
        ensures
            final(self).wf(),
            final(self)@ == (PolicyView {
                grants: old(self)@.grants.remove(tool_pattern@),
                ..old(self)@
            }),
    {
        let ghost before = self@;
        let gone = self.dynamic_grants.remove(tool_pattern);
        assert(self@.grants =~= before.grants.remove(tool_pattern@));
    }

    /// Grants a tool for one thread.
    pub fn grant_thread_permission(&mut self, thread_id: &str, tool_pattern: &str)
        requires
            old(self).wf(),
        ensures
            final(self).wf(),
            final(self)@ == (PolicyView {
                thread_grants: old(self)@.thread_grants.insert((thread_id@, tool_pattern@)),
                ..old(self)@
            }),
    {
        let ghost before = *self;
        let mut set: Table<()> = match self.thread_grants.remove(thread_id) {
            Some(t) => t,
            None => Table::new(),
        };
        set.insert(text::owned(tool_pattern), ());
        self.thread_grants.insert(text::owned(thread_id), set);
        assert(self@.thread_grants =~= before@.thread_grants.insert((thread_id@, tool_pattern@)));
    }

    /// Whether a tool is granted, for the session or for the thread.
    pub fn is_dynamically_granted(&self, tool_name: &str, thread_id: Option<&str>) -> (r: bool)
        requires
            self.wf(),
        ensures
            r == self@.granted(
                tool_name@,
                match thread_id {
                    Some(t) => Some(t@),
                    None => None,
                },
            ),
    {
        if self.dynamic_grants.contains(tool_name) {
            return true;
        }
        if let Some(t) = thread_id {
            if let Some(set) = self.thread_grants.get(t) {
                return set.contains(tool_name);
            }
        }
        false
    }
}

/// In plan mode nothing runs, in trusted mode everything does, and reading needs no
/// approval in agent mode.
pub proof fn law_modes(
    p: PolicyView,
    tool: Seq<char>,
    is_mutating: bool,
    permission: Option<PermissionView>,
    approval_id: Seq<char>,
)
    ensures
        p.mode == AgentMode::Plan ==> p.requirement(tool, is_mutating, permission, approval_id)
            is Forbidden,
        p.mode == AgentMode::Trusted ==> p.requirement(tool, is_mutating, permission, approval_id)
            is Skip,
        p.mode == AgentMode::Agent && !is_mutating ==> p.requirement(
            tool,
            is_mutating,
            permission,
            approval_id,
        ) is Skip,
{
}

/// An approval that is remembered is not asked for again, until the memory is
/// cleared. It does not lift a denied permission.
pub proof fn law_remembered_approval(
    p: PolicyView,
    tool: Seq<char>,
    permission: Option<PermissionView>,
    approval_id: Seq<char>,
)
    requires
        p.mode == AgentMode::Agent,
    ensures
        ({
            let remembered = PolicyView { approvals: p.approvals.insert(approval_key(tool)), ..p };
            let cleared = PolicyView { approvals: Set::empty(), ..remembered };
            let denied = permission is Some && !p.profile.permits(permission->0);
            &&& !denied ==> remembered.requirement(tool, true, permission, approval_id) is Skip
            &&& denied ==> remembered.requirement(tool, true, permission, approval_id) is Forbidden
            &&& !denied ==> cleared.requirement(tool, true, permission, approval_id)
                is NeedsApproval
        }),
{
}

/// Remembering the approval of one tool does not change what is decided of another.
pub proof fn law_approvals_are_separate(
    p: PolicyView,
    tool: Seq<char>,
    other: Seq<char>,
    is_mutating: bool,
    permission: Option<PermissionView>,
    approval_id: Seq<char>,
)
    requires
        tool != other,
    ensures
        (PolicyView { approvals: p.approvals.insert(approval_key(tool)), ..p }).requirement(
            other,
            is_mutating,
            permission,
            approval_id,
        ) == p.requirement(other, is_mutating, permission, approval_id),
{
    if approval_key(tool) == approval_key(other) {
        assert(approval_key(tool).take(approval_key(tool).len() - ":mutating"@.len()) =~= tool);
        assert(approval_key(other).take(approval_key(other).len() - ":mutating"@.len()) =~= other);
    }
}

/// A grant for one thread holds in that thread only; a grant for the session holds
/// in every thread until it is revoked.
pub proof fn law_grants(
    p: PolicyView,
    tool: Seq<char>,
    thread: Seq<char>,
    other: Seq<char>,
)
    requires
        thread != other,
    ensures
        (PolicyView { thread_grants: p.thread_grants.insert((thread, tool)), ..p }).granted(
            tool,
            Some(thread),
        ),
        (PolicyView { thread_grants: p.thread_grants.insert((thread, tool)), ..p }).granted(
            tool,
            Some(other),
        ) == p.granted(tool, Some(other)),
        (PolicyView { grants: p.grants.insert(tool), ..p }).granted(tool, Some(other)),
        !(PolicyView { grants: p.grants.remove(tool), ..p }).granted(tool, None),
{
}

/// What is denied never passes; what is allowed and not denied does; of the rest the default
/// decides.
pub proof fn law_denial_comes_first(g: GrantsView, p: PermissionView)
    ensures
        g.denied.contains(p) ==> !g.permits(p),
        !g.denied.contains(p) && g.allowed.contains(p) ==> g.permits(p),
        !g.denied.contains(p) && !g.allowed.contains(p) ==> g.permits(p) == !g.default_deny,
        GrantsView::start().permits(p),
        !GrantsView::start().allowed.contains(p),
        !GrantsView::start().denied.contains(p),
{
}

/// A refusal says why, and what is asked of a host names the tool and carries the id of the
/// approval. Nothing is asked for but the approval of a mutating tool in agent mode that was
/// not approved before and whose permission is not denied.
pub proof fn law_refusals_say_why(
    p: PolicyView,
    tool: Seq<char>,
    is_mutating: bool,
    permission: Option<PermissionView>,
    approval_id: Seq<char>,
)
    ensures
        ({
            let r = p.requirement(tool, is_mutating, permission, approval_id);
            let denied = permission matches Some(q) && !p.profile.permits(q);
            &&& p.mode is Plan ==> (r matches RequirementView::Forbidden { reason } && reason
                == "plan mode does not allow tool execution"@)
            &&& p.mode is Agent && is_mutating && denied ==> (r matches RequirementView::Forbidden {
                reason,
            } && reason == "permission '"@ + permission_text(permission->0) + "' is denied"@)
            &&& r is NeedsApproval <==> p.mode is Agent && is_mutating && !denied
                && !p.approvals.contains(tool + ":mutating"@)
            &&& r matches RequirementView::NeedsApproval { reason, approval_id: id } ==> reason
                == "mutating tool '"@ + tool + "' requires approval"@ && id == approval_id
            &&& r is Skip <==> p.mode is Trusted || (p.mode is Agent && !is_mutating) || (
            p.mode is Agent && is_mutating && !denied && p.approvals.contains(tool + ":mutating"@))
        }),
{
}

/// A call that is forbidden reaches nothing; in trusted mode it reaches everything; any other
/// asks for each host and starts with none.
pub proof fn law_network_follows_the_decision(
    p: PolicyView,
    tool: Seq<char>,
    is_mutating: bool,
    permission: Option<PermissionView>,
    approval_id: Seq<char>,
    n: NetworkPolicy,
)
    requires
        p.network_is(is_mutating, permission, n),
    ensures
        p.requirement(tool, is_mutating, permission, approval_id) is Forbidden <==> n is DenyAll,
        p.mode is Trusted <==> n is AllowAll,
        !(n is DenyAll) && !(n is AllowAll) ==> (n matches NetworkPolicy::PromptPerHost {
            approved_hosts,
        } && approved_hosts@.len() == 0),
{
}

/// A tool is granted where the session grants it or the thread that it runs in does, and
/// nowhere else; an engine starts with nothing granted or approved.
pub proof fn law_granted_where_it_was_granted(
    p: PolicyView,
    tool: Seq<char>,
    thread: Seq<char>,
    mode: AgentMode,
    profile: GrantsView,
)
    ensures
        p.granted(tool, None) <==> p.grants.contains(tool),
        p.granted(tool, Some(thread)) <==> p.grants.contains(tool) || p.thread_grants.contains(
            (thread, tool),
        ),
        PolicyView::start(mode, profile).mode == mode,
        PolicyView::start(mode, profile).profile == profile,
        !PolicyView::start(mode, profile).granted(tool, Some(thread)),
        !PolicyView::start(mode, profile).approvals.contains(tool),
{
}

/// The approval of a tool is remembered under the name of the tool.
pub proof fn law_approvals_are_by_tool(tool: Seq<char>)
    ensures
        approval_key(tool) == tool + ":mutating"@,
        approval_key(tool).take(tool.len() as int) == tool,
{
    assert(approval_key(tool).take(tool.len() as int) =~= tool);
}

/// The modes have the names that settings give them.
pub proof fn law_modes_are_named(m: AgentMode)
    ensures
        m is Plan ==> m.name() == "plan"@,
        m is Agent ==> m.name() == "agent"@,
        m is Trusted ==> m.name() == "trusted"@,
{
}

/// A refusal names the very permission that is denied.
pub proof fn law_permissions_are_named(p: PermissionView)
    ensures
        p is FilesystemRead ==> permission_text(p) == "FilesystemRead"@,
        p is FilesystemWrite ==> permission_text(p) == "FilesystemWrite"@,
        p is Network ==> permission_text(p) == "Network"@,
        p is NetworkGithub ==> permission_text(p) == "NetworkGithub"@,
        p is NetworkGitlab ==> permission_text(p) == "NetworkGitlab"@,
        p is NetworkApi ==> permission_text(p) == "NetworkApi"@,
        p is ShellExec ==> permission_text(p) == "ShellExec"@,
        p is ShellInstall ==> permission_text(p) == "ShellInstall"@,
        p is ScreenCapture ==> permission_text(p) == "ScreenCapture"@,
        p is InputControl ==> permission_text(p) == "InputControl"@,
        p is WindowInspect ==> permission_text(p) == "WindowInspect"@,
        p is ClipboardRead ==> permission_text(p) == "ClipboardRead"@,
        p is ClipboardWrite ==> permission_text(p) == "ClipboardWrite"@,
        p matches PermissionView::Other(name) ==> permission_text(p) == "Other("@
            + text::debug_form(name) + ")"@,
{
}

/// What is seen of an approval requirement is all that it holds.
pub proof fn law_approval_requirement_is_seen_whole(a: ApprovalRequirement)
    ensures
        a is Skip ==> a@ is Skip,
        a matches ApprovalRequirement::NeedsApproval { reason, approval_id } ==> a@ == (RequirementView::NeedsApproval { reason: reason@, approval_id: approval_id@ }),
        a matches ApprovalRequirement::Forbidden { reason } ==> a@ == (RequirementView::Forbidden { reason: reason@, }),
{
}

/// A permission that is asked for is the one that is decided on.
pub proof fn law_asked_permission_is_seen(p: &PermissionType)
    ensures
        opt_permission(Some(p)) == Some(p@),
        opt_permission(None) is None,
{
}

} // verus!
