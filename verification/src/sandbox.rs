//! The choice of a sandbox for a tool.

use crate::text;
use vstd::prelude::*;

verus! {

/// How a tool is first tried.
#[derive(Debug, Clone, Copy, PartialEq, Eq, Structural)]
pub enum SandboxAttempt {
    /// Without a sandbox.
    Disabled,
    /// In a sandbox, with or without a second try outside.
    Required { escalate_on_deny: bool },
    /// In a sandbox if possible.
    PreferredWithEscalation,
}

impl SandboxAttempt {
    pub fn from_orchestrator_decision(sandbox_required: bool, escalate_on_deny: bool) -> (r: Self)
        ensures
            r == (if sandbox_required {
                SandboxAttempt::Required { escalate_on_deny }
            } else if escalate_on_deny {
                SandboxAttempt::PreferredWithEscalation
            } else {
                SandboxAttempt::Disabled
            }),
    {
        if sandbox_required {
            SandboxAttempt::Required { escalate_on_deny }
        } else if escalate_on_deny {
            SandboxAttempt::PreferredWithEscalation
        } else {
            SandboxAttempt::Disabled
        }
    }
}

/// What a process in a sandbox may do.
#[derive(Debug, Clone)]
pub struct SandboxConfig {
    pub readonly_paths: Vec<String>,
    pub readwrite_paths: Vec<String>,
    pub allow_network: bool,
    /// More rules of the platform, in JSON.
    pub platform_rules: Option<String>,
}

/// Whether and how a tool is sandboxed.
#[derive(Debug, Clone)]
pub enum SandboxDecision {
    NoSandbox,
    Sandbox(SandboxConfig),
    Denied { reason: String },
}

/// The platforms that are told apart.
#[derive(Debug, Clone, Copy, PartialEq, Eq, Structural)]
pub enum Platform {
    MacOS,
    Linux,
    Windows,
    Unknown,
}

impl Platform {
    pub open spec fn name(self) -> Seq<char> {
        match self {
            Platform::MacOS => "macos"@,
            Platform::Linux => "linux"@,
            Platform::Windows => "windows"@,
            Platform::Unknown => "unknown"@,
        }
    }

    /// The platform that an operating system's name stands for.
    pub fn from_os(os: &str) -> (r: Self)
        ensures
            r == (if os@ == "macos"@ {
                Platform::MacOS
            } else if os@ == "linux"@ {
                Platform::Linux
            } else if os@ == "windows"@ {
                Platform::Windows
            } else {
                Platform::Unknown
            }),
    {
        if text::str_eq(os, "macos") {
            Platform::MacOS
        } else if text::str_eq(os, "linux") {
            Platform::Linux
        } else if text::str_eq(os, "windows") {
            Platform::Windows
        } else {
            Platform::Unknown
        }
    }

    pub fn as_str(&self) -> (r: &'static str)
        ensures
            r@ == self.name(),
    {
        match self {
            Platform::MacOS => "macos",
            Platform::Linux => "linux",
            Platform::Windows => "windows",
            Platform::Unknown => "unknown",
        }
    }
}

/// Whether a tool runs confined to the workspace: shell commands that mutate, and
/// the tools that write files.
pub open spec fn confined(tool_name: Seq<char>, is_mutating: bool) -> bool {
    ||| tool_name == "shell_exec"@ && is_mutating
    ||| tool_name == "write_file"@
    ||| tool_name == "apply_patch"@
}

/// The chooser of sandboxes.
#[derive(Debug)]
pub struct SandboxManager {
    platform: Platform,
    enabled: bool,
}

impl SandboxManager {
    pub closed spec fn on(&self) -> bool {
        self.enabled
    }

    pub closed spec fn runs_on(&self) -> Platform {
        self.platform
    }

    pub fn new(platform: Platform) -> (r: Self)
        ensures
            r.on(),
            r.runs_on() == platform,
    {
        SandboxManager { platform, enabled: true }
    }

    /// The manager that never sandboxes.
    pub fn disabled(platform: Platform) -> (r: Self)
        ensures
            !r.on(),
            r.runs_on() == platform,
    {
        SandboxManager { platform, enabled: false }
    }

    pub fn is_enabled(&self) -> (r: bool)
        ensures
            r == self.on(),
    {
        self.enabled
    }

    pub fn platform(&self) -> (r: Platform)
        ensures
            r == self.runs_on(),
    {
        self.platform
    }

    /// Decides whether a tool is sandboxed. A confined tool may read and write the
    /// workspace and nothing else, and has no network.
    pub fn decide(&self, tool_name: &str, is_mutating: bool, workspace_path: &str) -> (r:
        SandboxDecision)
        ensures
            if self.on() && confined(tool_name@, is_mutating) {
                &&& r matches SandboxDecision::Sandbox(c)
                &&& c.readonly_paths@ == Seq::<String>::empty()
                &&& text::texts(c.readwrite_paths@) == seq![workspace_path@]
                &&& !c.allow_network
                &&& c.platform_rules is None
            } else {
                r is NoSandbox
            },
    {
        if !self.enabled {
            return SandboxDecision::NoSandbox;
        }
        if (text::str_eq(tool_name, "shell_exec") && is_mutating) || text::str_eq(
            tool_name,
            "write_file",
        ) || text::str_eq(tool_name, "apply_patch") {
            let mut paths: Vec<String> = Vec::new();
            paths.push(text::owned(workspace_path));
            assert(text::texts(paths@) =~= seq![workspace_path@]);
            return SandboxDecision::Sandbox(
                SandboxConfig {
                    readonly_paths: Vec::new(),
                    readwrite_paths: paths,
                    allow_network: false,
                    platform_rules: None,
                },
            );
        }
        SandboxDecision::NoSandbox
    }

    /// The command as it is run in the sandbox. No platform changes it so far.
    pub fn apply(&self, command: &[String], _config: &SandboxConfig) -> (r: Vec<String>)
        ensures
            r@ == command@,
    {
        let mut out: Vec<String> = Vec::new();
        let mut i: usize = 0;
        while i < command.len()
            invariant
                i <= command.len(),
                out@ == command@.take(i as int),
            decreases command.len() - i,
        {
            out.push(command[i].clone());
            assert(command@.take(i + 1) =~= command@.take(i as int).push(command@[i as int]));
            i = i + 1;
        }
        assert(command@.take(i as int) =~= command@);
        out
    }
}

/// What writes is confined: the two tools that write files in any case, the shell where it
/// mutates; no other tool is.
pub proof fn law_writers_are_confined(tool_name: Seq<char>, is_mutating: bool)
    ensures
        tool_name == "write_file"@ || tool_name == "apply_patch"@ ==> confined(
            tool_name,
            is_mutating,
        ),
        tool_name == "shell_exec"@ && is_mutating ==> confined(tool_name, is_mutating),
        tool_name != "shell_exec"@ && tool_name != "write_file"@ && tool_name != "apply_patch"@
            ==> !confined(tool_name, is_mutating),
        !confined("shell_exec"@, false),
{
    reveal_strlit("shell_exec");
    reveal_strlit("write_file");
    reveal_strlit("apply_patch");
    assert("shell_exec"@[0] == 's');
    assert("write_file"@[0] == 'w');
    assert("apply_patch"@[0] == 'a');
}

/// A platform is named as the system names itself.
pub proof fn law_platforms_are_named(p: Platform)
    ensures
        p is MacOS ==> p.name() == "macos"@,
        p is Linux ==> p.name() == "linux"@,
        p is Windows ==> p.name() == "windows"@,
        p is Unknown ==> p.name() == "unknown"@,
{
}

} // verus!
