//! Sandbox policy of a session.

use vstd::prelude::*;

verus! {

/// Which sandbox a tool runs in.
#[derive(Debug, Clone, Copy, PartialEq, Eq, Structural)]
pub enum SandboxMode {
    /// No sandbox.
    Unsandboxed,
    /// The Seatbelt sandbox of macOS.
    Seatbelt,
    /// The Landlock sandbox of Linux.
    Landlock,
    /// The best sandbox that the platform has.
    Auto,
}

/// How sandboxes are chosen.
#[derive(Debug, Clone)]
pub struct SandboxPolicy {
    pub mode: SandboxMode,
    /// Sandbox mutating tools whatever the mode of the agent.
    pub always_sandbox_mutating: bool,
    pub allowed_paths: Vec<String>,
    pub readonly_paths: Vec<String>,
    pub allow_network: bool,
}

/// The mode where none is configured.
pub fn default_sandbox_mode() -> (r: SandboxMode)
    ensures
        r == SandboxMode::Auto,
{
    SandboxMode::Auto
}

impl Default for SandboxPolicy {
    fn default() -> (r: Self)
        ensures
            r.mode == SandboxMode::Auto,
            r.always_sandbox_mutating,
            r.allowed_paths@ == Seq::<String>::empty(),
            r.readonly_paths@ == Seq::<String>::empty(),
            !r.allow_network,
    {
        SandboxPolicy {
            mode: default_sandbox_mode(),
            always_sandbox_mutating: true,
            allowed_paths: Vec::new(),
            readonly_paths: Vec::new(),
            allow_network: false,
        }
    }
}

} // verus!
