//! The registry of optional features.

use vstd::prelude::*;

verus! {

/// How far a feature has come.
#[derive(Debug, Clone, Copy, PartialEq, Eq, Structural)]
pub enum Stage {
    UnderDevelopment,
    Experimental,
    Stable,
    Deprecated,
}

/// The optional features.
#[derive(Debug, Clone, Copy, PartialEq, Eq, Hash, Structural)]
pub enum Capability {
    ComputerUse,
    McpServers,
    Plugins,
    SubAgent,
    RemoteWorker,
    Hooks,
    Skills,
    WebSearch,
    LspDiagnostics,
}

impl Capability {
    /// The stage of a feature.
    pub open spec fn level(self) -> Stage {
        match self {
            Capability::ComputerUse => Stage::UnderDevelopment,
            Capability::McpServers => Stage::Stable,
            Capability::Plugins => Stage::Stable,
            Capability::SubAgent => Stage::Experimental,
            Capability::RemoteWorker => Stage::UnderDevelopment,
            Capability::Hooks => Stage::Stable,
            Capability::Skills => Stage::Stable,
            Capability::WebSearch => Stage::UnderDevelopment,
            Capability::LspDiagnostics => Stage::Experimental,
        }
    }

    /// The name of a feature.
    pub open spec fn name(self) -> Seq<char> {
        match self {
            Capability::ComputerUse => "computer-use"@,
            Capability::McpServers => "mcp-servers"@,
            Capability::Plugins => "plugins"@,
            Capability::SubAgent => "sub-agent"@,
            Capability::RemoteWorker => "remote-worker"@,
            Capability::Hooks => "hooks"@,
            Capability::Skills => "skills"@,
            Capability::WebSearch => "web-search"@,
            Capability::LspDiagnostics => "lsp-diagnostics"@,
        }
    }

    pub fn stage(&self) -> (r: Stage)
        ensures
            r == self.level(),
    {
        match self {
            Capability::ComputerUse => Stage::UnderDevelopment,
            Capability::McpServers => Stage::Stable,
            Capability::Plugins => Stage::Stable,
            Capability::SubAgent => Stage::Experimental,
            Capability::RemoteWorker => Stage::UnderDevelopment,
            Capability::Hooks => Stage::Stable,
            Capability::Skills => Stage::Stable,
            Capability::WebSearch => Stage::UnderDevelopment,
            Capability::LspDiagnostics => Stage::Experimental,
        }
    }

    /// Stable features are on unless they are switched off.
    pub fn default_enabled(&self) -> (r: bool)
        ensures
            r == (self.level() == Stage::Stable),
    {
        match self.stage() {
            Stage::Stable => true,
            _ => false,
        }
    }

    pub fn as_str(&self) -> (r: &'static str)
        ensures
            r@ == self.name(),
    {
        match self {
            Capability::ComputerUse => "computer-use",
            Capability::McpServers => "mcp-servers",
            Capability::Plugins => "plugins",
            Capability::SubAgent => "sub-agent",
            Capability::RemoteWorker => "remote-worker",
            Capability::Hooks => "hooks",
            Capability::Skills => "skills",
            Capability::WebSearch => "web-search",
            Capability::LspDiagnostics => "lsp-diagnostics",
        }
    }
}

/// The features that are on.
#[derive(Debug, Clone)]
pub struct CapabilityRegistry {
    enabled: Vec<Capability>,
}

impl View for CapabilityRegistry {
    type V = Set<Capability>;

    closed spec fn view(&self) -> Set<Capability> {
        self.enabled@.to_set()
    }
}

impl CapabilityRegistry {
    /// The registry in which exactly the stable features are on.
    pub fn new() -> (r: Self)
        ensures
            forall|c: Capability| r@.contains(c) <==> c.level() == Stage::Stable,
    {
        let mut r = CapabilityRegistry::default();
        r.enable(Capability::McpServers);
        r.enable(Capability::Plugins);
        r.enable(Capability::Hooks);
        r.enable(Capability::Skills);
        r
    }

    pub fn enable(&mut self, cap: Capability)
        ensures
            final(self)@ == old(self)@.insert(cap),
    {
        let ghost before = self.enabled@;
        if !self.is_enabled(cap) {
            self.enabled.push(cap);
            proof {
                crate::table::lemma_push_to_set(before, cap);
            }
        } else {
            assert(self@ =~= self@.insert(cap));
        }
    }

    pub fn disable(&mut self, cap: Capability)
        ensures
            final(self)@ == old(self)@.remove(cap),
    {
        let ghost before = self.enabled@;
        let mut kept: Vec<Capability> = Vec::new();
        let mut i: usize = 0;
        assert(kept@.to_set() =~= before.take(0).to_set().remove(cap));
        while i < self.enabled.len()
            invariant
                i <= self.enabled.len(),
                self.enabled@ == before,
                kept@.to_set() == before.take(i as int).to_set().remove(cap),
            decreases self.enabled.len() - i,
        {
            let c = self.enabled[i];
            proof {
                assert(before.take(i + 1) =~= before.take(i as int).push(c));
                crate::table::lemma_push_to_set(before.take(i as int), c);
                crate::table::lemma_push_to_set(kept@, c);
            }
            if c != cap {
                kept.push(c);
            }
            i = i + 1;
            assert(kept@.to_set() =~= before.take(i as int).to_set().remove(cap));
        }
        assert(before.take(i as int) =~= before);
        self.enabled = kept;
        assert(self@ =~= before.to_set().remove(cap));
    }

    pub fn is_enabled(&self, cap: Capability) -> (r: bool)
        ensures
            r == self@.contains(cap),
    {
        let mut i: usize = 0;
        while i < self.enabled.len()
            invariant
                i <= self.enabled.len(),
                forall|j: int| 0 <= j < i ==> self.enabled@[j] != cap,
            decreases self.enabled.len() - i,
        {
            if self.enabled[i] == cap {
                assert(self.enabled@.contains(cap));
                return true;
            }
            i = i + 1;
        }
        false
    }
}

impl Default for CapabilityRegistry {
    /// The registry in which nothing is on.
    fn default() -> (r: Self)
        ensures
            r@ == Set::<Capability>::empty(),
    {
        let r = CapabilityRegistry { enabled: Vec::new() };
        assert(r@ =~= Set::<Capability>::empty());
        r
    }
}

/// What is switched on is on, what is switched off is off, and neither touches any
/// other feature.
pub proof fn law_switches(on: Set<Capability>, cap: Capability, other: Capability)
    requires
        other != cap,
    ensures
        on.insert(cap).contains(cap),
        !on.remove(cap).contains(cap),
        on.insert(cap).contains(other) == on.contains(other),
        on.remove(cap).contains(other) == on.contains(other),
        !on.contains(cap) ==> on.insert(cap).remove(cap) == on,
{
    if !on.contains(cap) {
        assert(on.insert(cap).remove(cap) =~= on);
    }
}

/// Which features are on from the start: servers of tools, plugins, hooks and skills, and no
/// others.
pub proof fn law_stable_features(c: Capability)
    ensures
        c.level() is Stable <==> (c is McpServers || c is Plugins || c is Hooks || c is Skills),
        c.level() is Experimental <==> (c is SubAgent || c is LspDiagnostics),
        c.level() is UnderDevelopment <==> (c is ComputerUse || c is RemoteWorker
            || c is WebSearch),
{
}

/// Features have names of their own.
pub proof fn law_features_are_named(c: Capability)
    ensures
        c is ComputerUse ==> c.name() == "computer-use"@,
        c is McpServers ==> c.name() == "mcp-servers"@,
        c is Plugins ==> c.name() == "plugins"@,
        c is SubAgent ==> c.name() == "sub-agent"@,
        c is RemoteWorker ==> c.name() == "remote-worker"@,
        c is Hooks ==> c.name() == "hooks"@,
        c is Skills ==> c.name() == "skills"@,
        c is WebSearch ==> c.name() == "web-search"@,
        c is LspDiagnostics ==> c.name() == "lsp-diagnostics"@,
{
}

} // verus!
