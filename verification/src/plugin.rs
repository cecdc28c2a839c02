//! Plugins: what their manifests declare, which of them are enabled, and what the
//! enabled ones contribute.

use crate::table::Table;
use crate::text;
use vstd::prelude::*;

verus! {

/// How a plugin is run.
#[derive(Debug)]
pub struct PluginRuntime {
    pub runtime_type: String,
}

/// How a plugin is run, over plain texts.
pub struct PluginRuntimeView {
    pub runtime_type: Seq<char>,
}

impl View for PluginRuntime {
    type V = PluginRuntimeView;

    open spec fn view(&self) -> PluginRuntimeView {
        PluginRuntimeView {
            runtime_type: self.runtime_type@,
        }
    }
}

impl Clone for PluginRuntime {
    fn clone(&self) -> (r: Self)
        ensures
            r@ == self@,
    {
        PluginRuntime {
            runtime_type: self.runtime_type.clone(),
        }
    }
}

/// How a plugin shows itself.
#[derive(Debug)]
pub struct PluginInterface {
    pub display_name: Option<String>,
    pub capabilities: Option<Vec<String>>,
}

/// How a plugin shows itself, over plain texts.
pub struct PluginInterfaceView {
    pub display_name: Option<Seq<char>>,
    pub capabilities: Option<Seq<Seq<char>>>,
}

impl View for PluginInterface {
    type V = PluginInterfaceView;

    open spec fn view(&self) -> PluginInterfaceView {
        PluginInterfaceView {
            display_name: text::opt_text(self.display_name),
            capabilities: match self.capabilities {
                Some(v) => Some(text::texts(v@)),
                None => None,
            },
        }
    }
}

impl Clone for PluginInterface {
    fn clone(&self) -> (r: Self)
        ensures
            r@ == self@,
    {
        PluginInterface {
            display_name: text::clone_opt(&self.display_name),
            capabilities: match &self.capabilities {
                Some(v) => Some(text::clone_texts(v)),
                None => None,
            },
        }
    }
}

/// The manifest of a plugin. Places are relative to the root of the plugin.
#[derive(Debug)]
pub struct PluginManifest {
    pub id: String,
    pub name: String,
    pub version: Option<String>,
    pub description: Option<String>,
    pub skills: Option<String>,
    pub tools: Option<String>,
    pub mcp_servers: Option<String>,
    pub hooks: Option<String>,
    pub commands: Option<String>,
    pub permissions: Vec<String>,
    pub runtime: Option<PluginRuntime>,
    pub interface: Option<PluginInterface>,
}

/// The manifest of a plugin, over plain texts.
pub struct PluginManifestView {
    pub id: Seq<char>,
    pub name: Seq<char>,
    pub version: Option<Seq<char>>,
    pub description: Option<Seq<char>>,
    pub skills: Option<Seq<char>>,
    pub tools: Option<Seq<char>>,
    pub mcp_servers: Option<Seq<char>>,
    pub hooks: Option<Seq<char>>,
    pub commands: Option<Seq<char>>,
    pub permissions: Seq<Seq<char>>,
    pub runtime: Option<PluginRuntimeView>,
    pub interface: Option<PluginInterfaceView>,
}

impl View for PluginManifest {
    type V = PluginManifestView;

    open spec fn view(&self) -> PluginManifestView {
        PluginManifestView {
            id: self.id@,
            name: self.name@,
            version: text::opt_text(self.version),
            description: text::opt_text(self.description),
            skills: text::opt_text(self.skills),
            tools: text::opt_text(self.tools),
            mcp_servers: text::opt_text(self.mcp_servers),
            hooks: text::opt_text(self.hooks),
            commands: text::opt_text(self.commands),
            permissions: text::texts(self.permissions@),
            runtime: (match self.runtime { Some(v) => Some(v@), None => None }),
            interface: (match self.interface { Some(v) => Some(v@), None => None }),
        }
    }
}

impl Clone for PluginManifest {
    fn clone(&self) -> (r: Self)
        ensures
            r@ == self@,
    {
        PluginManifest {
            id: self.id.clone(),
            name: self.name.clone(),
            version: text::clone_opt(&self.version),
            description: text::clone_opt(&self.description),
            skills: text::clone_opt(&self.skills),
            tools: text::clone_opt(&self.tools),
            mcp_servers: text::clone_opt(&self.mcp_servers),
            hooks: text::clone_opt(&self.hooks),
            commands: text::clone_opt(&self.commands),
            permissions: text::clone_texts(&self.permissions),
            runtime: (match &self.runtime { Some(v) => Some(v.clone()), None => None }),
            interface: (match &self.interface { Some(v) => Some(v.clone()), None => None }),
        }
    }
}

/// The places that a manifest names, as absolute paths.
#[derive(Debug)]
pub struct ResolvedPluginPaths {
    pub skills: Option<String>,
    pub tools: Option<String>,
    pub mcp_servers: Option<String>,
    pub hooks: Option<String>,
    pub commands: Option<String>,
}

/// The places of a plugin, over plain texts.
pub struct PluginPathsView {
    pub skills: Option<Seq<char>>,
    pub tools: Option<Seq<char>>,
    pub mcp_servers: Option<Seq<char>>,
    pub hooks: Option<Seq<char>>,
    pub commands: Option<Seq<char>>,
}

impl View for ResolvedPluginPaths {
    type V = PluginPathsView;

    open spec fn view(&self) -> PluginPathsView {
        PluginPathsView {
            skills: text::opt_text(self.skills),
            tools: text::opt_text(self.tools),
            mcp_servers: text::opt_text(self.mcp_servers),
            hooks: text::opt_text(self.hooks),
            commands: text::opt_text(self.commands),
        }
    }
}

impl Clone for ResolvedPluginPaths {
    fn clone(&self) -> (r: Self)
        ensures
            r@ == self@,
    {
        ResolvedPluginPaths {
            skills: text::clone_opt(&self.skills),
            tools: text::clone_opt(&self.tools),
            mcp_servers: text::clone_opt(&self.mcp_servers),
            hooks: text::clone_opt(&self.hooks),
            commands: text::clone_opt(&self.commands),
        }
    }
}

/// A loaded plugin.
#[derive(Debug)]
pub struct LoadedPlugin {
    pub manifest: PluginManifest,
    pub root: String,
    pub enabled: bool,
    pub resolved_paths: ResolvedPluginPaths,
}

/// A loaded plugin, over plain texts.
pub struct LoadedPluginView {
    pub manifest: PluginManifestView,
    pub root: Seq<char>,
    pub enabled: bool,
    pub resolved_paths: PluginPathsView,
}

impl View for LoadedPlugin {
    type V = LoadedPluginView;

    open spec fn view(&self) -> LoadedPluginView {
        LoadedPluginView {
            manifest: self.manifest@,
            root: self.root@,
            enabled: self.enabled,
            resolved_paths: self.resolved_paths@,
        }
    }
}

impl Clone for LoadedPlugin {
    fn clone(&self) -> (r: Self)
        ensures
            r@ == self@,
    {
        LoadedPlugin {
            manifest: self.manifest.clone(),
            root: self.root.clone(),
            enabled: self.enabled,
            resolved_paths: self.resolved_paths.clone(),
        }
    }
}

/// What came of loading a plugin.
#[derive(Debug)]
pub enum PluginLoadOutcome {
    Loaded(LoadedPlugin),
    InvalidManifest { path: String, error: String },
    NotFound(String),
}

/// What came of loading a plugin, over plain texts.
pub enum LoadOutcomeView {
    Loaded(LoadedPluginView),
    InvalidManifest { path: Seq<char>, error: Seq<char> },
    NotFound(Seq<char>),
}

impl View for PluginLoadOutcome {
    type V = LoadOutcomeView;

    open spec fn view(&self) -> LoadOutcomeView {
        match *self {
            PluginLoadOutcome::Loaded(x) => LoadOutcomeView::Loaded(x@),
            PluginLoadOutcome::InvalidManifest { path, error } => LoadOutcomeView::InvalidManifest { path: path@, error: error@ },
            PluginLoadOutcome::NotFound(x) => LoadOutcomeView::NotFound(x@),
        }
    }
}

/// What a plugin can do, for those who ask.
#[derive(Debug)]
pub struct PluginCapabilitySummary {
    pub id: String,
    pub name: String,
    pub description: Option<String>,
    pub version: Option<String>,
    pub enabled: bool,
    pub has_skills: bool,
    pub has_mcp_servers: bool,
    pub has_hooks: bool,
    pub permissions: Vec<String>,
    pub capabilities: Vec<String>,
}

/// What a plugin can do, over plain texts.
pub struct SummaryView {
    pub id: Seq<char>,
    pub name: Seq<char>,
    pub description: Option<Seq<char>>,
    pub version: Option<Seq<char>>,
    pub enabled: bool,
    pub has_skills: bool,
    pub has_mcp_servers: bool,
    pub has_hooks: bool,
    pub permissions: Seq<Seq<char>>,
    pub capabilities: Seq<Seq<char>>,
}

impl View for PluginCapabilitySummary {
    type V = SummaryView;

    open spec fn view(&self) -> SummaryView {
        SummaryView {
            id: self.id@,
            name: self.name@,
            description: text::opt_text(self.description),
            version: text::opt_text(self.version),
            enabled: self.enabled,
            has_skills: self.has_skills,
            has_mcp_servers: self.has_mcp_servers,
            has_hooks: self.has_hooks,
            permissions: text::texts(self.permissions@),
            capabilities: text::texts(self.capabilities@),
        }
    }
}

/// What was found in the directory of a plugin: its manifest with the absolute places it
/// names, or why the manifest could not be read.
#[derive(Debug)]
pub struct FoundPlugin {
    pub manifest_path: String,
    pub root: String,
    pub manifest: Result<(PluginManifest, ResolvedPluginPaths), String>,
}

/// The plugin that a readable manifest loads; it is enabled.
pub open spec fn loaded(
    manifest: PluginManifestView,
    root: Seq<char>,
    resolved_paths: PluginPathsView,
) -> LoadedPluginView {
    LoadedPluginView { manifest, root, enabled: true, resolved_paths }
}

/// What comes of loading what was found.
pub open spec fn outcome_of(f: FoundPlugin) -> LoadOutcomeView {
    match f.manifest {
        Ok((m, p)) => LoadOutcomeView::Loaded(loaded(m@, f.root@, p@)),
        Err(e) => LoadOutcomeView::InvalidManifest { path: f.manifest_path@, error: e@ },
    }
}

/// The summary of a plugin.
pub open spec fn summary_of(p: LoadedPluginView) -> SummaryView {
    SummaryView {
        id: p.manifest.id,
        name: p.manifest.name,
        description: p.manifest.description,
        version: p.manifest.version,
        enabled: p.enabled,
        has_skills: p.resolved_paths.skills is Some,
        has_mcp_servers: p.resolved_paths.mcp_servers is Some,
        has_hooks: p.resolved_paths.hooks is Some,
        permissions: p.manifest.permissions,
        capabilities: match p.manifest.interface {
            Some(i) => match i.capabilities {
                Some(c) => c,
                None => Seq::empty(),
            },
            None => Seq::empty(),
        },
    }
}

fn build_summary(plugin: &LoadedPlugin) -> (r: PluginCapabilitySummary)
    ensures
        r@ == summary_of(plugin@),
{
    let capabilities = match &plugin.manifest.interface {
        Some(i) => match &i.capabilities {
            Some(c) => text::clone_texts(c),
            None => Vec::new(),
        },
        None => Vec::new(),
    };
    let r = PluginCapabilitySummary {
        id: plugin.manifest.id.clone(),
        name: plugin.manifest.name.clone(),
        description: text::clone_opt(&plugin.manifest.description),
        version: text::clone_opt(&plugin.manifest.version),
        enabled: plugin.enabled,
        has_skills: plugin.resolved_paths.skills.is_some(),
        has_mcp_servers: plugin.resolved_paths.mcp_servers.is_some(),
        has_hooks: plugin.resolved_paths.hooks.is_some(),
        permissions: text::clone_texts(&plugin.manifest.permissions),
        capabilities,
    };
    assert(r@.capabilities =~= summary_of(plugin@).capabilities);
    r
}

/// The plugins by id, and the summaries that are handed out.
#[derive(Debug)]
pub struct PluginManager {
    search_paths: Vec<String>,
    plugins: Table<LoadedPlugin>,
    snapshot: Vec<PluginCapabilitySummary>,
}

/// What the manager holds, over plain texts.
pub struct ManagerView {
    pub search_paths: Seq<Seq<char>>,
    /// The plugins by id.
    pub plugins: Map<Seq<char>, LoadedPluginView>,
    /// The ids in the order in which the plugins were found.
    pub order: Seq<Seq<char>>,
    pub snapshot: Seq<SummaryView>,
}

impl View for PluginManager {
    type V = ManagerView;

    closed spec fn view(&self) -> ManagerView {
        ManagerView {
            search_paths: text::texts(self.search_paths@),
            plugins: self.plugins@.map_values(|p: LoadedPlugin| p@),
            order: self.plugins.order(),
            snapshot: self.snapshot@.map_values(|s: PluginCapabilitySummary| s@),
        }
    }
}

impl ManagerView {
    /// The summaries of all plugins, in their order.
    pub open spec fn summaries(self) -> Seq<SummaryView> {
        self.order.map_values(|k: Seq<char>| summary_of(self.plugins[k]))
    }

    /// The manager after a plugin was found. A plugin with the id of one that is there
    /// takes its place.
    pub open spec fn with_found(self, f: FoundPlugin) -> ManagerView {
        match outcome_of(f) {
            LoadOutcomeView::Loaded(p) => ManagerView {
                plugins: self.plugins.insert(p.manifest.id, p),
                order: if self.plugins.dom().contains(p.manifest.id) {
                    self.order
                } else {
                    self.order.push(p.manifest.id)
                },
                snapshot: self.snapshot.push(summary_of(p)),
                ..self
            },
            _ => self,
        }
    }

    /// The manager after a list of plugins was found.
    pub open spec fn with_all(self, found: Seq<FoundPlugin>) -> ManagerView
        decreases found.len(),
    {
        if found.len() == 0 {
            self
        } else {
            self.with_all(found.drop_last()).with_found(found.last())
        }
    }

    /// The manager after a plugin was enabled or disabled: all summaries are made anew.
    pub open spec fn switched(self, id: Seq<char>, enabled: bool) -> ManagerView {
        if self.plugins.dom().contains(id) {
            let m = ManagerView {
                plugins: self.plugins.insert(
                    id,
                    LoadedPluginView { enabled, ..self.plugins[id] },
                ),
                ..self
            };
            ManagerView { snapshot: m.summaries(), ..m }
        } else {
            self
        }
    }

    /// The enabled plugins among the first of the order.
    pub open spec fn enabled_upto(self, n: int) -> Seq<LoadedPluginView>
        decreases n,
    {
        if n <= 0 {
            Seq::empty()
        } else {
            let before = self.enabled_upto(n - 1);
            let p = self.plugins[self.order[n - 1]];
            if p.enabled {
                before.push(p)
            } else {
                before
            }
        }
    }

    /// The enabled plugins in their order.
    pub open spec fn enabled(self) -> Seq<LoadedPluginView> {
        self.enabled_upto(self.order.len() as int)
    }
}

/// The skill places of a list of plugins.
pub open spec fn skill_paths(v: Seq<LoadedPluginView>) -> Seq<Seq<char>>
    decreases v.len(),
{
    if v.len() == 0 {
        Seq::empty()
    } else {
        match v.last().resolved_paths.skills {
            Some(p) => skill_paths(v.drop_last()).push(p),
            None => skill_paths(v.drop_last()),
        }
    }
}

/// The MCP server places of a list of plugins.
pub open spec fn mcp_paths(v: Seq<LoadedPluginView>) -> Seq<Seq<char>>
    decreases v.len(),
{
    if v.len() == 0 {
        Seq::empty()
    } else {
        match v.last().resolved_paths.mcp_servers {
            Some(p) => mcp_paths(v.drop_last()).push(p),
            None => mcp_paths(v.drop_last()),
        }
    }
}

/// The outcomes of a list, over plain texts.
pub open spec fn outcomes(v: Seq<PluginLoadOutcome>) -> Seq<LoadOutcomeView> {
    v.map_values(|o: PluginLoadOutcome| o@)
}

impl PluginManager {
    pub closed spec fn wf(&self) -> bool {
        self.plugins.wf()
    }

    pub fn new(search_paths: Vec<String>) -> (r: Self)
        ensures
            r.wf(),
            r@ == (ManagerView {
                search_paths: text::texts(search_paths@),
                plugins: Map::empty(),
                order: Seq::empty(),
                snapshot: Seq::empty(),
            }),
    {
        let r = PluginManager { search_paths, plugins: Table::new(), snapshot: Vec::new() };
        assert(r@.plugins =~= Map::<Seq<char>, LoadedPluginView>::empty());
        assert(r@.snapshot =~= Seq::<SummaryView>::empty());
        r
    }

    /// The directories that hold plugins.
    pub fn search_paths(&self) -> (r: &Vec<String>)
        ensures
            text::texts(r@) == self@.search_paths,
    {
        &self.search_paths
    }

    fn add_found(&mut self, found: &FoundPlugin) -> (r: PluginLoadOutcome)
        requires
            old(self).wf(),
        ensures
            final(self).wf(),
            final(self)@ == old(self)@.with_found(*found),
            r@ == outcome_of(*found),
    {
        let ghost before = self@;
        match &found.manifest {
            Ok((manifest, paths)) => {
                let plugin = LoadedPlugin {
                    manifest: manifest.clone(),
                    root: found.root.clone(),
                    enabled: true,
                    resolved_paths: paths.clone(),
                };
                let copy = plugin.clone();
                let id = plugin.manifest.id.clone();
                let ghost prior = self.snapshot@;
                let ghost summary = summary_of(plugin@);
                self.snapshot.push(build_summary(&plugin));
                assert(self.snapshot@.map_values(|s: PluginCapabilitySummary| s@)
                    =~= prior.map_values(|s: PluginCapabilitySummary| s@).push(summary));
                let ghost plain = plugin@;
                self.plugins.insert(id, plugin);
                assert(self@.plugins =~= before.plugins.insert(id@, plain));
                assert(self@ == before.with_found(*found));
                PluginLoadOutcome::Loaded(copy)
            },
            Err(e) => PluginLoadOutcome::InvalidManifest {
                path: found.manifest_path.clone(),
                error: e.clone(),
            },
        }
    }

    /// Takes in the plugins that were found, in order, and says what came of each.
    pub fn discover(&mut self, found: &Vec<FoundPlugin>) -> (r: Vec<PluginLoadOutcome>)
        requires
            old(self).wf(),
        ensures
            final(self).wf(),
            final(self)@ == old(self)@.with_all(found@),
            outcomes(r@) == found@.map_values(|f: FoundPlugin| outcome_of(f)),
    {
        let mut out: Vec<PluginLoadOutcome> = Vec::new();
        let mut i: usize = 0;
        assert(found@.take(0) =~= Seq::empty());
        while i < found.len()
            invariant
                i <= found.len(),
                self.wf(),
                self@ == old(self)@.with_all(found@.take(i as int)),
                out.len() == i,
                forall|j: int| 0 <= j < i ==> (#[trigger] out@[j])@ == outcome_of(found@[j]),
            decreases found.len() - i,
        {
            assert(found@.take(i + 1).drop_last() =~= found@.take(i as int));
            out.push(self.add_found(&found[i]));
            i = i + 1;
        }
        assert(found@.take(i as int) =~= found@);
        assert(outcomes(out@) =~= found@.map_values(|f: FoundPlugin| outcome_of(f)));
        out
    }

    fn switch(&mut self, plugin_id: &str, enabled: bool) -> (r: bool)
        requires
            old(self).wf(),
        ensures
            final(self).wf(),
            final(self)@ == old(self)@.switched(plugin_id@, enabled),
            r == old(self)@.plugins.dom().contains(plugin_id@),
    {
        let ghost before = self@;
        let changed = match self.plugins.get(plugin_id) {
            Some(p) => {
                let mut q = p.clone();
                q.enabled = enabled;
                Some(q)
            },
            None => None,
        };
        match changed {
            Some(q) => {
                let ghost plain = q@;
                self.plugins.insert(text::owned(plugin_id), q);
                assert(self@.plugins =~= before.plugins.insert(plugin_id@, plain));
                self.refresh_snapshot();
                assert(self@.snapshot =~= before.switched(plugin_id@, enabled).snapshot);
                true
            },
            None => false,
        }
    }

    /// Enables a plugin. `false` where there is none with the id.
    pub fn enable(&mut self, plugin_id: &str) -> (r: bool)
        requires
            old(self).wf(),
        ensures
            final(self).wf(),
            final(self)@ == old(self)@.switched(plugin_id@, true),
            r == old(self)@.plugins.dom().contains(plugin_id@),
    {
        self.switch(plugin_id, true)
    }

    /// Disables a plugin. `false` where there is none with the id.
    pub fn disable(&mut self, plugin_id: &str) -> (r: bool)
        requires
            old(self).wf(),
        ensures
            final(self).wf(),
            final(self)@ == old(self)@.switched(plugin_id@, false),
            r == old(self)@.plugins.dom().contains(plugin_id@),
    {
        self.switch(plugin_id, false)
    }

    fn refresh_snapshot(&mut self)
        requires
            old(self).wf(),
        ensures
            final(self).wf(),
            final(self)@ == (ManagerView { snapshot: old(self)@.summaries(), ..old(self)@ }),
    {
        let ghost before = self@;
        let n: usize = self.plugins.len();
        let mut out: Vec<PluginCapabilitySummary> = Vec::new();
        let mut i: usize = 0;
        while i < n
            invariant
                *self == *old(self),
                self.wf(),
                n == self@.order.len(),
                before == self@,
                i <= n,
                out.len() == i,
                forall|j: int| 0 <= j < i ==> (#[trigger] out@[j])@ == before.summaries()[j],
            decreases n - i,
        {
            out.push(build_summary(self.plugins.value_at(i)));
            i = i + 1;
        }
        self.snapshot = out;
        assert(self@.snapshot =~= before.summaries());
    }

    pub fn get(&self, plugin_id: &str) -> (r: Option<&LoadedPlugin>)
        requires
            self.wf(),
        ensures
            match r {
                Some(p) => self@.plugins.dom().contains(plugin_id@) && p@
                    == self@.plugins[plugin_id@],
                None => !self@.plugins.dom().contains(plugin_id@),
            },
    {
        self.plugins.get(plugin_id)
    }

    /// The summaries of all plugins.
    pub fn list(&self) -> (r: &Vec<PluginCapabilitySummary>)
        ensures
            r@.map_values(|s: PluginCapabilitySummary| s@) == self@.snapshot,
    {
        &self.snapshot
    }

    /// The enabled plugins.
    pub fn list_enabled(&self) -> (r: Vec<&LoadedPlugin>)
        requires
            self.wf(),
        ensures
            r@.map_values(|p: &LoadedPlugin| p@) == self@.enabled(),
    {
        let n: usize = self.plugins.len();
        let mut out: Vec<&LoadedPlugin> = Vec::new();
        let mut i: usize = 0;
        assert(out@.map_values(|p: &LoadedPlugin| p@) =~= Seq::<LoadedPluginView>::empty());
        while i < n
            invariant
                self.wf(),
                n == self@.order.len(),
                i <= n,
                out@.map_values(|p: &LoadedPlugin| p@) == self@.enabled_upto(i as int),
            decreases n - i,
        {
            let p = self.plugins.value_at(i);
            if p.enabled {
                let ghost prior = out@;
                out.push(p);
                assert(out@.map_values(|p: &LoadedPlugin| p@) =~= prior.map_values(
                    |p: &LoadedPlugin| p@,
                ).push(p@));
            }
            i = i + 1;
        }
        out
    }

    /// The skill places of the enabled plugins.
    pub fn active_skill_paths(&self) -> (r: Vec<String>)
        requires
            self.wf(),
        ensures
            text::texts(r@) == skill_paths(self@.enabled()),
    {
        let active = self.list_enabled();
        let ghost all = self@.enabled();
        let mut out: Vec<String> = Vec::new();
        let mut i: usize = 0;
        assert(all.take(0) =~= Seq::empty());
        assert(text::texts(out@) =~= Seq::<Seq<char>>::empty());
        while i < active.len()
            invariant
                i <= active.len(),
                all == active@.map_values(|p: &LoadedPlugin| p@),
                text::texts(out@) == skill_paths(all.take(i as int)),
            decreases active.len() - i,
        {
            assert(all.take(i + 1).drop_last() =~= all.take(i as int));
            assert(all.take(i + 1).last() == active@[i as int]@);
            if let Some(p) = &active[i].resolved_paths.skills {
                let ghost prior = out@;
                out.push(p.clone());
                assert(text::texts(out@) =~= text::texts(prior).push(p@));
            }
            i = i + 1;
        }
        assert(all.take(i as int) =~= all);
        out
    }

    /// The MCP server places of the enabled plugins.
    pub fn active_mcp_paths(&self) -> (r: Vec<String>)
        requires
            self.wf(),
        ensures
            text::texts(r@) == mcp_paths(self@.enabled()),
    {
        let active = self.list_enabled();
        let ghost all = self@.enabled();
        let mut out: Vec<String> = Vec::new();
        let mut i: usize = 0;
        assert(all.take(0) =~= Seq::empty());
        assert(text::texts(out@) =~= Seq::<Seq<char>>::empty());
        while i < active.len()
            invariant
                i <= active.len(),
                all == active@.map_values(|p: &LoadedPlugin| p@),
                text::texts(out@) == mcp_paths(all.take(i as int)),
            decreases active.len() - i,
        {
            assert(all.take(i + 1).drop_last() =~= all.take(i as int));
            assert(all.take(i + 1).last() == active@[i as int]@);
            if let Some(p) = &active[i].resolved_paths.mcp_servers {
                let ghost prior = out@;
                out.push(p.clone());
                assert(text::texts(out@) =~= text::texts(prior).push(p@));
            }
            i = i + 1;
        }
        assert(all.take(i as int) =~= all);
        out
    }

    pub fn len(&self) -> (r: usize)
        requires
            self.wf(),
        ensures
            r == self@.order.len(),
    {
        self.plugins.len()
    }

    pub fn is_empty(&self) -> (r: bool)
        requires
            self.wf(),
        ensures
            r == (self@.order.len() == 0),
    {
        self.plugins.len() == 0
    }

    /// The ids are those of the plugins, each once.
    pub proof fn law_ids_are_unique(&self)
        requires
            self.wf(),
        ensures
            self@.order.no_duplicates(),
            forall|k: Seq<char>|
                #![trigger self@.plugins.dom().contains(k)]
                #![trigger self@.order.contains(k)]
                self@.plugins.dom().contains(k) <==> self@.order.contains(k),
    {
        self.plugins.lemma_order();
    }
}

/// Enabling undoes disabling: a plugin that was enabled is as it was.
pub proof fn law_enable_undoes_disable(m: ManagerView, id: Seq<char>)
    requires
        m.plugins.dom().contains(id),
        m.plugins[id].enabled,
    ensures
        m.switched(id, false).switched(id, true).plugins == m.plugins,
        !m.switched(id, false).plugins[id].enabled,
{
    assert(m.switched(id, false).switched(id, true).plugins =~= m.plugins);
}

/// A switch changes one plugin only.
pub proof fn law_switch_changes_one(m: ManagerView, id: Seq<char>, enabled: bool, other: Seq<char>)
    requires
        other != id,
    ensures
        m.switched(id, enabled).plugins.dom().contains(other) == m.plugins.dom().contains(other),
        m.plugins.dom().contains(other) ==> m.switched(id, enabled).plugins[other]
            == m.plugins[other],
        m.switched(id, enabled).order == m.order,
{
}

proof fn lemma_enabled(m: ManagerView, n: int)
    requires
        n <= m.order.len(),
    ensures
        forall|i: int|
            0 <= i < m.enabled_upto(n).len() ==> (#[trigger] m.enabled_upto(n)[i]).enabled,
        forall|j: int|
            0 <= j < n && m.plugins[#[trigger] m.order[j]].enabled ==> m.enabled_upto(n).contains(
                m.plugins[m.order[j]],
            ),
    decreases n,
{
    if n > 0 {
        lemma_enabled(m, n - 1);
        let before = m.enabled_upto(n - 1);
        let all = m.enabled_upto(n);
        assert forall|j: int| 0 <= j < n && m.plugins[#[trigger] m.order[j]].enabled implies
            all.contains(m.plugins[m.order[j]]) by {
            if j < n - 1 {
                let i = before.index_of(m.plugins[m.order[j]]);
                assert(all[i] == m.plugins[m.order[j]]);
            } else {
                assert(all[before.len() as int] == m.plugins[m.order[j]]);
            }
        }
    }
}

/// What plugins contribute comes from the enabled ones, from all of them and from no
/// others.
pub proof fn law_only_enabled_contribute(m: ManagerView)
    ensures
        forall|i: int| 0 <= i < m.enabled().len() ==> (#[trigger] m.enabled()[i]).enabled,
        forall|j: int|
            0 <= j < m.order.len() && m.plugins[#[trigger] m.order[j]].enabled
                ==> m.enabled().contains(m.plugins[m.order[j]]),
{
    lemma_enabled(m, m.order.len() as int);
}

/// What is seen of a plugin manifest is all that it holds.
pub proof fn law_plugin_manifest_is_seen_whole(p: PluginManifest)
    ensures
        p@.id == p.id@,
        p@.name == p.name@,
        p@.version == text::opt_text(p.version),
        p@.description == text::opt_text(p.description),
        p@.skills == text::opt_text(p.skills),
        p@.tools == text::opt_text(p.tools),
        p@.mcp_servers == text::opt_text(p.mcp_servers),
        p@.hooks == text::opt_text(p.hooks),
        p@.commands == text::opt_text(p.commands),
        p@.permissions == text::texts(p.permissions@),
        p@.runtime == (match p.runtime { Some(v) => Some(v@), None => None }),
        p@.interface == (match p.interface { Some(v) => Some(v@), None => None }),
{
}

/// What is seen of a resolved plugin paths is all that it holds.
pub proof fn law_resolved_plugin_paths_is_seen_whole(r: ResolvedPluginPaths)
    ensures
        r@.skills == text::opt_text(r.skills),
        r@.tools == text::opt_text(r.tools),
        r@.mcp_servers == text::opt_text(r.mcp_servers),
        r@.hooks == text::opt_text(r.hooks),
        r@.commands == text::opt_text(r.commands),
{
}

/// What is seen of a loaded plugin is all that it holds.
pub proof fn law_loaded_plugin_is_seen_whole(l: LoadedPlugin)
    ensures
        l@.manifest == l.manifest@,
        l@.root == l.root@,
        l@.enabled == l.enabled,
        l@.resolved_paths == l.resolved_paths@,
{
}

/// What is seen of a plugin load outcome is all that it holds.
pub proof fn law_plugin_load_outcome_is_seen_whole(p: PluginLoadOutcome)
    ensures
        p matches PluginLoadOutcome::Loaded(x) ==> p@ == (LoadOutcomeView::Loaded(x@)),
        p matches PluginLoadOutcome::InvalidManifest { path, error } ==> p@ == (LoadOutcomeView::InvalidManifest { path: path@, error: error@ }),
        p matches PluginLoadOutcome::NotFound(x) ==> p@ == (LoadOutcomeView::NotFound(x@)),
{
}

/// What is seen of a plugin capability summary is all that it holds.
pub proof fn law_plugin_capability_summary_is_seen_whole(p: PluginCapabilitySummary)
    ensures
        p@.id == p.id@,
        p@.name == p.name@,
        p@.description == text::opt_text(p.description),
        p@.version == text::opt_text(p.version),
        p@.enabled == p.enabled,
        p@.has_skills == p.has_skills,
        p@.has_mcp_servers == p.has_mcp_servers,
        p@.has_hooks == p.has_hooks,
        p@.permissions == text::texts(p.permissions@),
        p@.capabilities == text::texts(p.capabilities@),
{
}

/// A manifest that can be read loads its plugin, enabled, with the manifest, the root and the
/// places that were found; of one that cannot be read the place and the reason are told.
pub proof fn law_found_plugins_are_loaded(f: FoundPlugin)
    ensures
        f.manifest matches Ok((m, p)) ==> (outcome_of(f) matches LoadOutcomeView::Loaded(l)
            && l.manifest == m@ && l.root == f.root@ && l.enabled && l.resolved_paths == p@),
        f.manifest matches Err(e) ==> (outcome_of(f) matches LoadOutcomeView::InvalidManifest {
            path,
            error,
        } && path == f.manifest_path@ && error == e@),
{
}

/// The summary of a plugin says of it what its manifest and its places say, and whether it is
/// enabled.
pub proof fn law_summary_is_of_the_plugin(p: LoadedPluginView)
    ensures
        ({
            let s = summary_of(p);
            &&& s.id == p.manifest.id
            &&& s.name == p.manifest.name
            &&& s.description == p.manifest.description
            &&& s.version == p.manifest.version
            &&& s.enabled == p.enabled
            &&& s.has_skills <==> p.resolved_paths.skills is Some
            &&& s.has_mcp_servers <==> p.resolved_paths.mcp_servers is Some
            &&& s.has_hooks <==> p.resolved_paths.hooks is Some
            &&& s.permissions == p.manifest.permissions
            &&& p.manifest.interface is None ==> s.capabilities.len() == 0
            &&& p.manifest.interface matches Some(i) ==> (i.capabilities matches Some(c)
                ==> s.capabilities == c) && (i.capabilities is None ==> s.capabilities.len() == 0)
        }),
{
}

/// A plugin that was found is there under its id, the others stay, and its summary comes
/// behind those before it; a manifest that cannot be read changes nothing. A list is taken
/// in one by one.
pub proof fn law_found_plugins_are_there(
    m: ManagerView,
    found: Seq<FoundPlugin>,
    f: FoundPlugin,
    other: Seq<char>,
)
    ensures
        m.with_all(Seq::empty()) == m,
        m.with_all(found.push(f)) == m.with_all(found).with_found(f),
        f.manifest is Err ==> m.with_found(f) == m,
        f.manifest matches Ok((manifest, paths)) ==> {
            let n = m.with_found(f);
            let id = manifest@.id;
            &&& n.plugins.dom().contains(id)
            &&& n.plugins[id].manifest == manifest@
            &&& n.plugins[id].root == f.root@
            &&& n.plugins[id].enabled
            &&& n.plugins[id].resolved_paths == paths@
            &&& n.snapshot.len() == m.snapshot.len() + 1
            &&& n.snapshot.drop_last() == m.snapshot
            &&& n.snapshot.last() == summary_of(n.plugins[id])
            &&& m.plugins.dom().contains(id) ==> n.order == m.order
            &&& !m.plugins.dom().contains(id) ==> n.order == m.order.push(id)
            &&& n.search_paths == m.search_paths
            &&& other != id ==> (n.plugins.dom().contains(other) <==> m.plugins.dom().contains(
                other,
            ))
            &&& other != id && m.plugins.dom().contains(other) ==> n.plugins[other]
                == m.plugins[other]
        },
{
    assert(found.push(f).drop_last() =~= found);
    if f.manifest is Ok {
        assert(m.with_found(f).snapshot.drop_last() =~= m.snapshot);
    }
}

/// A switch sets whether its plugin is enabled, changes nothing else of it, and makes the
/// summaries of all plugins anew, in their order.
pub proof fn law_switch_sets_the_plugin(m: ManagerView, id: Seq<char>, enabled: bool)
    ensures
        !m.plugins.dom().contains(id) ==> m.switched(id, enabled) == m,
        m.plugins.dom().contains(id) ==> {
            let n = m.switched(id, enabled);
            &&& n.plugins[id].enabled == enabled
            &&& n.plugins[id].manifest == m.plugins[id].manifest
            &&& n.plugins[id].root == m.plugins[id].root
            &&& n.plugins[id].resolved_paths == m.plugins[id].resolved_paths
            &&& n.snapshot.len() == m.order.len()
            &&& forall|i: int|
                0 <= i < m.order.len() ==> #[trigger] n.snapshot[i] == summary_of(
                    n.plugins[m.order[i]],
                )
            &&& n.search_paths == m.search_paths
        },
{
}

/// The enabled plugins are listed in the order in which they were found: each one counts
/// once, behind those before it, where it is enabled.
pub proof fn law_enabled_plugins_are_in_order(m: ManagerView, n: int)
    requires
        0 <= n < m.order.len(),
    ensures
        m.enabled_upto(0).len() == 0,
        m.plugins[m.order[n]].enabled ==> m.enabled_upto(n + 1) == m.enabled_upto(n).push(
            m.plugins[m.order[n]],
        ),
        !m.plugins[m.order[n]].enabled ==> m.enabled_upto(n + 1) == m.enabled_upto(n),
        m.enabled() == m.enabled_upto(m.order.len() as int),
{
}

/// The places of plugins are listed one by one: a plugin adds its own place, and nothing
/// where it has none.
pub proof fn law_places_are_listed_by_plugin(v: Seq<LoadedPluginView>, p: LoadedPluginView)
    ensures
        skill_paths(Seq::<LoadedPluginView>::empty()).len() == 0,
        p.resolved_paths.skills matches Some(s) ==> skill_paths(v.push(p)) == skill_paths(v).push(
            s,
        ),
        p.resolved_paths.skills is None ==> skill_paths(v.push(p)) == skill_paths(v),
        mcp_paths(Seq::<LoadedPluginView>::empty()).len() == 0,
        p.resolved_paths.mcp_servers matches Some(s) ==> mcp_paths(v.push(p)) == mcp_paths(v).push(
            s,
        ),
        p.resolved_paths.mcp_servers is None ==> mcp_paths(v.push(p)) == mcp_paths(v),
{
    assert(v.push(p).drop_last() =~= v);
}

} // verus!
