//! Configuration: what the user and the workspace configure, and how both are resolved
//! together with flags and the environment. Flags win over the environment, that over the
//! workspace, that over the user, and all over the defaults.

use crate::table::Table;
use crate::text;
use vstd::prelude::*;
use vstd::string::*;

verus! {

/// The directory of the configuration in a workspace.
pub const WORKSPACE_CONFIG_DIR: &'static str = ".deepomni";

/// The name of the configuration file.
pub const CONFIG_FILE_NAME: &'static str = "config.toml";

/// The model where none is configured.
pub const DEFAULT_DEEPSEEK_MODEL: &'static str = "deepseek-v4-pro";

/// The address of the model service where none is configured.
pub const DEFAULT_DEEPSEEK_BASE_URL: &'static str = "https://api.deepseek.com/v1";

/// The providers of models.
#[derive(Debug, Clone, Copy, PartialEq, Eq, Structural)]
pub enum ProviderKind {
    Deepseek,
    Openai,
    Openrouter,
    Ollama,
    Vllm,
    Sglang,
}

impl Default for ProviderKind {
    fn default() -> (r: Self)
        ensures
            r == ProviderKind::Deepseek,
    {
        ProviderKind::Deepseek
    }
}

/// A name as it is compared: without white space around it and in lower case.
pub open spec fn folded(s: Seq<char>) -> Seq<char> {
    text::trim_back(text::trim_front(s)).map_values(|c: char| text::ascii_lower(c))
}

impl ProviderKind {
    /// The name of the provider.
    pub open spec fn name(self) -> Seq<char> {
        match self {
            ProviderKind::Deepseek => "deepseek"@,
            ProviderKind::Openai => "openai"@,
            ProviderKind::Openrouter => "openrouter"@,
            ProviderKind::Ollama => "ollama"@,
            ProviderKind::Vllm => "vllm"@,
            ProviderKind::Sglang => "sglang"@,
        }
    }

    /// The other name that the provider goes by.
    pub open spec fn alias(self) -> Seq<char> {
        match self {
            ProviderKind::Deepseek => "deep-seek"@,
            ProviderKind::Openai => "open-ai"@,
            ProviderKind::Openrouter => "open_router"@,
            ProviderKind::Ollama => "ollama-local"@,
            ProviderKind::Vllm => "v-llm"@,
            ProviderKind::Sglang => "sg-lang"@,
        }
    }

    /// Whether a folded name stands for the provider.
    pub open spec fn goes_by(self, s: Seq<char>) -> bool {
        s == self.name() || s == self.alias()
    }

    pub fn as_str(self) -> (r: &'static str)
        ensures
            r@ == self.name(),
    {
        match self {
            ProviderKind::Deepseek => "deepseek",
            ProviderKind::Openai => "openai",
            ProviderKind::Openrouter => "openrouter",
            ProviderKind::Ollama => "ollama",
            ProviderKind::Vllm => "vllm",
            ProviderKind::Sglang => "sglang",
        }
    }

    /// The provider that a name stands for.
    pub fn parse(value: &str) -> (r: Option<Self>)
        ensures
            match r {
                Some(k) => k.goes_by(folded(value@)),
                None => forall|k: ProviderKind| !#[trigger] k.goes_by(folded(value@)),
            },
    {
        let name = text::to_ascii_lowercase(text::trim(value));
        let s = name.as_str();
        if text::str_eq(s, "deepseek") || text::str_eq(s, "deep-seek") {
            Some(ProviderKind::Deepseek)
        } else if text::str_eq(s, "openai") || text::str_eq(s, "open-ai") {
            Some(ProviderKind::Openai)
        } else if text::str_eq(s, "openrouter") || text::str_eq(s, "open_router") {
            Some(ProviderKind::Openrouter)
        } else if text::str_eq(s, "ollama") || text::str_eq(s, "ollama-local") {
            Some(ProviderKind::Ollama)
        } else if text::str_eq(s, "vllm") || text::str_eq(s, "v-llm") {
            Some(ProviderKind::Vllm)
        } else if text::str_eq(s, "sglang") || text::str_eq(s, "sg-lang") {
            Some(ProviderKind::Sglang)
        } else {
            None
        }
    }
}

/// The number of the provider that a folded name stands for, read off its length and a few
/// of its characters.
spec fn name_number(s: Seq<char>) -> int {
    if s.len() == 4 {
        4
    } else if s.len() == 5 {
        4
    } else if s.len() == 12 {
        3
    } else if s.len() == 8 || s.len() == 9 {
        0
    } else if s.len() == 10 || s.len() == 11 {
        2
    } else if s.len() == 6 {
        if s[2] == 'e' {
            1
        } else if s[2] == 'l' && s[0] == 'o' {
            3
        } else {
            5
        }
    } else if s[0] == 'o' {
        1
    } else {
        5
    }
}

spec fn kind_number(k: ProviderKind) -> int {
    match k {
        ProviderKind::Deepseek => 0,
        ProviderKind::Openai => 1,
        ProviderKind::Openrouter => 2,
        ProviderKind::Ollama => 3,
        ProviderKind::Vllm => 4,
        ProviderKind::Sglang => 5,
    }
}

proof fn lemma_name_number(k: ProviderKind)
    ensures
        name_number(k.name()) == kind_number(k),
        name_number(k.alias()) == kind_number(k),
{
    match k {
        ProviderKind::Deepseek => {
            reveal_strlit("deepseek");
            reveal_strlit("deep-seek");
        },
        ProviderKind::Openai => {
            reveal_strlit("openai");
            reveal_strlit("open-ai");
        },
        ProviderKind::Openrouter => {
            reveal_strlit("openrouter");
            reveal_strlit("open_router");
        },
        ProviderKind::Ollama => {
            reveal_strlit("ollama");
            reveal_strlit("ollama-local");
        },
        ProviderKind::Vllm => {
            reveal_strlit("vllm");
            reveal_strlit("v-llm");
        },
        ProviderKind::Sglang => {
            reveal_strlit("sglang");
            reveal_strlit("sg-lang");
        },
    }
}

/// A name stands for one provider only.
pub proof fn law_names_are_unique(a: ProviderKind, b: ProviderKind, s: Seq<char>)
    requires
        a.goes_by(s),
        b.goes_by(s),
    ensures
        a == b,
{
    lemma_name_number(a);
    lemma_name_number(b);
}

proof fn lemma_folded_same(s: Seq<char>)
    requires
        s.len() > 0,
        forall|i: int| 0 <= i < s.len() ==> 'a' <= #[trigger] s[i] && s[i] <= 'z',
    ensures
        folded(s) == s,
{
    assert(!text::is_white(s[0]));
    assert(!text::is_white(s.last())) by {
        assert('a' <= s[s.len() - 1]);
    }
    assert(text::trim_front(s) == s);
    assert(text::trim_back(s) == s);
    assert(s.map_values(|c: char| text::ascii_lower(c)) =~= s);
}

/// A provider is read back from its name.
pub proof fn law_name_reads_back(k: ProviderKind)
    ensures
        folded(k.name()) == k.name(),
        k.goes_by(folded(k.name())),
        forall|other: ProviderKind| #[trigger] other.goes_by(folded(k.name())) ==> other == k,
{
    reveal_strlit("deepseek");
    reveal_strlit("openai");
    reveal_strlit("openrouter");
    reveal_strlit("ollama");
    reveal_strlit("vllm");
    reveal_strlit("sglang");
    lemma_folded_same(k.name());
    assert forall|other: ProviderKind| #[trigger] other.goes_by(folded(k.name())) implies other
        == k by {
        law_names_are_unique(other, k, k.name());
    }
}


/// The headers of a table.
pub open spec fn headers_of(t: Table<String>) -> Map<Seq<char>, Seq<char>> {
    t@.map_values(|s: String| s@)
}

/// What is configured for one provider.
#[derive(Debug)]
pub struct ProviderConfig {
    pub api_key: Option<String>,
    pub base_url: Option<String>,
    pub model: Option<String>,
    pub http_headers: Table<String>,
}

/// What is configured for one provider, over plain texts.
pub struct ProviderConfigView {
    pub api_key: Option<Seq<char>>,
    pub base_url: Option<Seq<char>>,
    pub model: Option<Seq<char>>,
    pub http_headers: Map<Seq<char>, Seq<char>>,
}

impl View for ProviderConfig {
    type V = ProviderConfigView;

    open spec fn view(&self) -> ProviderConfigView {
        ProviderConfigView {
            api_key: text::opt_text(self.api_key),
            base_url: text::opt_text(self.base_url),
            model: text::opt_text(self.model),
            http_headers: headers_of(self.http_headers),
        }
    }
}

impl Default for ProviderConfig {
    fn default() -> (r: Self)
        ensures
            r.http_headers.wf(),
            r@ == (ProviderConfigView {
                api_key: None,
                base_url: None,
                model: None,
                http_headers: Map::empty(),
            }),
    {
        let r = ProviderConfig {
            api_key: None,
            base_url: None,
            model: None,
            http_headers: Table::new(),
        };
        assert(r@.http_headers =~= Map::<Seq<char>, Seq<char>>::empty());
        r
    }
}

/// What is configured for each provider.
#[derive(Debug)]
pub struct ProvidersConfig {
    pub deepseek: ProviderConfig,
    pub openai: ProviderConfig,
    pub openrouter: ProviderConfig,
    pub ollama: ProviderConfig,
    pub vllm: ProviderConfig,
    pub sglang: ProviderConfig,
}

/// What is configured for each provider, over plain texts.
pub struct ProvidersView {
    pub deepseek: ProviderConfigView,
    pub openai: ProviderConfigView,
    pub openrouter: ProviderConfigView,
    pub ollama: ProviderConfigView,
    pub vllm: ProviderConfigView,
    pub sglang: ProviderConfigView,
}

impl View for ProvidersConfig {
    type V = ProvidersView;

    open spec fn view(&self) -> ProvidersView {
        ProvidersView {
            deepseek: self.deepseek@,
            openai: self.openai@,
            openrouter: self.openrouter@,
            ollama: self.ollama@,
            vllm: self.vllm@,
            sglang: self.sglang@,
        }
    }
}

impl ProvidersView {
    /// The configuration of a provider.
    pub open spec fn of(self, provider: ProviderKind) -> ProviderConfigView {
        match provider {
            ProviderKind::Deepseek => self.deepseek,
            ProviderKind::Openai => self.openai,
            ProviderKind::Openrouter => self.openrouter,
            ProviderKind::Ollama => self.ollama,
            ProviderKind::Vllm => self.vllm,
            ProviderKind::Sglang => self.sglang,
        }
    }
}

impl ProvidersConfig {
    /// The configuration of a provider.
    pub open spec fn of(self, provider: ProviderKind) -> ProviderConfig {
        match provider {
            ProviderKind::Deepseek => self.deepseek,
            ProviderKind::Openai => self.openai,
            ProviderKind::Openrouter => self.openrouter,
            ProviderKind::Ollama => self.ollama,
            ProviderKind::Vllm => self.vllm,
            ProviderKind::Sglang => self.sglang,
        }
    }

    pub open spec fn wf(self) -> bool {
        forall|k: ProviderKind| (#[trigger] self.of(k)).http_headers.wf()
    }

    pub fn for_provider(&self, provider: ProviderKind) -> (r: &ProviderConfig)
        ensures
            *r == self.of(provider),
            r@ == self@.of(provider),
    {
        match provider {
            ProviderKind::Deepseek => &self.deepseek,
            ProviderKind::Openai => &self.openai,
            ProviderKind::Openrouter => &self.openrouter,
            ProviderKind::Ollama => &self.ollama,
            ProviderKind::Vllm => &self.vllm,
            ProviderKind::Sglang => &self.sglang,
        }
    }
}

impl Default for ProvidersConfig {
    fn default() -> (r: Self)
        ensures
            r.wf(),
            r@ == empty_config().providers,
    {
        ProvidersConfig {
            deepseek: ProviderConfig::default(),
            openai: ProviderConfig::default(),
            openrouter: ProviderConfig::default(),
            ollama: ProviderConfig::default(),
            vllm: ProviderConfig::default(),
            sglang: ProviderConfig::default(),
        }
    }
}

/// A provider for which nothing is configured.
pub open spec fn empty_provider() -> ProviderConfigView {
    ProviderConfigView { api_key: None, base_url: None, model: None, http_headers: Map::empty() }
}

/// Where plugins are looked for besides the usual places.
#[derive(Debug)]
pub struct PluginsConfig {
    pub extra_paths: Vec<String>,
}

/// Where skills are looked for besides the usual places.
#[derive(Debug)]
pub struct SkillsConfig {
    pub extra_paths: Vec<String>,
}

/// A configuration file.
#[derive(Debug)]
pub struct ConfigToml {
    pub api_key: Option<String>,
    pub base_url: Option<String>,
    pub http_headers: Table<String>,
    pub default_model: Option<String>,
    pub provider: ProviderKind,
    pub model: Option<String>,
    pub approval_policy: Option<String>,
    pub sandbox_mode: Option<String>,
    pub providers: ProvidersConfig,
    pub plugins: Option<PluginsConfig>,
    pub skills: Option<SkillsConfig>,
}

/// A configuration file, over plain texts.
pub struct ConfigView {
    pub api_key: Option<Seq<char>>,
    pub base_url: Option<Seq<char>>,
    pub http_headers: Map<Seq<char>, Seq<char>>,
    pub default_model: Option<Seq<char>>,
    pub provider: ProviderKind,
    pub model: Option<Seq<char>>,
    pub approval_policy: Option<Seq<char>>,
    pub sandbox_mode: Option<Seq<char>>,
    pub providers: ProvidersView,
    /// The extra places of plugins.
    pub plugins: Option<Seq<Seq<char>>>,
    /// The extra places of skills.
    pub skills: Option<Seq<Seq<char>>>,
}

impl View for ConfigToml {
    type V = ConfigView;

    open spec fn view(&self) -> ConfigView {
        ConfigView {
            api_key: text::opt_text(self.api_key),
            base_url: text::opt_text(self.base_url),
            http_headers: headers_of(self.http_headers),
            default_model: text::opt_text(self.default_model),
            provider: self.provider,
            model: text::opt_text(self.model),
            approval_policy: text::opt_text(self.approval_policy),
            sandbox_mode: text::opt_text(self.sandbox_mode),
            providers: self.providers@,
            plugins: match self.plugins {
                Some(p) => Some(text::texts(p.extra_paths@)),
                None => None,
            },
            skills: match self.skills {
                Some(p) => Some(text::texts(p.extra_paths@)),
                None => None,
            },
        }
    }
}

impl ConfigToml {
    pub open spec fn wf(&self) -> bool {
        self.http_headers.wf() && self.providers.wf()
    }
}

/// A file in which nothing is configured.
pub open spec fn empty_config() -> ConfigView {
    ConfigView {
        api_key: None,
        base_url: None,
        http_headers: Map::empty(),
        default_model: None,
        provider: ProviderKind::Deepseek,
        model: None,
        approval_policy: None,
        sandbox_mode: None,
        providers: ProvidersView {
            deepseek: empty_provider(),
            openai: empty_provider(),
            openrouter: empty_provider(),
            ollama: empty_provider(),
            vllm: empty_provider(),
            sglang: empty_provider(),
        },
        plugins: None,
        skills: None,
    }
}

impl Default for ConfigToml {
    fn default() -> (r: Self)
        ensures
            r.wf(),
            r@ == empty_config(),
    {
        let r = ConfigToml {
            api_key: None,
            base_url: None,
            http_headers: Table::new(),
            default_model: None,
            provider: ProviderKind::Deepseek,
            model: None,
            approval_policy: None,
            sandbox_mode: None,
            providers: ProvidersConfig::default(),
            plugins: None,
            skills: None,
        };
        assert(r@.http_headers =~= Map::<Seq<char>, Seq<char>>::empty());
        r
    }
}

/// What flags set.
#[derive(Debug)]
pub struct CliOverrides {
    pub provider: Option<ProviderKind>,
    pub model: Option<String>,
    pub api_key: Option<String>,
    pub base_url: Option<String>,
    pub approval_policy: Option<String>,
    pub sandbox_mode: Option<String>,
}

impl Default for CliOverrides {
    fn default() -> (r: Self)
        ensures
            r == (CliOverrides {
                provider: None,
                model: None,
                api_key: None,
                base_url: None,
                approval_policy: None,
                sandbox_mode: None,
            }),
    {
        CliOverrides {
            provider: None,
            model: None,
            api_key: None,
            base_url: None,
            approval_policy: None,
            sandbox_mode: None,
        }
    }
}

/// What the environment sets.
#[derive(Debug)]
pub struct EnvOverrides {
    pub api_key: Option<String>,
    pub model: Option<String>,
    pub base_url: Option<String>,
}

impl Default for EnvOverrides {
    fn default() -> (r: Self)
        ensures
            r == (EnvOverrides { api_key: None, model: None, base_url: None }),
    {
        EnvOverrides { api_key: None, model: None, base_url: None }
    }
}

/// Where an API key came from.
#[derive(Debug, Clone, Copy, PartialEq, Eq, Structural)]
pub enum ApiKeySource {
    Cli,
    ConfigFile,
    EnvVar,
    /// There is no key.
    Missing,
}

impl ApiKeySource {
    pub open spec fn name(self) -> Seq<char> {
        match self {
            ApiKeySource::Cli => "cli"@,
            ApiKeySource::ConfigFile => "config"@,
            ApiKeySource::EnvVar => "env"@,
            ApiKeySource::Missing => "none"@,
        }
    }

    pub fn to_string(&self) -> (r: String)
        ensures
            r@ == self.name(),
    {
        match self {
            ApiKeySource::Cli => text::owned("cli"),
            ApiKeySource::ConfigFile => text::owned("config"),
            ApiKeySource::EnvVar => text::owned("env"),
            ApiKeySource::Missing => text::owned("none"),
        }
    }
}

/// The usual places of plugins and skills: those of the user, and those of the workspace
/// where there is one.
#[derive(Debug)]
pub struct SearchRoots {
    pub user_plugins: String,
    pub user_skills: String,
    pub workspace_plugins: Option<String>,
    pub workspace_skills: Option<String>,
}

/// The configuration that the runtime works with.
#[derive(Debug)]
pub struct ResolvedConfig {
    pub provider: ProviderKind,
    pub model: String,
    pub api_key: Option<String>,
    pub api_key_source: ApiKeySource,
    pub base_url: String,
    pub approval_policy: String,
    pub sandbox_mode: String,
    pub http_headers: Table<String>,
    pub plugin_paths: Vec<String>,
    pub skill_paths: Vec<String>,
}

/// A resolved configuration, over plain texts.
pub struct ResolvedView {
    pub provider: ProviderKind,
    pub model: Seq<char>,
    pub api_key: Option<Seq<char>>,
    pub api_key_source: ApiKeySource,
    pub base_url: Seq<char>,
    pub approval_policy: Seq<char>,
    pub sandbox_mode: Seq<char>,
    pub http_headers: Map<Seq<char>, Seq<char>>,
    pub plugin_paths: Seq<Seq<char>>,
    pub skill_paths: Seq<Seq<char>>,
}

impl View for ResolvedConfig {
    type V = ResolvedView;

    open spec fn view(&self) -> ResolvedView {
        ResolvedView {
            provider: self.provider,
            model: self.model@,
            api_key: text::opt_text(self.api_key),
            api_key_source: self.api_key_source,
            base_url: self.base_url@,
            approval_policy: self.approval_policy@,
            sandbox_mode: self.sandbox_mode@,
            http_headers: headers_of(self.http_headers),
            plugin_paths: text::texts(self.plugin_paths@),
            skill_paths: text::texts(self.skill_paths@),
        }
    }
}

/// The first of two that is there.
pub open spec fn either(a: Option<Seq<char>>, b: Option<Seq<char>>) -> Option<Seq<char>> {
    if a is Some {
        a
    } else {
        b
    }
}

/// A text, or the one that stands for a missing one.
pub open spec fn or_text(a: Option<Seq<char>>, default: Seq<char>) -> Seq<char> {
    match a {
        Some(s) => s,
        None => default,
    }
}

fn pick(a: &Option<String>, b: &Option<String>) -> (r: Option<String>)
    ensures
        text::opt_text(r) == either(text::opt_text(*a), text::opt_text(*b)),
{
    match a {
        Some(s) => Some(s.clone()),
        None => text::clone_opt(b),
    }
}

fn pick_or(a: Option<String>, default: &str) -> (r: String)
    ensures
        r@ == or_text(text::opt_text(a), default@),
{
    match a {
        Some(s) => s,
        None => text::owned(default),
    }
}

/// Sets all headers of `over` in a table.
fn set_headers(base: &mut Table<String>, over: &Table<String>)
    requires
        old(base).wf(),
        over.wf(),
    ensures
        final(base).wf(),
        headers_of(*final(base)) == headers_of(*old(base)).union_prefer_right(headers_of(*over)),
{
    let ghost start = base@;
    let n: usize = over.len();
    let mut i: usize = 0;
    proof {
        over.lemma_order();
    }
    while i < n
        invariant
            base.wf(),
            over.wf(),
            n == over.order().len(),
            i <= n,
            over.order().no_duplicates(),
            forall|k: Seq<char>|
                #[trigger] base@.dom().contains(k) <==> start.dom().contains(k)
                    || over.order().take(i as int).contains(k),
            forall|k: Seq<char>|
                #[trigger] over.order().take(i as int).contains(k) ==> base@[k] == over@[k],
            forall|k: Seq<char>|
                #[trigger] start.dom().contains(k) && !over.order().take(i as int).contains(k)
                    ==> base@[k] == start[k],
        decreases n - i,
    {
        let ghost prior = base@;
        let ghost key = over.order()[i as int];
        base.insert(text::owned(over.key_at(i)), over.value_at(i).clone());
        proof {
            let a = over.order().take(i as int);
            let b = over.order().take(i + 1);
            assert(b =~= a.push(key));
            assert forall|k: Seq<char>| #[trigger] b.contains(k) <==> a.contains(k) || k == key by {
                if a.contains(k) {
                    let j = a.index_of(k);
                    assert(b[j] == k);
                }
                assert(b[i as int] == key);
                if b.contains(k) && k != key {
                    let j = b.index_of(k);
                    assert(a[j] == k);
                }
            }
        }
        i = i + 1;
    }
    proof {
        assert(over.order().take(i as int) =~= over.order());
        over.lemma_order();
        assert(headers_of(*base) =~= headers_of(*old(base)).union_prefer_right(headers_of(*over)));
    }
}

/// Sets the headers of `under` in a table that are not there yet.
fn add_headers(base: &mut Table<String>, under: &Table<String>)
    requires
        old(base).wf(),
        under.wf(),
    ensures
        final(base).wf(),
        headers_of(*final(base)) == headers_of(*under).union_prefer_right(headers_of(*old(base))),
{
    let ghost start = base@;
    let n: usize = under.len();
    let mut i: usize = 0;
    proof {
        under.lemma_order();
    }
    while i < n
        invariant
            base.wf(),
            under.wf(),
            n == under.order().len(),
            i <= n,
            under.order().no_duplicates(),
            forall|k: Seq<char>|
                #[trigger] base@.dom().contains(k) <==> start.dom().contains(k)
                    || under.order().take(i as int).contains(k),
            forall|k: Seq<char>|
                #[trigger] under.order().take(i as int).contains(k) && !start.dom().contains(k)
                    ==> base@[k] == under@[k],
            forall|k: Seq<char>| #[trigger] start.dom().contains(k) ==> base@[k] == start[k],
        decreases n - i,
    {
        let ghost key = under.order()[i as int];
        proof {
            let a = under.order().take(i as int);
            let b = under.order().take(i + 1);
            assert(b =~= a.push(key));
            assert forall|k: Seq<char>| #[trigger] b.contains(k) <==> a.contains(k) || k == key by {
                if a.contains(k) {
                    let j = a.index_of(k);
                    assert(b[j] == k);
                }
                assert(b[i as int] == key);
                if b.contains(k) && k != key {
                    let j = b.index_of(k);
                    assert(a[j] == k);
                }
            }
            assert(!a.contains(key)) by {
                if a.contains(key) {
                    let j = a.index_of(key);
                    assert(under.order()[j] == under.order()[i as int]);
                }
            }
        }
        if !base.contains(under.key_at(i)) {
            base.insert(text::owned(under.key_at(i)), under.value_at(i).clone());
        }
        i = i + 1;
    }
    proof {
        assert(under.order().take(i as int) =~= under.order());
        under.lemma_order();
        assert(headers_of(*base) =~= headers_of(*under).union_prefer_right(headers_of(*old(base))));
    }
}

fn clone_headers(t: &Table<String>) -> (r: Table<String>)
    requires
        t.wf(),
    ensures
        r.wf(),
        headers_of(r) == headers_of(*t),
{
    let mut r: Table<String> = Table::new();
    set_headers(&mut r, t);
    assert(headers_of(r) =~= headers_of(*t));
    r
}

/// A provider's configuration under that of a workspace, field by field.
pub open spec fn merged_provider(base: ProviderConfigView, over: ProviderConfigView) -> ProviderConfigView {
    ProviderConfigView {
        api_key: either(over.api_key, base.api_key),
        base_url: either(over.base_url, base.base_url),
        model: either(over.model, base.model),
        http_headers: base.http_headers.union_prefer_right(over.http_headers),
    }
}

fn merge_provider_config(base: &mut ProviderConfig, overrides: &ProviderConfig)
    requires
        old(base).http_headers.wf(),
        overrides.http_headers.wf(),
    ensures
        final(base).http_headers.wf(),
        final(base)@ == merged_provider(old(base)@, overrides@),
{
    base.api_key = pick(&overrides.api_key, &base.api_key);
    base.base_url = pick(&overrides.base_url, &base.base_url);
    base.model = pick(&overrides.model, &base.model);
    set_headers(&mut base.http_headers, &overrides.http_headers);
}

/// The first of two lists that is there.
pub open spec fn either_paths(
    a: Option<Seq<Seq<char>>>,
    b: Option<Seq<Seq<char>>>,
) -> Option<Seq<Seq<char>>> {
    if a is Some {
        a
    } else {
        b
    }
}

/// The configuration of the user under that of a workspace. A workspace changes what it
/// names. Which provider is used is settled apart from this.
pub open spec fn merged_config(base: ConfigView, over: ConfigView) -> ConfigView {
    ConfigView {
        api_key: either(over.api_key, base.api_key),
        base_url: either(over.base_url, base.base_url),
        http_headers: if over.http_headers == Map::<Seq<char>, Seq<char>>::empty() {
            base.http_headers
        } else {
            over.http_headers
        },
        default_model: either(over.default_model, base.default_model),
        model: either(over.model, base.model),
        approval_policy: either(over.approval_policy, base.approval_policy),
        sandbox_mode: either(over.sandbox_mode, base.sandbox_mode),
        providers: ProvidersView {
            deepseek: merged_provider(base.providers.deepseek, over.providers.deepseek),
            openai: merged_provider(base.providers.openai, over.providers.openai),
            openrouter: merged_provider(base.providers.openrouter, over.providers.openrouter),
            ollama: merged_provider(base.providers.ollama, over.providers.ollama),
            vllm: merged_provider(base.providers.vllm, over.providers.vllm),
            sglang: merged_provider(base.providers.sglang, over.providers.sglang),
        },
        plugins: either_paths(over.plugins, base.plugins),
        skills: either_paths(over.skills, base.skills),
        provider: base.provider,
    }
}

/// Lays the configuration of a workspace over that of the user.
pub fn merge_config(base: &mut ConfigToml, overrides: &ConfigToml)
    requires
        old(base).wf(),
        overrides.wf(),
    ensures
        final(base).wf(),
        final(base)@ == merged_config(old(base)@, overrides@),
{
    proof {
        assert(base.providers.of(ProviderKind::Deepseek).http_headers.wf());
        assert(base.providers.of(ProviderKind::Openai).http_headers.wf());
        assert(base.providers.of(ProviderKind::Openrouter).http_headers.wf());
        assert(base.providers.of(ProviderKind::Ollama).http_headers.wf());
        assert(base.providers.of(ProviderKind::Vllm).http_headers.wf());
        assert(base.providers.of(ProviderKind::Sglang).http_headers.wf());
        assert(overrides.providers.of(ProviderKind::Deepseek).http_headers.wf());
        assert(overrides.providers.of(ProviderKind::Openai).http_headers.wf());
        assert(overrides.providers.of(ProviderKind::Openrouter).http_headers.wf());
        assert(overrides.providers.of(ProviderKind::Ollama).http_headers.wf());
        assert(overrides.providers.of(ProviderKind::Vllm).http_headers.wf());
        assert(overrides.providers.of(ProviderKind::Sglang).http_headers.wf());
    }
    base.api_key = pick(&overrides.api_key, &base.api_key);
    base.base_url = pick(&overrides.base_url, &base.base_url);
    if overrides.http_headers.len() > 0 {
        proof {
            overrides.http_headers.lemma_order();
            let k = overrides.http_headers.order()[0];
            assert(overrides.http_headers.order().contains(k));
            assert(headers_of(overrides.http_headers).dom().contains(k));
        }
        base.http_headers = clone_headers(&overrides.http_headers);
    } else {
        proof {
            overrides.http_headers.lemma_order();
            assert(headers_of(overrides.http_headers) =~= Map::<Seq<char>, Seq<char>>::empty());
        }
    }
    base.default_model = pick(&overrides.default_model, &base.default_model);
    base.model = pick(&overrides.model, &base.model);
    base.approval_policy = pick(&overrides.approval_policy, &base.approval_policy);
    base.sandbox_mode = pick(&overrides.sandbox_mode, &base.sandbox_mode);
    merge_provider_config(&mut base.providers.deepseek, &overrides.providers.deepseek);
    merge_provider_config(&mut base.providers.openai, &overrides.providers.openai);
    merge_provider_config(&mut base.providers.openrouter, &overrides.providers.openrouter);
    merge_provider_config(&mut base.providers.ollama, &overrides.providers.ollama);
    merge_provider_config(&mut base.providers.vllm, &overrides.providers.vllm);
    merge_provider_config(&mut base.providers.sglang, &overrides.providers.sglang);
    if let Some(p) = &overrides.plugins {
        base.plugins = Some(PluginsConfig { extra_paths: text::clone_texts(&p.extra_paths) });
    }
    if let Some(s) = &overrides.skills {
        base.skills = Some(SkillsConfig { extra_paths: text::clone_texts(&s.extra_paths) });
    }
}

/// The provider: the one of the flags, else the one that the workspace names, if it is
/// not the default one, else the one of the user.
pub open spec fn resolved_provider(
    cli: CliOverrides,
    workspace: Option<ConfigView>,
    merged: ConfigView,
) -> ProviderKind {
    match cli.provider {
        Some(p) => p,
        None => match workspace {
            Some(w) => if w.provider != ProviderKind::Deepseek {
                w.provider
            } else {
                merged.provider
            },
            None => merged.provider,
        },
    }
}

/// The API key and where it came from.
pub open spec fn resolved_key(
    cli: CliOverrides,
    env: EnvOverrides,
    file: Option<Seq<char>>,
) -> (Option<Seq<char>>, ApiKeySource) {
    if cli.api_key is Some {
        (text::opt_text(cli.api_key), ApiKeySource::Cli)
    } else if env.api_key is Some {
        (text::opt_text(env.api_key), ApiKeySource::EnvVar)
    } else if file is Some {
        (file, ApiKeySource::ConfigFile)
    } else {
        (None, ApiKeySource::Missing)
    }
}

/// The places to look in: the user's, the configured ones, and the workspace's.
pub open spec fn search_paths(
    user: Seq<char>,
    extra: Option<Seq<Seq<char>>>,
    workspace: Option<Seq<char>>,
) -> Seq<Seq<char>> {
    let first = seq![user] + (match extra {
        Some(v) => v,
        None => Seq::empty(),
    });
    match workspace {
        Some(w) => first.push(w),
        None => first,
    }
}

/// A workspace in which nothing is named counts as none.
pub open spec fn or_empty(workspace: Option<ConfigView>) -> ConfigView {
    match workspace {
        Some(w) => w,
        None => empty_config(),
    }
}

/// The user's configuration under that of the workspace, if there is one.
pub open spec fn effective(user: ConfigView, workspace: Option<ConfigView>) -> ConfigView {
    match workspace {
        Some(w) => merged_config(user, w),
        None => user,
    }
}

/// What all sources resolve to. Each source wins over those behind it: the flags, the
/// environment, the workspace, the user, the defaults. In one file the key and the address
/// of the provider's own table win over those at the top, and the headers at the top over
/// those of the table.
pub open spec fn resolved(
    user: ConfigView,
    workspace: Option<ConfigView>,
    cli: CliOverrides,
    env: EnvOverrides,
    roots: SearchRoots,
) -> ResolvedView {
    let merged = effective(user, workspace);
    let named = or_empty(workspace);
    let provider = resolved_provider(cli, workspace, merged);
    let over = named.providers.of(provider);
    let own = merged.providers.of(provider);
    let key = resolved_key(
        cli,
        env,
        either(
            either(over.api_key, named.api_key),
            either(own.api_key, merged.api_key),
        ),
    );
    ResolvedView {
        provider,
        model: or_text(
            either(
                text::opt_text(cli.model),
                either(
                    text::opt_text(env.model),
                    either(named.model, either(own.model, merged.model)),
                ),
            ),
            DEFAULT_DEEPSEEK_MODEL@,
        ),
        api_key: key.0,
        api_key_source: key.1,
        base_url: or_text(
            either(
                text::opt_text(cli.base_url),
                either(
                    text::opt_text(env.base_url),
                    either(
                        either(over.base_url, named.base_url),
                        either(own.base_url, merged.base_url),
                    ),
                ),
            ),
            DEFAULT_DEEPSEEK_BASE_URL@,
        ),
        approval_policy: or_text(
            either(
                text::opt_text(cli.approval_policy),
                either(named.approval_policy, merged.approval_policy),
            ),
            "unless_trusted"@,
        ),
        sandbox_mode: or_text(
            either(
                text::opt_text(cli.sandbox_mode),
                either(named.sandbox_mode, merged.sandbox_mode),
            ),
            "auto"@,
        ),
        http_headers: own.http_headers.union_prefer_right(
            merged.http_headers,
        ).union_prefer_right(over.http_headers).union_prefer_right(named.http_headers),
        plugin_paths: search_paths(
            roots.user_plugins@,
            merged.plugins,
            text::opt_text(roots.workspace_plugins),
        ),
        skill_paths: search_paths(
            roots.user_skills@,
            merged.skills,
            text::opt_text(roots.workspace_skills),
        ),
    }
}

fn collect_paths(user: &String, extra: Option<&Vec<String>>, workspace: &Option<String>) -> (r: Vec<
    String,
>)
    ensures
        text::texts(r@) == search_paths(
            user@,
            match extra {
                Some(v) => Some(text::texts(v@)),
                None => None,
            },
            text::opt_text(*workspace),
        ),
{
    let mut out: Vec<String> = Vec::new();
    out.push(user.clone());
    assert(text::texts(out@) =~= seq![user@]);
    if let Some(v) = extra {
        let ghost all = text::texts(v@);
        let mut i: usize = 0;
        assert(seq![user@] + all.take(0) =~= seq![user@]);
        while i < v.len()
            invariant
                i <= v.len(),
                all == text::texts(v@),
                text::texts(out@) == seq![user@] + all.take(i as int),
            decreases v.len() - i,
        {
            let ghost prior = out@;
            out.push(v[i].clone());
            assert(text::texts(out@) =~= text::texts(prior).push(all[i as int]));
            assert(seq![user@] + all.take(i + 1) =~= (seq![user@] + all.take(i as int)).push(
                all[i as int],
            ));
            i = i + 1;
        }
        assert(all.take(i as int) =~= all);
    } else {
        assert(seq![user@] + Seq::<Seq<char>>::empty() =~= seq![user@]);
    }
    if let Some(w) = workspace {
        let ghost prior = out@;
        out.push(w.clone());
        assert(text::texts(out@) =~= text::texts(prior).push(w@));
    }
    out
}

fn resolve_key(
    cli: &CliOverrides,
    env: &EnvOverrides,
    file: Option<String>,
) -> (r: (Option<String>, ApiKeySource))
    ensures
        (text::opt_text(r.0), r.1) == resolved_key(*cli, *env, text::opt_text(file)),
{
    if cli.api_key.is_some() {
        (text::clone_opt(&cli.api_key), ApiKeySource::Cli)
    } else if env.api_key.is_some() {
        (text::clone_opt(&env.api_key), ApiKeySource::EnvVar)
    } else if file.is_some() {
        (file, ApiKeySource::ConfigFile)
    } else {
        (None, ApiKeySource::Missing)
    }
}

/// The configuration of the user, as it was loaded.
#[derive(Debug)]
pub struct ConfigStore {
    config: ConfigToml,
}

/// The configuration of a workspace, over plain texts.
pub open spec fn opt_config(o: Option<&ConfigToml>) -> Option<ConfigView> {
    match o {
        Some(c) => Some(c@),
        None => None,
    }
}

fn copy_provider(c: &ProviderConfig) -> (r: ProviderConfig)
    requires
        c.http_headers.wf(),
    ensures
        r.http_headers.wf(),
        r@ == c@,
{
    ProviderConfig {
        api_key: text::clone_opt(&c.api_key),
        base_url: text::clone_opt(&c.base_url),
        model: text::clone_opt(&c.model),
        http_headers: clone_headers(&c.http_headers),
    }
}

fn copy_config(c: &ConfigToml) -> (r: ConfigToml)
    requires
        c.wf(),
    ensures
        r.wf(),
        r@ == c@,
{
    proof {
        assert(c.providers.of(ProviderKind::Deepseek).http_headers.wf());
        assert(c.providers.of(ProviderKind::Openai).http_headers.wf());
        assert(c.providers.of(ProviderKind::Openrouter).http_headers.wf());
        assert(c.providers.of(ProviderKind::Ollama).http_headers.wf());
        assert(c.providers.of(ProviderKind::Vllm).http_headers.wf());
        assert(c.providers.of(ProviderKind::Sglang).http_headers.wf());
    }
    ConfigToml {
        api_key: text::clone_opt(&c.api_key),
        base_url: text::clone_opt(&c.base_url),
        http_headers: clone_headers(&c.http_headers),
        default_model: text::clone_opt(&c.default_model),
        provider: c.provider,
        model: text::clone_opt(&c.model),
        approval_policy: text::clone_opt(&c.approval_policy),
        sandbox_mode: text::clone_opt(&c.sandbox_mode),
        providers: ProvidersConfig {
            deepseek: copy_provider(&c.providers.deepseek),
            openai: copy_provider(&c.providers.openai),
            openrouter: copy_provider(&c.providers.openrouter),
            ollama: copy_provider(&c.providers.ollama),
            vllm: copy_provider(&c.providers.vllm),
            sglang: copy_provider(&c.providers.sglang),
        },
        plugins: match &c.plugins {
            Some(p) => Some(PluginsConfig { extra_paths: text::clone_texts(&p.extra_paths) }),
            None => None,
        },
        skills: match &c.skills {
            Some(p) => Some(SkillsConfig { extra_paths: text::clone_texts(&p.extra_paths) }),
            None => None,
        },
    }
}

impl ConfigStore {
    pub closed spec fn loaded(&self) -> ConfigToml {
        self.config
    }

    pub fn new(config: ConfigToml) -> (r: Self)
        ensures
            r.loaded() == config,
    {
        ConfigStore { config }
    }

    pub fn config(&self) -> (r: &ConfigToml)
        ensures
            *r == self.loaded(),
    {
        &self.config
    }

    /// Resolves all sources to the configuration that the runtime works with.
    pub fn resolve(
        &self,
        cli: &CliOverrides,
        env: &EnvOverrides,
        workspace: Option<&ConfigToml>,
        roots: &SearchRoots,
    ) -> (r: ResolvedConfig)
        requires
            self.loaded().wf(),
            workspace matches Some(w) ==> w.wf(),
        ensures
            r.http_headers.wf(),
            r@ == resolved(self.loaded()@, opt_config(workspace), *cli, *env, *roots),
    {
        let mut merged = copy_config(&self.config);
        if let Some(w) = workspace {
            merge_config(&mut merged, w);
        }
        assert(merged@ == effective(self.loaded()@, opt_config(workspace)));
        let provider = match cli.provider {
            Some(p) => p,
            None => match workspace {
                Some(w) => if w.provider != ProviderKind::Deepseek {
                    w.provider
                } else {
                    merged.provider
                },
                None => merged.provider,
            },
        };
        let own = merged.providers.for_provider(provider);
        let (ws_key, ws_url): (Option<String>, Option<String>) = match workspace {
            Some(w) => {
                let over = w.providers.for_provider(provider);
                (pick(&over.api_key, &w.api_key), pick(&over.base_url, &w.base_url))
            },
            None => (None, None),
        };
        let (api_key, api_key_source) = resolve_key(
            cli,
            env,
            pick(&ws_key, &pick(&own.api_key, &merged.api_key)),
        );
        let (ws_model, ws_policy, ws_sandbox): (Option<String>, Option<String>, Option<String>) =
            match workspace {
            Some(w) => (
                text::clone_opt(&w.model),
                text::clone_opt(&w.approval_policy),
                text::clone_opt(&w.sandbox_mode),
            ),
            None => (None, None, None),
        };
        let model = pick_or(
            pick(
                &cli.model,
                &pick(&env.model, &pick(&ws_model, &pick(&own.model, &merged.model))),
            ),
            DEFAULT_DEEPSEEK_MODEL,
        );
        let base_url = pick_or(
            pick(
                &cli.base_url,
                &pick(&env.base_url, &pick(&ws_url, &pick(&own.base_url, &merged.base_url))),
            ),
            DEFAULT_DEEPSEEK_BASE_URL,
        );
        let approval_policy = pick_or(
            pick(&cli.approval_policy, &pick(&ws_policy, &merged.approval_policy)),
            "unless_trusted",
        );
        let sandbox_mode = pick_or(
            pick(&cli.sandbox_mode, &pick(&ws_sandbox, &merged.sandbox_mode)),
            "auto",
        );
        let mut http_headers = clone_headers(&merged.http_headers);
        add_headers(&mut http_headers, &own.http_headers);
        if let Some(w) = workspace {
            let over = w.providers.for_provider(provider);
            set_headers(&mut http_headers, &over.http_headers);
            set_headers(&mut http_headers, &w.http_headers);
        }
        assert(headers_of(http_headers) =~= resolved(
            self.loaded()@,
            opt_config(workspace),
            *cli,
            *env,
            *roots,
        ).http_headers);
        let plugin_paths = collect_paths(
            &roots.user_plugins,
            match &merged.plugins {
                Some(p) => Some(&p.extra_paths),
                None => None,
            },
            &roots.workspace_plugins,
        );
        let skill_paths = collect_paths(
            &roots.user_skills,
            match &merged.skills {
                Some(p) => Some(&p.extra_paths),
                None => None,
            },
            &roots.workspace_skills,
        );
        ResolvedConfig {
            provider,
            model,
            api_key,
            api_key_source,
            base_url,
            approval_policy,
            sandbox_mode,
            http_headers,
            plugin_paths,
            skill_paths,
        }
    }
}

/// Flags win over every other source.
pub proof fn law_flags_win(
    user: ConfigView,
    workspace: Option<ConfigView>,
    cli: CliOverrides,
    env: EnvOverrides,
    roots: SearchRoots,
)
    ensures
        ({
            let r = resolved(user, workspace, cli, env, roots);
            &&& cli.provider matches Some(p) ==> r.provider == p
            &&& cli.model matches Some(s) ==> r.model == s@
            &&& cli.api_key matches Some(s) ==> r.api_key == Some(s@) && r.api_key_source is Cli
            &&& cli.base_url matches Some(s) ==> r.base_url == s@
            &&& cli.approval_policy matches Some(s) ==> r.approval_policy == s@
            &&& cli.sandbox_mode matches Some(s) ==> r.sandbox_mode == s@
        }),
{
}

/// The environment wins over the files, and a workspace over the user in what both set at
/// the top of the file: the model, the approval policy and the sandbox.
pub proof fn law_environment_then_workspace(
    user: ConfigView,
    workspace: ConfigView,
    cli: CliOverrides,
    env: EnvOverrides,
    roots: SearchRoots,
)
    ensures
        ({
            let r = resolved(user, Some(workspace), cli, env, roots);
            &&& cli.model is None && env.model is Some ==> Some(r.model) == text::opt_text(env.model)
            &&& cli.api_key is None && env.api_key is Some ==> r.api_key == text::opt_text(
                env.api_key,
            ) && r.api_key_source is EnvVar
            &&& cli.base_url is None && env.base_url is Some ==> Some(r.base_url)
                == text::opt_text(env.base_url)
            &&& cli.model is None && env.model is None && workspace.model is Some ==> Some(r.model)
                == workspace.model
            &&& cli.approval_policy is None && workspace.approval_policy is Some ==> Some(
                r.approval_policy,
            ) == workspace.approval_policy
            &&& cli.sandbox_mode is None && workspace.sandbox_mode is Some ==> Some(r.sandbox_mode)
                == workspace.sandbox_mode
        }),
{
}

/// A workspace wins over the user, for every provider: in what it sets for the provider, in
/// what it sets at the top of the file, and in the places it names. A provider other than the
/// default one is chosen by the workspace; the default one stands for none.
pub proof fn law_workspace_over_user(
    user: ConfigView,
    workspace: ConfigView,
    cli: CliOverrides,
    env: EnvOverrides,
    roots: SearchRoots,
)
    ensures
        ({
            let r = resolved(user, Some(workspace), cli, env, roots);
            let over = workspace.providers.of(r.provider);
            let key = either(over.api_key, workspace.api_key);
            let url = either(over.base_url, workspace.base_url);
            let model = either(workspace.model, over.model);
            let headers = over.http_headers.union_prefer_right(workspace.http_headers);
            &&& cli.provider is None && workspace.provider != ProviderKind::Deepseek ==> r.provider
                == workspace.provider
            &&& cli.api_key is None && env.api_key is None && key is Some ==> r.api_key == key
                && r.api_key_source is ConfigFile
            &&& cli.base_url is None && env.base_url is None && url is Some ==> Some(r.base_url)
                == url
            &&& cli.model is None && env.model is None && model is Some ==> Some(r.model) == model
            &&& forall|k: Seq<char>| #[trigger]
                headers.dom().contains(k) ==> r.http_headers.dom().contains(k)
                    && r.http_headers[k] == headers[k]
            &&& workspace.plugins is Some ==> r.plugin_paths == search_paths(
                roots.user_plugins@,
                workspace.plugins,
                text::opt_text(roots.workspace_plugins),
            )
            &&& workspace.skills is Some ==> r.skill_paths == search_paths(
                roots.user_skills@,
                workspace.skills,
                text::opt_text(roots.workspace_skills),
            )
        }),
{
}

/// The file of the user wins over the defaults, and in it what is set for the provider over
/// what is set at the top.
pub proof fn law_user_over_defaults(
    user: ConfigView,
    cli: CliOverrides,
    env: EnvOverrides,
    roots: SearchRoots,
)
    ensures
        ({
            let r = resolved(user, None, cli, env, roots);
            let own = user.providers.of(r.provider);
            &&& cli.provider is None ==> r.provider == user.provider
            &&& cli.model is None && env.model is None && (own.model is Some || user.model is Some)
                ==> Some(r.model) == either(own.model, user.model)
            &&& cli.base_url is None && env.base_url is None && (own.base_url is Some
                || user.base_url is Some) ==> Some(r.base_url) == either(
                own.base_url,
                user.base_url,
            )
            &&& cli.api_key is None && env.api_key is None ==> r.api_key == either(
                own.api_key,
                user.api_key,
            )
            &&& cli.approval_policy is None && user.approval_policy is Some ==> Some(
                r.approval_policy,
            ) == user.approval_policy
            &&& cli.sandbox_mode is None && user.sandbox_mode is Some ==> Some(r.sandbox_mode)
                == user.sandbox_mode
        }),
{
}

/// A workspace in which nothing is named changes nothing.
pub proof fn law_empty_workspace_changes_nothing(
    user: ConfigView,
    cli: CliOverrides,
    env: EnvOverrides,
    roots: SearchRoots,
)
    ensures
        resolved(user, Some(empty_config()), cli, env, roots) == resolved(
            user,
            None,
            cli,
            env,
            roots,
        ),
{
    assert(merged_provider(user.providers.deepseek, empty_provider()).http_headers
        =~= user.providers.deepseek.http_headers);
    assert(merged_provider(user.providers.openai, empty_provider()).http_headers
        =~= user.providers.openai.http_headers);
    assert(merged_provider(user.providers.openrouter, empty_provider()).http_headers
        =~= user.providers.openrouter.http_headers);
    assert(merged_provider(user.providers.ollama, empty_provider()).http_headers
        =~= user.providers.ollama.http_headers);
    assert(merged_provider(user.providers.vllm, empty_provider()).http_headers
        =~= user.providers.vllm.http_headers);
    assert(merged_provider(user.providers.sglang, empty_provider()).http_headers
        =~= user.providers.sglang.http_headers);
    assert(merged_config(user, empty_config()) == user);
    assert(resolved(user, Some(empty_config()), cli, env, roots).http_headers =~= resolved(
        user,
        None,
        cli,
        env,
        roots,
    ).http_headers);
}

/// Where nothing is configured the defaults hold.
pub proof fn law_defaults_hold(roots: SearchRoots)
    ensures
        ({
            let r = resolved(
                empty_config(),
                None,
                CliOverrides {
                    provider: None,
                    model: None,
                    api_key: None,
                    base_url: None,
                    approval_policy: None,
                    sandbox_mode: None,
                },
                EnvOverrides { api_key: None, model: None, base_url: None },
                roots,
            );
            &&& r.provider is Deepseek
            &&& r.model == DEFAULT_DEEPSEEK_MODEL@
            &&& r.api_key is None
            &&& r.api_key_source is Missing
            &&& r.base_url == DEFAULT_DEEPSEEK_BASE_URL@
            &&& r.approval_policy == "unless_trusted"@
            &&& r.sandbox_mode == "auto"@
        }),
{
}

/// Errors of loading a configuration. What the system or the parser said is given as text.
#[derive(Debug)]
pub enum ConfigError {
    NoHomeDir,
    ReadError { path: String, source: String },
    ParseError { path: String, source: String },
}

impl ConfigError {
    pub open spec fn message(&self) -> Seq<char> {
        match *self {
            ConfigError::NoHomeDir => "could not determine home directory"@,
            ConfigError::ReadError { path, source } => "failed to read config at "@ + path@ + ": "@
                + source@,
            ConfigError::ParseError { path, source } => "failed to parse config at "@ + path@
                + ": "@ + source@,
        }
    }

    pub fn to_string(&self) -> (r: String)
        ensures
            r@ == self.message(),
    {
        match self {
            ConfigError::NoHomeDir => text::owned("could not determine home directory"),
            ConfigError::ReadError { path, source } => {
                let head = text::cat3("failed to read config at ", path.as_str(), ": ");
                text::cat(head.as_str(), source.as_str())
            },
            ConfigError::ParseError { path, source } => {
                let head = text::cat3("failed to parse config at ", path.as_str(), ": ");
                text::cat(head.as_str(), source.as_str())
            },
        }
    }
}

/// Each provider has its name and one other that it goes by.
pub proof fn law_providers_go_by_their_names(k: ProviderKind)
    ensures
        k is Deepseek ==> k.goes_by("deepseek"@) && k.goes_by("deep-seek"@),
        k is Openai ==> k.goes_by("openai"@) && k.goes_by("open-ai"@),
        k is Openrouter ==> k.goes_by("openrouter"@) && k.goes_by("open_router"@),
        k is Ollama ==> k.goes_by("ollama"@) && k.goes_by("ollama-local"@),
        k is Vllm ==> k.goes_by("vllm"@) && k.goes_by("v-llm"@),
        k is Sglang ==> k.goes_by("sglang"@) && k.goes_by("sg-lang"@),
{
}

/// The settings of a provider are those of its own table.
pub proof fn law_settings_are_of_the_provider(v: ProvidersView)
    ensures
        v.of(ProviderKind::Deepseek) == v.deepseek,
        v.of(ProviderKind::Openai) == v.openai,
        v.of(ProviderKind::Openrouter) == v.openrouter,
        v.of(ProviderKind::Ollama) == v.ollama,
        v.of(ProviderKind::Vllm) == v.vllm,
        v.of(ProviderKind::Sglang) == v.sglang,
{
}

/// Laying a workspace over the user goes field by field, for every provider as well as at
/// the top: what the workspace names holds, what it does not name stays. Headers of a
/// provider are joined; those at the top are replaced where the workspace has any.
pub proof fn law_merge_is_field_by_field(base: ConfigView, over: ConfigView, k: ProviderKind)
    ensures
        ({
            let m = merged_config(base, over);
            let p = m.providers.of(k);
            let b = base.providers.of(k);
            let o = over.providers.of(k);
            &&& over.api_key is Some ==> m.api_key == over.api_key
            &&& over.api_key is None ==> m.api_key == base.api_key
            &&& over.base_url is Some ==> m.base_url == over.base_url
            &&& over.base_url is None ==> m.base_url == base.base_url
            &&& over.default_model is Some ==> m.default_model == over.default_model
            &&& over.default_model is None ==> m.default_model == base.default_model
            &&& over.model is Some ==> m.model == over.model
            &&& over.model is None ==> m.model == base.model
            &&& over.approval_policy is Some ==> m.approval_policy == over.approval_policy
            &&& over.approval_policy is None ==> m.approval_policy == base.approval_policy
            &&& over.sandbox_mode is Some ==> m.sandbox_mode == over.sandbox_mode
            &&& over.sandbox_mode is None ==> m.sandbox_mode == base.sandbox_mode
            &&& over.plugins is Some ==> m.plugins == over.plugins
            &&& over.plugins is None ==> m.plugins == base.plugins
            &&& over.skills is Some ==> m.skills == over.skills
            &&& over.skills is None ==> m.skills == base.skills
            &&& m.provider == base.provider
            &&& forall|h: Seq<char>| #[trigger]
                over.http_headers.dom().contains(h) ==> m.http_headers == over.http_headers
            &&& over.http_headers =~= Map::<Seq<char>, Seq<char>>::empty() ==> m.http_headers
                == base.http_headers
            &&& o.api_key is Some ==> p.api_key == o.api_key
            &&& o.api_key is None ==> p.api_key == b.api_key
            &&& o.base_url is Some ==> p.base_url == o.base_url
            &&& o.base_url is None ==> p.base_url == b.base_url
            &&& o.model is Some ==> p.model == o.model
            &&& o.model is None ==> p.model == b.model
            &&& forall|h: Seq<char>| #[trigger]
                p.http_headers.dom().contains(h) <==> o.http_headers.dom().contains(h)
                    || b.http_headers.dom().contains(h)
            &&& forall|h: Seq<char>| #[trigger]
                o.http_headers.dom().contains(h) ==> p.http_headers[h] == o.http_headers[h]
            &&& forall|h: Seq<char>| #[trigger]
                b.http_headers.dom().contains(h) && !o.http_headers.dom().contains(h)
                    ==> p.http_headers[h] == b.http_headers[h]
        }),
{
}

/// Plugins and skills are looked for in the place of the user first, then in the configured
/// places in their order, and in that of the workspace last.
pub proof fn law_places_are_searched_in_order(
    user: Seq<char>,
    extra: Option<Seq<Seq<char>>>,
    workspace: Option<Seq<char>>,
)
    ensures
        ({
            let v = search_paths(user, extra, workspace);
            let n = match extra {
                Some(e) => e.len() as int,
                None => 0int,
            };
            &&& v[0] == user
            &&& v.len() == 1 + n + (if workspace is Some {
                1int
            } else {
                0int
            })
            &&& forall|i: int| 0 <= i < n ==> #[trigger] v[1 + i] == extra->0[i]
            &&& workspace matches Some(w) ==> v.last() == w
        }),
{
}

/// A key, an address or a model of a file is taken from where it is set most closely: for
/// the provider in the workspace, at the top of the workspace, for the provider by the user,
/// at the top of the user's file. The model of a workspace is the one at its top.
pub proof fn law_closest_setting_holds(
    user: ConfigView,
    workspace: ConfigView,
    cli: CliOverrides,
    env: EnvOverrides,
    roots: SearchRoots,
)
    requires
        cli.api_key is None,
        env.api_key is None,
        cli.base_url is None,
        env.base_url is None,
        cli.model is None,
        env.model is None,
    ensures
        ({
            let r = resolved(user, Some(workspace), cli, env, roots);
            let w = workspace.providers.of(r.provider);
            let u = user.providers.of(r.provider);
            &&& w.api_key is Some ==> r.api_key == w.api_key
            &&& w.api_key is None && workspace.api_key is Some ==> r.api_key == workspace.api_key
            &&& w.api_key is None && workspace.api_key is None && u.api_key is Some ==> r.api_key
                == u.api_key
            &&& w.api_key is None && workspace.api_key is None && u.api_key is None ==> r.api_key
                == user.api_key
            &&& r.api_key is Some ==> r.api_key_source is ConfigFile
            &&& r.api_key is None ==> r.api_key_source is Missing
            &&& w.base_url matches Some(s) ==> r.base_url == s
            &&& w.base_url is None ==> (workspace.base_url matches Some(s) ==> r.base_url == s)
            &&& w.base_url is None && workspace.base_url is None ==> (u.base_url matches Some(s)
                ==> r.base_url == s)
            &&& w.base_url is None && workspace.base_url is None && u.base_url is None
                ==> (user.base_url matches Some(s) ==> r.base_url == s)
            &&& w.base_url is None && workspace.base_url is None && u.base_url is None
                && user.base_url is None ==> r.base_url == "https://api.deepseek.com/v1"@
            &&& workspace.model matches Some(s) ==> r.model == s
            &&& workspace.model is None ==> (w.model matches Some(s) ==> r.model == s)
            &&& workspace.model is None && w.model is None ==> (u.model matches Some(s) ==> r.model
                == s)
            &&& workspace.model is None && w.model is None && u.model is None
                ==> (user.model matches Some(s) ==> r.model == s)
            &&& workspace.model is None && w.model is None && u.model is None && user.model is None
                ==> r.model == "deepseek-v4-pro"@
        }),
{
}

/// Of the headers of the user those at the top win over those of the provider, and none is
/// lost.
pub proof fn law_headers_of_the_user(
    user: ConfigView,
    cli: CliOverrides,
    env: EnvOverrides,
    roots: SearchRoots,
    h: Seq<char>,
)
    ensures
        ({
            let r = resolved(user, None, cli, env, roots);
            let own = user.providers.of(r.provider).http_headers;
            &&& r.http_headers.dom().contains(h) <==> user.http_headers.dom().contains(h)
                || own.dom().contains(h)
            &&& user.http_headers.dom().contains(h) ==> r.http_headers[h] == user.http_headers[h]
            &&& own.dom().contains(h) && !user.http_headers.dom().contains(h) ==> r.http_headers[h]
                == own[h]
        }),
{
}

/// The source of a key is named after where it came from.
pub proof fn law_key_sources_are_named(s: ApiKeySource)
    ensures
        s is Cli ==> s.name() == "cli"@,
        s is ConfigFile ==> s.name() == "config"@,
        s is EnvVar ==> s.name() == "env"@,
        s is Missing ==> s.name() == "none"@,
{
}

/// An error of loading names the file and ends in what was said of it.
pub proof fn law_config_errors_name_the_file(e: ConfigError)
    ensures
        e matches ConfigError::ReadError { path, source } ==> e.message()
            == "failed to read config at "@ + path@ + ": "@ + source@,
        e matches ConfigError::ParseError { path, source } ==> e.message()
            == "failed to parse config at "@ + path@ + ": "@ + source@,
        e is NoHomeDir ==> e.message() == "could not determine home directory"@,
{
}

/// What is seen of a config toml is all that it holds.
pub proof fn law_config_toml_is_seen_whole(c: ConfigToml)
    ensures
        c@.api_key == text::opt_text(c.api_key),
        c@.base_url == text::opt_text(c.base_url),
        c@.http_headers == headers_of(c.http_headers),
        c@.default_model == text::opt_text(c.default_model),
        c@.provider == c.provider,
        c@.model == text::opt_text(c.model),
        c@.approval_policy == text::opt_text(c.approval_policy),
        c@.sandbox_mode == text::opt_text(c.sandbox_mode),
        c@.providers == c.providers@,
        c@.plugins == (match c.plugins { Some(p) => Some(text::texts(p.extra_paths@)), None => None, }),
        c@.skills == (match c.skills { Some(p) => Some(text::texts(p.extra_paths@)), None => None, }),
{
}

/// What is seen of a provider config is all that it holds.
pub proof fn law_provider_config_is_seen_whole(p: ProviderConfig)
    ensures
        p@.api_key == text::opt_text(p.api_key),
        p@.base_url == text::opt_text(p.base_url),
        p@.model == text::opt_text(p.model),
        p@.http_headers == headers_of(p.http_headers),
{
}

/// What is seen of a resolved config is all that it holds.
pub proof fn law_resolved_config_is_seen_whole(r: ResolvedConfig)
    ensures
        r@.provider == r.provider,
        r@.model == r.model@,
        r@.api_key == text::opt_text(r.api_key),
        r@.api_key_source == r.api_key_source,
        r@.base_url == r.base_url@,
        r@.approval_policy == r.approval_policy@,
        r@.sandbox_mode == r.sandbox_mode@,
        r@.http_headers == headers_of(r.http_headers),
        r@.plugin_paths == text::texts(r.plugin_paths@),
        r@.skill_paths == text::texts(r.skill_paths@),
{
}

/// The configuration of a workspace counts as it is, where there is one; headers are seen
/// under their names.
pub proof fn law_workspace_counts_as_it_is(c: &ConfigToml, h: Table<String>, name: Seq<char>)
    ensures
        opt_config(Some(c)) == Some(c@),
        opt_config(None) is None,
        headers_of(h).dom().contains(name) <==> h@.dom().contains(name),
        h@.dom().contains(name) ==> headers_of(h)[name] == h@[name]@,
{
}

} // verus!
