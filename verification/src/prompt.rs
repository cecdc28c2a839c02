//! The system prompt, built from five layers.

use crate::digest;
use crate::text;
use vstd::prelude::*;

verus! {

/// A system prompt and what caches need to know of it.
#[derive(Debug)]
pub struct BuiltPrompt {
    pub content: String,
    /// The SHA-256 hash of the content in hexadecimal.
    pub static_hash: String,
    pub cacheable: bool,
}

/// The layers of a system prompt.
#[derive(Debug)]
pub struct PromptBuilder {
    /// Replaces every other layer.
    pub override_prompt: Option<String>,
    /// The prompt of an agent; replaces the custom and the default one.
    pub agent_prompt: Option<String>,
    /// The prompt of the user; replaces the default one.
    pub custom_prompt: Option<String>,
    pub default_prompt: String,
    /// Comes behind every prompt but an override.
    pub append_prompt: Option<String>,
}

impl PromptBuilder {
    /// The prompt before the postscript: that of the agent, else that of the user,
    /// else the default.
    pub open spec fn base(&self) -> Seq<char> {
        match self.agent_prompt {
            Some(agent) => agent@,
            None => match self.custom_prompt {
                Some(custom) => custom@,
                None => self.default_prompt@,
            },
        }
    }

    /// The whole prompt.
    pub open spec fn prompt(&self) -> Seq<char> {
        match self.override_prompt {
            Some(o) => o@,
            None => match self.append_prompt {
                Some(a) => self.base() + "\n\n"@ + a@,
                None => self.base(),
            },
        }
    }

    pub fn new(default_prompt: String) -> (r: Self)
        ensures
            r == (PromptBuilder {
                override_prompt: None,
                agent_prompt: None,
                custom_prompt: None,
                default_prompt,
                append_prompt: None,
            }),
    {
        PromptBuilder {
            override_prompt: None,
            agent_prompt: None,
            custom_prompt: None,
            default_prompt,
            append_prompt: None,
        }
    }

    /// Builds the prompt and its hash.
    pub fn build(&self) -> (r: BuiltPrompt)
        ensures
            r.content@ == self.prompt(),
            r.static_hash@ == digest::sha256(self.prompt()),
            r.static_hash@.len() == 64,
            r.cacheable,
    {
        if let Some(o) = &self.override_prompt {
            let static_hash = hash_content(o.as_str());
            return BuiltPrompt { content: o.clone(), static_hash, cacheable: true };
        }
        let base: &String = match &self.agent_prompt {
            Some(agent) => agent,
            None => match &self.custom_prompt {
                Some(custom) => custom,
                None => &self.default_prompt,
            },
        };
        let content = match &self.append_prompt {
            Some(a) => text::cat3(base.as_str(), "\n\n", a.as_str()),
            None => base.clone(),
        };
        let static_hash = hash_content(content.as_str());
        BuiltPrompt { content, static_hash, cacheable: true }
    }

    pub fn with_override(self, prompt: String) -> (r: Self)
        ensures
            r == (PromptBuilder { override_prompt: Some(prompt), ..self }),
    {
        let mut r = self;
        r.override_prompt = Some(prompt);
        r
    }

    pub fn with_agent(self, prompt: String) -> (r: Self)
        ensures
            r == (PromptBuilder { agent_prompt: Some(prompt), ..self }),
    {
        let mut r = self;
        r.agent_prompt = Some(prompt);
        r
    }

    pub fn with_custom(self, prompt: String) -> (r: Self)
        ensures
            r == (PromptBuilder { custom_prompt: Some(prompt), ..self }),
    {
        let mut r = self;
        r.custom_prompt = Some(prompt);
        r
    }

    pub fn with_append(self, prompt: String) -> (r: Self)
        ensures
            r == (PromptBuilder { append_prompt: Some(prompt), ..self }),
    {
        let mut r = self;
        r.append_prompt = Some(prompt);
        r
    }
}

/// The SHA-256 hash of a text in hexadecimal.
fn hash_content(content: &str) -> (r: String)
    ensures
        r@ == digest::sha256(content@),
        r@.len() == 64,
{
    digest::sha256_hex(content)
}

/// An override is the whole prompt, whatever the other layers hold.
pub proof fn law_override_replaces_all(b: PromptBuilder, o: String)
    ensures
        (PromptBuilder { override_prompt: Some(o), ..b }).prompt() == o@,
{
}

/// Without an override the agent's prompt replaces the user's and the default, and
/// the user's replaces the default.
pub proof fn law_layer_order(b: PromptBuilder, agent: String, custom: String, default_prompt: String)
    requires
        b.override_prompt is None,
    ensures
        (PromptBuilder { agent_prompt: Some(agent), ..b }).prompt() == (PromptBuilder {
            agent_prompt: Some(agent),
            custom_prompt: Some(custom),
            default_prompt,
            ..b
        }).prompt(),
        (PromptBuilder { agent_prompt: None, custom_prompt: Some(custom), ..b }).prompt() == (
        PromptBuilder {
            agent_prompt: None,
            custom_prompt: Some(custom),
            default_prompt,
            ..b
        }).prompt(),
{
}

/// Prompts with the same text have the same hash.
pub proof fn law_hash_is_stable(a: BuiltPrompt, b: BuiltPrompt)
    requires
        a.static_hash@ == digest::sha256(a.content@),
        b.static_hash@ == digest::sha256(b.content@),
        a.content@ == b.content@,
    ensures
        a.static_hash@ == b.static_hash@,
{
}

/// The prompt is that of the first layer that there is: the override alone, else that of the
/// agent, of the user, or the default one, with the postscript behind an empty line.
pub proof fn law_first_layer_is_the_prompt(b: PromptBuilder)
    ensures
        b.override_prompt matches Some(o) ==> b.prompt() == o@,
        b.override_prompt is None ==> {
            let base = if b.agent_prompt is Some {
                b.agent_prompt->0@
            } else if b.custom_prompt is Some {
                b.custom_prompt->0@
            } else {
                b.default_prompt@
            };
            &&& b.append_prompt is None ==> b.prompt() == base
            &&& b.append_prompt matches Some(p) ==> b.prompt() == base + "\n\n"@ + p@
        },
{
}

} // verus!
