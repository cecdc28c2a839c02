//! Tool calls: their payloads, outputs and the specifications shown to models.

use super::id::ToolCallId;
use crate::json;
use crate::text;
use serde_json::Value;
use vstd::prelude::*;

verus! {

/// The payload of a tool call.
#[derive(Debug)]
pub enum ToolPayload {
    /// A function call with JSON arguments.
    Function { arguments: String },
    /// Free-form input.
    Custom { input: String },
    /// A local shell command.
    LocalShell { command: String, cwd: Option<String>, timeout_ms: Option<u64> },
    /// A call routed through an MCP server.
    Mcp { server: String, tool: String, raw_arguments: Value },
}

/// A tool call payload, over plain texts.
pub enum PayloadView {
    Function { arguments: Seq<char> },
    Custom { input: Seq<char> },
    LocalShell { command: Seq<char>, cwd: Option<Seq<char>>, timeout_ms: Option<u64> },
    Mcp { server: Seq<char>, tool: Seq<char>, raw_arguments: Seq<char> },
}

impl View for ToolPayload {
    type V = PayloadView;

    open spec fn view(&self) -> PayloadView {
        match *self {
            ToolPayload::Function { arguments } => PayloadView::Function { arguments: arguments@ },
            ToolPayload::Custom { input } => PayloadView::Custom { input: input@ },
            ToolPayload::LocalShell { command, cwd, timeout_ms } => PayloadView::LocalShell { command: command@, cwd: text::opt_text(cwd), timeout_ms },
            ToolPayload::Mcp { server, tool, raw_arguments } => PayloadView::Mcp { server: server@, tool: tool@, raw_arguments: json::json_text(raw_arguments) },
        }
    }
}

impl Clone for ToolPayload {
    fn clone(&self) -> (r: Self)
        ensures
            r@ == self@,
    {
        match self {
            ToolPayload::Function { arguments } => ToolPayload::Function { arguments: arguments.clone() },
            ToolPayload::Custom { input } => ToolPayload::Custom { input: input.clone() },
            ToolPayload::LocalShell { command, cwd, timeout_ms } => ToolPayload::LocalShell { command: command.clone(), cwd: text::clone_opt(cwd), timeout_ms: *timeout_ms },
            ToolPayload::Mcp { server, tool, raw_arguments } => ToolPayload::Mcp { server: server.clone(), tool: tool.clone(), raw_arguments: raw_arguments.clone() },
        }
    }
}

/// What a tool returned.
#[derive(Debug)]
pub enum ToolOutput {
    Function { body: Option<Value>, success: bool },
    Mcp { result: Value },
}

/// A tool output, over plain texts.
pub enum OutputView {
    Function { body: Option<Seq<char>>, success: bool },
    Mcp { result: Seq<char> },
}

impl View for ToolOutput {
    type V = OutputView;

    open spec fn view(&self) -> OutputView {
        match *self {
            ToolOutput::Function { body, success } => OutputView::Function { body: json::opt_json(body), success },
            ToolOutput::Mcp { result } => OutputView::Mcp { result: json::json_text(result) },
        }
    }
}

impl Clone for ToolOutput {
    fn clone(&self) -> (r: Self)
        ensures
            r@ == self@,
    {
        match self {
            ToolOutput::Function { body, success } => ToolOutput::Function { body: json::clone_opt_value(body), success: *success },
            ToolOutput::Mcp { result } => ToolOutput::Mcp { result: result.clone() },
        }
    }
}

/// A tool invocation ready to be carried out.
#[derive(Debug)]
pub struct ToolInvocation {
    pub call_id: ToolCallId,
    pub tool_name: String,
    pub payload: ToolPayload,
}

/// A tool invocation, over plain texts.
pub struct InvocationView {
    pub call_id: Seq<char>,
    pub tool_name: Seq<char>,
    pub payload: PayloadView,
}

impl View for ToolInvocation {
    type V = InvocationView;

    open spec fn view(&self) -> InvocationView {
        InvocationView {
            call_id: self.call_id@,
            tool_name: self.tool_name@,
            payload: self.payload@,
        }
    }
}

impl Clone for ToolInvocation {
    fn clone(&self) -> (r: Self)
        ensures
            r@ == self@,
    {
        ToolInvocation {
            call_id: self.call_id.clone(),
            tool_name: self.tool_name.clone(),
            payload: self.payload.clone(),
        }
    }
}

/// The JSON schema of a tool input.
#[derive(Debug)]
pub struct ToolSchema {
    pub name: String,
    pub description: String,
    pub input_schema: Value,
}

/// A tool schema, over plain texts.
pub struct SchemaView {
    pub name: Seq<char>,
    pub description: Seq<char>,
    pub input_schema: Seq<char>,
}

impl View for ToolSchema {
    type V = SchemaView;

    open spec fn view(&self) -> SchemaView {
        SchemaView {
            name: self.name@,
            description: self.description@,
            input_schema: json::json_text(self.input_schema),
        }
    }
}

impl Clone for ToolSchema {
    fn clone(&self) -> (r: Self)
        ensures
            r@ == self@,
    {
        ToolSchema {
            name: self.name.clone(),
            description: self.description.clone(),
            input_schema: self.input_schema.clone(),
        }
    }
}

/// Name, description and parameters of a function tool.
#[derive(Debug)]
pub struct ToolSpecDetails {
    pub name: String,
    pub description: String,
    pub parameters: Value,
}

/// A function tool, over plain texts.
pub struct SpecDetailsView {
    pub name: Seq<char>,
    pub description: Seq<char>,
    pub parameters: Seq<char>,
}

impl View for ToolSpecDetails {
    type V = SpecDetailsView;

    open spec fn view(&self) -> SpecDetailsView {
        SpecDetailsView {
            name: self.name@,
            description: self.description@,
            parameters: json::json_text(self.parameters),
        }
    }
}

impl Clone for ToolSpecDetails {
    fn clone(&self) -> (r: Self)
        ensures
            r@ == self@,
    {
        ToolSpecDetails {
            name: self.name.clone(),
            description: self.description.clone(),
            parameters: self.parameters.clone(),
        }
    }
}

/// A tool as it is shown to a model.
#[derive(Debug)]
pub enum ToolSpec {
    Function(ToolSpecDetails),
}

/// A tool specification, over plain texts.
pub enum ToolSpecView {
    Function(SpecDetailsView),
}

impl View for ToolSpec {
    type V = ToolSpecView;

    open spec fn view(&self) -> ToolSpecView {
        match *self {
            ToolSpec::Function(x) => ToolSpecView::Function(x@),
        }
    }
}

impl Clone for ToolSpec {
    fn clone(&self) -> (r: Self)
        ensures
            r@ == self@,
    {
        match self {
            ToolSpec::Function(x) => ToolSpec::Function(x.clone()),
        }
    }
}

/// A list of tool specifications, copied one by one.
pub fn clone_specs(v: &Vec<ToolSpec>) -> (r: Vec<ToolSpec>)
    ensures
        r@.map_values(|t: ToolSpec| t@) == v@.map_values(|t: ToolSpec| t@),
{
    let mut r: Vec<ToolSpec> = Vec::new();
    let mut i: usize = 0;
    while i < v.len()
        invariant
            i <= v.len(),
            r.len() == i,
            forall|j: int| 0 <= j < i ==> r@[j]@ == v@[j]@,
        decreases v.len() - i,
    {
        r.push(v[i].clone());
        i = i + 1;
    }
    assert(r@.map_values(|t: ToolSpec| t@) =~= v@.map_values(|t: ToolSpec| t@));
    r
}

/// What is seen of a tool payload is all that it holds.
pub proof fn law_tool_payload_is_seen_whole(t: ToolPayload)
    ensures
        t matches ToolPayload::Function { arguments } ==> t@ == (PayloadView::Function { arguments: arguments@ }),
        t matches ToolPayload::Custom { input } ==> t@ == (PayloadView::Custom { input: input@ }),
        t matches ToolPayload::LocalShell { command, cwd, timeout_ms } ==> t@ == (PayloadView::LocalShell { command: command@, cwd: text::opt_text(cwd), timeout_ms }),
        t matches ToolPayload::Mcp { server, tool, raw_arguments } ==> t@ == (PayloadView::Mcp { server: server@, tool: tool@, raw_arguments: json::json_text(raw_arguments) }),
{
}

/// What is seen of a tool output is all that it holds.
pub proof fn law_tool_output_is_seen_whole(t: ToolOutput)
    ensures
        t matches ToolOutput::Function { body, success } ==> t@ == (OutputView::Function { body: json::opt_json(body), success }),
        t matches ToolOutput::Mcp { result } ==> t@ == (OutputView::Mcp { result: json::json_text(result) }),
{
}

/// What is seen of a tool invocation is all that it holds.
pub proof fn law_tool_invocation_is_seen_whole(t: ToolInvocation)
    ensures
        t@.call_id == t.call_id@,
        t@.tool_name == t.tool_name@,
        t@.payload == t.payload@,
{
}

/// What is seen of a tool spec details is all that it holds.
pub proof fn law_tool_spec_details_is_seen_whole(t: ToolSpecDetails)
    ensures
        t@.name == t.name@,
        t@.description == t.description@,
        t@.parameters == json::json_text(t.parameters),
{
}

/// What is seen of a tool spec is all that it holds.
pub proof fn law_tool_spec_is_seen_whole(t: ToolSpec)
    ensures
        t matches ToolSpec::Function(x) ==> t@ == (ToolSpecView::Function(x@)),
{
}

} // verus!
