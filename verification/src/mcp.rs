//! MCP servers: which are known, how their tools become tools of the agent, and how calls
//! are bridged to them.

use crate::json;
use crate::protocol::tool::{
    clone_specs, OutputView, PayloadView, SpecDetailsView, ToolInvocation, ToolOutput, ToolPayload,
    ToolSpec, ToolSpecDetails, ToolSpecView,
};
use crate::model;
use crate::table::Table;
use crate::text;
use serde_json::Value;
use vstd::prelude::*;

verus! {

/// The parameters of the request that opens a session with a server.
pub const INITIALIZE_PARAMS: &'static str = "{\"protocolVersion\":\"2024-11-05\",\"capabilities\":{},\"clientInfo\":{\"name\":\"deepomni\",\"version\":\"0.1.0\"}}";

/// A JSON-RPC request.
#[derive(Debug)]
pub struct JsonRpcRequest {
    pub jsonrpc: String,
    pub id: u64,
    pub method: String,
    pub params: Option<Value>,
}

/// A tool as a server lists it.
#[derive(Debug)]
pub struct McpToolDef {
    pub name: String,
    pub description: Option<String>,
    pub input_schema: Value,
}

/// The state of the connection to a server.
#[derive(Debug, PartialEq, Eq)]
pub enum McpServerStatus {
    Disconnected,
    Connecting,
    Ready,
    Failed { error: String },
}

/// Errors of MCP. What the system said is given as text.
#[derive(Debug)]
pub enum McpError {
    ServerNotFound(String),
    StartFailed { server: String, reason: String },
    Io(String),
    Protocol { server: String, message: String },
}

impl McpError {
    pub open spec fn message(&self) -> Seq<char> {
        match *self {
            McpError::ServerNotFound(name) => "MCP server not found: "@ + name@,
            McpError::StartFailed { server, reason } => "failed to start MCP server "@ + server@
                + ": "@ + reason@,
            McpError::Io(e) => "MCP I/O error: "@ + e@,
            McpError::Protocol { server, message } => "MCP protocol error ("@ + server@ + "): "@
                + message@,
        }
    }

    pub fn to_string(&self) -> (r: String)
        ensures
            r@ == self.message(),
    {
        match self {
            McpError::ServerNotFound(name) => text::cat("MCP server not found: ", name.as_str()),
            McpError::StartFailed { server, reason } => {
                let head = text::cat3("failed to start MCP server ", server.as_str(), ": ");
                text::cat(head.as_str(), reason.as_str())
            },
            McpError::Io(e) => text::cat("MCP I/O error: ", e.as_str()),
            McpError::Protocol { server, message } => {
                let head = text::cat3("MCP protocol error (", server.as_str(), "): ");
                text::cat(head.as_str(), message.as_str())
            },
        }
    }
}

/// A server over standard input and output.
#[derive(Debug)]
pub struct McpServer {
    pub name: String,
    pub command: String,
    pub args: Vec<String>,
    pub status: McpServerStatus,
    pub tools: Vec<ToolSpec>,
}

/// A server, over plain texts.
pub struct ServerView {
    pub name: Seq<char>,
    pub command: Seq<char>,
    pub args: Seq<Seq<char>>,
    pub status: McpServerStatus,
    pub tools: Seq<ToolSpecView>,
}

impl View for McpServer {
    type V = ServerView;

    open spec fn view(&self) -> ServerView {
        ServerView {
            name: self.name@,
            command: self.command@,
            args: text::texts(self.args@),
            status: self.status,
            tools: model::tools(self.tools@),
        }
    }
}

impl McpServer {
    /// The server with another status and other tools.
    fn with(&self, status: McpServerStatus, tools: Vec<ToolSpec>) -> (r: McpServer)
        ensures
            r@ == (ServerView { status, tools: model::tools(tools@), ..self@ }),
    {
        McpServer {
            name: self.name.clone(),
            command: self.command.clone(),
            args: text::clone_texts(&self.args),
            status,
            tools,
        }
    }
}

/// The servers by name.
#[derive(Debug)]
pub struct McpManager {
    servers: Table<McpServer>,
}

/// What starts the process of a server.
#[derive(Debug)]
pub struct ServerLaunch {
    pub command: String,
    pub args: Vec<String>,
}

/// The tool of the agent that stands for a tool of a server.
pub open spec fn bridged(server: Seq<char>, t: McpToolDef) -> ToolSpecView {
    ToolSpecView::Function(
        SpecDetailsView {
            name: "mcp."@ + server + "."@ + t.name@,
            description: match t.description {
                Some(d) => d@,
                None => t.name@,
            },
            parameters: json::json_text(t.input_schema),
        },
    )
}

/// The tools of the agent that stand for those of a server.
pub open spec fn bridged_all(server: Seq<char>, v: Seq<McpToolDef>) -> Seq<ToolSpecView> {
    v.map_values(|t: McpToolDef| bridged(server, t))
}

/// The tools of the ready servers among the first of an order.
pub open spec fn ready_tools(
    servers: Map<Seq<char>, ServerView>,
    order: Seq<Seq<char>>,
) -> Seq<ToolSpecView>
    decreases order.len(),
{
    if order.len() == 0 {
        Seq::empty()
    } else {
        let before = ready_tools(servers, order.drop_last());
        let s = servers[order.last()];
        if s.status is Ready {
            before + s.tools
        } else {
            before
        }
    }
}

fn bridge_tools(server: &str, defs: &Vec<McpToolDef>) -> (r: Vec<ToolSpec>)
    ensures
        model::tools(r@) == bridged_all(server@, defs@),
{
    let mut out: Vec<ToolSpec> = Vec::new();
    let mut i: usize = 0;
    while i < defs.len()
        invariant
            i <= defs.len(),
            out.len() == i,
            forall|j: int| 0 <= j < i ==> (#[trigger] out@[j])@ == bridged(server@, defs@[j]),
        decreases defs.len() - i,
    {
        let head = text::cat3("mcp.", server, ".");
        out.push(
            ToolSpec::Function(
                ToolSpecDetails {
                    name: text::cat(head.as_str(), defs[i].name.as_str()),
                    description: match &defs[i].description {
                        Some(d) => d.clone(),
                        None => defs[i].name.clone(),
                    },
                    parameters: defs[i].input_schema.clone(),
                },
            ),
        );
        i = i + 1;
    }
    assert(model::tools(out@) =~= bridged_all(server@, defs@));
    out
}

impl McpManager {
    pub closed spec fn servers(&self) -> Map<Seq<char>, ServerView> {
        self.servers@.map_values(|s: McpServer| s@)
    }

    /// The names in the order in which the servers were added.
    pub closed spec fn order(&self) -> Seq<Seq<char>> {
        self.servers.order()
    }

    pub closed spec fn wf(&self) -> bool {
        self.servers.wf()
    }

    pub fn new() -> (r: Self)
        ensures
            r.wf(),
            r.servers() == Map::<Seq<char>, ServerView>::empty(),
            r.order() == Seq::<Seq<char>>::empty(),
    {
        let r = McpManager { servers: Table::new() };
        assert(r.servers() =~= Map::<Seq<char>, ServerView>::empty());
        r
    }

    /// Adds a server that is not connected; one with the same name is replaced.
    pub fn add_server(&mut self, name: &str, command: &str, args: &Vec<String>)
        requires
            old(self).wf(),
        ensures
            final(self).wf(),
            final(self).servers() == old(self).servers().insert(
                name@,
                ServerView {
                    name: name@,
                    command: command@,
                    args: text::texts(args@),
                    status: McpServerStatus::Disconnected,
                    tools: Seq::empty(),
                },
            ),
            final(self).order() == (if old(self).servers().dom().contains(name@) {
                old(self).order()
            } else {
                old(self).order().push(name@)
            }),
    {
        let ghost before = self.servers();
        let server = McpServer {
            name: text::owned(name),
            command: text::owned(command),
            args: text::clone_texts(args),
            status: McpServerStatus::Disconnected,
            tools: Vec::new(),
        };
        assert(server@.tools =~= Seq::<ToolSpecView>::empty());
        let ghost plain = server@;
        self.servers.insert(text::owned(name), server);
        assert(self.servers() =~= before.insert(name@, plain));
    }

    /// Begins to start a server: it is connecting, and its process is to be launched.
    pub fn begin_start(&mut self, name: &str) -> (r: Result<ServerLaunch, McpError>)
        requires
            old(self).wf(),
        ensures
            final(self).wf(),
            final(self).order() == old(self).order(),
            if old(self).servers().dom().contains(name@) {
                let s = old(self).servers()[name@];
                r matches Ok(l) && l.command@ == s.command && text::texts(l.args@) == s.args
                    && final(self).servers() == old(self).servers().insert(
                    name@,
                    ServerView { status: McpServerStatus::Connecting, ..s },
                )
            } else {
                r matches Err(McpError::ServerNotFound(n)) && n@ == name@ && final(self).servers()
                    == old(self).servers()
            },
    {
        let ghost before = self.servers();
        match self.servers.get(name) {
            Some(s) => {
                let launch = ServerLaunch {
                    command: s.command.clone(),
                    args: text::clone_texts(&s.args),
                };
                let tools = clone_specs(&s.tools);
                let next = s.with(McpServerStatus::Connecting, tools);
                let ghost plain = next@;
                self.servers.insert(text::owned(name), next);
                assert(self.servers() =~= before.insert(name@, plain));
                Ok(launch)
            },
            None => Err(McpError::ServerNotFound(text::owned(name))),
        }
    }

    /// Ends the start of a server: what it lists becomes its tools, and it is ready. A
    /// server that lists nothing has no tools; a list that cannot be read is an error and
    /// leaves the server as it is.
    pub fn finish_start(
        &mut self,
        name: &str,
        listed: Result<Option<Vec<McpToolDef>>, String>,
    ) -> (r: Result<Vec<ToolSpec>, McpError>)
        requires
            old(self).wf(),
        ensures
            final(self).wf(),
            final(self).order() == old(self).order(),
            if !old(self).servers().dom().contains(name@) {
                r matches Err(McpError::ServerNotFound(n)) && n@ == name@ && final(self).servers()
                    == old(self).servers()
            } else {
                match listed {
                    Ok(defs) => {
                        let tools = match defs {
                            Some(v) => bridged_all(name@, v@),
                            None => Seq::empty(),
                        };
                        r matches Ok(v) && model::tools(v@) == tools && final(self).servers()
                            == old(self).servers().insert(
                            name@,
                            ServerView {
                                status: McpServerStatus::Ready,
                                tools,
                                ..old(self).servers()[name@]
                            },
                        )
                    },
                    Err(e) => r matches Err(McpError::Protocol { server, message }) && server@
                        == name@ && message@ == "failed to parse tools/list: "@ + e@ && final(
                        self).servers() == old(self).servers(),
                }
            },
    {
        let ghost before = self.servers();
        let s = match self.servers.get(name) {
            Some(s) => s,
            None => {
                return Err(McpError::ServerNotFound(text::owned(name)));
            },
        };
        let tools = match listed {
            Ok(Some(defs)) => bridge_tools(name, &defs),
            Ok(None) => Vec::new(),
            Err(e) => {
                return Err(
                    McpError::Protocol {
                        server: text::owned(name),
                        message: text::cat("failed to parse tools/list: ", e.as_str()),
                    },
                );
            },
        };
        assert(listed == Ok::<Option<Vec<McpToolDef>>, String>(None) ==> model::tools(tools@)
            =~= Seq::<ToolSpecView>::empty());
        let copy = clone_specs(&tools);
        let next = s.with(McpServerStatus::Ready, tools);
        let ghost plain = next@;
        self.servers.insert(text::owned(name), next);
        assert(self.servers() =~= before.insert(name@, plain));
        Ok(copy)
    }

    /// The tools of all servers that are ready.
    pub fn list_all_tools(&self) -> (r: Vec<ToolSpec>)
        requires
            self.wf(),
        ensures
            model::tools(r@) == ready_tools(self.servers(), self.order()),
    {
        let ghost order = self.order();
        let n: usize = self.servers.len();
        let mut out: Vec<ToolSpec> = Vec::new();
        let mut i: usize = 0;
        assert(order.take(0) =~= Seq::empty());
        assert(model::tools(out@) =~= Seq::<ToolSpecView>::empty());
        while i < n
            invariant
                self.wf(),
                order == self.order(),
                n == order.len(),
                i <= n,
                model::tools(out@) == ready_tools(self.servers(), order.take(i as int)),
            decreases n - i,
        {
            assert(order.take(i + 1).drop_last() =~= order.take(i as int));
            let s = self.servers.value_at(i);
            assert(self.servers()[order[i as int]] == s@);
            let ready: bool = match s.status {
                McpServerStatus::Ready => true,
                _ => false,
            };
            if ready {
                let ghost prior = out@;
                let mut more = clone_specs(&s.tools);
                let ghost added = more@;
                out.append(&mut more);
                assert(out@ =~= prior + added);
                assert(model::tools(out@) =~= model::tools(prior) + model::tools(added));
            }
            i = i + 1;
        }
        assert(order.take(i as int) =~= order);
        out
    }

    /// The names of all servers.
    pub fn server_names(&self) -> (r: Vec<String>)
        requires
            self.wf(),
        ensures
            text::texts(r@) == self.order(),
    {
        let n: usize = self.servers.len();
        let mut out: Vec<String> = Vec::new();
        let mut i: usize = 0;
        while i < n
            invariant
                self.wf(),
                n == self.order().len(),
                i <= n,
                out.len() == i,
                forall|j: int| 0 <= j < i ==> (#[trigger] out@[j])@ == self.order()[j],
            decreases n - i,
        {
            out.push(text::owned(self.servers.key_at(i)));
            i = i + 1;
        }
        assert(text::texts(out@) =~= self.order());
        out
    }

    pub fn server_status(&self, name: &str) -> (r: Option<&McpServerStatus>)
        requires
            self.wf(),
        ensures
            match r {
                Some(s) => self.servers().dom().contains(name@) && *s
                    == self.servers()[name@].status,
                None => !self.servers().dom().contains(name@),
            },
    {
        match self.servers.get(name) {
            Some(s) => Some(&s.status),
            None => None,
        }
    }
}

impl Default for McpManager {
    fn default() -> (r: Self)
        ensures
            r.wf(),
            r.servers() == Map::<Seq<char>, ServerView>::empty(),
            r.order() == Seq::<Seq<char>>::empty(),
    {
        McpManager::new()
    }
}

/// The request that opens a session with a server.
pub fn initialize_request() -> (r: JsonRpcRequest)
    ensures
        r.jsonrpc@ == "2.0"@,
        r.id == 1,
        r.method@ == "initialize"@,
        r.params matches Some(v) && json::json_text(v) == json::json_parse_or_null(
            INITIALIZE_PARAMS@,
        ),
{
    JsonRpcRequest {
        jsonrpc: text::owned("2.0"),
        id: 1,
        method: text::owned("initialize"),
        params: Some(json::parse_or_null(INITIALIZE_PARAMS)),
    }
}

/// The request for the tools of a server.
pub fn list_tools_request() -> (r: JsonRpcRequest)
    ensures
        r.jsonrpc@ == "2.0"@,
        r.id == 2,
        r.method@ == "tools/list"@,
        r.params is None,
{
    JsonRpcRequest {
        jsonrpc: text::owned("2.0"),
        id: 2,
        method: text::owned("tools/list"),
        params: None,
    }
}

/// Refuses a line of a server that holds nothing but white space.
pub fn check_response_line(line: &str) -> (r: Result<(), McpError>)
    ensures
        if text::trim_back(text::trim_front(line@)).len() == 0 {
            r matches Err(McpError::Protocol { server, message }) && server@ == "unknown"@
                && message@ == "empty response"@
        } else {
            r is Ok
        },
{
    proof {
        reveal_strlit("");
    }
    let rest = text::trim(line);
    if text::str_eq(rest, "") {
        Err(
            McpError::Protocol {
                server: text::owned("unknown"),
                message: text::owned("empty response"),
            },
        )
    } else {
        assert(rest@.len() > 0) by {
            if rest@.len() == 0 {
                assert(rest@ =~= ""@);
            }
        }
        Ok(())
    }
}

/// The error of a response that is no JSON.
pub fn response_parse_error(e: &str) -> (r: McpError)
    ensures
        r matches McpError::Protocol { server, message } && server@ == "unknown"@ && message@
            == "JSON parse error: "@ + e@,
{
    McpError::Protocol {
        server: text::owned("unknown"),
        message: text::cat("JSON parse error: ", e),
    }
}

/// The tool of the agent that bridges to a tool of a server.
#[derive(Debug)]
pub struct McpToolHandler {
    pub server_name: String,
    pub tool_name: String,
}

/// The arguments that a payload hands to a bridged tool; only function calls have any.
pub open spec fn bridged_arguments(p: PayloadView) -> Seq<char> {
    match p {
        PayloadView::Function { arguments } => arguments,
        _ => Seq::empty(),
    }
}

impl McpToolHandler {
    pub fn name(&self) -> (r: &str)
        ensures
            r@ == self.tool_name@,
    {
        self.tool_name.as_str()
    }

    /// Tools of servers count as mutating, so they need approval.
    pub fn is_mutating(&self) -> (r: bool)
        ensures
            r,
    {
        true
    }

    /// Dispatches a call: the result tells where it went and with which arguments.
    pub fn handle(&self, invocation: &ToolInvocation) -> (r: ToolOutput)
        ensures
            r@ == (OutputView::Mcp {
                result: json::json_object(
                    seq![
                        ("server"@, json::json_string(self.server_name@)),
                        ("tool"@, json::json_string(self.tool_name@)),
                        (
                            "arguments"@,
                            json::json_string(bridged_arguments(invocation.payload@)),
                        ),
                        ("status"@, json::json_string("dispatched"@)),
                    ],
                ),
            }),
    {
        let arguments = match &invocation.payload {
            ToolPayload::Function { arguments } => arguments.clone(),
            _ => String::new(),
        };
        let mut fields: Vec<(String, Value)> = Vec::new();
        fields.push((text::owned("server"), json::string(self.server_name.as_str())));
        fields.push((text::owned("tool"), json::string(self.tool_name.as_str())));
        fields.push((text::owned("arguments"), json::string(arguments.as_str())));
        fields.push((text::owned("status"), json::string("dispatched")));
        assert(json::field_texts(fields@) =~= seq![
            ("server"@, json::json_string(self.server_name@)),
            ("tool"@, json::json_string(self.tool_name@)),
            ("arguments"@, json::json_string(bridged_arguments(invocation.payload@))),
            ("status"@, json::json_string("dispatched"@)),
        ]);
        ToolOutput::Mcp { result: json::object(fields) }
    }
}

/// The tools that are offered are those of the servers that are ready, and no others.
pub proof fn law_ready_servers_offer_their_tools(manager: McpManager, tool: ToolSpecView)
    requires
        manager.wf(),
    ensures
        ready_tools(manager.servers(), manager.order()).contains(tool) <==> exists|name: Seq<char>|
            #[trigger] offers(manager.servers(), name, tool),
{
    manager.servers.lemma_order();
    lemma_ready_tools(manager.servers(), manager.order(), tool);
    assert forall|name: Seq<char>| #[trigger] offers(manager.servers(), name, tool) implies
        manager.order().contains(name) by {
        assert(manager.servers@.dom().contains(name));
    }
}

/// Whether a server is ready and has a tool.
pub open spec fn offers(
    servers: Map<Seq<char>, ServerView>,
    name: Seq<char>,
    tool: ToolSpecView,
) -> bool {
    servers.dom().contains(name) && servers[name].status is Ready && servers[name].tools.contains(
        tool,
    )
}

proof fn lemma_ready_tools(
    servers: Map<Seq<char>, ServerView>,
    order: Seq<Seq<char>>,
    tool: ToolSpecView,
)
    requires
        forall|i: int| 0 <= i < order.len() ==> servers.dom().contains(#[trigger] order[i]),
    ensures
        ready_tools(servers, order).contains(tool) <==> exists|name: Seq<char>|
            order.contains(name) && #[trigger] offers(servers, name, tool),
    decreases order.len(),
{
    if order.len() > 0 {
        let rest = order.drop_last();
        let last = order.last();
        assert forall|i: int| 0 <= i < rest.len() implies servers.dom().contains(
            #[trigger] rest[i],
        ) by {
            assert(rest[i] == order[i]);
        }
        lemma_ready_tools(servers, rest, tool);
        let before = ready_tools(servers, rest);
        let all = ready_tools(servers, order);
        if all.contains(tool) {
            let i = all.index_of(tool);
            if i < before.len() {
                assert(before[i] == tool);
                let name = choose|name: Seq<char>|
                    rest.contains(name) && #[trigger] offers(servers, name, tool);
                let j = rest.index_of(name);
                assert(order[j] == name);
                assert(order.contains(name) && offers(servers, name, tool));
            } else {
                assert(servers[last].tools[i - before.len()] == tool);
                assert(order[order.len() - 1] == last);
                assert(order.contains(last) && offers(servers, last, tool));
            }
        }
        if exists|name: Seq<char>| order.contains(name) && #[trigger] offers(servers, name, tool) {
            let name = choose|name: Seq<char>|
                order.contains(name) && #[trigger] offers(servers, name, tool);
            let j = order.index_of(name);
            if j < rest.len() {
                assert(rest[j] == name);
                assert(rest.contains(name) && offers(servers, name, tool));
                let i = before.index_of(tool);
                assert(all[i] == tool);
            } else {
                let i = servers[last].tools.index_of(tool);
                assert(all[before.len() + i] == tool);
            }
        }
    }
}

/// Tools of different servers, or different tools of one server, have different names, as
/// long as no server has a dot in its name.
pub proof fn law_bridged_names_are_unique(
    server: Seq<char>,
    other: Seq<char>,
    tool: Seq<char>,
    other_tool: Seq<char>,
)
    requires
        !server.contains('.'),
        !other.contains('.'),
        "mcp."@ + server + "."@ + tool == "mcp."@ + other + "."@ + other_tool,
    ensures
        server == other,
        tool == other_tool,
{
    reveal_strlit("mcp.");
    reveal_strlit(".");
    let a = "mcp."@ + server + "."@ + tool;
    let b = "mcp."@ + other + "."@ + other_tool;
    assert(a[4 + server.len() as int] == '.');
    assert(b[4 + other.len() as int] == '.');
    if server.len() < other.len() {
        assert(b[4 + server.len() as int] == other[server.len() as int]);
        assert(other.contains('.'));
    } else if other.len() < server.len() {
        assert(a[4 + other.len() as int] == server[other.len() as int]);
        assert(server.contains('.'));
    }
    assert(server.len() == other.len());
    assert forall|i: int| 0 <= i < server.len() implies server[i] == other[i] by {
        assert(a[4 + i] == server[i]);
        assert(b[4 + i] == other[i]);
    }
    assert(server =~= other);
    assert(a.len() == 5 + server.len() + tool.len());
    assert(b.len() == 5 + other.len() + other_tool.len());
    assert(tool.len() == other_tool.len());
    assert forall|i: int| 0 <= i < tool.len() implies tool[i] == other_tool[i] by {
        assert(a[5 + server.len() + i] == tool[i]);
        assert(b[5 + server.len() + i] == other_tool[i]);
    }
    assert(tool =~= other_tool);
}

/// What is seen of a mcp server is all that it holds.
pub proof fn law_mcp_server_is_seen_whole(m: McpServer)
    ensures
        m@.name == m.name@,
        m@.command == m.command@,
        m@.args == text::texts(m.args@),
        m@.status == m.status,
        m@.tools == model::tools(m.tools@),
{
}

/// A tool of a server is offered under the names of both, with its own description, or its
/// name where it has none, and with the schema of its input as its parameters; tools keep
/// their order.
pub proof fn law_bridged_tool_is_the_tool(server: Seq<char>, v: Seq<McpToolDef>, i: int)
    requires
        0 <= i < v.len(),
    ensures
        bridged_all(server, v).len() == v.len(),
        bridged_all(server, v)[i] matches ToolSpecView::Function(d) && d.name == "mcp."@ + server
            + "."@ + v[i].name@ && (v[i].description matches Some(t) ==> d.description == t@) && (
        v[i].description is None ==> d.description == v[i].name@) && d.parameters
            == json::json_text(v[i].input_schema),
{
}

/// A call of a bridged tool hands on the arguments of a function call as they are, and none
/// of any other payload.
pub proof fn law_bridged_calls_keep_their_arguments(p: PayloadView)
    ensures
        p matches PayloadView::Function { arguments } ==> bridged_arguments(p) == arguments,
        !(p is Function) ==> bridged_arguments(p).len() == 0,
{
}

/// The tools of one more server come behind those of the servers before it, in their order,
/// where it is ready.
pub proof fn law_tools_are_listed_by_server(
    servers: Map<Seq<char>, ServerView>,
    order: Seq<Seq<char>>,
    name: Seq<char>,
)
    ensures
        ready_tools(servers, Seq::<Seq<char>>::empty()).len() == 0,
        servers[name].status is Ready ==> ready_tools(servers, order.push(name)) == ready_tools(
            servers,
            order,
        ) + servers[name].tools,
        !(servers[name].status is Ready) ==> ready_tools(servers, order.push(name))
            == ready_tools(servers, order),
{
    assert(order.push(name).drop_last() =~= order);
}

/// The errors name the server and say what it said.
pub proof fn law_server_errors_say_why(e: McpError)
    ensures
        e matches McpError::ServerNotFound(name) ==> e.message() == "MCP server not found: "@
            + name@,
        e matches McpError::StartFailed { server, reason } ==> e.message()
            == "failed to start MCP server "@ + server@ + ": "@ + reason@,
        e matches McpError::Io(m) ==> e.message() == "MCP I/O error: "@ + m@,
        e matches McpError::Protocol { server, message } ==> e.message()
            == "MCP protocol error ("@ + server@ + "): "@ + message@,
{
}

} // verus!
