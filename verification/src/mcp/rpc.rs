//! How the server answers each JSON-RPC request: which method and tool a
//! request names decides the reply, and a tool's outcome decides what the
//! reply to a tool call holds.

use vstd::prelude::*;
use vstd::string::*;

use crate::mcp::server::McpError;
use crate::mcp::tools::{
    file_path_param, file_tool, make_file_tool, make_param, plain_param, tool_views, ParamKind,
    ToolDefinition, ToolDefinitionView, ToolParam,
};

verus! {

/// The MCP protocol version the server announces.
pub const PROTOCOL_VERSION: &'static str = "2024-11-05";

/// The name the server announces.
pub const SERVER_NAME: &'static str = "pcapng-mcp-server";

/// The version the server announces.
pub const SERVER_VERSION: &'static str = "0.1.0";

/// JSON-RPC code for a request that is not valid JSON.
pub const PARSE_ERROR_CODE: i64 = -32700;

/// JSON-RPC code for an unknown method or tool.
pub const METHOD_NOT_FOUND_CODE: i64 = -32601;

/// JSON-RPC code for missing parameters.
pub const INVALID_PARAMS_CODE: i64 = -32602;

/// Code the server gives a tool that failed.
pub const TOOL_FAILURE_CODE: i64 = -32000;

/// The tools the server offers.
#[derive(Debug, Clone, Copy, PartialEq, Eq, Structural)]
pub enum ToolKind {
    ParseFile,
    GetMetadata,
    ListInterfaces,
    FilterPackets,
    AnalyzeTiming,
}

/// The name a client calls a tool by.
pub open spec fn tool_name(kind: ToolKind) -> Seq<char> {
    match kind {
        ToolKind::ParseFile => "parse_pcapng_file"@,
        ToolKind::GetMetadata => "get_pcapng_metadata"@,
        ToolKind::ListInterfaces => "list_pcapng_interfaces"@,
        ToolKind::FilterPackets => "filter_pcapng_packets"@,
        ToolKind::AnalyzeTiming => "analyze_pcapng_timing"@,
    }
}

/// Whether `name` names one of the server's tools.
pub open spec fn is_tool_name(name: Seq<char>) -> bool {
    exists|k: ToolKind| #[trigger] tool_name(k) == name
}

/// What a request asks of the server.
#[derive(Debug)]
pub enum Route {
    Initialize,
    Initialized,
    ListTools,
    /// Run a tool on the file at the path.
    CallTool(ToolKind, String),
    MissingFilePath,
    UnknownTool(String),
    UnknownMethod(String),
}

/// The text of an optional string slice.
pub open spec fn opt_str(o: Option<&str>) -> Option<Seq<char>> {
    match o {
        Some(s) => Some(s@),
        None => None,
    }
}

/// Whether `r` is what a request with this method, tool name and `file_path`
/// argument asks. A tool call names its tool before its path is looked at.
pub open spec fn routes_to(r: Route, method: Seq<char>, tool: Seq<char>, path: Option<Seq<char>>) -> bool {
    if method == "initialize"@ {
        r is Initialize
    } else if method == "notifications/initialized"@ {
        r is Initialized
    } else if method == "tools/list"@ {
        r is ListTools
    } else if method == "tools/call"@ {
        if is_tool_name(tool) {
            match path {
                Some(p) => r matches Route::CallTool(k, fp) && tool_name(k) == tool && fp@ == p,
                None => r is MissingFilePath,
            }
        } else {
            r matches Route::UnknownTool(n) && n@ == tool
        }
    } else {
        r matches Route::UnknownMethod(m) && m@ == method
    }
}

fn same_text(a: &str, b: &str) -> (same: bool)
    ensures
        same == (a@ == b@),
{
    String::from_str(a) == String::from_str(b)
}

/// Decides what a request asks, from its method, the `name` of the tool it
/// calls (empty when absent) and its `file_path` argument.
pub fn route_request(method: &str, tool: &str, file_path: Option<&str>) -> (r: Route)
    ensures
        routes_to(r, method@, tool@, opt_str(file_path)),
{
    if same_text(method, "initialize") {
        Route::Initialize
    } else if same_text(method, "notifications/initialized") {
        Route::Initialized
    } else if same_text(method, "tools/list") {
        Route::ListTools
    } else if same_text(method, "tools/call") {
        let kind = if same_text(tool, "parse_pcapng_file") {
            Some(ToolKind::ParseFile)
        } else if same_text(tool, "get_pcapng_metadata") {
            Some(ToolKind::GetMetadata)
        } else if same_text(tool, "list_pcapng_interfaces") {
            Some(ToolKind::ListInterfaces)
        } else if same_text(tool, "filter_pcapng_packets") {
            Some(ToolKind::FilterPackets)
        } else if same_text(tool, "analyze_pcapng_timing") {
            Some(ToolKind::AnalyzeTiming)
        } else {
            None
        };
        proof {
            if let Some(k) = kind {
                assert(tool_name(k) == tool@);
            }
            if kind is None {
                assert forall|k: ToolKind| tool_name(k) != tool@ by {
                    match k {
                        ToolKind::ParseFile => {},
                        ToolKind::GetMetadata => {},
                        ToolKind::ListInterfaces => {},
                        ToolKind::FilterPackets => {},
                        ToolKind::AnalyzeTiming => {},
                    }
                }
            }
        }
        match kind {
            Some(k) => match file_path {
                Some(p) => Route::CallTool(k, String::from_str(p)),
                None => Route::MissingFilePath,
            },
            None => Route::UnknownTool(String::from_str(tool)),
        }
    } else {
        Route::UnknownMethod(String::from_str(method))
    }
}

/// The `result` of a tool call.
#[derive(Debug)]
pub enum ToolOutcome {
    /// The tool's text.
    Content(String),
    /// An error code and message.
    Failure(i64, String),
}

/// A reply to a request.
#[derive(Debug)]
pub enum RpcReply {
    /// The server's protocol version, capabilities and identity.
    Initialize,
    /// No reply (written as `null`).
    Nothing,
    /// The offered tools.
    Tools(Vec<ToolDefinition>),
    /// The result of a tool call.
    ToolResult(ToolOutcome),
    /// A JSON-RPC error, with code and message.
    Error(i64, String),
}

/// The tools the server lists.
pub open spec fn server_tools() -> Seq<ToolDefinitionView> {
    seq![
        file_tool(
            "parse_pcapng_file"@,
            "Parse a PcapNG or PCAP file and return comprehensive information"@,
            seq![file_path_param("Path to the PcapNG or PCAP file to parse"@)],
        ),
        file_tool(
            "get_pcapng_metadata"@,
            "Get metadata information about a PcapNG or PCAP file"@,
            seq![file_path_param("Path to the PcapNG or PCAP file"@)],
        ),
        file_tool(
            "list_pcapng_interfaces"@,
            "List all network interfaces found in a PcapNG or PCAP file"@,
            seq![file_path_param("Path to the PcapNG or PCAP file"@)],
        ),
        file_tool(
            "filter_pcapng_packets"@,
            "Filter packets based on protocol/IP/port criteria"@,
            seq![
                file_path_param("Path to the PcapNG or PCAP file"@),
                plain_param("protocol"@, ParamKind::Text, "Protocol filter (e.g., 'TCP', 'UDP', 'ICMP')"@, None, None),
                plain_param("source_ip"@, ParamKind::Text, "Source IP address filter"@, None, None),
                plain_param("dest_ip"@, ParamKind::Text, "Destination IP address filter"@, None, None),
                plain_param("port"@, ParamKind::Integer, "Port number filter"@, None, None),
                plain_param("max_results"@, ParamKind::Integer, "Maximum number of results to return"@, None, None),
            ],
        ),
        file_tool(
            "analyze_pcapng_timing"@,
            "Analyze packet timing and capture duration"@,
            seq![
                file_path_param("Path to the PcapNG or PCAP file"@),
                plain_param("interface_id"@, ParamKind::Integer, "Interface ID to analyze (optional)"@, None, None),
            ],
        ),
    ]
}

/// The tools the server lists, each with its input schema.
pub fn listed_tools() -> (tools: Vec<ToolDefinition>)
    ensures
        tool_views(tools@) =~= server_tools(),
{
    let mut tools: Vec<ToolDefinition> = Vec::new();
    let mut params: Vec<ToolParam> = Vec::new();
    params.push(make_param("file_path", ParamKind::Text, "Path to the PcapNG or PCAP file to parse", None, None, None));
    assert(params@.map_values(|p: ToolParam| p@) =~= server_tools()[0].params);
    tools.push(make_file_tool("parse_pcapng_file", "Parse a PcapNG or PCAP file and return comprehensive information", params));
    let mut params: Vec<ToolParam> = Vec::new();
    params.push(make_param("file_path", ParamKind::Text, "Path to the PcapNG or PCAP file", None, None, None));
    assert(params@.map_values(|p: ToolParam| p@) =~= server_tools()[1].params);
    tools.push(make_file_tool("get_pcapng_metadata", "Get metadata information about a PcapNG or PCAP file", params));
    let mut params: Vec<ToolParam> = Vec::new();
    params.push(make_param("file_path", ParamKind::Text, "Path to the PcapNG or PCAP file", None, None, None));
    assert(params@.map_values(|p: ToolParam| p@) =~= server_tools()[2].params);
    tools.push(make_file_tool("list_pcapng_interfaces", "List all network interfaces found in a PcapNG or PCAP file", params));
    let mut params: Vec<ToolParam> = Vec::new();
    params.push(make_param("file_path", ParamKind::Text, "Path to the PcapNG or PCAP file", None, None, None));
    params.push(make_param("protocol", ParamKind::Text, "Protocol filter (e.g., 'TCP', 'UDP', 'ICMP')", None, None, None));
    params.push(make_param("source_ip", ParamKind::Text, "Source IP address filter", None, None, None));
    params.push(make_param("dest_ip", ParamKind::Text, "Destination IP address filter", None, None, None));
    params.push(make_param("port", ParamKind::Integer, "Port number filter", None, None, None));
    params.push(make_param("max_results", ParamKind::Integer, "Maximum number of results to return", None, None, None));
    assert(params@.map_values(|p: ToolParam| p@) =~= server_tools()[3].params);
    tools.push(make_file_tool("filter_pcapng_packets", "Filter packets based on protocol/IP/port criteria", params));
    let mut params: Vec<ToolParam> = Vec::new();
    params.push(make_param("file_path", ParamKind::Text, "Path to the PcapNG or PCAP file", None, None, None));
    params.push(make_param("interface_id", ParamKind::Integer, "Interface ID to analyze (optional)", None, None, None));
    assert(params@.map_values(|p: ToolParam| p@) =~= server_tools()[4].params);
    tools.push(make_file_tool("analyze_pcapng_timing", "Analyze packet timing and capture duration", params));
    tools
}

/// Whether `r` is the reply to a request that asks `route`, when no tool has
/// to run for it (`None` when one has).
pub open spec fn replies_without_call(r: Option<RpcReply>, route: Route) -> bool {
    match route {
        Route::Initialize => r matches Some(RpcReply::Initialize),
        Route::Initialized => r matches Some(RpcReply::Nothing),
        Route::ListTools => r matches Some(RpcReply::Tools(t)) && tool_views(t@) == server_tools(),
        Route::CallTool(_, _) => r is None,
        Route::MissingFilePath => r matches Some(RpcReply::ToolResult(ToolOutcome::Failure(c, m)))
            && c == INVALID_PARAMS_CODE && m@ == "Missing required parameter: file_path"@,
        Route::UnknownTool(n) => r matches Some(RpcReply::ToolResult(ToolOutcome::Failure(c, m)))
            && c == METHOD_NOT_FOUND_CODE && m@ == "Unknown tool: "@ + n@,
        Route::UnknownMethod(n) => r matches Some(RpcReply::Error(c, m))
            && c == METHOD_NOT_FOUND_CODE && m@ == "Unknown method: "@ + n@,
    }
}

fn prefixed(prefix: &str, rest: &String) -> (t: String)
    ensures
        t@ == prefix@ + rest@,
{
    let mut t = String::from_str(prefix);
    t.append(rest.as_str());
    t
}

/// The reply to a request that asks `route`, or `None` when a tool must run
/// first.
pub fn reply_without_call(route: &Route) -> (r: Option<RpcReply>)
    ensures
        replies_without_call(r, *route),
{
    match route {
        Route::Initialize => Some(RpcReply::Initialize),
        Route::Initialized => Some(RpcReply::Nothing),
        Route::ListTools => Some(RpcReply::Tools(listed_tools())),
        Route::CallTool(_, _) => None,
        Route::MissingFilePath => Some(RpcReply::ToolResult(ToolOutcome::Failure(
            INVALID_PARAMS_CODE,
            String::from_str("Missing required parameter: file_path"),
        ))),
        Route::UnknownTool(n) => Some(RpcReply::ToolResult(ToolOutcome::Failure(
            METHOD_NOT_FOUND_CODE,
            prefixed("Unknown tool: ", n),
        ))),
        Route::UnknownMethod(m) => Some(RpcReply::Error(METHOD_NOT_FOUND_CODE, prefixed("Unknown method: ", m))),
    }
}

/// The words that introduce a failure of each tool.
pub open spec fn failure_prefix(kind: ToolKind) -> Seq<char> {
    match kind {
        ToolKind::ParseFile => "Parse error: "@,
        ToolKind::GetMetadata => "Metadata error: "@,
        ToolKind::ListInterfaces => "Interface listing error: "@,
        ToolKind::FilterPackets => "Filter error: "@,
        ToolKind::AnalyzeTiming => "Timing analysis error: "@,
    }
}

/// The reply to a call of tool `kind` whose outcome is `outcome`: its text,
/// or a failure that names the tool's kind of error and the MCP error.
pub fn reply_to_tool_call(kind: ToolKind, outcome: core::result::Result<String, McpError>) -> (r: RpcReply)
    ensures
        match outcome {
            Ok(text) => r matches RpcReply::ToolResult(ToolOutcome::Content(t)) && t == text,
            Err(e) => r matches RpcReply::ToolResult(ToolOutcome::Failure(c, m)) && c == TOOL_FAILURE_CODE
                && m@ == failure_prefix(kind) + ("-32603: "@ + e.message@),
        },
{
    match outcome {
        Ok(text) => RpcReply::ToolResult(ToolOutcome::Content(text)),
        Err(e) => {
            let prefix = match kind {
                ToolKind::ParseFile => "Parse error: ",
                ToolKind::GetMetadata => "Metadata error: ",
                ToolKind::ListInterfaces => "Interface listing error: ",
                ToolKind::FilterPackets => "Filter error: ",
                ToolKind::AnalyzeTiming => "Timing analysis error: ",
            };
            let text = e.text();
            RpcReply::ToolResult(ToolOutcome::Failure(TOOL_FAILURE_CODE, prefixed(prefix, &text)))
        },
    }
}

/// The reply to a request line that is not JSON.
pub fn invalid_json_reply() -> (r: RpcReply)
    ensures
        r matches RpcReply::Error(c, m) && c == PARSE_ERROR_CODE && m@ == "Parse error"@,
{
    RpcReply::Error(PARSE_ERROR_CODE, String::from_str("Parse error"))
}

} // verus!
