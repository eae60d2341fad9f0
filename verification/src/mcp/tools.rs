//! The tools the server offers and the arguments they take.

use vstd::prelude::*;
use vstd::string::*;

verus! {

/// Arguments of the tool that parses a capture file.
#[derive(Debug)]
pub struct ParseFileArgs {
    pub file_path: String,
    pub include_packet_data: Option<bool>,
    pub max_packets: Option<usize>,
}

/// Arguments of the tool that filters the packets of a capture file.
#[derive(Debug)]
pub struct FilterPacketsArgs {
    pub file_path: String,
    pub interface_id: Option<u32>,
    pub start_time: Option<String>,
    pub end_time: Option<String>,
    pub min_size: Option<u32>,
    pub max_size: Option<u32>,
    pub max_results: Option<usize>,
}

/// Arguments of the tool that computes statistics of a capture file.
#[derive(Debug)]
pub struct GetStatsArgs {
    pub file_path: String,
}

/// Arguments of the tool that lists the interfaces of a capture file.
#[derive(Debug)]
pub struct ListInterfacesArgs {
    pub file_path: String,
}

/// The JSON type of a tool parameter.
#[derive(Debug, Clone, Copy, PartialEq, Eq, Structural)]
pub enum ParamKind {
    Text,
    Flag,
    Integer,
}

/// The default value a tool parameter declares.
#[derive(Debug, Clone, Copy, PartialEq, Eq, Structural)]
pub enum ParamDefault {
    Flag(bool),
    Integer(u64),
}

/// One parameter in a tool's input schema.
#[derive(Debug)]
pub struct ToolParam {
    pub name: String,
    pub kind: ParamKind,
    pub description: String,
    pub minimum: Option<u64>,
    pub maximum: Option<u64>,
    pub default: Option<ParamDefault>,
    /// The values the parameter may take, when it is restricted to a list.
    pub choices: Vec<String>,
}

/// The contents of a [`ToolParam`].
pub struct ToolParamView {
    pub name: Seq<char>,
    pub kind: ParamKind,
    pub description: Seq<char>,
    pub minimum: Option<u64>,
    pub maximum: Option<u64>,
    pub default: Option<ParamDefault>,
    pub choices: Seq<Seq<char>>,
}

/// The texts of a list of strings.
pub open spec fn string_texts(strings: Seq<String>) -> Seq<Seq<char>> {
    strings.map_values(|s: String| s@)
}

impl View for ToolParam {
    type V = ToolParamView;

    open spec fn view(&self) -> ToolParamView {
        ToolParamView {
            name: self.name@,
            kind: self.kind,
            description: self.description@,
            minimum: self.minimum,
            maximum: self.maximum,
            default: self.default,
            choices: string_texts(self.choices@),
        }
    }
}

/// A tool: its name, description, parameters and required parameters.
#[derive(Debug)]
pub struct ToolDefinition {
    pub name: String,
    pub description: String,
    pub params: Vec<ToolParam>,
    pub required: Vec<String>,
}

/// The contents of a [`ToolDefinition`].
pub struct ToolDefinitionView {
    pub name: Seq<char>,
    pub description: Seq<char>,
    pub params: Seq<ToolParamView>,
    pub required: Seq<Seq<char>>,
}

impl View for ToolDefinition {
    type V = ToolDefinitionView;

    open spec fn view(&self) -> ToolDefinitionView {
        ToolDefinitionView {
            name: self.name@,
            description: self.description@,
            params: self.params@.map_values(|p: ToolParam| p@),
            required: string_texts(self.required@),
        }
    }
}

/// The contents of a list of tools.
pub open spec fn tool_views(tools: Seq<ToolDefinition>) -> Seq<ToolDefinitionView> {
    tools.map_values(|t: ToolDefinition| t@)
}

/// A parameter without default or list of choices.
pub open spec fn plain_param(
    name: Seq<char>,
    kind: ParamKind,
    description: Seq<char>,
    minimum: Option<u64>,
    maximum: Option<u64>,
) -> ToolParamView {
    ToolParamView { name, kind, description, minimum, maximum, default: None, choices: Seq::empty() }
}

/// A tool whose only required parameter is `file_path`.
pub open spec fn file_tool(name: Seq<char>, description: Seq<char>, params: Seq<ToolParamView>) -> ToolDefinitionView {
    ToolDefinitionView { name, description, params, required: seq!["file_path"@] }
}

/// A parameter with the given view.
pub fn make_param(
    name: &str,
    kind: ParamKind,
    description: &str,
    minimum: Option<u64>,
    maximum: Option<u64>,
    default: Option<ParamDefault>,
) -> (p: ToolParam)
    ensures
        p@ == (ToolParamView {
            name: name@,
            kind,
            description: description@,
            minimum,
            maximum,
            default,
            choices: Seq::empty(),
        }),
{
    let choices: Vec<String> = Vec::new();
    let p = ToolParam {
        name: String::from_str(name),
        kind,
        description: String::from_str(description),
        minimum,
        maximum,
        default,
        choices,
    };
    assert(string_texts(p.choices@) =~= Seq::<Seq<char>>::empty());
    p
}

/// A tool whose only required parameter is `file_path`.
pub fn make_file_tool(name: &str, description: &str, params: Vec<ToolParam>) -> (t: ToolDefinition)
    ensures
        t@ == file_tool(name@, description@, params@.map_values(|p: ToolParam| p@)),
{
    let mut required: Vec<String> = Vec::new();
    required.push(String::from_str("file_path"));
    let t = ToolDefinition {
        name: String::from_str(name),
        description: String::from_str(description),
        params,
        required,
    };
    assert(string_texts(t.required@) =~= seq!["file_path"@]);
    t
}

/// The `file_path` parameter with the given description.
pub open spec fn file_path_param(description: Seq<char>) -> ToolParamView {
    plain_param("file_path"@, ParamKind::Text, description, None, None)
}

/// The tools of the packet-analysis handlers.
pub open spec fn handler_tools() -> Seq<ToolDefinitionView> {
    seq![
        file_tool(
            "parse_pcapng_file"@,
            "Parse a PcapNG or PCAP file and extract metadata, interface information, and packet summaries. This tool can handle both PcapNG and legacy PCAP formats."@,
            seq![
                file_path_param("Path to the PcapNG or PCAP file to parse"@),
                plain_param("include_packet_data"@, ParamKind::Flag, "Include packet data preview (first 32 bytes as hex). Default: false"@, None, None),
                plain_param("max_packets"@, ParamKind::Integer, "Maximum number of packets to process. Default: 1000"@, Some(1), Some(100000)),
            ],
        ),
        file_tool(
            "filter_packets"@,
            "Filter packets from a PcapNG/PCAP file based on various criteria like interface, time range, and packet size."@,
            seq![
                file_path_param("Path to the PcapNG or PCAP file"@),
                plain_param("interface_id"@, ParamKind::Integer, "Filter by interface ID (0-based)"@, Some(0), None),
                plain_param("start_time"@, ParamKind::Text, "Filter packets after this time (ISO 8601 format, e.g., '2024-01-01T00:00:00Z')"@, None, None),
                plain_param("end_time"@, ParamKind::Text, "Filter packets before this time (ISO 8601 format)"@, None, None),
                plain_param("min_size"@, ParamKind::Integer, "Minimum packet size in bytes"@, Some(0), None),
                plain_param("max_size"@, ParamKind::Integer, "Maximum packet size in bytes"@, Some(0), None),
                plain_param("max_results"@, ParamKind::Integer, "Maximum number of filtered packets to return. Default: 1000"@, Some(1), Some(10000)),
            ],
        ),
        file_tool(
            "get_file_statistics"@,
            "Get comprehensive statistics about a PcapNG/PCAP file including packet counts, size distribution, time range, and per-interface statistics."@,
            seq![file_path_param("Path to the PcapNG or PCAP file"@)],
        ),
        file_tool(
            "list_interfaces"@,
            "List all network interfaces found in a PcapNG/PCAP file with their metadata and configuration."@,
            seq![file_path_param("Path to the PcapNG or PCAP file"@)],
        ),
    ]
}

/// The tools of the packet-analysis handlers, each with its input schema.
pub fn get_tool_definitions() -> (tools: Vec<ToolDefinition>)
    ensures
        tool_views(tools@) =~= handler_tools(),
{
    let mut tools: Vec<ToolDefinition> = Vec::new();

    let mut params: Vec<ToolParam> = Vec::new();
    params.push(make_param("file_path", ParamKind::Text, "Path to the PcapNG or PCAP file to parse", None, None, None));
    params.push(make_param("include_packet_data", ParamKind::Flag, "Include packet data preview (first 32 bytes as hex). Default: false", None, None, None));
    params.push(make_param("max_packets", ParamKind::Integer, "Maximum number of packets to process. Default: 1000", Some(1), Some(100000), None));
    let ghost p0 = params@.map_values(|p: ToolParam| p@);
    assert(p0 =~= handler_tools()[0].params);
    tools.push(make_file_tool(
        "parse_pcapng_file",
        "Parse a PcapNG or PCAP file and extract metadata, interface information, and packet summaries. This tool can handle both PcapNG and legacy PCAP formats.",
        params,
    ));

    let mut params: Vec<ToolParam> = Vec::new();
    params.push(make_param("file_path", ParamKind::Text, "Path to the PcapNG or PCAP file", None, None, None));
    params.push(make_param("interface_id", ParamKind::Integer, "Filter by interface ID (0-based)", Some(0), None, None));
    params.push(make_param("start_time", ParamKind::Text, "Filter packets after this time (ISO 8601 format, e.g., '2024-01-01T00:00:00Z')", None, None, None));
    params.push(make_param("end_time", ParamKind::Text, "Filter packets before this time (ISO 8601 format)", None, None, None));
    params.push(make_param("min_size", ParamKind::Integer, "Minimum packet size in bytes", Some(0), None, None));
    params.push(make_param("max_size", ParamKind::Integer, "Maximum packet size in bytes", Some(0), None, None));
    params.push(make_param("max_results", ParamKind::Integer, "Maximum number of filtered packets to return. Default: 1000", Some(1), Some(10000), None));
    let ghost p1 = params@.map_values(|p: ToolParam| p@);
    assert(p1 =~= handler_tools()[1].params);
    tools.push(make_file_tool(
        "filter_packets",
        "Filter packets from a PcapNG/PCAP file based on various criteria like interface, time range, and packet size.",
        params,
    ));

    let mut params: Vec<ToolParam> = Vec::new();
    params.push(make_param("file_path", ParamKind::Text, "Path to the PcapNG or PCAP file", None, None, None));
    let ghost p2 = params@.map_values(|p: ToolParam| p@);
    assert(p2 =~= handler_tools()[2].params);
    tools.push(make_file_tool(
        "get_file_statistics",
        "Get comprehensive statistics about a PcapNG/PCAP file including packet counts, size distribution, time range, and per-interface statistics.",
        params,
    ));

    let mut params: Vec<ToolParam> = Vec::new();
    params.push(make_param("file_path", ParamKind::Text, "Path to the PcapNG or PCAP file", None, None, None));
    let ghost p3 = params@.map_values(|p: ToolParam| p@);
    assert(p3 =~= handler_tools()[3].params);
    tools.push(make_file_tool(
        "list_interfaces",
        "List all network interfaces found in a PcapNG/PCAP file with their metadata and configuration.",
        params,
    ));
    tools
}

} // verus!
