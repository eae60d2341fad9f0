//! A tool handler that offers five tools by plain names.

use vstd::prelude::*;
use vstd::string::*;

use crate::mcp::tools::{
    make_file_tool, make_param, plain_param, string_texts, tool_views, ParamDefault, ParamKind,
    ToolDefinition, ToolDefinitionView, ToolParam, ToolParamView,
};
use crate::pcapng::parser::PcapNGParser;

verus! {

/// Arguments of a metadata request.
#[derive(Debug)]
pub struct MetadataRequest {
    pub file_path: String,
    pub include_sections: bool,
}

/// The tools this handler offers.
#[derive(Debug, Clone, Copy, PartialEq, Eq, Structural)]
pub enum HandlerTool {
    ParseFile,
    GetMetadata,
    ListInterfaces,
    FilterPackets,
    AnalyzeTiming,
}

/// The name a client calls a handler tool by.
pub open spec fn handler_tool_name(tool: HandlerTool) -> Seq<char> {
    match tool {
        HandlerTool::ParseFile => "parse_file"@,
        HandlerTool::GetMetadata => "get_metadata"@,
        HandlerTool::ListInterfaces => "list_interfaces"@,
        HandlerTool::FilterPackets => "filter_packets"@,
        HandlerTool::AnalyzeTiming => "analyze_timing"@,
    }
}

/// Answers tool calls about capture files.
pub struct PcapNGServerHandler {
    parser: PcapNGParser,
}

/// The protocols a packet filter may name.
pub open spec fn protocol_choices() -> Seq<Seq<char>> {
    seq!["TCP"@, "UDP"@, "ICMP"@, "ARP"@, "IPv4"@, "IPv6"@]
}

/// The tools of this handler.
pub open spec fn handler_tool_list() -> Seq<ToolDefinitionView> {
    let file = |d: Seq<char>| plain_param("file_path"@, ParamKind::Text, d, None, None);
    let tool = |name: Seq<char>, description: Seq<char>, params: Seq<ToolParamView>|
        ToolDefinitionView { name, description, params, required: seq!["file_path"@] };
    seq![
        tool(
            "parse_file"@,
            "Parse a PcapNG or PCAP file and return comprehensive information including packet counts, timing, and interface details"@,
            seq![
                file("Path to the PcapNG or PCAP file to parse"@),
                ToolParamView { default: Some(ParamDefault::Flag(false)), ..plain_param("include_timing"@, ParamKind::Flag, "Whether to include detailed timing analysis"@, None, None) },
                plain_param("max_interfaces"@, ParamKind::Integer, "Maximum number of interfaces to process"@, Some(1), None),
            ],
        ),
        tool(
            "get_metadata"@,
            "Extract metadata information from a PcapNG file including section headers and interface details"@,
            seq![
                file("Path to the PcapNG file to analyze"@),
                ToolParamView { default: Some(ParamDefault::Flag(false)), ..plain_param("include_sections"@, ParamKind::Flag, "Whether to include section header details"@, None, None) },
            ],
        ),
        tool(
            "list_interfaces"@,
            "List all network interfaces found in a PcapNG file with their properties"@,
            seq![file("Path to the PcapNG file to analyze"@)],
        ),
        tool(
            "filter_packets"@,
            "Filter packets from a PcapNG file based on protocol, IP addresses, or ports"@,
            seq![
                file("Path to the PcapNG file to filter"@),
                ToolParamView { choices: protocol_choices(), ..plain_param("protocol"@, ParamKind::Text, "Protocol to filter by (e.g., TCP, UDP, ICMP)"@, None, None) },
                plain_param("source_ip"@, ParamKind::Text, "Source IP address to filter by (IPv4 or IPv6)"@, None, None),
                plain_param("dest_ip"@, ParamKind::Text, "Destination IP address to filter by (IPv4 or IPv6)"@, None, None),
                plain_param("port"@, ParamKind::Integer, "Port number to filter by (for TCP/UDP packets)"@, Some(1), Some(65535)),
                ToolParamView { default: Some(ParamDefault::Integer(1000)), ..plain_param("max_results"@, ParamKind::Integer, "Maximum number of results to return"@, Some(1), Some(10000)) },
            ],
        ),
        tool(
            "analyze_timing"@,
            "Analyze packet timing and traffic patterns in a PcapNG file"@,
            seq![
                file("Path to the PcapNG file to analyze"@),
                plain_param("interface_id"@, ParamKind::Integer, "Specific interface ID to analyze (optional)"@, Some(0), None),
            ],
        ),
    ]
}

fn protocol_param() -> (p: ToolParam)
    ensures
        p@ == (ToolParamView { choices: protocol_choices(), ..plain_param("protocol"@, ParamKind::Text, "Protocol to filter by (e.g., TCP, UDP, ICMP)"@, None, None) }),
{
    let mut p = make_param("protocol", ParamKind::Text, "Protocol to filter by (e.g., TCP, UDP, ICMP)", None, None, None);
    let mut choices: Vec<String> = Vec::new();
    choices.push(String::from_str("TCP"));
    choices.push(String::from_str("UDP"));
    choices.push(String::from_str("ICMP"));
    choices.push(String::from_str("ARP"));
    choices.push(String::from_str("IPv4"));
    choices.push(String::from_str("IPv6"));
    assert(string_texts(choices@) =~= protocol_choices());
    p.choices = choices;
    p
}

impl PcapNGServerHandler {
    /// The parser this handler answers with.
    pub closed spec fn parser_of(self) -> PcapNGParser {
        self.parser
    }

    /// A handler (it holds no state beyond its stateless parser).
    pub fn new() -> (h: Self)
        ensures
            h.parser_of() == PcapNGParser,
    {
        PcapNGServerHandler { parser: PcapNGParser::new() }
    }

    /// The tools this handler offers, each with its input schema.
    pub fn list_tools(&self) -> (tools: Vec<ToolDefinition>)
        ensures
            tool_views(tools@) =~= handler_tool_list(),
    {
        let ghost expected = handler_tool_list();
        let mut tools: Vec<ToolDefinition> = Vec::new();

        let mut params: Vec<ToolParam> = Vec::new();
        params.push(make_param("file_path", ParamKind::Text, "Path to the PcapNG or PCAP file to parse", None, None, None));
        params.push(make_param("include_timing", ParamKind::Flag, "Whether to include detailed timing analysis", None, None, Some(ParamDefault::Flag(false))));
        params.push(make_param("max_interfaces", ParamKind::Integer, "Maximum number of interfaces to process", Some(1), None, None));
        assert(params@.map_values(|p: ToolParam| p@) =~= expected[0].params);
        tools.push(make_file_tool(
            "parse_file",
            "Parse a PcapNG or PCAP file and return comprehensive information including packet counts, timing, and interface details",
            params,
        ));

        let mut params: Vec<ToolParam> = Vec::new();
        params.push(make_param("file_path", ParamKind::Text, "Path to the PcapNG file to analyze", None, None, None));
        params.push(make_param("include_sections", ParamKind::Flag, "Whether to include section header details", None, None, Some(ParamDefault::Flag(false))));
        assert(params@.map_values(|p: ToolParam| p@) =~= expected[1].params);
        tools.push(make_file_tool(
            "get_metadata",
            "Extract metadata information from a PcapNG file including section headers and interface details",
            params,
        ));

        let mut params: Vec<ToolParam> = Vec::new();
        params.push(make_param("file_path", ParamKind::Text, "Path to the PcapNG file to analyze", None, None, None));
        assert(params@.map_values(|p: ToolParam| p@) =~= expected[2].params);
        tools.push(make_file_tool(
            "list_interfaces",
            "List all network interfaces found in a PcapNG file with their properties",
            params,
        ));

        let mut params: Vec<ToolParam> = Vec::new();
        params.push(make_param("file_path", ParamKind::Text, "Path to the PcapNG file to filter", None, None, None));
        params.push(protocol_param());
        params.push(make_param("source_ip", ParamKind::Text, "Source IP address to filter by (IPv4 or IPv6)", None, None, None));
        params.push(make_param("dest_ip", ParamKind::Text, "Destination IP address to filter by (IPv4 or IPv6)", None, None, None));
        params.push(make_param("port", ParamKind::Integer, "Port number to filter by (for TCP/UDP packets)", Some(1), Some(65535), None));
        params.push(make_param("max_results", ParamKind::Integer, "Maximum number of results to return", Some(1), Some(10000), Some(ParamDefault::Integer(1000))));
        assert(params@.map_values(|p: ToolParam| p@) =~= expected[3].params);
        tools.push(make_file_tool(
            "filter_packets",
            "Filter packets from a PcapNG file based on protocol, IP addresses, or ports",
            params,
        ));

        let mut params: Vec<ToolParam> = Vec::new();
        params.push(make_param("file_path", ParamKind::Text, "Path to the PcapNG file to analyze", None, None, None));
        params.push(make_param("interface_id", ParamKind::Integer, "Specific interface ID to analyze (optional)", Some(0), None, None));
        assert(params@.map_values(|p: ToolParam| p@) =~= expected[4].params);
        tools.push(make_file_tool(
            "analyze_timing",
            "Analyze packet timing and traffic patterns in a PcapNG file",
            params,
        ));
        tools
    }

    /// The tool a call names, or `None` when the handler has no such tool.
    pub fn find_tool(&self, name: &str) -> (tool: Option<HandlerTool>)
        ensures
            match tool {
                Some(t) => handler_tool_name(t) == name@,
                None => forall|t: HandlerTool| handler_tool_name(t) != name@,
            },
    {
        let n = String::from_str(name);
        if n == String::from_str("parse_file") {
            Some(HandlerTool::ParseFile)
        } else if n == String::from_str("get_metadata") {
            Some(HandlerTool::GetMetadata)
        } else if n == String::from_str("list_interfaces") {
            Some(HandlerTool::ListInterfaces)
        } else if n == String::from_str("filter_packets") {
            Some(HandlerTool::FilterPackets)
        } else if n == String::from_str("analyze_timing") {
            Some(HandlerTool::AnalyzeTiming)
        } else {
            None
        }
    }
}

} // verus!
