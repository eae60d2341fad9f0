//! The tool server: its answers about capture files, and how it answers the
//! JSON-RPC requests of an MCP client.

use vstd::prelude::*;
use vstd::string::*;

use crate::pcapng::parser::{
    capture_info, capture_info_on, interface_views, parse_capture_on, parsed_as, parsed_on, FileInfoView,
    InterfaceInfo, PcapNGParser,
};
use crate::pcapng::time::Timestamp;
use crate::utils::errors::PcapNGError;
use crate::utils::text::opt_text;
use crate::pcapng::packets::{at_most, matching, select_matching, CriteriaView, MatchedPacket, PacketCriteria, PacketView};
use crate::pcapng::parser::{capture_packets, read_packets};
use crate::pcapng::properties::law_packets_agree_with_parse;

verus! {

/// An internal MCP error, as `rmcp::ErrorData::internal_error` makes it
/// (code -32603, no data).
#[derive(Debug)]
pub struct McpError {
    pub message: String,
}

/// The code of an internal MCP error.
pub const INTERNAL_ERROR_CODE: i64 = -32603;

/// Writes `rmcp::ErrorData::internal_error(message, None)` with its
/// `Display`, which the source shows to be the code, a colon and a space, and
/// the message.
#[verifier::external_body]
fn internal_error_text(message: &str) -> (s: String)
    ensures
        s@ == "-32603: "@ + message@,
{
    rmcp::ErrorData::internal_error(message.to_string(), None).to_string()
}

impl McpError {
    /// The text of this error: its code and its message.
    pub fn text(&self) -> (s: String)
        ensures
            s@ == "-32603: "@ + self.message@,
    {
        internal_error_text(self.message.as_str())
    }
}

/// Summary of a capture file for the parsing tool.
#[derive(Debug)]
pub struct ParseReport {
    pub file_path: String,
    pub total_packets: u64,
    pub file_size: u64,
    pub file_type: String,
    /// The number of interfaces.
    pub interfaces: usize,
    pub capture_duration: Option<u64>,
}

/// Metadata of a capture file for the metadata tool.
#[derive(Debug)]
pub struct MetadataReport {
    pub file_path: String,
    pub file_type: String,
    pub file_size: u64,
    pub total_packets: u64,
    pub interface_count: usize,
    pub capture_duration: Option<u64>,
}

/// The interfaces of a capture file for the interface tool.
#[derive(Debug)]
pub struct InterfacesReport {
    pub file_path: String,
    pub interface_count: usize,
    pub interfaces: Vec<InterfaceInfo>,
}

/// What the packet filter tool reports: the packet count of the file, the
/// criteria it was asked for, and the packets that meet them.
#[derive(Debug)]
pub struct FilterReport {
    pub file_path: String,
    pub total_packets_in_file: u64,
    /// The packets that meet the criteria, in file order, at most
    /// `max_results` of them.
    pub packets: Vec<MatchedPacket>,
    pub protocol: Option<String>,
    pub source_ip: Option<String>,
    pub dest_ip: Option<String>,
    pub port: Option<u16>,
    pub max_results: Option<usize>,
}

/// What the timing tool reports. The packets-per-second figure is left to the
/// caller: it is `total_packets` over the seconds of `capture_duration`, and
/// is given only when that duration is over zero seconds.
#[derive(Debug)]
pub struct TimingReport {
    pub file_path: String,
    pub total_packets: u64,
    pub capture_duration: Option<u64>,
    pub first_packet: Option<Timestamp>,
    pub last_packet: Option<Timestamp>,
    /// The number of interfaces.
    pub interfaces: usize,
    pub interface_filter: Option<u32>,
}

/// Whether `r` is the parse report for `file_path` of a capture with this
/// summary.
pub open spec fn is_parse_report(r: ParseReport, file_path: Seq<char>, info: FileInfoView) -> bool {
    &&& r.file_path@ == file_path
    &&& r.total_packets == info.total_packets
    &&& r.file_size == info.file_size
    &&& r.file_type@ == info.file_type
    &&& r.interfaces == info.interfaces.len()
    &&& r.capture_duration == info.capture_duration
}

/// Whether `r` is the metadata report for `file_path` of a capture with this
/// summary.
pub open spec fn is_metadata_report(r: MetadataReport, file_path: Seq<char>, info: FileInfoView) -> bool {
    &&& r.file_path@ == file_path
    &&& r.file_type@ == info.file_type
    &&& r.file_size == info.file_size
    &&& r.total_packets == info.total_packets
    &&& r.interface_count == info.interfaces.len()
    &&& r.capture_duration == info.capture_duration
}

/// Whether `r` is the interface report for `file_path` of a capture with this
/// summary.
pub open spec fn is_interfaces_report(r: InterfacesReport, file_path: Seq<char>, info: FileInfoView) -> bool {
    &&& r.file_path@ == file_path
    &&& r.interface_count == info.interfaces.len()
    &&& interface_views(r.interfaces@) == info.interfaces
}

/// Whether `r` is the filter report for `file_path` of a capture with this
/// summary and these packets, echoing the given criteria and listing the
/// packets that meet them.
pub open spec fn is_filter_report(
    r: FilterReport,
    file_path: Seq<char>,
    info: FileInfoView,
    protocol: Option<Seq<char>>,
    source_ip: Option<Seq<char>>,
    dest_ip: Option<Seq<char>>,
    port: Option<u16>,
    max_results: Option<usize>,
    packets: Seq<PacketView>,
) -> bool {
    &&& r.file_path@ == file_path
    &&& r.total_packets_in_file == info.total_packets
    &&& r.packets@ == at_most(
        matching(packets, CriteriaView { protocol, source_ip, dest_ip, port }),
        max_results,
    )
    &&& opt_text(r.protocol) == protocol
    &&& opt_text(r.source_ip) == source_ip
    &&& opt_text(r.dest_ip) == dest_ip
    &&& r.port == port
    &&& r.max_results == max_results
}

/// Whether `r` is the timing report for `file_path` of a capture with this
/// summary, for the interface filter `interface_id`.
pub open spec fn is_timing_report(r: TimingReport, file_path: Seq<char>, info: FileInfoView, interface_id: Option<u32>) -> bool {
    &&& r.file_path@ == file_path
    &&& r.total_packets == info.total_packets
    &&& r.capture_duration == info.capture_duration
    &&& r.first_packet == info.first_packet_time
    &&& r.last_packet == info.last_packet_time
    &&& r.interfaces == info.interfaces.len()
    &&& r.interface_filter == interface_id
}

/// The message of the MCP error for a failed parse.
pub open spec fn parse_failure_message(e: PcapNGError) -> Seq<char> {
    "Parse error: "@ + e.message()
}

/// The message of the MCP error for a capture whose parse failed with the
/// parse error message `e`.
pub open spec fn parse_failure_text(e: Seq<char>) -> Seq<char> {
    "Parse error: "@ + ("Parsing error: "@ + e)
}

/// Answers the tools of the MCP server from capture files.
pub struct PcapNGServer {
    parser: PcapNGParser,
}

impl PcapNGServer {
    /// The parser this server answers with.
    pub closed spec fn parser_of(self) -> PcapNGParser {
        self.parser
    }

    /// A server (it holds no state beyond its stateless parser).
    pub fn new() -> (s: Self)
        ensures
            s.parser_of() == PcapNGParser,
    {
        PcapNGServer { parser: PcapNGParser::new() }
    }

    /// The MCP error for a failure to read or parse a capture.
    pub fn to_mcp_error(&self, err: &PcapNGError) -> (e: McpError)
        ensures
            e.message@ == parse_failure_message(*err),
    {
        let mut message = String::from_str("Parse error: ");
        let text = err.to_string();
        message.append(text.as_str());
        McpError { message }
    }

    /// The parse report of the capture `data` read from `file_path`.
    pub fn parse_file(&self, file_path: &str, data: &[u8]) -> (r: core::result::Result<ParseReport, McpError>)
        ensures
            exists|now: Timestamp| now.clock_reading() && match #[trigger] capture_info(data@, now) {
                Ok(info) => r matches Ok(rep) && is_parse_report(rep, file_path@, info),
                Err(e) => r matches Err(m) && m.message@ == parse_failure_text(e),
            },
    {
        let parsed = self.parser.parse_file(data);
        let ghost now = choose|now: Timestamp| now.clock_reading() && #[trigger] parsed_as(parsed, data@, now);
        let r = match parsed {
            Ok(info) => {
                let rep = ParseReport {
                    file_path: String::from_str(file_path),
                    total_packets: info.total_packets,
                    file_size: info.file_size,
                    file_type: info.file_type,
                    interfaces: info.interfaces.len(),
                    capture_duration: info.capture_duration,
                };
                Ok(rep)
            },
            Err(e) => Err(self.to_mcp_error(&e)),
        };
        assert(match capture_info(data@, now) {
            Ok(info) => r matches Ok(rep) && is_parse_report(rep, file_path@, info),
            Err(e) => r matches Err(m) && m.message@ == parse_failure_text(e),
        });
        r
    }

    /// The metadata report of the capture `data` read from `file_path`,
    /// taken from parsing the whole capture.
    pub fn get_metadata(&self, file_path: &str, data: &[u8]) -> (r: core::result::Result<MetadataReport, McpError>)
        ensures
            exists|now: Timestamp| now.clock_reading() && match #[trigger] capture_info(data@, now) {
                Ok(info) => r matches Ok(rep) && is_metadata_report(rep, file_path@, info),
                Err(e) => r matches Err(m) && m.message@ == parse_failure_text(e),
            },
    {
        let parsed = self.parser.parse_file(data);
        let ghost now = choose|now: Timestamp| now.clock_reading() && #[trigger] parsed_as(parsed, data@, now);
        let r = match parsed {
            Ok(info) => {
                let rep = MetadataReport {
                    file_path: String::from_str(file_path),
                    file_type: info.file_type,
                    file_size: info.file_size,
                    total_packets: info.total_packets,
                    interface_count: info.interfaces.len(),
                    capture_duration: info.capture_duration,
                };
                Ok(rep)
            },
            Err(e) => Err(self.to_mcp_error(&e)),
        };
        assert(match capture_info(data@, now) {
            Ok(info) => r matches Ok(rep) && is_metadata_report(rep, file_path@, info),
            Err(e) => r matches Err(m) && m.message@ == parse_failure_text(e),
        });
        r
    }

    /// The interface report of the capture `data` read from `file_path`.
    pub fn list_interfaces(&self, file_path: &str, data: &[u8]) -> (r: core::result::Result<InterfacesReport, McpError>)
        ensures
            exists|now: Timestamp| now.clock_reading() && match #[trigger] capture_info(data@, now) {
                Ok(info) => r matches Ok(rep) && is_interfaces_report(rep, file_path@, info),
                Err(e) => r matches Err(m) && m.message@ == parse_failure_text(e),
            },
    {
        let parsed = self.parser.parse_file(data);
        let ghost now = choose|now: Timestamp| now.clock_reading() && #[trigger] parsed_as(parsed, data@, now);
        let r = match parsed {
            Ok(info) => {
                let count = info.interfaces.len();
                let rep = InterfacesReport {
                    file_path: String::from_str(file_path),
                    interface_count: count,
                    interfaces: info.interfaces,
                };
                Ok(rep)
            },
            Err(e) => Err(self.to_mcp_error(&e)),
        };
        assert(match capture_info(data@, now) {
            Ok(info) => r matches Ok(rep) && is_interfaces_report(rep, file_path@, info),
            Err(e) => r matches Err(m) && m.message@ == parse_failure_text(e),
        });
        r
    }

    /// The filter report of the capture `data` read from `file_path`: its
    /// packet count, the criteria echoed back, and the packets that meet
    /// every given criterion (protocol, source and destination address,
    /// port), in file order, at most `max_results` of them.
    pub fn filter_packets(
        &self,
        file_path: &str,
        protocol: Option<String>,
        source_ip: Option<String>,
        dest_ip: Option<String>,
        port: Option<u16>,
        max_results: Option<usize>,
        data: &[u8],
    ) -> (r: core::result::Result<FilterReport, McpError>)
        ensures
            exists|now: Timestamp| now.clock_reading() && match #[trigger] capture_info(data@, now) {
                Ok(info) => r matches Ok(rep) && is_filter_report(
                    rep,
                    file_path@,
                    info,
                    opt_text(protocol),
                    opt_text(source_ip),
                    opt_text(dest_ip),
                    port,
                    max_results,
                    capture_packets(data@)->Ok_0,
                ),
                Err(e) => r matches Err(m) && m.message@ == parse_failure_text(e),
            },
    {
        let ghost (p0, s0, d0) = (opt_text(protocol), opt_text(source_ip), opt_text(dest_ip));
        let _len = data.len();
        let parsed = self.parser.parse_file(data);
        let ghost now = choose|now: Timestamp| now.clock_reading() && #[trigger] parsed_as(parsed, data@, now);
        proof {
            law_packets_agree_with_parse(data@, now);
        }
        let criteria = PacketCriteria { protocol, source_ip, dest_ip, port };
        let r = match parsed {
            Ok(info) => match read_packets(data) {
                Ok(packets) => {
                    let matched = select_matching(&packets, &criteria, max_results);
                    let rep = FilterReport {
                        file_path: String::from_str(file_path),
                        total_packets_in_file: info.total_packets,
                        packets: matched,
                        protocol: criteria.protocol,
                        source_ip: criteria.source_ip,
                        dest_ip: criteria.dest_ip,
                        port: criteria.port,
                        max_results,
                    };
                    Ok(rep)
                },
                Err(e) => Err(self.to_mcp_error(&e)),
            },
            Err(e) => Err(self.to_mcp_error(&e)),
        };
        assert(match capture_info(data@, now) {
            Ok(info) => r matches Ok(rep) && is_filter_report(
                rep, file_path@, info, p0, s0, d0, port, max_results, capture_packets(data@)->Ok_0),
            Err(e) => r matches Err(m) && m.message@ == parse_failure_text(e),
        });
        r
    }

    /// The timing report of the capture `data` read from `file_path`: its
    /// packet count and timing over the packets of interface `interface_id`
    /// when one is given, else over all packets.
    pub fn analyze_timing(&self, file_path: &str, interface_id: Option<u32>, data: &[u8]) -> (r: core::result::Result<TimingReport, McpError>)
        ensures
            exists|now: Timestamp| now.clock_reading() && match #[trigger] capture_info_on(data@, now, interface_id) {
                Ok(info) => r matches Ok(rep) && is_timing_report(rep, file_path@, info, interface_id),
                Err(e) => r matches Err(m) && m.message@ == parse_failure_text(e),
            },
    {
        let parsed = parse_capture_on(data, interface_id);
        let ghost now = choose|now: Timestamp| now.clock_reading() && #[trigger] parsed_on(parsed, data@, now, interface_id);
        let r = match parsed {
            Ok(info) => {
                let rep = TimingReport {
                    file_path: String::from_str(file_path),
                    total_packets: info.total_packets,
                    capture_duration: info.capture_duration,
                    first_packet: info.first_packet_time,
                    last_packet: info.last_packet_time,
                    interfaces: info.interfaces.len(),
                    interface_filter: interface_id,
                };
                Ok(rep)
            },
            Err(e) => Err(self.to_mcp_error(&e)),
        };
        assert(match capture_info_on(data@, now, interface_id) {
            Ok(info) => r matches Ok(rep) && is_timing_report(rep, file_path@, info, interface_id),
            Err(e) => r matches Err(m) && m.message@ == parse_failure_text(e),
        });
        r
    }
}

/// Arguments of a parse request.
#[derive(Debug)]
pub struct ParseFileRequest {
    pub file_path: String,
    pub include_timing: Option<bool>,
    pub include_interfaces: Option<bool>,
}

/// Arguments of a metadata request.
#[derive(Debug)]
pub struct GetMetadataRequest {
    pub file_path: String,
}

/// Arguments of an interface listing request.
#[derive(Debug)]
pub struct ListInterfacesRequest {
    pub file_path: String,
}

/// Arguments of a packet filter request.
#[derive(Debug)]
pub struct FilterPacketsRequest {
    pub file_path: String,
    pub protocol: Option<String>,
    pub source_ip: Option<String>,
    pub dest_ip: Option<String>,
    pub port: Option<u16>,
    pub max_results: Option<usize>,
}

/// Arguments of a timing analysis request.
#[derive(Debug)]
pub struct AnalyzeTimingRequest {
    pub file_path: String,
    pub interface_id: Option<u32>,
}

} // verus!
