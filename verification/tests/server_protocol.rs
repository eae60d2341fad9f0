use pcapng_mcp_server::mcp::handlers::{
    default_max_results, select_filtered_packets, select_parsed_packets, ToolResult, ToolResultContent,
};
use pcapng_mcp_server::mcp::rpc::{
    invalid_json_reply, listed_tools, reply_to_tool_call, reply_without_call, route_request, Route,
    RpcReply, ToolKind, ToolOutcome,
};
use pcapng_mcp_server::mcp::server::{McpError, PcapNGServer};
use pcapng_mcp_server::mcp::tool_handler::{HandlerTool, PcapNGServerHandler};
use pcapng_mcp_server::mcp::tools::{get_tool_definitions, FilterPacketsArgs, ParamDefault, ParamKind, ParseFileArgs};
use pcapng_mcp_server::pcapng::time::Timestamp;
use pcapng_mcp_server::pcapng::types::PacketSummary;
use pcapng_mcp_server::utils::errors::PcapNGError;

fn minimal_pcapng() -> Vec<u8> {
    let mut b = Vec::new();
    for w in [0x0A0D0D0Au32, 28, 0x1A2B3C4D] {
        b.extend_from_slice(&w.to_le_bytes());
    }
    b.extend_from_slice(&1u16.to_le_bytes());
    b.extend_from_slice(&0u16.to_le_bytes());
    b.extend_from_slice(&(-1i64).to_le_bytes());
    b.extend_from_slice(&28u32.to_le_bytes());
    for w in [1u32, 20, 1, 65535, 20] {
        b.extend_from_slice(&w.to_le_bytes());
    }
    b
}

#[test]
fn routes_known_methods() {
    assert!(matches!(route_request("initialize", "", None), Route::Initialize));
    assert!(matches!(route_request("notifications/initialized", "", None), Route::Initialized));
    assert!(matches!(route_request("tools/list", "", None), Route::ListTools));
}

#[test]
fn routes_tool_calls() {
    match route_request("tools/call", "get_pcapng_metadata", Some("/a.pcapng")) {
        Route::CallTool(ToolKind::GetMetadata, p) => assert_eq!(p, "/a.pcapng"),
        other => panic!("unexpected {:?}", other),
    }
    assert!(matches!(route_request("tools/call", "parse_pcapng_file", Some("x")), Route::CallTool(ToolKind::ParseFile, _)));
    assert!(matches!(route_request("tools/call", "list_pcapng_interfaces", Some("x")), Route::CallTool(ToolKind::ListInterfaces, _)));
    assert!(matches!(route_request("tools/call", "filter_pcapng_packets", Some("x")), Route::CallTool(ToolKind::FilterPackets, _)));
    assert!(matches!(route_request("tools/call", "analyze_pcapng_timing", Some("x")), Route::CallTool(ToolKind::AnalyzeTiming, _)));
    assert!(matches!(route_request("tools/call", "analyze_pcapng_timing", None), Route::MissingFilePath));
    assert!(matches!(route_request("tools/call", "parse_pcapng_file", None), Route::MissingFilePath));
    match route_request("tools/call", "delete_everything", Some("x")) {
        Route::UnknownTool(n) => assert_eq!(n, "delete_everything"),
        other => panic!("unexpected {:?}", other),
    }
    match route_request("resources/list", "", None) {
        Route::UnknownMethod(m) => assert_eq!(m, "resources/list"),
        other => panic!("unexpected {:?}", other),
    }
}

#[test]
fn replies_without_running_a_tool() {
    assert!(matches!(reply_without_call(&Route::Initialize), Some(RpcReply::Initialize)));
    assert!(matches!(reply_without_call(&Route::Initialized), Some(RpcReply::Nothing)));
    match reply_without_call(&Route::ListTools) {
        Some(RpcReply::Tools(tools)) => {
            let names: Vec<&str> = tools.iter().map(|t| t.name.as_str()).collect();
            assert_eq!(
                names,
                vec!["parse_pcapng_file", "get_pcapng_metadata", "list_pcapng_interfaces", "filter_pcapng_packets", "analyze_pcapng_timing"]
            );
        },
        other => panic!("unexpected {:?}", other),
    }
    assert!(reply_without_call(&Route::CallTool(ToolKind::ParseFile, "x".to_string())).is_none());
    match reply_without_call(&Route::MissingFilePath) {
        Some(RpcReply::ToolResult(ToolOutcome::Failure(c, m))) => {
            assert_eq!(c, -32602);
            assert_eq!(m, "Missing required parameter: file_path");
        },
        other => panic!("unexpected {:?}", other),
    }
    match reply_without_call(&Route::UnknownTool("zap".to_string())) {
        Some(RpcReply::ToolResult(ToolOutcome::Failure(c, m))) => {
            assert_eq!(c, -32601);
            assert_eq!(m, "Unknown tool: zap");
        },
        other => panic!("unexpected {:?}", other),
    }
    match reply_without_call(&Route::UnknownMethod("ping".to_string())) {
        Some(RpcReply::Error(c, m)) => {
            assert_eq!(c, -32601);
            assert_eq!(m, "Unknown method: ping");
        },
        other => panic!("unexpected {:?}", other),
    }
}

#[test]
fn invalid_json_gets_parse_error() {
    match invalid_json_reply() {
        RpcReply::Error(c, m) => {
            assert_eq!(c, -32700);
            assert_eq!(m, "Parse error");
        },
        other => panic!("unexpected {:?}", other),
    }
}

#[test]
fn new_tool_failures_name_their_tool() {
    let err = McpError { message: "m".to_string() };
    match reply_to_tool_call(ToolKind::FilterPackets, Err(err)) {
        RpcReply::ToolResult(ToolOutcome::Failure(c, m)) => {
            assert_eq!(c, -32000);
            assert_eq!(m, "Filter error: -32603: m");
        },
        other => panic!("unexpected {:?}", other),
    }
    let err = McpError { message: "m".to_string() };
    match reply_to_tool_call(ToolKind::AnalyzeTiming, Err(err)) {
        RpcReply::ToolResult(ToolOutcome::Failure(_, m)) => assert_eq!(m, "Timing analysis error: -32603: m"),
        other => panic!("unexpected {:?}", other),
    }
}

#[test]
fn tool_call_replies() {
    match reply_to_tool_call(ToolKind::ParseFile, Ok("{}".to_string())) {
        RpcReply::ToolResult(ToolOutcome::Content(t)) => assert_eq!(t, "{}"),
        other => panic!("unexpected {:?}", other),
    }
    let err = McpError { message: "Parse error: Parsing error: Unknown file format".to_string() };
    match reply_to_tool_call(ToolKind::GetMetadata, Err(err)) {
        RpcReply::ToolResult(ToolOutcome::Failure(c, m)) => {
            assert_eq!(c, -32000);
            assert_eq!(m, "Metadata error: -32603: Parse error: Parsing error: Unknown file format");
        },
        other => panic!("unexpected {:?}", other),
    }
    let err = McpError { message: "boom".to_string() };
    match reply_to_tool_call(ToolKind::ListInterfaces, Err(err)) {
        RpcReply::ToolResult(ToolOutcome::Failure(_, m)) => assert_eq!(m, "Interface listing error: -32603: boom"),
        other => panic!("unexpected {:?}", other),
    }
}

#[test]
fn listed_tools_take_a_file_path() {
    let tools = listed_tools();
    assert_eq!(tools.len(), 5);
    for t in &tools {
        assert_eq!(t.required, vec!["file_path".to_string()]);
        assert_eq!(t.params[0].name, "file_path");
        assert_eq!(t.params[0].kind, ParamKind::Text);
        assert!(matches!(route_request("tools/call", &t.name, Some("p")), Route::CallTool(_, _)));
    }
}

#[test]
fn handler_tool_definitions() {
    let tools = get_tool_definitions();
    let names: Vec<&str> = tools.iter().map(|t| t.name.as_str()).collect();
    assert_eq!(names, vec!["parse_pcapng_file", "filter_packets", "get_file_statistics", "list_interfaces"]);
    assert_eq!(tools[0].params.len(), 3);
    assert_eq!(tools[0].params[2].name, "max_packets");
    assert_eq!(tools[0].params[2].minimum, Some(1));
    assert_eq!(tools[0].params[2].maximum, Some(100000));
    assert_eq!(tools[1].params.len(), 7);
    assert_eq!(tools[1].params[6].maximum, Some(10000));
    assert_eq!(tools[1].params[1].kind, ParamKind::Integer);
}

#[test]
fn tool_handler_names_and_schemas() {
    let handler = PcapNGServerHandler::new();
    let tools = handler.list_tools();
    let names: Vec<&str> = tools.iter().map(|t| t.name.as_str()).collect();
    assert_eq!(names, vec!["parse_file", "get_metadata", "list_interfaces", "filter_packets", "analyze_timing"]);
    assert_eq!(tools[0].params[1].default, Some(ParamDefault::Flag(false)));
    assert_eq!(tools[3].params[1].choices.len(), 6);
    assert_eq!(tools[3].params[5].default, Some(ParamDefault::Integer(1000)));
    assert_eq!(handler.find_tool("analyze_timing"), Some(HandlerTool::AnalyzeTiming));
    assert_eq!(handler.find_tool("parse_file"), Some(HandlerTool::ParseFile));
    assert_eq!(handler.find_tool("parse_pcapng_file"), None);
}

#[test]
fn server_reports_parse_summary() {
    let server = PcapNGServer::new();
    let data = minimal_pcapng();
    let report = server.parse_file("/cap.pcapng", &data).unwrap();
    assert_eq!(report.file_path, "/cap.pcapng");
    assert_eq!(report.file_type, "PcapNG");
    assert_eq!(report.total_packets, 0);
    assert_eq!(report.file_size, data.len() as u64);
    assert_eq!(report.interfaces, 1);
    assert_eq!(report.capture_duration, None);
    let meta = server.get_metadata("/cap.pcapng", &data).unwrap();
    assert_eq!(meta.interface_count, 1);
    assert_eq!(meta.file_type, "PcapNG");
    let ifaces = server.list_interfaces("/cap.pcapng", &data).unwrap();
    assert_eq!(ifaces.interface_count, 1);
    assert_eq!(ifaces.interfaces[0].link_type, "ETHERNET");
}

#[test]
fn server_reports_parse_failure() {
    let server = PcapNGServer::new();
    let err = server.parse_file("/bad", &[0, 0, 0, 0]).unwrap_err();
    assert_eq!(err.message, "Parse error: Parsing error: Unknown file format");
    assert_eq!(err.text(), "-32603: Parse error: Parsing error: Unknown file format");
    let e = server.to_mcp_error(&PcapNGError::FileError("Cannot open file: gone".to_string()));
    assert_eq!(e.message, "Parse error: File error: Cannot open file: gone");
}

fn with_packets(mut b: Vec<u8>, micros: &[u64]) -> Vec<u8> {
    for t in micros {
        for w in [6u32, 32, 0, (t >> 32) as u32, *t as u32, 0, 0, 32] {
            b.extend_from_slice(&w.to_le_bytes());
        }
    }
    b
}

#[test]
fn server_reports_timing_and_filter_criteria() {
    let server = PcapNGServer::new();
    let data = with_packets(minimal_pcapng(), &[5_000_000, 6_500_000, 8_000_000]);
    let timing = server.analyze_timing("/cap.pcapng", Some(1), &data).unwrap();
    assert_eq!(timing.total_packets, 0);
    assert_eq!(timing.first_packet, None);
    assert_eq!(timing.capture_duration, None);
    assert_eq!(timing.interface_filter, Some(1));
    let timing = server.analyze_timing("/cap.pcapng", Some(0), &data).unwrap();
    assert_eq!(timing.file_path, "/cap.pcapng");
    assert_eq!(timing.total_packets, 3);
    assert_eq!(timing.capture_duration, Some(3));
    assert_eq!(timing.first_packet, Some(Timestamp { secs: 5, nanos: 0 }));
    assert_eq!(timing.last_packet, Some(Timestamp { secs: 8, nanos: 0 }));
    assert_eq!(timing.interfaces, 1);
    assert_eq!(timing.interface_filter, Some(0));
    let report = server
        .filter_packets("/cap.pcapng", Some("TCP".to_string()), None, Some("10.0.0.1".to_string()), Some(443), Some(5), &data)
        .unwrap();
    assert_eq!(report.total_packets_in_file, 3);
    assert_eq!(report.protocol.as_deref(), Some("TCP"));
    assert_eq!(report.source_ip, None);
    assert_eq!(report.dest_ip.as_deref(), Some("10.0.0.1"));
    assert_eq!(report.port, Some(443));
    assert_eq!(report.max_results, Some(5));
    let err = server.analyze_timing("/bad", None, &[1, 2]).unwrap_err();
    assert_eq!(err.message, "Parse error: Parsing error: Cannot read file header: failed to fill whole buffer");
    let err = server.filter_packets("/bad", None, None, None, None, None, &[0, 0, 0, 0]).unwrap_err();
    assert_eq!(err.message, "Parse error: Parsing error: Unknown file format");
}

fn with_frames(mut b: Vec<u8>, frames: &[(u32, Vec<u8>)]) -> Vec<u8> {
    for (micros, frame) in frames {
        let padded = (frame.len() + 3) / 4 * 4;
        let len = (32 + padded) as u32;
        for w in [6u32, len, 0, 0, *micros, frame.len() as u32, frame.len() as u32] {
            b.extend_from_slice(&w.to_le_bytes());
        }
        b.extend_from_slice(frame);
        b.resize(b.len() + padded - frame.len(), 0);
        b.extend_from_slice(&len.to_le_bytes());
    }
    b
}

fn ipv4_frame(proto: u8, src: [u8; 4], dst: [u8; 4], sport: u16, dport: u16) -> Vec<u8> {
    let mut f = vec![0u8; 12];
    f.extend_from_slice(&[0x08, 0x00]);
    let mut ip = vec![0x45, 0, 0, 40, 0, 0, 0, 0, 64, proto, 0, 0];
    ip.extend_from_slice(&src);
    ip.extend_from_slice(&dst);
    f.extend_from_slice(&ip);
    f.extend_from_slice(&sport.to_be_bytes());
    f.extend_from_slice(&dport.to_be_bytes());
    f.extend_from_slice(&[0; 16]);
    f
}

fn ipv6_udp_frame(src_last: u8, sport: u16, dport: u16) -> Vec<u8> {
    let mut f = vec![0u8; 12];
    f.extend_from_slice(&[0x86, 0xDD]);
    f.extend_from_slice(&[0x60, 0, 0, 0, 0, 8, 17, 64]);
    let mut src = [0u8; 16];
    src[0] = 0x20;
    src[1] = 0x01;
    src[2] = 0x0d;
    src[3] = 0xb8;
    src[15] = src_last;
    f.extend_from_slice(&src);
    f.extend_from_slice(&[0u8; 15]);
    f.push(2);
    f.extend_from_slice(&sport.to_be_bytes());
    f.extend_from_slice(&dport.to_be_bytes());
    f.extend_from_slice(&[0; 4]);
    f
}

fn arp_frame() -> Vec<u8> {
    let mut f = vec![0u8; 12];
    f.extend_from_slice(&[0x08, 0x06]);
    f.extend_from_slice(&[0; 28]);
    f
}

#[test]
fn filter_tool_returns_matching_packets() {
    let server = PcapNGServer::new();
    let data = with_frames(
        minimal_pcapng(),
        &[
            (1, ipv4_frame(6, [10, 0, 0, 1], [192, 168, 1, 20], 443, 51000)),
            (2, ipv4_frame(17, [10, 0, 0, 2], [8, 8, 8, 8], 5353, 53)),
            (3, arp_frame()),
            (4, ipv4_frame(6, [10, 0, 0, 1], [192, 168, 1, 21], 51001, 80)),
            (5, ipv6_udp_frame(1, 1000, 53)),
        ],
    );
    let all = server.filter_packets("/c", None, None, None, None, None, &data).unwrap();
    assert_eq!(all.total_packets_in_file, 5);
    assert_eq!(all.packets.len(), 5);
    let tcp = server.filter_packets("/c", Some("TCP".into()), None, None, None, None, &data).unwrap();
    let numbers: Vec<u64> = tcp.packets.iter().map(|p| p.number).collect();
    assert_eq!(numbers, vec![1, 4]);
    assert_eq!(tcp.packets[0].interface_id, 0);
    assert_eq!(tcp.packets[0].captured_length, 54);
    let from = server.filter_packets("/c", None, Some("10.0.0.1".into()), None, None, None, &data).unwrap();
    assert_eq!(from.packets.iter().map(|p| p.number).collect::<Vec<_>>(), vec![1, 4]);
    let to = server.filter_packets("/c", None, None, Some("192.168.1.21".into()), None, None, &data).unwrap();
    assert_eq!(to.packets.iter().map(|p| p.number).collect::<Vec<_>>(), vec![4]);
    let dns = server.filter_packets("/c", Some("UDP".into()), None, None, Some(53), None, &data).unwrap();
    assert_eq!(dns.packets.iter().map(|p| p.number).collect::<Vec<_>>(), vec![2, 5]);
    let v6 = server.filter_packets("/c", Some("IPv6".into()), Some("2001:db8:0:0:0:0:0:1".into()), None, None, None, &data).unwrap();
    assert_eq!(v6.packets.iter().map(|p| p.number).collect::<Vec<_>>(), vec![5]);
    let arp = server.filter_packets("/c", Some("ARP".into()), None, None, None, None, &data).unwrap();
    assert_eq!(arp.packets.iter().map(|p| p.number).collect::<Vec<_>>(), vec![3]);
    let capped = server.filter_packets("/c", None, None, None, None, Some(2), &data).unwrap();
    assert_eq!(capped.packets.iter().map(|p| p.number).collect::<Vec<_>>(), vec![1, 2]);
    let port80 = server.filter_packets("/c", None, None, None, Some(80), None, &data).unwrap();
    assert_eq!(port80.packets.iter().map(|p| p.number).collect::<Vec<_>>(), vec![4]);
    let none = server.filter_packets("/c", Some("ICMP".into()), None, None, None, None, &data).unwrap();
    assert!(none.packets.is_empty());
}

#[test]
fn error_messages() {
    assert_eq!(PcapNGError::FileNotFound("a".into()).to_string(), "File not found: a");
    assert_eq!(PcapNGError::InvalidFormat("b".into()).to_string(), "Invalid PcapNG format: b");
    assert_eq!(PcapNGError::ParseError("c".into()).to_string(), "Parsing error: c");
    assert_eq!(PcapNGError::IoError("d".into()).to_string(), "IO error: d");
    assert_eq!(PcapNGError::JsonError("e".into()).to_string(), "JSON serialization error: e");
    assert_eq!(PcapNGError::McpError("f".into()).to_string(), "MCP error: f");
    assert_eq!(PcapNGError::TimestampError("g".into()).to_string(), "Invalid timestamp: g");
    assert_eq!(PcapNGError::UnsupportedLinkType(147).to_string(), "Unsupported link type: 147");
}

fn packet(secs: i64, size: u32) -> PacketSummary {
    PacketSummary {
        interface_id: 0,
        timestamp: Timestamp { secs, nanos: 0 },
        captured_length: size,
        original_length: size,
        data_preview: None,
        comment: Some("c".to_string()),
    }
}

fn filter_args(start: Option<&str>, end: Option<&str>, max_results: Option<usize>) -> FilterPacketsArgs {
    FilterPacketsArgs {
        file_path: "/x".to_string(),
        interface_id: None,
        start_time: start.map(|s| s.to_string()),
        end_time: end.map(|s| s.to_string()),
        min_size: None,
        max_size: None,
        max_results,
    }
}

#[test]
fn filter_request_parses_times_and_caps_results() {
    let packets: Vec<PacketSummary> = (0..5).map(|i| packet(1_704_067_200 + i, 100)).collect();
    let args = filter_args(Some("2024-01-01T00:00:01Z"), Some("2024-01-01T01:00:03+01:00"), Some(2));
    let kept = select_filtered_packets(&packets, &args).unwrap();
    let secs: Vec<i64> = kept.iter().map(|p| p.timestamp.secs).collect();
    assert_eq!(secs, vec![1_704_067_201, 1_704_067_202]);
    assert_eq!(kept[0].comment.as_deref(), Some("c"));
    let all = select_filtered_packets(&packets, &filter_args(None, None, None)).unwrap();
    assert_eq!(all.len(), 5);
    assert_eq!(default_max_results(), 1000);
}

#[test]
fn filter_request_rejects_bad_times() {
    let packets = vec![packet(1, 1)];
    match select_filtered_packets(&packets, &filter_args(Some("yesterday"), None, None)) {
        Err(PcapNGError::TimestampError(m)) => assert!(m.starts_with("Invalid start time: "), "{}", m),
        other => panic!("unexpected {:?}", other),
    }
    match select_filtered_packets(&packets, &filter_args(None, Some("2024-13-01T00:00:00Z"), None)) {
        Err(PcapNGError::TimestampError(m)) => assert!(m.starts_with("Invalid end time: "), "{}", m),
        other => panic!("unexpected {:?}", other),
    }
}

#[test]
fn parse_request_packets() {
    let packets: Vec<PacketSummary> = (0..4).map(|i| packet(i, 10)).collect();
    let args = ParseFileArgs { file_path: "/x".to_string(), include_packet_data: Some(true), max_packets: Some(3) };
    assert_eq!(select_parsed_packets(packets.clone(), &args).len(), 3);
    let args = ParseFileArgs { file_path: "/x".to_string(), include_packet_data: None, max_packets: Some(3) };
    assert!(select_parsed_packets(packets.clone(), &args).is_empty());
    let args = ParseFileArgs { file_path: "/x".to_string(), include_packet_data: Some(true), max_packets: None };
    assert_eq!(select_parsed_packets(packets, &args).len(), 4);
}

#[test]
fn tool_result_holds_content() {
    let r = ToolResult::new(vec![ToolResultContent::Text { text: "hi".to_string() }]);
    assert_eq!(r.content.len(), 1);
    match &r.content[0] {
        ToolResultContent::Text { text } => assert_eq!(text, "hi"),
    }
}
