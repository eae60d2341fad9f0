//! Properties of how the server answers requests.

use vstd::prelude::*;

use crate::mcp::rpc::{routes_to, server_tools, tool_name, Route, ToolKind};
use crate::mcp::server::{is_metadata_report, is_parse_report, MetadataReport, ParseReport};
use crate::pcapng::parser::{capture_info, capture_times_representable};
use crate::pcapng::properties::law_parse_fixed_when_times_representable;
use crate::pcapng::time::Timestamp;

verus! {

/// Every tool the server lists can be called: a call that names it and gives
/// a `file_path` runs that tool on that path, and one without a path is
/// refused for the missing parameter. Conversely every tool that runs is
/// listed.
pub proof fn law_listed_tools_are_callable(r: Route, index: int, path: Option<Seq<char>>)
    requires
        0 <= index < server_tools().len(),
        routes_to(r, "tools/call"@, server_tools()[index].name, path),
    ensures
        path matches Some(p) ==> r matches Route::CallTool(k, fp) && tool_name(k) == server_tools()[index].name && fp@ == p,
        path is None ==> r is MissingFilePath,
{
    reveal_strlit("tools/call");
    reveal_strlit("initialize");
    reveal_strlit("notifications/initialized");
    reveal_strlit("tools/list");
    assert("tools/call"@[0] != "initialize"@[0]);
    assert("tools/call"@[0] != "notifications/initialized"@[0]);
    assert("tools/call"@[6] != "tools/list"@[6]);
    if index == 0 {
        assert(server_tools()[index].name == tool_name(ToolKind::ParseFile));
    } else if index == 1 {
        assert(server_tools()[index].name == tool_name(ToolKind::GetMetadata));
    } else if index == 2 {
        assert(server_tools()[index].name == tool_name(ToolKind::ListInterfaces));
    } else if index == 3 {
        assert(server_tools()[index].name == tool_name(ToolKind::FilterPackets));
    } else {
        assert(server_tools()[index].name == tool_name(ToolKind::AnalyzeTiming));
    }
}

/// The server lists each of its tools, and each requires `file_path`.
pub proof fn law_every_tool_listed_with_file_path(kind: ToolKind)
    ensures
        exists|i: int| 0 <= i < server_tools().len() && #[trigger] server_tools()[i].name == tool_name(kind)
            && server_tools()[i].required == seq!["file_path"@],
{
    law_called_tools_are_listed(kind);
}

/// Different tools have different names, so a call's name decides its tool.
pub proof fn law_tool_names_differ(a: ToolKind, b: ToolKind)
    requires
        tool_name(a) == tool_name(b),
    ensures
        a == b,
{
    reveal_strlit("parse_pcapng_file");
    reveal_strlit("get_pcapng_metadata");
    reveal_strlit("list_pcapng_interfaces");
    reveal_strlit("filter_pcapng_packets");
    reveal_strlit("analyze_pcapng_timing");
    assert(tool_name(ToolKind::ParseFile)[0] == 'p');
    assert(tool_name(ToolKind::GetMetadata)[0] == 'g');
    assert(tool_name(ToolKind::ListInterfaces)[0] == 'l');
    assert(tool_name(ToolKind::FilterPackets)[0] == 'f');
    assert(tool_name(ToolKind::AnalyzeTiming)[0] == 'a');
    assert(tool_name(a)[0] == tool_name(b)[0]);
}

/// When chrono can represent every packet instant of a capture, two parse
/// reports of it from the same path are the same, whenever they are made:
/// the server keeps no state and the clock is never consulted.
pub proof fn law_parse_reports_fixed(
    data: Seq<u8>,
    path: Seq<char>,
    p1: ParseReport,
    p2: ParseReport,
    now1: Timestamp,
    now2: Timestamp,
)
    requires
        capture_times_representable(data),
        capture_info(data, now1) is Ok,
        is_parse_report(p1, path, capture_info(data, now1)->Ok_0),
        is_parse_report(p2, path, capture_info(data, now2)->Ok_0),
    ensures
        p1.file_path@ == p2.file_path@,
        p1.total_packets == p2.total_packets,
        p1.file_size == p2.file_size,
        p1.file_type@ == p2.file_type@,
        p1.interfaces == p2.interfaces,
        p1.capture_duration == p2.capture_duration,
{
    law_parse_fixed_when_times_representable(data, now1, now2, None);
}

/// When chrono can represent every packet instant of a capture, its parse
/// and metadata reports from the same path agree: same path, file type,
/// size, packet count, number of interfaces and capture window.
pub proof fn law_parse_and_metadata_reports_agree(
    data: Seq<u8>,
    path: Seq<char>,
    p: ParseReport,
    m: MetadataReport,
    now1: Timestamp,
    now2: Timestamp,
)
    requires
        capture_times_representable(data),
        capture_info(data, now1) is Ok,
        is_parse_report(p, path, capture_info(data, now1)->Ok_0),
        is_metadata_report(m, path, capture_info(data, now2)->Ok_0),
    ensures
        m.file_path@ == p.file_path@,
        m.file_type@ == p.file_type@,
        m.file_size == p.file_size,
        m.total_packets == p.total_packets,
        m.interface_count == p.interfaces,
        m.capture_duration == p.capture_duration,
{
    law_parse_fixed_when_times_representable(data, now1, now2, None);
}

/// Every tool the server runs is one it lists.
pub proof fn law_called_tools_are_listed(kind: ToolKind)
    ensures
        exists|i: int| 0 <= i < server_tools().len() && #[trigger] server_tools()[i].name == tool_name(kind),
{
    match kind {
        ToolKind::ParseFile => assert(server_tools()[0].name == tool_name(kind)),
        ToolKind::GetMetadata => assert(server_tools()[1].name == tool_name(kind)),
        ToolKind::ListInterfaces => assert(server_tools()[2].name == tool_name(kind)),
        ToolKind::FilterPackets => assert(server_tools()[3].name == tool_name(kind)),
        ToolKind::AnalyzeTiming => assert(server_tools()[4].name == tool_name(kind)),
    }
}

/// A method the server does not know is answered with an error naming it,
/// whatever tool or path the request carries.
pub proof fn law_unknown_methods_are_refused(r: Route, method: Seq<char>, tool: Seq<char>, path: Option<Seq<char>>)
    requires
        method != "initialize"@,
        method != "notifications/initialized"@,
        method != "tools/list"@,
        method != "tools/call"@,
        routes_to(r, method, tool, path),
    ensures
        r matches Route::UnknownMethod(m) && m@ == method,
{
}

} // verus!
