//! The decisions of the packet-analysis tool handlers: which packets a
//! request gets back.

use vstd::prelude::*;
use vstd::string::*;

use crate::mcp::tools::{FilterPacketsArgs, ParseFileArgs};
use crate::pcapng::analyzer::{filtered, PacketFilter, PcapNGAnalyzer};
use crate::pcapng::time::Timestamp;
use crate::pcapng::types::{packet_views, PacketSummary, PacketSummaryView};
use crate::utils::errors::PcapNGError;
use crate::utils::text::opt_text;

verus! {

/// The text a tool handler answers with.
#[derive(Debug)]
pub struct ToolResult {
    pub content: Vec<ToolResultContent>,
}

/// One piece of a tool handler's answer.
#[derive(Debug)]
pub enum ToolResultContent {
    Text { text: String },
}

impl ToolResult {
    /// An answer made of `content`.
    pub fn new(content: Vec<ToolResultContent>) -> (r: Self)
        ensures
            r.content == content,
    {
        Self { content }
    }
}

/// The number of packets a handler returns when the request sets no limit.
pub const DEFAULT_PACKET_LIMIT: usize = 1000;

/// The number of results a filter returns when the request sets no limit.
pub fn default_max_results() -> (n: usize)
    ensures
        n == DEFAULT_PACKET_LIMIT,
{
    DEFAULT_PACKET_LIMIT
}

/// What `text.parse::<chrono::DateTime<chrono::Utc>>()` gives: the instant
/// (seconds since the epoch and nanoseconds), or the text of chrono's parse
/// error.
pub uninterp spec fn utc_instant_of_text(text: Seq<char>) -> core::result::Result<Timestamp, Seq<char>>;

/// Parses `text` as a `chrono::DateTime<chrono::Utc>` (an RFC 3339 date and
/// time, any offset brought to UTC) and reports the instant or the parse
/// error's text. The result is named, not restated.
#[verifier::external_body]
fn parse_utc_instant(text: &str) -> (r: core::result::Result<Timestamp, String>)
    ensures
        match r {
            Ok(t) => utc_instant_of_text(text@) == Ok::<Timestamp, Seq<char>>(t),
            Err(m) => utc_instant_of_text(text@) == Err::<Timestamp, Seq<char>>(m@),
        },
{
    match text.parse::<chrono::DateTime<chrono::Utc>>() {
        Ok(t) => Ok(Timestamp { secs: t.timestamp(), nanos: t.timestamp_subsec_nanos() }),
        Err(e) => Err(e.to_string()),
    }
}

/// The instant an optional time argument gives, or the message of the
/// timestamp error it causes (`label` introduces the parse error).
pub open spec fn time_argument(text: Option<Seq<char>>, label: Seq<char>) -> core::result::Result<Option<Timestamp>, Seq<char>> {
    match text {
        None => Ok(None),
        Some(t) => match utc_instant_of_text(t) {
            Ok(instant) => Ok(Some(instant)),
            Err(e) => Err(label + e),
        },
    }
}

fn read_time_argument(text: &Option<String>, label: &str) -> (r: core::result::Result<Option<Timestamp>, PcapNGError>)
    ensures
        match time_argument(opt_text(*text), label@) {
            Ok(t) => r == Ok::<Option<Timestamp>, PcapNGError>(t),
            Err(m) => r matches Err(PcapNGError::TimestampError(s)) && s@ == m,
        },
{
    match text {
        None => Ok(None),
        Some(t) => match parse_utc_instant(t.as_str()) {
            Ok(instant) => Ok(Some(instant)),
            Err(e) => {
                let mut message = String::from_str(label);
                message.append(e.as_str());
                Err(PcapNGError::TimestampError(message))
            },
        },
    }
}

/// The first `limit` packets of `packets` (all of them when there are fewer).
pub open spec fn first_packets(packets: Seq<PacketSummaryView>, limit: nat) -> Seq<PacketSummaryView> {
    if packets.len() <= limit { packets } else { packets.take(limit as int) }
}

fn take_packets(packets: Vec<PacketSummary>, limit: usize) -> (r: Vec<PacketSummary>)
    ensures
        packet_views(r@) == first_packets(packet_views(packets@), limit as nat),
{
    if packets.len() <= limit {
        return packets;
    }
    let mut r: Vec<PacketSummary> = Vec::new();
    let mut i: usize = 0;
    while i < limit
        invariant
            i <= limit < packets@.len(),
            packet_views(r@) =~= packet_views(packets@).take(i as int),
        decreases limit - i,
    {
        let ghost before = r@;
        r.push(packets[i].duplicate());
        assert(packet_views(r@) =~= packet_views(before).push(packets@[i as int]@));
        assert(packet_views(packets@).take(i + 1) =~= packet_views(packets@).take(i as int).push(packets@[i as int]@));
        i = i + 1;
    }
    r
}

/// Whether `r` answers a filter request over `packets`: the packets that meet
/// its criteria, at most `max_results` of them (1000 when unset); or the
/// timestamp error of its start time, else of its end time.
pub open spec fn answers_filter_request(
    r: core::result::Result<Vec<PacketSummary>, PcapNGError>,
    packets: Seq<PacketSummaryView>,
    args: FilterPacketsArgs,
) -> bool {
    match time_argument(opt_text(args.start_time), "Invalid start time: "@) {
        Err(m) => r matches Err(PcapNGError::TimestampError(s)) && s@ == m,
        Ok(start) => match time_argument(opt_text(args.end_time), "Invalid end time: "@) {
            Err(m) => r matches Err(PcapNGError::TimestampError(s)) && s@ == m,
            Ok(end) => r matches Ok(v) && packet_views(v@) == first_packets(
                filtered(packets, PacketFilter {
                    interface_id: args.interface_id,
                    start_time: start,
                    end_time: end,
                    min_size: args.min_size,
                    max_size: args.max_size,
                }),
                match args.max_results {
                    Some(n) => n as nat,
                    None => DEFAULT_PACKET_LIMIT as nat,
                },
            ),
        },
    }
}

/// The packets a filter request gets back.
pub fn select_filtered_packets(packets: &[PacketSummary], args: &FilterPacketsArgs) -> (r: core::result::Result<Vec<PacketSummary>, PcapNGError>)
    ensures
        answers_filter_request(r, packet_views(packets@), *args),
{
    let start = read_time_argument(&args.start_time, "Invalid start time: ")?;
    let end = read_time_argument(&args.end_time, "Invalid end time: ")?;
    let kept = PcapNGAnalyzer::filter_packets(packets, args.interface_id, start, end, args.min_size, args.max_size);
    let limit = match args.max_results {
        Some(n) => n,
        None => default_max_results(),
    };
    Ok(take_packets(kept, limit))
}

/// The packets a parse request gets back: none unless it asks for packet
/// data, else at most `max_packets` of them (1000 when unset).
pub fn select_parsed_packets(packets: Vec<PacketSummary>, args: &ParseFileArgs) -> (r: Vec<PacketSummary>)
    ensures
        args.include_packet_data == Some(true) ==> packet_views(r@) == first_packets(
            packet_views(packets@),
            match args.max_packets {
                Some(n) => n as nat,
                None => DEFAULT_PACKET_LIMIT as nat,
            },
        ),
        args.include_packet_data != Some(true) ==> r@.len() == 0,
{
    match args.include_packet_data {
        Some(true) => {
            let limit = match args.max_packets {
                Some(n) => n,
                None => DEFAULT_PACKET_LIMIT,
            };
            take_packets(packets, limit)
        },
        _ => Vec::new(),
    }
}

} // verus!
