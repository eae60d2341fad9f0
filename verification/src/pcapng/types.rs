use vstd::prelude::*;
use vstd::string::*;

use crate::pcapng::time::Timestamp;
use crate::utils::text::{decimal, format_decimal, opt_text};

verus! {

/// What a section header of a capture tells.
#[derive(Debug, Clone)]
pub struct SectionInfo {
    pub hardware: Option<String>,
    pub os: Option<String>,
    pub application: Option<String>,
    pub byte_order: String,
    pub major_version: u16,
    pub minor_version: u16,
}

/// A network interface of a capture, with its link type as code and name.
#[derive(Debug, Clone)]
pub struct InterfaceInfo {
    pub id: u32,
    pub name: Option<String>,
    pub description: Option<String>,
    pub link_type: u16,
    pub link_type_name: String,
    pub snap_length: u32,
    pub timestamp_resolution: u8,
    pub filter: Option<String>,
}

/// One packet of a capture.
#[derive(Debug, Clone)]
pub struct PacketSummary {
    pub interface_id: u32,
    pub timestamp: Timestamp,
    pub captured_length: u32,
    pub original_length: u32,
    /// The first bytes of the packet, in hexadecimal.
    pub data_preview: Option<String>,
    pub comment: Option<String>,
}

/// The contents of a [`PacketSummary`].
pub struct PacketSummaryView {
    pub interface_id: u32,
    pub timestamp: Timestamp,
    pub captured_length: u32,
    pub original_length: u32,
    pub data_preview: Option<Seq<char>>,
    pub comment: Option<Seq<char>>,
}

impl View for PacketSummary {
    type V = PacketSummaryView;

    open spec fn view(&self) -> PacketSummaryView {
        PacketSummaryView {
            interface_id: self.interface_id,
            timestamp: self.timestamp,
            captured_length: self.captured_length,
            original_length: self.original_length,
            data_preview: opt_text(self.data_preview),
            comment: opt_text(self.comment),
        }
    }
}

/// The contents of a list of packets.
pub open spec fn packet_views(packets: Seq<PacketSummary>) -> Seq<PacketSummaryView> {
    packets.map_values(|p: PacketSummary| p@)
}

fn copy_text(s: &Option<String>) -> (r: Option<String>)
    ensures
        opt_text(r) == opt_text(*s),
{
    match s {
        Some(t) => Some(t.clone()),
        None => None,
    }
}

impl PacketSummary {
    /// A copy of this packet.
    pub fn duplicate(&self) -> (p: PacketSummary)
        ensures
            p@ == self@,
    {
        PacketSummary {
            interface_id: self.interface_id,
            timestamp: self.timestamp,
            captured_length: self.captured_length,
            original_length: self.original_length,
            data_preview: copy_text(&self.data_preview),
            comment: copy_text(&self.comment),
        }
    }
}

/// Statistics of a capture file. The mean packet size and the share of each
/// size bucket are left to the reader: they are quotients of the totals held
/// here.
#[derive(Debug)]
pub struct FileStatistics {
    pub file_path: String,
    pub file_size: u64,
    pub total_packets: usize,
    pub total_sections: usize,
    pub total_interfaces: usize,
    pub time_range: Option<TimeRange>,
    pub interface_stats: Vec<InterfaceStats>,
    pub packet_size_distribution: PacketSizeDistribution,
}

/// The span from the earliest to the latest packet.
#[derive(Debug, Clone, Copy, PartialEq, Eq, Structural)]
pub struct TimeRange {
    pub start: Timestamp,
    pub end: Timestamp,
    /// Whole milliseconds from `start` to `end`.
    pub duration_millis: i64,
}

/// Packet and byte counts of one interface.
#[derive(Debug, Clone, Copy, PartialEq, Eq, Structural)]
pub struct InterfaceStats {
    pub interface_id: u32,
    pub packet_count: usize,
    /// Captured bytes of the interface's packets.
    pub total_bytes: u64,
    pub link_type: u16,
}

/// How the captured packet sizes spread.
#[derive(Debug)]
pub struct PacketSizeDistribution {
    pub min_size: u32,
    pub max_size: u32,
    /// Sum of the captured sizes.
    pub total_size: u64,
    /// The number of packets the sizes are taken over.
    pub packet_count: usize,
    pub size_buckets: Vec<SizeBucket>,
}

/// The number of packets whose captured size falls in a range.
#[derive(Debug)]
pub struct SizeBucket {
    pub range: String,
    pub count: usize,
}

/// The name shown for a data link type code.
pub open spec fn link_type_name(link_type: u16) -> Seq<char> {
    if link_type == 1 { "Ethernet"@ }
    else if link_type == 105 { "IEEE 802.11"@ }
    else if link_type == 127 { "IEEE 802.11 Radio"@ }
    else if link_type == 9 { "PPP"@ }
    else if link_type == 12 { "Raw IP"@ }
    else if link_type == 113 { "Linux cooked"@ }
    else { "Unknown ("@ + decimal(link_type as nat) + ")"@ }
}

/// Names a data link type: a few common ones by name, any other as
/// `Unknown (<code>)`.
pub fn link_type_to_name(link_type: u16) -> (name: String)
    ensures
        name@ == link_type_name(link_type),
{
    match link_type {
        1 => String::from_str("Ethernet"),
        105 => String::from_str("IEEE 802.11"),
        127 => String::from_str("IEEE 802.11 Radio"),
        9 => String::from_str("PPP"),
        12 => String::from_str("Raw IP"),
        113 => String::from_str("Linux cooked"),
        _ => {
            let mut name = String::from_str("Unknown (");
            let digits = format_decimal(link_type as u64);
            name.append(digits.as_str());
            name.append(")");
            name
        },
    }
}

} // verus!
