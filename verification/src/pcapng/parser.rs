//! Summaries of a capture file: its format, packet count, interfaces and
//! capture window, its section and interface metadata, and its timing.

use vstd::prelude::*;
use vstd::slice::slice_subrange;
use vstd::string::*;

use crate::pcapng::blocks::{
    check_pcap_reader, check_pcapng_reader, decoded_views, le_word, option_views, pcap_reader_refusal, pcap_records,
    pcapng_blocks, pcapng_reader_refusal, read_le_word, read_pcap_records, truncated_error, walk_pcapng, DecodedBlock,
    DecodedView, NgBlock, NgOption, OptionView, PcapRecord, RecordView, record_views, read_be_word, word,
};
use crate::pcapng::properties::{law_parse_fixed_when_times_representable, law_parse_independent_of_fallback_instant};
use crate::pcapng::packets::{captured_views, CapturedPacket, PacketView};
use crate::pcapng::time::{
    seconds_between, seconds_representable, utc_seconds_representable, whole_seconds_between,
    Timestamp,
};
use crate::utils::errors::{PcapNGError, PcapNGResult};
use crate::utils::text::{opt_text, prefixed_text, text};

verus! {

/// Magic number that starts a PcapNG file (its Section Header Block type).
pub const PCAPNG_MAGIC: u32 = 0x0A0D_0D0A;

/// Magic number of a little-endian classic PCAP file, read little-endian.
pub const PCAP_MAGIC_LE: u32 = 0xA1B2_C3D4;

/// Magic number of a big-endian classic PCAP file, read little-endian.
pub const PCAP_MAGIC_BE: u32 = 0xD4C3_B2A1;

/// Magic number of a little-endian classic PCAP file with nanosecond
/// timestamps, read little-endian.
pub const PCAP_NANO_MAGIC_LE: u32 = 0xA1B2_3C4D;

/// Magic number of a big-endian classic PCAP file with nanosecond
/// timestamps, read little-endian.
pub const PCAP_NANO_MAGIC_BE: u32 = 0x4D3C_B2A1;

/// Buffer capacity of the readers that check a capture's first header.
pub const READER_CAPACITY: usize = 65536;

/// Snapshot length reported for the interface of a classic PCAP file.
pub const PCAP_DEFAULT_SNAP_LEN: u32 = 65535;

/// A network interface described in a capture.
#[derive(Debug)]
pub struct InterfaceInfo {
    pub id: u32,
    pub name: Option<String>,
    pub description: Option<String>,
    pub link_type: String,
    pub snap_len: u32,
    pub packet_count: u64,
}

/// The contents of an [`InterfaceInfo`].
pub struct InterfaceInfoView {
    pub id: u32,
    pub name: Option<Seq<char>>,
    pub description: Option<Seq<char>>,
    pub link_type: Seq<char>,
    pub snap_len: u32,
    pub packet_count: u64,
}

impl View for InterfaceInfo {
    type V = InterfaceInfoView;

    open spec fn view(&self) -> InterfaceInfoView {
        InterfaceInfoView {
            id: self.id,
            name: opt_text(self.name),
            description: opt_text(self.description),
            link_type: self.link_type@,
            snap_len: self.snap_len,
            packet_count: self.packet_count,
        }
    }
}

/// The contents of a list of interfaces.
pub open spec fn interface_views(interfaces: Seq<InterfaceInfo>) -> Seq<InterfaceInfoView> {
    interfaces.map_values(|i: InterfaceInfo| i@)
}

/// What parsing a whole capture file tells.
#[derive(Debug)]
pub struct FileInfo {
    pub file_type: String,
    pub file_size: u64,
    pub total_packets: u64,
    pub interfaces: Vec<InterfaceInfo>,
    /// Whole seconds from the first to the last packet.
    pub capture_duration: Option<u64>,
    pub first_packet_time: Option<Timestamp>,
    pub last_packet_time: Option<Timestamp>,
}

/// The contents of a [`FileInfo`].
pub struct FileInfoView {
    pub file_type: Seq<char>,
    pub file_size: u64,
    pub total_packets: u64,
    pub interfaces: Seq<InterfaceInfoView>,
    pub capture_duration: Option<u64>,
    pub first_packet_time: Option<Timestamp>,
    pub last_packet_time: Option<Timestamp>,
}

impl View for FileInfo {
    type V = FileInfoView;

    open spec fn view(&self) -> FileInfoView {
        FileInfoView {
            file_type: self.file_type@,
            file_size: self.file_size,
            total_packets: self.total_packets,
            interfaces: interface_views(self.interfaces@),
            capture_duration: self.capture_duration,
            first_packet_time: self.first_packet_time,
            last_packet_time: self.last_packet_time,
        }
    }
}

/// One packet of a capture.
#[derive(Debug)]
pub struct PacketInfo {
    pub interface_id: Option<u32>,
    pub timestamp: Option<Timestamp>,
    pub captured_len: u32,
    pub original_len: u32,
    pub data_preview: Option<String>,
}

/// What a Section Header Block tells.
#[derive(Debug)]
pub struct SectionInfo {
    pub byte_order_magic: u32,
    pub version_major: u16,
    pub version_minor: u16,
    pub section_length: Option<u64>,
    pub options: Vec<String>,
}

/// The contents of a [`SectionInfo`].
pub struct SectionInfoView {
    pub byte_order_magic: u32,
    pub version_major: u16,
    pub version_minor: u16,
    pub section_length: Option<u64>,
    pub options: Seq<Seq<char>>,
}

/// The texts of a list of strings.
pub open spec fn texts(strings: Seq<String>) -> Seq<Seq<char>> {
    strings.map_values(|s: String| s@)
}

impl View for SectionInfo {
    type V = SectionInfoView;

    open spec fn view(&self) -> SectionInfoView {
        SectionInfoView {
            byte_order_magic: self.byte_order_magic,
            version_major: self.version_major,
            version_minor: self.version_minor,
            section_length: self.section_length,
            options: texts(self.options@),
        }
    }
}

/// The structure of a capture file: its (last) section header, interfaces,
/// block count and comments.
#[derive(Debug)]
pub struct FileMetadata {
    pub section_info: Option<SectionInfo>,
    pub interfaces: Vec<InterfaceInfo>,
    pub total_blocks: u64,
    pub file_comments: Vec<String>,
}

/// The contents of a [`FileMetadata`].
pub struct FileMetadataView {
    pub section_info: Option<SectionInfoView>,
    pub interfaces: Seq<InterfaceInfoView>,
    pub total_blocks: u64,
    pub file_comments: Seq<Seq<char>>,
}

impl View for FileMetadata {
    type V = FileMetadataView;

    open spec fn view(&self) -> FileMetadataView {
        FileMetadataView {
            section_info: match self.section_info {
                Some(s) => Some(s@),
                None => None,
            },
            interfaces: interface_views(self.interfaces@),
            total_blocks: self.total_blocks,
            file_comments: texts(self.file_comments@),
        }
    }
}

/// The text that `pcap_parser::Linktype`'s `Display` writes for `code`.
pub uninterp spec fn linktype_display(code: i32) -> Seq<char>;

/// Writes `pcap_parser::Linktype(code)` with its `Display`; the text is named,
/// not restated.
#[verifier::external_body]
fn linktype_label(code: i32) -> (s: String)
    ensures
        s@ == linktype_display(code),
{
    pcap_parser::Linktype(code).to_string()
}

/// The timestamp ticks of an Enhanced Packet Block.
pub open spec fn epb_ticks(ts_high: u32, ts_low: u32) -> int {
    ts_high * 4294967296 + ts_low
}

/// The ticks read as microseconds and converted to whole seconds: the 64-bit
/// tick count taken as a signed number and divided by one million, rounding
/// toward zero.
pub open spec fn epb_seconds(ts_high: u32, ts_low: u32) -> int {
    let ticks = epb_ticks(ts_high, ts_low);
    let signed = if ticks < 0x8000_0000_0000_0000 { ticks } else { ticks - 0x1_0000_0000_0000_0000 };
    if signed >= 0 {
        signed / 1_000_000
    } else {
        -((-signed) / 1_000_000)
    }
}

/// The instant of an Enhanced Packet Block: its whole seconds when chrono can
/// represent them, else `now`.
pub open spec fn packet_time(ts_high: u32, ts_low: u32, now: Timestamp) -> Timestamp {
    let secs = epb_seconds(ts_high, ts_low) as i64;
    if utc_seconds_representable(secs) {
        Timestamp { secs, nanos: 0 }
    } else {
        now
    }
}

/// The instant of an Enhanced Packet Block. The present instant is read from
/// the clock, once, the first time a timestamp chrono cannot represent needs
/// it, and kept in `clock` for later ones.
fn packet_time_of(ts_high: u32, ts_low: u32, clock: &mut Option<Timestamp>) -> (t: Timestamp)
    ensures
        *old(clock) is Some ==> *final(clock) == *old(clock),
        *final(clock) matches Some(c) ==> (*old(clock) is None ==> c.clock_reading()) && t == packet_time(ts_high, ts_low, c),
        *final(clock) is None ==> forall|now: Timestamp| t == #[trigger] packet_time(ts_high, ts_low, now),
{
    let ticks: u64 = ts_high as u64 * 4294967296 + ts_low as u64;
    let secs: i64 = if ticks < 0x8000_0000_0000_0000 {
        (ticks / 1_000_000) as i64
    } else {
        let magnitude: u64 = (0xFFFF_FFFF_FFFF_FFFF - ticks) + 1;
        0 - ((magnitude / 1_000_000) as i64)
    };
    assert(secs == epb_seconds(ts_high, ts_low));
    if seconds_representable(secs) {
        Timestamp { secs, nanos: 0 }
    } else {
        match *clock {
            Some(c) => c,
            None => {
                let c = crate::pcapng::time::current_time();
                *clock = Some(c);
                c
            },
        }
    }
}

/// Option code of a comment.
pub const OPT_COMMENT: u16 = 1;

/// Option code of an interface's name.
pub const OPT_IF_NAME: u16 = 2;

/// Option code of an interface's description.
pub const OPT_IF_DESCRIPTION: u16 = 3;

/// The text of the first option with code `code` from position `i` on
/// (`None` when there is none, or when its value is not text).
pub open spec fn option_text_from(options: Seq<OptionView>, code: u16, i: int) -> Option<Seq<char>>
    decreases options.len() - i,
{
    if i < 0 || i >= options.len() {
        None
    } else if options[i].0 == code {
        options[i].1
    } else {
        option_text_from(options, code, i + 1)
    }
}

/// The text of the first option with code `code`, as pcap-parser's option
/// getters pick it.
pub open spec fn option_text(options: Seq<OptionView>, code: u16) -> Option<Seq<char>> {
    option_text_from(options, code, 0)
}

/// The texts of the comment options among `options`, in order (a comment
/// whose value is not text is left out).
pub open spec fn comment_texts(options: Seq<OptionView>) -> Seq<Seq<char>>
    decreases options.len(),
{
    if options.len() == 0 {
        Seq::empty()
    } else {
        let earlier = comment_texts(options.drop_last());
        let o = options.last();
        if o.0 == OPT_COMMENT && o.1 is Some {
            earlier.push(o.1->Some_0)
        } else {
            earlier
        }
    }
}

/// The link type, snapshot length and options of the Interface Description
/// Blocks among `blocks`, in order.
pub open spec fn interface_entries(blocks: Seq<DecodedView>) -> Seq<(i32, u32, Seq<OptionView>)>
    decreases blocks.len(),
{
    if blocks.len() == 0 {
        Seq::empty()
    } else {
        let earlier = interface_entries(blocks.drop_last());
        match blocks.last().0 {
            NgBlock::InterfaceDescription(link_type, snap_len) => earlier.push((link_type, snap_len, blocks.last().1)),
            _ => earlier,
        }
    }
}

/// The number of Enhanced Packet Blocks among `blocks` captured on interface
/// `id`.
pub open spec fn interface_packets(blocks: Seq<DecodedView>, id: int) -> nat
    decreases blocks.len(),
{
    if blocks.len() == 0 {
        0
    } else {
        interface_packets(blocks.drop_last(), id) + match blocks.last().0 {
            NgBlock::EnhancedPacket(i, _, _) => if i == id { 1nat } else { 0nat },
            _ => 0nat,
        }
    }
}

/// The `index`th interface, described by `entry`, with the packets of
/// `blocks` captured on it.
pub open spec fn described_interface(index: int, entry: (i32, u32, Seq<OptionView>), blocks: Seq<DecodedView>) -> InterfaceInfoView {
    InterfaceInfoView {
        id: index as u32,
        name: option_text(entry.2, OPT_IF_NAME),
        description: option_text(entry.2, OPT_IF_DESCRIPTION),
        link_type: linktype_display(entry.0),
        snap_len: entry.1,
        packet_count: interface_packets(blocks, index) as u64,
    }
}

/// The interfaces that `entries` describe, numbered from zero, with their
/// packets among `blocks`.
pub open spec fn interfaces_with_counts(entries: Seq<(i32, u32, Seq<OptionView>)>, blocks: Seq<DecodedView>) -> Seq<InterfaceInfoView> {
    Seq::new(entries.len(), |i: int| described_interface(i, entries[i], blocks))
}

/// The interfaces that `blocks` describe.
pub open spec fn described_interfaces(blocks: Seq<DecodedView>) -> Seq<InterfaceInfoView> {
    interfaces_with_counts(interface_entries(blocks), blocks)
}

/// Whether a block is a packet that the figures count: with no interface
/// selected every packet block; with interface `k` selected, the Enhanced
/// Packet Blocks captured on `k`.
pub open spec fn counted(block: NgBlock, sel: Option<u32>) -> bool {
    match sel {
        None => block is EnhancedPacket || block is SimplePacket,
        Some(k) => block matches NgBlock::EnhancedPacket(id, _, _) && id == k,
    }
}

/// The number of counted packet blocks among `blocks`.
pub open spec fn packet_block_count(blocks: Seq<DecodedView>, sel: Option<u32>) -> nat
    decreases blocks.len(),
{
    if blocks.len() == 0 {
        0
    } else {
        packet_block_count(blocks.drop_last(), sel) + if counted(blocks.last().0, sel) { 1nat } else { 0nat }
    }
}

/// The instant of a counted Enhanced Packet Block, or `None` for any other
/// block.
pub open spec fn timed_packet(block: NgBlock, now: Timestamp, sel: Option<u32>) -> Option<Timestamp> {
    match block {
        NgBlock::EnhancedPacket(_, high, low) => if counted(block, sel) {
            Some(packet_time(high, low, now))
        } else {
            None
        },
        _ => None,
    }
}

/// The instant of the first counted Enhanced Packet Block among `blocks`.
pub open spec fn first_packet_time(blocks: Seq<DecodedView>, now: Timestamp, sel: Option<u32>) -> Option<Timestamp>
    decreases blocks.len(),
{
    if blocks.len() == 0 {
        None
    } else {
        match first_packet_time(blocks.drop_last(), now, sel) {
            Some(t) => Some(t),
            None => timed_packet(blocks.last().0, now, sel),
        }
    }
}

/// The instant of the last counted Enhanced Packet Block among `blocks`.
pub open spec fn last_packet_time(blocks: Seq<DecodedView>, now: Timestamp, sel: Option<u32>) -> Option<Timestamp>
    decreases blocks.len(),
{
    if blocks.len() == 0 {
        None
    } else {
        match timed_packet(blocks.last().0, now, sel) {
            Some(t) => Some(t),
            None => last_packet_time(blocks.drop_last(), now, sel),
        }
    }
}

/// Whole seconds from the first to the last packet, when the last lies after
/// the first.
pub open spec fn capture_window(first: Option<Timestamp>, last: Option<Timestamp>) -> Option<u64> {
    match (first, last) {
        (Some(f), Some(l)) => if f.precedes(l) {
            Some(whole_seconds_between(f, l) as u64)
        } else {
            None
        },
        _ => None,
    }
}

/// What a PcapNG capture of `size` bytes with these blocks tells, its packet
/// figures taken over the packets that `sel` selects.
pub open spec fn pcapng_info(blocks: Seq<DecodedView>, size: nat, now: Timestamp, sel: Option<u32>) -> FileInfoView {
    let first = first_packet_time(blocks, now, sel);
    let last = last_packet_time(blocks, now, sel);
    FileInfoView {
        file_type: "PcapNG"@,
        file_size: size as u64,
        total_packets: packet_block_count(blocks, sel) as u64,
        interfaces: described_interfaces(blocks),
        capture_duration: capture_window(first, last),
        first_packet_time: first,
        last_packet_time: last,
    }
}

/// The single interface reported for a classic PCAP file.
pub open spec fn pcap_interface() -> InterfaceInfoView {
    InterfaceInfoView {
        id: 0,
        name: None,
        description: Some("Legacy PCAP interface"@),
        link_type: "Unknown"@,
        snap_len: PCAP_DEFAULT_SNAP_LEN,
        packet_count: 0,
    }
}

/// The instant of a classic PCAP record, in whole seconds.
pub open spec fn record_time(secs: u32) -> Timestamp {
    Timestamp { secs: secs as i64, nanos: 0 }
}

/// Whether `sel` selects the records of a classic PCAP file, all on its
/// interface 0.
pub open spec fn selects_pcap_interface(sel: Option<u32>) -> bool {
    sel matches Some(k) ==> k == 0
}

/// What a classic PCAP capture of `size` bytes tells, given the timestamp
/// seconds of its records; its packet figures are taken over the records
/// that `sel` selects.
pub open spec fn pcap_info(records: Seq<RecordView>, size: nat, sel: Option<u32>) -> FileInfoView {
    let counted = if selects_pcap_interface(sel) { records } else { Seq::empty() };
    let first = if counted.len() > 0 { Some(record_time(counted[0].0)) } else { None };
    let last = if counted.len() > 0 { Some(record_time(counted.last().0)) } else { None };
    FileInfoView {
        file_type: "PCAP"@,
        file_size: size as u64,
        total_packets: counted.len() as u64,
        interfaces: seq![pcap_interface()],
        capture_duration: capture_window(first, last),
        first_packet_time: first,
        last_packet_time: last,
    }
}

/// The error when the data is too short for the 4-byte format magic (what
/// `read_exact` reports when the input ends early).
pub open spec fn short_header_error() -> Seq<char> {
    "Cannot read file header: failed to fill whole buffer"@
}

/// The format magic of a capture: its first four bytes, little-endian.
pub open spec fn format_magic(data: Seq<u8>) -> int {
    le_word(data, 0)
}

/// Whether a magic number names a classic PCAP file, with microsecond or
/// nanosecond timestamps, in either byte order.
pub open spec fn is_pcap_magic(magic: int) -> bool {
    magic == PCAP_MAGIC_LE || magic == PCAP_MAGIC_BE || magic == PCAP_NANO_MAGIC_LE || magic == PCAP_NANO_MAGIC_BE
}

/// Whether a classic PCAP magic names a big-endian file.
pub open spec fn is_big_endian_pcap(magic: int) -> bool {
    magic == PCAP_MAGIC_BE || magic == PCAP_NANO_MAGIC_BE
}

/// What parsing the capture `data` gives, its packet figures taken over the
/// packets that `sel` selects: its summary, or the message of the parse
/// error. `now` stands in for packet instants that chrono cannot represent.
pub open spec fn capture_info_on(data: Seq<u8>, now: Timestamp, sel: Option<u32>) -> core::result::Result<FileInfoView, Seq<char>> {
    if data.len() < 4 {
        Err(short_header_error())
    } else {
        let magic = format_magic(data);
        if magic == PCAPNG_MAGIC {
            match pcapng_reader_refusal(data, READER_CAPACITY) {
                Some(e) => Err("Cannot create PcapNG reader: "@ + e),
                None => match pcapng_blocks(data, false) {
                    Ok(blocks) => Ok(pcapng_info(blocks, data.len(), now, sel)),
                    Err(e) => Err(e),
                },
            }
        } else if is_pcap_magic(magic) {
            match pcap_reader_refusal(data, READER_CAPACITY) {
                Some(e) => Err("Cannot create PCAP reader: "@ + e),
                // an accepted header is 24 whole bytes
                None => if data.len() >= 24 {
                    match pcap_records(data.subrange(24, data.len() as int), is_big_endian_pcap(magic)) {
                        Ok(records) => Ok(pcap_info(records, data.len(), sel)),
                        Err(e) => Err(e),
                    }
                } else {
                    Err(truncated_error())
                },
            }
        } else {
            Err("Unknown file format"@)
        }
    }
}

/// Whether chrono can represent the instant of every Enhanced Packet Block
/// among `blocks`.
pub open spec fn packet_times_representable(blocks: Seq<DecodedView>) -> bool {
    forall|i: int| 0 <= i < blocks.len() ==> match (#[trigger] blocks[i]).0 {
        NgBlock::EnhancedPacket(_, high, low) => utc_seconds_representable(epb_seconds(high, low) as i64),
        _ => true,
    }
}

/// Whether chrono can represent the instant of every packet of the capture
/// `data`: of every Enhanced Packet Block of a PcapNG capture whose blocks
/// decode (the instants of any other capture never come from the clock).
pub open spec fn capture_times_representable(data: Seq<u8>) -> bool {
    data.len() >= 4 && format_magic(data) == PCAPNG_MAGIC && pcapng_blocks(data, false) is Ok
        ==> packet_times_representable(pcapng_blocks(data, false)->Ok_0)
}

/// What parsing the capture `data` gives, over all its packets.
pub open spec fn capture_info(data: Seq<u8>, now: Timestamp) -> core::result::Result<FileInfoView, Seq<char>> {
    capture_info_on(data, now, None)
}

/// Whether `r` is what parsing `data` gives, over the packets `sel` selects,
/// with `now` as the fallback instant.
pub open spec fn parsed_on(r: PcapNGResult<FileInfo>, data: Seq<u8>, now: Timestamp, sel: Option<u32>) -> bool {
    match capture_info_on(data, now, sel) {
        Ok(info) => r matches Ok(i) && i@ == info,
        Err(e) => r matches Err(PcapNGError::ParseError(m)) && m@ == e,
    }
}

/// Whether `r` is what parsing `data` gives, with `now` as the fallback
/// instant.
pub open spec fn parsed_as(r: PcapNGResult<FileInfo>, data: Seq<u8>, now: Timestamp) -> bool {
    parsed_on(r, data, now, None)
}

/// The text of the first option with code `code` among `options`.
fn option_text_of(options: &Vec<NgOption>, code: u16) -> (r: Option<String>)
    ensures
        opt_text(r) == option_text(option_views(options@), code),
{
    let ghost views = option_views(options@);
    let mut i: usize = 0;
    while i < options.len()
        invariant
            i <= options@.len(),
            views == option_views(options@),
            option_text_from(views, code, 0) == option_text_from(views, code, i as int),
        decreases options@.len() - i,
    {
        if options[i].code == code {
            return match &options[i].text {
                Some(t) => Some(t.clone()),
                None => None,
            };
        }
        i = i + 1;
    }
    None
}

/// Appends the texts of the comment options among `options` to `out`.
fn push_comments(options: &Vec<NgOption>, out: &mut Vec<String>)
    ensures
        texts(final(out)@) == texts(old(out)@) + comment_texts(option_views(options@)),
{
    let ghost start = texts(out@);
    let ghost views = option_views(options@);
    let mut i: usize = 0;
    assert(views.take(0) =~= Seq::<OptionView>::empty());
    assert(start + Seq::<Seq<char>>::empty() =~= start);
    while i < options.len()
        invariant
            i <= options@.len(),
            views == option_views(options@),
            texts(out@) == start + comment_texts(views.take(i as int)),
        decreases options@.len() - i,
    {
        assert(views.take(i + 1).drop_last() =~= views.take(i as int));
        let o = &options[i];
        if o.code == OPT_COMMENT {
            if let Some(t) = &o.text {
                let ghost before = texts(out@);
                out.push(t.clone());
                assert(texts(out@) =~= before.push(t@));
                assert(start + comment_texts(views.take(i as int)).push(t@)
                    =~= (start + comment_texts(views.take(i as int))).push(t@));
            }
        }
        i = i + 1;
    }
    assert(views.take(options@.len() as int) =~= views);
}

/// The number of Enhanced Packet Blocks among `blocks` captured on interface
/// `id`.
fn count_interface_packets(blocks: &Vec<DecodedBlock>, id: usize) -> (n: u64)
    ensures
        n == interface_packets(decoded_views(blocks@), id as int),
        n <= blocks@.len(),
{
    let ghost all = decoded_views(blocks@);
    let mut n: u64 = 0;
    let mut i: usize = 0;
    while i < blocks.len()
        invariant
            i <= blocks@.len(),
            n <= i,
            all == decoded_views(blocks@),
            n == interface_packets(all.take(i as int), id as int),
        decreases blocks@.len() - i,
    {
        assert(all.take(i + 1).drop_last() =~= all.take(i as int));
        if let NgBlock::EnhancedPacket(if_id, _, _) = blocks[i].block {
            if (if_id as u64) == (id as u64) {
                n = n + 1;
            }
        }
        i = i + 1;
    }
    assert(all.take(blocks@.len() as int) =~= all);
    n
}

/// The interfaces that the Interface Description Blocks among `blocks`
/// describe, numbered in order from zero, with their names, descriptions and
/// packet counts.
pub fn describe_interfaces(blocks: &Vec<DecodedBlock>) -> (interfaces: Vec<InterfaceInfo>)
    ensures
        interface_views(interfaces@) =~= described_interfaces(decoded_views(blocks@)),
{
    let ghost all = decoded_views(blocks@);
    let mut interfaces: Vec<InterfaceInfo> = Vec::new();
    let mut i: usize = 0;
    while i < blocks.len()
        invariant
            i <= blocks@.len(),
            interfaces@.len() <= i,
            all == decoded_views(blocks@),
            interface_views(interfaces@) =~= interfaces_with_counts(interface_entries(all.take(i as int)), all),
        decreases blocks@.len() - i,
    {
        let ghost before = all.take(i as int);
        assert(all.take(i + 1).drop_last() =~= before);
        assert(all.take(i + 1).last() == all[i as int]);
        let d = &blocks[i];
        if let NgBlock::InterfaceDescription(link_type, snap_len) = d.block {
            let index = interfaces.len();
            let id = index as u32;
            let label = linktype_label(link_type);
            let name = option_text_of(&d.options, OPT_IF_NAME);
            let description = option_text_of(&d.options, OPT_IF_DESCRIPTION);
            let packet_count = count_interface_packets(blocks, index);
            let ghost old_interfaces = interfaces@;
            interfaces.push(InterfaceInfo {
                id,
                name,
                description,
                link_type: label,
                snap_len,
                packet_count,
            });
            proof {
                let entries = interface_entries(all.take(i + 1));
                assert(entries == interface_entries(before).push((link_type, snap_len, option_views(d.options@))));
                assert(interface_views(old_interfaces).len() == interface_entries(before).len());
                assert forall|j: int| 0 <= j < interfaces@.len() implies
                    #[trigger] interface_views(interfaces@)[j] == interfaces_with_counts(entries, all)[j]
                by {
                    if j < old_interfaces.len() {
                        assert(interface_views(old_interfaces)[j] == interfaces_with_counts(interface_entries(before), all)[j]);
                    }
                }
            }
        }
        i = i + 1;
    }
    assert(all.take(blocks@.len() as int) =~= all);
    interfaces
}

/// Builds the summary of a PcapNG capture of `size` bytes from its blocks,
/// its packet figures taken over the packets that `sel` selects. The present
/// instant, when a timestamp needs it, comes from `clock`, which is read from
/// the system clock only if it is empty then.
pub fn summarize_pcapng(blocks: &Vec<DecodedBlock>, size: u64, sel: Option<u32>, clock: &mut Option<Timestamp>) -> (info: FileInfo)
    ensures
        *old(clock) is Some ==> *final(clock) == *old(clock),
        *final(clock) matches Some(c) ==> (*old(clock) is None ==> c.clock_reading()) && info@ == pcapng_info(decoded_views(blocks@), size as nat, c, sel),
        *final(clock) is None ==> forall|now: Timestamp|
            info@ == #[trigger] pcapng_info(decoded_views(blocks@), size as nat, now, sel),
{
    let ghost all = decoded_views(blocks@);
    let ghost start = *clock;
    let mut total_packets: u64 = 0;
    let mut first: Option<Timestamp> = None;
    let mut last: Option<Timestamp> = None;
    let mut i: usize = 0;
    while i < blocks.len()
        invariant
            i <= blocks@.len(),
            all == decoded_views(blocks@),
            total_packets <= i,
            total_packets == packet_block_count(all.take(i as int), sel),
            start is Some ==> *clock == start,
            *clock matches Some(c) ==> (start is None ==> c.clock_reading())
                && first == first_packet_time(all.take(i as int), c, sel)
                && last == last_packet_time(all.take(i as int), c, sel),
            *clock is None ==> forall|now: Timestamp| first == #[trigger] first_packet_time(all.take(i as int), now, sel),
            *clock is None ==> forall|now: Timestamp| last == #[trigger] last_packet_time(all.take(i as int), now, sel),
        decreases blocks@.len() - i,
    {
        let ghost before = all.take(i as int);
        let ghost old_first = first;
        let ghost old_last = last;
        assert(all.take(i + 1).drop_last() =~= before);
        assert(all.take(i + 1).last() == all[i as int]);
        let block = blocks[i].block;
        let selected = match block {
            NgBlock::EnhancedPacket(id, _, _) => match sel {
                None => true,
                Some(k) => id == k,
            },
            NgBlock::SimplePacket => sel.is_none(),
            _ => false,
        };
        assert(selected == counted(block, sel));
        if selected {
            total_packets = total_packets + 1;
        }
        if let NgBlock::EnhancedPacket(_, high, low) = block {
            if selected {
                let t = packet_time_of(high, low, clock);
                if first.is_none() {
                    first = Some(t);
                }
                last = Some(t);
            }
        }
        proof {
            match *clock {
                Some(c) => {
                    assert(old_first == first_packet_time(before, c, sel));
                    assert(old_last == last_packet_time(before, c, sel));
                },
                None => {
                    assert forall|now: Timestamp| first == #[trigger] first_packet_time(all.take(i + 1), now, sel) by {
                        assert(old_first == first_packet_time(before, now, sel));
                    }
                    assert forall|now: Timestamp| last == #[trigger] last_packet_time(all.take(i + 1), now, sel) by {
                        assert(old_last == last_packet_time(before, now, sel));
                    }
                },
            }
        }
        i = i + 1;
    }
    assert(all.take(blocks@.len() as int) =~= all);
    let capture_duration = match (first, last) {
        (Some(f), Some(l)) => if f.is_before(&l) {
            Some(seconds_between(&f, &l))
        } else {
            None
        },
        _ => None,
    };
    proof {
        reveal_strlit("PcapNG");
    }
    let info = FileInfo {
        file_type: text("PcapNG"),
        file_size: size,
        total_packets,
        interfaces: describe_interfaces(blocks),
        capture_duration,
        first_packet_time: first,
        last_packet_time: last,
    };
    proof {
        if *clock is None {
            assert forall|now: Timestamp| info@ == #[trigger] pcapng_info(all, size as nat, now, sel) by {
                assert(first == first_packet_time(all, now, sel));
                assert(last == last_packet_time(all, now, sel));
            }
        }
    }
    info
}

/// Builds the summary of a classic PCAP capture of `size` bytes from its
/// records, its packet figures taken over the
/// records that `sel` selects.
pub fn summarize_pcap(records: &Vec<PcapRecord>, size: u64, sel: Option<u32>) -> (info: FileInfo)
    ensures
        info@ == pcap_info(record_views(records@), size as nat, sel),
{
    proof {
        reveal_strlit("PCAP");
        reveal_strlit("Legacy PCAP interface");
        reveal_strlit("Unknown");
    }
    let mut interfaces: Vec<InterfaceInfo> = Vec::new();
    interfaces.push(InterfaceInfo {
        id: 0,
        name: None,
        description: Some(text("Legacy PCAP interface")),
        link_type: text("Unknown"),
        snap_len: PCAP_DEFAULT_SNAP_LEN,
        packet_count: 0,
    });
    let selected = match sel {
        None => true,
        Some(k) => k == 0,
    };
    let n = records.len();
    let (total_packets, first, last) = if selected && n > 0 {
        let f = Timestamp { secs: records[0].secs as i64, nanos: 0 };
        let l = Timestamp { secs: records[n - 1].secs as i64, nanos: 0 };
        (n as u64, Some(f), Some(l))
    } else {
        (0u64, None, None)
    };
    let capture_duration = match (first, last) {
        (Some(f), Some(l)) => if f.is_before(&l) {
            Some(seconds_between(&f, &l))
        } else {
            None
        },
        _ => None,
    };
    let info = FileInfo {
        file_type: text("PCAP"),
        file_size: size,
        total_packets,
        interfaces,
        capture_duration,
        first_packet_time: first,
        last_packet_time: last,
    };
    assert(interface_views(info.interfaces@) =~= seq![pcap_interface()]);
    info
}

/// Parses the capture `data`, a PcapNG or classic PCAP file, into its
/// summary, its packet figures taken over the packets that `sel` selects.
/// The present instant, when a timestamp needs it, comes from `clock`, which
/// is read from the system clock only if it is empty then.
pub fn parse_capture_with(data: &[u8], sel: Option<u32>, clock: &mut Option<Timestamp>) -> (r: PcapNGResult<FileInfo>)
    ensures
        *old(clock) is Some ==> *final(clock) == *old(clock),
        *final(clock) matches Some(c) ==> (*old(clock) is None ==> c.clock_reading()) && parsed_on(r, data@, c, sel),
        *final(clock) is None ==> forall|now: Timestamp| #[trigger] parsed_on(r, data@, now, sel),
{
    if data.len() < 4 {
        return Err(PcapNGError::ParseError(text("Cannot read file header: failed to fill whole buffer")));
    }
    let magic = read_le_word(data, 0);
    let size = data.len() as u64;
    if magic == PCAPNG_MAGIC {
        if let Some(e) = check_pcapng_reader(data, READER_CAPACITY) {
            return Err(PcapNGError::ParseError(prefixed_text("Cannot create PcapNG reader: ", &e)));
        }
        match walk_pcapng(data) {
            Ok(blocks) => {
                let info = summarize_pcapng(&blocks, size, sel, clock);
                let r: PcapNGResult<FileInfo> = Ok(info);
                proof {
                    if *clock is None {
                        assert forall|now: Timestamp| #[trigger] parsed_on(r, data@, now, sel) by {
                            assert(info@ == pcapng_info(decoded_views(blocks@), size as nat, now, sel));
                        }
                    }
                }
                r
            },
            Err(e) => Err(PcapNGError::ParseError(e)),
        }
    } else if magic == PCAP_MAGIC_LE || magic == PCAP_MAGIC_BE || magic == PCAP_NANO_MAGIC_LE || magic == PCAP_NANO_MAGIC_BE {
        if let Some(e) = check_pcap_reader(data, READER_CAPACITY) {
            return Err(PcapNGError::ParseError(prefixed_text("Cannot create PCAP reader: ", &e)));
        }
        let records = slice_subrange(data, 24, data.len());
        match read_pcap_records(records, magic == PCAP_MAGIC_BE || magic == PCAP_NANO_MAGIC_BE) {
            Ok(times) => Ok(summarize_pcap(&times, size, sel)),
            Err(e) => Err(PcapNGError::ParseError(e)),
        }
    } else {
        Err(PcapNGError::ParseError(text("Unknown file format")))
    }
}

/// Parses the capture `data`, a PcapNG or classic PCAP file, into its
/// summary. `now` is the instant given to packets whose timestamps chrono
/// cannot represent.
pub fn parse_capture(data: &[u8], now: Timestamp) -> (r: PcapNGResult<FileInfo>)
    ensures
        parsed_as(r, data@, now),
{
    let mut clock = Some(now);
    parse_capture_with(data, None, &mut clock)
}

/// Parses the capture `data` into its summary, its packet figures taken over
/// the packets that `sel` selects (all of them, or those of one interface).
/// The clock is read only when a packet timestamp that chrono cannot
/// represent needs the present instant.
pub fn parse_capture_on(data: &[u8], sel: Option<u32>) -> (r: PcapNGResult<FileInfo>)
    ensures
        exists|now: Timestamp| now.clock_reading() && #[trigger] parsed_on(r, data@, now, sel),
        capture_times_representable(data@) ==> forall|now: Timestamp| #[trigger] parsed_on(r, data@, now, sel),
{
    let mut clock: Option<Timestamp> = None;
    let r = parse_capture_with(data, sel, &mut clock);
    let ghost used = match clock {
        Some(c) => c,
        None => Timestamp { secs: 0, nanos: 0 },
    };
    assert(parsed_on(r, data@, used, sel));
    proof {
        if capture_times_representable(data@) {
            assert forall|now: Timestamp| #[trigger] parsed_on(r, data@, now, sel) by {
                law_parse_fixed_when_times_representable(data@, used, now, sel);
            }
        }
    }
    r
}


/// The link type of interface `id` among `entries`, or -1 when no entry
/// describes it.
pub open spec fn link_of(entries: Seq<(i32, u32, Seq<OptionView>)>, id: int) -> i32 {
    if 0 <= id < entries.len() {
        entries[id].0
    } else {
        -1i32
    }
}

/// The packets of a PcapNG capture with these blocks, in order: those of the
/// Enhanced Packet Blocks on their interfaces, and those of the Simple Packet
/// Blocks on interface 0, each with its interface's link type among
/// `entries`.
pub open spec fn pcapng_packets(blocks: Seq<DecodedView>, entries: Seq<(i32, u32, Seq<OptionView>)>) -> Seq<PacketView>
    decreases blocks.len(),
{
    if blocks.len() == 0 {
        Seq::empty()
    } else {
        let earlier = pcapng_packets(blocks.drop_last(), entries);
        let b = blocks.last();
        match b.0 {
            NgBlock::EnhancedPacket(id, _, _) => earlier.push((id, link_of(entries, id as int), b.2)),
            NgBlock::SimplePacket => earlier.push((0u32, link_of(entries, 0), b.2)),
            _ => earlier,
        }
    }
}

/// The link type a classic PCAP file header declares: its word at offset 20,
/// in the file's byte order.
pub open spec fn pcap_link_type(data: Seq<u8>, big_endian: bool) -> i32 {
    word(data, 20, big_endian) as i32
}

/// The packets of a classic PCAP file's records, all on interface 0.
pub open spec fn pcap_packets(records: Seq<RecordView>, link: i32) -> Seq<PacketView> {
    Seq::new(records.len(), |i: int| (0u32, link, records[i].1))
}

/// The packets of the capture `data`, or the message of the parse error.
pub open spec fn capture_packets(data: Seq<u8>) -> core::result::Result<Seq<PacketView>, Seq<char>> {
    if data.len() < 4 {
        Err(short_header_error())
    } else {
        let magic = format_magic(data);
        if magic == PCAPNG_MAGIC {
            match pcapng_reader_refusal(data, READER_CAPACITY) {
                Some(e) => Err("Cannot create PcapNG reader: "@ + e),
                None => match pcapng_blocks(data, false) {
                    Ok(blocks) => Ok(pcapng_packets(blocks, interface_entries(blocks))),
                    Err(e) => Err(e),
                },
            }
        } else if is_pcap_magic(magic) {
            match pcap_reader_refusal(data, READER_CAPACITY) {
                Some(e) => Err("Cannot create PCAP reader: "@ + e),
                None => if data.len() >= 24 {
                    match pcap_records(data.subrange(24, data.len() as int), is_big_endian_pcap(magic)) {
                        Ok(records) => Ok(pcap_packets(records, pcap_link_type(data, is_big_endian_pcap(magic)))),
                        Err(e) => Err(e),
                    }
                } else {
                    Err(truncated_error())
                },
            }
        } else {
            Err("Unknown file format"@)
        }
    }
}

fn copy_bytes(v: &Vec<u8>) -> (r: Vec<u8>)
    ensures
        r@ == v@,
{
    let mut r: Vec<u8> = Vec::new();
    let mut i: usize = 0;
    while i < v.len()
        invariant
            i <= v@.len(),
            r@ == v@.take(i as int),
        decreases v@.len() - i,
    {
        r.push(v[i]);
        i = i + 1;
        assert(r@ =~= v@.take(i as int));
    }
    assert(v@.take(v@.len() as int) =~= v@);
    r
}

/// The link types of the interfaces that `blocks` describe, in order.
fn interface_links(blocks: &Vec<DecodedBlock>) -> (links: Vec<i32>)
    ensures
        links@.len() == interface_entries(decoded_views(blocks@)).len(),
        forall|j: int| 0 <= j < links@.len() ==> links@[j] == #[trigger] interface_entries(decoded_views(blocks@))[j].0,
{
    let ghost all = decoded_views(blocks@);
    let mut links: Vec<i32> = Vec::new();
    let mut i: usize = 0;
    while i < blocks.len()
        invariant
            i <= blocks@.len(),
            all == decoded_views(blocks@),
            links@.len() == interface_entries(all.take(i as int)).len(),
            forall|j: int| 0 <= j < links@.len() ==> links@[j] == #[trigger] interface_entries(all.take(i as int))[j].0,
        decreases blocks@.len() - i,
    {
        let ghost before = all.take(i as int);
        assert(all.take(i + 1).drop_last() =~= before);
        assert(all.take(i + 1).last() == all[i as int]);
        if let NgBlock::InterfaceDescription(link_type, _) = blocks[i].block {
            links.push(link_type);
        }
        i = i + 1;
    }
    assert(all.take(blocks@.len() as int) =~= all);
    links
}

/// The packets of a PcapNG capture with these blocks, each with its
/// interface's link type.
pub fn pcapng_packet_list(blocks: &Vec<DecodedBlock>) -> (packets: Vec<CapturedPacket>)
    ensures
        captured_views(packets@) =~= pcapng_packets(decoded_views(blocks@), interface_entries(decoded_views(blocks@))),
{
    let ghost all = decoded_views(blocks@);
    let ghost entries = interface_entries(all);
    let links = interface_links(blocks);
    let mut packets: Vec<CapturedPacket> = Vec::new();
    let mut i: usize = 0;
    while i < blocks.len()
        invariant
            i <= blocks@.len(),
            all == decoded_views(blocks@),
            entries == interface_entries(all),
            links@.len() == entries.len(),
            forall|j: int| 0 <= j < links@.len() ==> links@[j] == #[trigger] entries[j].0,
            captured_views(packets@) =~= pcapng_packets(all.take(i as int), entries),
        decreases blocks@.len() - i,
    {
        let ghost before = all.take(i as int);
        assert(all.take(i + 1).drop_last() =~= before);
        assert(all.take(i + 1).last() == all[i as int]);
        let d = &blocks[i];
        let id: Option<u32> = match d.block {
            NgBlock::EnhancedPacket(id, _, _) => Some(id),
            NgBlock::SimplePacket => Some(0),
            _ => None,
        };
        if let Some(id) = id {
            let link = if (id as u64) < (links.len() as u64) {
                links[id as usize]
            } else {
                -1
            };
            assert(link == link_of(entries, id as int));
            let ghost seen = captured_views(packets@);
            packets.push(CapturedPacket { interface_id: id, link_type: link, data: copy_bytes(&d.packet) });
            assert(captured_views(packets@) =~= seen.push((id, link, d.packet@)));
        }
        i = i + 1;
    }
    assert(all.take(blocks@.len() as int) =~= all);
    packets
}

/// The packets of a classic PCAP file's records, all on interface 0 with
/// the file's link type.
pub fn pcap_packet_list(records: &Vec<PcapRecord>, link: i32) -> (packets: Vec<CapturedPacket>)
    ensures
        captured_views(packets@) =~= pcap_packets(record_views(records@), link),
{
    let mut packets: Vec<CapturedPacket> = Vec::new();
    let mut i: usize = 0;
    while i < records.len()
        invariant
            i <= records@.len(),
            captured_views(packets@) =~= pcap_packets(record_views(records@).take(i as int), link),
        decreases records@.len() - i,
    {
        let ghost seen = captured_views(packets@);
        packets.push(CapturedPacket { interface_id: 0, link_type: link, data: copy_bytes(&records[i].data) });
        assert(captured_views(packets@) =~= seen.push((0u32, link, records@[i as int].data@)));
        i = i + 1;
    }
    assert(record_views(records@).take(records@.len() as int) =~= record_views(records@));
    packets
}

/// The packets of the capture `data`, each with its interface, its
/// interface's link type and its captured bytes.
pub fn read_packets(data: &[u8]) -> (r: PcapNGResult<Vec<CapturedPacket>>)
    ensures
        match capture_packets(data@) {
            Ok(packets) => r matches Ok(v) && captured_views(v@) == packets,
            Err(e) => r matches Err(PcapNGError::ParseError(m)) && m@ == e,
        },
{
    if data.len() < 4 {
        return Err(PcapNGError::ParseError(text("Cannot read file header: failed to fill whole buffer")));
    }
    let magic = read_le_word(data, 0);
    if magic == PCAPNG_MAGIC {
        if let Some(e) = check_pcapng_reader(data, READER_CAPACITY) {
            return Err(PcapNGError::ParseError(prefixed_text("Cannot create PcapNG reader: ", &e)));
        }
        match walk_pcapng(data) {
            Ok(blocks) => Ok(pcapng_packet_list(&blocks)),
            Err(e) => Err(PcapNGError::ParseError(e)),
        }
    } else if magic == PCAP_MAGIC_LE || magic == PCAP_MAGIC_BE || magic == PCAP_NANO_MAGIC_LE || magic == PCAP_NANO_MAGIC_BE {
        if let Some(e) = check_pcap_reader(data, READER_CAPACITY) {
            return Err(PcapNGError::ParseError(prefixed_text("Cannot create PCAP reader: ", &e)));
        }
        let big_endian = magic == PCAP_MAGIC_BE || magic == PCAP_NANO_MAGIC_BE;
        let link_word = if big_endian { read_be_word(data, 20) } else { read_le_word(data, 20) };
        let link = link_word as i32;
        let records = slice_subrange(data, 24, data.len());
        match read_pcap_records(records, big_endian) {
            Ok(recs) => Ok(pcap_packet_list(&recs, link)),
            Err(e) => Err(PcapNGError::ParseError(e)),
        }
    } else {
        Err(PcapNGError::ParseError(text("Unknown file format")))
    }
}

/// The section a Section Header Block describes.
pub open spec fn section_of(bom: u32, major: u16, minor: u16, length: i64) -> SectionInfoView {
    SectionInfoView {
        byte_order_magic: bom,
        version_major: major,
        version_minor: minor,
        section_length: Some(length as u64),
        options: Seq::empty(),
    }
}

/// The section of the last Section Header Block among `blocks`.
pub open spec fn last_section(blocks: Seq<DecodedView>) -> Option<SectionInfoView>
    decreases blocks.len(),
{
    if blocks.len() == 0 {
        None
    } else {
        match blocks.last().0 {
            NgBlock::SectionHeader(_, bom, major, minor, length) => Some(section_of(bom, major, minor, length)),
            _ => last_section(blocks.drop_last()),
        }
    }
}

/// The comments of the Section Header Blocks among `blocks`, in file order.
pub open spec fn file_comments(blocks: Seq<DecodedView>) -> Seq<Seq<char>>
    decreases blocks.len(),
{
    if blocks.len() == 0 {
        Seq::empty()
    } else {
        file_comments(blocks.drop_last()) + if blocks.last().0 is SectionHeader {
            comment_texts(blocks.last().1)
        } else {
            Seq::empty()
        }
    }
}

/// The metadata of a PcapNG capture with these blocks.
pub open spec fn pcapng_metadata(blocks: Seq<DecodedView>) -> FileMetadataView {
    FileMetadataView {
        section_info: last_section(blocks),
        interfaces: described_interfaces(blocks),
        total_blocks: blocks.len() as u64,
        file_comments: file_comments(blocks),
    }
}

/// The metadata reported for any capture that is not PcapNG.
pub open spec fn legacy_metadata() -> FileMetadataView {
    FileMetadataView {
        section_info: None,
        interfaces: Seq::empty(),
        total_blocks: 0,
        file_comments: seq!["Legacy PCAP file"@],
    }
}

/// What reading the metadata of the capture `data` gives.
pub open spec fn capture_metadata(data: Seq<u8>) -> core::result::Result<FileMetadataView, Seq<char>> {
    if data.len() < 4 {
        Err(short_header_error())
    } else if format_magic(data) == PCAPNG_MAGIC {
        match pcapng_reader_refusal(data, READER_CAPACITY) {
            Some(e) => Err("Cannot create PcapNG reader: "@ + e),
            None => match pcapng_blocks(data, false) {
                Ok(blocks) => Ok(pcapng_metadata(blocks)),
                Err(e) => Err(e),
            },
        }
    } else {
        Ok(legacy_metadata())
    }
}

/// Whether `r` is what reading the metadata of `data` gives.
pub open spec fn metadata_as(r: PcapNGResult<FileMetadata>, data: Seq<u8>) -> bool {
    match capture_metadata(data) {
        Ok(m) => r matches Ok(v) && v@ == m,
        Err(e) => r matches Err(PcapNGError::ParseError(msg)) && msg@ == e,
    }
}

/// Blocks that start with a section header report a section, and hold more
/// blocks than packets and interfaces together.
proof fn lemma_section_first(blocks: Seq<DecodedView>)
    requires
        blocks.len() > 0,
        blocks[0].0 is SectionHeader,
    ensures
        last_section(blocks) is Some,
        packet_block_count(blocks, None) + interface_entries(blocks).len() + 1 <= blocks.len(),
    decreases blocks.len(),
{
    if blocks.len() == 1 {
        assert(blocks.last() == blocks[0]);
        assert(packet_block_count(blocks.drop_last(), None) == 0);
        assert(interface_entries(blocks.drop_last()).len() == 0);
    } else {
        assert(blocks.drop_last()[0] == blocks[0]);
        lemma_section_first(blocks.drop_last());
    }
}

/// Builds the metadata of a PcapNG capture from its blocks.
pub fn summarize_metadata(blocks: &Vec<DecodedBlock>) -> (meta: FileMetadata)
    ensures
        meta@ == pcapng_metadata(decoded_views(blocks@)),
        blocks@.len() > 0 && blocks@[0].block is SectionHeader ==> meta.section_info is Some
            && meta.total_blocks >= packet_block_count(decoded_views(blocks@), None) + meta.interfaces@.len() + 1,
{
    proof {
        if blocks@.len() > 0 && blocks@[0].block is SectionHeader {
            lemma_section_first(decoded_views(blocks@));
        }
    }
    let ghost all = decoded_views(blocks@);
    let mut section: Option<SectionInfo> = None;
    let mut comments: Vec<String> = Vec::new();
    let mut i: usize = 0;
    assert(texts(comments@) =~= Seq::<Seq<char>>::empty());
    while i < blocks.len()
        invariant
            i <= blocks@.len(),
            all == decoded_views(blocks@),
            match section {
                Some(s) => Some(s@),
                None => None,
            } == last_section(all.take(i as int)),
            texts(comments@) == file_comments(all.take(i as int)),
        decreases blocks@.len() - i,
    {
        let ghost before = all.take(i as int);
        assert(all.take(i + 1).drop_last() =~= before);
        assert(all.take(i + 1).last() == all[i as int]);
        let d = &blocks[i];
        if let NgBlock::SectionHeader(_, bom, major, minor, length) = d.block {
            let options: Vec<String> = Vec::new();
            let s = SectionInfo {
                byte_order_magic: bom,
                version_major: major,
                version_minor: minor,
                section_length: Some(length as u64),
                options,
            };
            assert(texts(s.options@) =~= Seq::<Seq<char>>::empty());
            section = Some(s);
            push_comments(&d.options, &mut comments);
        } else {
            assert(file_comments(all.take(i + 1)) =~= file_comments(before));
        }
        i = i + 1;
    }
    assert(all.take(blocks@.len() as int) =~= all);
    let meta = FileMetadata {
        section_info: section,
        interfaces: describe_interfaces(blocks),
        total_blocks: blocks.len() as u64,
        file_comments: comments,
    };
    meta
}

/// Reads the metadata of the capture `data`: for PcapNG its last section
/// header, its interfaces and its block count; for anything else a note that
/// it is a legacy PCAP file.
pub fn read_metadata(data: &[u8]) -> (r: PcapNGResult<FileMetadata>)
    ensures
        metadata_as(r, data@),
        data@.len() >= 4 && format_magic(data@) == PCAPNG_MAGIC ==> (r matches Ok(m) ==> m.section_info is Some
            && forall|now: Timestamp| #[trigger] capture_info(data@, now) is Ok
                && interface_views(m.interfaces@) == capture_info(data@, now)->Ok_0.interfaces
                && m.total_blocks >= capture_info(data@, now)->Ok_0.total_packets + m.interfaces@.len() + 1),
{
    if data.len() < 4 {
        return Err(PcapNGError::ParseError(text("Cannot read file header: failed to fill whole buffer")));
    }
    if read_le_word(data, 0) == PCAPNG_MAGIC {
        if let Some(e) = check_pcapng_reader(data, READER_CAPACITY) {
            return Err(PcapNGError::ParseError(prefixed_text("Cannot create PcapNG reader: ", &e)));
        }
        match walk_pcapng(data) {
            Ok(blocks) => Ok(summarize_metadata(&blocks)),
            Err(e) => Err(PcapNGError::ParseError(e)),
        }
    } else {
        proof {
            reveal_strlit("Legacy PCAP file");
        }
        let mut file_comments: Vec<String> = Vec::new();
        file_comments.push(text("Legacy PCAP file"));
        let meta = FileMetadata {
            section_info: None,
            interfaces: Vec::new(),
            total_blocks: 0,
            file_comments,
        };
        assert(texts(meta.file_comments@) =~= seq!["Legacy PCAP file"@]);
        assert(interface_views(meta.interfaces@) =~= Seq::<InterfaceInfoView>::empty());
        Ok(meta)
    }
}

/// Timing figures of a capture. The packet rate is left to the caller: it is
/// `total_packets` over the whole seconds of `total_duration`.
#[derive(Debug, Clone, Copy, PartialEq, Eq, Structural)]
pub struct TimingAnalysis {
    /// Whole seconds from the first to the last packet (zero when unknown).
    pub total_duration: Option<u64>,
    /// The number of packets the rate is taken over.
    pub total_packets: u64,
    /// Mean gap between consecutive packets, in nanoseconds.
    pub average_interval: u64,
    pub min_interval: Option<u64>,
    pub max_interval: Option<u64>,
}

/// The timing figures of a parsed capture: the capture window (zero when
/// unknown) spread evenly over the gaps between its packets, the nanosecond
/// quotient truncated to 64 bits as `Duration::from_nanos` takes it.
pub open spec fn timing_of(info: FileInfoView) -> TimingAnalysis {
    let total = match info.capture_duration {
        Some(d) => d,
        None => 0u64,
    };
    TimingAnalysis {
        total_duration: Some(total),
        total_packets: info.total_packets,
        average_interval: if info.total_packets > 1 {
            ((total * 1_000_000_000) / ((info.total_packets - 1) as int)) as u64
        } else {
            0
        },
        min_interval: None,
        max_interval: None,
    }
}

/// Computes the timing figures of a parsed capture.
pub fn timing_from_info(info: &FileInfo) -> (t: TimingAnalysis)
    ensures
        t == timing_of(info@),
{
    let total: u64 = match info.capture_duration {
        Some(d) => d,
        None => 0,
    };
    let average_interval: u64 = if info.total_packets > 1 {
        let nanos: u128 = total as u128 * 1_000_000_000;
        let gaps: u128 = (info.total_packets - 1) as u128;
        (nanos / gaps) as u64
    } else {
        0
    };
    TimingAnalysis {
        total_duration: Some(total),
        total_packets: info.total_packets,
        average_interval,
        min_interval: None,
        max_interval: None,
    }
}

/// Reads PcapNG and classic PCAP captures.
pub struct PcapNGParser;

impl PcapNGParser {
    /// A parser.
    pub fn new() -> (p: Self)
        ensures
            p == PcapNGParser,
    {
        PcapNGParser
    }

    /// Parses the capture `data` (the whole content of a capture file) into
    /// its summary. Packet instants that chrono cannot represent take the
    /// present instant, read from the clock only when such a packet occurs.
    pub fn parse_file(&self, data: &[u8]) -> (r: PcapNGResult<FileInfo>)
        ensures
            exists|now: Timestamp| now.clock_reading() && #[trigger] parsed_as(r, data@, now),
            capture_times_representable(data@) ==> forall|now: Timestamp| #[trigger] parsed_as(r, data@, now),
    {
        let r = parse_capture_on(data, None);
        assert(capture_times_representable(data@) ==> forall|now: Timestamp| #[trigger] parsed_as(r, data@, now)) by {
            if capture_times_representable(data@) {
                assert forall|now: Timestamp| #[trigger] parsed_as(r, data@, now) by {
                    assert(parsed_on(r, data@, now, None));
                }
            }
        }
        let ghost now = choose|now: Timestamp| now.clock_reading() && #[trigger] parsed_on(r, data@, now, None);
        assert(parsed_as(r, data@, now));
        r
    }

    /// Reads the metadata of the capture `data`. For a PcapNG capture it
    /// agrees with parsing the capture: a section is reported, the same
    /// interfaces, and more blocks than packets and interfaces together.
    pub fn get_metadata(&self, data: &[u8]) -> (r: PcapNGResult<FileMetadata>)
        ensures
            metadata_as(r, data@),
            data@.len() >= 4 && format_magic(data@) == PCAPNG_MAGIC ==> (r matches Ok(m) ==> m.section_info is Some
                && forall|now: Timestamp| #[trigger] capture_info(data@, now) is Ok
                    && interface_views(m.interfaces@) == capture_info(data@, now)->Ok_0.interfaces
                    && m.total_blocks >= capture_info(data@, now)->Ok_0.total_packets + m.interfaces@.len() + 1),
    {
        read_metadata(data)
    }

    /// The interfaces of the capture `data`, as parsing it reports them.
    pub fn list_interfaces(&self, data: &[u8]) -> (r: PcapNGResult<Vec<InterfaceInfo>>)
        ensures
            exists|now: Timestamp| now.clock_reading() && match #[trigger] capture_info(data@, now) {
                Ok(info) => r matches Ok(v) && interface_views(v@) == info.interfaces,
                Err(e) => r matches Err(PcapNGError::ParseError(m)) && m@ == e,
            },
            forall|now: Timestamp| match #[trigger] capture_info(data@, now) {
                Ok(info) => r matches Ok(v) && interface_views(v@) == info.interfaces,
                Err(e) => r matches Err(PcapNGError::ParseError(m)) && m@ == e,
            },
    {
        let parsed = parse_capture_on(data, None);
        let ghost now = choose|now: Timestamp| now.clock_reading() && #[trigger] parsed_on(parsed, data@, now, None);
        let r = match parsed {
            Ok(info) => Ok(info.interfaces),
            Err(e) => Err(e),
        };
        assert(match capture_info(data@, now) {
            Ok(info) => r matches Ok(v) && interface_views(v@) == info.interfaces,
            Err(e) => r matches Err(PcapNGError::ParseError(m)) && m@ == e,
        });
        proof {
            assert forall|n: Timestamp| match #[trigger] capture_info(data@, n) {
                Ok(info) => r matches Ok(v) && interface_views(v@) == info.interfaces,
                Err(e) => r matches Err(PcapNGError::ParseError(m)) && m@ == e,
            } by {
                law_parse_independent_of_fallback_instant(data@, now, n);
            }
        }
        r
    }

    /// The timing figures of the capture `data`.
    pub fn analyze_timing(&self, data: &[u8]) -> (r: PcapNGResult<TimingAnalysis>)
        ensures
            exists|now: Timestamp| now.clock_reading() && match #[trigger] capture_info(data@, now) {
                Ok(info) => r == Ok::<TimingAnalysis, PcapNGError>(timing_of(info)),
                Err(e) => r matches Err(PcapNGError::ParseError(m)) && m@ == e,
            },
            capture_times_representable(data@) ==> forall|now: Timestamp| match #[trigger] capture_info(data@, now) {
                Ok(info) => r == Ok::<TimingAnalysis, PcapNGError>(timing_of(info)),
                Err(e) => r matches Err(PcapNGError::ParseError(m)) && m@ == e,
            },
    {
        let parsed = parse_capture_on(data, None);
        let ghost now = choose|now: Timestamp| now.clock_reading() && #[trigger] parsed_on(parsed, data@, now, None);
        let r = match parsed {
            Ok(info) => Ok(timing_from_info(&info)),
            Err(e) => Err(e),
        };
        assert(match capture_info(data@, now) {
            Ok(info) => r == Ok::<TimingAnalysis, PcapNGError>(timing_of(info)),
            Err(e) => r matches Err(PcapNGError::ParseError(m)) && m@ == e,
        });
        proof {
            if capture_times_representable(data@) {
                assert forall|n: Timestamp| match #[trigger] capture_info(data@, n) {
                    Ok(info) => r == Ok::<TimingAnalysis, PcapNGError>(timing_of(info)),
                    Err(e) => r matches Err(PcapNGError::ParseError(m)) && m@ == e,
                } by {
                    law_parse_fixed_when_times_representable(data@, now, n, None);
                }
            }
        }
        r
    }
}

} // verus!
