//! Walking the blocks of a PcapNG capture and the frames of a classic PCAP
//! capture held in memory. Decoding a single block or frame is left to the
//! `pcap-parser` crate; this module decides which decoder applies, where the
//! next block starts, and when the walk ends.

use vstd::prelude::*;
use vstd::slice::slice_subrange;
use vstd::string::*;
use pcap_parser::nom::{Err as NomErr, Offset};
use pcap_parser::pcapng::Block;
use pcap_parser::pcapng::PcapNGOption;
use pcap_parser::traits::PcapNGPacketBlock;

use crate::utils::text::{opt_text, prefixed_text, text};

verus! {

/// Block type of a PcapNG Section Header Block (the same in either byte
/// order).
pub const SECTION_HEADER_BLOCK: u32 = 0x0A0D_0D0A;

/// Block type of a PcapNG Process Information Block.
pub const PROCESS_INFORMATION_BLOCK: u32 = 0x8000_0001;

/// The fields of one PcapNG block that the summaries read.
#[derive(Clone, Copy, Debug, PartialEq, Eq, Structural)]
pub enum NgBlock {
    /// Section Header Block: big-endian section, byte-order magic, major and
    /// minor version, section length.
    SectionHeader(bool, u32, u16, u16, i64),
    /// Interface Description Block: link type, snapshot length.
    InterfaceDescription(i32, u32),
    /// Enhanced Packet Block: interface id, high and low words of the
    /// timestamp.
    EnhancedPacket(u32, u32, u32),
    /// Simple Packet Block.
    SimplePacket,
    /// Any other block.
    Other,
}

/// An option of a PcapNG block: its code, and its value as text (`None` when
/// the value is not UTF-8 within its declared length).
#[derive(Debug)]
pub struct NgOption {
    pub code: u16,
    pub text: Option<String>,
}

/// The code and text of an option.
pub type OptionView = (u16, Option<Seq<char>>);

/// The codes and texts of a list of options.
pub open spec fn option_views(options: Seq<NgOption>) -> Seq<OptionView> {
    options.map_values(|o: NgOption| (o.code, opt_text(o.text)))
}

/// A decoded PcapNG block with the options of a section or interface
/// header and the captured bytes of a packet block (none are kept for other
/// blocks).
#[derive(Debug)]
pub struct DecodedBlock {
    pub block: NgBlock,
    pub options: Vec<NgOption>,
    pub packet: Vec<u8>,
}

/// The fields, options and packet bytes of a decoded block.
pub type DecodedView = (NgBlock, Seq<OptionView>, Seq<u8>);

/// The fields, options and packet bytes of a list of decoded blocks.
pub open spec fn decoded_views(blocks: Seq<DecodedBlock>) -> Seq<DecodedView> {
    blocks.map_values(|b: DecodedBlock| (b.block, option_views(b.options@), b.packet@))
}

/// What decoding the block at the start of some bytes gives.
#[derive(Debug)]
pub enum NgStep {
    /// A whole block, with the number of bytes it occupies.
    Block(usize, NgBlock),
    /// The bytes end inside the block.
    Incomplete,
    /// The block is malformed; the text is the decoder's error, as `Debug`
    /// writes it.
    Failed(String),
}

/// What decoding the classic PCAP record at the start of some bytes gives.
#[derive(Debug)]
pub enum FrameStep {
    /// A whole record, with the number of bytes it occupies, the seconds of
    /// its timestamp and its captured bytes.
    Frame(usize, u32, Vec<u8>),
    /// The bytes end inside the record.
    Incomplete,
    /// The record is malformed; the decoder's error as `Debug` writes it.
    Failed(String),
}

/// The unsigned little-endian 32-bit word at `i`.
pub open spec fn le_word(s: Seq<u8>, i: int) -> int {
    s[i] + s[i + 1] * 256 + s[i + 2] * 65536 + s[i + 3] * 16777216
}

/// The unsigned big-endian 32-bit word at `i`.
pub open spec fn be_word(s: Seq<u8>, i: int) -> int {
    s[i + 3] + s[i + 2] * 256 + s[i + 1] * 65536 + s[i] * 16777216
}

/// The 32-bit word at `i` in the given byte order.
pub open spec fn word(s: Seq<u8>, i: int, big_endian: bool) -> int {
    if big_endian { be_word(s, i) } else { le_word(s, i) }
}

pub fn read_le_word(s: &[u8], i: usize) -> (w: u32)
    requires
        i + 4 <= s@.len(),
    ensures
        w == le_word(s@, i as int),
{
    // the slice's length fits in usize, so no index below overflows
    let len = s.len();
    assert(i + 3 < len);
    s[i] as u32 + s[i + 1] as u32 * 256 + s[i + 2] as u32 * 65536 + s[i + 3] as u32 * 16777216
}

pub fn read_be_word(s: &[u8], i: usize) -> (w: u32)
    requires
        i + 4 <= s@.len(),
    ensures
        w == be_word(s@, i as int),
{
    // the slice's length fits in usize, so no index below overflows
    let len = s.len();
    assert(i + 3 < len);
    s[i + 3] as u32 + s[i + 2] as u32 * 256 + s[i + 1] as u32 * 65536 + s[i] as u32 * 16777216
}

/// A Process Information Block whose declared length is shorter than the
/// twelve bytes of any block's framing. `pcap-parser` accepts such a length
/// for this block type and then subtracts twelve from it, which overflows.
pub open spec fn short_process_block(data: Seq<u8>, big_endian: bool) -> bool {
    &&& data.len() >= 8
    &&& word(data, 0, big_endian) == PROCESS_INFORMATION_BLOCK
    &&& 4 <= word(data, 4, big_endian) < 12
}

fn is_short_process_block(data: &[u8], big_endian: bool) -> (b: bool)
    ensures
        b == short_process_block(data@, big_endian),
{
    if data.len() < 8 {
        false
    } else if big_endian {
        read_be_word(data, 0) == PROCESS_INFORMATION_BLOCK && 4 <= read_be_word(data, 4)
            && read_be_word(data, 4) < 12
    } else {
        read_le_word(data, 0) == PROCESS_INFORMATION_BLOCK && 4 <= read_le_word(data, 4)
            && read_le_word(data, 4) < 12
    }
}

/// What `pcap_parser::pcapng::parse_block_le` gives for `data`.
pub uninterp spec fn pcapng_block_le(data: Seq<u8>) -> NgStep;

/// What `pcap_parser::pcapng::parse_block_be` gives for `data`.
pub uninterp spec fn pcapng_block_be(data: Seq<u8>) -> NgStep;

/// Decodes the block at the start of `data` with
/// `pcap_parser::pcapng::parse_block_le`. The result is named, not restated;
/// the contract adds what the source shows of a decoded block: its length,
/// at least the twelve bytes of block framing, lies within `data`, and a
/// block of the Section Header Block type decodes as a section header.
#[verifier::external_body]
fn decode_block_le(data: &[u8]) -> (r: NgStep)
    requires
        !short_process_block(data@, false),
    ensures
        r == pcapng_block_le(data@),
        r matches NgStep::Block(n, _) ==> 12 <= n <= data@.len(),
        data@.len() >= 4 && le_word(data@, 0) == SECTION_HEADER_BLOCK ==> (r matches NgStep::Block(_, b) ==> b is SectionHeader),
{
    let (rem, block) = match pcap_parser::pcapng::parse_block_le(data) {
        Ok(ok) => ok,
        Err(NomErr::Incomplete(_)) => return NgStep::Incomplete,
        Err(NomErr::Error(e)) | Err(NomErr::Failure(e)) => return NgStep::Failed(format!("{:?}", e)),
    };
    let block = match block {
        Block::SectionHeader(h) => NgBlock::SectionHeader(h.big_endian(), h.bom, h.major_version, h.minor_version, h.section_len),
        Block::InterfaceDescription(d) => NgBlock::InterfaceDescription(d.linktype.0, d.snaplen),
        Block::EnhancedPacket(p) => NgBlock::EnhancedPacket(p.if_id, p.ts_high, p.ts_low),
        Block::SimplePacket(_) => NgBlock::SimplePacket,
        _ => NgBlock::Other,
    };
    NgStep::Block(data.offset(rem), block)
}

/// Decodes the block at the start of `data` with
/// `pcap_parser::pcapng::parse_block_be`. The result is named, not restated;
/// the contract adds what the source shows of a decoded block: its length,
/// at least the twelve bytes of block framing, lies within `data`.
#[verifier::external_body]
fn decode_block_be(data: &[u8]) -> (r: NgStep)
    requires
        !short_process_block(data@, true),
    ensures
        r == pcapng_block_be(data@),
        r matches NgStep::Block(n, _) ==> 12 <= n <= data@.len(),
{
    let (rem, block) = match pcap_parser::pcapng::parse_block_be(data) {
        Ok(ok) => ok,
        Err(NomErr::Incomplete(_)) => return NgStep::Incomplete,
        Err(NomErr::Error(e)) | Err(NomErr::Failure(e)) => return NgStep::Failed(format!("{:?}", e)),
    };
    let block = match block {
        Block::SectionHeader(h) => NgBlock::SectionHeader(h.big_endian(), h.bom, h.major_version, h.minor_version, h.section_len),
        Block::InterfaceDescription(d) => NgBlock::InterfaceDescription(d.linktype.0, d.snaplen),
        Block::EnhancedPacket(p) => NgBlock::EnhancedPacket(p.if_id, p.ts_high, p.ts_low),
        Block::SimplePacket(_) => NgBlock::SimplePacket,
        _ => NgBlock::Other,
    };
    NgStep::Block(data.offset(rem), block)
}

/// The options of the section or interface header at the start of `data`,
/// decoded little-endian by `pcap_parser::pcapng::parse_block_le`.
pub uninterp spec fn pcapng_block_options_le(data: Seq<u8>) -> Seq<OptionView>;

/// The options of the section or interface header at the start of `data`,
/// decoded big-endian by `pcap_parser::pcapng::parse_block_be`.
pub uninterp spec fn pcapng_block_options_be(data: Seq<u8>) -> Seq<OptionView>;

/// Decodes the block at the start of `data` with
/// `pcap_parser::pcapng::parse_block_le` and gives the code of each option of
/// a Section Header or Interface Description Block, in order, with its value
/// as `PcapNGOption::as_str` reads it (`None` where that fails). The list is
/// named, not restated.
#[verifier::external_body]
fn block_options_le(data: &[u8]) -> (r: Vec<NgOption>)
    requires
        !short_process_block(data@, false),
    ensures
        option_views(r@) == pcapng_block_options_le(data@),
{
    let options: Vec<PcapNGOption> = match pcap_parser::pcapng::parse_block_le(data) {
        Ok((_, Block::SectionHeader(h))) => h.options,
        Ok((_, Block::InterfaceDescription(d))) => d.options,
        _ => Vec::new(),
    };
    options.iter().map(|o| NgOption { code: o.code.0, text: o.as_str().ok().map(String::from) }).collect()
}

/// Decodes the block at the start of `data` with
/// `pcap_parser::pcapng::parse_block_be` and gives the code of each option of
/// a Section Header or Interface Description Block, in order, with its value
/// as `PcapNGOption::as_str` reads it (`None` where that fails). The list is
/// named, not restated.
#[verifier::external_body]
fn block_options_be(data: &[u8]) -> (r: Vec<NgOption>)
    requires
        !short_process_block(data@, true),
    ensures
        option_views(r@) == pcapng_block_options_be(data@),
{
    let options: Vec<PcapNGOption> = match pcap_parser::pcapng::parse_block_be(data) {
        Ok((_, Block::SectionHeader(h))) => h.options,
        Ok((_, Block::InterfaceDescription(d))) => d.options,
        _ => Vec::new(),
    };
    options.iter().map(|o| NgOption { code: o.code.0, text: o.as_str().ok().map(String::from) }).collect()
}

/// The captured bytes of the packet block at the start of `data`, decoded
/// little-endian by `pcap_parser::pcapng::parse_block_le`.
pub uninterp spec fn pcapng_packet_data_le(data: Seq<u8>) -> Seq<u8>;

/// The captured bytes of the packet block at the start of `data`, decoded
/// big-endian by `pcap_parser::pcapng::parse_block_be`.
pub uninterp spec fn pcapng_packet_data_be(data: Seq<u8>) -> Seq<u8>;

/// Decodes the block at the start of `data` with
/// `pcap_parser::pcapng::parse_block_le` and copies the captured bytes of an
/// Enhanced or Simple Packet Block, as `PcapNGPacketBlock::packet_data` gives
/// them (none for other blocks). The bytes are named, not restated.
#[verifier::external_body]
fn block_packet_data_le(data: &[u8]) -> (r: Vec<u8>)
    requires
        !short_process_block(data@, false),
    ensures
        r@ == pcapng_packet_data_le(data@),
{
    match pcap_parser::pcapng::parse_block_le(data) {
        Ok((_, Block::EnhancedPacket(p))) => p.packet_data().to_vec(),
        Ok((_, Block::SimplePacket(p))) => p.packet_data().to_vec(),
        _ => Vec::new(),
    }
}

/// Decodes the block at the start of `data` with
/// `pcap_parser::pcapng::parse_block_be` and copies the captured bytes of an
/// Enhanced or Simple Packet Block, as `PcapNGPacketBlock::packet_data` gives
/// them (none for other blocks). The bytes are named, not restated.
#[verifier::external_body]
fn block_packet_data_be(data: &[u8]) -> (r: Vec<u8>)
    requires
        !short_process_block(data@, true),
    ensures
        r@ == pcapng_packet_data_be(data@),
{
    match pcap_parser::pcapng::parse_block_be(data) {
        Ok((_, Block::EnhancedPacket(p))) => p.packet_data().to_vec(),
        Ok((_, Block::SimplePacket(p))) => p.packet_data().to_vec(),
        _ => Vec::new(),
    }
}

/// What `pcap_parser::parse_pcap_frame` gives for `data`.
pub uninterp spec fn pcap_frame_le(data: Seq<u8>) -> FrameStep;

/// What `pcap_parser::parse_pcap_frame_be` gives for `data`.
pub uninterp spec fn pcap_frame_be(data: Seq<u8>) -> FrameStep;

/// Decodes the little-endian record at the start of `data` with
/// `pcap_parser::parse_pcap_frame`. The result is named; the contract adds
/// what the source shows: a record takes its 16-byte header and lies within
/// `data`.
#[verifier::external_body]
fn decode_frame_le(data: &[u8]) -> (r: FrameStep)
    ensures
        r == pcap_frame_le(data@),
        r matches FrameStep::Frame(n, _, _) ==> 16 <= n <= data@.len(),
{
    match pcap_parser::parse_pcap_frame(data) {
        Ok((rem, f)) => FrameStep::Frame(data.offset(rem), f.ts_sec, f.data.to_vec()),
        Err(NomErr::Incomplete(_)) => FrameStep::Incomplete,
        Err(NomErr::Error(e)) | Err(NomErr::Failure(e)) => FrameStep::Failed(format!("{:?}", e)),
    }
}

/// Decodes the big-endian record at the start of `data` with
/// `pcap_parser::parse_pcap_frame_be`. The result is named; the contract adds
/// what the source shows: a record takes its 16-byte header and lies within
/// `data`.
#[verifier::external_body]
fn decode_frame_be(data: &[u8]) -> (r: FrameStep)
    ensures
        r == pcap_frame_be(data@),
        r matches FrameStep::Frame(n, _, _) ==> 16 <= n <= data@.len(),
{
    match pcap_parser::parse_pcap_frame_be(data) {
        Ok((rem, f)) => FrameStep::Frame(data.offset(rem), f.ts_sec, f.data.to_vec()),
        Err(NomErr::Incomplete(_)) => FrameStep::Incomplete,
        Err(NomErr::Error(e)) | Err(NomErr::Failure(e)) => FrameStep::Failed(format!("{:?}", e)),
    }
}

/// Why `pcap_parser::PcapNGReader::new(capacity, data)` refuses `data`
/// (its error as `Debug` writes it), or `None` when it accepts it.
pub uninterp spec fn pcapng_reader_refusal(data: Seq<u8>, capacity: usize) -> Option<Seq<char>>;

/// Why `pcap_parser::LegacyPcapReader::new(capacity, data)` refuses `data`,
/// or `None` when it accepts it.
pub uninterp spec fn pcap_reader_refusal(data: Seq<u8>, capacity: usize) -> Option<Seq<char>>;

/// Opens a `pcap_parser::PcapNGReader` over `data` with the given buffer
/// capacity, which checks that a Section Header Block starts the data, and
/// reports its error. The answer is named, not restated.
#[verifier::external_body]
pub(crate) fn check_pcapng_reader(data: &[u8], capacity: usize) -> (r: Option<String>)
    ensures
        opt_text(r) == pcapng_reader_refusal(data@, capacity),
{
    match pcap_parser::PcapNGReader::new(capacity, data) {
        Ok(_) => None,
        Err(e) => Some(format!("{:?}", e)),
    }
}

/// Opens a `pcap_parser::LegacyPcapReader` over `data` with the given buffer
/// capacity, which reads the 24-byte file header, and reports its error. The
/// answer is named; the contract adds what the source shows: an accepted
/// header is 24 whole bytes, read from at most `capacity` of them.
#[verifier::external_body]
pub(crate) fn check_pcap_reader(data: &[u8], capacity: usize) -> (r: Option<String>)
    ensures
        opt_text(r) == pcap_reader_refusal(data@, capacity),
        r is None ==> data@.len() >= 24 && capacity >= 24,
{
    match pcap_parser::LegacyPcapReader::new(capacity, data) {
        Ok(_) => None,
        Err(e) => Some(format!("{:?}", e)),
    }
}

/// The byte order in force after `block`: a Section Header Block sets the
/// order of its section; any other block keeps it.
pub open spec fn order_after(big_endian: bool, block: NgBlock) -> bool {
    match block {
        NgBlock::SectionHeader(be, _, _, _, _) => be,
        _ => big_endian,
    }
}

/// Decoding the block at the start of `data` in the given byte order.
pub open spec fn decode_block(data: Seq<u8>, big_endian: bool) -> NgStep {
    if big_endian {
        pcapng_block_be(data)
    } else {
        pcapng_block_le(data)
    }
}

/// The walk's error for a Process Information Block too short for its
/// framing: its content length wraps around, so a streaming reader can never
/// hold the block.
pub open spec fn short_block_error() -> Seq<char> {
    "Parse error: BufferTooSmall"@
}

/// The walk's error when the data ends inside a block.
pub open spec fn truncated_error() -> Seq<char> {
    "Parse error: UnexpectedEof"@
}

/// The walk's error for a malformed block or record.
pub open spec fn malformed_error(decoder_error: Seq<char>) -> Seq<char> {
    "Parse error: "@ + decoder_error
}

/// The options kept for `block`, decoded from `data` in the given byte order:
/// those of a section or interface header, none for other blocks.
pub open spec fn options_of(data: Seq<u8>, big_endian: bool, block: NgBlock) -> Seq<OptionView> {
    if block is SectionHeader || block is InterfaceDescription {
        if big_endian {
            pcapng_block_options_be(data)
        } else {
            pcapng_block_options_le(data)
        }
    } else {
        Seq::empty()
    }
}

/// The captured bytes kept for `block`, decoded from `data` in the given byte
/// order: those of a packet block, none for other blocks.
pub open spec fn packet_of(data: Seq<u8>, big_endian: bool, block: NgBlock) -> Seq<u8> {
    if block is EnhancedPacket || block is SimplePacket {
        if big_endian {
            pcapng_packet_data_be(data)
        } else {
            pcapng_packet_data_le(data)
        }
    } else {
        Seq::empty()
    }
}

/// The blocks of a PcapNG capture from `data` on, each decoded in the byte
/// order of its section with the options of section and interface headers,
/// up to the end of the data; or the error that stops the walk.
pub open spec fn pcapng_blocks(data: Seq<u8>, big_endian: bool) -> Result<Seq<DecodedView>, Seq<char>>
    decreases data.len(),
{
    if data.len() == 0 {
        Ok(Seq::empty())
    } else if short_process_block(data, big_endian) {
        Err(short_block_error())
    } else {
        match decode_block(data, big_endian) {
            NgStep::Block(n, block) => if 0 < n <= data.len() {
                match pcapng_blocks(data.subrange(n as int, data.len() as int), order_after(big_endian, block)) {
                    Ok(rest) => Ok(seq![(block, options_of(data, big_endian, block), packet_of(data, big_endian, block))] + rest),
                    Err(e) => Err(e),
                }
            } else {
                // the decoder never reports such a length
                Ok(Seq::empty())
            },
            NgStep::Incomplete => Err(truncated_error()),
            NgStep::Failed(e) => Err(malformed_error(e@)),
        }
    }
}

/// `later`, with `seen` in front of its items.
pub open spec fn after_items<T>(seen: Seq<T>, later: Result<Seq<T>, Seq<char>>) -> Result<Seq<T>, Seq<char>> {
    match later {
        Ok(rest) => Ok(seen + rest),
        Err(e) => Err(e),
    }
}

/// Walks the blocks of the PcapNG capture in `data`, from its first byte,
/// starting in little-endian order (the order a Section Header Block is read
/// in whatever its own order) and switching order at each Section Header
/// Block. Section and interface headers keep their options.
pub fn walk_pcapng(data: &[u8]) -> (r: Result<Vec<DecodedBlock>, String>)
    ensures
        match pcapng_blocks(data@, false) {
            Ok(blocks) => r matches Ok(v) && decoded_views(v@) == blocks,
            Err(e) => r matches Err(m) && m@ == e,
        },
        data@.len() >= 4 && le_word(data@, 0) == SECTION_HEADER_BLOCK ==> (r matches Ok(v) ==> v@.len() > 0
            && v@[0].block is SectionHeader),
{
    let mut blocks: Vec<DecodedBlock> = Vec::new();
    let mut pos: usize = 0;
    let mut big_endian = false;
    assert(data@.subrange(0, data@.len() as int) =~= data@);
    assert(decoded_views(blocks@) =~= Seq::<DecodedView>::empty());
    while pos < data.len()
        invariant
            pos <= data@.len(),
            pos == 0 ==> blocks@.len() == 0 && !big_endian,
            data@.len() >= 4 && le_word(data@, 0) == SECTION_HEADER_BLOCK && pos > 0 ==> blocks@.len() > 0
                && blocks@[0].block is SectionHeader,
            pcapng_blocks(data@, false) == after_items(
                decoded_views(blocks@),
                pcapng_blocks(data@.subrange(pos as int, data@.len() as int), big_endian),
            ),
        decreases data@.len() - pos,
    {
        let rest = slice_subrange(data, pos, data.len());
        assert(pos == 0 ==> rest@ =~= data@);
        if is_short_process_block(rest, big_endian) {
            proof { reveal_strlit("Parse error: BufferTooSmall"); }
            return Err(text("Parse error: BufferTooSmall"));
        }
        let step = if big_endian { decode_block_be(rest) } else { decode_block_le(rest) };
        match step {
            NgStep::Block(n, block) => {
                let options = match block {
                    NgBlock::SectionHeader(..) | NgBlock::InterfaceDescription(..) => {
                        if big_endian { block_options_be(rest) } else { block_options_le(rest) }
                    },
                    _ => Vec::new(),
                };
                let packet = match block {
                    NgBlock::EnhancedPacket(..) | NgBlock::SimplePacket => {
                        if big_endian { block_packet_data_be(rest) } else { block_packet_data_le(rest) }
                    },
                    _ => Vec::new(),
                };
                let ghost item: DecodedView = (block, option_views(options@), packet@);
                assert(option_views(options@) =~= options_of(rest@, big_endian, block));
                assert(packet@ =~= packet_of(rest@, big_endian, block));
                let ghost seen = decoded_views(blocks@);
                let ghost later = rest@.subrange(n as int, rest@.len() as int);
                assert(later =~= data@.subrange(pos + n, data@.len() as int));
                proof {
                    match pcapng_blocks(later, order_after(big_endian, block)) {
                        Ok(tail) => {
                            assert(seen + (seq![item] + tail) =~= seen.push(item) + tail);
                        },
                        Err(_) => {},
                    }
                }
                let next_order = match block {
                    NgBlock::SectionHeader(be, _, _, _, _) => be,
                    _ => big_endian,
                };
                blocks.push(DecodedBlock { block, options, packet });
                assert(decoded_views(blocks@) =~= seen.push(item));
                big_endian = next_order;
                pos = pos + n;
            },
            NgStep::Incomplete => {
                return Err(text("Parse error: UnexpectedEof"));
            },
            NgStep::Failed(e) => {
                return Err(prefixed_text("Parse error: ", &e));
            },
        }
    }
    assert(data@.subrange(pos as int, data@.len() as int) =~= Seq::<u8>::empty());
    assert(decoded_views(blocks@) + Seq::<DecodedView>::empty() =~= decoded_views(blocks@));
    Ok(blocks)
}

/// Decoding the classic PCAP record at the start of `data` in the given byte
/// order.
pub open spec fn decode_frame(data: Seq<u8>, big_endian: bool) -> FrameStep {
    if big_endian {
        pcap_frame_be(data)
    } else {
        pcap_frame_le(data)
    }
}

/// A classic PCAP record: the seconds of its timestamp and its captured
/// bytes.
#[derive(Debug)]
pub struct PcapRecord {
    pub secs: u32,
    pub data: Vec<u8>,
}

/// The timestamp seconds and bytes of a record.
pub type RecordView = (u32, Seq<u8>);

/// The timestamp seconds and bytes of a list of records.
pub open spec fn record_views(records: Seq<PcapRecord>) -> Seq<RecordView> {
    records.map_values(|r: PcapRecord| (r.secs, r.data@))
}

/// The timestamp seconds and captured bytes of the classic PCAP records from
/// `data` on, in order, up to the end of the data; or the error that stops
/// the walk.
pub open spec fn pcap_records(data: Seq<u8>, big_endian: bool) -> Result<Seq<RecordView>, Seq<char>>
    decreases data.len(),
{
    if data.len() == 0 {
        Ok(Seq::empty())
    } else {
        match decode_frame(data, big_endian) {
            FrameStep::Frame(n, secs, bytes) => if 0 < n <= data.len() {
                match pcap_records(data.subrange(n as int, data.len() as int), big_endian) {
                    Ok(rest) => Ok(seq![(secs, bytes@)] + rest),
                    Err(e) => Err(e),
                }
            } else {
                // the decoder never reports such a length
                Ok(Seq::empty())
            },
            FrameStep::Incomplete => Err(truncated_error()),
            FrameStep::Failed(e) => Err(malformed_error(e@)),
        }
    }
}

/// Reads the timestamp seconds and captured bytes of the classic PCAP
/// records in `data`, which holds the records that follow the file header.
pub fn read_pcap_records(data: &[u8], big_endian: bool) -> (r: Result<Vec<PcapRecord>, String>)
    ensures
        match pcap_records(data@, big_endian) {
            Ok(records) => r matches Ok(v) && record_views(v@) == records,
            Err(e) => r matches Err(m) && m@ == e,
        },
        r matches Ok(v) ==> v@.len() <= data@.len(),
{
    let mut records: Vec<PcapRecord> = Vec::new();
    let mut pos: usize = 0;
    assert(data@.subrange(0, data@.len() as int) =~= data@);
    assert(record_views(records@) =~= Seq::<RecordView>::empty());
    while pos < data.len()
        invariant
            pos <= data@.len(),
            records@.len() <= pos,
            pcap_records(data@, big_endian) == after_items(
                record_views(records@),
                pcap_records(data@.subrange(pos as int, data@.len() as int), big_endian),
            ),
        decreases data@.len() - pos,
    {
        let rest = slice_subrange(data, pos, data.len());
        let step = if big_endian { decode_frame_be(rest) } else { decode_frame_le(rest) };
        match step {
            FrameStep::Frame(n, secs, bytes) => {
                let ghost seen = record_views(records@);
                let ghost item: RecordView = (secs, bytes@);
                let ghost later = rest@.subrange(n as int, rest@.len() as int);
                assert(later =~= data@.subrange(pos + n, data@.len() as int));
                proof {
                    match pcap_records(later, big_endian) {
                        Ok(tail) => {
                            assert(seen + (seq![item] + tail) =~= seen.push(item) + tail);
                        },
                        Err(_) => {},
                    }
                }
                records.push(PcapRecord { secs, data: bytes });
                assert(record_views(records@) =~= seen.push(item));
                pos = pos + n;
            },
            FrameStep::Incomplete => {
                return Err(text("Parse error: UnexpectedEof"));
            },
            FrameStep::Failed(e) => {
                return Err(prefixed_text("Parse error: ", &e));
            },
        }
    }
    assert(data@.subrange(pos as int, data@.len() as int) =~= Seq::<u8>::empty());
    assert(record_views(records@) + Seq::<RecordView>::empty() =~= record_views(records@));
    Ok(records)
}

} // verus!
