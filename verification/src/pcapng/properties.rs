//! Properties of capture summaries that relate several functions or hold of
//! every capture.

use vstd::prelude::*;

use crate::pcapng::blocks::{pcap_records, pcapng_blocks, DecodedView, OptionView};
use crate::pcapng::parser::{
    capture_info, capture_info_on, capture_metadata, first_packet_time, format_magic, interface_entries,
    interface_packets, is_big_endian_pcap, is_pcap_magic, last_packet_time, packet_block_count, timing_of,
    FileInfoView, PCAPNG_MAGIC, capture_packets, pcapng_packets, capture_times_representable,
    packet_times_representable,
};
use crate::pcapng::time::{utc_seconds_representable, Timestamp};
use crate::pcapng::parser::{epb_seconds, packet_time};
use crate::pcapng::blocks::NgBlock;

verus! {

proof fn lemma_packets_and_interfaces_fit(blocks: Seq<DecodedView>)
    ensures
        packet_block_count(blocks, None) + interface_entries(blocks).len() <= blocks.len(),
    decreases blocks.len(),
{
    if blocks.len() > 0 {
        lemma_packets_and_interfaces_fit(blocks.drop_last());
    }
}

proof fn lemma_first_and_last_together(blocks: Seq<DecodedView>, now: Timestamp, sel: Option<u32>)
    ensures
        first_packet_time(blocks, now, sel).is_some() == last_packet_time(blocks, now, sel).is_some(),
        packet_block_count(blocks, sel) == 0 ==> first_packet_time(blocks, now, sel).is_none(),
    decreases blocks.len(),
{
    if blocks.len() > 0 {
        lemma_first_and_last_together(blocks.drop_last(), now, sel);
    }
}

proof fn lemma_interface_selection_counts(blocks: Seq<DecodedView>, k: u32)
    ensures
        packet_block_count(blocks, Some(k)) == interface_packets(blocks, k as int),
    decreases blocks.len(),
{
    if blocks.len() > 0 {
        lemma_interface_selection_counts(blocks.drop_last(), k);
    }
}

/// For a PcapNG capture, parsing it and reading its metadata succeed or fail
/// together, with the same message, and report the same interfaces.
pub proof fn law_metadata_agrees_with_parse(data: Seq<u8>, now: Timestamp)
    requires
        data.len() >= 4,
        format_magic(data) == PCAPNG_MAGIC,
    ensures
        capture_info(data, now).is_ok() == capture_metadata(data).is_ok(),
        capture_info(data, now) is Err ==> capture_info(data, now)->Err_0 == capture_metadata(data)->Err_0,
        capture_info(data, now) is Ok ==> capture_info(data, now)->Ok_0.interfaces
            == capture_metadata(data)->Ok_0.interfaces,
{
}

/// A PcapNG capture holds at least as many blocks as it has packets and
/// interfaces together.
pub proof fn law_blocks_cover_packets_and_interfaces(data: Seq<u8>, now: Timestamp)
    requires
        4 <= data.len() <= usize::MAX,
        format_magic(data) == PCAPNG_MAGIC,
        capture_info(data, now) is Ok,
    ensures
        capture_metadata(data) is Ok,
        capture_metadata(data)->Ok_0.total_blocks >= capture_info(data, now)->Ok_0.total_packets
            + capture_info(data, now)->Ok_0.interfaces.len(),
{
    let blocks = pcapng_blocks(data, false)->Ok_0;
    lemma_packets_and_interfaces_fit(blocks);
    lemma_blocks_fit_data(data, false);
    assert(blocks.len() <= u64::MAX);
}

proof fn lemma_blocks_fit_data(data: Seq<u8>, big_endian: bool)
    ensures
        pcapng_blocks(data, big_endian) is Ok ==> pcapng_blocks(data, big_endian)->Ok_0.len() <= data.len(),
    decreases data.len(),
{
    if data.len() > 0 {
        let step = crate::pcapng::blocks::decode_block(data, big_endian);
        if let crate::pcapng::blocks::NgStep::Block(n, block) = step {
            if 0 < n <= data.len() {
                lemma_blocks_fit_data(
                    data.subrange(n as int, data.len() as int),
                    crate::pcapng::blocks::order_after(big_endian, block),
                );
            }
        }
    }
}

/// A parsed capture reports a first packet instant exactly when it reports a
/// last one, and neither when it has no packet.
pub proof fn law_first_and_last_packet_together(data: Seq<u8>, now: Timestamp)
    requires
        data.len() <= usize::MAX,
        capture_info(data, now) is Ok,
    ensures
        capture_info(data, now)->Ok_0.first_packet_time.is_some()
            == capture_info(data, now)->Ok_0.last_packet_time.is_some(),
        capture_info(data, now)->Ok_0.total_packets == 0
            ==> capture_info(data, now)->Ok_0.first_packet_time.is_none(),
        capture_info(data, now)->Ok_0.capture_duration.is_some()
            ==> capture_info(data, now)->Ok_0.first_packet_time.is_some(),
{
    if format_magic(data) == PCAPNG_MAGIC {
        let blocks = pcapng_blocks(data, false)->Ok_0;
        lemma_first_and_last_together(blocks, now, None);
        lemma_packets_and_interfaces_fit(blocks);
        lemma_blocks_fit_data(data, false);
    } else if data.len() >= 24 {
        lemma_records_fit_data(data.subrange(24, data.len() as int), is_big_endian_pcap(format_magic(data)));
    }
}

/// Whether parsing succeeds, and every figure but the packet instants, does
/// not depend on the instant that stands in for unrepresentable timestamps.
pub proof fn law_parse_independent_of_fallback_instant(data: Seq<u8>, now1: Timestamp, now2: Timestamp)
    ensures
        capture_info(data, now1).is_ok() == capture_info(data, now2).is_ok(),
        capture_info(data, now1) is Err ==> capture_info(data, now1) == capture_info(data, now2),
        capture_info(data, now1) is Ok ==> {
            let a = capture_info(data, now1)->Ok_0;
            let b = capture_info(data, now2)->Ok_0;
            &&& a.file_type == b.file_type
            &&& a.file_size == b.file_size
            &&& a.total_packets == b.total_packets
            &&& a.interfaces == b.interfaces
        },
{
}

proof fn lemma_times_independent(blocks: Seq<DecodedView>, now1: Timestamp, now2: Timestamp, sel: Option<u32>)
    requires
        packet_times_representable(blocks),
    ensures
        first_packet_time(blocks, now1, sel) == first_packet_time(blocks, now2, sel),
        last_packet_time(blocks, now1, sel) == last_packet_time(blocks, now2, sel),
    decreases blocks.len(),
{
    if blocks.len() > 0 {
        let rest = blocks.drop_last();
        assert forall|i: int| 0 <= i < rest.len() implies match (#[trigger] rest[i]).0 {
            NgBlock::EnhancedPacket(_, high, low) => utc_seconds_representable(epb_seconds(high, low) as i64),
            _ => true,
        } by {
            assert(rest[i] == blocks[i]);
        }
        lemma_times_independent(rest, now1, now2, sel);
        assert(blocks[blocks.len() - 1] == blocks.last());
    }
}

/// When chrono can represent every packet instant of a capture, parsing it
/// does not depend on the fallback instant at all: the clock is never
/// consulted and every figure, times and durations included, is fixed by the
/// bytes alone.
pub proof fn law_parse_fixed_when_times_representable(data: Seq<u8>, now1: Timestamp, now2: Timestamp, sel: Option<u32>)
    requires
        capture_times_representable(data),
    ensures
        capture_info_on(data, now1, sel) == capture_info_on(data, now2, sel),
{
    if data.len() >= 4 && format_magic(data) == PCAPNG_MAGIC {
        if let Ok(blocks) = pcapng_blocks(data, false) {
            lemma_times_independent(blocks, now1, now2, sel);
        }
    }
}

/// A classic PCAP capture reports one packet per record, on its single
/// interface.
pub proof fn law_pcap_counts_records(data: Seq<u8>, now: Timestamp)
    requires
        4 <= data.len() <= usize::MAX,
        is_pcap_magic(format_magic(data)),
        capture_info(data, now) is Ok,
    ensures
        capture_info(data, now)->Ok_0.total_packets
            == pcap_records(data.subrange(24, data.len() as int), is_big_endian_pcap(format_magic(data)))->Ok_0.len(),
        capture_info(data, now)->Ok_0.interfaces.len() == 1,
{
    lemma_records_fit_data(data.subrange(24, data.len() as int), is_big_endian_pcap(format_magic(data)));
}

proof fn lemma_records_fit_data(data: Seq<u8>, big_endian: bool)
    ensures
        pcap_records(data, big_endian) is Ok ==> pcap_records(data, big_endian)->Ok_0.len() <= data.len(),
    decreases data.len(),
{
    if data.len() > 0 {
        if let crate::pcapng::blocks::FrameStep::Frame(n, _, _) = crate::pcapng::blocks::decode_frame(data, big_endian) {
            if 0 < n <= data.len() {
                lemma_records_fit_data(data.subrange(n as int, data.len() as int), big_endian);
            }
        }
    }
}

/// Parsing a PcapNG capture for one of its interfaces counts exactly the
/// packets that the full parse reports for that interface.
pub proof fn law_interface_figures_match_interface_count(data: Seq<u8>, now: Timestamp, k: u32)
    requires
        data.len() >= 4,
        format_magic(data) == PCAPNG_MAGIC,
        capture_info(data, now) is Ok,
        k < capture_info(data, now)->Ok_0.interfaces.len(),
    ensures
        capture_info_on(data, now, Some(k)) is Ok,
        capture_info_on(data, now, Some(k))->Ok_0.total_packets
            == capture_info(data, now)->Ok_0.interfaces[k as int].packet_count,
{
    let blocks = pcapng_blocks(data, false)->Ok_0;
    lemma_interface_selection_counts(blocks, k);
}

proof fn lemma_packet_list_counts_packet_blocks(blocks: Seq<DecodedView>, entries: Seq<(i32, u32, Seq<OptionView>)>)
    ensures
        pcapng_packets(blocks, entries).len() == packet_block_count(blocks, None),
    decreases blocks.len(),
{
    if blocks.len() > 0 {
        lemma_packet_list_counts_packet_blocks(blocks.drop_last(), entries);
    }
}

/// Reading a capture's packets succeeds exactly when parsing it does, with
/// the same message when both fail, and gives as many packets as the parse
/// counts.
pub proof fn law_packets_agree_with_parse(data: Seq<u8>, now: Timestamp)
    requires
        data.len() <= usize::MAX,
    ensures
        capture_packets(data).is_ok() == capture_info(data, now).is_ok(),
        capture_info(data, now) is Err ==> capture_packets(data)->Err_0 == capture_info(data, now)->Err_0,
        capture_info(data, now) is Ok ==> capture_packets(data)->Ok_0.len()
            == capture_info(data, now)->Ok_0.total_packets,
{
    if data.len() >= 4 && format_magic(data) == PCAPNG_MAGIC {
        if let Ok(blocks) = pcapng_blocks(data, false) {
            lemma_packet_list_counts_packet_blocks(blocks, interface_entries(blocks));
            lemma_packets_and_interfaces_fit(blocks);
            lemma_blocks_fit_data(data, false);
        }
    } else if data.len() >= 24 {
        lemma_records_fit_data(data.subrange(24, data.len() as int), is_big_endian_pcap(format_magic(data)));
    }
}

/// The mean gap times the number of gaps never exceeds the capture window,
/// and falls short of it by less than one gap (while the window in
/// nanoseconds fits in 64 bits).
pub proof fn law_average_interval_spreads_window(info: FileInfoView)
    requires
        info.total_packets > 1,
        info.capture_duration matches Some(d) && d * 1_000_000_000 <= u64::MAX,
    ensures
        ({
            let t = timing_of(info);
            let window = info.capture_duration->Some_0 * 1_000_000_000;
            let gaps = info.total_packets - 1;
            &&& t.average_interval * gaps <= window
            &&& window < (t.average_interval + 1) * gaps
        }),
{
    let d = info.capture_duration->Some_0;
    let window: int = d * 1_000_000_000;
    let gaps: int = info.total_packets - 1;
    let q = window / gaps;
    assert(q <= window) by (nonlinear_arith)
        requires gaps >= 1, window >= 0, q == window / gaps;
    assert(q * gaps <= window && window < (q + 1) * gaps) by (nonlinear_arith)
        requires gaps >= 1, window >= 0, q == window / gaps;
}


/// Whether a block is an Enhanced or Simple Packet Block.
pub open spec fn is_packet_kind(b: DecodedView) -> bool {
    b.0 is EnhancedPacket || b.0 is SimplePacket
}

/// Whether a block is an Enhanced Packet Block captured on interface `k`.
pub open spec fn is_packet_on(b: DecodedView, k: u32) -> bool {
    b.0 matches NgBlock::EnhancedPacket(id, _, _) && id == k
}

proof fn lemma_packet_counts_are_filters(blocks: Seq<DecodedView>, k: u32)
    ensures
        packet_block_count(blocks, None) == blocks.filter(|b: DecodedView| is_packet_kind(b)).len(),
        packet_block_count(blocks, Some(k)) == blocks.filter(|b: DecodedView| is_packet_on(b, k)).len(),
        blocks.filter(|b: DecodedView| is_packet_kind(b)).len() <= blocks.len(),
    decreases blocks.len(),
{
    reveal_with_fuel(Seq::<_>::filter, 1);
    if blocks.len() > 0 {
        lemma_packet_counts_are_filters(blocks.drop_last(), k);
    }
}

/// A PcapNG capture counts as packets exactly its Enhanced and Simple Packet
/// Blocks: a block of any other type (section and interface headers,
/// interface statistics, name resolution, ...) never changes the count, nor
/// the list of its packets. For one interface it counts exactly the
/// Enhanced Packet Blocks captured on that interface.
pub proof fn law_pcapng_counts_packet_blocks(data: Seq<u8>, now: Timestamp, k: u32)
    requires
        4 <= data.len() <= usize::MAX,
        format_magic(data) == PCAPNG_MAGIC,
        capture_info(data, now) is Ok,
    ensures
        capture_info(data, now)->Ok_0.total_packets
            == pcapng_blocks(data, false)->Ok_0.filter(|b: DecodedView| is_packet_kind(b)).len(),
        capture_packets(data)->Ok_0.len()
            == pcapng_blocks(data, false)->Ok_0.filter(|b: DecodedView| is_packet_kind(b)).len(),
        capture_info_on(data, now, Some(k))->Ok_0.total_packets
            == pcapng_blocks(data, false)->Ok_0.filter(|b: DecodedView| is_packet_on(b, k)).len(),
{
    let blocks = pcapng_blocks(data, false)->Ok_0;
    lemma_packet_counts_are_filters(blocks, k);
    lemma_packet_list_counts_packet_blocks(blocks, interface_entries(blocks));
    lemma_blocks_fit_data(data, false);
    lemma_packets_and_interfaces_fit(blocks);
    lemma_interface_selection_counts(blocks, k);
    lemma_interface_packets_fit(blocks, k as int);
}

proof fn lemma_interface_packets_fit(blocks: Seq<DecodedView>, id: int)
    ensures
        interface_packets(blocks, id) <= blocks.len(),
    decreases blocks.len(),
{
    if blocks.len() > 0 {
        lemma_interface_packets_fit(blocks.drop_last(), id);
    }
}

/// The metadata of a PcapNG capture counts every block its walk decodes,
/// whatever the block's type.
pub proof fn law_metadata_counts_every_block(data: Seq<u8>)
    requires
        4 <= data.len() <= usize::MAX,
        format_magic(data) == PCAPNG_MAGIC,
        capture_metadata(data) is Ok,
    ensures
        capture_metadata(data)->Ok_0.total_blocks == pcapng_blocks(data, false)->Ok_0.len(),
{
    lemma_blocks_fit_data(data, false);
}


/// The instant of an Enhanced Packet Block, or `None` for any other block.
pub open spec fn epb_instant(b: DecodedView, now: Timestamp) -> Option<Timestamp> {
    match b.0 {
        NgBlock::EnhancedPacket(_, high, low) => Some(packet_time(high, low, now)),
        _ => None,
    }
}

/// The first packet instant of PcapNG blocks is that of their first Enhanced
/// Packet Block, and there is one exactly when there is such a block.
pub proof fn law_first_packet_time_is_first_packet_block(blocks: Seq<DecodedView>, now: Timestamp)
    ensures
        first_packet_time(blocks, now, None) is None <==> forall|i: int| 0 <= i < blocks.len() ==> !((#[trigger] blocks[i]).0 is EnhancedPacket),
        first_packet_time(blocks, now, None) matches Some(t) ==> exists|i: int| 0 <= i < blocks.len()
            && (#[trigger] blocks[i]).0 is EnhancedPacket
            && epb_instant(blocks[i], now) == Some(t)
            && forall|j: int| 0 <= j < i ==> !((#[trigger] blocks[j]).0 is EnhancedPacket),
    decreases blocks.len(),
{
    if blocks.len() > 0 {
        let rest = blocks.drop_last();
        law_first_packet_time_is_first_packet_block(rest, now);
        assert forall|i: int| 0 <= i < rest.len() implies #[trigger] rest[i] == blocks[i] by {}
        if let Some(t) = first_packet_time(rest, now, None) {
            let i = choose|i: int| 0 <= i < rest.len()
                && (#[trigger] rest[i]).0 is EnhancedPacket
                && epb_instant(rest[i], now) == Some(t)
                && forall|j: int| 0 <= j < i ==> !((#[trigger] rest[j]).0 is EnhancedPacket);
            assert(blocks[i] == rest[i]);
            assert forall|j: int| 0 <= j < i implies !((#[trigger] blocks[j]).0 is EnhancedPacket) by {
                assert(blocks[j] == rest[j]);
            }
        } else {
            assert(blocks[blocks.len() - 1] == blocks.last());
            assert forall|j: int| 0 <= j < blocks.len() - 1 implies !((#[trigger] blocks[j]).0 is EnhancedPacket) by {
                assert(blocks[j] == rest[j]);
            }
        }
    }
}

/// The last packet instant of PcapNG blocks is that of their last Enhanced
/// Packet Block, and there is one exactly when there is such a block.
pub proof fn law_last_packet_time_is_last_packet_block(blocks: Seq<DecodedView>, now: Timestamp)
    ensures
        last_packet_time(blocks, now, None) is None <==> forall|i: int| 0 <= i < blocks.len() ==> !((#[trigger] blocks[i]).0 is EnhancedPacket),
        last_packet_time(blocks, now, None) matches Some(t) ==> exists|i: int| 0 <= i < blocks.len()
            && (#[trigger] blocks[i]).0 is EnhancedPacket
            && epb_instant(blocks[i], now) == Some(t)
            && forall|j: int| i < j < blocks.len() ==> !((#[trigger] blocks[j]).0 is EnhancedPacket),
    decreases blocks.len(),
{
    if blocks.len() > 0 {
        let rest = blocks.drop_last();
        law_last_packet_time_is_last_packet_block(rest, now);
        assert forall|i: int| 0 <= i < rest.len() implies #[trigger] rest[i] == blocks[i] by {}
        assert(blocks[blocks.len() - 1] == blocks.last());
        if blocks.last().0 is EnhancedPacket {
        } else if let Some(t) = last_packet_time(rest, now, None) {
            let i = choose|i: int| 0 <= i < rest.len()
                && (#[trigger] rest[i]).0 is EnhancedPacket
                && epb_instant(rest[i], now) == Some(t)
                && forall|j: int| i < j < rest.len() ==> !((#[trigger] rest[j]).0 is EnhancedPacket);
            assert(blocks[i] == rest[i]);
            assert forall|j: int| i < j < blocks.len() implies !((#[trigger] blocks[j]).0 is EnhancedPacket) by {
                if j < blocks.len() - 1 {
                    assert(blocks[j] == rest[j]);
                }
            }
        } else {
            assert forall|j: int| 0 <= j < blocks.len() implies !((#[trigger] blocks[j]).0 is EnhancedPacket) by {
                if j < blocks.len() - 1 {
                    assert(blocks[j] == rest[j]);
                }
            }
        }
    }
}

/// A classic PCAP capture with records reports the timestamp seconds of its
/// first record as its first packet instant and those of its last record as
/// its last; one without records reports neither.
pub proof fn law_pcap_times_come_from_first_and_last_records(data: Seq<u8>, now: Timestamp)
    requires
        4 <= data.len(),
        is_pcap_magic(format_magic(data)),
        capture_info(data, now) is Ok,
    ensures
        ({
            let records = pcap_records(data.subrange(24, data.len() as int), is_big_endian_pcap(format_magic(data)))->Ok_0;
            let info = capture_info(data, now)->Ok_0;
            &&& records.len() == 0 ==> info.first_packet_time is None && info.last_packet_time is None
            &&& records.len() > 0 ==> info.first_packet_time == Some(Timestamp { secs: records[0].0 as i64, nanos: 0 })
                && info.last_packet_time == Some(Timestamp { secs: records[records.len() - 1].0 as i64, nanos: 0 })
        }),
{
}

} // verus!
