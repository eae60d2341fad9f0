//! Statistics and filters over the packets of a capture.

use vstd::prelude::*;
use vstd::string::*;

use crate::pcapng::time::{millis_between, whole_millis_between, Timestamp};
use crate::pcapng::statistics_properties::{lemma_entry_of, lemma_interface_prefix, lemma_stats_consistent};
use crate::pcapng::types::{
    packet_views, FileStatistics, InterfaceInfo, InterfaceStats, PacketSizeDistribution,
    PacketSummary, PacketSummaryView, SizeBucket, TimeRange,
};

verus! {

/// The criteria a packet must meet to pass a filter; an absent criterion
/// admits every packet.
#[derive(Debug, Clone, Copy, PartialEq, Eq, Structural)]
pub struct PacketFilter {
    pub interface_id: Option<u32>,
    pub start_time: Option<Timestamp>,
    pub end_time: Option<Timestamp>,
    pub min_size: Option<u32>,
    pub max_size: Option<u32>,
}

/// Whether a packet meets the criteria: on the interface, not before the
/// start, not after the end, and with a captured size within the bounds.
pub open spec fn passes(filter: PacketFilter, p: PacketSummaryView) -> bool {
    &&& filter.interface_id matches Some(id) ==> p.interface_id == id
    &&& filter.start_time matches Some(start) ==> !p.timestamp.precedes(start)
    &&& filter.end_time matches Some(end) ==> !end.precedes(p.timestamp)
    &&& filter.min_size matches Some(min) ==> p.captured_length >= min
    &&& filter.max_size matches Some(max) ==> p.captured_length <= max
}

/// The packets among `packets` that meet the criteria, in their order.
pub open spec fn filtered(packets: Seq<PacketSummaryView>, filter: PacketFilter) -> Seq<PacketSummaryView> {
    packets.filter(|p: PacketSummaryView| passes(filter, p))
}

/// Computes packet statistics.
pub struct PcapNGAnalyzer;

fn check_filter(filter: &PacketFilter, p: &PacketSummary) -> (b: bool)
    ensures
        b == passes(*filter, p@),
{
    if let Some(id) = filter.interface_id {
        if p.interface_id != id {
            return false;
        }
    }
    if let Some(start) = filter.start_time {
        if p.timestamp.is_before(&start) {
            return false;
        }
    }
    if let Some(end) = filter.end_time {
        if end.is_before(&p.timestamp) {
            return false;
        }
    }
    if let Some(min) = filter.min_size {
        if p.captured_length < min {
            return false;
        }
    }
    if let Some(max) = filter.max_size {
        if p.captured_length > max {
            return false;
        }
    }
    true
}

impl PcapNGAnalyzer {
    /// Copies of the packets that are on interface `interface_id`, not
    /// before `start_time`, not after `end_time`, and whose captured size lies
    /// within `min_size` and `max_size`, in their order. An absent criterion
    /// admits every packet.
    pub fn filter_packets(
        packets: &[PacketSummary],
        interface_id: Option<u32>,
        start_time: Option<Timestamp>,
        end_time: Option<Timestamp>,
        min_size: Option<u32>,
        max_size: Option<u32>,
    ) -> (kept: Vec<PacketSummary>)
        ensures
            packet_views(kept@) == filtered(
                packet_views(packets@),
                PacketFilter { interface_id, start_time, end_time, min_size, max_size },
            ),
    {
        let filter = PacketFilter { interface_id, start_time, end_time, min_size, max_size };
        let ghost all = packet_views(packets@);
        let ghost pred = |p: PacketSummaryView| passes(filter, p);
        let mut kept: Vec<PacketSummary> = Vec::new();
        let mut i: usize = 0;
        while i < packets.len()
            invariant
                i <= packets@.len(),
                all == packet_views(packets@),
                pred == (|p: PacketSummaryView| passes(filter, p)),
                packet_views(kept@) =~= all.take(i as int).filter(pred),
            decreases packets@.len() - i,
        {
            proof {
                reveal_with_fuel(Seq::<_>::filter, 1);
                assert(all.take(i + 1).drop_last() =~= all.take(i as int));
                assert(all.take(i + 1).last() == packets@[i as int]@);
            }
            if check_filter(&filter, &packets[i]) {
                kept.push(packets[i].duplicate());
            }
            i = i + 1;
        }
        assert(all.take(packets@.len() as int) =~= all);
        kept
    }
}

/// The earliest packet instant among `packets` (which is not empty), the
/// first of equal ones.
pub open spec fn earliest(packets: Seq<PacketSummaryView>) -> Timestamp
    decreases packets.len(),
{
    if packets.len() <= 1 {
        packets[0].timestamp
    } else {
        let e = earliest(packets.drop_last());
        if packets.last().timestamp.precedes(e) {
            packets.last().timestamp
        } else {
            e
        }
    }
}

/// The latest packet instant among `packets` (which is not empty).
pub open spec fn latest(packets: Seq<PacketSummaryView>) -> Timestamp
    decreases packets.len(),
{
    if packets.len() <= 1 {
        packets[0].timestamp
    } else {
        let l = latest(packets.drop_last());
        if l.precedes(packets.last().timestamp) {
            packets.last().timestamp
        } else {
            l
        }
    }
}

/// The span of the packets' instants, if there is a packet.
pub open spec fn time_range_of(packets: Seq<PacketSummaryView>) -> Option<TimeRange> {
    if packets.len() == 0 {
        None
    } else {
        let start = earliest(packets);
        let end = latest(packets);
        Some(TimeRange { start, end, duration_millis: whole_millis_between(start, end) as i64 })
    }
}

/// The link type of the first interface with this id, or 0 when none has it.
pub open spec fn link_type_of(interfaces: Seq<InterfaceInfo>, id: u32) -> u16
    decreases interfaces.len(),
{
    if interfaces.len() == 0 {
        0
    } else if interfaces[0].id == id {
        interfaces[0].link_type
    } else {
        link_type_of(interfaces.drop_first(), id)
    }
}

/// The position of the first statistics entry for interface `id`, or -1.
pub open spec fn entry_of(stats: Seq<InterfaceStats>, id: u32) -> int
    decreases stats.len(),
{
    if stats.len() == 0 {
        -1
    } else {
        let earlier = entry_of(stats.drop_last(), id);
        if earlier >= 0 {
            earlier
        } else if stats.last().interface_id == id {
            stats.len() - 1
        } else {
            -1
        }
    }
}

/// The statistics after counting one more packet of `size` captured bytes on
/// interface `id`, whose link type is `link_type`.
pub open spec fn count_packet(stats: Seq<InterfaceStats>, id: u32, size: u32, link_type: u16) -> Seq<InterfaceStats> {
    let j = entry_of(stats, id);
    if j >= 0 {
        stats.update(j, InterfaceStats {
            interface_id: id,
            packet_count: (stats[j].packet_count + 1) as usize,
            total_bytes: (stats[j].total_bytes + size) as u64,
            link_type,
        })
    } else {
        stats.push(InterfaceStats { interface_id: id, packet_count: 1, total_bytes: size as u64, link_type })
    }
}

/// The number of packets captured on interface `id`.
pub open spec fn packets_on(packets: Seq<PacketSummaryView>, id: u32) -> nat
    decreases packets.len(),
{
    if packets.len() == 0 {
        0
    } else {
        packets_on(packets.drop_last(), id) + if packets.last().interface_id == id { 1nat } else { 0nat }
    }
}

/// The captured bytes of the packets captured on interface `id`.
pub open spec fn bytes_on(packets: Seq<PacketSummaryView>, id: u32) -> nat
    decreases packets.len(),
{
    if packets.len() == 0 {
        0
    } else {
        bytes_on(packets.drop_last(), id) + if packets.last().interface_id == id {
            packets.last().captured_length as nat
        } else {
            0nat
        }
    }
}

/// Whether the captured bytes of every interface fit in 64 bits.
pub open spec fn interface_bytes_fit(packets: Seq<PacketSummaryView>) -> bool {
    forall|id: u32| #[trigger] bytes_on(packets, id) <= u64::MAX
}

/// Per-interface statistics of `packets`, one entry per interface in the
/// order of its first packet.
pub open spec fn interface_stats_of(packets: Seq<PacketSummaryView>, interfaces: Seq<InterfaceInfo>) -> Seq<InterfaceStats>
    decreases packets.len(),
{
    if packets.len() == 0 {
        Seq::empty()
    } else {
        let p = packets.last();
        count_packet(
            interface_stats_of(packets.drop_last(), interfaces),
            p.interface_id,
            p.captured_length,
            link_type_of(interfaces, p.interface_id),
        )
    }
}

/// The number of packets whose captured size lies in `[low, high]`.
pub open spec fn count_sizes(packets: Seq<PacketSummaryView>, low: u32, high: u32) -> nat
    decreases packets.len(),
{
    if packets.len() == 0 {
        0
    } else {
        count_sizes(packets.drop_last(), low, high) + if low <= packets.last().captured_length <= high { 1nat } else { 0nat }
    }
}

/// The sum of the captured sizes.
pub open spec fn total_size(packets: Seq<PacketSummaryView>) -> nat
    decreases packets.len(),
{
    if packets.len() == 0 {
        0
    } else {
        total_size(packets.drop_last()) + packets.last().captured_length as nat
    }
}

/// The smallest captured size (of a non-empty list).
pub open spec fn min_size(packets: Seq<PacketSummaryView>) -> u32
    decreases packets.len(),
{
    if packets.len() <= 1 {
        packets[0].captured_length
    } else {
        let m = min_size(packets.drop_last());
        if packets.last().captured_length < m { packets.last().captured_length } else { m }
    }
}

/// The largest captured size (of a non-empty list).
pub open spec fn max_size(packets: Seq<PacketSummaryView>) -> u32
    decreases packets.len(),
{
    if packets.len() <= 1 {
        packets[0].captured_length
    } else {
        let m = max_size(packets.drop_last());
        if packets.last().captured_length > m { packets.last().captured_length } else { m }
    }
}

/// The number of size buckets.
pub const BUCKET_COUNT: usize = 8;

/// The lower bound of size bucket `k`.
pub open spec fn bucket_low(k: int) -> u32 {
    if k == 0 { 0 }
    else if k == 1 { 65 }
    else if k == 2 { 129 }
    else if k == 3 { 257 }
    else if k == 4 { 513 }
    else if k == 5 { 1025 }
    else if k == 6 { 1519 }
    else { 9001 }
}

/// The upper bound of size bucket `k`.
pub open spec fn bucket_high(k: int) -> u32 {
    if k == 0 { 64 }
    else if k == 1 { 128 }
    else if k == 2 { 256 }
    else if k == 3 { 512 }
    else if k == 4 { 1024 }
    else if k == 5 { 1518 }
    else if k == 6 { 9000 }
    else { u32::MAX }
}

/// The label of size bucket `k`.
pub open spec fn bucket_label(k: int) -> Seq<char> {
    if k == 0 { "0-64 bytes"@ }
    else if k == 1 { "65-128 bytes"@ }
    else if k == 2 { "129-256 bytes"@ }
    else if k == 3 { "257-512 bytes"@ }
    else if k == 4 { "513-1024 bytes"@ }
    else if k == 5 { "1025-1518 bytes"@ }
    else if k == 6 { "1519-9000 bytes"@ }
    else { "9001+ bytes"@ }
}

/// Every size bucket with its count, in order.
pub open spec fn all_buckets(packets: Seq<PacketSummaryView>) -> Seq<(Seq<char>, nat)> {
    Seq::new(BUCKET_COUNT as nat, |k: int| (bucket_label(k), count_sizes(packets, bucket_low(k), bucket_high(k))))
}

/// The size buckets that hold at least one packet, in order.
pub open spec fn size_buckets_of(packets: Seq<PacketSummaryView>) -> Seq<(Seq<char>, nat)> {
    all_buckets(packets).filter(|b: (Seq<char>, nat)| b.1 > 0)
}

/// The label and count of a bucket.
pub open spec fn bucket_view(b: SizeBucket) -> (Seq<char>, nat) {
    (b.range@, b.count as nat)
}

/// Whether `d` is the size distribution of `packets`.
pub open spec fn is_size_distribution(d: PacketSizeDistribution, packets: Seq<PacketSummaryView>) -> bool {
    &&& d.packet_count == packets.len()
    &&& d.total_size == total_size(packets)
    &&& d.min_size == if packets.len() == 0 { 0 } else { min_size(packets) }
    &&& d.max_size == if packets.len() == 0 { 0 } else { max_size(packets) }
    &&& d.size_buckets@.map_values(|b: SizeBucket| bucket_view(b)) == size_buckets_of(packets)
}

fn bucket_bounds(k: usize) -> (r: (u32, u32, &'static str))
    requires
        k < BUCKET_COUNT,
    ensures
        r.0 == bucket_low(k as int),
        r.1 == bucket_high(k as int),
        r.2@ == bucket_label(k as int),
{
    if k == 0 { (0, 64, "0-64 bytes") }
    else if k == 1 { (65, 128, "65-128 bytes") }
    else if k == 2 { (129, 256, "129-256 bytes") }
    else if k == 3 { (257, 512, "257-512 bytes") }
    else if k == 4 { (513, 1024, "513-1024 bytes") }
    else if k == 5 { (1025, 1518, "1025-1518 bytes") }
    else if k == 6 { (1519, 9000, "1519-9000 bytes") }
    else { (9001, u32::MAX, "9001+ bytes") }
}

fn count_in_range(packets: &[PacketSummary], low: u32, high: u32) -> (n: usize)
    ensures
        n == count_sizes(packet_views(packets@), low, high),
{
    let ghost all = packet_views(packets@);
    let mut n: usize = 0;
    let mut i: usize = 0;
    while i < packets.len()
        invariant
            i <= packets@.len(),
            all == packet_views(packets@),
            n <= i,
            n == count_sizes(all.take(i as int), low, high),
        decreases packets@.len() - i,
    {
        assert(all.take(i + 1).drop_last() =~= all.take(i as int));
        let size = packets[i].captured_length;
        if low <= size && size <= high {
            n = n + 1;
        }
        i = i + 1;
    }
    assert(all.take(packets@.len() as int) =~= all);
    n
}

impl PcapNGAnalyzer {
    /// The span from the earliest to the latest packet instant, or `None`
    /// when there is no packet.
    pub fn calculate_time_range(packets: &[PacketSummary]) -> (r: Option<TimeRange>)
        ensures
            r == time_range_of(packet_views(packets@)),
    {
        let ghost all = packet_views(packets@);
        if packets.len() == 0 {
            return None;
        }
        let mut min_time = packets[0].timestamp;
        let mut max_time = packets[0].timestamp;
        let mut i: usize = 1;
        assert(all.take(1).len() == 1);
        while i < packets.len()
            invariant
                1 <= i <= packets@.len(),
                all == packet_views(packets@),
                min_time == earliest(all.take(i as int)),
                max_time == latest(all.take(i as int)),
            decreases packets@.len() - i,
        {
            assert(all.take(i + 1).drop_last() =~= all.take(i as int));
            let t = packets[i].timestamp;
            if t.is_before(&min_time) {
                min_time = t;
            }
            if max_time.is_before(&t) {
                max_time = t;
            }
            i = i + 1;
        }
        assert(all.take(packets@.len() as int) =~= all);
        let millis = millis_between(&min_time, &max_time);
        Some(TimeRange { start: min_time, end: max_time, duration_millis: millis as i64 })
    }

    /// Packet and captured-byte counts per interface, one entry per interface
    /// in the order of its first packet, each with the link type of the first
    /// interface description that has its id (0 when none has). Each entry
    /// counts exactly the packets and captured bytes of its interface.
    pub fn calculate_interface_stats(packets: &[PacketSummary], interfaces: &[InterfaceInfo]) -> (stats: Vec<InterfaceStats>)
        requires
            interface_bytes_fit(packet_views(packets@)),
        ensures
            stats@ == interface_stats_of(packet_views(packets@), interfaces@),
            forall|j: int| 0 <= j < stats@.len() ==> (#[trigger] stats@[j]).packet_count
                == packets_on(packet_views(packets@), stats@[j].interface_id)
                && stats@[j].total_bytes == bytes_on(packet_views(packets@), stats@[j].interface_id)
                && stats@[j].link_type == link_type_of(interfaces@, stats@[j].interface_id),
    {
        let ghost all = packet_views(packets@);
        let _len = packets.len();
        let mut stats: Vec<InterfaceStats> = Vec::new();
        let mut i: usize = 0;
        while i < packets.len()
            invariant
                i <= packets@.len() <= usize::MAX,
                all == packet_views(packets@),
                interface_bytes_fit(all),
                stats@ == interface_stats_of(all.take(i as int), interfaces@),
            decreases packets@.len() - i,
        {
            let ghost before = all.take(i as int);
            assert(all.take(i + 1).drop_last() =~= before);
            let id = packets[i].interface_id;
            let size = packets[i].captured_length;
            proof {
                assert forall|x: u32| #[trigger] bytes_on(before, x) <= u64::MAX by {
                    lemma_interface_prefix(all, i as int, x);
                }
                lemma_stats_consistent(before, interfaces@);
                lemma_interface_prefix(all, i + 1, id);
                lemma_interface_prefix(before, before.len() as int, id);
            }
            let link_type = Self::find_link_type(interfaces, id);
            let pos = Self::find_entry(&stats, id);
            match pos {
                Some(j) => {
                    let old = stats[j];
                    proof {
                        lemma_entry_of(stats@, id);
                        assert(old.total_bytes + size == bytes_on(all.take(i + 1), id));
                    }
                    stats.set(j, InterfaceStats {
                        interface_id: id,
                        packet_count: old.packet_count + 1,
                        total_bytes: old.total_bytes + size as u64,
                        link_type,
                    });
                },
                None => {
                    stats.push(InterfaceStats { interface_id: id, packet_count: 1, total_bytes: size as u64, link_type });
                },
            }
            i = i + 1;
        }
        assert(all.take(packets@.len() as int) =~= all);
        proof {
            lemma_stats_consistent(all, interfaces@);
            lemma_stats_link_types(all, interfaces@);
        }
        stats
    }

    fn find_link_type(interfaces: &[InterfaceInfo], id: u32) -> (lt: u16)
        ensures
            lt == link_type_of(interfaces@, id),
    {
        let mut k: usize = 0;
        assert(interfaces@.skip(0) =~= interfaces@);
        while k < interfaces.len()
            invariant
                k <= interfaces@.len(),
                link_type_of(interfaces@, id) == link_type_of(interfaces@.skip(k as int), id),
            decreases interfaces@.len() - k,
        {
            assert(interfaces@.skip(k as int).drop_first() =~= interfaces@.skip(k + 1));
            if interfaces[k].id == id {
                return interfaces[k].link_type;
            }
            k = k + 1;
        }
        0
    }

    fn find_entry(stats: &Vec<InterfaceStats>, id: u32) -> (pos: Option<usize>)
        ensures
            match pos {
                Some(j) => j == entry_of(stats@, id) && j < stats@.len(),
                None => entry_of(stats@, id) == -1,
            },
    {
        let mut k: usize = 0;
        while k < stats.len()
            invariant
                k <= stats@.len(),
                entry_of(stats@.take(k as int), id) == -1,
            decreases stats@.len() - k,
        {
            assert(stats@.take(k + 1).drop_last() =~= stats@.take(k as int));
            if stats[k].interface_id == id {
                proof { lemma_entry_of_extends(stats@, k as int, id); }
                return Some(k);
            }
            k = k + 1;
        }
        assert(stats@.take(stats@.len() as int) =~= stats@);
        None
    }
}

/// A prefix of the packets holds no more captured bytes than all of them.
pub proof fn lemma_total_size_of_prefix(packets: Seq<PacketSummaryView>, k: int)
    requires
        0 <= k <= packets.len(),
    ensures
        total_size(packets.take(k)) <= total_size(packets),
    decreases packets.len(),
{
    if k < packets.len() {
        assert(packets.take(k) =~= packets.drop_last().take(k));
        lemma_total_size_of_prefix(packets.drop_last(), k);
    } else {
        assert(packets.take(k) =~= packets);
    }
}

fn size_extremes_and_total(packets: &[PacketSummary]) -> (r: (u32, u32, u64))
    requires
        0 < packets@.len(),
        total_size(packet_views(packets@)) <= u64::MAX,
    ensures
        r.0 == min_size(packet_views(packets@)),
        r.1 == max_size(packet_views(packets@)),
        r.2 == total_size(packet_views(packets@)),
{
    let ghost all = packet_views(packets@);
    let mut min = packets[0].captured_length;
    let mut max = packets[0].captured_length;
    let mut total: u64 = packets[0].captured_length as u64;
    assert(all.take(1).drop_last() =~= Seq::<PacketSummaryView>::empty());
    assert(all.take(1).last() == packets@[0]@);
    assert(total_size(all.take(1).drop_last()) == 0);
    assert(total_size(all.take(1)) == packets@[0].captured_length);
    let mut i: usize = 1;
    while i < packets.len()
        invariant
            1 <= i <= packets@.len(),
            all == packet_views(packets@),
            total_size(all) <= u64::MAX,
            min == min_size(all.take(i as int)),
            max == max_size(all.take(i as int)),
            total == total_size(all.take(i as int)),
        decreases packets@.len() - i,
    {
        assert(all.take(i + 1).drop_last() =~= all.take(i as int));
        let size = packets[i].captured_length;
        if size < min {
            min = size;
        }
        if size > max {
            max = size;
        }
        proof {
            lemma_total_size_of_prefix(all, i + 1);
        }
        total = total + size as u64;
        i = i + 1;
    }
    assert(all.take(packets@.len() as int) =~= all);
    (min, max, total)
}

impl PcapNGAnalyzer {
    /// The smallest, largest and total captured size, and the number of
    /// packets in each size bucket that holds any (buckets 0-64, 65-128,
    /// 129-256, 257-512, 513-1024, 1025-1518, 1519-9000 and 9001 bytes or
    /// more). With no packet, all sizes are zero and no bucket is listed.
    pub fn calculate_size_distribution(packets: &[PacketSummary]) -> (d: PacketSizeDistribution)
        requires
            total_size(packet_views(packets@)) <= u64::MAX,
        ensures
            is_size_distribution(d, packet_views(packets@)),
    {
        let ghost all = packet_views(packets@);
        let ghost nonempty = |b: (Seq<char>, nat)| b.1 > 0;
        let (min_size, max_size, total_size) = if packets.len() == 0 {
            (0u32, 0u32, 0u64)
        } else {
            size_extremes_and_total(packets)
        };
        let mut buckets: Vec<SizeBucket> = Vec::new();
        let mut k: usize = 0;
        while k < BUCKET_COUNT
            invariant
                k <= BUCKET_COUNT,
                all == packet_views(packets@),
                nonempty == (|b: (Seq<char>, nat)| b.1 > 0),
                buckets@.map_values(|b: SizeBucket| bucket_view(b)) =~= all_buckets(all).take(k as int).filter(nonempty),
            decreases BUCKET_COUNT - k,
        {
            proof {
                reveal_with_fuel(Seq::<_>::filter, 1);
                assert(all_buckets(all).take(k + 1).drop_last() =~= all_buckets(all).take(k as int));
            }
            let (low, high, label) = bucket_bounds(k);
            let count = count_in_range(packets, low, high);
            if count > 0 {
                let ghost before = buckets@;
                buckets.push(SizeBucket { range: String::from_str(label), count });
                assert(buckets@.map_values(|b: SizeBucket| bucket_view(b)) =~=
                    before.map_values(|b: SizeBucket| bucket_view(b)).push((label@, count as nat)));
            }
            k = k + 1;
        }
        assert(all_buckets(all).take(BUCKET_COUNT as int) =~= all_buckets(all));
        PacketSizeDistribution {
            min_size,
            max_size,
            total_size,
            packet_count: packets.len(),
            size_buckets: buckets,
        }
    }

    /// The statistics of a capture file at `file_path` of `file_size` bytes
    /// holding `packets` in `total_sections` sections over `interfaces`.
    pub fn generate_statistics(
        file_path: String,
        file_size: u64,
        packets: &[PacketSummary],
        total_sections: usize,
        interfaces: &[InterfaceInfo],
    ) -> (st: FileStatistics)
        requires
            total_size(packet_views(packets@)) <= u64::MAX,
        ensures
            st.file_path == file_path,
            st.file_size == file_size,
            st.total_packets == packets@.len(),
            st.total_sections == total_sections,
            st.total_interfaces == interfaces@.len(),
            st.time_range == time_range_of(packet_views(packets@)),
            st.interface_stats@ == interface_stats_of(packet_views(packets@), interfaces@),
            is_size_distribution(st.packet_size_distribution, packet_views(packets@)),
    {
        proof {
            let all = packet_views(packets@);
            assert forall|id: u32| #[trigger] bytes_on(all, id) <= u64::MAX by {
                lemma_interface_prefix(all, 0, id);
            }
        }
        let time_range = Self::calculate_time_range(packets);
        let interface_stats = Self::calculate_interface_stats(packets, interfaces);
        let packet_size_distribution = Self::calculate_size_distribution(packets);
        FileStatistics {
            file_path,
            file_size,
            total_packets: packets.len(),
            total_sections,
            total_interfaces: interfaces.len(),
            time_range,
            interface_stats,
            packet_size_distribution,
        }
    }
}

/// Each entry of the statistics carries the link type of its interface.
proof fn lemma_stats_link_types(packets: Seq<PacketSummaryView>, interfaces: Seq<InterfaceInfo>)
    ensures
        forall|j: int| 0 <= j < interface_stats_of(packets, interfaces).len() ==>
            (#[trigger] interface_stats_of(packets, interfaces)[j]).link_type
                == link_type_of(interfaces, interface_stats_of(packets, interfaces)[j].interface_id),
    decreases packets.len(),
{
    if packets.len() > 0 {
        lemma_stats_link_types(packets.drop_last(), interfaces);
        let before = interface_stats_of(packets.drop_last(), interfaces);
        lemma_entry_of(before, packets.last().interface_id);
    }
}

proof fn lemma_entry_of_extends(stats: Seq<InterfaceStats>, k: int, id: u32)
    requires
        0 <= k < stats.len(),
        entry_of(stats.take(k + 1), id) == k,
    ensures
        entry_of(stats, id) == k,
    decreases stats.len() - k,
{
    if stats.len() > k + 1 {
        assert(stats.drop_last().take(k + 1) =~= stats.take(k + 1));
        lemma_entry_of_extends(stats.drop_last(), k, id);
    } else {
        assert(stats.take(k + 1) =~= stats);
    }
}

} // verus!
