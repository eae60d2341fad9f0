//! Properties of the packet filters and statistics.

use vstd::prelude::*;

use crate::pcapng::analyzer::{
    all_buckets, bucket_high, bucket_low, count_sizes, earliest, entry_of, filtered,
    interface_stats_of, latest, max_size, min_size, passes, size_buckets_of, total_size,
    count_packet, link_type_of, PacketFilter, BUCKET_COUNT, bucket_label, bytes_on, interface_bytes_fit, packets_on,
};
use crate::pcapng::time::Timestamp;
use crate::pcapng::types::{InterfaceInfo, InterfaceStats, PacketSummaryView};

verus! {

/// Every packet a filter keeps meets its criteria, and every packet that
/// meets them is kept.
pub proof fn law_filter_keeps_exactly_matching(packets: Seq<PacketSummaryView>, filter: PacketFilter)
    ensures
        forall|i: int| 0 <= i < filtered(packets, filter).len() ==> passes(filter, #[trigger] filtered(packets, filter)[i]),
        forall|i: int| 0 <= i < packets.len() && passes(filter, packets[i]) ==> #[trigger] filtered(packets, filter).contains(packets[i]),
        filtered(packets, filter).len() <= packets.len(),
{
    broadcast use vstd::seq_lib::group_filter_ensures;
    let pred = |p: PacketSummaryView| passes(filter, p);
    assert forall|i: int| 0 <= i < filtered(packets, filter).len() implies passes(filter, #[trigger] filtered(packets, filter)[i]) by {
        assert(pred(packets.filter(pred)[i]));
    }
    assert forall|i: int| 0 <= i < packets.len() && passes(filter, packets[i]) implies #[trigger] filtered(packets, filter).contains(packets[i]) by {
        assert(pred(packets[i]));
    }
}

proof fn lemma_filter_idempotent<A>(s: Seq<A>, pred: spec_fn(A) -> bool)
    ensures
        s.filter(pred).filter(pred) == s.filter(pred),
    decreases s.len(),
{
    reveal_with_fuel(Seq::<_>::filter, 1);
    if s.len() > 0 {
        lemma_filter_idempotent(s.drop_last(), pred);
        let sub = s.drop_last().filter(pred);
        if pred(s.last()) {
            assert(sub.push(s.last()).drop_last() =~= sub);
        }
    }
}

/// Filtering again with the same criteria keeps every packet.
pub proof fn law_filter_idempotent(packets: Seq<PacketSummaryView>, filter: PacketFilter)
    ensures
        filtered(filtered(packets, filter), filter) == filtered(packets, filter),
{
    lemma_filter_idempotent(packets, |p: PacketSummaryView| passes(filter, p));
}

proof fn lemma_filter_all<A>(s: Seq<A>, pred: spec_fn(A) -> bool)
    requires
        forall|x: A| #[trigger] pred(x),
    ensures
        s.filter(pred) == s,
    decreases s.len(),
{
    reveal_with_fuel(Seq::<_>::filter, 1);
    if s.len() > 0 {
        lemma_filter_all(s.drop_last(), pred);
        assert(s.drop_last().push(s.last()) =~= s);
    }
}

/// A filter without criteria keeps every packet.
pub proof fn law_filter_without_criteria_keeps_all(packets: Seq<PacketSummaryView>)
    ensures
        filtered(packets, PacketFilter { interface_id: None, start_time: None, end_time: None, min_size: None, max_size: None }) == packets,
{
    let filter = PacketFilter { interface_id: None, start_time: None, end_time: None, min_size: None, max_size: None };
    lemma_filter_all(packets, |p: PacketSummaryView| passes(filter, p));
}

/// The time range starts at the instant of one of the packets, ends at the
/// instant of one, and no packet lies before its start or after its end.
pub proof fn law_time_range_bounds_packets(packets: Seq<PacketSummaryView>)
    requires
        packets.len() > 0,
    ensures
        forall|i: int| 0 <= i < packets.len() ==> !(#[trigger] packets[i]).timestamp.precedes(earliest(packets)),
        forall|i: int| 0 <= i < packets.len() ==> !latest(packets).precedes((#[trigger] packets[i]).timestamp),
        exists|i: int| 0 <= i < packets.len() && (#[trigger] packets[i]).timestamp == earliest(packets),
        exists|i: int| 0 <= i < packets.len() && (#[trigger] packets[i]).timestamp == latest(packets),
    decreases packets.len(),
{
    if packets.len() > 1 {
        let rest = packets.drop_last();
        law_time_range_bounds_packets(rest);
        assert forall|i: int| 0 <= i < packets.len() implies !(#[trigger] packets[i]).timestamp.precedes(earliest(packets)) by {
            if i < packets.len() - 1 {
                assert(packets[i] == rest[i]);
            }
        }
        assert forall|i: int| 0 <= i < packets.len() implies !latest(packets).precedes((#[trigger] packets[i]).timestamp) by {
            if i < packets.len() - 1 {
                assert(packets[i] == rest[i]);
            }
        }
        let e = choose|i: int| 0 <= i < rest.len() && (#[trigger] rest[i]).timestamp == earliest(rest);
        let l = choose|i: int| 0 <= i < rest.len() && (#[trigger] rest[i]).timestamp == latest(rest);
        assert(packets[e] == rest[e]);
        assert(packets[l] == rest[l]);
        assert(packets[packets.len() - 1] == packets.last());
    } else {
        assert(packets[0].timestamp == earliest(packets));
    }
}

/// The sum of the packet counts of per-interface statistics.
pub open spec fn stats_packet_total(stats: Seq<InterfaceStats>) -> int
    decreases stats.len(),
{
    if stats.len() == 0 {
        0
    } else {
        stats_packet_total(stats.drop_last()) + stats.last().packet_count
    }
}

/// The sum of the byte counts of per-interface statistics.
pub open spec fn stats_byte_total(stats: Seq<InterfaceStats>) -> int
    decreases stats.len(),
{
    if stats.len() == 0 {
        0
    } else {
        stats_byte_total(stats.drop_last()) + stats.last().total_bytes
    }
}

proof fn lemma_totals_update(stats: Seq<InterfaceStats>, j: int, v: InterfaceStats)
    requires
        0 <= j < stats.len(),
    ensures
        stats_packet_total(stats.update(j, v)) == stats_packet_total(stats) - stats[j].packet_count + v.packet_count,
        stats_byte_total(stats.update(j, v)) == stats_byte_total(stats) - stats[j].total_bytes + v.total_bytes,
    decreases stats.len(),
{
    if j == stats.len() - 1 {
        assert(stats.update(j, v).drop_last() =~= stats.drop_last());
    } else {
        assert(stats.update(j, v).drop_last() =~= stats.drop_last().update(j, v));
        lemma_totals_update(stats.drop_last(), j, v);
    }
}

pub proof fn lemma_entry_of(stats: Seq<InterfaceStats>, id: u32)
    ensures
        -1 <= entry_of(stats, id) < stats.len(),
        entry_of(stats, id) >= 0 ==> stats[entry_of(stats, id)].interface_id == id,
        entry_of(stats, id) == -1 ==> forall|k: int| 0 <= k < stats.len() ==> (#[trigger] stats[k]).interface_id != id,
    decreases stats.len(),
{
    if stats.len() > 0 {
        lemma_entry_of(stats.drop_last(), id);
        assert forall|k: int| 0 <= k < stats.len() - 1 implies #[trigger] stats[k] == stats.drop_last()[k] by {}
    }
}

/// A prefix of the packets has no more packets or bytes on any interface
/// than all of them, and an interface never has more packets than there are.
pub proof fn lemma_interface_prefix(packets: Seq<PacketSummaryView>, k: int, id: u32)
    requires
        0 <= k <= packets.len(),
    ensures
        packets_on(packets.take(k), id) <= packets_on(packets, id),
        bytes_on(packets.take(k), id) <= bytes_on(packets, id),
        packets_on(packets, id) <= packets.len(),
        packets_on(packets, id) == 0 ==> bytes_on(packets, id) == 0,
        bytes_on(packets, id) <= total_size(packets),
    decreases packets.len(),
{
    if packets.len() > 0 {
        if k < packets.len() {
            assert(packets.take(k) =~= packets.drop_last().take(k));
            lemma_interface_prefix(packets.drop_last(), k, id);
        } else {
            assert(packets.take(k) =~= packets);
            lemma_interface_prefix(packets.drop_last(), 0, id);
        }
    }
}

/// What holds of the statistics of every prefix of the packets.
pub open spec fn stats_consistent(stats: Seq<InterfaceStats>, packets: Seq<PacketSummaryView>) -> bool {
    &&& stats_packet_total(stats) == packets.len()
    &&& stats_byte_total(stats) == total_size(packets)
    &&& forall|j: int| 0 <= j < stats.len() ==> (#[trigger] stats[j]).packet_count == packets_on(packets, stats[j].interface_id)
        && stats[j].total_bytes == bytes_on(packets, stats[j].interface_id)
    &&& forall|j: int, k: int| 0 <= j < k < stats.len() ==> (#[trigger] stats[j]).interface_id != (#[trigger] stats[k]).interface_id
    &&& forall|id: u32| #[trigger] packets_on(packets, id) > 0 ==> entry_of(stats, id) >= 0
}

/// The statistics of packets whose bytes fit per interface are consistent
/// with them.
pub proof fn lemma_stats_consistent(packets: Seq<PacketSummaryView>, interfaces: Seq<InterfaceInfo>)
    requires
        packets.len() <= usize::MAX,
        interface_bytes_fit(packets),
    ensures
        stats_consistent(interface_stats_of(packets, interfaces), packets),
    decreases packets.len(),
{
    if packets.len() > 0 {
        let rest = packets.drop_last();
        let p = packets.last();
        let pid = p.interface_id;
        assert forall|id: u32| #[trigger] bytes_on(rest, id) <= u64::MAX by {
            assert(bytes_on(packets, id) <= u64::MAX);
        }
        lemma_stats_consistent(rest, interfaces);
        let before = interface_stats_of(rest, interfaces);
        let lt = link_type_of(interfaces, pid);
        let after = count_packet(before, pid, p.captured_length, lt);
        lemma_entry_of(before, pid);
        lemma_interface_prefix(packets, packets.len() as int, pid);
        lemma_interface_prefix(rest, rest.len() as int, pid);
        assert(bytes_on(packets, pid) <= u64::MAX);
        let j = entry_of(before, pid);
        if j >= 0 {
            let old = before[j];
            let v = InterfaceStats {
                interface_id: pid,
                packet_count: (old.packet_count + 1) as usize,
                total_bytes: (old.total_bytes + p.captured_length) as u64,
                link_type: lt,
            };
            assert(after == before.update(j, v));
            lemma_totals_update(before, j, v);
            assert forall|a: int| 0 <= a < after.len() implies (#[trigger] after[a]).packet_count == packets_on(packets, after[a].interface_id)
                && after[a].total_bytes == bytes_on(packets, after[a].interface_id) by {
                if a != j {
                    assert(after[a] == before[a]);
                    assert(before[a].interface_id != pid);
                }
            }
            assert forall|id: u32| #[trigger] packets_on(packets, id) > 0 implies entry_of(after, id) >= 0 by {
                lemma_entry_of(after, id);
                if id == pid {
                    assert(after[j].interface_id == id);
                } else {
                    assert(packets_on(rest, id) > 0);
                    let k0 = entry_of(before, id);
                    lemma_entry_of(before, id);
                    assert(after[k0] == before[k0]);
                    assert(after[k0].interface_id == id);
                }
            }
        } else {
            assert(packets_on(rest, pid) == 0);
            lemma_interface_prefix(rest, 0, pid);
            let v = InterfaceStats { interface_id: pid, packet_count: 1, total_bytes: p.captured_length as u64, link_type: lt };
            assert(after == before.push(v));
            assert(after.drop_last() =~= before);
            assert forall|a: int| 0 <= a < after.len() implies (#[trigger] after[a]).packet_count == packets_on(packets, after[a].interface_id)
                && after[a].total_bytes == bytes_on(packets, after[a].interface_id) by {
                if a < before.len() {
                    assert(after[a] == before[a]);
                    assert(before[a].interface_id != pid);
                }
            }
            assert forall|a: int, b: int| 0 <= a < b < after.len() implies (#[trigger] after[a]).interface_id != (#[trigger] after[b]).interface_id by {
                if b < before.len() {
                    assert(after[a] == before[a] && after[b] == before[b]);
                } else {
                    assert(after[a] == before[a]);
                }
            }
            assert forall|id: u32| #[trigger] packets_on(packets, id) > 0 implies entry_of(after, id) >= 0 by {
                lemma_entry_of(after, id);
                if id == pid {
                    assert(after[before.len() as int].interface_id == id);
                } else {
                    assert(packets_on(rest, id) > 0);
                    let k0 = entry_of(before, id);
                    lemma_entry_of(before, id);
                    assert(after[k0] == before[k0]);
                    assert(after[k0].interface_id == id);
                }
            }
        }
    }
}

/// The per-interface statistics list each interface that has packets, once;
/// each entry's packet and byte counts are those of its interface's
/// packets; and together they add up to the number of packets and their
/// captured bytes.
pub proof fn law_interface_stats_partition_packets(packets: Seq<PacketSummaryView>, interfaces: Seq<InterfaceInfo>)
    requires
        packets.len() <= usize::MAX,
        interface_bytes_fit(packets),
    ensures
        ({
            let stats = interface_stats_of(packets, interfaces);
            &&& stats_packet_total(stats) == packets.len()
            &&& stats_byte_total(stats) == total_size(packets)
            &&& forall|j: int| 0 <= j < stats.len() ==> (#[trigger] stats[j]).packet_count == packets_on(packets, stats[j].interface_id)
                && stats[j].total_bytes == bytes_on(packets, stats[j].interface_id)
            &&& forall|j: int, k: int| 0 <= j < k < stats.len() ==> (#[trigger] stats[j]).interface_id != (#[trigger] stats[k]).interface_id
            &&& forall|i: int| 0 <= i < packets.len() ==> exists|j: int| 0 <= j < stats.len()
                && (#[trigger] stats[j]).interface_id == (#[trigger] packets[i]).interface_id
        }),
{
    lemma_stats_consistent(packets, interfaces);
    let stats = interface_stats_of(packets, interfaces);
    assert forall|i: int| 0 <= i < packets.len() implies exists|j: int| 0 <= j < stats.len()
        && (#[trigger] stats[j]).interface_id == (#[trigger] packets[i]).interface_id by {
        let id = packets[i].interface_id;
        lemma_packet_counted(packets, i);
        lemma_entry_of(stats, id);
        let j = entry_of(stats, id);
        assert(stats[j].interface_id == id);
    }
}

proof fn lemma_packet_counted(packets: Seq<PacketSummaryView>, i: int)
    requires
        0 <= i < packets.len(),
    ensures
        packets_on(packets, packets[i].interface_id) > 0,
    decreases packets.len(),
{
    if i < packets.len() - 1 {
        lemma_packet_counted(packets.drop_last(), i);
        assert(packets.drop_last()[i] == packets[i]);
    }
}

/// The sum of the counts of a list of size buckets.
pub open spec fn bucket_total(buckets: Seq<(Seq<char>, nat)>) -> nat
    decreases buckets.len(),
{
    if buckets.len() == 0 {
        0
    } else {
        bucket_total(buckets.drop_last()) + buckets.last().1
    }
}

proof fn lemma_bucket_total_ignores_empty(buckets: Seq<(Seq<char>, nat)>)
    ensures
        bucket_total(buckets.filter(|b: (Seq<char>, nat)| b.1 > 0)) == bucket_total(buckets),
    decreases buckets.len(),
{
    reveal_with_fuel(Seq::<_>::filter, 1);
    if buckets.len() > 0 {
        lemma_bucket_total_ignores_empty(buckets.drop_last());
        let sub = buckets.drop_last().filter(|b: (Seq<char>, nat)| b.1 > 0);
        if buckets.last().1 > 0 {
            assert(sub.push(buckets.last()).drop_last() =~= sub);
        }
    }
}

/// The sum over all buckets of the packets each holds.
pub open spec fn counts_over_buckets(packets: Seq<PacketSummaryView>) -> nat {
    count_sizes(packets, bucket_low(0), bucket_high(0)) + count_sizes(packets, bucket_low(1), bucket_high(1))
        + count_sizes(packets, bucket_low(2), bucket_high(2)) + count_sizes(packets, bucket_low(3), bucket_high(3))
        + count_sizes(packets, bucket_low(4), bucket_high(4)) + count_sizes(packets, bucket_low(5), bucket_high(5))
        + count_sizes(packets, bucket_low(6), bucket_high(6)) + count_sizes(packets, bucket_low(7), bucket_high(7))
}

proof fn lemma_buckets_partition(packets: Seq<PacketSummaryView>)
    ensures
        counts_over_buckets(packets) == packets.len(),
    decreases packets.len(),
{
    if packets.len() > 0 {
        lemma_buckets_partition(packets.drop_last());
    }
}

proof fn lemma_all_buckets_total(packets: Seq<PacketSummaryView>)
    ensures
        bucket_total(all_buckets(packets)) == counts_over_buckets(packets),
{
    let all = all_buckets(packets);
    assert(all.len() == BUCKET_COUNT);
    assert(all.take(0) =~= Seq::<(Seq<char>, nat)>::empty());
    assert(all.take(1).drop_last() =~= all.take(0));
    assert(all.take(2).drop_last() =~= all.take(1));
    assert(all.take(3).drop_last() =~= all.take(2));
    assert(all.take(4).drop_last() =~= all.take(3));
    assert(all.take(5).drop_last() =~= all.take(4));
    assert(all.take(6).drop_last() =~= all.take(5));
    assert(all.take(7).drop_last() =~= all.take(6));
    assert(all.take(8).drop_last() =~= all.take(7));
    assert(all.take(8) =~= all);
    assert(bucket_total(all.take(0)) == 0);
    assert(all.take(1).last() == all[0]);
    assert(all.take(2).last() == all[1]);
    assert(all.take(3).last() == all[2]);
    assert(all.take(4).last() == all[3]);
    assert(all.take(5).last() == all[4]);
    assert(all.take(6).last() == all[5]);
    assert(all.take(7).last() == all[6]);
    assert(all.take(8).last() == all[7]);
    assert(bucket_total(all.take(1)) == all[0].1);
    assert(bucket_total(all.take(2)) == all[0].1 + all[1].1);
    assert(bucket_total(all.take(3)) == all[0].1 + all[1].1 + all[2].1);
    assert(bucket_total(all.take(4)) == all[0].1 + all[1].1 + all[2].1 + all[3].1);
    assert(bucket_total(all.take(5)) == all[0].1 + all[1].1 + all[2].1 + all[3].1 + all[4].1);
    assert(bucket_total(all.take(6)) == all[0].1 + all[1].1 + all[2].1 + all[3].1 + all[4].1 + all[5].1);
    assert(bucket_total(all.take(7)) == all[0].1 + all[1].1 + all[2].1 + all[3].1 + all[4].1 + all[5].1 + all[6].1);
    assert(bucket_total(all.take(8)) == all[0].1 + all[1].1 + all[2].1 + all[3].1 + all[4].1 + all[5].1 + all[6].1 + all[7].1);
}

/// The size buckets cover every size once: the counts of the listed buckets
/// add up to the number of packets.
pub proof fn law_size_buckets_count_every_packet(packets: Seq<PacketSummaryView>)
    ensures
        bucket_total(size_buckets_of(packets)) == packets.len(),
{
    lemma_buckets_partition(packets);
    lemma_all_buckets_total(packets);
    lemma_bucket_total_ignores_empty(all_buckets(packets));
}

/// Every captured size lies between the smallest and the largest reported,
/// and both are sizes of packets.
pub proof fn law_size_extremes_bound_packets(packets: Seq<PacketSummaryView>)
    requires
        packets.len() > 0,
    ensures
        forall|i: int| 0 <= i < packets.len() ==> min_size(packets) <= (#[trigger] packets[i]).captured_length <= max_size(packets),
        exists|i: int| 0 <= i < packets.len() && (#[trigger] packets[i]).captured_length == min_size(packets),
        exists|i: int| 0 <= i < packets.len() && (#[trigger] packets[i]).captured_length == max_size(packets),
    decreases packets.len(),
{
    if packets.len() > 1 {
        let rest = packets.drop_last();
        law_size_extremes_bound_packets(rest);
        assert forall|i: int| 0 <= i < packets.len() implies min_size(packets) <= (#[trigger] packets[i]).captured_length <= max_size(packets) by {
            if i < packets.len() - 1 {
                assert(packets[i] == rest[i]);
            }
        }
        let a = choose|i: int| 0 <= i < rest.len() && (#[trigger] rest[i]).captured_length == min_size(rest);
        let b = choose|i: int| 0 <= i < rest.len() && (#[trigger] rest[i]).captured_length == max_size(rest);
        assert(packets[a] == rest[a]);
        assert(packets[b] == rest[b]);
        assert(packets[packets.len() - 1] == packets.last());
    } else {
        assert(packets[0].captured_length == min_size(packets));
    }
}


/// The number of packets whose captured size lies in `[low, high]`.
pub open spec fn sized_between(packets: Seq<PacketSummaryView>, low: u32, high: u32) -> nat {
    packets.filter(|p: PacketSummaryView| low <= p.captured_length <= high).len()
}

/// Whether the size buckets of `packets` list a bucket with this label and
/// count.
pub open spec fn lists_bucket(packets: Seq<PacketSummaryView>, label: Seq<char>, count: nat) -> bool {
    exists|j: int| 0 <= j < size_buckets_of(packets).len() && #[trigger] size_buckets_of(packets)[j] == (label, count)
}

proof fn lemma_count_sizes_is_filter(packets: Seq<PacketSummaryView>, low: u32, high: u32)
    ensures
        count_sizes(packets, low, high) == sized_between(packets, low, high),
    decreases packets.len(),
{
    reveal_with_fuel(Seq::<_>::filter, 1);
    if packets.len() > 0 {
        lemma_count_sizes_is_filter(packets.drop_last(), low, high);
    }
}

proof fn lemma_label_chars(k: int)
    requires
        0 <= k < BUCKET_COUNT,
    ensures
        bucket_label(k).len() >= 2,
        bucket_label(k)[0] == (if k == 0 { '0' } else if k == 1 { '6' } else if k == 2 { '1' } else if k == 3 { '2' }
            else if k == 4 { '5' } else if k == 5 { '1' } else if k == 6 { '1' } else { '9' }),
        bucket_label(k)[1] == (if k == 0 { '-' } else if k == 1 { '5' } else if k == 2 { '2' } else if k == 3 { '5' }
            else if k == 4 { '1' } else if k == 5 { '0' } else if k == 6 { '5' } else { '0' }),
{
    reveal_strlit("0-64 bytes");
    reveal_strlit("65-128 bytes");
    reveal_strlit("129-256 bytes");
    reveal_strlit("257-512 bytes");
    reveal_strlit("513-1024 bytes");
    reveal_strlit("1025-1518 bytes");
    reveal_strlit("1519-9000 bytes");
    reveal_strlit("9001+ bytes");
}

proof fn lemma_labels_distinct(k1: int, k2: int)
    requires
        0 <= k1 < BUCKET_COUNT,
        0 <= k2 < BUCKET_COUNT,
        bucket_label(k1) == bucket_label(k2),
    ensures
        k1 == k2,
{
    lemma_label_chars(k1);
    lemma_label_chars(k2);
}

proof fn lemma_filter_from<A>(s: Seq<A>, pred: spec_fn(A) -> bool, j: int)
    requires
        0 <= j < s.filter(pred).len(),
    ensures
        exists|m: int| 0 <= m < s.len() && s[m] == s.filter(pred)[j],
    decreases s.len(),
{
    reveal_with_fuel(Seq::<_>::filter, 1);
    if s.len() > 0 {
        let rest = s.drop_last().filter(pred);
        if j < rest.len() {
            lemma_filter_from(s.drop_last(), pred, j);
            let m = choose|m: int| 0 <= m < s.drop_last().len() && s.drop_last()[m] == rest[j];
            assert(s[m] == s.drop_last()[m]);
        } else {
            assert(s[s.len() - 1] == s.filter(pred)[j]);
        }
    }
}

proof fn lemma_listed_bucket_range(packets: Seq<PacketSummaryView>, j: int, k: int)
    requires
        0 <= j < size_buckets_of(packets).len(),
        0 <= k < BUCKET_COUNT,
        size_buckets_of(packets)[j].0 == bucket_label(k),
    ensures
        size_buckets_of(packets)[j].1 == sized_between(packets, bucket_low(k), bucket_high(k)),
        size_buckets_of(packets)[j].1 > 0,
{
    broadcast use vstd::seq_lib::group_filter_ensures;
    let all = all_buckets(packets);
    let nonempty = |b: (Seq<char>, nat)| b.1 > 0;
    let b = size_buckets_of(packets)[j];
    lemma_filter_from(all, nonempty, j);
    let m = choose|m: int| 0 <= m < all.len() && all[m] == b;
    assert(nonempty(all.filter(nonempty)[j]));
    lemma_labels_distinct(m, k);
    lemma_count_sizes_is_filter(packets, bucket_low(k), bucket_high(k));
    assert(nonempty(all.filter(nonempty)[j]));
}

proof fn lemma_nonempty_bucket_listed(packets: Seq<PacketSummaryView>, k: int)
    requires
        0 <= k < BUCKET_COUNT,
        sized_between(packets, bucket_low(k), bucket_high(k)) > 0,
    ensures
        lists_bucket(packets, bucket_label(k), sized_between(packets, bucket_low(k), bucket_high(k))),
{
    let all = all_buckets(packets);
    let nonempty = |b: (Seq<char>, nat)| b.1 > 0;
    lemma_count_sizes_is_filter(packets, bucket_low(k), bucket_high(k));
    all.lemma_filter_contains(nonempty, k);
    let s = all.filter(nonempty);
    let j = choose|j: int| 0 <= j < s.len() && s[j] == all[k];
    assert(size_buckets_of(packets)[j] == (bucket_label(k), sized_between(packets, bucket_low(k), bucket_high(k))));
}

/// Each listed size bucket counts exactly the packets whose captured size
/// lies in the range its label names, and holds at least one; and every
/// range that holds a packet is listed.
pub proof fn law_bucket_labels_name_their_ranges(packets: Seq<PacketSummaryView>)
    ensures
        forall|j: int| 0 <= j < size_buckets_of(packets).len() ==> {
            let b = #[trigger] size_buckets_of(packets)[j];
            &&& b.1 > 0
            &&& b.0 == "0-64 bytes"@ ==> b.1 == sized_between(packets, 0, 64)
            &&& b.0 == "65-128 bytes"@ ==> b.1 == sized_between(packets, 65, 128)
            &&& b.0 == "129-256 bytes"@ ==> b.1 == sized_between(packets, 129, 256)
            &&& b.0 == "257-512 bytes"@ ==> b.1 == sized_between(packets, 257, 512)
            &&& b.0 == "513-1024 bytes"@ ==> b.1 == sized_between(packets, 513, 1024)
            &&& b.0 == "1025-1518 bytes"@ ==> b.1 == sized_between(packets, 1025, 1518)
            &&& b.0 == "1519-9000 bytes"@ ==> b.1 == sized_between(packets, 1519, 9000)
            &&& b.0 == "9001+ bytes"@ ==> b.1 == sized_between(packets, 9001, 0xFFFF_FFFF)
        },
        sized_between(packets, 0, 64) > 0 ==> lists_bucket(packets, "0-64 bytes"@, sized_between(packets, 0, 64)),
        sized_between(packets, 65, 128) > 0 ==> lists_bucket(packets, "65-128 bytes"@, sized_between(packets, 65, 128)),
        sized_between(packets, 129, 256) > 0 ==> lists_bucket(packets, "129-256 bytes"@, sized_between(packets, 129, 256)),
        sized_between(packets, 257, 512) > 0 ==> lists_bucket(packets, "257-512 bytes"@, sized_between(packets, 257, 512)),
        sized_between(packets, 513, 1024) > 0 ==> lists_bucket(packets, "513-1024 bytes"@, sized_between(packets, 513, 1024)),
        sized_between(packets, 1025, 1518) > 0 ==> lists_bucket(packets, "1025-1518 bytes"@, sized_between(packets, 1025, 1518)),
        sized_between(packets, 1519, 9000) > 0 ==> lists_bucket(packets, "1519-9000 bytes"@, sized_between(packets, 1519, 9000)),
        sized_between(packets, 9001, 0xFFFF_FFFF) > 0 ==> lists_bucket(packets, "9001+ bytes"@, sized_between(packets, 9001, 0xFFFF_FFFF)),
{
    assert forall|j: int| 0 <= j < size_buckets_of(packets).len() implies {
        let b = #[trigger] size_buckets_of(packets)[j];
        &&& b.1 > 0
        &&& b.0 == "0-64 bytes"@ ==> b.1 == sized_between(packets, 0, 64)
        &&& b.0 == "65-128 bytes"@ ==> b.1 == sized_between(packets, 65, 128)
        &&& b.0 == "129-256 bytes"@ ==> b.1 == sized_between(packets, 129, 256)
        &&& b.0 == "257-512 bytes"@ ==> b.1 == sized_between(packets, 257, 512)
        &&& b.0 == "513-1024 bytes"@ ==> b.1 == sized_between(packets, 513, 1024)
        &&& b.0 == "1025-1518 bytes"@ ==> b.1 == sized_between(packets, 1025, 1518)
        &&& b.0 == "1519-9000 bytes"@ ==> b.1 == sized_between(packets, 1519, 9000)
        &&& b.0 == "9001+ bytes"@ ==> b.1 == sized_between(packets, 9001, 0xFFFF_FFFF)
    } by {
        let b = size_buckets_of(packets)[j];
        let all = all_buckets(packets);
        let nonempty = |x: (Seq<char>, nat)| x.1 > 0;
        lemma_filter_from(all, nonempty, j);
        let m = choose|m: int| 0 <= m < all.len() && all[m] == b;
        lemma_listed_bucket_range(packets, j, m);
        if b.0 == "0-64 bytes"@ { lemma_labels_distinct(m, 0); }
        if b.0 == "65-128 bytes"@ { lemma_labels_distinct(m, 1); }
        if b.0 == "129-256 bytes"@ { lemma_labels_distinct(m, 2); }
        if b.0 == "257-512 bytes"@ { lemma_labels_distinct(m, 3); }
        if b.0 == "513-1024 bytes"@ { lemma_labels_distinct(m, 4); }
        if b.0 == "1025-1518 bytes"@ { lemma_labels_distinct(m, 5); }
        if b.0 == "1519-9000 bytes"@ { lemma_labels_distinct(m, 6); }
        if b.0 == "9001+ bytes"@ { lemma_labels_distinct(m, 7); }
    }
    if sized_between(packets, 0, 64) > 0 { lemma_nonempty_bucket_listed(packets, 0); }
    if sized_between(packets, 65, 128) > 0 { lemma_nonempty_bucket_listed(packets, 1); }
    if sized_between(packets, 129, 256) > 0 { lemma_nonempty_bucket_listed(packets, 2); }
    if sized_between(packets, 257, 512) > 0 { lemma_nonempty_bucket_listed(packets, 3); }
    if sized_between(packets, 513, 1024) > 0 { lemma_nonempty_bucket_listed(packets, 4); }
    if sized_between(packets, 1025, 1518) > 0 { lemma_nonempty_bucket_listed(packets, 5); }
    if sized_between(packets, 1519, 9000) > 0 { lemma_nonempty_bucket_listed(packets, 6); }
    if sized_between(packets, 9001, 0xFFFF_FFFF) > 0 { lemma_nonempty_bucket_listed(packets, 7); }
}

/// Every packet a filter keeps meets each given criterion on its own: it is
/// on the given interface, not before the given start, not after the given
/// end, at least the given minimum size and at most the given maximum size;
/// and every packet that meets them all is kept.
pub proof fn law_filter_applies_each_criterion(packets: Seq<PacketSummaryView>, filter: PacketFilter)
    ensures
        forall|i: int| 0 <= i < filtered(packets, filter).len() ==> {
            let p = #[trigger] filtered(packets, filter)[i];
            &&& filter.interface_id matches Some(id) ==> p.interface_id == id
            &&& filter.start_time matches Some(start) ==> !p.timestamp.precedes(start)
            &&& filter.end_time matches Some(end) ==> !end.precedes(p.timestamp)
            &&& filter.min_size matches Some(min) ==> p.captured_length >= min
            &&& filter.max_size matches Some(max) ==> p.captured_length <= max
        },
        forall|i: int| 0 <= i < packets.len() && {
            let p = packets[i];
            &&& filter.interface_id matches Some(id) ==> p.interface_id == id
            &&& filter.start_time matches Some(start) ==> !p.timestamp.precedes(start)
            &&& filter.end_time matches Some(end) ==> !end.precedes(p.timestamp)
            &&& filter.min_size matches Some(min) ==> p.captured_length >= min
            &&& filter.max_size matches Some(max) ==> p.captured_length <= max
        } ==> #[trigger] filtered(packets, filter).contains(packets[i]),
{
    law_filter_keeps_exactly_matching(packets, filter);
}

} // verus!
