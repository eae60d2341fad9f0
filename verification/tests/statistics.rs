use pcapng_mcp_server::pcapng::analyzer::PcapNGAnalyzer;
use pcapng_mcp_server::pcapng::time::Timestamp;
use pcapng_mcp_server::pcapng::types::{link_type_to_name, InterfaceInfo, PacketSummary};

fn packet(iface: u32, secs: i64, nanos: u32, size: u32) -> PacketSummary {
    PacketSummary {
        interface_id: iface,
        timestamp: Timestamp { secs, nanos },
        captured_length: size,
        original_length: size + 4,
        data_preview: Some(format!("{:02x}", size % 256)),
        comment: None,
    }
}

fn interface(id: u32, link_type: u16) -> InterfaceInfo {
    InterfaceInfo {
        id,
        name: None,
        description: None,
        link_type,
        link_type_name: link_type_to_name(link_type),
        snap_length: 65535,
        timestamp_resolution: 6,
        filter: None,
    }
}

fn sample() -> Vec<PacketSummary> {
    vec![
        packet(0, 100, 0, 60),
        packet(1, 90, 500, 1500),
        packet(0, 130, 250_000_000, 64),
        packet(2, 95, 0, 9001),
        packet(1, 110, 0, 129),
    ]
}

#[test]
fn link_type_names() {
    assert_eq!(link_type_to_name(1), "Ethernet");
    assert_eq!(link_type_to_name(105), "IEEE 802.11");
    assert_eq!(link_type_to_name(127), "IEEE 802.11 Radio");
    assert_eq!(link_type_to_name(9), "PPP");
    assert_eq!(link_type_to_name(12), "Raw IP");
    assert_eq!(link_type_to_name(113), "Linux cooked");
    assert_eq!(link_type_to_name(0), "Unknown (0)");
    assert_eq!(link_type_to_name(42), "Unknown (42)");
    assert_eq!(link_type_to_name(65535), "Unknown (65535)");
}

#[test]
fn filter_by_interface_and_size() {
    let packets = sample();
    let kept = PcapNGAnalyzer::filter_packets(&packets, Some(0), None, None, Some(61), None);
    assert_eq!(kept.len(), 1);
    assert_eq!(kept[0].captured_length, 64);
    assert_eq!(kept[0].data_preview.as_deref(), Some("40"));
}

#[test]
fn filter_by_time_window_is_inclusive() {
    let packets = sample();
    let start = Timestamp { secs: 95, nanos: 0 };
    let end = Timestamp { secs: 110, nanos: 0 };
    let kept = PcapNGAnalyzer::filter_packets(&packets, None, Some(start), Some(end), None, None);
    let secs: Vec<i64> = kept.iter().map(|p| p.timestamp.secs).collect();
    assert_eq!(secs, vec![100, 95, 110]);
}

#[test]
fn filter_by_max_size() {
    let packets = sample();
    let kept = PcapNGAnalyzer::filter_packets(&packets, None, None, None, None, Some(129));
    let sizes: Vec<u32> = kept.iter().map(|p| p.captured_length).collect();
    assert_eq!(sizes, vec![60, 64, 129]);
}

#[test]
fn filter_without_criteria_keeps_everything() {
    let packets = sample();
    let kept = PcapNGAnalyzer::filter_packets(&packets, None, None, None, None, None);
    assert_eq!(kept.len(), packets.len());
    let again = PcapNGAnalyzer::filter_packets(&kept, None, None, None, None, None);
    assert_eq!(again.len(), kept.len());
}

#[test]
fn filtering_twice_changes_nothing() {
    let packets = sample();
    let once = PcapNGAnalyzer::filter_packets(&packets, Some(1), None, None, Some(100), None);
    let twice = PcapNGAnalyzer::filter_packets(&once, Some(1), None, None, Some(100), None);
    assert_eq!(once.len(), 2);
    assert_eq!(twice.len(), once.len());
}

#[test]
fn time_range_spans_earliest_to_latest() {
    let packets = sample();
    let range = PcapNGAnalyzer::calculate_time_range(&packets).unwrap();
    assert_eq!(range.start, Timestamp { secs: 90, nanos: 500 });
    assert_eq!(range.end, Timestamp { secs: 130, nanos: 250_000_000 });
    assert_eq!(range.duration_millis, 40_249);
    for p in &packets {
        assert!(!p.timestamp.is_before(&range.start));
        assert!(!range.end.is_before(&p.timestamp));
    }
}

#[test]
fn time_range_of_no_packets_is_none() {
    assert_eq!(PcapNGAnalyzer::calculate_time_range(&[]), None);
}

#[test]
fn interface_stats_in_order_of_first_packet() {
    let packets = sample();
    let interfaces = vec![interface(0, 1), interface(1, 105), interface(1, 9)];
    let stats = PcapNGAnalyzer::calculate_interface_stats(&packets, &interfaces);
    assert_eq!(stats.len(), 3);
    assert_eq!((stats[0].interface_id, stats[0].packet_count, stats[0].total_bytes, stats[0].link_type), (0, 2, 124, 1));
    assert_eq!((stats[1].interface_id, stats[1].packet_count, stats[1].total_bytes, stats[1].link_type), (1, 2, 1629, 105));
    assert_eq!((stats[2].interface_id, stats[2].packet_count, stats[2].total_bytes, stats[2].link_type), (2, 1, 9001, 0));
    let counted: usize = stats.iter().map(|s| s.packet_count).sum();
    assert_eq!(counted, packets.len());
    let bytes: u64 = stats.iter().map(|s| s.total_bytes).sum();
    assert_eq!(bytes, packets.iter().map(|p| p.captured_length as u64).sum::<u64>());
}

#[test]
fn size_distribution_lists_occupied_buckets() {
    let packets = sample();
    let d = PcapNGAnalyzer::calculate_size_distribution(&packets);
    assert_eq!(d.min_size, 60);
    assert_eq!(d.max_size, 9001);
    assert_eq!(d.total_size, 60 + 1500 + 64 + 9001 + 129);
    assert_eq!(d.packet_count, 5);
    let buckets: Vec<(&str, usize)> = d.size_buckets.iter().map(|b| (b.range.as_str(), b.count)).collect();
    assert_eq!(
        buckets,
        vec![("0-64 bytes", 2), ("129-256 bytes", 1), ("1025-1518 bytes", 1), ("9001+ bytes", 1)]
    );
    let total: usize = d.size_buckets.iter().map(|b| b.count).sum();
    assert_eq!(total, packets.len());
}

#[test]
fn size_distribution_bucket_edges() {
    let packets = vec![
        packet(0, 1, 0, 64),
        packet(0, 1, 0, 65),
        packet(0, 1, 0, 1518),
        packet(0, 1, 0, 1519),
        packet(0, 1, 0, 9000),
        packet(0, 1, 0, u32::MAX),
    ];
    let d = PcapNGAnalyzer::calculate_size_distribution(&packets);
    let buckets: Vec<(&str, usize)> = d.size_buckets.iter().map(|b| (b.range.as_str(), b.count)).collect();
    assert_eq!(
        buckets,
        vec![("0-64 bytes", 1), ("65-128 bytes", 1), ("1025-1518 bytes", 1), ("1519-9000 bytes", 2), ("9001+ bytes", 1)]
    );
}

#[test]
fn size_distribution_of_no_packets_is_empty() {
    let d = PcapNGAnalyzer::calculate_size_distribution(&[]);
    assert_eq!((d.min_size, d.max_size, d.total_size, d.packet_count), (0, 0, 0, 0));
    assert!(d.size_buckets.is_empty());
}

#[test]
fn statistics_assemble_all_parts() {
    let packets = sample();
    let interfaces = vec![interface(0, 1), interface(1, 105)];
    let st = PcapNGAnalyzer::generate_statistics("/tmp/x.pcapng".to_string(), 4096, &packets, 1, &interfaces);
    assert_eq!(st.file_path, "/tmp/x.pcapng");
    assert_eq!(st.file_size, 4096);
    assert_eq!(st.total_packets, 5);
    assert_eq!(st.total_sections, 1);
    assert_eq!(st.total_interfaces, 2);
    assert_eq!(st.time_range.unwrap().duration_millis, 40_249);
    assert_eq!(st.interface_stats.len(), 3);
    assert_eq!(st.packet_size_distribution.size_buckets.len(), 4);
}
