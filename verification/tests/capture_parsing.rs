use pcapng_mcp_server::pcapng::parser::{parse_capture, parse_capture_on, read_metadata, timing_from_info, PcapNGParser};
use pcapng_mcp_server::pcapng::time::Timestamp;
use pcapng_mcp_server::utils::errors::PcapNGError;

fn push_u32(out: &mut Vec<u8>, v: u32, big: bool) {
    if big {
        out.extend_from_slice(&v.to_be_bytes());
    } else {
        out.extend_from_slice(&v.to_le_bytes());
    }
}

fn push_u16(out: &mut Vec<u8>, v: u16, big: bool) {
    if big {
        out.extend_from_slice(&v.to_be_bytes());
    } else {
        out.extend_from_slice(&v.to_le_bytes());
    }
}

fn shb(big: bool) -> Vec<u8> {
    let mut b = Vec::new();
    push_u32(&mut b, 0x0A0D0D0A, big);
    push_u32(&mut b, 28, big);
    push_u32(&mut b, 0x1A2B3C4D, big);
    push_u16(&mut b, 1, big);
    push_u16(&mut b, 0, big);
    if big {
        b.extend_from_slice(&(-1i64).to_be_bytes());
    } else {
        b.extend_from_slice(&(-1i64).to_le_bytes());
    }
    push_u32(&mut b, 28, big);
    b
}

fn idb(link: u16, snap: u32, big: bool) -> Vec<u8> {
    let mut b = Vec::new();
    push_u32(&mut b, 1, big);
    push_u32(&mut b, 20, big);
    push_u16(&mut b, link, big);
    push_u16(&mut b, 0, big);
    push_u32(&mut b, snap, big);
    push_u32(&mut b, 20, big);
    b
}

fn options(opts: &[(u16, &[u8])], big: bool) -> Vec<u8> {
    let mut b = Vec::new();
    for (code, value) in opts {
        push_u16(&mut b, *code, big);
        push_u16(&mut b, value.len() as u16, big);
        b.extend_from_slice(value);
        b.resize(b.len() + (4 - value.len() % 4) % 4, 0);
    }
    push_u16(&mut b, 0, big);
    push_u16(&mut b, 0, big);
    b
}

fn shb_with(opts: &[(u16, &[u8])], big: bool) -> Vec<u8> {
    let o = options(opts, big);
    let len = (28 + o.len()) as u32;
    let mut b = Vec::new();
    push_u32(&mut b, 0x0A0D0D0A, big);
    push_u32(&mut b, len, big);
    push_u32(&mut b, 0x1A2B3C4D, big);
    push_u16(&mut b, 1, big);
    push_u16(&mut b, 0, big);
    b.extend_from_slice(&(-1i64).to_le_bytes());
    b.extend_from_slice(&o);
    push_u32(&mut b, len, big);
    b
}

fn idb_with(link: u16, snap: u32, opts: &[(u16, &[u8])], big: bool) -> Vec<u8> {
    let o = options(opts, big);
    let len = (20 + o.len()) as u32;
    let mut b = Vec::new();
    push_u32(&mut b, 1, big);
    push_u32(&mut b, len, big);
    push_u16(&mut b, link, big);
    push_u16(&mut b, 0, big);
    push_u32(&mut b, snap, big);
    b.extend_from_slice(&o);
    push_u32(&mut b, len, big);
    b
}

fn epb(micros: u64, data: &[u8], big: bool) -> Vec<u8> {
    epb_on(0, micros, data, big)
}

fn epb_on(interface: u32, micros: u64, data: &[u8], big: bool) -> Vec<u8> {
    let padded = (data.len() + 3) / 4 * 4;
    let len = (32 + padded) as u32;
    let mut b = Vec::new();
    push_u32(&mut b, 6, big);
    push_u32(&mut b, len, big);
    push_u32(&mut b, interface, big);
    push_u32(&mut b, (micros >> 32) as u32, big);
    push_u32(&mut b, micros as u32, big);
    push_u32(&mut b, data.len() as u32, big);
    push_u32(&mut b, data.len() as u32, big);
    b.extend_from_slice(data);
    b.resize(b.len() + padded - data.len(), 0);
    push_u32(&mut b, len, big);
    b
}

fn spb(data: &[u8], big: bool) -> Vec<u8> {
    let padded = (data.len() + 3) / 4 * 4;
    let len = (16 + padded) as u32;
    let mut b = Vec::new();
    push_u32(&mut b, 3, big);
    push_u32(&mut b, len, big);
    push_u32(&mut b, data.len() as u32, big);
    b.extend_from_slice(data);
    b.resize(b.len() + padded - data.len(), 0);
    push_u32(&mut b, len, big);
    b
}

fn sample_pcapng(big: bool) -> Vec<u8> {
    let mut f = shb(big);
    f.extend(idb(1, 65535, big));
    f.extend(epb(100_000_000, &[1, 2, 3, 4, 5], big));
    f.extend(epb(105_000_000, &[6; 60], big));
    f.extend(spb(&[7; 8], big));
    f.extend(epb(119_500_000, &[8; 3], big));
    f
}

fn pcap_header(big: bool) -> Vec<u8> {
    let mut b = Vec::new();
    push_u32(&mut b, 0xA1B2C3D4, big);
    push_u16(&mut b, 2, big);
    push_u16(&mut b, 4, big);
    push_u32(&mut b, 0, big);
    push_u32(&mut b, 0, big);
    push_u32(&mut b, 65535, big);
    push_u32(&mut b, 1, big);
    b
}

fn pcap_record(data: &[u8], big: bool) -> Vec<u8> {
    pcap_record_at(1_600_000_000, data, big)
}

fn pcap_record_at(secs: u32, data: &[u8], big: bool) -> Vec<u8> {
    let mut b = Vec::new();
    push_u32(&mut b, secs, big);
    push_u32(&mut b, 0, big);
    push_u32(&mut b, data.len() as u32, big);
    push_u32(&mut b, data.len() as u32, big);
    b.extend_from_slice(data);
    b
}

const NOW: Timestamp = Timestamp { secs: 1_700_000_000, nanos: 5 };

fn parse_error_text(r: Result<pcapng_mcp_server::pcapng::parser::FileInfo, PcapNGError>) -> String {
    match r {
        Err(PcapNGError::ParseError(m)) => m,
        other => panic!("expected a parse error, got {:?}", other),
    }
}

#[test]
fn pcapng_summary_counts_packets_and_interfaces() {
    let data = sample_pcapng(false);
    let info = parse_capture(&data, NOW).unwrap();
    assert_eq!(info.file_type, "PcapNG");
    assert_eq!(info.file_size, data.len() as u64);
    assert_eq!(info.total_packets, 4);
    assert_eq!(info.interfaces.len(), 1);
    assert_eq!(info.interfaces[0].id, 0);
    assert_eq!(info.interfaces[0].link_type, "ETHERNET");
    assert_eq!(info.interfaces[0].snap_len, 65535);
    assert_eq!(info.interfaces[0].packet_count, 3);
    assert_eq!(info.interfaces[0].name, None);
    assert_eq!(info.first_packet_time, Some(Timestamp { secs: 100, nanos: 0 }));
    assert_eq!(info.last_packet_time, Some(Timestamp { secs: 119, nanos: 0 }));
    assert_eq!(info.capture_duration, Some(19));
}

#[test]
fn pcapng_big_endian_sections_are_read() {
    let data = sample_pcapng(true);
    let info = parse_capture(&data, NOW).unwrap();
    assert_eq!(info.total_packets, 4);
    assert_eq!(info.interfaces.len(), 1);
    assert_eq!(info.interfaces[0].snap_len, 65535);
    assert_eq!(info.capture_duration, Some(19));
}

#[test]
fn pcapng_unknown_link_type_uses_pcap_parser_name() {
    let mut data = shb(false);
    data.extend(idb(999, 100, false));
    let info = parse_capture(&data, NOW).unwrap();
    assert_eq!(info.interfaces[0].link_type, "Linktype(999 / 0x3e7)");
    assert_eq!(info.total_packets, 0);
    assert_eq!(info.first_packet_time, None);
    assert_eq!(info.capture_duration, None);
}

#[test]
fn pcapng_single_packet_has_no_duration() {
    let mut data = shb(false);
    data.extend(idb(1, 100, false));
    data.extend(epb(42_000_000, &[0; 4], false));
    let info = parse_capture(&data, NOW).unwrap();
    assert_eq!(info.first_packet_time, Some(Timestamp { secs: 42, nanos: 0 }));
    assert_eq!(info.last_packet_time, info.first_packet_time);
    assert_eq!(info.capture_duration, None);
}

#[test]
fn pcapng_out_of_order_packets_have_no_duration() {
    let mut data = shb(false);
    data.extend(epb(50_000_000, &[0; 4], false));
    data.extend(epb(40_000_000, &[0; 4], false));
    let info = parse_capture(&data, NOW).unwrap();
    assert_eq!(info.first_packet_time, Some(Timestamp { secs: 50, nanos: 0 }));
    assert_eq!(info.last_packet_time, Some(Timestamp { secs: 40, nanos: 0 }));
    assert_eq!(info.capture_duration, None);
}

#[test]
fn unrepresentable_packet_time_takes_fallback_instant() {
    let mut data = shb(false);
    data.extend(epb(0x7FFF_FFFF_FFFF_FFFF, &[0; 4], false));
    let info = parse_capture(&data, NOW).unwrap();
    assert_eq!(info.first_packet_time, Some(NOW));
}

#[test]
fn negative_tick_count_rounds_toward_zero() {
    let mut data = shb(false);
    // 2^64 - 1_500_000 ticks read as a signed count is -1.5 s.
    data.extend(epb(u64::MAX - 1_499_999, &[0; 4], false));
    let info = parse_capture(&data, NOW).unwrap();
    assert_eq!(info.first_packet_time, Some(Timestamp { secs: -1, nanos: 0 }));
}

#[test]
fn short_input_cannot_hold_the_magic() {
    let r = parse_capture(&[0x0A, 0x0D], NOW);
    assert_eq!(parse_error_text(r), "Cannot read file header: failed to fill whole buffer");
}

#[test]
fn unknown_magic_is_refused() {
    let r = parse_capture(&[1, 2, 3, 4, 5, 6, 7, 8], NOW);
    assert_eq!(parse_error_text(r), "Unknown file format");
}

#[test]
fn pcapng_magic_without_valid_section_header_is_refused() {
    let mut data = shb(false);
    data[8] = 0; // spoil the byte-order magic
    let r = parse_capture(&data, NOW);
    assert_eq!(parse_error_text(r), "Cannot create PcapNG reader: HeaderNotRecognized");
}

#[test]
fn truncated_pcapng_block_is_unexpected_eof() {
    let mut data = sample_pcapng(false);
    data.truncate(data.len() - 3);
    let r = parse_capture(&data, NOW);
    assert_eq!(parse_error_text(r), "Parse error: UnexpectedEof");
}

#[test]
fn short_process_information_block_is_refused() {
    let mut data = shb(false);
    push_u32(&mut data, 0x8000_0001, false);
    push_u32(&mut data, 8, false);
    push_u32(&mut data, 8, false);
    let r = parse_capture(&data, NOW);
    assert_eq!(parse_error_text(r), "Parse error: BufferTooSmall");
}

#[test]
fn malformed_block_reports_decoder_error() {
    let mut data = shb(false);
    // an interface description block whose trailing length differs
    push_u32(&mut data, 1, false);
    push_u32(&mut data, 20, false);
    push_u32(&mut data, 1, false);
    push_u32(&mut data, 100, false);
    push_u32(&mut data, 24, false);
    let r = parse_capture(&data, NOW);
    let text = parse_error_text(r);
    assert!(text.starts_with("Parse error: NomError("), "{}", text);
}

#[test]
fn pcap_counts_its_records() {
    let mut data = pcap_header(false);
    data.extend(pcap_record(&[1; 10], false));
    data.extend(pcap_record(&[2; 20], false));
    let info = parse_capture(&data, NOW).unwrap();
    assert_eq!(info.file_type, "PCAP");
    assert_eq!(info.total_packets, 2);
    assert_eq!(info.file_size, data.len() as u64);
    assert_eq!(info.interfaces.len(), 1);
    assert_eq!(info.interfaces[0].description.as_deref(), Some("Legacy PCAP interface"));
    assert_eq!(info.interfaces[0].link_type, "Unknown");
    assert_eq!(info.interfaces[0].snap_len, 65535);
    assert_eq!(info.capture_duration, None);
    assert_eq!(info.first_packet_time, Some(Timestamp { secs: 1_600_000_000, nanos: 0 }));
    assert_eq!(info.last_packet_time, Some(Timestamp { secs: 1_600_000_000, nanos: 0 }));
}

#[test]
fn pcap_reports_first_and_last_record_times() {
    let mut data = pcap_header(false);
    data.extend(pcap_record_at(1_600_000_000, &[1; 10], false));
    data.extend(pcap_record_at(1_600_000_004, &[2; 10], false));
    data.extend(pcap_record_at(1_600_000_009, &[3; 10], false));
    let info = parse_capture(&data, NOW).unwrap();
    assert_eq!(info.total_packets, 3);
    assert_eq!(info.first_packet_time, Some(Timestamp { secs: 1_600_000_000, nanos: 0 }));
    assert_eq!(info.last_packet_time, Some(Timestamp { secs: 1_600_000_009, nanos: 0 }));
    assert_eq!(info.capture_duration, Some(9));
    let other = parse_capture_on(&data, Some(1)).unwrap();
    assert_eq!(other.total_packets, 0);
    assert_eq!(other.first_packet_time, None);
    let zero = parse_capture_on(&data, Some(0)).unwrap();
    assert_eq!(zero.total_packets, 3);
}

#[test]
fn big_endian_pcap_is_read() {
    let mut data = pcap_header(true);
    data.extend(pcap_record(&[1; 7], true));
    let info = parse_capture(&data, NOW).unwrap();
    assert_eq!(info.total_packets, 1);
}

#[test]
fn empty_pcap_has_no_packets() {
    let data = pcap_header(false);
    let info = parse_capture(&data, NOW).unwrap();
    assert_eq!(info.total_packets, 0);
    assert_eq!(info.first_packet_time, None);
}

#[test]
fn truncated_pcap_header_is_refused() {
    let data = pcap_header(false);
    let r = parse_capture(&data[..10], NOW);
    assert_eq!(parse_error_text(r), "Cannot create PCAP reader: Incomplete(2)");
}

#[test]
fn truncated_pcap_record_is_unexpected_eof() {
    let mut data = pcap_header(false);
    data.extend(pcap_record(&[1; 10], false));
    data.truncate(data.len() - 1);
    let r = parse_capture(&data, NOW);
    assert_eq!(parse_error_text(r), "Parse error: UnexpectedEof");
}

#[test]
fn nanosecond_pcap_is_read() {
    for big in [false, true] {
        let mut data = pcap_header(big);
        let magic = if big { 0xA1B2_3C4Du32.to_be_bytes() } else { 0xA1B2_3C4Du32.to_le_bytes() };
        data[0..4].copy_from_slice(&magic);
        data.extend(pcap_record_at(1_600_000_000, &[1; 10], big));
        data.extend(pcap_record_at(1_600_000_002, &[1; 10], big));
        let info = parse_capture(&data, NOW).unwrap();
        assert_eq!(info.file_type, "PCAP");
        assert_eq!(info.total_packets, 2);
        assert_eq!(info.capture_duration, Some(2));
    }
}

fn two_interface_capture() -> Vec<u8> {
    let mut f = shb_with(&[(1, b"first comment"), (1, b"second")], false);
    f.extend(idb_with(1, 65535, &[(2, b"eth0"), (3, b"Main uplink")], false));
    f.extend(idb_with(1, 1500, &[(3, b"Backup")], false));
    f.extend(epb_on(0, 10_000_000, &[1; 4], false));
    f.extend(epb_on(1, 12_000_000, &[2; 4], false));
    f.extend(epb_on(1, 17_000_000, &[3; 4], false));
    f.extend(epb_on(0, 20_000_000, &[4; 4], false));
    f.extend(epb_on(1, 21_000_000, &[5; 4], false));
    f
}

#[test]
fn interfaces_report_names_descriptions_and_packet_counts() {
    let data = two_interface_capture();
    let info = parse_capture(&data, NOW).unwrap();
    assert_eq!(info.total_packets, 5);
    assert_eq!(info.interfaces.len(), 2);
    assert_eq!(info.interfaces[0].name.as_deref(), Some("eth0"));
    assert_eq!(info.interfaces[0].description.as_deref(), Some("Main uplink"));
    assert_eq!(info.interfaces[0].packet_count, 2);
    assert_eq!(info.interfaces[1].name, None);
    assert_eq!(info.interfaces[1].description.as_deref(), Some("Backup"));
    assert_eq!(info.interfaces[1].snap_len, 1500);
    assert_eq!(info.interfaces[1].packet_count, 3);
}

#[test]
fn figures_for_one_interface() {
    let data = two_interface_capture();
    let one = parse_capture_on(&data, Some(1)).unwrap();
    assert_eq!(one.total_packets, 3);
    assert_eq!(one.first_packet_time, Some(Timestamp { secs: 12, nanos: 0 }));
    assert_eq!(one.last_packet_time, Some(Timestamp { secs: 21, nanos: 0 }));
    assert_eq!(one.capture_duration, Some(9));
    let zero = parse_capture_on(&data, Some(0)).unwrap();
    assert_eq!(zero.total_packets, 2);
    assert_eq!(zero.capture_duration, Some(10));
    let none = parse_capture_on(&data, Some(7)).unwrap();
    assert_eq!(none.total_packets, 0);
    assert_eq!(none.first_packet_time, None);
    let all = parse_capture_on(&data, None).unwrap();
    assert_eq!(all.total_packets, 5);
    assert_eq!(all.capture_duration, Some(11));
}

#[test]
fn metadata_keeps_section_comments_and_interface_names() {
    let data = two_interface_capture();
    let meta = read_metadata(&data).unwrap();
    assert_eq!(meta.file_comments, vec!["first comment".to_string(), "second".to_string()]);
    assert_eq!(meta.total_blocks, 8);
    assert_eq!(meta.interfaces[0].name.as_deref(), Some("eth0"));
    assert_eq!(meta.interfaces[1].packet_count, 3);
    assert!(meta.section_info.is_some());
}

#[test]
fn parser_reads_metadata_of_pcapng() {
    let data = sample_pcapng(false);
    let meta = PcapNGParser::new().get_metadata(&data).unwrap();
    assert_eq!(meta.total_blocks, 6);
    let section = meta.section_info.unwrap();
    assert_eq!(section.byte_order_magic, 0x1A2B3C4D);
    assert_eq!(section.version_major, 1);
    assert_eq!(section.version_minor, 0);
    assert_eq!(section.section_length, Some(u64::MAX));
    assert!(section.options.is_empty());
    assert_eq!(meta.interfaces.len(), 1);
    assert_eq!(meta.interfaces[0].link_type, "ETHERNET");
    assert!(meta.file_comments.is_empty());
}

#[test]
fn metadata_of_other_files_is_a_legacy_note() {
    let data = pcap_header(false);
    let meta = PcapNGParser::new().get_metadata(&data).unwrap();
    assert!(meta.section_info.is_none());
    assert!(meta.interfaces.is_empty());
    assert_eq!(meta.total_blocks, 0);
    assert_eq!(meta.file_comments, vec!["Legacy PCAP file".to_string()]);
    let meta = PcapNGParser::new().get_metadata(&[9, 9, 9, 9]).unwrap();
    assert_eq!(meta.file_comments.len(), 1);
}

#[test]
fn metadata_of_short_input_fails() {
    match PcapNGParser::new().get_metadata(&[1]) {
        Err(PcapNGError::ParseError(m)) => assert_eq!(m, "Cannot read file header: failed to fill whole buffer"),
        other => panic!("unexpected {:?}", other),
    }
}

#[test]
fn metadata_agrees_with_parse_on_interfaces() {
    let mut data = sample_pcapng(false);
    data.extend(idb(113, 2048, false));
    let parser = PcapNGParser::new();
    let info = parser.parse_file(&data).unwrap();
    let meta = parser.get_metadata(&data).unwrap();
    let listed = parser.list_interfaces(&data).unwrap();
    assert_eq!(info.interfaces.len(), 2);
    assert_eq!(meta.interfaces.len(), 2);
    assert_eq!(listed.len(), 2);
    for i in 0..2 {
        assert_eq!(info.interfaces[i].id, meta.interfaces[i].id);
        assert_eq!(info.interfaces[i].link_type, meta.interfaces[i].link_type);
        assert_eq!(info.interfaces[i].snap_len, listed[i].snap_len);
    }
    assert_eq!(meta.interfaces[1].id, 1);
    assert_eq!(meta.interfaces[1].link_type, "LINUX_SLL");
    assert!(meta.total_blocks >= info.total_packets + info.interfaces.len() as u64);
}

#[test]
fn timing_spreads_window_over_gaps() {
    let data = sample_pcapng(false);
    let parser = PcapNGParser::new();
    let timing = parser.analyze_timing(&data).unwrap();
    assert_eq!(timing.total_duration, Some(19));
    assert_eq!(timing.total_packets, 4);
    assert_eq!(timing.average_interval, 19_000_000_000 / 3);
    assert_eq!(timing.min_interval, None);
    assert_eq!(timing.max_interval, None);
}

#[test]
fn timing_without_window_is_zero() {
    let mut data = pcap_header(false);
    data.extend(pcap_record(&[1; 10], false));
    let info = parse_capture(&data, NOW).unwrap();
    let timing = timing_from_info(&info);
    assert_eq!(timing.total_duration, Some(0));
    assert_eq!(timing.average_interval, 0);
    assert_eq!(timing.total_packets, 1);
}

#[test]
fn timing_of_one_packet_has_zero_interval() {
    let mut data = shb(false);
    data.extend(epb(1_000_000, &[0; 4], false));
    let info = parse_capture(&data, NOW).unwrap();
    let timing = timing_from_info(&info);
    assert_eq!(timing.average_interval, 0);
    assert_eq!(timing.total_packets, 1);
}

#[test]
fn parse_is_fixed_by_the_bytes_when_times_are_representable() {
    let data = two_interface_capture();
    let parser = PcapNGParser::new();
    let a = parser.parse_file(&data).unwrap();
    let b = PcapNGParser::new().parse_file(&data).unwrap();
    assert_eq!(a.total_packets, b.total_packets);
    assert_eq!(a.first_packet_time, b.first_packet_time);
    assert_eq!(a.last_packet_time, b.last_packet_time);
    assert_eq!(a.capture_duration, b.capture_duration);
    assert_eq!(parse_capture(&data, NOW).unwrap().capture_duration, a.capture_duration);
    let timing = parser.analyze_timing(&data).unwrap();
    assert_eq!(timing.total_duration, Some(11));
    assert_eq!(timing.average_interval, 2_750_000_000);
}

#[test]
fn metadata_agrees_with_parse() {
    let data = two_interface_capture();
    let parser = PcapNGParser::new();
    let info = parser.parse_file(&data).unwrap();
    let meta = parser.get_metadata(&data).unwrap();
    assert!(meta.section_info.is_some());
    assert_eq!(meta.interfaces.len(), info.interfaces.len());
    assert!(meta.total_blocks >= info.total_packets + meta.interfaces.len() as u64 + 1);
}
