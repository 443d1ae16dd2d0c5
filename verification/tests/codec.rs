use netflow_codec::decode::{parse_netflow_packet, DecodeError};
use netflow_codec::encode::encode_packet;
use netflow_codec::packet::{FlowRecordFields, HeaderFields};
use netflow_codec::text::{get_protocol_name, ipv4_text, u8_decimal};

fn sample_header(count: u16, unix_secs: u32, flow_sequence: u32) -> HeaderFields {
    HeaderFields {
        version: 5,
        count,
        sys_uptime: 123456,
        unix_secs,
        unix_nsecs: 77,
        flow_sequence,
        engine_type: 3,
        engine_id: 4,
        sampling_interval: 512,
    }
}

fn sample_record(seed: u32) -> FlowRecordFields {
    FlowRecordFields {
        srcaddr: 0xC0A80101 + seed,
        dstaddr: 0x0A000001 + seed,
        nexthop: 0xC0A80001,
        input_snmp: 7,
        output_snmp: 8,
        packets: 10 + seed,
        bytes: 1500 + seed,
        first: 1000,
        last: 2000,
        srcport: 40000,
        dstport: 443,
        pad1: 0,
        tcp_flags: 0x18,
        protocol: 6,
        tos: 0,
        src_as: 65001,
        dst_as: 65002,
        src_mask: 24,
        dst_mask: 24,
        pad2: 0,
    }
}

fn be16(d: &[u8], i: usize) -> u16 {
    (d[i] as u16) * 256 + d[i + 1] as u16
}

fn be32(d: &[u8], i: usize) -> u32 {
    (d[i] as u32) * 0x1000000 + (d[i + 1] as u32) * 0x10000 + (d[i + 2] as u32) * 0x100
        + d[i + 3] as u32
}

#[test]
fn round_trip_all_fields() {
    let h = sample_header(2, 1700000000, 9001);
    let records = vec![sample_record(0), sample_record(5)];
    let bytes = encode_packet(&h, &records);
    assert_eq!(bytes.len(), 24 + 2 * 48);

    let packet = parse_netflow_packet(&bytes, "203.0.113.9", 2055, 17).unwrap();
    assert_eq!(packet.header.version, 5);
    assert_eq!(packet.header.count, 2);
    assert_eq!(packet.header.sys_uptime, 123456);
    assert_eq!(packet.header.unix_secs, 1700000000);
    assert_eq!(packet.header.unix_nsecs, 77);
    assert_eq!(packet.header.flow_sequence, 9001);
    assert_eq!(packet.header.engine_type, 3);
    assert_eq!(packet.header.engine_id, 4);
    assert_eq!(packet.header.sampling_interval, 512);
    assert_eq!(packet.flows.len(), 2);
    for (i, rec) in records.iter().enumerate() {
        let flow = &packet.flows[i];
        assert_eq!(flow.srcaddr, ipv4_text(rec.srcaddr));
        assert_eq!(flow.dstaddr, ipv4_text(rec.dstaddr));
        assert_eq!(flow.nexthop, "192.168.0.1");
        assert_eq!(flow.input_snmp, rec.input_snmp);
        assert_eq!(flow.output_snmp, rec.output_snmp);
        assert_eq!(flow.packets, rec.packets);
        assert_eq!(flow.bytes, rec.bytes);
        assert_eq!(flow.first, rec.first);
        assert_eq!(flow.last, rec.last);
        assert_eq!(flow.srcport, rec.srcport);
        assert_eq!(flow.dstport, rec.dstport);
        assert_eq!(flow.pad1, rec.pad1);
        assert_eq!(flow.tcp_flags, rec.tcp_flags);
        assert_eq!(flow.protocol, rec.protocol);
        assert_eq!(flow.tos, rec.tos);
        assert_eq!(flow.src_as, rec.src_as);
        assert_eq!(flow.dst_as, rec.dst_as);
        assert_eq!(flow.src_mask, rec.src_mask);
        assert_eq!(flow.dst_mask, rec.dst_mask);
        assert_eq!(flow.pad2, rec.pad2);
    }
    // Provenance comes from the call, not from the bytes.
    assert_eq!(packet.source_addr, "203.0.113.9");
    assert_eq!(packet.source_port, 2055);
    assert_eq!(packet.packet_number, 17);
}

#[test]
fn round_trip_empty_packet() {
    let h = sample_header(0, 1700000000, 1);
    let bytes = encode_packet(&h, &vec![]);
    assert_eq!(bytes.len(), 24);
    let packet = parse_netflow_packet(&bytes, "198.51.100.1", 9999, 1).unwrap();
    assert_eq!(packet.header.flow_sequence, 1);
    assert_eq!(packet.flows.len(), 0);
}

#[test]
fn exact_encoding_bytes() {
    let h = sample_header(1, 0x01020304, 0x0A0B0C0D);
    let bytes = encode_packet(&h, &vec![sample_record(0)]);
    assert_eq!(bytes.len(), 72);
    assert_eq!(&bytes[0..2], &[0, 5]); // version
    assert_eq!(&bytes[2..4], &[0, 1]); // count
    assert_eq!(be32(&bytes, 4), 123456); // sys_uptime
    assert_eq!(&bytes[8..12], &[0x01, 0x02, 0x03, 0x04]); // unix_secs
    assert_eq!(be32(&bytes, 12), 77); // unix_nsecs
    assert_eq!(&bytes[16..20], &[0x0A, 0x0B, 0x0C, 0x0D]); // flow_sequence
    assert_eq!(bytes[20], 3); // engine_type
    assert_eq!(bytes[21], 4); // engine_id
    assert_eq!(be16(&bytes, 22), 512); // sampling_interval
    assert_eq!(&bytes[24..28], &[192, 168, 1, 1]); // srcaddr
    assert_eq!(&bytes[28..32], &[10, 0, 0, 1]); // dstaddr
    assert_eq!(&bytes[32..36], &[192, 168, 0, 1]); // nexthop
    assert_eq!(be16(&bytes, 36), 7); // input_snmp
    assert_eq!(be16(&bytes, 38), 8); // output_snmp
    assert_eq!(be32(&bytes, 40), 10); // packets
    assert_eq!(be32(&bytes, 44), 1500); // bytes
    assert_eq!(be32(&bytes, 48), 1000); // first
    assert_eq!(be32(&bytes, 52), 2000); // last
    assert_eq!(be16(&bytes, 56), 40000); // srcport
    assert_eq!(be16(&bytes, 58), 443); // dstport
    assert_eq!(bytes[60], 0); // pad1
    assert_eq!(bytes[61], 0x18); // tcp_flags
    assert_eq!(bytes[62], 6); // protocol
    assert_eq!(bytes[63], 0); // tos
    assert_eq!(be16(&bytes, 64), 65001); // src_as
    assert_eq!(be16(&bytes, 66), 65002); // dst_as
    assert_eq!(bytes[68], 24); // src_mask
    assert_eq!(bytes[69], 24); // dst_mask
    assert_eq!(bytes[70], 0); // pad2
    assert_eq!(bytes[71], 0); // trailing padding
}

#[test]
fn short_buffer_fails_too_short() {
    let bytes: Vec<u8> = vec![0; 10];
    let result = parse_netflow_packet(&bytes, "10.0.0.1", 2055, 1);
    assert_eq!(result.unwrap_err(), DecodeError::TooShort);
}

#[test]
fn empty_buffer_fails_too_short() {
    let bytes: Vec<u8> = Vec::new();
    let result = parse_netflow_packet(&bytes, "10.0.0.1", 2055, 1);
    assert_eq!(result.unwrap_err(), DecodeError::TooShort);
}

#[test]
fn count_mismatch_yields_available_records() {
    // The header claims five records but only two whole ones follow.
    let h = sample_header(5, 1700000000, 3);
    let bytes = encode_packet(&h, &vec![sample_record(1), sample_record(2)]);
    let packet = parse_netflow_packet(&bytes, "10.0.0.1", 2055, 1).unwrap();
    assert_eq!(packet.header.count, 5);
    assert_eq!(packet.flows.len(), 2);
    assert_eq!(packet.flows[0].packets, 11);
    assert_eq!(packet.flows[1].packets, 12);
}

#[test]
fn count_smaller_than_payload_wins() {
    // The header claims one record; a second whole record is ignored.
    let h = sample_header(1, 1700000000, 3);
    let bytes = encode_packet(&h, &vec![sample_record(1), sample_record(2)]);
    let packet = parse_netflow_packet(&bytes, "10.0.0.1", 2055, 1).unwrap();
    assert_eq!(packet.flows.len(), 1);
}

#[test]
fn truncation_mid_record_drops_partial_record() {
    let h = sample_header(2, 1700000000, 3);
    let full = encode_packet(&h, &vec![sample_record(1), sample_record(2)]);
    for cut in 24..full.len() {
        let shortened: Vec<u8> = full[..cut].to_vec();
        let packet = parse_netflow_packet(&shortened, "10.0.0.1", 2055, 1).unwrap();
        assert_eq!(packet.flows.len(), (cut - 24) / 48);
        if packet.flows.len() > 0 {
            assert_eq!(packet.flows[0].packets, 11);
        }
    }
}

#[test]
fn truncation_within_header_fails_too_short() {
    let h = sample_header(1, 1700000000, 3);
    let full = encode_packet(&h, &vec![sample_record(1)]);
    for cut in 0..24 {
        let shortened: Vec<u8> = full[..cut].to_vec();
        let result = parse_netflow_packet(&shortened, "10.0.0.1", 2055, 1);
        assert_eq!(result.unwrap_err(), DecodeError::TooShort);
    }
}

#[test]
fn arbitrary_garbage_never_panics() {
    let mut bytes: Vec<u8> = Vec::new();
    for i in 0..200u32 {
        bytes.push((i.wrapping_mul(197).wrapping_add(13) % 256) as u8);
        let _ = parse_netflow_packet(&bytes, "10.0.0.1", 2055, 1);
    }
}

#[test]
fn scenario_known_header_and_record() {
    // 24-byte header: version 5, count 1, flow_sequence 42, all else zero.
    let mut bytes: Vec<u8> = vec![0; 72];
    bytes[1] = 5; // version
    bytes[3] = 1; // count
    bytes[19] = 42; // flow_sequence
    // Record: srcaddr 192.168.1.1, dstaddr 10.0.0.1, dstport 443,
    // protocol 6, packets 10, bytes 1500.
    bytes[24..28].copy_from_slice(&[192, 168, 1, 1]);
    bytes[28..32].copy_from_slice(&[10, 0, 0, 1]);
    bytes[40..44].copy_from_slice(&[0, 0, 0, 10]);
    bytes[44..48].copy_from_slice(&[0, 0, 0x05, 0xDC]);
    bytes[58] = 1; // dstport high byte: 443 = 0x01BB
    bytes[59] = 0xBB;
    bytes[62] = 6; // protocol

    let packet = parse_netflow_packet(&bytes, "127.0.0.1", 5000, 1).unwrap();
    assert_eq!(packet.header.version, 5);
    assert_eq!(packet.header.flow_sequence, 42);
    assert_eq!(packet.flows.len(), 1);
    let flow = &packet.flows[0];
    assert_eq!(flow.srcaddr, "192.168.1.1");
    assert_eq!(flow.dstaddr, "10.0.0.1");
    assert_eq!(flow.dstport, 443);
    assert_eq!(flow.protocol, 6);
    assert_eq!(flow.packets, 10);
    assert_eq!(flow.bytes, 1500);
}

#[test]
fn timestamp_derived_from_unix_secs() {
    let h = sample_header(0, 1700000000, 1);
    let bytes = encode_packet(&h, &vec![]);
    let packet = parse_netflow_packet(&bytes, "10.0.0.1", 2055, 1).unwrap();
    assert_eq!(packet.header.timestamp, "2023-11-14 22:13:20 UTC");

    let h2 = sample_header(0, 1000000000, 1);
    let bytes2 = encode_packet(&h2, &vec![]);
    let packet2 = parse_netflow_packet(&bytes2, "10.0.0.1", 2055, 1).unwrap();
    assert_eq!(packet2.header.timestamp, "2001-09-09 01:46:40 UTC");
}

#[test]
fn zero_unix_secs_reports_invalid_timestamp() {
    let h = sample_header(0, 0, 1);
    let bytes = encode_packet(&h, &vec![]);
    let packet = parse_netflow_packet(&bytes, "10.0.0.1", 2055, 1).unwrap();
    assert_eq!(packet.header.timestamp, "Invalid timestamp");
}

#[test]
fn protocol_names_fixed_table() {
    assert_eq!(get_protocol_name(1), "ICMP");
    assert_eq!(get_protocol_name(6), "TCP");
    assert_eq!(get_protocol_name(17), "UDP");
    assert_eq!(get_protocol_name(47), "GRE");
    assert_eq!(get_protocol_name(50), "ESP");
    assert_eq!(get_protocol_name(51), "AH");
    assert_eq!(get_protocol_name(89), "OSPF");
}

#[test]
fn protocol_names_unknown_values() {
    assert_eq!(get_protocol_name(253), "Unknown(253)");
    assert_eq!(get_protocol_name(0), "Unknown(0)");
    assert_eq!(get_protocol_name(7), "Unknown(7)");
    assert_eq!(get_protocol_name(255), "Unknown(255)");
}

#[test]
fn protocol_name_method_matches_record() {
    let h = sample_header(1, 1700000000, 1);
    let bytes = encode_packet(&h, &vec![sample_record(0)]);
    let packet = parse_netflow_packet(&bytes, "10.0.0.1", 2055, 1).unwrap();
    assert_eq!(packet.flows[0].get_protocol_name(), "TCP");
}

#[test]
fn dotted_quad_edge_values() {
    assert_eq!(ipv4_text(0), "0.0.0.0");
    assert_eq!(ipv4_text(0xFFFFFFFF), "255.255.255.255");
    assert_eq!(ipv4_text(0xC0A80201), "192.168.2.1");
    assert_eq!(ipv4_text(0x01000001), "1.0.0.1");
    assert_eq!(ipv4_text(0x0A0B0C0D), "10.11.12.13");
}

#[test]
fn decimal_text_values() {
    assert_eq!(u8_decimal(0), "0");
    assert_eq!(u8_decimal(9), "9");
    assert_eq!(u8_decimal(10), "10");
    assert_eq!(u8_decimal(99), "99");
    assert_eq!(u8_decimal(100), "100");
    assert_eq!(u8_decimal(255), "255");
}
