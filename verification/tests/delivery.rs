use netflow_codec::decode::parse_netflow_packet;
use netflow_codec::sender::{
    NetFlowSender, SenderAction, SenderEvent, RESOLUTION_RETRY_SECS, SEND_FAILURE_SECS,
    STARTUP_DELAY_SECS,
};

fn be32(d: &[u8], i: usize) -> u32 {
    (d[i] as u32) * 0x1000000 + (d[i + 1] as u32) * 0x10000 + (d[i + 2] as u32) * 0x100
        + d[i + 3] as u32
}

fn transmit_bytes(action: SenderAction) -> Vec<u8> {
    match action {
        SenderAction::Transmit(bytes) => bytes,
        SenderAction::PauseThenResolve(_) => panic!("expected a transmission"),
    }
}

fn pause_secs(action: SenderAction) -> u64 {
    match action {
        SenderAction::PauseThenResolve(secs) => secs,
        SenderAction::Transmit(_) => panic!("expected a pause"),
    }
}

#[test]
fn new_sender_starts_at_sequence_one() {
    let sender = NetFlowSender::new(String::from("receiver"), 2055);
    assert_eq!(sender.target_host, "receiver");
    assert_eq!(sender.target_port, 2055);
    assert_eq!(sender.sequence, 1);
}

#[test]
fn startup_pauses_before_first_resolution() {
    let mut sender = NetFlowSender::new(String::from("receiver"), 2055);
    let action = sender.step(SenderEvent::Started);
    assert_eq!(pause_secs(action), STARTUP_DELAY_SECS);
    assert_eq!(sender.sequence, 1);
}

#[test]
fn sequence_numbers_have_no_gaps_or_repeats() {
    let mut sender = NetFlowSender::new(String::from("receiver"), 2055);
    for expected in 1..=5u32 {
        let bytes = transmit_bytes(sender.step(SenderEvent::ResolutionSucceeded));
        assert_eq!(be32(&bytes, 16), expected);
        sender.step(SenderEvent::SendSucceeded);
    }
    assert_eq!(sender.sequence, 6);
}

#[test]
fn resolution_failures_consume_no_packet() {
    // Resolution yields no addresses twice, then succeeds: nothing is
    // generated until it succeeds, and the failures leave the counter alone.
    let mut sender = NetFlowSender::new(String::from("receiver"), 2055);
    sender.step(SenderEvent::Started);

    let first = sender.step(SenderEvent::ResolutionFailed);
    assert_eq!(pause_secs(first), RESOLUTION_RETRY_SECS);
    assert_eq!(sender.sequence, 1);

    let second = sender.step(SenderEvent::ResolutionFailed);
    assert_eq!(pause_secs(second), RESOLUTION_RETRY_SECS);
    assert_eq!(sender.sequence, 1);

    let bytes = transmit_bytes(sender.step(SenderEvent::ResolutionSucceeded));
    assert_eq!(be32(&bytes, 16), 1);
    assert_eq!(sender.sequence, 2);
}

#[test]
fn failed_send_drops_packet_instead_of_retrying() {
    let mut sender = NetFlowSender::new(String::from("receiver"), 2055);
    let first = transmit_bytes(sender.step(SenderEvent::ResolutionSucceeded));
    assert_eq!(be32(&first, 16), 1);

    let action = sender.step(SenderEvent::SendFailed);
    assert_eq!(pause_secs(action), SEND_FAILURE_SECS);
    assert_eq!(sender.sequence, 2);

    // The next cycle carries a fresh sequence number, not the dropped one.
    let second = transmit_bytes(sender.step(SenderEvent::ResolutionSucceeded));
    assert_eq!(be32(&second, 16), 2);
}

#[test]
fn cooldown_is_within_fixed_range() {
    let mut sender = NetFlowSender::new(String::from("receiver"), 2055);
    for _ in 0..20 {
        sender.step(SenderEvent::ResolutionSucceeded);
        let secs = pause_secs(sender.step(SenderEvent::SendSucceeded));
        assert!((1..=5).contains(&secs));
    }
}

#[test]
fn synthetic_packet_has_expected_shape() {
    let mut sender = NetFlowSender::new(String::from("receiver"), 2055);
    for round in 0..20u32 {
        let bytes = sender.create_netflow_packet();
        assert_eq!(bytes.len(), 72);

        let packet = parse_netflow_packet(&bytes, "10.9.9.9", 4000, round + 1).unwrap();
        assert_eq!(packet.header.version, 5);
        assert_eq!(packet.header.count, 1);
        assert!((10000..=99999).contains(&packet.header.sys_uptime));
        assert_eq!(packet.header.unix_nsecs, 0);
        assert_eq!(packet.header.flow_sequence, round + 1);
        assert_eq!(packet.header.engine_type, 0);
        assert_eq!(packet.header.engine_id, 0);
        assert_eq!(packet.header.sampling_interval, 0);

        assert_eq!(packet.flows.len(), 1);
        let flow = &packet.flows[0];
        assert!(flow.srcaddr.starts_with("192.168.2."));
        let src_last: u8 = flow.srcaddr.rsplit('.').next().unwrap().parse().unwrap();
        assert!((1..=254).contains(&src_last));
        assert!(flow.dstaddr.starts_with("10.0.1."));
        assert_eq!(flow.nexthop, "192.168.2.1");
        assert_eq!(flow.input_snmp, 1);
        assert_eq!(flow.output_snmp, 2);
        assert!((1..=100).contains(&flow.packets));
        assert_eq!(flow.bytes % flow.packets, 0);
        assert!((64..=1500).contains(&(flow.bytes / flow.packets)));
        assert_eq!(flow.first, 1000);
        assert_eq!(flow.last, 2000);
        assert!(flow.srcport >= 1024);
        assert!([80u16, 443, 22, 25, 53, 8080].contains(&flow.dstport));
        assert_eq!(flow.pad1, 0);
        assert_eq!(flow.tcp_flags, 0x18);
        assert!([6u8, 17, 1].contains(&flow.protocol));
        assert_eq!(flow.tos, 0);
        assert_eq!(flow.src_as, 65001);
        assert_eq!(flow.dst_as, 65002);
        assert_eq!(flow.src_mask, 24);
        assert_eq!(flow.dst_mask, 24);
        assert_eq!(flow.pad2, 0);
    }
}

#[test]
fn generation_preserves_target_endpoint() {
    let mut sender = NetFlowSender::new(String::from("collector.example"), 9995);
    sender.create_netflow_packet();
    sender.step(SenderEvent::SendFailed);
    assert_eq!(sender.target_host, "collector.example");
    assert_eq!(sender.target_port, 9995);
}
