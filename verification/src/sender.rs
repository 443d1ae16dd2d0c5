//! The sending half: synthetic flow generation and the delivery-loop state
//! machine. The loop's outside work — sleeping, resolving, transmitting — is
//! done by the caller, which reports each outcome back as an event; every
//! decision in between is made here and verified.

use vstd::prelude::*;

use crate::encode::encode_packet;
use crate::laws::lemma_encode_decode_round_trip;
use crate::packet::{header_fields_at, record_fields_at, FlowRecordFields, HeaderFields};

verus! {

/// Seconds the sender pauses before its first resolution attempt.
pub const STARTUP_DELAY_SECS: u64 = 5;

/// Seconds the sender waits before retrying after a failed resolution.
pub const RESOLUTION_RETRY_SECS: u64 = 5;

/// Seconds the sender waits after a failed transmission.
pub const SEND_FAILURE_SECS: u64 = 2;

/// Lower bound of the uniformly drawn cooldown after a successful send.
pub const COOLDOWN_MIN_SECS: u64 = 1;

/// Upper bound of the uniformly drawn cooldown after a successful send.
pub const COOLDOWN_MAX_SECS: u64 = 5;

/// Relies on rand's `Rng::gen_range` over an inclusive range: the result lies
/// within the bounds, and a nonempty range never panics.
#[verifier::external_body]
fn rand_range_u32(lo: u32, hi: u32) -> (r: u32)
    requires
        lo <= hi,
    ensures
        lo <= r <= hi,
{
    rand::Rng::gen_range(&mut rand::thread_rng(), lo..=hi)
}

/// Relies on rand's `SliceRandom::choose`: the result is one of the slice's
/// elements, and a nonempty slice never yields `None`.
#[verifier::external_body]
fn rand_choose_u16(options: &Vec<u16>) -> (r: u16)
    requires
        options@.len() > 0,
    ensures
        options@.contains(r),
{
    *rand::seq::SliceRandom::choose(options.as_slice(), &mut rand::thread_rng()).unwrap()
}

/// Relies on chrono's `Utc::now`: the current export time in epoch seconds.
/// Nothing is assumed of the value.
#[verifier::external_body]
fn now_unix_secs() -> u32 {
    chrono::Utc::now().timestamp() as u32
}

/// The sequence value after one generation: one more, wrapping only at the
/// 32-bit boundary.
pub open spec fn next_sequence(s: u32) -> u32 {
    if s == 0xFFFFFFFFu32 {
        0
    } else {
        (s + 1) as u32
    }
}

/// `bytes` is `packets` multiplied by a plausible per-packet size `m`.
pub open spec fn bytes_per_packet_ok(bytes: u32, packets: u32, m: int) -> bool {
    64 <= m <= 1500 && bytes == packets * m
}

/// The header of a synthetic observation carrying sequence number `seq_no`.
pub open spec fn synthetic_header(h: HeaderFields, seq_no: u32) -> bool {
    &&& h.version == 5
    &&& h.count == 1
    &&& 10000 <= h.sys_uptime <= 99999
    &&& h.unix_nsecs == 0
    &&& h.flow_sequence == seq_no
    &&& h.engine_type == 0
    &&& h.engine_id == 0
    &&& h.sampling_interval == 0
}

/// The single flow record of a synthetic observation: a source in
/// 192.168.2.0/24, a destination in 10.0.1.0/24, the next hop fixed at the
/// source subnet's gateway, a well-known destination port, one of TCP, UDP
/// or ICMP, and a byte count tied to the packet count.
pub open spec fn synthetic_record(f: FlowRecordFields) -> bool {
    &&& 0xC0A80201 <= f.srcaddr <= 0xC0A802FE
    &&& 0x0A000101 <= f.dstaddr <= 0x0A0001FE
    &&& f.nexthop == 0xC0A80201
    &&& f.input_snmp == 1
    &&& f.output_snmp == 2
    &&& 1 <= f.packets <= 100
    &&& (exists|m: int| #[trigger] bytes_per_packet_ok(f.bytes, f.packets, m))
    &&& f.first == 1000
    &&& f.last == 2000
    &&& 1024 <= f.srcport
    &&& (f.dstport == 80 || f.dstport == 443 || f.dstport == 22 || f.dstport == 25 || f.dstport
        == 53 || f.dstport == 8080)
    &&& f.pad1 == 0
    &&& f.tcp_flags == 0x18
    &&& (f.protocol == 6 || f.protocol == 17 || f.protocol == 1)
    &&& f.tos == 0
    &&& f.src_as == 65001
    &&& f.dst_as == 65002
    &&& f.src_mask == 24
    &&& f.dst_mask == 24
    &&& f.pad2 == 0
}

/// `d` is the 72-byte wire image of one synthetic packet whose header carries
/// sequence number `seq_no`.
pub open spec fn synthetic_packet_bytes(d: Seq<u8>, seq_no: u32) -> bool {
    &&& d.len() == 72
    &&& synthetic_header(header_fields_at(d), seq_no)
    &&& synthetic_record(record_fields_at(d, 24))
}

/// What the delivery loop asks its surroundings to do next.
#[derive(Debug, Clone)]
pub enum SenderAction {
    /// Sleep this many seconds, then resolve the target hostname anew.
    PauseThenResolve(u64),
    /// Transmit these bytes as one UDP datagram to the resolved address.
    Transmit(Vec<u8>),
}

/// What the surroundings report back to the delivery loop.
#[derive(Debug, Clone, Copy, PartialEq, Eq, Structural)]
pub enum SenderEvent {
    /// The loop is starting up.
    Started,
    /// Resolution failed or returned no addresses.
    ResolutionFailed,
    /// Resolution produced an address.
    ResolutionSucceeded,
    /// The datagram was handed to the network.
    SendSucceeded,
    /// The transmission failed; the packet is dropped, never retried.
    SendFailed,
}

/// One sender instance: the target endpoint and the monotonically increasing
/// flow sequence counter, which starts at 1.
#[derive(Debug)]
pub struct NetFlowSender {
    pub target_host: String,
    pub target_port: u16,
    pub sequence: u32,
}

impl NetFlowSender {
    /// A fresh sender whose first packet will carry flow sequence 1.
    pub fn new(target_host: String, target_port: u16) -> (s: Self)
        ensures
            s.target_host@ == target_host@,
            s.target_port == target_port,
            s.sequence == 1,
    {
        Self { target_host, target_port, sequence: 1 }
    }

    /// Generates the wire image of one synthetic packet. The packet carries
    /// the sender's current sequence number, and the counter advances by
    /// exactly one — the only way it ever moves.
    pub fn create_netflow_packet(&mut self) -> (r: Vec<u8>)
        ensures
            synthetic_packet_bytes(r@, old(self).sequence),
            final(self).sequence == next_sequence(old(self).sequence),
            final(self).target_host@ == old(self).target_host@,
            final(self).target_port == old(self).target_port,
    {
        let src_last = rand_range_u32(1, 254);
        let dst_last = rand_range_u32(1, 254);
        let src_port = rand_range_u32(1024, 65535) as u16;

        let mut dst_port_options: Vec<u16> = Vec::new();
        dst_port_options.push(80);
        dst_port_options.push(443);
        dst_port_options.push(22);
        dst_port_options.push(25);
        dst_port_options.push(53);
        dst_port_options.push(8080);
        let dst_port = rand_choose_u16(&dst_port_options);

        let mut protocol_options: Vec<u16> = Vec::new();
        protocol_options.push(6);
        protocol_options.push(17);
        protocol_options.push(1);
        let protocol16 = rand_choose_u16(&protocol_options);
        proof {
            assert(protocol16 == 6 || protocol16 == 17 || protocol16 == 1);
        }
        let protocol = protocol16 as u8;

        let packets = rand_range_u32(1, 100);
        let per_packet = rand_range_u32(64, 1500);
        proof {
            assert(packets * per_packet <= 150000) by (nonlinear_arith)
                requires
                    1 <= packets <= 100,
                    64 <= per_packet <= 1500,
            ;
        }
        let bytes_count = packets * per_packet;

        let h = HeaderFields {
            version: 5,
            count: 1,
            sys_uptime: rand_range_u32(10000, 99999),
            unix_secs: now_unix_secs(),
            unix_nsecs: 0,
            flow_sequence: self.sequence,
            engine_type: 0,
            engine_id: 0,
            sampling_interval: 0,
        };
        let f = FlowRecordFields {
            srcaddr: 0xC0A80200 + src_last,
            dstaddr: 0x0A000100 + dst_last,
            nexthop: 0xC0A80201,
            input_snmp: 1,
            output_snmp: 2,
            packets,
            bytes: bytes_count,
            first: 1000,
            last: 2000,
            srcport: src_port,
            dstport: dst_port,
            pad1: 0,
            tcp_flags: 0x18,
            protocol,
            tos: 0,
            src_as: 65001,
            dst_as: 65002,
            src_mask: 24,
            dst_mask: 24,
            pad2: 0,
        };
        let mut flows: Vec<FlowRecordFields> = Vec::new();
        flows.push(f);
        let pkt = encode_packet(&h, &flows);

        if self.sequence == 0xFFFFFFFF {
            self.sequence = 0;
        } else {
            self.sequence = self.sequence + 1;
        }

        proof {
            lemma_encode_decode_round_trip(h, flows@);
            assert(record_fields_at(pkt@, 24) == f);
            assert(bytes_per_packet_ok(f.bytes, f.packets, per_packet as int));
            assert(synthetic_record(f));
        }
        pkt
    }

    /// One decision of the delivery loop. Failures only ever pause and retry:
    /// no failure consumes a packet or moves the sequence counter, and a
    /// failed send drops its packet rather than retrying it. Only a
    /// successful resolution generates (and thereby numbers) a packet.
    pub fn step(&mut self, event: SenderEvent) -> (a: SenderAction)
        ensures
            final(self).target_host@ == old(self).target_host@,
            final(self).target_port == old(self).target_port,
            match event {
                SenderEvent::Started => final(self).sequence == old(self).sequence && a
                    == SenderAction::PauseThenResolve(STARTUP_DELAY_SECS),
                SenderEvent::ResolutionFailed => final(self).sequence == old(self).sequence && a
                    == SenderAction::PauseThenResolve(RESOLUTION_RETRY_SECS),
                SenderEvent::SendFailed => final(self).sequence == old(self).sequence && a
                    == SenderAction::PauseThenResolve(SEND_FAILURE_SECS),
                SenderEvent::SendSucceeded => final(self).sequence == old(self).sequence && (
                a matches SenderAction::PauseThenResolve(s) && COOLDOWN_MIN_SECS <= s
                    <= COOLDOWN_MAX_SECS),
                SenderEvent::ResolutionSucceeded => final(self).sequence == next_sequence(
                    old(self).sequence,
                ) && (a matches SenderAction::Transmit(d) && synthetic_packet_bytes(
                    d@,
                    old(self).sequence,
                )),
            },
    {
        match event {
            SenderEvent::Started => SenderAction::PauseThenResolve(STARTUP_DELAY_SECS),
            SenderEvent::ResolutionFailed => SenderAction::PauseThenResolve(RESOLUTION_RETRY_SECS),
            SenderEvent::SendFailed => SenderAction::PauseThenResolve(SEND_FAILURE_SECS),
            SenderEvent::SendSucceeded => {
                let s = rand_range_u32(1, 5) as u64;
                SenderAction::PauseThenResolve(s)
            },
            SenderEvent::ResolutionSucceeded => SenderAction::Transmit(
                self.create_netflow_packet(),
            ),
        }
    }
}

/// Sequence monotonicity: a fresh sender's first packet carries 1, and each
/// generation emits the current counter and advances it by one. So as long
/// as the counter has not wrapped, the values emitted by consecutive
/// successful sends are exactly 1, 2, 3, ... with no gaps and no repeats.
pub proof fn lemma_sequence_monotonic(emitted: Seq<u32>)
    requires
        emitted.len() <= 0xFFFFFFFF,
        emitted.len() > 0 ==> emitted[0] == 1,
        forall|i: int| 0 < i < emitted.len() ==> #[trigger] emitted[i] == next_sequence(emitted[i - 1]),
    ensures
        forall|i: int| 0 <= i < emitted.len() ==> emitted[i] == i + 1,
{
    assert forall|i: int| 0 <= i < emitted.len() implies emitted[i] == i + 1 by {
        lemma_sequence_value_at(emitted, i);
    }
}

proof fn lemma_sequence_value_at(emitted: Seq<u32>, i: int)
    requires
        emitted.len() <= 0xFFFFFFFF,
        emitted.len() > 0 ==> emitted[0] == 1,
        forall|j: int| 0 < j < emitted.len() ==> #[trigger] emitted[j] == next_sequence(emitted[j - 1]),
        0 <= i < emitted.len(),
    ensures
        emitted[i] == i + 1,
    decreases i,
{
    if i > 0 {
        lemma_sequence_value_at(emitted, i - 1);
    }
}

} // verus!
