//! The decoder: turns an arbitrary byte buffer into a typed packet, never
//! reading out of bounds and never trusting the header's declared count.

use vstd::prelude::*;
use vstd::string::StringExecFns;

use crate::packet::{
    header_display, header_fields_at, record_display, record_fields_at, FlowRecord, NetflowHeader,
    NetflowPacket, PacketView,
};
use crate::text::ipv4_text;
use crate::time::utc_text;
use crate::wire::{be16_at, read_be16, read_be32};

verus! {

/// Why a decode call failed.
#[derive(Debug, Clone, Copy, PartialEq, Eq, Structural)]
pub enum DecodeError {
    /// The buffer cannot hold even the 24-byte header.
    TooShort,
    /// A fixed-width field would run past the end of the buffer. Defensive:
    /// the decoder's bounds checks keep it from ever being produced.
    FieldReadError,
    /// A record selected for decoding has fewer than 48 bytes available.
    /// Defensive: the count policy keeps it from ever being produced.
    TruncatedRecord,
}

/// How many flow records the decoder parses from `d`: the header's declared
/// count, capped by how many whole 48-byte records the payload really holds.
/// The cap is what makes a corrupted or adversarial count harmless.
pub open spec fn spec_num_flows(d: Seq<u8>) -> int {
    let avail = (d.len() - 24) / 48;
    let declared = be16_at(d, 2) as int;
    if declared <= avail {
        declared
    } else {
        avail
    }
}

/// What a successful decode of `d` returns: the header fields read at their
/// fixed offsets with the derived calendar text, the capped list of records
/// in wire order, and the caller-supplied provenance.
pub open spec fn packet_decode_ok(
    p: PacketView,
    d: Seq<u8>,
    source_addr: Seq<char>,
    source_port: u16,
    packet_number: u32,
) -> bool {
    &&& p.header == header_display(header_fields_at(d))
    &&& p.flows.len() == spec_num_flows(d)
    &&& (forall|i: int|
        0 <= i < p.flows.len() ==> p.flows[i] == record_display(
            record_fields_at(d, 24 + 48 * i),
        ))
    &&& p.source_addr == source_addr
    &&& p.source_port == source_port
    &&& p.packet_number == packet_number
}

/// Parses the 48-byte flow record starting at byte `off`, rendering the three
/// addresses as dotted-quad text. Fails only when the record's full span does
/// not lie within the buffer.
pub fn parse_flow_record(data: &Vec<u8>, off: usize) -> (r: Result<FlowRecord, DecodeError>)
    ensures
        off + 48 <= data@.len() ==> (r matches Ok(f) && f@ == record_display(
            record_fields_at(data@, off as int),
        )),
        off + 48 > data@.len() ==> r == Err::<FlowRecord, DecodeError>(DecodeError::TruncatedRecord),
{
    let n = data.len();
    if off > n || n - off < 48 {
        return Err(DecodeError::TruncatedRecord);
    }
    let srcaddr_raw = read_be32(data, off);
    let dstaddr_raw = read_be32(data, off + 4);
    let nexthop_raw = read_be32(data, off + 8);
    Ok(
        FlowRecord {
            srcaddr: ipv4_text(srcaddr_raw),
            dstaddr: ipv4_text(dstaddr_raw),
            nexthop: ipv4_text(nexthop_raw),
            input_snmp: read_be16(data, off + 12),
            output_snmp: read_be16(data, off + 14),
            packets: read_be32(data, off + 16),
            bytes: read_be32(data, off + 20),
            first: read_be32(data, off + 24),
            last: read_be32(data, off + 28),
            srcport: read_be16(data, off + 32),
            dstport: read_be16(data, off + 34),
            pad1: data[off + 36],
            tcp_flags: data[off + 37],
            protocol: data[off + 38],
            tos: data[off + 39],
            src_as: read_be16(data, off + 40),
            dst_as: read_be16(data, off + 42),
            src_mask: data[off + 44],
            dst_mask: data[off + 45],
            pad2: data[off + 46],
        },
    )
}

/// Decodes one datagram. Fails with `TooShort` exactly when the buffer is
/// smaller than the 24-byte header; any longer buffer decodes successfully,
/// with the flow list capped at the number of whole records present and any
/// residual trailing bytes ignored.
pub fn parse_netflow_packet(
    data: &Vec<u8>,
    source_addr: &str,
    source_port: u16,
    packet_number: u32,
) -> (r: Result<NetflowPacket, DecodeError>)
    ensures
        data@.len() < 24 ==> r == Err::<NetflowPacket, DecodeError>(DecodeError::TooShort),
        data@.len() >= 24 ==> (r matches Ok(p) && packet_decode_ok(
            p@,
            data@,
            source_addr@,
            source_port,
            packet_number,
        )),
{
    let n = data.len();
    if n < 24 {
        return Err(DecodeError::TooShort);
    }
    let version = read_be16(data, 0);
    let count = read_be16(data, 2);
    let sys_uptime = read_be32(data, 4);
    let unix_secs = read_be32(data, 8);
    let unix_nsecs = read_be32(data, 12);
    let flow_sequence = read_be32(data, 16);
    let engine_type = data[20];
    let engine_id = data[21];
    let sampling_interval = read_be16(data, 22);

    // A zero export time is reported as unavailable, never as a spurious
    // epoch-1970 timestamp.
    let timestamp = if unix_secs > 0 {
        utc_text(unix_secs)
    } else {
        String::from_str("Invalid timestamp")
    };

    let header = NetflowHeader {
        version,
        count,
        sys_uptime,
        unix_secs,
        unix_nsecs,
        flow_sequence,
        engine_type,
        engine_id,
        sampling_interval,
        timestamp,
    };

    let avail = (n - 24) / 48;
    let declared = count as usize;
    let flow_count = if declared <= avail {
        declared
    } else {
        avail
    };
    proof {
        assert(flow_count == spec_num_flows(data@));
        vstd::arithmetic::div_mod::lemma_fundamental_div_mod(n as int - 24, 48);
        vstd::arithmetic::div_mod::lemma_mod_bound(n as int - 24, 48);
        assert(48 * avail <= n - 24);
    }

    let mut flows: Vec<FlowRecord> = Vec::new();
    let mut i: usize = 0;
    while i < flow_count
        invariant
            i <= flow_count,
            n == data@.len(),
            flow_count == spec_num_flows(data@),
            48 * flow_count <= n - 24,
            flows@.len() == i,
            forall|j: int|
                0 <= j < i ==> flows@[j]@ == record_display(record_fields_at(data@, 24 + 48 * j)),
        decreases flow_count - i,
    {
        proof {
            assert(48 * i + 48 <= 48 * flow_count) by {
                assert(48 * i <= 48 * (flow_count - 1));
            }
        }
        let off = 24 + i * 48;
        match parse_flow_record(data, off) {
            Ok(flow) => {
                flows.push(flow);
            },
            Err(_) => {
                // Unreachable: the count cap guarantees the record's span is
                // in bounds, and the contract of `parse_flow_record` then
                // rules the error out.
                proof {
                    assert(false);
                }
                return Err(DecodeError::TruncatedRecord);
            },
        }
        i += 1;
    }

    let packet = NetflowPacket {
        header,
        flows,
        source_addr: source_addr.to_owned(),
        source_port,
        packet_number,
    };
    proof {
        assert(packet@.flows.len() == spec_num_flows(data@));
        assert(forall|j: int|
            0 <= j < packet@.flows.len() ==> packet@.flows[j] == record_display(
                record_fields_at(data@, 24 + 48 * j),
            ));
    }
    Ok(packet)
}

} // verus!
