//! The typed packet model: fixed-width field structs for the codec, the
//! display-oriented decoded types, and the byte-level meaning of both.

use vstd::prelude::*;

use crate::text::{dotted_quad, get_protocol_name, spec_protocol_name};
use crate::time::utc_text_of;
use crate::wire::{be16_at, be32_at};

verus! {

/// The nine fixed-width header fields, exactly as they appear on the wire.
#[derive(Debug, Clone, Copy, PartialEq, Eq, Structural)]
pub struct HeaderFields {
    pub version: u16,
    pub count: u16,
    pub sys_uptime: u32,
    pub unix_secs: u32,
    pub unix_nsecs: u32,
    pub flow_sequence: u32,
    pub engine_type: u8,
    pub engine_id: u8,
    pub sampling_interval: u16,
}

/// The fixed-width fields of one flow record, exactly as they appear on the
/// wire; addresses are raw 32-bit values. The record's final byte is padding
/// that always encodes as zero and is ignored on decode.
#[derive(Debug, Clone, Copy, PartialEq, Eq, Structural)]
pub struct FlowRecordFields {
    pub srcaddr: u32,
    pub dstaddr: u32,
    pub nexthop: u32,
    pub input_snmp: u16,
    pub output_snmp: u16,
    pub packets: u32,
    pub bytes: u32,
    pub first: u32,
    pub last: u32,
    pub srcport: u16,
    pub dstport: u16,
    pub pad1: u8,
    pub tcp_flags: u8,
    pub protocol: u8,
    pub tos: u8,
    pub src_as: u16,
    pub dst_as: u16,
    pub src_mask: u8,
    pub dst_mask: u8,
    pub pad2: u8,
}

/// The header fields spelled out by the 24 bytes at the front of `d`.
pub open spec fn header_fields_at(d: Seq<u8>) -> HeaderFields {
    HeaderFields {
        version: be16_at(d, 0),
        count: be16_at(d, 2),
        sys_uptime: be32_at(d, 4),
        unix_secs: be32_at(d, 8),
        unix_nsecs: be32_at(d, 12),
        flow_sequence: be32_at(d, 16),
        engine_type: d[20],
        engine_id: d[21],
        sampling_interval: be16_at(d, 22),
    }
}

/// The flow-record fields spelled out by the 48 bytes of `d` starting at
/// `off`; byte `off + 47` is trailing padding and carries no field.
pub open spec fn record_fields_at(d: Seq<u8>, off: int) -> FlowRecordFields {
    FlowRecordFields {
        srcaddr: be32_at(d, off),
        dstaddr: be32_at(d, off + 4),
        nexthop: be32_at(d, off + 8),
        input_snmp: be16_at(d, off + 12),
        output_snmp: be16_at(d, off + 14),
        packets: be32_at(d, off + 16),
        bytes: be32_at(d, off + 20),
        first: be32_at(d, off + 24),
        last: be32_at(d, off + 28),
        srcport: be16_at(d, off + 32),
        dstport: be16_at(d, off + 34),
        pad1: d[off + 36],
        tcp_flags: d[off + 37],
        protocol: d[off + 38],
        tos: d[off + 39],
        src_as: be16_at(d, off + 40),
        dst_as: be16_at(d, off + 42),
        src_mask: d[off + 44],
        dst_mask: d[off + 45],
        pad2: d[off + 46],
    }
}

/// A decoded header: the wire fields plus the derived calendar text.
#[derive(Debug, Clone)]
pub struct NetflowHeader {
    pub version: u16,
    pub count: u16,
    pub sys_uptime: u32,
    pub unix_secs: u32,
    pub unix_nsecs: u32,
    pub flow_sequence: u32,
    pub engine_type: u8,
    pub engine_id: u8,
    pub sampling_interval: u16,
    pub timestamp: String,
}

/// A decoded flow record; the three addresses are stored as dotted-quad text,
/// which is what every downstream consumer reads.
#[derive(Debug, Clone)]
pub struct FlowRecord {
    pub srcaddr: String,
    pub dstaddr: String,
    pub nexthop: String,
    pub input_snmp: u16,
    pub output_snmp: u16,
    pub packets: u32,
    pub bytes: u32,
    pub first: u32,
    pub last: u32,
    pub srcport: u16,
    pub dstport: u16,
    pub pad1: u8,
    pub tcp_flags: u8,
    pub protocol: u8,
    pub tos: u8,
    pub src_as: u16,
    pub dst_as: u16,
    pub src_mask: u8,
    pub dst_mask: u8,
    pub pad2: u8,
}

/// One decoded datagram: a header, its flow records in wire order, and the
/// provenance supplied by the transport (not present on the wire).
#[derive(Debug, Clone)]
pub struct NetflowPacket {
    pub header: NetflowHeader,
    pub flows: Vec<FlowRecord>,
    pub source_addr: String,
    pub source_port: u16,
    pub packet_number: u32,
}

/// The mathematical value of a decoded header.
pub ghost struct HeaderView {
    pub version: u16,
    pub count: u16,
    pub sys_uptime: u32,
    pub unix_secs: u32,
    pub unix_nsecs: u32,
    pub flow_sequence: u32,
    pub engine_type: u8,
    pub engine_id: u8,
    pub sampling_interval: u16,
    pub timestamp: Seq<char>,
}

/// The mathematical value of a decoded flow record.
pub ghost struct FlowRecordView {
    pub srcaddr: Seq<char>,
    pub dstaddr: Seq<char>,
    pub nexthop: Seq<char>,
    pub input_snmp: u16,
    pub output_snmp: u16,
    pub packets: u32,
    pub bytes: u32,
    pub first: u32,
    pub last: u32,
    pub srcport: u16,
    pub dstport: u16,
    pub pad1: u8,
    pub tcp_flags: u8,
    pub protocol: u8,
    pub tos: u8,
    pub src_as: u16,
    pub dst_as: u16,
    pub src_mask: u8,
    pub dst_mask: u8,
    pub pad2: u8,
}

/// The mathematical value of a decoded packet.
pub ghost struct PacketView {
    pub header: HeaderView,
    pub flows: Seq<FlowRecordView>,
    pub source_addr: Seq<char>,
    pub source_port: u16,
    pub packet_number: u32,
}

impl View for NetflowHeader {
    type V = HeaderView;

    open spec fn view(&self) -> HeaderView {
        HeaderView {
            version: self.version,
            count: self.count,
            sys_uptime: self.sys_uptime,
            unix_secs: self.unix_secs,
            unix_nsecs: self.unix_nsecs,
            flow_sequence: self.flow_sequence,
            engine_type: self.engine_type,
            engine_id: self.engine_id,
            sampling_interval: self.sampling_interval,
            timestamp: self.timestamp@,
        }
    }
}

impl View for FlowRecord {
    type V = FlowRecordView;

    open spec fn view(&self) -> FlowRecordView {
        FlowRecordView {
            srcaddr: self.srcaddr@,
            dstaddr: self.dstaddr@,
            nexthop: self.nexthop@,
            input_snmp: self.input_snmp,
            output_snmp: self.output_snmp,
            packets: self.packets,
            bytes: self.bytes,
            first: self.first,
            last: self.last,
            srcport: self.srcport,
            dstport: self.dstport,
            pad1: self.pad1,
            tcp_flags: self.tcp_flags,
            protocol: self.protocol,
            tos: self.tos,
            src_as: self.src_as,
            dst_as: self.dst_as,
            src_mask: self.src_mask,
            dst_mask: self.dst_mask,
            pad2: self.pad2,
        }
    }
}

impl View for NetflowPacket {
    type V = PacketView;

    open spec fn view(&self) -> PacketView {
        PacketView {
            header: self.header@,
            flows: Seq::new(self.flows@.len(), |i: int| self.flows@[i]@),
            source_addr: self.source_addr@,
            source_port: self.source_port,
            packet_number: self.packet_number,
        }
    }
}

/// The calendar text the decoder derives for an export time: computed from
/// the epoch seconds when they are positive, and a fixed marker when they are
/// zero (a zero export time must not yield a spurious 1970 timestamp).
pub open spec fn timestamp_text(unix_secs: u32) -> Seq<char> {
    if unix_secs > 0 {
        utc_text_of(unix_secs)
    } else {
        "Invalid timestamp"@
    }
}

/// The decoded view of a header whose wire fields are `h`.
pub open spec fn header_display(h: HeaderFields) -> HeaderView {
    HeaderView {
        version: h.version,
        count: h.count,
        sys_uptime: h.sys_uptime,
        unix_secs: h.unix_secs,
        unix_nsecs: h.unix_nsecs,
        flow_sequence: h.flow_sequence,
        engine_type: h.engine_type,
        engine_id: h.engine_id,
        sampling_interval: h.sampling_interval,
        timestamp: timestamp_text(h.unix_secs),
    }
}

/// The decoded view of a flow record whose wire fields are `f`: the raw
/// address values turn into dotted-quad text, everything else is carried over.
pub open spec fn record_display(f: FlowRecordFields) -> FlowRecordView {
    FlowRecordView {
        srcaddr: dotted_quad(f.srcaddr),
        dstaddr: dotted_quad(f.dstaddr),
        nexthop: dotted_quad(f.nexthop),
        input_snmp: f.input_snmp,
        output_snmp: f.output_snmp,
        packets: f.packets,
        bytes: f.bytes,
        first: f.first,
        last: f.last,
        srcport: f.srcport,
        dstport: f.dstport,
        pad1: f.pad1,
        tcp_flags: f.tcp_flags,
        protocol: f.protocol,
        tos: f.tos,
        src_as: f.src_as,
        dst_as: f.dst_as,
        src_mask: f.src_mask,
        dst_mask: f.dst_mask,
        pad2: f.pad2,
    }
}

impl FlowRecord {
    /// The advisory display name of this record's protocol number.
    pub fn get_protocol_name(&self) -> (r: String)
        ensures
            r@ == spec_protocol_name(self.protocol),
    {
        get_protocol_name(self.protocol)
    }
}

} // verus!
