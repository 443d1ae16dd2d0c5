//! The encoder: serializes typed packet fields into the exact NetFlow v5 wire
//! layout, and the lemmas that read every field back out of the bytes.

use vstd::prelude::*;

use crate::packet::{header_fields_at, record_fields_at, FlowRecordFields, HeaderFields};
use crate::wire::{
    be16_bytes, be32_bytes, lemma_be16_round, lemma_be32_round, push_be16, push_be32,
};

verus! {

/// The 24 header bytes for the fields `h`, big-endian, in wire order.
pub open spec fn spec_encode_header(h: HeaderFields) -> Seq<u8> {
    be16_bytes(h.version) + be16_bytes(h.count) + be32_bytes(h.sys_uptime) + be32_bytes(
        h.unix_secs,
    ) + be32_bytes(h.unix_nsecs) + be32_bytes(h.flow_sequence) + seq![h.engine_type, h.engine_id]
        + be16_bytes(h.sampling_interval)
}

/// The 48 record bytes for the fields `f`, big-endian, in wire order; the
/// final byte is padding and always encodes as zero.
pub open spec fn spec_encode_record(f: FlowRecordFields) -> Seq<u8> {
    be32_bytes(f.srcaddr) + be32_bytes(f.dstaddr) + be32_bytes(f.nexthop) + be16_bytes(
        f.input_snmp,
    ) + be16_bytes(f.output_snmp) + be32_bytes(f.packets) + be32_bytes(f.bytes) + be32_bytes(
        f.first,
    ) + be32_bytes(f.last) + be16_bytes(f.srcport) + be16_bytes(f.dstport) + seq![
        f.pad1,
        f.tcp_flags,
        f.protocol,
        f.tos,
    ] + be16_bytes(f.src_as) + be16_bytes(f.dst_as) + seq![f.src_mask, f.dst_mask, f.pad2, 0u8]
}

/// The concatenated record bytes for a sequence of flow records.
pub open spec fn spec_encode_records(flows: Seq<FlowRecordFields>) -> Seq<u8>
    decreases flows.len(),
{
    if flows.len() == 0 {
        Seq::empty()
    } else {
        spec_encode_records(flows.drop_last()) + spec_encode_record(flows.last())
    }
}

/// The full wire image of a packet: header bytes, then each record's bytes in
/// order.
pub open spec fn spec_encode_packet(h: HeaderFields, flows: Seq<FlowRecordFields>) -> Seq<u8> {
    spec_encode_header(h) + spec_encode_records(flows)
}

/// A record sequence encodes to exactly 48 bytes per record.
pub proof fn lemma_encode_records_len(flows: Seq<FlowRecordFields>)
    ensures
        spec_encode_records(flows).len() == 48 * flows.len(),
    decreases flows.len(),
{
    if flows.len() > 0 {
        lemma_encode_records_len(flows.drop_last());
    }
}

/// Byte `48 * i + k` of an encoded record sequence is byte `k` of record `i`.
pub proof fn lemma_encode_records_index(flows: Seq<FlowRecordFields>, i: int, k: int)
    requires
        0 <= i < flows.len(),
        0 <= k < 48,
    ensures
        spec_encode_records(flows)[48 * i + k] == spec_encode_record(flows[i])[k],
    decreases flows.len(),
{
    let front = spec_encode_records(flows.drop_last());
    let back = spec_encode_record(flows.last());
    lemma_encode_records_len(flows.drop_last());
    assert(front.len() == 48 * (flows.len() - 1));
    if i < flows.len() - 1 {
        lemma_encode_records_index(flows.drop_last(), i, k);
        assert(48 * i + k < front.len()) by {
            assert(48 * i <= 48 * (flows.len() - 2));
        }
        assert((front + back)[48 * i + k] == front[48 * i + k]);
        assert(flows.drop_last()[i] == flows[i]);
    } else {
        assert((front + back)[48 * i + k] == back[48 * i + k - front.len()]);
        assert(48 * i + k - front.len() == k);
    }
}

/// Reading the header fields out of bytes that start with `h`'s encoding
/// gives `h` back.
pub proof fn lemma_header_fields_at_encode(h: HeaderFields, d: Seq<u8>)
    requires
        d.len() >= 24,
        forall|i: int| 0 <= i < 24 ==> d[i] == spec_encode_header(h)[i],
    ensures
        header_fields_at(d) == h,
{
    assert(d[0] == (h.version / 256) as u8 && d[1] == (h.version % 256) as u8);
    assert(d[2] == (h.count / 256) as u8 && d[3] == (h.count % 256) as u8);
    assert(d[4] == (h.sys_uptime / 0x1000000) as u8 && d[5] == ((h.sys_uptime / 0x10000)
        % 0x100) as u8 && d[6] == ((h.sys_uptime / 0x100) % 0x100) as u8 && d[7] == (h.sys_uptime
        % 0x100) as u8);
    assert(d[8] == (h.unix_secs / 0x1000000) as u8 && d[9] == ((h.unix_secs / 0x10000)
        % 0x100) as u8 && d[10] == ((h.unix_secs / 0x100) % 0x100) as u8 && d[11] == (h.unix_secs
        % 0x100) as u8);
    assert(d[12] == (h.unix_nsecs / 0x1000000) as u8 && d[13] == ((h.unix_nsecs / 0x10000)
        % 0x100) as u8 && d[14] == ((h.unix_nsecs / 0x100) % 0x100) as u8 && d[15] == (h.unix_nsecs
        % 0x100) as u8);
    assert(d[16] == (h.flow_sequence / 0x1000000) as u8 && d[17] == ((h.flow_sequence / 0x10000)
        % 0x100) as u8 && d[18] == ((h.flow_sequence / 0x100) % 0x100) as u8 && d[19]
        == (h.flow_sequence % 0x100) as u8);
    assert(d[20] == h.engine_type && d[21] == h.engine_id);
    assert(d[22] == (h.sampling_interval / 256) as u8 && d[23] == (h.sampling_interval
        % 256) as u8);
    lemma_be16_round(d, 0, h.version);
    lemma_be16_round(d, 2, h.count);
    lemma_be32_round(d, 4, h.sys_uptime);
    lemma_be32_round(d, 8, h.unix_secs);
    lemma_be32_round(d, 12, h.unix_nsecs);
    lemma_be32_round(d, 16, h.flow_sequence);
    lemma_be16_round(d, 22, h.sampling_interval);
}

/// Reading the record fields out of 48 bytes that hold `f`'s encoding gives
/// `f` back.
#[verifier::rlimit(60)]
pub proof fn lemma_record_fields_at_encode(f: FlowRecordFields, d: Seq<u8>, off: int)
    requires
        0 <= off,
        off + 48 <= d.len(),
        forall|j: int| off <= j < off + 48 ==> d[j] == spec_encode_record(f)[j - off],
    ensures
        record_fields_at(d, off) == f,
{
    assert(d[off] == (f.srcaddr / 0x1000000) as u8 && d[off + 1] == ((f.srcaddr / 0x10000)
        % 0x100) as u8 && d[off + 2] == ((f.srcaddr / 0x100) % 0x100) as u8 && d[off + 3]
        == (f.srcaddr % 0x100) as u8);
    assert(d[off + 4] == (f.dstaddr / 0x1000000) as u8 && d[off + 5] == ((f.dstaddr / 0x10000)
        % 0x100) as u8 && d[off + 6] == ((f.dstaddr / 0x100) % 0x100) as u8 && d[off + 7]
        == (f.dstaddr % 0x100) as u8);
    assert(d[off + 8] == (f.nexthop / 0x1000000) as u8 && d[off + 9] == ((f.nexthop / 0x10000)
        % 0x100) as u8 && d[off + 10] == ((f.nexthop / 0x100) % 0x100) as u8 && d[off + 11]
        == (f.nexthop % 0x100) as u8);
    assert(d[off + 12] == (f.input_snmp / 256) as u8 && d[off + 13] == (f.input_snmp % 256) as u8);
    assert(d[off + 14] == (f.output_snmp / 256) as u8 && d[off + 15] == (f.output_snmp
        % 256) as u8);
    assert(d[off + 16] == (f.packets / 0x1000000) as u8 && d[off + 17] == ((f.packets / 0x10000)
        % 0x100) as u8 && d[off + 18] == ((f.packets / 0x100) % 0x100) as u8 && d[off + 19]
        == (f.packets % 0x100) as u8);
    assert(d[off + 20] == (f.bytes / 0x1000000) as u8 && d[off + 21] == ((f.bytes / 0x10000)
        % 0x100) as u8 && d[off + 22] == ((f.bytes / 0x100) % 0x100) as u8 && d[off + 23]
        == (f.bytes % 0x100) as u8);
    assert(d[off + 24] == (f.first / 0x1000000) as u8 && d[off + 25] == ((f.first / 0x10000)
        % 0x100) as u8 && d[off + 26] == ((f.first / 0x100) % 0x100) as u8 && d[off + 27]
        == (f.first % 0x100) as u8);
    assert(d[off + 28] == (f.last / 0x1000000) as u8 && d[off + 29] == ((f.last / 0x10000)
        % 0x100) as u8 && d[off + 30] == ((f.last / 0x100) % 0x100) as u8 && d[off + 31] == (f.last
        % 0x100) as u8);
    assert(d[off + 32] == (f.srcport / 256) as u8 && d[off + 33] == (f.srcport % 256) as u8);
    assert(d[off + 34] == (f.dstport / 256) as u8 && d[off + 35] == (f.dstport % 256) as u8);
    assert(d[off + 36] == f.pad1 && d[off + 37] == f.tcp_flags && d[off + 38] == f.protocol && d[off
        + 39] == f.tos);
    assert(d[off + 40] == (f.src_as / 256) as u8 && d[off + 41] == (f.src_as % 256) as u8);
    assert(d[off + 42] == (f.dst_as / 256) as u8 && d[off + 43] == (f.dst_as % 256) as u8);
    assert(d[off + 44] == f.src_mask && d[off + 45] == f.dst_mask && d[off + 46] == f.pad2);
    lemma_be32_round(d, off, f.srcaddr);
    lemma_be32_round(d, off + 4, f.dstaddr);
    lemma_be32_round(d, off + 8, f.nexthop);
    lemma_be16_round(d, off + 12, f.input_snmp);
    lemma_be16_round(d, off + 14, f.output_snmp);
    lemma_be32_round(d, off + 16, f.packets);
    lemma_be32_round(d, off + 20, f.bytes);
    lemma_be32_round(d, off + 24, f.first);
    lemma_be32_round(d, off + 28, f.last);
    lemma_be16_round(d, off + 32, f.srcport);
    lemma_be16_round(d, off + 34, f.dstport);
    lemma_be16_round(d, off + 40, f.src_as);
    lemma_be16_round(d, off + 42, f.dst_as);
}

fn encode_header_into(v: &mut Vec<u8>, h: &HeaderFields)
    ensures
        final(v)@ == old(v)@ + spec_encode_header(*h),
{
    push_be16(v, h.version);
    push_be16(v, h.count);
    push_be32(v, h.sys_uptime);
    push_be32(v, h.unix_secs);
    push_be32(v, h.unix_nsecs);
    push_be32(v, h.flow_sequence);
    v.push(h.engine_type);
    v.push(h.engine_id);
    push_be16(v, h.sampling_interval);
    proof {
        assert(v@ =~= old(v)@ + spec_encode_header(*h));
    }
}

fn encode_record_into(v: &mut Vec<u8>, f: &FlowRecordFields)
    ensures
        final(v)@ == old(v)@ + spec_encode_record(*f),
{
    push_be32(v, f.srcaddr);
    push_be32(v, f.dstaddr);
    push_be32(v, f.nexthop);
    push_be16(v, f.input_snmp);
    push_be16(v, f.output_snmp);
    push_be32(v, f.packets);
    push_be32(v, f.bytes);
    push_be32(v, f.first);
    push_be32(v, f.last);
    push_be16(v, f.srcport);
    push_be16(v, f.dstport);
    v.push(f.pad1);
    v.push(f.tcp_flags);
    v.push(f.protocol);
    v.push(f.tos);
    push_be16(v, f.src_as);
    push_be16(v, f.dst_as);
    v.push(f.src_mask);
    v.push(f.dst_mask);
    v.push(f.pad2);
    v.push(0);
    proof {
        assert(v@ =~= old(v)@ + spec_encode_record(*f));
    }
}

/// Serializes a header and its flow records into the exact wire image:
/// `HEADER_SIZE + 48 * flows.len()` bytes, every field big-endian at its
/// fixed offset. Pure serialization: no field value is validated.
#[verifier::rlimit(100)]
pub fn encode_packet(h: &HeaderFields, flows: &Vec<FlowRecordFields>) -> (r: Vec<u8>)
    requires
        flows@.len() <= 1365,
    ensures
        r@ == spec_encode_packet(*h, flows@),
        r@.len() == 24 + 48 * flows@.len(),
{
    let mut v: Vec<u8> = Vec::new();
    proof {
        assert(v@ =~= Seq::<u8>::empty());
    }
    encode_header_into(&mut v, h);
    proof {
        assert(v@ =~= spec_encode_header(*h) + spec_encode_records(flows@.take(0)));
    }
    let n = flows.len();
    let mut i: usize = 0;
    while i < n
        invariant
            i <= n,
            n == flows@.len(),
            v@ == spec_encode_header(*h) + spec_encode_records(flows@.take(i as int)),
        decreases n - i,
    {
        let ghost prefix = flows@.take(i as int);
        encode_record_into(&mut v, &flows[i]);
        i += 1;
        proof {
            let cur = flows@.take(i as int);
            let hb = spec_encode_header(*h);
            let fb = spec_encode_records(prefix);
            let rb = spec_encode_record(flows@[i - 1]);
            assert(cur.drop_last() =~= prefix);
            assert(cur.last() == flows@[i - 1]);
            assert(spec_encode_records(cur) == fb + rb);
            assert((hb + fb) + rb =~= hb + (fb + rb));
        }
    }
    proof {
        assert(flows@.take(n as int) =~= flows@);
        lemma_encode_records_len(flows@);
    }
    v
}

} // verus!
