//! Laws that tie the encoder and the decoder together: a wire image decodes
//! back to the packet it was made from, and truncating a wire image anywhere
//! only shortens the decoded flow list, never corrupts it.

use vstd::arithmetic::div_mod::{
    lemma_div_is_ordered, lemma_div_multiples_vanish, lemma_fundamental_div_mod, lemma_mod_bound,
};
use vstd::prelude::*;

use crate::decode::{packet_decode_ok, spec_num_flows};
use crate::encode::{
    lemma_encode_records_index, lemma_encode_records_len, lemma_header_fields_at_encode,
    lemma_record_fields_at_encode, spec_encode_header, spec_encode_packet, spec_encode_record,
    spec_encode_records,
};
use crate::packet::{
    header_display, header_fields_at, record_display, record_fields_at, FlowRecordFields,
    HeaderFields, PacketView,
};

verus! {

/// Round trip: a wire image built from header fields `h` and records `flows`
/// (with `h.count` honest about the record count) reads back as exactly those
/// fields — the header fields at their offsets, the same number of records,
/// and every record equal to the one encoded. Together with the decoder's
/// contract this says `decode(encode(p))` returns `p`, up to the provenance
/// and the derived calendar text that bytes never carried.
pub proof fn lemma_encode_decode_round_trip(h: HeaderFields, flows: Seq<FlowRecordFields>)
    requires
        h.count == flows.len(),
    ensures
        ({
            let d = spec_encode_packet(h, flows);
            &&& d.len() == 24 + 48 * flows.len()
            &&& header_fields_at(d) == h
            &&& spec_num_flows(d) == flows.len()
            &&& forall|i: int|
                0 <= i < flows.len() ==> record_fields_at(d, 24 + 48 * i) == flows[i]
        }),
{
    let d = spec_encode_packet(h, flows);
    let hb = spec_encode_header(h);
    let rb = spec_encode_records(flows);
    lemma_encode_records_len(flows);
    assert(hb.len() == 24);
    assert(d.len() == 24 + 48 * flows.len());

    assert forall|i: int| 0 <= i < 24 implies d[i] == hb[i] by {}
    lemma_header_fields_at_encode(h, d);

    lemma_div_multiples_vanish(flows.len() as int, 48);
    assert((48 * flows.len()) / 48 == flows.len());
    assert(spec_num_flows(d) == flows.len());

    assert forall|i: int| 0 <= i < flows.len() implies record_fields_at(d, 24 + 48 * i)
        == flows[i] by {
        let off = 24 + 48 * i;
        assert forall|j: int| off <= j < off + 48 implies d[j] == spec_encode_record(flows[i])[j
            - off] by {
            assert(d[j] == rb[j - 24]);
            lemma_encode_records_index(flows, i, j - off);
            assert(j - 24 == 48 * i + (j - off));
        }
        lemma_record_fields_at_encode(flows[i], d, off);
    }
}

/// Round trip, stated against the decoder's own contract: whatever packet
/// view the decoder returns for the wire image of `(h, flows)` — with any
/// provenance — has `h`'s header under the derived calendar text, and
/// exactly `flows` under their display form, in order. Provenance is the
/// caller's, not recovered from bytes.
pub proof fn lemma_decode_of_encode(
    h: HeaderFields,
    flows: Seq<FlowRecordFields>,
    p: PacketView,
    source_addr: Seq<char>,
    source_port: u16,
    packet_number: u32,
)
    requires
        h.count == flows.len(),
        packet_decode_ok(
            p,
            spec_encode_packet(h, flows),
            source_addr,
            source_port,
            packet_number,
        ),
    ensures
        p.header == header_display(h),
        p.flows.len() == flows.len(),
        forall|i: int| 0 <= i < flows.len() ==> p.flows[i] == record_display(flows[i]),
        p.source_addr == source_addr,
        p.source_port == source_port,
        p.packet_number == packet_number,
{
    lemma_encode_decode_round_trip(h, flows);
}

/// Truncation safety: cut a wire image anywhere. A cut inside the header
/// leaves fewer than 24 bytes, which the decoder rejects as `TooShort`. A cut
/// after the header still reads back the same header fields, and yields
/// exactly the records whose full 48-byte span survived the cut — each equal
/// to the record that was encoded, with any partial trailing record dropped.
pub proof fn lemma_truncation_safety(h: HeaderFields, flows: Seq<FlowRecordFields>, cut: int)
    requires
        h.count == flows.len(),
        0 <= cut <= 24 + 48 * flows.len(),
    ensures
        ({
            let d = spec_encode_packet(h, flows).take(cut);
            &&& d.len() == cut
            &&& cut >= 24 ==> {
                &&& header_fields_at(d) == h
                &&& spec_num_flows(d) == (cut - 24) / 48
                &&& spec_num_flows(d) <= flows.len()
                &&& forall|i: int|
                    0 <= i < spec_num_flows(d) ==> record_fields_at(d, 24 + 48 * i) == flows[i]
            }
        }),
{
    let full = spec_encode_packet(h, flows);
    let hb = spec_encode_header(h);
    let rb = spec_encode_records(flows);
    lemma_encode_records_len(flows);
    assert(hb.len() == 24);
    let d = full.take(cut);
    if cut >= 24 {
        assert forall|i: int| 0 <= i < 24 implies d[i] == hb[i] by {
            assert(d[i] == full[i]);
        }
        lemma_header_fields_at_encode(h, d);

        let avail = (cut - 24) / 48;
        lemma_div_is_ordered(cut - 24, 48 * (flows.len() as int), 48);
        lemma_div_multiples_vanish(flows.len() as int, 48);
        assert(avail <= flows.len());
        assert(h.count == flows.len() && header_fields_at(d).count == h.count);
        assert(spec_num_flows(d) == avail);

        lemma_fundamental_div_mod(cut - 24, 48);
        lemma_mod_bound(cut - 24, 48);
        assert(48 * avail <= cut - 24);

        assert forall|i: int| 0 <= i < avail implies record_fields_at(d, 24 + 48 * i)
            == flows[i] by {
            let off = 24 + 48 * i;
            assert(48 * i + 48 <= 48 * avail) by {
                assert(48 * i <= 48 * (avail - 1));
            }
            assert forall|j: int| off <= j < off + 48 implies d[j] == spec_encode_record(
                flows[i],
            )[j - off] by {
                assert(d[j] == full[j]);
                assert(full[j] == rb[j - 24]);
                lemma_encode_records_index(flows, i, j - off);
                assert(j - 24 == 48 * i + (j - off));
            }
            lemma_record_fields_at_encode(flows[i], d, off);
        }
    }
}

} // verus!
