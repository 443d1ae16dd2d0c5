//! NetFlow v5 wire layout: sizes, big-endian field access, and the byte-level
//! meaning of a header and of a flow record.

use vstd::prelude::*;

verus! {

/// Number of bytes in a NetFlow v5 packet header.
pub const HEADER_SIZE: usize = 24;

/// Number of bytes in one NetFlow v5 flow record.
pub const FLOW_RECORD_SIZE: usize = 48;

/// The value of the big-endian 16-bit field that starts at byte `i` of `d`.
pub open spec fn be16_at(d: Seq<u8>, i: int) -> u16 {
    (d[i] * 256 + d[i + 1]) as u16
}

/// The value of the big-endian 32-bit field that starts at byte `i` of `d`.
pub open spec fn be32_at(d: Seq<u8>, i: int) -> u32 {
    (d[i] * 0x1000000 + d[i + 1] * 0x10000 + d[i + 2] * 0x100 + d[i + 3]) as u32
}

/// The two bytes of `x` in big-endian order.
pub open spec fn be16_bytes(x: u16) -> Seq<u8> {
    seq![(x / 256) as u8, (x % 256) as u8]
}

/// The four bytes of `x` in big-endian order.
pub open spec fn be32_bytes(x: u32) -> Seq<u8> {
    seq![
        (x / 0x1000000) as u8,
        ((x / 0x10000) % 0x100) as u8,
        ((x / 0x100) % 0x100) as u8,
        (x % 0x100) as u8,
    ]
}

/// Reads back the two big-endian bytes of a 16-bit value.
pub proof fn lemma_be16_round(d: Seq<u8>, i: int, x: u16)
    requires
        0 <= i,
        i + 2 <= d.len(),
        d[i] == (x / 256) as u8,
        d[i + 1] == (x % 256) as u8,
    ensures
        be16_at(d, i) == x,
{
}

/// Reads back the four big-endian bytes of a 32-bit value.
pub proof fn lemma_be32_round(d: Seq<u8>, i: int, x: u32)
    requires
        0 <= i,
        i + 4 <= d.len(),
        d[i] == (x / 0x1000000) as u8,
        d[i + 1] == ((x / 0x10000) % 0x100) as u8,
        d[i + 2] == ((x / 0x100) % 0x100) as u8,
        d[i + 3] == (x % 0x100) as u8,
    ensures
        be32_at(d, i) == x,
{
    assert(x == (x / 0x1000000) * 0x1000000 + ((x / 0x10000) % 0x100) * 0x10000
        + ((x / 0x100) % 0x100) * 0x100 + x % 0x100) by (bit_vector);
}

/// Reads a big-endian 16-bit field from a byte vector.
pub fn read_be16(d: &Vec<u8>, i: usize) -> (r: u16)
    requires
        i + 2 <= d@.len(),
    ensures
        r == be16_at(d@, i as int),
{
    let n: usize = d.len();
    proof {
        assert(i + 2 <= n);
    }
    (d[i] as u16) * 256 + (d[i + 1] as u16)
}

/// Reads a big-endian 32-bit field from a byte vector.
pub fn read_be32(d: &Vec<u8>, i: usize) -> (r: u32)
    requires
        i + 4 <= d@.len(),
    ensures
        r == be32_at(d@, i as int),
{
    let n: usize = d.len();
    proof {
        assert(i + 4 <= n);
    }
    (d[i] as u32) * 0x1000000 + (d[i + 1] as u32) * 0x10000 + (d[i + 2] as u32) * 0x100
        + (d[i + 3] as u32)
}

/// Appends the two big-endian bytes of `x` to `v`.
pub fn push_be16(v: &mut Vec<u8>, x: u16)
    ensures
        final(v)@ == old(v)@ + be16_bytes(x),
{
    v.push((x / 256) as u8);
    v.push((x % 256) as u8);
    proof {
        assert(v@ =~= old(v)@ + be16_bytes(x));
    }
}

/// Appends the four big-endian bytes of `x` to `v`.
pub fn push_be32(v: &mut Vec<u8>, x: u32)
    ensures
        final(v)@ == old(v)@ + be32_bytes(x),
{
    v.push((x / 0x1000000) as u8);
    v.push(((x / 0x10000) % 0x100) as u8);
    v.push(((x / 0x100) % 0x100) as u8);
    v.push((x % 0x100) as u8);
    proof {
        assert(v@ =~= old(v)@ + be32_bytes(x));
    }
}

} // verus!
