use vstd::prelude::*;

use crate::endian::Endian;

verus! {

/// The `u32` whose big-endian representation is the four bytes `b0..b3`.
pub open spec fn u32_from_be(b0: u8, b1: u8, b2: u8, b3: u8) -> u32 {
    ((b0 as u32) << 24) | ((b1 as u32) << 16) | ((b2 as u32) << 8) | (b3 as u32)
}

/// The `u32` whose little-endian representation is the four bytes `b0..b3`.
pub open spec fn u32_from_le(b0: u8, b1: u8, b2: u8, b3: u8) -> u32 {
    ((b3 as u32) << 24) | ((b2 as u32) << 16) | ((b1 as u32) << 8) | (b0 as u32)
}

/// The `u32` stored at offset `off` of `data` in byte order `e`.
pub open spec fn u32_at(data: Seq<u8>, off: int, e: Endian) -> u32
    recommends
        0 <= off,
        off + 4 <= data.len(),
{
    match e {
        Endian::Big => u32_from_be(data[off], data[off + 1], data[off + 2], data[off + 3]),
        Endian::Little => u32_from_le(data[off], data[off + 1], data[off + 2], data[off + 3]),
    }
}

/// The four-byte representation of `v` in byte order `e`.
pub open spec fn u32_bytes(v: u32, e: Endian) -> Seq<u8> {
    match e {
        Endian::Big => seq![(v >> 24) as u8, (v >> 16) as u8, (v >> 8) as u8, v as u8],
        Endian::Little => seq![v as u8, (v >> 8) as u8, (v >> 16) as u8, (v >> 24) as u8],
    }
}

/// A `u32` read wholly inside the left part of a concatenation reads the
/// same there.
pub proof fn lemma_u32_at_prepend(a: Seq<u8>, b: Seq<u8>, off: int, e: Endian)
    requires
        0 <= off,
        off + 4 <= a.len(),
    ensures
        u32_at(a + b, off, e) == u32_at(a, off, e),
{
    assert((a + b)[off] == a[off]);
    assert((a + b)[off + 1] == a[off + 1]);
    assert((a + b)[off + 2] == a[off + 2]);
    assert((a + b)[off + 3] == a[off + 3]);
}

/// A `u32` read wholly inside the right part of a concatenation reads the
/// same there, at the shifted offset.
pub proof fn lemma_u32_at_append(a: Seq<u8>, b: Seq<u8>, off: int, e: Endian)
    requires
        a.len() <= off,
        off + 4 <= a.len() + b.len(),
    ensures
        u32_at(a + b, off, e) == u32_at(b, off - a.len(), e),
{
    assert((a + b)[off] == b[off - a.len()]);
    assert((a + b)[off + 1] == b[off + 1 - a.len()]);
    assert((a + b)[off + 2] == b[off + 2 - a.len()]);
    assert((a + b)[off + 3] == b[off + 3 - a.len()]);
}

/// Decoding the four-byte representation of `v` in the same byte order
/// gives back exactly `v`.
pub proof fn lemma_u32_round_trip(v: u32, e: Endian)
    ensures
        u32_at(u32_bytes(v, e), 0, e) == v,
{
    let s = u32_bytes(v, e);
    match e {
        Endian::Big => {
            assert(u32_from_be((v >> 24) as u8, (v >> 16) as u8, (v >> 8) as u8, v as u8) == v)
                by (bit_vector);
            assert(s[0] == (v >> 24) as u8 && s[1] == (v >> 16) as u8 && s[2] == (v >> 8) as u8
                && s[3] == v as u8);
        },
        Endian::Little => {
            assert(u32_from_le(v as u8, (v >> 8) as u8, (v >> 16) as u8, (v >> 24) as u8) == v)
                by (bit_vector);
            assert(s[0] == v as u8 && s[1] == (v >> 8) as u8 && s[2] == (v >> 16) as u8 && s[3]
                == (v >> 24) as u8);
        },
    }
}

} // verus!
