//! The wire format's integer encoding: multi-byte values laid out
//! least-significant byte first.

use vstd::prelude::*;

verus! {

/// The four bytes of `x`, least-significant first.
pub open spec fn le_bytes_of_u32(x: u32) -> Seq<u8> {
    seq![
        (x % 0x100) as u8,
        ((x / 0x100) % 0x100) as u8,
        ((x / 0x10000) % 0x100) as u8,
        ((x / 0x1000000) % 0x100) as u8,
    ]
}

/// The unsigned 32-bit value stored at `off` in `s`.
pub open spec fn wire_u32(s: Seq<u8>, off: int) -> int
    recommends
        0 <= off,
        off + 4 <= s.len(),
{
    s[off] + s[off + 1] * 0x100 + s[off + 2] * 0x10000 + s[off + 3] * 0x1000000
}

/// The unsigned 16-bit value stored at `off` in `s`.
pub open spec fn wire_u16(s: Seq<u8>, off: int) -> int
    recommends
        0 <= off,
        off + 2 <= s.len(),
{
    s[off] + s[off + 1] * 0x100
}

/// The signed 16-bit value stored at `off` in `s`: the two's-complement
/// reading of the unsigned one.
pub open spec fn wire_i16(s: Seq<u8>, off: int) -> int
    recommends
        0 <= off,
        off + 2 <= s.len(),
{
    if wire_u16(s, off) >= 0x8000 {
        wire_u16(s, off) - 0x10000
    } else {
        wire_u16(s, off)
    }
}

/// Reading four bytes back gives the value they were made from.
pub proof fn lemma_le_bytes_of_u32_roundtrip(x: u32)
    ensures
        le_bytes_of_u32(x).len() == 4,
        wire_u32(le_bytes_of_u32(x), 0) == x,
{
}

} // verus!
