//! Encoding of the fixed 21-byte query record.

use vstd::prelude::*;
use vstd::array::array_index_get;
use crate::wire::{le_bytes_of_u32, lemma_le_bytes_of_u32_roundtrip, wire_u32};
use crate::{ADDRESS_IPV4, ADDRESS_IPV6, REQUEST_MAGIC, REQUEST_SIZE};

verus! {

/// An IP address, as the raw octets the wire format carries.
#[derive(Clone, Copy, Debug, PartialEq, Eq)]
pub enum IpAddress {
    V4([u8; 4]),
    V6([u8; 16]),
}

/// The exact bytes of the query record for `addr`: the request magic, the
/// address-family tag, then the address octets padded to 16 bytes.
pub open spec fn spec_request(addr: IpAddress) -> Seq<u8> {
    le_bytes_of_u32(REQUEST_MAGIC) + (match addr {
        IpAddress::V4(octets) => seq![ADDRESS_IPV4] + octets@ + Seq::new(12, |i: int| 0u8),
        IpAddress::V6(octets) => seq![ADDRESS_IPV6] + octets@,
    })
}

/// Builds the 21-byte query record for `addr`. Encoding cannot fail.
pub fn encode_request(addr: &IpAddress) -> (r: Vec<u8>)
    ensures
        r@ == spec_request(*addr),
        r@.len() == REQUEST_SIZE,
{
    let mut out: Vec<u8> = Vec::new();
    out.push((REQUEST_MAGIC % 0x100) as u8);
    out.push(((REQUEST_MAGIC / 0x100) % 0x100) as u8);
    out.push(((REQUEST_MAGIC / 0x10000) % 0x100) as u8);
    out.push(((REQUEST_MAGIC / 0x1000000) % 0x100) as u8);
    proof {
        assert(out@ =~= le_bytes_of_u32(REQUEST_MAGIC));
    }
    match addr {
        IpAddress::V4(octets) => {
            out.push(ADDRESS_IPV4);
            let mut i: usize = 0;
            while i < 4
                invariant
                    0 <= i <= 4,
                    out@ == le_bytes_of_u32(REQUEST_MAGIC) + seq![ADDRESS_IPV4]
                        + octets@.subrange(0, i as int),
                decreases 4 - i,
            {
                out.push(*array_index_get(octets, i));
                i = i + 1;
                proof {
                    assert(octets@.subrange(0, i as int) =~= octets@.subrange(0, i - 1).push(
                        octets@[i - 1],
                    ));
                }
            }
            let mut j: usize = 0;
            while j < 12
                invariant
                    0 <= j <= 12,
                    out@ == le_bytes_of_u32(REQUEST_MAGIC) + seq![ADDRESS_IPV4] + octets@
                        + Seq::new(j as nat, |k: int| 0u8),
                decreases 12 - j,
            {
                out.push(0u8);
                j = j + 1;
                proof {
                    assert(Seq::new(j as nat, |k: int| 0u8) =~= Seq::new((j - 1) as nat, |k: int| 0u8)
                        .push(0u8));
                }
            }
            proof {
                assert(octets@.subrange(0, 4) =~= octets@);
                assert(out@ =~= spec_request(*addr));
            }
        },
        IpAddress::V6(octets) => {
            out.push(ADDRESS_IPV6);
            let mut i: usize = 0;
            while i < 16
                invariant
                    0 <= i <= 16,
                    out@ == le_bytes_of_u32(REQUEST_MAGIC) + seq![ADDRESS_IPV6]
                        + octets@.subrange(0, i as int),
                decreases 16 - i,
            {
                out.push(*array_index_get(octets, i));
                i = i + 1;
                proof {
                    assert(octets@.subrange(0, i as int) =~= octets@.subrange(0, i - 1).push(
                        octets@[i - 1],
                    ));
                }
            }
            proof {
                assert(octets@.subrange(0, 16) =~= octets@);
                assert(out@ =~= spec_request(*addr));
            }
        },
    }
    out
}

/// Encoding an IPv4 address gives exactly 21 bytes: the request magic, the
/// IPv4 tag, the four address octets at offsets 5 through 8, and zero
/// padding at offsets 9 through 20.
pub proof fn lemma_encode_ipv4(octets: [u8; 4])
    ensures
        spec_request(IpAddress::V4(octets)).len() == 21,
        wire_u32(spec_request(IpAddress::V4(octets)), 0) == REQUEST_MAGIC as int,
        spec_request(IpAddress::V4(octets))[4] == ADDRESS_IPV4,
        forall|i: int| 0 <= i < 4 ==> spec_request(IpAddress::V4(octets))[5 + i] == octets@[i],
        forall|i: int| 9 <= i < 21 ==> spec_request(IpAddress::V4(octets))[i] == 0u8,
{
    lemma_le_bytes_of_u32_roundtrip(REQUEST_MAGIC);
}

/// Encoding an IPv6 address gives exactly 21 bytes: the request magic, the
/// IPv6 tag, then the sixteen address octets at offsets 5 through 20.
pub proof fn lemma_encode_ipv6(octets: [u8; 16])
    ensures
        spec_request(IpAddress::V6(octets)).len() == 21,
        wire_u32(spec_request(IpAddress::V6(octets)), 0) == REQUEST_MAGIC as int,
        spec_request(IpAddress::V6(octets))[4] == ADDRESS_IPV6,
        forall|i: int| 0 <= i < 16 ==> spec_request(IpAddress::V6(octets))[5 + i] == octets@[i],
{
    lemma_le_bytes_of_u32_roundtrip(REQUEST_MAGIC);
}

} // verus!
