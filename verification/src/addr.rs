//! IP addresses as the library models them.
//!
//! An address is either a 32-bit v4 address or a 128-bit v6 address, held as
//! its numeric value in network byte order.  The two variants never compare
//! equal, even when the numeric values coincide, and the order between
//! addresses puts every v4 address below every v6 address, with numeric order
//! inside each variant.

use vstd::prelude::*;

verus! {

#[derive(Debug, Clone, Copy, PartialEq, Eq, PartialOrd, Ord, Hash, Structural)]
pub enum IpAddr {
    V4(u32),
    V6(u128),
}

impl IpAddr {
    /// The v4 address with octets `a.b.c.d`.
    pub open spec fn spec_v4_from_octets(a: u8, b: u8, c: u8, d: u8) -> IpAddr {
        IpAddr::V4(
            ((a as u32) * 0x1000000 + (b as u32) * 0x10000 + (c as u32) * 0x100
                + (d as u32)) as u32,
        )
    }

    pub fn v4_from_octets(a: u8, b: u8, c: u8, d: u8) -> (r: IpAddr)
        ensures
            r == IpAddr::spec_v4_from_octets(a, b, c, d),
    {
        IpAddr::V4((a as u32) * 0x1000000 + (b as u32) * 0x10000 + (c as u32) * 0x100 + (d as u32))
    }

    /// The v6 address whose 16 octets are `o`, most significant first.
    pub open spec fn spec_v6_from_octets(o: Seq<u8>) -> IpAddr
        recommends
            o.len() == 16,
    {
        IpAddr::V6(be_value_16(o, 0))
    }

    pub fn v6_from_octets(o: &[u8]) -> (r: IpAddr)
        requires
            o@.len() == 16,
        ensures
            r == IpAddr::spec_v6_from_octets(o@),
    {
        let hi: u64 = (*vstd::slice::slice_index_get(o, 0) as u64) * 0x100000000000000
            + (*vstd::slice::slice_index_get(o, 1) as u64) * 0x1000000000000
            + (*vstd::slice::slice_index_get(o, 2) as u64) * 0x10000000000
            + (*vstd::slice::slice_index_get(o, 3) as u64) * 0x100000000
            + (*vstd::slice::slice_index_get(o, 4) as u64) * 0x1000000
            + (*vstd::slice::slice_index_get(o, 5) as u64) * 0x10000
            + (*vstd::slice::slice_index_get(o, 6) as u64) * 0x100
            + (*vstd::slice::slice_index_get(o, 7) as u64);
        let lo: u64 = (*vstd::slice::slice_index_get(o, 8) as u64) * 0x100000000000000
            + (*vstd::slice::slice_index_get(o, 9) as u64) * 0x1000000000000
            + (*vstd::slice::slice_index_get(o, 10) as u64) * 0x10000000000
            + (*vstd::slice::slice_index_get(o, 11) as u64) * 0x100000000
            + (*vstd::slice::slice_index_get(o, 12) as u64) * 0x1000000
            + (*vstd::slice::slice_index_get(o, 13) as u64) * 0x10000
            + (*vstd::slice::slice_index_get(o, 14) as u64) * 0x100
            + (*vstd::slice::slice_index_get(o, 15) as u64);
        IpAddr::V6((hi as u128) * 0x10000000000000000 + (lo as u128))
    }
}

/// The numeric value of the 16 bytes of `s` that start at `i`, most
/// significant first.
pub open spec fn be_value_16(s: Seq<u8>, i: int) -> u128
    recommends
        0 <= i,
        i + 16 <= s.len(),
{
    ((be_value_8(s, i) as u128) * 0x10000000000000000 + (be_value_8(s, i + 8) as u128)) as u128
}

/// The numeric value of the 8 bytes of `s` that start at `i`, most
/// significant first.
pub open spec fn be_value_8(s: Seq<u8>, i: int) -> u64
    recommends
        0 <= i,
        i + 8 <= s.len(),
{
    ((s[i] as u64) * 0x100000000000000 + (s[i + 1] as u64) * 0x1000000000000 + (s[i + 2] as u64)
        * 0x10000000000 + (s[i + 3] as u64) * 0x100000000 + (s[i + 4] as u64) * 0x1000000 + (s[i
        + 5] as u64) * 0x10000 + (s[i + 6] as u64) * 0x100 + (s[i + 7] as u64)) as u64
}

/// The two address families are distinct: a v4 address never equals a v6
/// address, whatever the numeric values.
pub proof fn lemma_v4_v6_distinct(a: u32, b: u128)
    ensures
        IpAddr::V4(a) != IpAddr::V6(b),
{
}

} // verus!
