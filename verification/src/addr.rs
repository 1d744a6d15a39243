//! IP addresses as plain values: an IPv4 address is its 32-bit value, an IPv6
//! address its 128-bit value. The engine only ever compares addresses and
//! copies them into records, so nothing more than the numeric value and the
//! family is modelled.

use vstd::prelude::*;

verus! {

/// The two address families the engine manages: `V4` for A records, `V6` for
/// AAAA records.
#[derive(Clone, Copy, Debug, PartialEq, Eq, Structural)]
pub enum AddressFamily {
    V4,
    V6,
}

/// An IP address of either family, held as its numeric value.
#[derive(Clone, Copy, Debug, PartialEq, Eq, Structural)]
pub enum Address {
    V4(u32),
    V6(u128),
}

impl Address {
    /// The family an address value belongs to.
    pub open spec fn spec_family(self) -> AddressFamily {
        match self {
            Address::V4(_) => AddressFamily::V4,
            Address::V6(_) => AddressFamily::V6,
        }
    }

    pub fn family(&self) -> (f: AddressFamily)
        ensures
            f == self.spec_family(),
    {
        match self {
            Address::V4(_) => AddressFamily::V4,
            Address::V6(_) => AddressFamily::V6,
        }
    }
}

/// Builds the IPv4 address `a.b.c.d`.
pub fn ipv4_from_octets(a: u8, b: u8, c: u8, d: u8) -> (r: Address)
    ensures
        r matches Address::V4(v) && v == (a as int) * 0x100_0000 + (b as int) * 0x1_0000 + (
        c as int) * 0x100 + (d as int),
{
    Address::V4(
        (a as u32) * 0x100_0000 + (b as u32) * 0x1_0000 + (c as u32) * 0x100 + (d as u32),
    )
}

/// Builds the IPv6 address `s0:s1:s2:s3:s4:s5:s6:s7` from its eight 16-bit
/// segments.
pub fn ipv6_from_segments(
    s0: u16,
    s1: u16,
    s2: u16,
    s3: u16,
    s4: u16,
    s5: u16,
    s6: u16,
    s7: u16,
) -> (r: Address)
    ensures
        r == Address::V6(
            (s0 as u128) << 112 | (s1 as u128) << 96 | (s2 as u128) << 80 | (s3 as u128) << 64
                | (s4 as u128) << 48 | (s5 as u128) << 32 | (s6 as u128) << 16 | (s7 as u128),
        ),
{
    Address::V6(
        (s0 as u128) << 112 | (s1 as u128) << 96 | (s2 as u128) << 80 | (s3 as u128) << 64
            | (s4 as u128) << 48 | (s5 as u128) << 32 | (s6 as u128) << 16 | (s7 as u128),
    )
}

} // verus!
