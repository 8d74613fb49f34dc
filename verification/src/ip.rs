//! IP addresses as plain numbers.

use vstd::prelude::*;

verus! {

/// An IP address: the 32 bits of a version 4 address, or the 128 bits of a version 6 address,
/// the first octet in the highest bits.
#[derive(Clone, Copy, Debug, PartialEq, Eq, Structural)]
pub enum IpAddr {
    V4(u32),
    V6(u128),
}

impl IpAddr {
    /// The version 4 address written `a.b.c.d`.
    pub fn from_octets(a: u8, b: u8, c: u8, d: u8) -> (ip: Self)
        ensures
            ip == IpAddr::V4((a * 0x100_0000 + b * 0x1_0000 + c * 0x100 + d) as u32),
    {
        IpAddr::V4(a as u32 * 0x100_0000 + b as u32 * 0x1_0000 + c as u32 * 0x100 + d as u32)
    }
}

/// Whether `ip` stands in `ips`.
pub fn contains_ip(ips: &Vec<IpAddr>, ip: IpAddr) -> (found: bool)
    ensures
        found == ips@.contains(ip),
{
    for i in 0..ips.len()
        invariant
            forall|j: int| 0 <= j < i ==> ips@[j] != ip,
    {
        if ips[i] == ip {
            assert(ips@[i as int] == ip);
            return true;
        }
    }
    false
}

} // verus!
