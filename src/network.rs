use vstd::prelude::*;

verus! {

/// An IPv4 network: a 32-bit base address and a prefix length.
#[derive(Clone, Copy, Debug, PartialEq, Eq, Structural)]
pub struct V4Network {
    pub base: u32,
    pub prefix: u8,
}

/// An IPv6 network: a 128-bit base address and a prefix length.
#[derive(Clone, Copy, Debug, PartialEq, Eq, Structural)]
pub struct V6Network {
    pub base: u128,
    pub prefix: u8,
}

/// A network of either address family.
#[derive(Clone, Copy, Debug, PartialEq, Eq, Structural)]
pub enum NetworkAddress {
    V4(V4Network),
    V6(V6Network),
}

/// The IPv4 netmask of a prefix length: its `prefix` high-order bits set, the
/// others clear.
pub open spec fn v4_mask(prefix: u8) -> u32 {
    if prefix == 0 {
        0u32
    } else {
        u32::MAX << ((32 - prefix) as u32)
    }
}

/// The IPv6 netmask of a prefix length: its `prefix` high-order bits set, the
/// others clear.
pub open spec fn v6_mask(prefix: u8) -> u128 {
    if prefix == 0 {
        0u128
    } else {
        u128::MAX << ((128 - prefix) as u128)
    }
}

impl V4Network {
    /// The prefix fits the family and the base holds no host bits.
    pub open spec fn wf(self) -> bool {
        &&& self.prefix <= 32
        &&& self.base & v4_mask(self.prefix) == self.base
    }

    /// Whether the address `addr` lies in this network.
    pub open spec fn holds(self, addr: u32) -> bool {
        addr & v4_mask(self.prefix) == self.base
    }
}

impl V6Network {
    /// The prefix fits the family and the base holds no host bits.
    pub open spec fn wf(self) -> bool {
        &&& self.prefix <= 128
        &&& self.base & v6_mask(self.prefix) == self.base
    }

    /// Whether the address `addr` lies in this network.
    pub open spec fn holds(self, addr: u128) -> bool {
        addr & v6_mask(self.prefix) == self.base
    }
}

impl NetworkAddress {
    /// The prefix fits the family and the base holds no host bits.
    pub open spec fn wf(self) -> bool {
        match self {
            NetworkAddress::V4(n) => n.wf(),
            NetworkAddress::V6(n) => n.wf(),
        }
    }

    pub open spec fn is_v6(self) -> bool {
        self is V6
    }
}

/// `supernet` contains `subnet`: both are of one family, `supernet`'s prefix is
/// no longer than `subnet`'s, and `subnet`'s base lies in `supernet`.
pub open spec fn covers(supernet: NetworkAddress, subnet: NetworkAddress) -> bool {
    match (supernet, subnet) {
        (NetworkAddress::V4(a), NetworkAddress::V4(b)) => a.prefix <= b.prefix && a.holds(b.base),
        (NetworkAddress::V6(a), NetworkAddress::V6(b)) => a.prefix <= b.prefix && a.holds(b.base),
        _ => false,
    }
}

/// The network of a family that spans its whole address space (prefix 0).
pub open spec fn whole_space(v6: bool) -> NetworkAddress {
    if v6 {
        NetworkAddress::V6(V6Network { base: 0, prefix: 0 })
    } else {
        NetworkAddress::V4(V4Network { base: 0, prefix: 0 })
    }
}

pub(crate) fn ipv4_prefix_mask(prefix: u8) -> (r: u32)
    requires
        prefix <= 32,
    ensures
        r == v4_mask(prefix),
{
    if prefix == 0 {
        0
    } else {
        u32::MAX << (32 - prefix as u32)
    }
}

pub(crate) fn ipv6_prefix_mask(prefix: u8) -> (r: u128)
    requires
        prefix <= 128,
    ensures
        r == v6_mask(prefix),
{
    if prefix == 0 {
        0
    } else {
        u128::MAX << (128 - prefix as u32)
    }
}

fn contains_ipv4(supernet: &V4Network, subnet: &V4Network) -> (r: bool)
    requires
        supernet.wf(),
    ensures
        r == (supernet.prefix <= subnet.prefix && supernet.holds(subnet.base)),
{
    if supernet.prefix > subnet.prefix {
        return false;
    }
    let mask = ipv4_prefix_mask(supernet.prefix);
    supernet.base == (subnet.base & mask)
}

fn contains_ipv6(supernet: &V6Network, subnet: &V6Network) -> (r: bool)
    requires
        supernet.wf(),
    ensures
        r == (supernet.prefix <= subnet.prefix && supernet.holds(subnet.base)),
{
    if supernet.prefix > subnet.prefix {
        return false;
    }
    let mask = ipv6_prefix_mask(supernet.prefix);
    supernet.base == (subnet.base & mask)
}

/// Whether `supernet` contains `subnet`; networks of different families never
/// contain one another.
pub fn network_contains(supernet: &NetworkAddress, subnet: &NetworkAddress) -> (r: bool)
    requires
        supernet.wf(),
    ensures
        r == covers(*supernet, *subnet),
{
    match (supernet, subnet) {
        (NetworkAddress::V4(a), NetworkAddress::V4(b)) => contains_ipv4(a, b),
        (NetworkAddress::V6(a), NetworkAddress::V6(b)) => contains_ipv6(a, b),
        _ => false,
    }
}

} // verus!
