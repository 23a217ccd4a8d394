use vstd::prelude::*;

use crate::network::{
    ipv4_prefix_mask, ipv6_prefix_mask, v4_mask, v6_mask, NetworkAddress, V4Network, V6Network,
};

verus! {

/// The network that a text denotes in CIDR notation (or as a bare address, with
/// the host prefix), its address kept as it was written; `None` where the text
/// is no such network.
pub uninterp spec fn ip_network_of(text: Seq<char>) -> Option<NetworkAddress>;

/// The prefix length is within the width of the address family.
pub open spec fn prefix_fits(n: NetworkAddress) -> bool {
    match n {
        NetworkAddress::V4(a) => a.prefix <= 32,
        NetworkAddress::V6(a) => a.prefix <= 128,
    }
}

/// The network with the host bits of its address cleared.
pub open spec fn masked(n: NetworkAddress) -> NetworkAddress {
    match n {
        NetworkAddress::V4(a) => NetworkAddress::V4(
            V4Network { base: a.base & v4_mask(a.prefix), prefix: a.prefix },
        ),
        NetworkAddress::V6(a) => NetworkAddress::V6(
            V6Network { base: a.base & v6_mask(a.prefix), prefix: a.prefix },
        ),
    }
}

/// The network that a text denotes, reduced to its network address.
pub open spec fn network_of_text(text: Seq<char>) -> Option<NetworkAddress> {
    match ip_network_of(text) {
        Some(n) => Some(masked(n)),
        None => None,
    }
}

/// The network in a nullable cell of text; `None` for a null cell or text that
/// is no network.
pub open spec fn network_of_cell(cell: Option<String>) -> Option<NetworkAddress> {
    match cell {
        Some(s) => network_of_text(s@),
        None => None,
    }
}

/// Relies on ipnetwork's `FromStr for IpNetwork`, read through
/// `Ipv4Network::ip` / `Ipv6Network::ip` and `prefix`: the address as written
/// and the prefix length, which `Ipv4Network::new` / `Ipv6Network::new` keep
/// within 32 / 128 bits.
#[verifier::external_body]
fn parse_ip_network(text: &str) -> (r: Option<NetworkAddress>)
    ensures
        r == ip_network_of(text@),
        r matches Some(n) ==> prefix_fits(n),
{
    match text.parse::<ipnetwork::IpNetwork>() {
        Ok(ipnetwork::IpNetwork::V4(n)) => Some(
            NetworkAddress::V4(V4Network { base: u32::from(n.ip()), prefix: n.prefix() }),
        ),
        Ok(ipnetwork::IpNetwork::V6(n)) => Some(
            NetworkAddress::V6(V6Network { base: u128::from(n.ip()), prefix: n.prefix() }),
        ),
        Err(_) => None,
    }
}

/// Clears the host bits of a network's address.
fn to_network_boundary(n: NetworkAddress) -> (r: NetworkAddress)
    requires
        prefix_fits(n),
    ensures
        r == masked(n),
        r.wf(),
{
    match n {
        NetworkAddress::V4(a) => {
            let mask = ipv4_prefix_mask(a.prefix);
            let written = a.base;
            let base = written & mask;
            assert(base & mask == base) by (bit_vector)
                requires
                    base == written & mask,
            ;
            NetworkAddress::V4(V4Network { base, prefix: a.prefix })
        },
        NetworkAddress::V6(a) => {
            let mask = ipv6_prefix_mask(a.prefix);
            let written = a.base;
            let base = written & mask;
            assert(base & mask == base) by (bit_vector)
                requires
                    base == written & mask,
            ;
            NetworkAddress::V6(V6Network { base, prefix: a.prefix })
        },
    }
}

/// Parses a network in CIDR notation or a bare address (host prefix), and
/// reduces it to its network address.
pub fn parse_network(text: &str) -> (r: Option<NetworkAddress>)
    ensures
        r == network_of_text(text@),
        r matches Some(n) ==> n.wf(),
{
    match parse_ip_network(text) {
        Some(n) => Some(to_network_boundary(n)),
        None => None,
    }
}

/// Parses a nullable cell; null and unparsable text both give `None`.
pub fn parse_optional_network(value: &Option<String>) -> (r: Option<NetworkAddress>)
    ensures
        r == network_of_cell(*value),
        r matches Some(n) ==> n.wf(),
{
    match value {
        Some(text) => parse_network(text.as_str()),
        None => None,
    }
}

} // verus!
