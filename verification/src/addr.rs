//! Network addresses as plain values, and the classifier that decides
//! whether an address is globally routable (worth tracking) or reserved.
use vstd::prelude::*;

verus! {

/// An IPv4 address as its four octets, in network order.
#[derive(Clone, Copy, PartialEq, Eq, Structural, Debug, Hash)]
pub struct Ipv4Address {
    pub o0: u8,
    pub o1: u8,
    pub o2: u8,
    pub o3: u8,
}

/// An IPv6 address as its eight 16-bit groups, in network order.
#[derive(Clone, Copy, PartialEq, Eq, Structural, Debug, Hash)]
pub struct Ipv6Address {
    pub g0: u16,
    pub g1: u16,
    pub g2: u16,
    pub g3: u16,
    pub g4: u16,
    pub g5: u16,
    pub g6: u16,
    pub g7: u16,
}

/// A network-layer address of either family.
#[derive(Clone, Copy, PartialEq, Eq, Structural, Debug, Hash)]
pub enum IpAddress {
    V4(Ipv4Address),
    V6(Ipv6Address),
}

/// 10.0.0.0/8, 172.16.0.0/12 or 192.168.0.0/16.
pub open spec fn spec_v4_private(a: Ipv4Address) -> bool {
    ||| a.o0 == 10
    ||| a.o0 == 172 && 16 <= a.o1 <= 31
    ||| a.o0 == 192 && a.o1 == 168
}

/// 127.0.0.0/8.
pub open spec fn spec_v4_loopback(a: Ipv4Address) -> bool {
    a.o0 == 127
}

/// 169.254.0.0/16.
pub open spec fn spec_v4_link_local(a: Ipv4Address) -> bool {
    a.o0 == 169 && a.o1 == 254
}

/// 255.255.255.255.
pub open spec fn spec_v4_broadcast(a: Ipv4Address) -> bool {
    a.o0 == 255 && a.o1 == 255 && a.o2 == 255 && a.o3 == 255
}

/// 0.0.0.0.
pub open spec fn spec_v4_unspecified(a: Ipv4Address) -> bool {
    a.o0 == 0 && a.o1 == 0 && a.o2 == 0 && a.o3 == 0
}

/// 224.0.0.0/4.
pub open spec fn spec_v4_multicast(a: Ipv4Address) -> bool {
    224 <= a.o0 <= 239
}

/// The carrier-grade-NAT block 100.64.0.0/10.
pub open spec fn spec_v4_cgnat(a: Ipv4Address) -> bool {
    a.o0 == 100 && 64 <= a.o1 <= 127
}

/// ::1.
pub open spec fn spec_v6_loopback(a: Ipv6Address) -> bool {
    a.g0 == 0 && a.g1 == 0 && a.g2 == 0 && a.g3 == 0 && a.g4 == 0 && a.g5 == 0 && a.g6 == 0
        && a.g7 == 1
}

/// ::.
pub open spec fn spec_v6_unspecified(a: Ipv6Address) -> bool {
    a.g0 == 0 && a.g1 == 0 && a.g2 == 0 && a.g3 == 0 && a.g4 == 0 && a.g5 == 0 && a.g6 == 0
        && a.g7 == 0
}

/// ff00::/8.
pub open spec fn spec_v6_multicast(a: Ipv6Address) -> bool {
    a.g0 >= 0xFF00
}

/// A globally routable address: one in none of the reserved ranges above.
/// Unique-local and other private IPv6 ranges are a known gap of this
/// classifier and deliberately not excluded.
pub open spec fn is_globally_routable(ip: IpAddress) -> bool {
    match ip {
        IpAddress::V4(a) => {
            &&& !spec_v4_private(a)
            &&& !spec_v4_loopback(a)
            &&& !spec_v4_link_local(a)
            &&& !spec_v4_broadcast(a)
            &&& !spec_v4_unspecified(a)
            &&& !spec_v4_multicast(a)
            &&& !spec_v4_cgnat(a)
        },
        IpAddress::V6(a) => {
            &&& !spec_v6_loopback(a)
            &&& !spec_v6_unspecified(a)
            &&& !spec_v6_multicast(a)
        },
    }
}

/// Decides whether an address is globally routable and therefore worth
/// tracking. Pure predicate: private, loopback, link-local, broadcast,
/// unspecified, multicast and carrier-grade-NAT IPv4 addresses are rejected,
/// as are loopback, unspecified and multicast IPv6 addresses.
pub fn is_public_ip(ip: &IpAddress) -> (r: bool)
    ensures
        r == is_globally_routable(*ip),
{
    match ip {
        IpAddress::V4(a) => {
            let private = a.o0 == 10 || (a.o0 == 172 && 16 <= a.o1 && a.o1 <= 31) || (a.o0 == 192
                && a.o1 == 168);
            let loopback = a.o0 == 127;
            let link_local = a.o0 == 169 && a.o1 == 254;
            let broadcast = a.o0 == 255 && a.o1 == 255 && a.o2 == 255 && a.o3 == 255;
            let unspecified = a.o0 == 0 && a.o1 == 0 && a.o2 == 0 && a.o3 == 0;
            let multicast = 224 <= a.o0 && a.o0 <= 239;
            let cgnat = a.o0 == 100 && 64 <= a.o1 && a.o1 <= 127;
            !private && !loopback && !link_local && !broadcast && !unspecified && !multicast
                && !cgnat
        },
        IpAddress::V6(a) => {
            let zero_prefix = a.g0 == 0 && a.g1 == 0 && a.g2 == 0 && a.g3 == 0 && a.g4 == 0
                && a.g5 == 0 && a.g6 == 0;
            let loopback = zero_prefix && a.g7 == 1;
            let unspecified = zero_prefix && a.g7 == 0;
            let multicast = a.g0 >= 0xFF00;
            !loopback && !unspecified && !multicast
        },
    }
}

} // verus!
