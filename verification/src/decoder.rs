//! Destination-address extraction from raw link-layer frames.
//!
//! The grammar accepted here is an Ethernet II frame, with up to two VLAN
//! tags, whose payload is an IPv4 or IPv6 header. Only header bytes are
//! required: a capture truncated after the network-layer header still
//! decodes. Anything else — other protocols, short or malformed input —
//! yields no address rather than an error.
use vstd::prelude::*;

use crate::addr::IpAddress;
use crate::addr::Ipv4Address;
use crate::addr::Ipv6Address;

verus! {

/// EtherType of an IPv4 payload.
pub const ETHER_TYPE_IPV4: u16 = 0x0800;

/// EtherType of an IPv6 payload.
pub const ETHER_TYPE_IPV6: u16 = 0x86DD;

/// A big-endian 16-bit value from two bytes.
pub open spec fn spec_be16(hi: u8, lo: u8) -> u16 {
    (hi * 256 + lo) as u16
}

/// The EtherTypes that announce a VLAN tag (802.1Q, 802.1ad, and the legacy
/// double-tag value), each followed by two bytes of tag data and the next
/// EtherType.
pub open spec fn spec_is_vlan_ether_type(et: u16) -> bool {
    et == 0x8100 || et == 0x88A8 || et == 0x9100
}

/// The destination of an IPv4 header at the start of `p`: the version nibble
/// must read 4, the header length field must be at least 5 words and the
/// whole header must be present. The destination sits at bytes 16..20.
pub open spec fn spec_ipv4_dest(p: Seq<u8>) -> Option<IpAddress> {
    if p.len() < 20 {
        None
    } else if p[0] / 16 != 4 {
        None
    } else if p[0] % 16 < 5 {
        None
    } else if p.len() < 4 * (p[0] % 16) {
        None
    } else {
        Some(
            IpAddress::V4(
                Ipv4Address { o0: p[16], o1: p[17], o2: p[18], o3: p[19] },
            ),
        )
    }
}

/// The destination of an IPv6 header at the start of `p`: the version nibble
/// must read 6 and the fixed 40-byte header must be present. The destination
/// sits at bytes 24..40 as eight big-endian groups.
pub open spec fn spec_ipv6_dest(p: Seq<u8>) -> Option<IpAddress> {
    if p.len() < 40 {
        None
    } else if p[0] / 16 != 6 {
        None
    } else {
        Some(
            IpAddress::V6(
                Ipv6Address {
                    g0: spec_be16(p[24], p[25]),
                    g1: spec_be16(p[26], p[27]),
                    g2: spec_be16(p[28], p[29]),
                    g3: spec_be16(p[30], p[31]),
                    g4: spec_be16(p[32], p[33]),
                    g5: spec_be16(p[34], p[35]),
                    g6: spec_be16(p[36], p[37]),
                    g7: spec_be16(p[38], p[39]),
                },
            ),
        )
    }
}

/// The destination of the network-layer payload `p` announced by EtherType
/// `et`; `None` for any non-IP EtherType.
pub open spec fn spec_ip_dest(p: Seq<u8>, et: u16) -> Option<IpAddress> {
    if et == ETHER_TYPE_IPV4 {
        spec_ipv4_dest(p)
    } else if et == ETHER_TYPE_IPV6 {
        spec_ipv6_dest(p)
    } else {
        None
    }
}

/// The destination network-layer address of a raw Ethernet frame, skipping
/// up to two VLAN tags, or `None` when the frame is short, non-IP, or its
/// network header is malformed.
pub open spec fn spec_frame_dest(d: Seq<u8>) -> Option<IpAddress> {
    if d.len() < 14 {
        None
    } else {
        let et0 = spec_be16(d[12], d[13]);
        if spec_is_vlan_ether_type(et0) {
            if d.len() < 18 {
                None
            } else {
                let et1 = spec_be16(d[16], d[17]);
                if spec_is_vlan_ether_type(et1) {
                    if d.len() < 22 {
                        None
                    } else {
                        spec_ip_dest(d.skip(22), spec_be16(d[20], d[21]))
                    }
                } else {
                    spec_ip_dest(d.skip(18), et1)
                }
            }
        } else {
            spec_ip_dest(d.skip(14), et0)
        }
    }
}

/// Reads the big-endian 16-bit value at byte offset `i`.
fn read_be16(data: &[u8], i: usize) -> (r: u16)
    requires
        i + 2 <= data@.len(),
    ensures
        r == spec_be16(data@[i as int], data@[i + 1]),
{
    (data[i] as u16) * 256 + (data[i + 1] as u16)
}

/// Extracts the destination of an IPv4 header starting at `off`.
fn parse_ipv4_dest(data: &[u8], off: usize) -> (r: Option<IpAddress>)
    requires
        off <= data@.len(),
    ensures
        r == spec_ipv4_dest(data@.skip(off as int)),
{
    let ghost p = data@.skip(off as int);
    if data.len() - off < 20 {
        return None;
    }
    let b0 = data[off];
    assert(b0 == p[0]);
    if b0 / 16 != 4 {
        return None;
    }
    let ihl = b0 % 16;
    if ihl < 5 {
        return None;
    }
    if data.len() - off < 4 * (ihl as usize) {
        return None;
    }
    let a = Ipv4Address {
        o0: data[off + 16],
        o1: data[off + 17],
        o2: data[off + 18],
        o3: data[off + 19],
    };
    assert(a.o0 == p[16] && a.o1 == p[17] && a.o2 == p[18] && a.o3 == p[19]);
    Some(IpAddress::V4(a))
}

/// Extracts the destination of an IPv6 header starting at `off`.
fn parse_ipv6_dest(data: &[u8], off: usize) -> (r: Option<IpAddress>)
    requires
        off <= data@.len(),
    ensures
        r == spec_ipv6_dest(data@.skip(off as int)),
{
    let ghost p = data@.skip(off as int);
    if data.len() - off < 40 {
        return None;
    }
    let b0 = data[off];
    assert(b0 == p[0]);
    if b0 / 16 != 6 {
        return None;
    }
    let a = Ipv6Address {
        g0: read_be16(data, off + 24),
        g1: read_be16(data, off + 26),
        g2: read_be16(data, off + 28),
        g3: read_be16(data, off + 30),
        g4: read_be16(data, off + 32),
        g5: read_be16(data, off + 34),
        g6: read_be16(data, off + 36),
        g7: read_be16(data, off + 38),
    };
    Some(IpAddress::V6(a))
}

/// Extracts the destination of the network payload at `off` whose EtherType
/// is `et`.
fn parse_ip_dest(data: &[u8], off: usize, et: u16) -> (r: Option<IpAddress>)
    requires
        off <= data@.len(),
    ensures
        r == spec_ip_dest(data@.skip(off as int), et),
{
    if et == ETHER_TYPE_IPV4 {
        parse_ipv4_dest(data, off)
    } else if et == ETHER_TYPE_IPV6 {
        parse_ipv6_dest(data, off)
    } else {
        None
    }
}

fn is_vlan_ether_type(et: u16) -> (r: bool)
    ensures
        r == spec_is_vlan_ether_type(et),
{
    et == 0x8100 || et == 0x88A8 || et == 0x9100
}

/// Attempts to parse `data` as an Ethernet frame and returns the destination
/// network-layer address when the payload is IPv4 or IPv6; any other
/// protocol, or short or malformed input, yields `None` — parse failure is a
/// normal no-address result, never a panic.
pub fn extract_dest_ip(data: &[u8]) -> (r: Option<IpAddress>)
    ensures
        r == spec_frame_dest(data@),
{
    if data.len() < 14 {
        return None;
    }
    let et0 = read_be16(data, 12);
    if is_vlan_ether_type(et0) {
        if data.len() < 18 {
            return None;
        }
        let et1 = read_be16(data, 16);
        if is_vlan_ether_type(et1) {
            if data.len() < 22 {
                return None;
            }
            let et2 = read_be16(data, 20);
            parse_ip_dest(data, 22, et2)
        } else {
            parse_ip_dest(data, 18, et1)
        }
    } else {
        parse_ip_dest(data, 14, et0)
    }
}

} // verus!
