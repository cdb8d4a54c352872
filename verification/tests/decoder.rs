use snifff::{extract_dest_ip, IpAddress, Ipv4Address, Ipv6Address};

/// An Ethernet II header: destination and source MAC, then the EtherType.
fn ether_header(ether_type: u16) -> Vec<u8> {
    let mut f = vec![0x02, 0x00, 0x00, 0x00, 0x00, 0x01, 0x02, 0x00, 0x00, 0x00, 0x00, 0x02];
    f.extend_from_slice(&ether_type.to_be_bytes());
    f
}

/// A minimal IPv4 header with the given destination, no options.
fn ipv4_header(dest: [u8; 4]) -> Vec<u8> {
    let mut h = vec![0u8; 20];
    h[0] = 0x45; // version 4, header length 5 words
    h[1] = 0x00;
    h[2] = 0x00; // total length: 40 claimed ...
    h[3] = 0x28;
    h[8] = 64; // time to live
    h[9] = 6; // protocol: TCP
    h[12..16].copy_from_slice(&[192, 168, 1, 10]);
    h[16..20].copy_from_slice(&dest);
    h
}

/// A minimal IPv6 header with the given destination groups.
fn ipv6_header(dest: [u16; 8]) -> Vec<u8> {
    let mut h = vec![0u8; 40];
    h[0] = 0x60; // version 6
    h[6] = 6; // next header: TCP
    h[7] = 64; // hop limit
    for (i, g) in dest.iter().enumerate() {
        h[24 + 2 * i..24 + 2 * i + 2].copy_from_slice(&g.to_be_bytes());
    }
    h
}

fn v4(o0: u8, o1: u8, o2: u8, o3: u8) -> IpAddress {
    IpAddress::V4(Ipv4Address { o0, o1, o2, o3 })
}

#[test]
fn ipv4_frame_yields_destination() {
    let mut frame = ether_header(0x0800);
    frame.extend_from_slice(&ipv4_header([8, 8, 8, 8]));
    assert_eq!(extract_dest_ip(&frame), Some(v4(8, 8, 8, 8)));
}

#[test]
fn ipv6_frame_yields_destination() {
    let mut frame = ether_header(0x86DD);
    frame.extend_from_slice(&ipv6_header([0x2001, 0x4860, 0x4860, 0, 0, 0, 0, 0x8888]));
    assert_eq!(
        extract_dest_ip(&frame),
        Some(IpAddress::V6(Ipv6Address {
            g0: 0x2001,
            g1: 0x4860,
            g2: 0x4860,
            g3: 0,
            g4: 0,
            g5: 0,
            g6: 0,
            g7: 0x8888,
        }))
    );
}

#[test]
fn vlan_tagged_frame_yields_destination() {
    let mut frame = ether_header(0x8100);
    frame.extend_from_slice(&[0x00, 0x64]); // tag data
    frame.extend_from_slice(&0x0800u16.to_be_bytes());
    frame.extend_from_slice(&ipv4_header([1, 1, 1, 1]));
    assert_eq!(extract_dest_ip(&frame), Some(v4(1, 1, 1, 1)));
}

#[test]
fn double_vlan_tagged_frame_yields_destination() {
    let mut frame = ether_header(0x88A8);
    frame.extend_from_slice(&[0x00, 0x64]);
    frame.extend_from_slice(&0x8100u16.to_be_bytes());
    frame.extend_from_slice(&[0x00, 0x65]);
    frame.extend_from_slice(&0x0800u16.to_be_bytes());
    frame.extend_from_slice(&ipv4_header([9, 9, 9, 9]));
    assert_eq!(extract_dest_ip(&frame), Some(v4(9, 9, 9, 9)));
}

#[test]
fn arp_frame_yields_nothing() {
    let mut frame = ether_header(0x0806);
    frame.extend_from_slice(&[0u8; 28]);
    assert_eq!(extract_dest_ip(&frame), None);
}

#[test]
fn short_input_yields_nothing() {
    assert_eq!(extract_dest_ip(&[]), None);
    assert_eq!(extract_dest_ip(&[0x02, 0x00, 0x00]), None);
    let frame = ether_header(0x0800);
    // Ethernet header alone, no network header at all.
    assert_eq!(extract_dest_ip(&frame), None);
}

#[test]
fn truncated_ipv4_header_yields_nothing() {
    let mut frame = ether_header(0x0800);
    let header = ipv4_header([8, 8, 8, 8]);
    frame.extend_from_slice(&header[..19]);
    assert_eq!(extract_dest_ip(&frame), None);
}

#[test]
fn headers_only_capture_still_decodes() {
    // The total-length field claims a large payload, but only the headers
    // were captured; the destination must still decode.
    let mut frame = ether_header(0x0800);
    let mut header = ipv4_header([8, 8, 4, 4]);
    header[2] = 0x05; // total length: 1400
    header[3] = 0x78;
    frame.extend_from_slice(&header);
    assert_eq!(extract_dest_ip(&frame), Some(v4(8, 8, 4, 4)));
}

#[test]
fn ipv4_options_are_skipped() {
    let mut frame = ether_header(0x0800);
    let mut header = ipv4_header([8, 8, 8, 8]);
    header[0] = 0x46; // header length 6 words: one word of options
    header.extend_from_slice(&[0u8; 4]);
    frame.extend_from_slice(&header);
    assert_eq!(extract_dest_ip(&frame), Some(v4(8, 8, 8, 8)));
}

#[test]
fn ipv4_header_shorter_than_declared_yields_nothing() {
    let mut frame = ether_header(0x0800);
    let mut header = ipv4_header([8, 8, 8, 8]);
    header[0] = 0x4F; // header length 15 words, but only 20 bytes present
    frame.extend_from_slice(&header);
    assert_eq!(extract_dest_ip(&frame), None);
}

#[test]
fn wrong_version_nibble_yields_nothing() {
    let mut frame = ether_header(0x0800);
    let mut header = ipv4_header([8, 8, 8, 8]);
    header[0] = 0x65; // version 6 under an IPv4 EtherType
    frame.extend_from_slice(&header);
    assert_eq!(extract_dest_ip(&frame), None);

    let mut frame6 = ether_header(0x86DD);
    let mut header6 = ipv6_header([0x2001, 0, 0, 0, 0, 0, 0, 1]);
    header6[0] = 0x40; // version 4 under an IPv6 EtherType
    frame6.extend_from_slice(&header6);
    assert_eq!(extract_dest_ip(&frame6), None);
}

#[test]
fn bad_ipv4_header_length_yields_nothing() {
    let mut frame = ether_header(0x0800);
    let mut header = ipv4_header([8, 8, 8, 8]);
    header[0] = 0x44; // header length 4 words: below the minimum of 5
    frame.extend_from_slice(&header);
    assert_eq!(extract_dest_ip(&frame), None);
}

#[test]
fn truncated_ipv6_header_yields_nothing() {
    let mut frame = ether_header(0x86DD);
    let header = ipv6_header([0x2001, 0, 0, 0, 0, 0, 0, 1]);
    frame.extend_from_slice(&header[..39]);
    assert_eq!(extract_dest_ip(&frame), None);
}
