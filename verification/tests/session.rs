use snifff::{extract_dest_ip, IpAddress, Ipv4Address, SessionDedup, Sniffer, SnifferError};

fn v4(o0: u8, o1: u8, o2: u8, o3: u8) -> IpAddress {
    IpAddress::V4(Ipv4Address { o0, o1, o2, o3 })
}

/// A frame whose IPv4 destination is the given address.
fn frame_to(dest: [u8; 4]) -> Vec<u8> {
    let mut f = vec![0x02, 0, 0, 0, 0, 1, 0x02, 0, 0, 0, 0, 2, 0x08, 0x00];
    let mut h = vec![0u8; 20];
    h[0] = 0x45;
    h[16..20].copy_from_slice(&dest);
    f.extend_from_slice(&h);
    f
}

#[test]
fn observe_is_true_exactly_once_until_reset() {
    let mut dedup = SessionDedup::new();
    let a = v4(8, 8, 8, 8);
    assert!(dedup.observe(&a));
    assert!(!dedup.observe(&a));
    assert!(!dedup.observe(&a));
    dedup.reset();
    assert!(dedup.observe(&a));
    assert!(!dedup.observe(&a));
}

#[test]
fn observe_distinguishes_addresses() {
    let mut dedup = SessionDedup::new();
    assert!(dedup.observe(&v4(8, 8, 8, 8)));
    assert!(dedup.observe(&v4(1, 1, 1, 1)));
    assert!(!dedup.observe(&v4(8, 8, 8, 8)));
}

#[test]
fn new_sniffer_is_idle() {
    let sniffer = Sniffer::new();
    assert!(!sniffer.is_running());
}

#[test]
fn second_start_yields_already_running() {
    let mut sniffer = Sniffer::new();
    assert_eq!(sniffer.start(true), Ok(()));
    assert!(sniffer.is_running());
    assert_eq!(sniffer.start(true), Err(SnifferError::AlreadyRunning));
    // The first session's flag is unaffected by the rejected call.
    assert!(sniffer.is_running());
}

#[test]
fn start_without_device_yields_device_unavailable() {
    let mut sniffer = Sniffer::new();
    assert_eq!(sniffer.start(false), Err(SnifferError::DeviceUnavailable));
    assert!(!sniffer.is_running());
    // The failed start left the state idle, so a later start succeeds.
    assert_eq!(sniffer.start(true), Ok(()));
}

#[test]
fn stop_is_observed_at_once() {
    let mut sniffer = Sniffer::new();
    assert_eq!(sniffer.start(true), Ok(()));
    sniffer.stop();
    assert!(!sniffer.is_running());
}

#[test]
fn stop_after_stop_stays_idle() {
    let mut sniffer = Sniffer::new();
    sniffer.stop();
    assert!(!sniffer.is_running());
}

#[test]
fn handle_frame_reports_each_public_address_once() {
    let mut sniffer = Sniffer::new();
    assert_eq!(sniffer.start(true), Ok(()));
    assert_eq!(sniffer.handle_frame(&frame_to([8, 8, 8, 8])), Some(v4(8, 8, 8, 8)));
    assert_eq!(sniffer.handle_frame(&frame_to([8, 8, 8, 8])), None);
    assert_eq!(sniffer.handle_frame(&frame_to([1, 1, 1, 1])), Some(v4(1, 1, 1, 1)));
}

#[test]
fn handle_frame_ignores_reserved_addresses() {
    let mut sniffer = Sniffer::new();
    assert_eq!(sniffer.handle_frame(&frame_to([192, 168, 1, 1])), None);
    assert_eq!(sniffer.handle_frame(&frame_to([127, 0, 0, 1])), None);
    assert_eq!(sniffer.handle_frame(&frame_to([100, 64, 0, 1])), None);
}

#[test]
fn handle_frame_ignores_non_ip_frames() {
    let mut sniffer = Sniffer::new();
    let mut arp = vec![0x02, 0, 0, 0, 0, 1, 0x02, 0, 0, 0, 0, 2, 0x08, 0x06];
    arp.extend_from_slice(&[0u8; 28]);
    assert_eq!(sniffer.handle_frame(&arp), None);
    assert_eq!(sniffer.handle_frame(&[]), None);
}

#[test]
fn reset_seen_makes_addresses_new_again() {
    let mut sniffer = Sniffer::new();
    assert_eq!(sniffer.start(true), Ok(()));
    assert_eq!(sniffer.handle_frame(&frame_to([8, 8, 8, 8])), Some(v4(8, 8, 8, 8)));
    sniffer.reset_seen();
    // Still running; only membership state was discarded.
    assert!(sniffer.is_running());
    assert_eq!(sniffer.handle_frame(&frame_to([8, 8, 8, 8])), Some(v4(8, 8, 8, 8)));
}

#[test]
fn decoded_destination_matches_classifier_input() {
    let frame = frame_to([100, 127, 0, 1]);
    assert_eq!(extract_dest_ip(&frame), Some(v4(100, 127, 0, 1)));
}
