use weirdshark::{parse_transport_packet, IpAddr, TransportProtocols, WeirdsharkError};

/// A DNS query over UDP/IPv4, as captured on the wire, with made-up MAC
/// addresses in front.
fn dns_query_frame() -> Vec<u8> {
    let mut frame = vec![0xAAu8; 6];
    frame.extend_from_slice(&[0xBB; 6]);
    frame.extend_from_slice(&[
        0x08, 0x00, 0x45, 0x00, 0x00, 0x48, 0x5a, 0x7d, 0x40, 0x00, 0x40, 0x11, 0xa3, 0xb2, 0xac,
        0x10, 0x85, 0xfb, 0x0a, 0x60, 0x00, 0x0a, 0x93, 0xc2, 0x00, 0x35, 0x00, 0x34, 0x3c, 0xbb,
        0x82, 0xad, 0x01, 0x00, 0x00, 0x01, 0x00, 0x00, 0x00, 0x00, 0x00, 0x01, 0x03, 0x77, 0x77,
        0x77, 0x07, 0x6d, 0x6f, 0x7a, 0x69, 0x6c, 0x6c, 0x61, 0x03, 0x6f, 0x72, 0x67, 0x00, 0x00,
        0x01, 0x00, 0x01, 0x00, 0x00, 0x29, 0x02, 0x00, 0x00, 0x00, 0x00, 0x00, 0x00, 0x00,
    ]);
    frame
}

#[test]
fn dns_query_parses_to_its_five_tuple() {
    let frame = dns_query_frame();
    let frame_len = frame.len();
    assert_eq!(frame_len, 86);
    let packet = parse_transport_packet(frame).unwrap();
    assert_eq!(packet.source_ip, IpAddr::v4_from_octets(172, 16, 133, 251));
    assert_eq!(packet.destination_ip, IpAddr::v4_from_octets(10, 96, 0, 10));
    assert_eq!(packet.transport_protocol, TransportProtocols::UDP);
    assert_eq!(packet.source_port, 37826);
    assert_eq!(packet.destination_port, 53);
    assert_eq!(packet.bytes, frame_len);
}

#[test]
fn truncated_ethernet_is_rejected() {
    let frame = vec![0u8; 13];
    assert_eq!(
        parse_transport_packet(frame),
        Err(WeirdsharkError::IncompleteEthernetFrame)
    );
    assert_eq!(
        parse_transport_packet(Vec::new()),
        Err(WeirdsharkError::IncompleteEthernetFrame)
    );
}

#[test]
fn truncated_ipv4_is_rejected() {
    let mut frame = dns_query_frame();
    frame.truncate(33);
    assert_eq!(
        parse_transport_packet(frame),
        Err(WeirdsharkError::IncompleteIpPacket)
    );
}

#[test]
fn truncated_ipv6_is_rejected() {
    let mut frame = vec![0u8; 12];
    frame.extend_from_slice(&[0x86, 0xdd]);
    frame.extend_from_slice(&[0u8; 30]);
    assert_eq!(
        parse_transport_packet(frame),
        Err(WeirdsharkError::IncompleteIpPacket)
    );
}

#[test]
fn non_ip_frame_is_rejected() {
    let mut frame = vec![0u8; 12];
    frame.extend_from_slice(&[0x08, 0x06]);
    frame.extend_from_slice(&[0u8; 60]);
    assert_eq!(
        parse_transport_packet(frame),
        Err(WeirdsharkError::PacketIgnoredNonIp)
    );
}

#[test]
fn icmp_transport_is_rejected() {
    let mut frame = dns_query_frame();
    frame[23] = 1;
    assert_eq!(
        parse_transport_packet(frame),
        Err(WeirdsharkError::UnsupportedTransportProtocol)
    );
}

#[test]
fn truncated_udp_is_rejected() {
    let mut frame = dns_query_frame();
    // claim a 4-byte IP payload: too short for a UDP header
    frame[16] = 0;
    frame[17] = 24;
    frame.truncate(14 + 24);
    assert_eq!(
        parse_transport_packet(frame),
        Err(WeirdsharkError::IncompleteUdpSegment)
    );
}

#[test]
fn truncated_tcp_is_rejected() {
    let mut frame = dns_query_frame();
    frame[23] = 6; // TCP
    frame[16] = 0;
    frame[17] = 32; // total length 32: a 12-byte payload, below the TCP minimum
    frame.truncate(14 + 32);
    assert_eq!(
        parse_transport_packet(frame),
        Err(WeirdsharkError::IncompleteTcpSegment)
    );
}

#[test]
fn ipv6_udp_frame_parses() {
    let mut frame = vec![0xCCu8; 12];
    frame.extend_from_slice(&[0x86, 0xdd]);
    // IPv6 fixed header: version 6, payload length 12, next header UDP
    frame.extend_from_slice(&[0x60, 0, 0, 0]);
    frame.extend_from_slice(&[0, 12]);
    frame.push(17);
    frame.push(64);
    let mut src = [0u8; 16];
    src[15] = 1;
    let mut dst = [0u8; 16];
    dst[15] = 2;
    frame.extend_from_slice(&src);
    frame.extend_from_slice(&dst);
    // UDP header and four payload bytes
    frame.extend_from_slice(&[0x12, 0x34, 0x00, 0x35, 0x00, 0x0c, 0x00, 0x00]);
    frame.extend_from_slice(&[9, 9, 9, 9]);
    let frame_len = frame.len();
    let packet = parse_transport_packet(frame).unwrap();
    assert_eq!(packet.source_ip, IpAddr::V6(1));
    assert_eq!(packet.destination_ip, IpAddr::V6(2));
    assert_eq!(packet.transport_protocol, TransportProtocols::UDP);
    assert_eq!(packet.source_port, 0x1234);
    assert_eq!(packet.destination_port, 53);
    assert_eq!(packet.bytes, frame_len);
}

#[test]
fn parser_rejections_are_classified() {
    assert!(WeirdsharkError::IncompleteTcpSegment.is_parser_rejection());
    assert!(WeirdsharkError::PacketIgnoredNonIp.is_parser_rejection());
    assert!(!WeirdsharkError::InterfaceNotSpecified.is_parser_rejection());
    assert!(!WeirdsharkError::CapturerError(String::from("gone")).is_parser_rejection());
}
