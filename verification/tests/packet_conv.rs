use vpn_connector::packet_conv::{
    ip_packet_version, packet_ether_to_ip_slice, packet_ip_wrap_to_ether, EncapError, IpVersion,
};

fn ipv4_packet(len: usize) -> Vec<u8> {
    let mut packet = vec![0u8; len];
    packet[0] = 0x45;
    for (i, byte) in packet.iter_mut().enumerate().skip(1) {
        *byte = (i % 251) as u8;
    }
    packet
}

fn ipv6_packet(len: usize) -> Vec<u8> {
    let mut packet = vec![0u8; len];
    packet[0] = 0x60;
    for (i, byte) in packet.iter_mut().enumerate().skip(1) {
        *byte = (i % 13) as u8;
    }
    packet
}

#[test]
fn wrap_ipv4_gives_exact_frame() {
    let packet = ipv4_packet(21);
    let frame = packet_ip_wrap_to_ether(&packet, None, None).unwrap();
    let mut expected = vec![2u8, 2, 2, 2, 2, 2, 1, 1, 1, 1, 1, 1, 0x08, 0x00];
    expected.extend_from_slice(&packet);
    assert_eq!(frame, expected);
    assert_eq!(frame.len(), packet.len() + 14);
}

#[test]
fn wrap_ipv6_gives_exact_frame() {
    let packet = ipv6_packet(40);
    let frame = packet_ip_wrap_to_ether(&packet, None, None).unwrap();
    let mut expected = vec![2u8, 2, 2, 2, 2, 2, 1, 1, 1, 1, 1, 1, 0x86, 0xdd];
    expected.extend_from_slice(&packet);
    assert_eq!(frame, expected);
}

#[test]
fn wrap_uses_given_addresses() {
    let packet = ipv4_packet(28);
    let src = [0x0au8, 0x0b, 0x0c, 0x0d, 0x0e, 0x0f];
    let dst = [0x1au8, 0x1b, 0x1c, 0x1d, 0x1e, 0x1f];
    let frame = packet_ip_wrap_to_ether(&packet, Some(&src), Some(&dst)).unwrap();
    assert_eq!(&frame[0..6], &dst);
    assert_eq!(&frame[6..12], &src);
    assert_eq!(&frame[12..14], &[0x08u8, 0x00]);
    assert_eq!(&frame[14..], &packet[..]);
}

#[test]
fn wrap_uses_one_given_address() {
    let packet = ipv4_packet(28);
    let src = [9u8, 8, 7, 6, 5, 4];
    let frame = packet_ip_wrap_to_ether(&packet, Some(&src), None).unwrap();
    assert_eq!(&frame[0..6], &[2u8; 6]);
    assert_eq!(&frame[6..12], &src);
    let dst = [4u8, 5, 6, 7, 8, 9];
    let frame = packet_ip_wrap_to_ether(&packet, None, Some(&dst)).unwrap();
    assert_eq!(&frame[0..6], &dst);
    assert_eq!(&frame[6..12], &[1u8; 6]);
}

#[test]
fn wrap_rejects_empty_packet() {
    assert_eq!(packet_ip_wrap_to_ether(&[], None, None), Err(EncapError::EmptyPacket));
}

#[test]
fn wrap_rejects_unknown_version() {
    let mut packet = ipv4_packet(60);
    packet[0] = 0x05;
    assert_eq!(packet_ip_wrap_to_ether(&packet, None, None), Err(EncapError::Malformed));
    packet[0] = 0x55;
    assert_eq!(packet_ip_wrap_to_ether(&packet, None, None), Err(EncapError::Malformed));
}

#[test]
fn wrap_rejects_short_headers() {
    assert_eq!(packet_ip_wrap_to_ether(&ipv4_packet(19), None, None), Err(EncapError::Malformed));
    assert_eq!(packet_ip_wrap_to_ether(&[0x45], None, None), Err(EncapError::Malformed));
    assert_eq!(packet_ip_wrap_to_ether(&ipv6_packet(39), None, None), Err(EncapError::Malformed));
    assert!(packet_ip_wrap_to_ether(&ipv4_packet(20), None, None).is_ok());
    assert!(packet_ip_wrap_to_ether(&ipv6_packet(40), None, None).is_ok());
}

#[test]
fn unwrap_rejects_frames_up_to_34_bytes() {
    for len in 0..=34usize {
        let mut frame = vec![0u8; len];
        if len > 14 {
            frame[14] = 0x45;
        }
        assert_eq!(packet_ether_to_ip_slice(&frame), Err(EncapError::TooShort));
    }
}

#[test]
fn unwrap_of_wrapped_20_byte_packet_is_too_short() {
    let packet = ipv4_packet(20);
    let frame = packet_ip_wrap_to_ether(&packet, None, None).unwrap();
    assert_eq!(frame.len(), 34);
    assert_eq!(packet_ether_to_ip_slice(&frame), Err(EncapError::TooShort));
}

#[test]
fn unwrap_accepts_35_bytes() {
    let mut frame = vec![0xffu8; 35];
    frame[14] = 0x45;
    let packet = packet_ether_to_ip_slice(&frame).unwrap();
    assert_eq!(packet, &frame[14..]);
    assert_eq!(packet.len(), 21);
}

#[test]
fn unwrap_rejects_version_nibble_zero() {
    let mut frame = vec![0u8; 64];
    frame[14] = 0x05;
    assert_eq!(packet_ether_to_ip_slice(&frame), Err(EncapError::Malformed));
}

#[test]
fn unwrap_rejects_short_ipv6() {
    let mut frame = vec![0u8; 14 + 39];
    frame[14] = 0x60;
    assert_eq!(packet_ether_to_ip_slice(&frame), Err(EncapError::Malformed));
    let mut frame = vec![0u8; 14 + 40];
    frame[14] = 0x60;
    assert_eq!(packet_ether_to_ip_slice(&frame).unwrap().len(), 40);
}

#[test]
fn unwrap_ignores_the_header_bytes() {
    let mut frame = vec![0u8; 50];
    frame[0] = 0x45;
    frame[12] = 0x86;
    frame[13] = 0xdd;
    frame[14] = 0x4f;
    assert_eq!(packet_ether_to_ip_slice(&frame).unwrap(), &frame[14..]);
}

#[test]
fn round_trip_ipv4() {
    for len in [21usize, 22, 60, 1500] {
        let packet = ipv4_packet(len);
        let frame = packet_ip_wrap_to_ether(&packet, None, None).unwrap();
        assert_eq!(packet_ether_to_ip_slice(&frame).unwrap(), &packet[..]);
    }
}

#[test]
fn round_trip_ipv6() {
    for len in [40usize, 41, 1280] {
        let packet = ipv6_packet(len);
        let frame = packet_ip_wrap_to_ether(&packet, None, None).unwrap();
        assert_eq!(packet_ether_to_ip_slice(&frame).unwrap(), &packet[..]);
    }
}

#[test]
fn version_of_headers() {
    assert_eq!(ip_packet_version(&[]), None);
    assert_eq!(ip_packet_version(&ipv4_packet(20)), Some(IpVersion::V4));
    assert_eq!(ip_packet_version(&ipv4_packet(19)), None);
    assert_eq!(ip_packet_version(&ipv6_packet(40)), Some(IpVersion::V6));
    assert_eq!(ip_packet_version(&ipv6_packet(39)), None);
    let mut other = ipv4_packet(64);
    other[0] = 0x70;
    assert_eq!(ip_packet_version(&other), None);
}
