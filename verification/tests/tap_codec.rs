use bytes::{Bytes, BytesMut};
use vpn_connector::tap_codec::{AnyPacket, AnyPacketCodec};

#[test]
fn packet_from_vec_keeps_bytes() {
    let packet = AnyPacket::new(vec![1, 2, 3, 4]);
    assert_eq!(packet.get_bytes(), &[1u8, 2, 3, 4]);
}

#[test]
fn packet_from_bytes_keeps_bytes() {
    let packet = AnyPacket::new_from_bytes(Bytes::from(vec![9u8, 8, 7]));
    assert_eq!(packet.get_bytes(), &[9u8, 8, 7]);
}

#[test]
fn packet_from_slice_copies_bytes() {
    let mut source = vec![5u8, 6, 7];
    let packet = AnyPacket::new_from_slice(&source);
    source[0] = 0;
    assert_eq!(packet.get_bytes(), &[5u8, 6, 7]);
}

#[test]
fn packet_into_bytes_gives_bytes() {
    let bytes = AnyPacket::new(vec![1, 1, 2, 3, 5]).into_bytes();
    assert_eq!(&bytes[..], &[1u8, 1, 2, 3, 5]);
}

#[test]
fn empty_packet_has_no_bytes() {
    assert!(AnyPacket::new(Vec::new()).get_bytes().is_empty());
    assert!(AnyPacket::new_from_slice(&[]).get_bytes().is_empty());
}

#[test]
fn decode_empty_buffer_gives_nothing() {
    let mut codec = AnyPacketCodec::new();
    let mut buf = BytesMut::new();
    assert!(codec.decode(&mut buf).unwrap().is_none());
    assert!(buf.is_empty());
}

#[test]
fn decode_takes_the_whole_buffer() {
    let mut codec = AnyPacketCodec::new();
    let mut buf = BytesMut::from(&[0x45u8, 1, 2, 3, 4, 5][..]);
    let packet = codec.decode(&mut buf).unwrap().unwrap();
    assert_eq!(packet.get_bytes(), &[0x45u8, 1, 2, 3, 4, 5]);
    assert!(buf.is_empty());
    assert!(codec.decode(&mut buf).unwrap().is_none());
}

#[test]
fn decode_holds_nothing_back_between_reads() {
    let mut codec = AnyPacketCodec::default();
    let mut buf = BytesMut::new();
    buf.extend_from_slice(&[1, 2, 3]);
    let first = codec.decode(&mut buf).unwrap().unwrap();
    buf.extend_from_slice(&[4, 5]);
    let second = codec.decode(&mut buf).unwrap().unwrap();
    assert_eq!(first.get_bytes(), &[1u8, 2, 3]);
    assert_eq!(second.get_bytes(), &[4u8, 5]);
    assert!(buf.is_empty());
}

#[test]
fn decode_leaves_headroom() {
    let mut codec = AnyPacketCodec::new();
    let mut buf = BytesMut::from(&[7u8; 10][..]);
    let _ = codec.decode(&mut buf).unwrap().unwrap();
    assert!(buf.capacity() >= 90000);
}

#[test]
fn encode_appends_verbatim() {
    let mut codec = AnyPacketCodec::new();
    let mut dst = BytesMut::new();
    codec.encode(AnyPacket::new(vec![1, 2, 3]), &mut dst).unwrap();
    assert_eq!(&dst[..], &[1u8, 2, 3]);
    codec.encode(AnyPacket::new(vec![4, 5]), &mut dst).unwrap();
    assert_eq!(&dst[..], &[1u8, 2, 3, 4, 5]);
}

#[test]
fn encode_empty_packet_changes_nothing() {
    let mut codec = AnyPacketCodec::new();
    let mut dst = BytesMut::from(&[8u8, 9][..]);
    codec.encode(AnyPacket::new(Vec::new()), &mut dst).unwrap();
    assert_eq!(&dst[..], &[8u8, 9]);
}

#[test]
fn encode_then_decode_gives_the_packet() {
    let mut codec = AnyPacketCodec::new();
    let mut buf = BytesMut::new();
    codec.encode(AnyPacket::new_from_slice(&[0x60, 0, 0, 1]), &mut buf).unwrap();
    let packet = codec.decode(&mut buf).unwrap().unwrap();
    assert_eq!(packet.get_bytes(), &[0x60u8, 0, 0, 1]);
}
