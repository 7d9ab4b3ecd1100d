//! Conversion between raw IP packets and pseudo-link-layer frames.
//!
//! A frame is a 14-byte header (destination address, source address,
//! protocol type) followed by the IP packet, unchanged.

use vstd::prelude::*;

verus! {

/// Length of the synthetic link-layer header.
pub const ETHER_HEADER_LEN: usize = 14;

/// Length of the shortest IPv4 header.
pub const MIN_IP_HEADER_LENGTH: usize = 20;

/// Length of the fixed IPv6 header.
pub const IPV6_HEADER_LENGTH: usize = 40;

/// Why a packet could not be wrapped or unwrapped.
#[derive(Debug, Clone, Copy, PartialEq, Eq, Structural)]
pub enum EncapError {
    /// The packet to wrap has no bytes.
    EmptyPacket,
    /// The frame cannot hold a link-layer header and an IP packet.
    TooShort,
    /// The bytes do not start with an IPv4 or IPv6 header.
    Malformed,
}

/// The IP version that a packet's header announces.
#[derive(Debug, Clone, Copy, PartialEq, Eq, Structural)]
pub enum IpVersion {
    V4,
    V6,
}

/// The version field: the high four bits of the first byte.
pub open spec fn ip_version_field(packet: Seq<u8>) -> int
    recommends
        packet.len() > 0,
{
    packet[0] as int / 16
}

/// Version 4, and room for the shortest IPv4 header.
pub open spec fn is_ipv4(packet: Seq<u8>) -> bool {
    packet.len() >= MIN_IP_HEADER_LENGTH && ip_version_field(packet) == 4
}

/// Version 6, and room for the fixed IPv6 header.
pub open spec fn is_ipv6(packet: Seq<u8>) -> bool {
    packet.len() >= IPV6_HEADER_LENGTH && ip_version_field(packet) == 6
}

/// The bytes start with a well-formed IPv4 or IPv6 header. Only the version
/// field and the length are looked at: no checksum, no option.
pub open spec fn is_ip_packet(packet: Seq<u8>) -> bool {
    is_ipv4(packet) || is_ipv6(packet)
}

/// The version of a well-formed packet, `None` for any other bytes.
pub open spec fn ip_version_of(packet: Seq<u8>) -> Option<IpVersion> {
    if is_ipv4(packet) {
        Some(IpVersion::V4)
    } else if is_ipv6(packet) {
        Some(IpVersion::V6)
    } else {
        None
    }
}

/// Destination address of a frame whose caller names none: `02:02:02:02:02:02`.
pub open spec fn default_dst_mac() -> Seq<u8> {
    seq![0x02u8, 0x02u8, 0x02u8, 0x02u8, 0x02u8, 0x02u8]
}

/// Source address of a frame whose caller names none: `01:01:01:01:01:01`.
pub open spec fn default_src_mac() -> Seq<u8> {
    seq![0x01u8, 0x01u8, 0x01u8, 0x01u8, 0x01u8, 0x01u8]
}

/// The protocol type of the frame that carries `packet`: `0x0800` for IPv4,
/// `0x86DD` otherwise.
pub open spec fn ether_type(packet: Seq<u8>) -> Seq<u8> {
    if is_ipv4(packet) {
        seq![0x08u8, 0x00u8]
    } else {
        seq![0x86u8, 0xddu8]
    }
}

/// The frame: destination, source, protocol type, then the packet.
pub open spec fn ether_frame(dst_mac: Seq<u8>, src_mac: Seq<u8>, packet: Seq<u8>) -> Seq<u8> {
    dst_mac + src_mac + ether_type(packet) + packet
}

/// An optional address as a sequence of bytes.
pub open spec fn mac_view(mac: Option<&[u8; 6]>) -> Option<Seq<u8>> {
    match mac {
        Some(m) => Some(m@),
        None => None,
    }
}

/// `mac` if there is one, else `default`.
pub open spec fn mac_or(mac: Option<Seq<u8>>, default: Seq<u8>) -> Seq<u8> {
    match mac {
        Some(m) => m,
        None => default,
    }
}

/// What wrapping `packet` gives.
pub open spec fn wrap_spec(
    packet: Seq<u8>,
    src_mac: Option<Seq<u8>>,
    dst_mac: Option<Seq<u8>>,
) -> Result<Seq<u8>, EncapError> {
    if packet.len() == 0 {
        Err(EncapError::EmptyPacket)
    } else if !is_ip_packet(packet) {
        Err(EncapError::Malformed)
    } else {
        Ok(
            ether_frame(
                mac_or(dst_mac, default_dst_mac()),
                mac_or(src_mac, default_src_mac()),
                packet,
            ),
        )
    }
}

/// What unwrapping `frame` gives.
pub open spec fn unwrap_spec(frame: Seq<u8>) -> Result<Seq<u8>, EncapError> {
    if frame.len() <= ETHER_HEADER_LEN + MIN_IP_HEADER_LENGTH {
        Err(EncapError::TooShort)
    } else if !is_ip_packet(frame.skip(ETHER_HEADER_LEN as int)) {
        Err(EncapError::Malformed)
    } else {
        Ok(frame.skip(ETHER_HEADER_LEN as int))
    }
}

/// The result of wrapping, with the frame as a sequence of bytes.
pub open spec fn wrapped_view(result: Result<Vec<u8>, EncapError>) -> Result<Seq<u8>, EncapError> {
    match result {
        Ok(frame) => Ok(frame@),
        Err(e) => Err(e),
    }
}

/// The result of unwrapping, with the packet as a sequence of bytes.
pub open spec fn unwrapped_view(result: Result<&[u8], EncapError>) -> Result<Seq<u8>, EncapError> {
    match result {
        Ok(packet) => Ok(packet@),
        Err(e) => Err(e),
    }
}

/// Classifies the header at the start of `data`.
pub fn ip_packet_version(data: &[u8]) -> (version: Option<IpVersion>)
    ensures
        version == ip_version_of(data@),
{
    if data.len() == 0 {
        return None;
    }
    let first: u8 = data[0];
    let nibble: u8 = first >> 4;
    assert(nibble == first / 16) by (bit_vector)
        requires
            nibble == first >> 4,
    ;
    if nibble == 4 && data.len() >= MIN_IP_HEADER_LENGTH {
        Some(IpVersion::V4)
    } else if nibble == 6 && data.len() >= IPV6_HEADER_LENGTH {
        Some(IpVersion::V6)
    } else {
        None
    }
}

/// Appends `src` to `out`.
fn append_bytes(out: &mut Vec<u8>, src: &[u8])
    ensures
        final(out)@ == old(out)@ + src@,
{
    let n: usize = src.len();
    let mut i: usize = 0;
    while i < n
        invariant
            i <= n,
            n == src@.len(),
            out@ == old(out)@ + src@.take(i as int),
        decreases n - i,
    {
        out.push(src[i]);
        i += 1;
    }
}

/// Wraps an IP packet into a pseudo-link-layer frame.
///
/// An empty packet is rejected as `EmptyPacket`, bytes that do not start with
/// an IPv4 or IPv6 header as `Malformed`. Otherwise the frame is the
/// destination address, the source address (the placeholders where none is
/// given), the protocol type of the packet's IP version, and the packet.
pub fn packet_ip_wrap_to_ether(
    frame: &[u8],
    src_mac: Option<&[u8; 6]>,
    dst_mac: Option<&[u8; 6]>,
) -> (result: Result<Vec<u8>, EncapError>)
    ensures
        wrapped_view(result) == wrap_spec(frame@, mac_view(src_mac), mac_view(dst_mac)),
        result matches Ok(eth_packet) ==> eth_packet@.len() == frame@.len() + ETHER_HEADER_LEN,
{
    if frame.len() == 0 {
        return Err(EncapError::EmptyPacket);
    }
    let version = match ip_packet_version(frame) {
        Some(version) => version,
        None => {
            return Err(EncapError::Malformed);
        },
    };
    let mut eth_packet: Vec<u8> = Vec::new();
    match dst_mac {
        Some(mac) => append_bytes(&mut eth_packet, mac.as_slice()),
        None => {
            let default_mac: [u8; 6] = [0x02u8, 0x02u8, 0x02u8, 0x02u8, 0x02u8, 0x02u8];
            append_bytes(&mut eth_packet, default_mac.as_slice());
        },
    }
    match src_mac {
        Some(mac) => append_bytes(&mut eth_packet, mac.as_slice()),
        None => {
            let default_mac: [u8; 6] = [0x01u8, 0x01u8, 0x01u8, 0x01u8, 0x01u8, 0x01u8];
            append_bytes(&mut eth_packet, default_mac.as_slice());
        },
    }
    match version {
        IpVersion::V4 => {
            let ether_type_ipv4: [u8; 2] = [0x08u8, 0x00u8];
            append_bytes(&mut eth_packet, ether_type_ipv4.as_slice());
        },
        IpVersion::V6 => {
            let ether_type_ipv6: [u8; 2] = [0x86u8, 0xddu8];
            append_bytes(&mut eth_packet, ether_type_ipv6.as_slice());
        },
    }
    append_bytes(&mut eth_packet, frame);
    Ok(eth_packet)
}

/// Strips the link-layer header from a frame and gives the IP packet in it,
/// without copying.
///
/// A frame of 34 bytes or fewer is rejected as `TooShort`; one whose bytes
/// from offset 14 on do not start with an IPv4 or IPv6 header as `Malformed`.
pub fn packet_ether_to_ip_slice(frame: &[u8]) -> (result: Result<&[u8], EncapError>)
    ensures
        unwrapped_view(result) == unwrap_spec(frame@),
{
    if frame.len() <= ETHER_HEADER_LEN + MIN_IP_HEADER_LENGTH {
        return Err(EncapError::TooShort);
    }
    let ip_frame = vstd::slice::slice_subrange(frame, ETHER_HEADER_LEN, frame.len());
    if ip_packet_version(ip_frame).is_none() {
        return Err(EncapError::Malformed);
    }
    Ok(ip_frame)
}

/// Round trip: a well-formed packet of more than 20 bytes, wrapped with any
/// addresses and unwrapped again, comes back unchanged.
pub proof fn lemma_unwrap_wrap(
    packet: Seq<u8>,
    src_mac: Option<Seq<u8>>,
    dst_mac: Option<Seq<u8>>,
)
    requires
        is_ip_packet(packet),
        packet.len() > MIN_IP_HEADER_LENGTH,
        src_mac matches Some(m) ==> m.len() == 6,
        dst_mac matches Some(m) ==> m.len() == 6,
    ensures
        wrap_spec(packet, src_mac, dst_mac) matches Ok(frame) && unwrap_spec(frame) == Ok::<
            Seq<u8>,
            EncapError,
        >(packet),
{
    let dst = mac_or(dst_mac, default_dst_mac());
    let src = mac_or(src_mac, default_src_mac());
    let frame = ether_frame(dst, src, packet);
    assert(frame.skip(ETHER_HEADER_LEN as int) == packet);
}

/// Rejection: nothing can be wrapped from no bytes, and no frame of 34 bytes
/// or fewer can be unwrapped.
pub proof fn lemma_rejects_short(
    frame: Seq<u8>,
    src_mac: Option<Seq<u8>>,
    dst_mac: Option<Seq<u8>>,
)
    ensures
        wrap_spec(Seq::<u8>::empty(), src_mac, dst_mac) == Err::<Seq<u8>, EncapError>(
            EncapError::EmptyPacket,
        ),
        frame.len() <= 34 ==> unwrap_spec(frame) == Err::<Seq<u8>, EncapError>(
            EncapError::TooShort,
        ),
{
}

/// Malformed detection: a frame of more than 34 bytes whose payload does not
/// begin with version 4 or 6 is rejected as `Malformed`.
pub proof fn lemma_rejects_bad_version(frame: Seq<u8>)
    requires
        frame.len() > 34,
        frame[14] as int / 16 != 4,
        frame[14] as int / 16 != 6,
    ensures
        unwrap_spec(frame) == Err::<Seq<u8>, EncapError>(EncapError::Malformed),
{
}

} // verus!
