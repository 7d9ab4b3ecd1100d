//! The packets of the device channel and the codec that frames them.
//!
//! The device hands over one datagram per read, so the codec does no
//! framing of its own: whatever the read buffer holds is one packet.

use bytes::{BufMut, Bytes, BytesMut};
use vstd::prelude::*;

verus! {

/// `bytes::Bytes`, a handle on a run of bytes. Nothing is known of it but
/// what `bytes_contents` says.
#[verifier::external_type_specification]
#[verifier::external_body]
pub struct ExBytes(bytes::Bytes);

/// `bytes::BytesMut`, a buffer of bytes that can grow. Nothing is known of
/// it but what `buffer_contents` says.
#[verifier::external_type_specification]
#[verifier::external_body]
pub struct ExBytesMut(bytes::BytesMut);

/// `std::io::Error`, carried through and never looked into.
#[verifier::external_type_specification]
#[verifier::external_body]
pub struct ExIoError(std::io::Error);

/// The bytes that a `Bytes` handle shows.
pub uninterp spec fn bytes_contents(bytes: Bytes) -> Seq<u8>;

/// The bytes that a `BytesMut` buffer holds, from its start to its length.
pub uninterp spec fn buffer_contents(buf: BytesMut) -> Seq<u8>;

/// `Bytes::from` on a vector: the handle shows the vector's bytes.
pub assume_specification[ <Bytes as From<Vec<u8>>>::from ](vec: Vec<u8>) -> (bytes: Bytes)
    ensures
        bytes_contents(bytes) == vec@,
;

/// `Bytes::copy_from_slice`: the handle shows a copy of the slice.
pub assume_specification[ Bytes::copy_from_slice ](data: &[u8]) -> (bytes: Bytes)
    ensures
        bytes_contents(bytes) == data@,
;

/// `Bytes::as_ref`: the slice is what the handle shows.
pub assume_specification<'a>[ <Bytes as AsRef<[u8]>>::as_ref ](bytes: &'a Bytes) -> (slice:
    &'a [u8])
    ensures
        slice@ == bytes_contents(*bytes),
;

/// `BytesMut::len`: the number of bytes held.
pub assume_specification[ BytesMut::len ](buf: &BytesMut) -> (len: usize)
    ensures
        len == buffer_contents(*buf).len(),
;

/// `BytesMut::is_empty`: whether no byte is held.
pub assume_specification[ BytesMut::is_empty ](buf: &BytesMut) -> (empty: bool)
    ensures
        empty == (buffer_contents(*buf).len() == 0),
;

/// `BytesMut::split_to`: the first `at` bytes leave the buffer and are
/// returned; the rest stays. It panics where `at` is beyond the length.
pub assume_specification[ BytesMut::split_to ](buf: &mut BytesMut, at: usize) -> (head: BytesMut)
    requires
        at <= buffer_contents(*old(buf)).len(),
    ensures
        buffer_contents(head) == buffer_contents(*old(buf)).take(at as int),
        buffer_contents(*final(buf)) == buffer_contents(*old(buf)).skip(at as int),
;

/// `BytesMut::reserve`: the bytes held stay as they are. It panics where the
/// new capacity overflows, so the length asked for has to stay within
/// `isize::MAX`, the most that can be allocated. As with `Vec::reserve`,
/// nothing is said of an allocation that fails.
pub assume_specification[ BytesMut::reserve ](buf: &mut BytesMut, additional: usize)
    requires
        buffer_contents(*old(buf)).len() + additional <= isize::MAX,
    ensures
        buffer_contents(*final(buf)) == buffer_contents(*old(buf)),
;

/// `BytesMut::freeze`: the handle shows the bytes that the buffer held.
pub assume_specification[ BytesMut::freeze ](buf: BytesMut) -> (bytes: Bytes)
    ensures
        bytes_contents(bytes) == buffer_contents(buf),
;

/// `BufMut::put` on a `BytesMut`: the source's bytes are appended, the buffer
/// growing as needed. The new length has to stay within `isize::MAX`, as for
/// `BytesMut::reserve`, which it calls.
#[verifier::external_body]
fn put_bytes(dst: &mut BytesMut, src: Bytes)
    requires
        buffer_contents(*old(dst)).len() + bytes_contents(src).len() <= isize::MAX,
    ensures
        buffer_contents(*final(dst)) == buffer_contents(*old(dst)) + bytes_contents(src),
{
    dst.put(src)
}

/// `io::Error::from` on `ErrorKind::OutOfMemory`.
#[verifier::external_body]
fn out_of_memory() -> std::io::Error {
    std::io::Error::from(std::io::ErrorKind::OutOfMemory)
}

/// Room that the codec asks for in the read buffer after each packet.
pub const READ_HEADROOM: usize = 90000;

/// One unit of the device channel: the bytes of one packet.
#[derive(Debug)]
pub struct AnyPacket(Bytes);

impl View for AnyPacket {
    type V = Seq<u8>;

    closed spec fn view(&self) -> Seq<u8> {
        bytes_contents(self.0)
    }
}

impl AnyPacket {
    /// A packet of the bytes of `bytes`.
    pub fn new(bytes: Vec<u8>) -> (packet: AnyPacket)
        ensures
            packet@ == bytes@,
    {
        AnyPacket(Bytes::from(bytes))
    }

    /// A packet of the bytes that `bytes` shows.
    pub fn new_from_bytes(bytes: Bytes) -> (packet: AnyPacket)
        ensures
            packet@ == bytes_contents(bytes),
    {
        AnyPacket(bytes)
    }

    /// A packet of a copy of `bytes`.
    pub fn new_from_slice(bytes: &[u8]) -> (packet: AnyPacket)
        ensures
            packet@ == bytes@,
    {
        AnyPacket(Bytes::copy_from_slice(bytes))
    }

    /// This packet's bytes.
    pub fn get_bytes(&self) -> (bytes: &[u8])
        ensures
            bytes@ == self@,
    {
        self.0.as_ref()
    }

    /// Gives up the packet for its bytes.
    pub fn into_bytes(self) -> (bytes: Bytes)
        ensures
            bytes_contents(bytes) == self@,
    {
        self.0
    }
}

/// Turns the bytes read from the device into packets, and packets into the
/// bytes written to it.
pub struct AnyPacketCodec();

impl AnyPacketCodec {
    /// A codec. It keeps nothing between calls.
    pub fn new() -> (codec: AnyPacketCodec) {
        AnyPacketCodec()
    }

    /// Takes one packet out of the read buffer.
    ///
    /// An empty buffer gives no packet and stays as it is. Otherwise all the
    /// bytes in the buffer are one packet, and the buffer is left empty.
    pub fn decode(&mut self, buf: &mut BytesMut) -> (result: Result<
        Option<AnyPacket>,
        std::io::Error,
    >)
        ensures
            result matches Ok(item) && if buffer_contents(*old(buf)).len() == 0 {
                item is None && buffer_contents(*final(buf)) == buffer_contents(*old(buf))
            } else {
                item matches Some(packet) && packet@ == buffer_contents(*old(buf))
                    && buffer_contents(*final(buf)) == Seq::<u8>::empty()
            },
    {
        if buf.is_empty() {
            return Ok(None);
        }
        let pkt = buf.split_to(buf.len());
        buf.reserve(READ_HEADROOM);
        Ok(Some(AnyPacket(pkt.freeze())))
    }

    /// Appends a packet's bytes to the write buffer.
    ///
    /// It fails, leaving the buffer as it is, only where the buffer with the
    /// packet and four more bytes would be longer than `isize::MAX`, the most
    /// that can be allocated.
    pub fn encode(&mut self, item: AnyPacket, dst: &mut BytesMut) -> (result: Result<
        (),
        std::io::Error,
    >)
        ensures
            result is Ok <==> buffer_contents(*old(dst)).len() + item@.len() + 4 <= isize::MAX,
            result is Ok ==> buffer_contents(*final(dst)) == buffer_contents(*old(dst)) + item@,
            result is Err ==> buffer_contents(*final(dst)) == buffer_contents(*old(dst)),
    {
        let room = match item.get_bytes().len().checked_add(4) {
            Some(room) => room,
            None => {
                return Err(out_of_memory());
            },
        };
        let limit: usize = isize::MAX as usize;
        if room > limit || dst.len() > limit - room {
            return Err(out_of_memory());
        }
        dst.reserve(room);
        put_bytes(dst, item.into_bytes());
        Ok(())
    }
}

impl Default for AnyPacketCodec {
    fn default() -> (codec: Self) {
        Self::new()
    }
}

} // verus!
