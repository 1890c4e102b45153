//! The header of a frame on the wire.
//!
//! A frame is a four byte header holding the payload length `N` as a
//! big-endian (network order) unsigned integer, followed by `N` bytes of
//! payload.

use byteorder::{ByteOrder, NetworkEndian};
use vstd::prelude::*;

verus! {

/// Number of bytes of a frame header.
pub const HEADER_SIZE: usize = 4;

/// The unsigned integer that the first four bytes of `b` encode in
/// big-endian order.
pub open spec fn be_u32_value(b: Seq<u8>) -> nat
    recommends
        b.len() >= 4,
{
    (b[0] as nat) * 0x100_0000 + (b[1] as nat) * 0x1_0000 + (b[2] as nat) * 0x100 + (b[3] as nat)
}

/// The four bytes that encode `n` in big-endian order.
pub open spec fn be_u32_bytes(n: u32) -> Seq<u8> {
    seq![(n / 0x100_0000) as u8, ((n / 0x1_0000) % 0x100) as u8, ((n / 0x100) % 0x100) as u8, (n % 0x100) as u8]
}

/// Decoding the big-endian encoding of a number gives the number back.
pub proof fn lemma_be_u32_roundtrip(n: u32)
    ensures
        be_u32_bytes(n).len() == 4,
        be_u32_value(be_u32_bytes(n)) == n,
{
    let b = be_u32_bytes(n);
    assert(b[0] == (n / 0x100_0000) as u8);
    assert(b[1] == ((n / 0x1_0000) % 0x100) as u8);
    assert(b[2] == ((n / 0x100) % 0x100) as u8);
    assert(b[3] == (n % 0x100) as u8);
    assert(((n / 0x100_0000) as u8) as nat * 0x100_0000 + (((n / 0x1_0000) % 0x100) as u8) as nat
        * 0x1_0000 + (((n / 0x100) % 0x100) as u8) as nat * 0x100 + ((n % 0x100) as u8) as nat
        == n as nat) by (bit_vector);
}

/// Reads the payload length from the first four bytes of `buf`
/// (`byteorder`'s `NetworkEndian::read_u32`: `u32::from_be_bytes` of
/// `buf[..4]`; it panics when `buf` is shorter than four bytes).
#[verifier::external_body]
fn read_be_u32(buf: &[u8]) -> (r: u32)
    requires
        buf@.len() >= 4,
    ensures
        r == be_u32_value(buf@),
{
    NetworkEndian::read_u32(buf)
}

/// Writes `n` into the four header bytes (`byteorder`'s
/// `NetworkEndian::write_u32`: copies `n.to_be_bytes()` into `buf[..4]`).
#[verifier::external_body]
fn write_be_u32(buf: &mut [u8; 4], n: u32)
    ensures
        final(buf)@ == be_u32_bytes(n),
{
    NetworkEndian::write_u32(buf, n)
}

/// A frame header that borrows its four bytes from a buffer.
pub struct FramedHdrRef<'a> {
    buf: &'a [u8],
}

impl<'a> FramedHdrRef<'a> {
    /// The header bytes.
    pub closed spec fn bytes(&self) -> Seq<u8> {
        self.buf@
    }

    /// Wraps exactly four header bytes.
    pub fn new(buf: &'a [u8]) -> (r: Self)
        requires
            buf@.len() == HEADER_SIZE,
        ensures
            r.bytes() == buf@,
    {
        FramedHdrRef { buf }
    }

    /// Number of bytes of a header.
    pub fn size() -> (r: usize)
        ensures
            r == HEADER_SIZE,
    {
        HEADER_SIZE
    }

    /// The payload length that the header announces.
    pub fn get_size(&self) -> (r: u32)
        requires
            self.bytes().len() == HEADER_SIZE,
        ensures
            r == be_u32_value(self.bytes()),
    {
        read_be_u32(self.buf)
    }
}

/// A frame header that owns its four bytes.
pub struct FramedHdr {
    buf: [u8; HEADER_SIZE],
}

impl FramedHdr {
    /// The header bytes.
    pub closed spec fn bytes(&self) -> Seq<u8> {
        self.buf@
    }

    /// Number of bytes of a header.
    pub fn size() -> (r: usize)
        ensures
            r == HEADER_SIZE,
    {
        HEADER_SIZE
    }

    /// A header of four zero bytes (announcing an empty payload).
    pub fn new() -> (r: Self)
        ensures
            r.bytes() == seq![0u8, 0u8, 0u8, 0u8],
    {
        Self { buf: [0u8, 0u8, 0u8, 0u8] }
    }

    /// The header bytes.
    pub fn buf(&self) -> (r: &[u8])
        ensures
            r@ == self.bytes(),
            r@.len() == HEADER_SIZE,
    {
        self.buf.as_slice()
    }

    /// Sets the announced payload length.
    pub fn set_size(&mut self, value: u32)
        ensures
            final(self).bytes() == be_u32_bytes(value),
    {
        write_be_u32(&mut self.buf, value)
    }
}

/// The length that a header announces is the one that was last set.
pub proof fn lemma_header_set_then_get(value: u32)
    ensures
        be_u32_bytes(value).len() == HEADER_SIZE,
        be_u32_value(be_u32_bytes(value)) == value,
{
    lemma_be_u32_roundtrip(value);
}

} // verus!
