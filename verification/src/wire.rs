use vstd::prelude::*;

use byteorder::{ByteOrder, LittleEndian};

verus! {

/// The eight bytes of `n`, least significant first.
pub open spec fn le_bytes(n: u64) -> Seq<u8> {
    seq![
        (n & 0xff) as u8,
        ((n >> 8u64) & 0xff) as u8,
        ((n >> 16u64) & 0xff) as u8,
        ((n >> 24u64) & 0xff) as u8,
        ((n >> 32u64) & 0xff) as u8,
        ((n >> 40u64) & 0xff) as u8,
        ((n >> 48u64) & 0xff) as u8,
        ((n >> 56u64) & 0xff) as u8,
    ]
}

/// The number whose bytes, least significant first, are the first eight of `b`.
pub open spec fn le_value(b: Seq<u8>) -> u64 {
    (b[0] as u64) | ((b[1] as u64) << 8u64) | ((b[2] as u64) << 16u64) | ((b[3] as u64) << 24u64)
        | ((b[4] as u64) << 32u64) | ((b[5] as u64) << 40u64) | ((b[6] as u64) << 48u64) | ((
    b[7] as u64) << 56u64)
}

/// The two bytes of `n`, least significant first.
pub open spec fn le_bytes16(n: u16) -> Seq<u8> {
    seq![(n & 0xff) as u8, ((n >> 8u16) & 0xff) as u8]
}

/// The eight-byte field at byte offset `pos` of `b`, read least significant first.
pub open spec fn field_at(b: Seq<u8>, pos: int) -> u64 {
    le_value(b.subrange(pos, pos + 8))
}

/// Reading back the bytes of a number gives the number.
pub proof fn lemma_le_roundtrip(n: u64)
    ensures
        le_value(le_bytes(n)) == n,
        le_bytes(n).len() == 8,
{
    let b = le_bytes(n);
    assert(((n & 0xff) as u8 as u64) | ((((n >> 8u64) & 0xff) as u8 as u64) << 8u64) | ((((n
        >> 16u64) & 0xff) as u8 as u64) << 16u64) | ((((n >> 24u64) & 0xff) as u8 as u64)
        << 24u64) | ((((n >> 32u64) & 0xff) as u8 as u64) << 32u64) | ((((n >> 40u64) & 0xff)
        as u8 as u64) << 40u64) | ((((n >> 48u64) & 0xff) as u8 as u64) << 48u64) | ((((n
        >> 56u64) & 0xff) as u8 as u64) << 56u64) == n) by (bit_vector);
}

/// A signed number survives the trip through its unsigned bytes.
pub proof fn lemma_le_roundtrip_signed(n: i64)
    ensures
        le_value(le_bytes(n as u64)) as i64 == n,
{
    lemma_le_roundtrip(n as u64);
    assert((n as u64) as i64 == n) by (bit_vector);
}

/// Reads eight bytes at `pos` as an unsigned number, least significant first
/// (`byteorder::LittleEndian::read_u64`, which reads the first eight bytes of
/// the slice it is given and panics on fewer).
#[verifier::external_body]
pub(crate) fn read_u64_le(buf: &[u8], pos: usize) -> (r: u64)
    requires
        pos + 8 <= buf@.len(),
    ensures
        r == field_at(buf@, pos as int),
{
    LittleEndian::read_u64(&buf[pos..])
}

/// Reads eight bytes at `pos` as a signed number, least significant first
/// (`byteorder::LittleEndian::read_i64`, which reinterprets the bits that
/// `read_u64` reads).
#[verifier::external_body]
pub(crate) fn read_i64_le(buf: &[u8], pos: usize) -> (r: i64)
    requires
        pos + 8 <= buf@.len(),
    ensures
        r == field_at(buf@, pos as int) as i64,
{
    LittleEndian::read_i64(&buf[pos..])
}

/// The eight bytes of `n`, least significant first
/// (`byteorder::LittleEndian::write_u64` into an eight-byte buffer).
#[verifier::external_body]
pub(crate) fn u64_le_bytes(n: u64) -> (r: [u8; 8])
    ensures
        r@ == le_bytes(n),
{
    let mut buf = [0u8; 8];
    LittleEndian::write_u64(&mut buf, n);
    buf
}

/// The eight bytes of `n` as an unsigned number, least significant first
/// (`byteorder::LittleEndian::write_i64`, which writes the bits of `n` as
/// `write_u64` would).
#[verifier::external_body]
pub(crate) fn i64_le_bytes(n: i64) -> (r: [u8; 8])
    ensures
        r@ == le_bytes(n as u64),
{
    let mut buf = [0u8; 8];
    LittleEndian::write_i64(&mut buf, n);
    buf
}

/// The two bytes of `n` as an unsigned number, least significant first
/// (`byteorder::LittleEndian::write_i16` into a two-byte buffer).
#[verifier::external_body]
pub(crate) fn i16_le_bytes(n: i16) -> (r: [u8; 2])
    ensures
        r@ == le_bytes16(n as u16),
{
    let mut buf = [0u8; 2];
    LittleEndian::write_i16(&mut buf, n);
    buf
}

/// Appends the eight bytes of an array to `buf`.
pub(crate) fn push_bytes8(buf: &mut Vec<u8>, bytes: [u8; 8])
    ensures
        final(buf)@ == old(buf)@ + bytes@,
{
    let mut i: usize = 0;
    while i < 8
        invariant
            i <= 8,
            buf@ == old(buf)@ + bytes@.take(i as int),
        decreases 8 - i,
    {
        buf.push(bytes[i]);
        assert(bytes@.take(i + 1) == bytes@.take(i as int).push(bytes@[i as int]));
        i += 1;
    }
    assert(bytes@.take(8) == bytes@);
}

} // verus!
