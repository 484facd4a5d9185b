use vstd::prelude::*;
use vstd::slice::slice_subrange;
use vstd::string::StringSliceAdditionalSpecFns;
use vstd::utf8::{decode_utf8, encode_utf8, valid_utf8};

verus! {

/// Why a framed value could not be read or written.
#[derive(Debug, Clone, Copy, PartialEq, Eq, Structural)]
pub enum FramingError {
    /// The input ended before the value did.
    UnexpectedEof,
    /// A string is longer than a 16-bit length prefix can say.
    TooLong,
}

/// The big-endian bytes of a 16-bit number.
pub open spec fn be16(v: u16) -> Seq<u8> {
    seq![(v / 256) as u8, (v % 256) as u8]
}

/// The number that two big-endian bytes hold.
pub open spec fn be16_value(hi: u8, lo: u8) -> u16 {
    (hi * 256 + lo) as u16
}

/// What `String::from_utf8_lossy` makes of some bytes: their characters, with
/// each invalid sequence replaced by U+FFFD.
pub uninterp spec fn utf8_lossy(bytes: Seq<u8>) -> Seq<char>;

/// Calls `String::from_utf8_lossy`. Its documentation says that valid UTF-8
/// comes back as the string it encodes; what an invalid sequence turns into
/// is named by `utf8_lossy` and not stated here.
#[verifier::external_body]
pub(crate) fn from_utf8_lossy(bytes: &[u8]) -> (r: String)
    ensures
        r@ == utf8_lossy(bytes@),
        valid_utf8(bytes@) ==> r@ == decode_utf8(bytes@),
{
    String::from_utf8_lossy(bytes).into_owned()
}

/// Appends the big-endian bytes of `value` to `out`.
pub fn write_u16(out: &mut Vec<u8>, value: u16)
    ensures
        final(out)@ == old(out)@ + be16(value),
{
    out.push((value / 256) as u8);
    out.push((value % 256) as u8);
    assert(final(out)@ =~= old(out)@ + be16(value));
}

/// Appends `value` with its byte length as a 16-bit big-endian prefix; a
/// string of more than 65535 bytes is refused and nothing is written.
pub fn write_string(out: &mut Vec<u8>, value: &str) -> (r: Result<(), FramingError>)
    ensures
        value.spec_bytes().len() > u16::MAX ==> r == Err::<(), FramingError>(FramingError::TooLong)
            && final(out)@ == old(out)@,
        value.spec_bytes().len() <= u16::MAX ==> r is Ok && final(out)@ == old(out)@ + be16(
            value.spec_bytes().len() as u16,
        ) + value.spec_bytes(),
{
    let b = value.as_bytes();
    if b.len() > 65535 {
        return Err(FramingError::TooLong);
    }
    write_u16(out, b.len() as u16);
    let ghost mid = out@;
    let mut i: usize = 0;
    while i < b.len()
        invariant
            i <= b@.len(),
            out@ == mid + b@.subrange(0, i as int),
        decreases b@.len() - i,
    {
        out.push(b[i]);
        assert(out@ =~= mid + b@.subrange(0, i + 1));
        i += 1;
    }
    assert(b@.subrange(0, b@.len() as int) =~= b@);
    Ok(())
}

/// Reads a big-endian 16-bit number at `pos`; returns it with the position
/// after it.
pub fn read_u16(input: &[u8], pos: usize) -> (r: Result<(u16, usize), FramingError>)
    ensures
        pos + 2 <= input@.len() ==> r == Ok::<(u16, usize), FramingError>(
            (be16_value(input@[pos as int], input@[pos + 1]), (pos + 2) as usize),
        ),
        pos + 2 > input@.len() ==> r == Err::<(u16, usize), FramingError>(
            FramingError::UnexpectedEof,
        ),
{
    if pos > input.len() || input.len() - pos < 2 {
        return Err(FramingError::UnexpectedEof);
    }
    let hi = input[pos];
    let lo = input[pos + 1];
    let v: u16 = (hi as u16) * 256 + (lo as u16);
    Ok((v, pos + 2))
}

/// Whether the string at `pos` fits in a buffer of `capacity` bytes: the
/// length prefix, where it can be read, says no more than `capacity`.
pub open spec fn string_fits(input: Seq<u8>, pos: int, capacity: int) -> bool {
    pos + 2 <= input.len() ==> be16_value(input[pos], input[pos + 1]) <= capacity
}

/// Reads a string at `pos` that a 16-bit big-endian length prefix precedes,
/// into a buffer of `capacity` bytes; invalid UTF-8 turns into U+FFFD.
/// Returns the string with the position after it.
pub fn read_string(input: &[u8], pos: usize, capacity: usize) -> (r: Result<
    (String, usize),
    FramingError,
>)
    requires
        string_fits(input@, pos as int, capacity as int),
    ensures
        ({
            let size = be16_value(input@[pos as int], input@[pos + 1]) as int;
            let end = pos + 2 + size;
            match r {
                Ok((s, next)) => {
                    &&& pos + 2 <= input@.len()
                    &&& end <= input@.len()
                    &&& next == end
                    &&& s@ == utf8_lossy(input@.subrange(pos + 2, end))
                    &&& valid_utf8(input@.subrange(pos + 2, end)) ==> s@ == decode_utf8(
                        input@.subrange(pos + 2, end),
                    )
                },
                Err(e) => e == FramingError::UnexpectedEof && (pos + 2 > input@.len() || end
                    > input@.len()),
            }
        }),
{
    let (size, start) = match read_u16(input, pos) {
        Ok(v) => v,
        Err(e) => return Err(e),
    };
    let size = size as usize;
    if input.len() - start < size {
        return Err(FramingError::UnexpectedEof);
    }
    let bytes = slice_subrange(input, start, start + size);
    let s = from_utf8_lossy(bytes);
    Ok((s, start + size))
}

/// A number written by `write_u16` reads back as itself.
pub proof fn lemma_u16_roundtrip(v: u16)
    ensures
        be16_value(be16(v)[0], be16(v)[1]) == v,
{
}

/// What `read_string` reads back of what `write_string` wrote: after any
/// earlier bytes `pre`, the framed bytes of a string that fits the length
/// prefix hold its length, and its bytes decode to its characters.
pub proof fn lemma_string_roundtrip(pre: Seq<u8>, chars: Seq<char>)
    requires
        encode_utf8(chars).len() <= u16::MAX,
    ensures
        ({
            let body = encode_utf8(chars);
            let bytes = pre + be16(body.len() as u16) + body;
            let p = pre.len() as int;
            &&& be16_value(bytes[p], bytes[p + 1]) == body.len()
            &&& bytes.subrange(p + 2, p + 2 + body.len()) == body
            &&& p + 2 + body.len() == bytes.len()
            &&& valid_utf8(body)
            &&& decode_utf8(body) == chars
        }),
{
    let body = encode_utf8(chars);
    let n = body.len() as u16;
    let bytes = pre + be16(n) + body;
    let p = pre.len() as int;
    lemma_u16_roundtrip(n);
    assert(bytes[p] == be16(n)[0]);
    assert(bytes[p + 1] == be16(n)[1]);
    assert(bytes.subrange(p + 2, p + 2 + body.len()) =~= body);
    vstd::utf8::encode_utf8_valid_utf8(chars);
    vstd::utf8::encode_utf8_decode_utf8(chars);
}

} // verus!
