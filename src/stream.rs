use vstd::prelude::*;
use crate::error::FormatError;

verus! {

/// A 32-bit IEEE-754 float, kept as its bit pattern.
pub type F32Bits = u32;

/// The byte at `p`, as an integer.
pub open spec fn byte_at(d: Seq<u8>, p: int) -> int {
    d[p] as int
}

/// The little-endian 16-bit value at `p`, as an integer.
pub open spec fn le16(d: Seq<u8>, p: int) -> int {
    byte_at(d, p) + 256 * byte_at(d, p + 1)
}

/// The little-endian 32-bit value at `p`, as an integer.
pub open spec fn le32(d: Seq<u8>, p: int) -> int {
    le16(d, p) + 65536 * le16(d, p + 2)
}

pub open spec fn u16_at(d: Seq<u8>, p: int) -> u16 {
    le16(d, p) as u16
}

pub open spec fn u32_at(d: Seq<u8>, p: int) -> u32 {
    le32(d, p) as u32
}

/// The two's-complement 8-bit value at `p`.
pub open spec fn i8_at(d: Seq<u8>, p: int) -> i8 {
    let v = byte_at(d, p);
    (if v < 0x80 { v } else { v - 0x100 }) as i8
}

/// The two's-complement little-endian 16-bit value at `p`.
pub open spec fn i16_at(d: Seq<u8>, p: int) -> i16 {
    let v = le16(d, p);
    (if v < 0x8000 { v } else { v - 0x10000 }) as i16
}

/// The two's-complement little-endian 32-bit value at `p`.
pub open spec fn i32_at(d: Seq<u8>, p: int) -> i32 {
    let v = le32(d, p);
    (if v < 0x8000_0000 { v } else { v - 0x1_0000_0000 }) as i32
}

/// A one-byte flag at `p`: any nonzero byte is true.
pub open spec fn flag_at(d: Seq<u8>, p: int) -> bool {
    d[p] != 0
}

/// A two-byte flag at `p`: any nonzero value is true.
pub open spec fn flag16_at(d: Seq<u8>, p: int) -> bool {
    le16(d, p) != 0
}

pub fn get_u8(d: &[u8], p: usize) -> (r: u8)
    requires
        p + 1 <= d@.len(),
    ensures
        r == d@[p as int],
{
    d[p]
}

pub fn get_u16(d: &[u8], p: usize) -> (r: u16)
    requires
        p + 2 <= d@.len(),
    ensures
        r == u16_at(d@, p as int),
        r as int == le16(d@, p as int),
{
    let lo = d[p] as u16;
    let hi = d[p + 1] as u16;
    lo + hi * 256
}

pub fn get_u32(d: &[u8], p: usize) -> (r: u32)
    requires
        p + 4 <= d@.len(),
    ensures
        r == u32_at(d@, p as int),
        r as int == le32(d@, p as int),
{
    let lo = get_u16(d, p) as u32;
    let end: usize = d.len();
    assert(p + 2 <= end);
    let hi = get_u16(d, p + 2) as u32;
    lo + hi * 65536
}

pub fn get_i8(d: &[u8], p: usize) -> (r: i8)
    requires
        p + 1 <= d@.len(),
    ensures
        r == i8_at(d@, p as int),
{
    let v = d[p];
    if v < 0x80 {
        v as i8
    } else {
        (v as i16 - 0x100) as i8
    }
}

pub fn get_i16(d: &[u8], p: usize) -> (r: i16)
    requires
        p + 2 <= d@.len(),
    ensures
        r == i16_at(d@, p as int),
{
    let v = get_u16(d, p);
    if v < 0x8000 {
        v as i16
    } else {
        (v as i32 - 0x10000) as i16
    }
}

pub fn get_i32(d: &[u8], p: usize) -> (r: i32)
    requires
        p + 4 <= d@.len(),
    ensures
        r == i32_at(d@, p as int),
{
    let v = get_u32(d, p);
    if v < 0x8000_0000 {
        v as i32
    } else {
        (v as i64 - 0x1_0000_0000) as i32
    }
}

pub fn get_flag(d: &[u8], p: usize) -> (r: bool)
    requires
        p + 1 <= d@.len(),
    ensures
        r == flag_at(d@, p as int),
{
    d[p] != 0
}

pub fn get_flag16(d: &[u8], p: usize) -> (r: bool)
    requires
        p + 2 <= d@.len(),
    ensures
        r == flag16_at(d@, p as int),
{
    get_u16(d, p) != 0
}

/// A byte source with a read position, as the record decoders consume it.
///
/// The position may stand past the end; reading there fails.
pub struct ByteStream {
    pub data: Vec<u8>,
    pub pos: usize,
}

impl ByteStream {
    /// Whether `n` bytes can be read from the current position.
    pub open spec fn holds(&self, n: int) -> bool {
        self.pos + n <= self.data@.len()
    }

    pub fn new(data: Vec<u8>) -> (r: ByteStream)
        ensures
            r.data@ == data@,
            r.pos == 0,
    {
        ByteStream { data, pos: 0 }
    }

    pub fn position(&self) -> (r: usize)
        ensures
            r == self.pos,
    {
        self.pos
    }

    pub fn can_read(&self, n: usize) -> (r: bool)
        ensures
            r == self.holds(n as int),
            r ==> self.pos + n <= usize::MAX,
    {
        self.pos <= self.data.len() && self.data.len() - self.pos >= n
    }
}

/// What a read of a fixed-size record of `n` bytes, whose value at the
/// starting position is `v`, leaves behind: the value, with the position
/// moved past it, when the stream holds the `n` bytes, and the end-of-stream
/// error otherwise. The bytes themselves never change.
pub open spec fn reads_fixed<T>(
    before: ByteStream,
    after: ByteStream,
    r: Result<T, FormatError>,
    n: int,
    v: T,
) -> bool {
    &&& after.data@ == before.data@
    &&& match r {
        Ok(x) => before.holds(n) && x == v && after.pos == before.pos + n,
        Err(e) => !before.holds(n) && e == FormatError::UnexpectedEndOfStream,
    }
}

/// Reads one byte.
pub fn read_u8(stream: &mut ByteStream) -> (r: Result<u8, FormatError>)
    ensures
        reads_fixed(*old(stream), *final(stream), r, 1, old(stream).data@[old(stream).pos as int]),
{
    if !stream.can_read(1) {
        return Err(FormatError::UnexpectedEndOfStream);
    }
    let v = get_u8(stream.data.as_slice(), stream.pos);
    stream.pos = stream.pos + 1;
    Ok(v)
}

/// Reads a little-endian 16-bit unsigned value.
pub fn read_u16(stream: &mut ByteStream) -> (r: Result<u16, FormatError>)
    ensures
        reads_fixed(*old(stream), *final(stream), r, 2, u16_at(old(stream).data@, old(stream).pos as int)),
{
    if !stream.can_read(2) {
        return Err(FormatError::UnexpectedEndOfStream);
    }
    let v = get_u16(stream.data.as_slice(), stream.pos);
    stream.pos = stream.pos + 2;
    Ok(v)
}

/// Reads a little-endian 16-bit two's-complement value.
pub fn read_i16(stream: &mut ByteStream) -> (r: Result<i16, FormatError>)
    ensures
        reads_fixed(*old(stream), *final(stream), r, 2, i16_at(old(stream).data@, old(stream).pos as int)),
{
    if !stream.can_read(2) {
        return Err(FormatError::UnexpectedEndOfStream);
    }
    let v = get_i16(stream.data.as_slice(), stream.pos);
    stream.pos = stream.pos + 2;
    Ok(v)
}

/// Reads an 8-bit two's-complement value.
pub fn read_i8(stream: &mut ByteStream) -> (r: Result<i8, FormatError>)
    ensures
        reads_fixed(*old(stream), *final(stream), r, 1, i8_at(old(stream).data@, old(stream).pos as int)),
{
    if !stream.can_read(1) {
        return Err(FormatError::UnexpectedEndOfStream);
    }
    let v = get_i8(stream.data.as_slice(), stream.pos);
    stream.pos = stream.pos + 1;
    Ok(v)
}

/// What `String::from_utf8` makes of a byte string: its characters when the
/// bytes are valid UTF-8, and nothing otherwise.
pub uninterp spec fn utf8_text(b: Seq<u8>) -> Option<Seq<char>>;

/// Relies on std's `String::from_utf8`: it accepts the bytes exactly when
/// they are valid UTF-8, and the string then holds their characters.
#[verifier::external_body]
fn decode_utf8(b: Vec<u8>) -> (r: Option<String>)
    ensures
        match r {
            Some(s) => utf8_text(b@) == Some(s@),
            None => utf8_text(b@) is None,
        },
{
    String::from_utf8(b).ok()
}

/// Reads `len` bytes as UTF-8 text.
pub fn read_sized_str(stream: &mut ByteStream, len: usize) -> (r: Result<String, FormatError>)
    ensures
        final(stream).data@ == old(stream).data@,
        match r {
            Ok(s) => old(stream).holds(len as int) && utf8_text(
                old(stream).data@.subrange(old(stream).pos as int, old(stream).pos + len),
            ) == Some(s@) && final(stream).pos == old(stream).pos + len,
            Err(e) => if old(stream).holds(len as int) {
                utf8_text(old(stream).data@.subrange(old(stream).pos as int, old(stream).pos + len))
                    is None && e == FormatError::InvalidStringEncoding
            } else {
                e == FormatError::UnexpectedEndOfStream
            },
        },
{
    if !stream.can_read(len) {
        return Err(FormatError::UnexpectedEndOfStream);
    }
    let d = stream.data.as_slice();
    let p = stream.pos;
    let mut bytes: Vec<u8> = Vec::new();
    let mut i: usize = 0;
    while i < len
        invariant
            p + len <= d@.len(),
            p + len <= usize::MAX,
            i <= len,
            bytes@ == d@.subrange(p as int, p + i),
        decreases len - i,
    {
        bytes.push(d[p + i]);
        i = i + 1;
        assert(bytes@ =~= d@.subrange(p as int, p + i));
    }
    stream.pos = p + len;
    match decode_utf8(bytes) {
        Some(s) => Ok(s),
        None => Err(FormatError::InvalidStringEncoding),
    }
}

/// Moves the position over `n` bytes whose value is of no use.
pub fn skip(stream: &mut ByteStream, n: usize) -> (r: Result<(), FormatError>)
    ensures
        reads_fixed(*old(stream), *final(stream), r, n as int, ()),
{
    if !stream.can_read(n) {
        return Err(FormatError::UnexpectedEndOfStream);
    }
    stream.pos = stream.pos + n;
    Ok(())
}

} // verus!
