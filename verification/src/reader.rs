use crate::endian::{spec_u16_at, spec_u32_at, spec_u64_at, u16_at, u32_at, u64_at, Endianness};
use crate::error::DecodeError;
use vstd::prelude::*;
use vstd::slice::slice_subrange;

verus! {

/// A forward-only cursor over a borrowed run of bytes.
///
/// The only thing a decoder can observe of a reader is the bytes it has not
/// consumed yet, `remaining()`.
#[derive(Debug)]
pub struct ByteReader<'a> {
    data: &'a [u8],
    pos: usize,
}

impl<'a> ByteReader<'a> {
    #[verifier::type_invariant]
    spec fn in_bounds(self) -> bool {
        self.pos <= self.data@.len()
    }

    /// The bytes that have not been consumed, next byte first.
    pub closed spec fn remaining(&self) -> Seq<u8> {
        self.data@.subrange(self.pos as int, self.data@.len() as int)
    }

    /// A reader with all of `data` still to be read.
    pub fn new(data: &'a [u8]) -> (reader: Self)
        ensures
            reader.remaining() == data@,
    {
        ByteReader { data, pos: 0 }
    }

    /// Number of bytes not consumed yet.
    pub fn remaining_len(&self) -> (n: usize)
        ensures
            n == self.remaining().len(),
    {
        proof {
            use_type_invariant(self);
        }
        self.data.len() - self.pos
    }

    /// The unread bytes, without consuming any.
    pub fn rest(&self) -> (bytes: &'a [u8])
        ensures
            bytes@ == self.remaining(),
    {
        proof {
            use_type_invariant(self);
        }
        slice_subrange(self.data, self.pos, self.data.len())
    }

    /// Consumes the next `n` bytes, which must be there, and returns them.
    pub(crate) fn take(&mut self, n: usize) -> (bytes: &'a [u8])
        requires
            n <= old(self).remaining().len(),
        ensures
            bytes@ == old(self).remaining().subrange(0, n as int),
            final(self).remaining() == old(self).remaining().skip(n as int),
    {
        proof {
            use_type_invariant(&*self);
        }
        let start = self.pos;
        assert(start + n <= self.data.len());
        let bytes = slice_subrange(self.data, start, start + n);
        self.pos = start + n;
        bytes
    }
}

/// What a fixed-width read of `width` bytes leaves behind: on success the
/// reader has moved past exactly those bytes, on failure it has not moved.
pub open spec fn read_outcome<T>(
    before: ByteReader,
    after: ByteReader,
    result: Result<T, DecodeError>,
    width: int,
) -> bool {
    match result {
        Ok(_) => before.remaining().len() >= width && after.remaining() == before.remaining().skip(
            width,
        ),
        Err(error) => before.remaining().len() < width && error == DecodeError::ShortRead && after
            == before,
    }
}

/// Reads one byte.
pub fn read_u8(reader: &mut ByteReader) -> (result: Result<u8, DecodeError>)
    ensures
        read_outcome(*old(reader), *final(reader), result, 1),
        result matches Ok(value) ==> value == old(reader).remaining()[0],
{
    if reader.remaining_len() < 1 {
        return Err(DecodeError::ShortRead);
    }
    let bytes = reader.take(1);
    Ok(bytes[0])
}

/// Reads a 16-bit unsigned integer in the given byte order.
pub fn read_u16(reader: &mut ByteReader, endianness: Endianness) -> (result: Result<
    u16,
    DecodeError,
>)
    ensures
        read_outcome(*old(reader), *final(reader), result, 2),
        result matches Ok(value) ==> value == spec_u16_at(old(reader).remaining(), 0, endianness),
{
    if reader.remaining_len() < 2 {
        return Err(DecodeError::ShortRead);
    }
    let bytes = reader.take(2);
    Ok(u16_at(bytes, 0, endianness))
}

/// Reads a 32-bit unsigned integer in the given byte order.
pub fn read_u32(reader: &mut ByteReader, endianness: Endianness) -> (result: Result<
    u32,
    DecodeError,
>)
    ensures
        read_outcome(*old(reader), *final(reader), result, 4),
        result matches Ok(value) ==> value == spec_u32_at(old(reader).remaining(), 0, endianness),
{
    if reader.remaining_len() < 4 {
        return Err(DecodeError::ShortRead);
    }
    let bytes = reader.take(4);
    Ok(u32_at(bytes, 0, endianness))
}

/// Reads a 64-bit unsigned integer in the given byte order.
pub fn read_u64(reader: &mut ByteReader, endianness: Endianness) -> (result: Result<
    u64,
    DecodeError,
>)
    ensures
        read_outcome(*old(reader), *final(reader), result, 8),
        result matches Ok(value) ==> value == spec_u64_at(old(reader).remaining(), 0, endianness),
{
    if reader.remaining_len() < 8 {
        return Err(DecodeError::ShortRead);
    }
    let bytes = reader.take(8);
    Ok(u64_at(bytes, 0, endianness))
}

/// Reads the next `count` bytes as they are.
pub fn read_bytes<'a>(reader: &mut ByteReader<'a>, count: usize) -> (result: Result<
    &'a [u8],
    DecodeError,
>)
    ensures
        read_outcome(*old(reader), *final(reader), result, count as int),
        result matches Ok(bytes) ==> bytes@ == old(reader).remaining().subrange(0, count as int),
{
    if reader.remaining_len() < count {
        return Err(DecodeError::ShortRead);
    }
    Ok(reader.take(count))
}

} // verus!
