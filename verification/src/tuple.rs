use crate::endian::{spec_u16_at, spec_u32_at, u16_at, u32_at, Endianness};
use crate::error::DecodeError;
use crate::flags::{Infomask, Infomask2};
use crate::ids::{CommandId, ItemPointerData, TransactionId};
use crate::reader::{read_outcome, ByteReader};
use vstd::prelude::*;
use vstd::slice::{slice_subrange, slice_to_vec};

verus! {

/// Size in bytes of the fixed part of a row header.
pub const HEAP_TUPLE_HEADER_SIZE: usize = 23;

/// The fixed header of a row: who wrote it, who deleted it, and how to read
/// what follows.
#[derive(Clone, Copy, Debug, PartialEq, Eq)]
pub struct HeapTupleHeaderData {
    /// Transaction that inserted the row.
    pub t_xmin: TransactionId,
    /// Transaction that deleted or locked the row.
    pub t_xmax: TransactionId,
    /// Command within the transaction; the same four bytes hold the
    /// transaction of an old-style vacuum that moved the row.
    pub t_cid: CommandId,
    /// Where this row version, or its successor, lives.
    pub t_ctid: ItemPointerData,
    /// Attribute count and tuple-state bits.
    pub t_infomask2: Infomask2,
    /// Storage, lock and visibility bits.
    pub t_infomask: Infomask,
    /// Offset from the start of the row to its data. The null bitmap and any
    /// padding lie between the fixed header and this offset.
    pub t_hoff: u8,
}

/// The row header that the first 23 bytes of `b` encode.
pub open spec fn spec_heap_tuple_header(b: Seq<u8>, e: Endianness) -> HeapTupleHeaderData {
    HeapTupleHeaderData {
        t_xmin: TransactionId(spec_u32_at(b, 0, e)),
        t_xmax: TransactionId(spec_u32_at(b, 4, e)),
        t_cid: CommandId(spec_u32_at(b, 8, e)),
        t_ctid: ItemPointerData([b[12], b[13], b[14], b[15], b[16], b[17]]),
        t_infomask2: Infomask2::spec_from_bits_truncate(spec_u16_at(b, 18, e)),
        t_infomask: Infomask::spec_from_bits_truncate(spec_u16_at(b, 20, e)),
        t_hoff: b[22],
    }
}

impl HeapTupleHeaderData {
    /// Bytes of null bitmap that the header announces: one bit for each
    /// attribute, rounded up to whole bytes, or none without the null flag.
    pub open spec fn spec_null_bitmap_len(&self) -> int {
        if self.t_infomask.spec_has_null() {
            (self.t_infomask2.spec_attribute_count() + 7) / 8
        } else {
            0
        }
    }

    /// The data offset leaves room for the fixed header and the null bitmap,
    /// and lies inside a row of `total` bytes.
    pub open spec fn spec_fits(&self, total: int) -> bool {
        HEAP_TUPLE_HEADER_SIZE + self.spec_null_bitmap_len() <= self.t_hoff <= total
    }

    /// Bytes of null bitmap that the header announces.
    pub fn null_bitmap_len(&self) -> (len: usize)
        ensures
            len == self.spec_null_bitmap_len(),
            len <= 256,
    {
        if self.t_infomask.has_null() {
            (self.t_infomask2.attribute_count() as usize + 7) / 8
        } else {
            0
        }
    }

    /// Decodes a header from the start of `bytes`.
    fn from_bytes(bytes: &[u8], endianness: Endianness) -> (header: HeapTupleHeaderData)
        requires
            bytes.len() >= HEAP_TUPLE_HEADER_SIZE,
        ensures
            header == spec_heap_tuple_header(bytes@, endianness),
    {
        HeapTupleHeaderData {
            t_xmin: TransactionId(u32_at(bytes, 0, endianness)),
            t_xmax: TransactionId(u32_at(bytes, 4, endianness)),
            t_cid: CommandId(u32_at(bytes, 8, endianness)),
            t_ctid: ItemPointerData(
                [bytes[12], bytes[13], bytes[14], bytes[15], bytes[16], bytes[17]],
            ),
            t_infomask2: Infomask2::from_bits_truncate(u16_at(bytes, 18, endianness)),
            t_infomask: Infomask::from_bits_truncate(u16_at(bytes, 20, endianness)),
            t_hoff: bytes[22],
        }
    }

    /// Decodes the 23-byte row header at the reader's position.
    pub fn read_from(reader: &mut ByteReader, endianness: Endianness) -> (result: Result<
        HeapTupleHeaderData,
        DecodeError,
    >)
        ensures
            read_outcome(*old(reader), *final(reader), result, HEAP_TUPLE_HEADER_SIZE as int),
            result matches Ok(header) ==> header == spec_heap_tuple_header(
                old(reader).remaining(),
                endianness,
            ),
    {
        if reader.remaining_len() < HEAP_TUPLE_HEADER_SIZE {
            return Err(DecodeError::ShortRead);
        }
        let header = HeapTupleHeaderData::from_bytes(reader.rest(), endianness);
        let _ = reader.take(HEAP_TUPLE_HEADER_SIZE);
        Ok(header)
    }
}

/// A row: its header, its null bitmap if it has one, and its data as stored.
#[derive(Clone, Debug, PartialEq, Eq)]
pub struct HeapTuple {
    pub header: HeapTupleHeaderData,
    /// One bit for each attribute, set where the attribute is null; `None`
    /// where the header has no null flag.
    pub null_bitmap: Option<Vec<u8>>,
    /// The bytes from the data offset to the end of the row.
    pub data: Vec<u8>,
}

/// A row as a mathematical value.
pub struct HeapTupleView {
    pub header: HeapTupleHeaderData,
    pub null_bitmap: Option<Seq<u8>>,
    pub data: Seq<u8>,
}

impl View for HeapTuple {
    type V = HeapTupleView;

    open spec fn view(&self) -> HeapTupleView {
        HeapTupleView {
            header: self.header,
            null_bitmap: match self.null_bitmap {
                Some(bitmap) => Some(bitmap@),
                None => None,
            },
            data: self.data@,
        }
    }
}

/// The row of `total` bytes that starts at the beginning of `b`, or the
/// reason why there is none.
///
/// The checks come in this order: the `total` bytes must be there; so must
/// the 23 bytes of the fixed header; the data offset must leave room for the
/// fixed header and for the null bitmap that the flags announce, and must not
/// lie beyond the end of the row. The bitmap follows the fixed header, bytes
/// between it and the data offset are padding, and the data runs from the
/// data offset to the end of the row.
pub open spec fn spec_heap_tuple(b: Seq<u8>, total: int, e: Endianness) -> Result<
    HeapTupleView,
    DecodeError,
> {
    let header = spec_heap_tuple_header(b, e);
    if b.len() < total {
        Err(DecodeError::Truncated)
    } else if b.len() < HEAP_TUPLE_HEADER_SIZE {
        Err(DecodeError::ShortRead)
    } else if !header.spec_fits(total) {
        Err(DecodeError::StructuralInvariantViolation)
    } else {
        Ok(
            HeapTupleView {
                header,
                null_bitmap: if header.t_infomask.spec_has_null() {
                    Some(
                        b.subrange(
                            HEAP_TUPLE_HEADER_SIZE as int,
                            HEAP_TUPLE_HEADER_SIZE + header.spec_null_bitmap_len(),
                        ),
                    )
                } else {
                    None
                },
                data: b.subrange(header.t_hoff as int, total),
            },
        )
    }
}

/// The data of a row is what its declared length leaves behind its data
/// offset, and a data offset beyond the declared length is a structural
/// violation, never an empty row. This holds wherever `b` holds the whole row
/// and the whole fixed header: of a row that `b` does not hold to its end
/// nothing is said but that it is truncated.
pub proof fn lemma_row_data_length(b: Seq<u8>, total: int, e: Endianness)
    requires
        b.len() >= total,
        b.len() >= HEAP_TUPLE_HEADER_SIZE,
    ensures
        spec_heap_tuple(b, total, e) matches Ok(tuple) ==> tuple.data.len() == total
            - spec_heap_tuple_header(b, e).t_hoff && tuple.header == spec_heap_tuple_header(b, e),
        spec_heap_tuple_header(b, e).t_hoff > total ==> spec_heap_tuple(b, total, e) == Err::<
            HeapTupleView,
            DecodeError,
        >(DecodeError::StructuralInvariantViolation),
{
}

/// A row that `b` does not hold to its end is truncated, whatever its header
/// says.
pub proof fn lemma_row_truncated(b: Seq<u8>, total: int, e: Endianness)
    requires
        b.len() < total,
    ensures
        spec_heap_tuple(b, total, e) == Err::<HeapTupleView, DecodeError>(DecodeError::Truncated),
{
}

impl HeapTuple {
    /// Decodes the row that starts at the reader's position and is
    /// `total_length` bytes long, header included. On success the reader has
    /// moved past exactly the row; on an error it has not moved.
    pub fn from_reader(
        reader: &mut ByteReader,
        total_length: u32,
        endianness: Endianness,
    ) -> (result: Result<HeapTuple, DecodeError>)
        ensures
            match result {
                Ok(tuple) => spec_heap_tuple(
                    old(reader).remaining(),
                    total_length as int,
                    endianness,
                ) == Ok::<HeapTupleView, DecodeError>(tuple@) && final(reader).remaining() == old(
                    reader,
                ).remaining().skip(total_length as int),
                Err(error) => spec_heap_tuple(
                    old(reader).remaining(),
                    total_length as int,
                    endianness,
                ) == Err::<HeapTupleView, DecodeError>(error) && *final(reader) == *old(reader),
            },
            result is Ok ==> total_length <= old(reader).remaining().len(),
    {
        let total = total_length as usize;
        if reader.remaining_len() < total {
            return Err(DecodeError::Truncated);
        }
        if reader.remaining_len() < HEAP_TUPLE_HEADER_SIZE {
            return Err(DecodeError::ShortRead);
        }
        let bytes = reader.rest();
        let header = HeapTupleHeaderData::from_bytes(bytes, endianness);
        let data_start = header.t_hoff as usize;
        let bitmap_end = HEAP_TUPLE_HEADER_SIZE + header.null_bitmap_len();
        if data_start < bitmap_end || data_start > total {
            return Err(DecodeError::StructuralInvariantViolation);
        }
        let null_bitmap = if header.t_infomask.has_null() {
            Some(slice_to_vec(slice_subrange(bytes, HEAP_TUPLE_HEADER_SIZE, bitmap_end)))
        } else {
            None
        };
        let data = slice_to_vec(slice_subrange(bytes, data_start, total));
        let _ = reader.take(total);
        Ok(HeapTuple { header, null_bitmap, data })
    }
}

} // verus!
