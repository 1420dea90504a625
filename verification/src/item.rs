use crate::endian::{spec_u32_at, u32_at, Endianness};
use crate::error::DecodeError;
use crate::flags::LPFlags;
use crate::header::{PageHeaderData, PAGE_HEADER_SIZE};
use crate::reader::{read_outcome, read_u32, ByteReader};
use vstd::prelude::*;

verus! {

/// Size in bytes of one line pointer.
pub const ITEM_ID_SIZE: usize = 4;

/// A line pointer: one entry of a page's slot directory.
#[derive(Clone, Copy, Debug, PartialEq, Eq, Structural)]
pub struct ItemIdData {
    /// Byte offset of the row within the page (15 bits).
    pub lp_off: u16,
    /// Status of the slot (2 bits).
    pub lp_flags: LPFlags,
    /// Length of the row in bytes, its header included (15 bits).
    pub lp_len: u16,
}

/// The line pointer packed in one 32-bit word: bits 0 to 14 are the offset,
/// bits 15 and 16 the status, bits 17 to 31 the length.
pub open spec fn spec_item_id(word: u32) -> ItemIdData {
    ItemIdData {
        lp_off: (word % 0x8000) as u16,
        lp_flags: LPFlags { bits: ((word / 0x8000) % 4) as u8 },
        lp_len: (word / 0x2_0000) as u16,
    }
}

/// The first `count` line pointers of a directory that starts at the
/// beginning of `b`, in directory order.
pub open spec fn spec_item_identifiers(b: Seq<u8>, count: int, e: Endianness) -> Seq<ItemIdData> {
    Seq::new(count as nat, |i: int| spec_item_id(spec_u32_at(b, ITEM_ID_SIZE * i, e)))
}

/// What reading the directory of a page with this header gives, from bytes
/// `b` that start right after the header: a header whose lower bound lies
/// inside the header itself has no directory, and a directory that `b` cannot
/// hold is a short read.
pub open spec fn spec_read_item_identifiers(
    b: Seq<u8>,
    header: PageHeaderData,
    e: Endianness,
) -> Result<
    Seq<ItemIdData>,
    DecodeError,
> {
    if header.pd_lower.0 < PAGE_HEADER_SIZE {
        Err(DecodeError::StructuralInvariantViolation)
    } else if b.len() < ITEM_ID_SIZE * header.spec_line_pointer_count() {
        Err(DecodeError::ShortRead)
    } else {
        Ok(spec_item_identifiers(b, header.spec_line_pointer_count(), e))
    }
}

impl ItemIdData {
    /// Unpacks a line pointer from its 32-bit word. The word is taken as one
    /// unit: the status bits lie across its two halves.
    pub fn from_word(word: u32) -> (item: ItemIdData)
        ensures
            item == spec_item_id(word),
            item.lp_off < 0x8000,
            item.lp_len < 0x8000,
            item.lp_flags.known_bits_only(),
    {
        assert(word & 0x7FFFu32 == word % 0x8000u32) by (bit_vector);
        assert((word >> 15u32) & 0x03u32 == (word / 0x8000u32) % 4u32) by (bit_vector);
        assert(word >> 17u32 == word / 0x2_0000u32) by (bit_vector);
        assert(word / 0x2_0000u32 < 0x8000u32) by (bit_vector);
        let status = ((word >> 15) & 0x03) as u8;
        assert(status & 0x03u8 == status) by (bit_vector)
            requires
                status <= 3u8,
        ;
        ItemIdData {
            lp_off: (word & 0x7FFF) as u16,
            lp_flags: LPFlags::from_bits_truncate(status),
            lp_len: (word >> 17) as u16,
        }
    }

    /// Decodes the line pointer at the reader's position.
    pub fn from_reader(reader: &mut ByteReader, endianness: Endianness) -> (result: Result<
        ItemIdData,
        DecodeError,
    >)
        ensures
            read_outcome(*old(reader), *final(reader), result, ITEM_ID_SIZE as int),
            result matches Ok(item) ==> item == spec_item_id(
                spec_u32_at(old(reader).remaining(), 0, endianness),
            ),
    {
        match read_u32(reader, endianness) {
            Ok(word) => Ok(ItemIdData::from_word(word)),
            Err(error) => Err(error),
        }
    }
}

/// Decodes the slot directory of a page from a reader that stands right
/// after the page header. The directory has `(pd_lower - 24) / 4` entries;
/// the entry at index `i` describes slot `i`. On an error the reader has not
/// moved.
pub fn read_item_identifiers(
    reader: &mut ByteReader,
    header: &PageHeaderData,
    endianness: Endianness,
) -> (result: Result<Vec<ItemIdData>, DecodeError>)
    ensures
        match result {
            Ok(items) => spec_read_item_identifiers(old(reader).remaining(), *header, endianness)
                == Ok::<Seq<ItemIdData>, DecodeError>(items@) && final(reader).remaining() == old(
                reader,
            ).remaining().skip(ITEM_ID_SIZE * header.spec_line_pointer_count()),
            Err(error) => spec_read_item_identifiers(old(reader).remaining(), *header, endianness)
                == Err::<Seq<ItemIdData>, DecodeError>(error) && *final(reader) == *old(reader),
        },
{
    let lower = header.pd_lower.0 as usize;
    if lower < PAGE_HEADER_SIZE {
        return Err(DecodeError::StructuralInvariantViolation);
    }
    let count = (lower - PAGE_HEADER_SIZE) / ITEM_ID_SIZE;
    if reader.remaining_len() < ITEM_ID_SIZE * count {
        return Err(DecodeError::ShortRead);
    }
    let bytes = reader.take(ITEM_ID_SIZE * count);
    let ghost all = old(reader).remaining();
    let mut items: Vec<ItemIdData> = Vec::new();
    let mut i: usize = 0;
    while i < count
        invariant
            i <= count,
            count <= 0x4000,
            bytes.len() == ITEM_ID_SIZE * count,
            bytes@ == all.subrange(0, ITEM_ID_SIZE * count),
            ITEM_ID_SIZE * count <= all.len(),
            items@ == spec_item_identifiers(all, i as int, endianness),
        decreases count - i,
    {
        let word = u32_at(bytes, ITEM_ID_SIZE * i, endianness);
        proof {
            assert(bytes@.subrange(ITEM_ID_SIZE * i, ITEM_ID_SIZE * i + 4) =~= all.subrange(
                ITEM_ID_SIZE * i,
                ITEM_ID_SIZE * i + 4,
            ));
        }
        items.push(ItemIdData::from_word(word));
        i = i + 1;
        assert(items@ =~= spec_item_identifiers(all, i as int, endianness));
    }
    Ok(items)
}

} // verus!
