use crate::endian::{
    lemma_u16_round_trip, lemma_u32_round_trip, lemma_u64_round_trip, push_u16, push_u32,
    push_u64, spec_bytes_u16, spec_bytes_u32, spec_bytes_u64, spec_u16_at, spec_u32_at,
    spec_u64_at, u16_at, u32_at, u64_at, Endianness,
};
use crate::error::DecodeError;
use crate::flags::PageFlags;
use crate::ids::{LocationIndex, PageXLogRecPtr, TransactionId};
use crate::reader::{read_outcome, ByteReader};
use vstd::prelude::*;

verus! {

/// Size in bytes of the header at the start of every page.
pub const PAGE_HEADER_SIZE: usize = 24;

/// The header at the start of every page.
#[derive(Clone, Copy, Debug, PartialEq, Eq, Structural)]
pub struct PageHeaderData {
    /// Position in the write-ahead log of the last change to the page.
    pub pd_lsn: PageXLogRecPtr,
    /// Checksum of the page, if checksums are in use.
    pub pd_checksum: u16,
    /// Status flags of the page.
    pub pd_flags: PageFlags,
    /// Offset of the start of the free space: the end of the line pointers.
    pub pd_lower: LocationIndex,
    /// Offset of the end of the free space.
    pub pd_upper: LocationIndex,
    /// Offset of the special section at the end of the page.
    pub pd_special: LocationIndex,
    /// Page size and layout version, packed in one word.
    pub pd_pagesize_version: u16,
    /// Oldest transaction whose changes are not pruned from the page yet.
    pub pd_prune_xid: TransactionId,
}

/// The header that the first 24 bytes of `b` encode: eight fields at fixed
/// offsets, each in the byte order `e`.
pub open spec fn spec_page_header(b: Seq<u8>, e: Endianness) -> PageHeaderData {
    PageHeaderData {
        pd_lsn: PageXLogRecPtr(spec_u64_at(b, 0, e)),
        pd_checksum: spec_u16_at(b, 8, e),
        pd_flags: PageFlags::spec_from_bits_truncate(spec_u16_at(b, 10, e)),
        pd_lower: LocationIndex(spec_u16_at(b, 12, e)),
        pd_upper: LocationIndex(spec_u16_at(b, 14, e)),
        pd_special: LocationIndex(spec_u16_at(b, 16, e)),
        pd_pagesize_version: spec_u16_at(b, 18, e),
        pd_prune_xid: TransactionId(spec_u32_at(b, 20, e)),
    }
}

/// The 24 bytes that hold `header` in the byte order `e`: its eight fields
/// one after another.
pub open spec fn spec_page_header_bytes(header: PageHeaderData, e: Endianness) -> Seq<u8> {
    spec_bytes_u64(header.pd_lsn.0, e) + spec_bytes_u16(header.pd_checksum, e) + spec_bytes_u16(
        header.pd_flags.bits,
        e,
    ) + spec_bytes_u16(header.pd_lower.0, e) + spec_bytes_u16(header.pd_upper.0, e)
        + spec_bytes_u16(header.pd_special.0, e) + spec_bytes_u16(header.pd_pagesize_version, e)
        + spec_bytes_u32(header.pd_prune_xid.0, e)
}

impl PageHeaderData {
    /// The 24 bytes that hold the header in the given byte order.
    pub fn to_bytes(&self, endianness: Endianness) -> (bytes: Vec<u8>)
        ensures
            bytes@ == spec_page_header_bytes(*self, endianness),
            bytes@.len() == PAGE_HEADER_SIZE,
    {
        let mut bytes: Vec<u8> = Vec::new();
        push_u64(&mut bytes, self.pd_lsn.0, endianness);
        push_u16(&mut bytes, self.pd_checksum, endianness);
        push_u16(&mut bytes, self.pd_flags.bits, endianness);
        push_u16(&mut bytes, self.pd_lower.0, endianness);
        push_u16(&mut bytes, self.pd_upper.0, endianness);
        push_u16(&mut bytes, self.pd_special.0, endianness);
        push_u16(&mut bytes, self.pd_pagesize_version, endianness);
        push_u32(&mut bytes, self.pd_prune_xid.0, endianness);
        proof {
            lemma_page_header_bytes_len(*self, endianness);
            assert(bytes@ =~= spec_page_header_bytes(*self, endianness));
        }
        bytes
    }

    /// The offsets are in order and inside a page of `page_size` bytes:
    /// header, line pointers, free space, rows, special section.
    pub open spec fn spec_layout_ok(&self, page_size: int) -> bool {
        PAGE_HEADER_SIZE <= self.pd_lower.0 <= self.pd_upper.0 <= self.pd_special.0 <= page_size
    }

    /// Number of line pointers that fit between the header and `pd_lower`.
    pub open spec fn spec_line_pointer_count(&self) -> int {
        (self.pd_lower.0 - PAGE_HEADER_SIZE) / 4
    }

    /// Whether the offsets are in order and inside a page of `page_size`
    /// bytes.
    pub fn layout_ok(&self, page_size: usize) -> (ok: bool)
        ensures
            ok == self.spec_layout_ok(page_size as int),
    {
        PAGE_HEADER_SIZE <= self.pd_lower.0 as usize && self.pd_lower.0 <= self.pd_upper.0
            && self.pd_upper.0 <= self.pd_special.0 && self.pd_special.0 as usize <= page_size
    }
}

/// Decodes the 24-byte page header at the reader's position. The fields are
/// taken as they are: their order is checked when a whole page is decoded.
pub fn read_page_header(reader: &mut ByteReader, endianness: Endianness) -> (result: Result<
    PageHeaderData,
    DecodeError,
>)
    ensures
        read_outcome(*old(reader), *final(reader), result, PAGE_HEADER_SIZE as int),
        result matches Ok(header) ==> header == spec_page_header(
            old(reader).remaining(),
            endianness,
        ),
{
    if reader.remaining_len() < PAGE_HEADER_SIZE {
        return Err(DecodeError::ShortRead);
    }
    let bytes = reader.rest();
    let header = PageHeaderData {
        pd_lsn: PageXLogRecPtr(u64_at(bytes, 0, endianness)),
        pd_checksum: u16_at(bytes, 8, endianness),
        pd_flags: PageFlags::from_bits_truncate(u16_at(bytes, 10, endianness)),
        pd_lower: LocationIndex(u16_at(bytes, 12, endianness)),
        pd_upper: LocationIndex(u16_at(bytes, 14, endianness)),
        pd_special: LocationIndex(u16_at(bytes, 16, endianness)),
        pd_pagesize_version: u16_at(bytes, 18, endianness),
        pd_prune_xid: TransactionId(u32_at(bytes, 20, endianness)),
    };
    let _ = reader.take(PAGE_HEADER_SIZE);
    Ok(header)
}

/// A header takes 24 bytes in either byte order.
pub proof fn lemma_page_header_bytes_len(header: PageHeaderData, e: Endianness)
    ensures
        spec_page_header_bytes(header, e).len() == PAGE_HEADER_SIZE,
{
    lemma_u64_round_trip(header.pd_lsn.0, e);
    lemma_u16_round_trip(header.pd_checksum, e);
    lemma_u16_round_trip(header.pd_flags.bits, e);
    lemma_u16_round_trip(header.pd_lower.0, e);
    lemma_u16_round_trip(header.pd_upper.0, e);
    lemma_u16_round_trip(header.pd_special.0, e);
    lemma_u16_round_trip(header.pd_pagesize_version, e);
    lemma_u32_round_trip(header.pd_prune_xid.0, e);
}

/// Where the fields of a header lie in the bytes that eight fields of the
/// header's widths make, one after another, whatever follows them.
proof fn lemma_header_fields_apart(
    f0: Seq<u8>,
    f1: Seq<u8>,
    f2: Seq<u8>,
    f3: Seq<u8>,
    f4: Seq<u8>,
    f5: Seq<u8>,
    f6: Seq<u8>,
    f7: Seq<u8>,
    tail: Seq<u8>,
)
    requires
        f0.len() == 8,
        f1.len() == 2,
        f2.len() == 2,
        f3.len() == 2,
        f4.len() == 2,
        f5.len() == 2,
        f6.len() == 2,
        f7.len() == 4,
    ensures
        ({
            let all = f0 + f1 + f2 + f3 + f4 + f5 + f6 + f7 + tail;
            &&& all.subrange(0, 8) == f0
            &&& all.subrange(8, 10) == f1
            &&& all.subrange(10, 12) == f2
            &&& all.subrange(12, 14) == f3
            &&& all.subrange(14, 16) == f4
            &&& all.subrange(16, 18) == f5
            &&& all.subrange(18, 20) == f6
            &&& all.subrange(20, 24) == f7
        }),
{
    let all = f0 + f1 + f2 + f3 + f4 + f5 + f6 + f7 + tail;
    assert(all.subrange(0, 8) =~= f0);
    assert(all.subrange(8, 10) =~= f1);
    assert(all.subrange(10, 12) =~= f2);
    assert(all.subrange(12, 14) =~= f3);
    assert(all.subrange(14, 16) =~= f4);
    assert(all.subrange(16, 18) =~= f5);
    assert(all.subrange(18, 20) =~= f6);
    assert(all.subrange(20, 24) =~= f7);
}

/// Round trip: a header whose flags hold no unknown bit, written to bytes in
/// a byte order and decoded from them in the same order, comes back field
/// for field, flags included. Bytes that follow the header change nothing.
pub proof fn lemma_page_header_round_trip(header: PageHeaderData, e: Endianness, tail: Seq<u8>)
    requires
        header.pd_flags.known_bits_only(),
    ensures
        spec_page_header(spec_page_header_bytes(header, e) + tail, e) == header,
{
    lemma_u64_round_trip(header.pd_lsn.0, e);
    lemma_u16_round_trip(header.pd_checksum, e);
    lemma_u16_round_trip(header.pd_flags.bits, e);
    lemma_u16_round_trip(header.pd_lower.0, e);
    lemma_u16_round_trip(header.pd_upper.0, e);
    lemma_u16_round_trip(header.pd_special.0, e);
    lemma_u16_round_trip(header.pd_pagesize_version, e);
    lemma_u32_round_trip(header.pd_prune_xid.0, e);
    lemma_header_fields_apart(
        spec_bytes_u64(header.pd_lsn.0, e),
        spec_bytes_u16(header.pd_checksum, e),
        spec_bytes_u16(header.pd_flags.bits, e),
        spec_bytes_u16(header.pd_lower.0, e),
        spec_bytes_u16(header.pd_upper.0, e),
        spec_bytes_u16(header.pd_special.0, e),
        spec_bytes_u16(header.pd_pagesize_version, e),
        spec_bytes_u32(header.pd_prune_xid.0, e),
        tail,
    );
}

} // verus!
