use crate::endian::Endianness;
use crate::error::DecodeError;
use crate::header::{read_page_header, spec_page_header, PageHeaderData, PAGE_HEADER_SIZE};
use crate::item::{read_item_identifiers, spec_item_identifiers, ItemIdData, ITEM_ID_SIZE};
use crate::reader::{read_bytes, ByteReader};
use crate::tuple::{spec_heap_tuple, HeapTuple, HeapTupleHeaderData, HeapTupleView};
use vstd::prelude::*;
use vstd::slice::{slice_subrange, slice_to_vec};

verus! {

/// A variable-length value: its declared length and its bytes.
#[derive(Clone, Debug, PartialEq, Eq)]
pub struct Varlena {
    pub length: u32,
    pub data: Vec<u8>,
}

/// What the special section of a tree index page holds: the neighbours of
/// the page on its level, and whatever else the access method keeps there.
#[derive(Clone, Debug, PartialEq, Eq)]
pub struct BTreeIndex {
    pub left_sibling: Option<u32>,
    pub right_sibling: Option<u32>,
    pub other_data: Vec<u8>,
}

/// The trailing region of a page, as stored. Its layout belongs to the
/// access method that owns the page.
#[derive(Clone, Debug, PartialEq, Eq)]
pub struct SpecialSection {
    pub data: Vec<u8>,
}

/// A row of a table with its parts told apart.
#[derive(Clone, Debug, PartialEq, Eq)]
pub struct TableRow {
    pub header: HeapTupleHeaderData,
    pub null_bitmap: Option<Vec<u8>>,
    pub oid: Option<u32>,
    pub user_data: Vec<u8>,
}

/// A decoded page.
#[derive(Clone, Debug, PartialEq, Eq)]
pub struct PageLayout {
    pub header: PageHeaderData,
    /// The slot directory, in directory order: the index is the slot.
    pub item_identifiers: Vec<ItemIdData>,
    /// For each slot its row, where the slot's status is normal.
    pub items: Vec<Option<HeapTuple>>,
    /// The bytes from `pd_special` to the end of the page; `None` where
    /// there are none.
    pub special_space: Option<SpecialSection>,
}

/// A page as a mathematical value.
pub struct PageLayoutView {
    pub header: PageHeaderData,
    pub item_identifiers: Seq<ItemIdData>,
    /// The decoded row of each slot whose status is normal, by slot.
    pub rows: Map<int, HeapTupleView>,
    pub special_space: Option<Seq<u8>>,
}

/// A slot's row as a mathematical value, if the slot has one.
pub open spec fn slot_view(slot: Option<HeapTuple>) -> Option<HeapTupleView> {
    match slot {
        Some(tuple) => Some(tuple@),
        None => None,
    }
}

impl View for PageLayout {
    type V = PageLayoutView;

    open spec fn view(&self) -> PageLayoutView {
        PageLayoutView {
            header: self.header,
            item_identifiers: self.item_identifiers@,
            rows: Map::new(
                |slot: int| 0 <= slot < self.items@.len() && self.items@[slot] is Some,
                |slot: int| self.items@[slot]->Some_0@,
            ),
            special_space: match self.special_space {
                Some(section) => Some(section.data@),
                None => None,
            },
        }
    }
}

/// Offset within the page at which the bytes of slot `slot` start. The bytes
/// of the slots follow the directory one after another, in directory order,
/// each as long as its line pointer says.
pub open spec fn spec_slot_start(items: Seq<ItemIdData>, slot: int) -> int
    decreases slot,
{
    if slot <= 0 {
        PAGE_HEADER_SIZE + ITEM_ID_SIZE * items.len()
    } else {
        spec_slot_start(items, slot - 1) + items[slot - 1].lp_len
    }
}

/// What slot `slot` of the page in `block` contributes: the decoded row where
/// its status is normal, nothing where it is not (its bytes are passed
/// over), or the error that stops the page.
pub open spec fn spec_slot(
    block: Seq<u8>,
    items: Seq<ItemIdData>,
    slot: int,
    e: Endianness,
) -> Result<
    Option<HeapTupleView>,
    DecodeError,
> {
    let rest = block.skip(spec_slot_start(items, slot));
    let length = items[slot].lp_len as int;
    if items[slot].lp_flags.spec_is_normal() {
        match spec_heap_tuple(rest, length, e) {
            Ok(tuple) => Ok(Some(tuple)),
            Err(error) => Err(error),
        }
    } else if rest.len() < length {
        Err(DecodeError::ShortRead)
    } else {
        Ok(None)
    }
}

/// The error of the first of the slots `0 .. count` that has one.
pub open spec fn spec_slots_error(
    block: Seq<u8>,
    items: Seq<ItemIdData>,
    count: int,
    e: Endianness,
) -> Option<DecodeError>
    decreases count,
{
    if count <= 0 {
        None
    } else {
        match spec_slots_error(block, items, count - 1, e) {
            Some(error) => Some(error),
            None => match spec_slot(block, items, count - 1, e) {
                Ok(_) => None,
                Err(error) => Some(error),
            },
        }
    }
}

/// The page that the block `block` holds, or the reason why it holds none.
///
/// The header comes first and must be whole. Its offsets must be in order
/// and inside the block. The directory follows the header, the slots follow
/// the directory, and the first slot that fails stops the page with its
/// error. The special section is what lies from `pd_special` to the end of
/// the block.
#[verifier::opaque]
pub open spec fn spec_page(block: Seq<u8>, e: Endianness) -> Result<PageLayoutView, DecodeError> {
    let header = spec_page_header(block, e);
    let items = spec_item_identifiers(
        block.skip(PAGE_HEADER_SIZE as int),
        header.spec_line_pointer_count(),
        e,
    );
    if block.len() < PAGE_HEADER_SIZE {
        Err(DecodeError::ShortRead)
    } else if !header.spec_layout_ok(block.len() as int) {
        Err(DecodeError::StructuralInvariantViolation)
    } else {
        match spec_slots_error(block, items, items.len() as int, e) {
            Some(error) => Err(error),
            None => Ok(
                PageLayoutView {
                    header,
                    item_identifiers: items,
                    rows: Map::new(
                        |slot: int|
                            0 <= slot < items.len() && items[slot].lp_flags.spec_is_normal(),
                        |slot: int| spec_slot(block, items, slot, e)->Ok_0->Some_0,
                    ),
                    special_space: if header.pd_special.0 < block.len() {
                        Some(block.subrange(header.pd_special.0 as int, block.len() as int))
                    } else {
                        None
                    },
                },
            ),
        }
    }
}

/// Once a slot has failed, looking at more slots does not change the error.
pub proof fn lemma_slots_error_stays(
    block: Seq<u8>,
    items: Seq<ItemIdData>,
    first: int,
    count: int,
    e: Endianness,
)
    requires
        0 <= first <= count,
        spec_slots_error(block, items, first, e) is Some,
    ensures
        spec_slots_error(block, items, count, e) == spec_slots_error(block, items, first, e),
    decreases count - first,
{
    if first < count {
        lemma_slots_error_stays(block, items, first, count - 1, e);
    }
}

/// Every page that decodes has its offsets in order and inside the block,
/// `24 <= pd_lower <= pd_upper <= pd_special <= block.len()`, and a block
/// with a whole header whose offsets are not so is a structural violation.
pub proof fn lemma_page_offsets_in_order(block: Seq<u8>, e: Endianness)
    ensures
        spec_page(block, e) matches Ok(page) ==> page.header.spec_layout_ok(block.len() as int),
        block.len() >= PAGE_HEADER_SIZE && !spec_page_header(block, e).spec_layout_ok(
            block.len() as int,
        ) ==> spec_page(block, e) == Err::<PageLayoutView, DecodeError>(
            DecodeError::StructuralInvariantViolation,
        ),
{
    reveal(spec_page);
}

/// Every page that decodes has exactly `(pd_lower - 24) / 4` line pointers,
/// and rows for slots of that directory only: for those whose status is
/// normal.
pub proof fn lemma_page_line_pointer_count(block: Seq<u8>, e: Endianness)
    ensures
        spec_page(block, e) matches Ok(page) ==> {
            &&& page.item_identifiers.len() == (page.header.pd_lower.0 - PAGE_HEADER_SIZE) / 4
            &&& forall|slot: int|
                page.rows.dom().contains(slot) <==> 0 <= slot < page.item_identifiers.len()
                    && page.item_identifiers[slot].lp_flags.spec_is_normal()
        },
{
    reveal(spec_page);
}

/// A page whose `pd_lower` is 24 has no line pointers and no rows.
pub proof fn lemma_page_without_line_pointers(block: Seq<u8>, e: Endianness)
    requires
        spec_page_header(block, e).pd_lower.0 == PAGE_HEADER_SIZE,
    ensures
        spec_page(block, e) matches Ok(page) ==> page.item_identifiers.len() == 0
            && page.rows.dom() == Set::<int>::empty(),
{
    reveal(spec_page);
    if let Ok(page) = spec_page(block, e) {
        assert(page.rows.dom() =~= Set::<int>::empty());
    }
}

/// Number of rows among the first `upto` slots.
pub open spec fn spec_row_count(items: Seq<Option<HeapTuple>>, upto: int) -> nat
    decreases upto,
{
    if upto <= 0 {
        0
    } else {
        spec_row_count(items, upto - 1) + if items[upto - 1] is Some {
            1nat
        } else {
            0nat
        }
    }
}

impl SpecialSection {
    /// Hands the bytes of the section to a decoder that knows the layout of
    /// the access method that owns the page, and returns what it makes of
    /// them.
    pub fn decode_with<T, F: Fn(&Vec<u8>) -> T>(&self, decoder: F) -> (decoded: T)
        requires
            call_requires(decoder, (&self.data,)),
        ensures
            call_ensures(decoder, (&self.data,), decoded),
    {
        decoder(&self.data)
    }
}

/// Decodes the slots of the page in `block`, whose directory is
/// `item_identifiers`, one after another from the end of the directory.
fn decode_slots(
    block: &[u8],
    item_identifiers: &Vec<ItemIdData>,
    endianness: Endianness,
) -> (result: Result<Vec<Option<HeapTuple>>, DecodeError>)
    requires
        PAGE_HEADER_SIZE + ITEM_ID_SIZE * item_identifiers@.len() <= block.len(),
    ensures
        match result {
            Ok(items) => {
                &&& spec_slots_error(
                    block@,
                    item_identifiers@,
                    item_identifiers@.len() as int,
                    endianness,
                ) is None
                &&& items@.len() == item_identifiers@.len()
                &&& forall|j: int|
                    0 <= j < items@.len() ==> #[trigger] spec_slot(
                        block@,
                        item_identifiers@,
                        j,
                        endianness,
                    ) == Ok::<Option<HeapTupleView>, DecodeError>(slot_view(items@[j]))
            },
            Err(error) => spec_slots_error(
                block@,
                item_identifiers@,
                item_identifiers@.len() as int,
                endianness,
            ) == Some(error),
        },
{
    let count = item_identifiers.len();
    let first = PAGE_HEADER_SIZE + ITEM_ID_SIZE * count;
    let mut cursor = ByteReader::new(slice_subrange(block, first, block.len()));
    let mut items: Vec<Option<HeapTuple>> = Vec::new();
    let mut slot: usize = 0;
    while slot < count
        invariant
            slot <= count,
            count == item_identifiers@.len(),
            items@.len() == slot,
            0 <= spec_slot_start(item_identifiers@, slot as int) <= block@.len(),
            cursor.remaining() == block@.skip(spec_slot_start(item_identifiers@, slot as int)),
            spec_slots_error(block@, item_identifiers@, slot as int, endianness) is None,
            forall|j: int|
                0 <= j < slot ==> #[trigger] spec_slot(block@, item_identifiers@, j, endianness)
                    == Ok::<Option<HeapTupleView>, DecodeError>(slot_view(items@[j])),
        decreases count - slot,
    {
        let item = item_identifiers[slot];
        let ghost start = spec_slot_start(item_identifiers@, slot as int);
        assert(cursor.remaining().len() == block@.len() - start);
        let outcome = if item.lp_flags.is_normal() {
            match HeapTuple::from_reader(&mut cursor, item.lp_len as u32, endianness) {
                Ok(tuple) => Ok(Some(tuple)),
                Err(error) => Err(error),
            }
        } else {
            match read_bytes(&mut cursor, item.lp_len as usize) {
                Ok(_) => Ok(None),
                Err(error) => Err(error),
            }
        };
        assert(match outcome {
            Ok(row) => spec_slot(block@, item_identifiers@, slot as int, endianness) == Ok::<
                Option<HeapTupleView>,
                DecodeError,
            >(slot_view(row)),
            Err(error) => spec_slot(block@, item_identifiers@, slot as int, endianness) == Err::<
                Option<HeapTupleView>,
                DecodeError,
            >(error),
        });
        match outcome {
            Ok(row) => {
                proof {
                    assert(block@.skip(start).skip(item.lp_len as int) =~= block@.skip(
                        start + item.lp_len,
                    ));
                }
                items.push(row);
            },
            Err(error) => {
                proof {
                    lemma_slots_error_stays(
                        block@,
                        item_identifiers@,
                        slot as int + 1,
                        count as int,
                        endianness,
                    );
                }
                return Err(error);
            },
        }
        slot = slot + 1;
    }
    Ok(items)
}

impl PageLayout {
    /// Every slot of the directory has its place in `items`, and `items` has
    /// no more places than that. With this the view says all there is to
    /// say of `items`: where a place holds a row, and which.
    pub open spec fn slots_complete(&self) -> bool {
        self.items@.len() == self.item_identifiers@.len()
    }

    /// The row of slot `slot`, where the page has one.
    pub fn row(&self, slot: usize) -> (row: Option<&HeapTuple>)
        ensures
            match row {
                Some(tuple) => self@.rows.dom().contains(slot as int) && self@.rows[slot as int]
                    == tuple@,
                None => !self@.rows.dom().contains(slot as int),
            },
    {
        if slot < self.items.len() {
            self.items[slot].as_ref()
        } else {
            None
        }
    }

    /// Number of rows on the page.
    pub fn row_count(&self) -> (count: usize)
        ensures
            count == spec_row_count(self.items@, self.items@.len() as int),
    {
        let mut count: usize = 0;
        let mut slot: usize = 0;
        while slot < self.items.len()
            invariant
                slot <= self.items@.len(),
                count <= slot,
                count == spec_row_count(self.items@, slot as int),
            decreases self.items@.len() - slot,
        {
            if self.items[slot].is_some() {
                count = count + 1;
            }
            slot = slot + 1;
        }
        count
    }

    /// The free space of the page: the bytes from `pd_lower` up to, not
    /// including, `pd_upper`.
    pub fn free_space(&self) -> (range: (usize, usize))
        ensures
            range.0 == self.header.pd_lower.0,
            range.1 == self.header.pd_upper.0,
    {
        (self.header.pd_lower.0 as usize, self.header.pd_upper.0 as usize)
    }

    /// Decodes one page from the bytes that the reader has left, which are
    /// taken to be exactly one block. On success the reader has consumed the
    /// block; on an error it has not moved.
    pub fn from_reader(reader: &mut ByteReader, endianness: Endianness) -> (result: Result<
        PageLayout,
        DecodeError,
    >)
        ensures
            match result {
                Ok(page) => spec_page(old(reader).remaining(), endianness) == Ok::<
                    PageLayoutView,
                    DecodeError,
                >(page@) && final(reader).remaining().len() == 0,
                Err(error) => spec_page(old(reader).remaining(), endianness) == Err::<
                    PageLayoutView,
                    DecodeError,
                >(error) && *final(reader) == *old(reader),
            },
            result matches Ok(page) ==> page.header.spec_layout_ok(
                old(reader).remaining().len() as int,
            ) && page.item_identifiers@.len() == page.header.spec_line_pointer_count()
                && page.slots_complete(),
    {
        proof {
            reveal(spec_page);
        }
        let block = reader.rest();
        let page_size = block.len();
        let mut cursor = ByteReader::new(block);
        let header = match read_page_header(&mut cursor, endianness) {
            Ok(header) => header,
            Err(error) => {
                return Err(error);
            },
        };
        if !header.layout_ok(page_size) {
            return Err(DecodeError::StructuralInvariantViolation);
        }
        let item_identifiers = match read_item_identifiers(&mut cursor, &header, endianness) {
            Ok(item_identifiers) => item_identifiers,
            Err(error) => {
                return Err(error);
            },
        };
        let items = match decode_slots(block, &item_identifiers, endianness) {
            Ok(items) => items,
            Err(error) => {
                return Err(error);
            },
        };
        let special = header.pd_special.0 as usize;
        let special_space = if special < page_size {
            Some(SpecialSection { data: slice_to_vec(slice_subrange(block, special, page_size)) })
        } else {
            None
        };
        let _ = reader.take(page_size);
        let page = PageLayout { header, item_identifiers, items, special_space };
        proof {
            let ids = spec_item_identifiers(
                block@.skip(PAGE_HEADER_SIZE as int),
                header.spec_line_pointer_count(),
                endianness,
            );
            assert(page.item_identifiers@ == ids);
            let expected = spec_page(block@, endianness)->Ok_0;
            assert forall|slot: int| 0 <= slot < ids.len() implies (page.items@[slot] is Some
                <==> ids[slot].lp_flags.spec_is_normal()) && (page.items@[slot] is Some
                ==> page.items@[slot]->Some_0@ == spec_slot(
                block@,
                ids,
                slot,
                endianness,
            )->Ok_0->Some_0) by {
                assert(spec_slot(block@, ids, slot, endianness) == Ok::<
                    Option<HeapTupleView>,
                    DecodeError,
                >(slot_view(page.items@[slot])));
            }
            assert(page@.rows =~= expected.rows);
        }
        Ok(page)
    }
}

} // verus!
