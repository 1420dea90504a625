use pg_peek::{
    BTreeIndex, ByteReader, DecodeError, Endianness, ItemIdData, LPFlags, LocationIndex,
    PageFlags, PageHeaderData, PageLayout, PageXLogRecPtr, SpecialSection, TransactionId,
};

const PAGE_SIZE: usize = 8192;

fn header(lower: u16, upper: u16, special: u16) -> PageHeaderData {
    PageHeaderData {
        pd_lsn: PageXLogRecPtr(0x1_0000_0001),
        pd_checksum: 0,
        pd_flags: PageFlags::from_bits_truncate(0x0004),
        pd_lower: LocationIndex(lower),
        pd_upper: LocationIndex(upper),
        pd_special: LocationIndex(special),
        pd_pagesize_version: 0x2004,
        pd_prune_xid: TransactionId(0),
    }
}

fn word(off: u16, status: u8, len: u16) -> u32 {
    (off as u32) | ((status as u32) << 15) | ((len as u32) << 17)
}

fn item(off: u16, status: u8, len: u16) -> ItemIdData {
    ItemIdData { lp_off: off, lp_flags: LPFlags::from_bits_truncate(status), lp_len: len }
}

/// A row of `total` bytes: xmin, then zeros, the two flag words, the data
/// offset, and behind the fixed header the counting bytes 23, 24, ...
fn row_bytes(xmin: u32, infomask2: u16, infomask: u16, hoff: u8, total: usize) -> Vec<u8> {
    let mut bytes = Vec::new();
    bytes.extend_from_slice(&xmin.to_le_bytes());
    bytes.extend_from_slice(&[0u8; 14]);
    bytes.extend_from_slice(&infomask2.to_le_bytes());
    bytes.extend_from_slice(&infomask.to_le_bytes());
    bytes.push(hoff);
    while bytes.len() < total {
        bytes.push(bytes.len() as u8);
    }
    bytes
}

/// A block of `size` bytes: the header, the directory, then `body`, and
/// zeros up to the end.
fn block(header: &PageHeaderData, words: &[u32], body: &[u8], size: usize) -> Vec<u8> {
    let mut bytes = header.to_bytes(Endianness::LittleEndian);
    for word in words {
        bytes.extend_from_slice(&word.to_le_bytes());
    }
    bytes.extend_from_slice(body);
    assert!(bytes.len() <= size);
    bytes.resize(size, 0);
    bytes
}

fn decode(bytes: &[u8]) -> Result<PageLayout, DecodeError> {
    let mut reader = ByteReader::new(bytes);
    let result = PageLayout::from_reader(&mut reader, Endianness::LittleEndian);
    if result.is_ok() {
        assert_eq!(reader.remaining_len(), 0);
    } else {
        assert_eq!(reader.remaining_len(), bytes.len());
    }
    result
}

#[test]
fn page_with_one_unused_line_pointer() {
    let head = header(28, 8192, 8192);
    let bytes = block(&head, &[word(0, 0, 0)], &[], PAGE_SIZE);
    let page = decode(&bytes).unwrap();
    assert_eq!(page.header, head);
    assert_eq!(page.item_identifiers, vec![item(0, 0, 0)]);
    assert_eq!(page.item_identifiers.len(), 1);
    assert_eq!(page.row_count(), 0);
    assert_eq!(page.items, vec![None]);
    assert!(page.row(0).is_none());
    assert_eq!(page.special_space, None);
}

#[test]
fn page_without_line_pointers_has_no_rows() {
    let head = header(24, 8192, 8192);
    let bytes = block(&head, &[], &[], PAGE_SIZE);
    let page = decode(&bytes).unwrap();
    assert!(page.item_identifiers.is_empty());
    assert!(page.items.is_empty());
    assert_eq!(page.row_count(), 0);
    assert!(page.row(0).is_none());
}

#[test]
fn page_with_lower_between_two_line_pointers_rounds_the_count_down() {
    let head = header(27, 8192, 8192);
    let bytes = block(&head, &[], &[], PAGE_SIZE);
    let page = decode(&bytes).unwrap();
    assert_eq!(page.item_identifiers.len(), 0);
    let head = header(35, 8192, 8192);
    let bytes = block(&head, &[0, 0], &[], PAGE_SIZE);
    let page = decode(&bytes).unwrap();
    assert_eq!(page.item_identifiers.len(), 2);
}

#[test]
fn page_with_rows_and_a_dead_slot_between_them() {
    let head = header(36, 8000, 8184);
    let first = row_bytes(7, 3, 0, 24, 30);
    let second = row_bytes(9, 9, 0x0001, 32, 40);
    let mut body = first.clone();
    body.extend_from_slice(&[0xDD; 5]);
    body.extend_from_slice(&second);
    let words = [word(8100, 1, 30), word(0, 3, 5), word(8060, 1, 40)];
    let mut bytes = block(&head, &words, &body, PAGE_SIZE);
    for (i, byte) in bytes[8184..].iter_mut().enumerate() {
        *byte = 0xA0 + i as u8;
    }
    let page = decode(&bytes).unwrap();
    assert_eq!(page.header, head);
    assert_eq!(page.item_identifiers, vec![item(8100, 1, 30), item(0, 3, 5), item(8060, 1, 40)]);
    assert_eq!(page.items.len(), 3);
    assert_eq!(page.row_count(), 2);

    let row = page.row(0).unwrap();
    assert_eq!(row.header.t_xmin, TransactionId(7));
    assert_eq!(row.header.t_hoff, 24);
    assert_eq!(row.null_bitmap, None);
    assert_eq!(row.data, vec![24u8, 25, 26, 27, 28, 29]);

    assert!(page.row(1).is_none());

    let row = page.row(2).unwrap();
    assert_eq!(row.header.t_xmin, TransactionId(9));
    assert_eq!(row.null_bitmap, Some(vec![23u8, 24]));
    assert_eq!(row.data, vec![32u8, 33, 34, 35, 36, 37, 38, 39]);

    assert!(page.row(3).is_none());
    assert_eq!(
        page.special_space,
        Some(SpecialSection { data: vec![0xA0, 0xA1, 0xA2, 0xA3, 0xA4, 0xA5, 0xA6, 0xA7] })
    );
    assert_eq!(page.free_space(), (36, 8000));
}

#[test]
fn only_normal_slots_have_rows() {
    let head = header(40, 8192, 8192);
    let row = row_bytes(1, 0, 0, 24, 24);
    let mut body = Vec::new();
    body.extend_from_slice(&[0u8; 3]);
    body.extend_from_slice(&row);
    body.extend_from_slice(&[0u8; 4]);
    let words = [word(0, 0, 3), word(100, 1, 24), word(5, 2, 0), word(0, 3, 4)];
    let bytes = block(&head, &words, &body, PAGE_SIZE);
    let page = decode(&bytes).unwrap();
    assert_eq!(page.row_count(), 1);
    assert!(page.row(0).is_none());
    assert!(page.row(1).is_some());
    assert!(page.row(2).is_none());
    assert!(page.row(3).is_none());
}

#[test]
fn page_of_a_small_block() {
    let head = header(28, 52, 52);
    let row = row_bytes(3, 0, 0, 23, 24);
    let bytes = block(&head, &[word(28, 1, 24)], &row, 56);
    let page = decode(&bytes).unwrap();
    assert_eq!(page.row(0).unwrap().data, vec![23u8]);
    assert_eq!(page.special_space, Some(SpecialSection { data: vec![0, 0, 0, 0] }));
}

#[test]
fn page_in_big_endian() {
    let head = header(28, 8192, 8192);
    let mut bytes = head.to_bytes(Endianness::BigEndian);
    bytes.extend_from_slice(&word(2, 2, 0).to_be_bytes());
    bytes.resize(PAGE_SIZE, 0);
    let mut reader = ByteReader::new(&bytes);
    let page = PageLayout::from_reader(&mut reader, Endianness::BigEndian).unwrap();
    assert_eq!(page.header, head);
    assert_eq!(page.item_identifiers, vec![item(2, 2, 0)]);
}

#[test]
fn block_shorter_than_a_header_is_a_short_read() {
    assert_eq!(decode(&[0u8; 23]), Err(DecodeError::ShortRead));
    assert_eq!(decode(&[]), Err(DecodeError::ShortRead));
}

#[test]
fn lower_inside_the_header_is_a_structural_violation() {
    let bytes = block(&header(23, 8192, 8192), &[], &[], PAGE_SIZE);
    assert_eq!(decode(&bytes), Err(DecodeError::StructuralInvariantViolation));
    let bytes = block(&header(0, 0, 0), &[], &[], PAGE_SIZE);
    assert_eq!(decode(&bytes), Err(DecodeError::StructuralInvariantViolation));
}

#[test]
fn lower_above_upper_is_a_structural_violation() {
    let bytes = block(&header(101, 100, 8192), &[], &[], PAGE_SIZE);
    assert_eq!(decode(&bytes), Err(DecodeError::StructuralInvariantViolation));
}

#[test]
fn upper_above_special_is_a_structural_violation() {
    let bytes = block(&header(24, 8001, 8000), &[], &[], PAGE_SIZE);
    assert_eq!(decode(&bytes), Err(DecodeError::StructuralInvariantViolation));
}

#[test]
fn special_beyond_the_block_is_a_structural_violation() {
    let bytes = block(&header(24, 8192, 8193), &[], &[], PAGE_SIZE);
    assert_eq!(decode(&bytes), Err(DecodeError::StructuralInvariantViolation));
    let bytes = block(&header(24, 24, 8192), &[], &[], PAGE_SIZE);
    assert!(decode(&bytes).is_ok());
    let bytes = block(&header(24, 24, 24), &[], &[], 24);
    assert!(decode(&bytes).is_ok());
    let bytes = block(&header(24, 24, 25), &[], &[], 24);
    assert_eq!(decode(&bytes), Err(DecodeError::StructuralInvariantViolation));
}

#[test]
fn offsets_that_are_all_equal_are_in_order() {
    let bytes = block(&header(24, 24, 24), &[], &[], PAGE_SIZE);
    let page = decode(&bytes).unwrap();
    assert_eq!(page.free_space(), (24, 24));
    assert_eq!(page.special_space.map(|section| section.data.len()), Some(PAGE_SIZE - 24));
}

#[test]
fn row_that_runs_past_the_block_is_truncated() {
    let head = header(28, 8192, 8192);
    let row = row_bytes(1, 0, 0, 24, 100);
    let bytes = block(&head, &[word(0, 1, 9000)], &row, PAGE_SIZE);
    assert_eq!(decode(&bytes), Err(DecodeError::Truncated));
}

#[test]
fn slot_without_a_row_that_runs_past_the_block_is_a_short_read() {
    let head = header(28, 8192, 8192);
    let bytes = block(&head, &[word(0, 3, 9000)], &[], PAGE_SIZE);
    assert_eq!(decode(&bytes), Err(DecodeError::ShortRead));
    let bytes = block(&head, &[word(0, 3, 8164)], &[], PAGE_SIZE);
    assert!(decode(&bytes).is_ok());
    let bytes = block(&head, &[word(0, 3, 8165)], &[], PAGE_SIZE);
    assert_eq!(decode(&bytes), Err(DecodeError::ShortRead));
}

#[test]
fn row_with_a_data_offset_beyond_its_length_stops_the_page() {
    let head = header(28, 8192, 8192);
    let row = row_bytes(1, 0, 0, 40, 30);
    let bytes = block(&head, &[word(0, 1, 30)], &row, PAGE_SIZE);
    assert_eq!(decode(&bytes), Err(DecodeError::StructuralInvariantViolation));
}

#[test]
fn the_first_slot_that_fails_gives_the_error() {
    let head = header(32, 8192, 8192);
    let bad_row = row_bytes(1, 0, 0, 40, 30);
    let bytes = block(&head, &[word(0, 1, 30), word(0, 3, 9000)], &bad_row, PAGE_SIZE);
    assert_eq!(decode(&bytes), Err(DecodeError::StructuralInvariantViolation));
    let bytes = block(&head, &[word(0, 3, 9000), word(0, 1, 30)], &bad_row, PAGE_SIZE);
    assert_eq!(decode(&bytes), Err(DecodeError::ShortRead));
}

#[test]
fn special_section_goes_to_a_decoder_of_the_access_method() {
    let section = SpecialSection { data: vec![1, 0, 0, 0, 2, 0, 0, 0, 0xAB, 0xCD] };
    let tree = section.decode_with(|data: &Vec<u8>| BTreeIndex {
        left_sibling: Some(u32::from_le_bytes([data[0], data[1], data[2], data[3]])),
        right_sibling: Some(u32::from_le_bytes([data[4], data[5], data[6], data[7]])),
        other_data: data[8..].to_vec(),
    });
    assert_eq!(
        tree,
        BTreeIndex { left_sibling: Some(1), right_sibling: Some(2), other_data: vec![0xAB, 0xCD] }
    );
    assert_eq!(section.decode_with(|data: &Vec<u8>| data.len()), 10);
}
