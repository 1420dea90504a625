use pg_peek::{
    read_bytes, read_u16, read_u32, read_u64, read_u8, ByteReader, DecodeError, Endianness,
};

#[test]
fn read_u16_little_endian_takes_low_byte_first() {
    let bytes = [0x34u8, 0x12, 0xff];
    let mut reader = ByteReader::new(&bytes);
    assert_eq!(read_u16(&mut reader, Endianness::LittleEndian), Ok(0x1234));
    assert_eq!(reader.remaining_len(), 1);
}

#[test]
fn read_u16_big_endian_takes_high_byte_first() {
    let bytes = [0x34u8, 0x12];
    let mut reader = ByteReader::new(&bytes);
    assert_eq!(read_u16(&mut reader, Endianness::BigEndian), Ok(0x3412));
    assert_eq!(reader.remaining_len(), 0);
}

#[test]
fn read_u32_in_both_orders() {
    let bytes = [0x01u8, 0x02, 0x03, 0x04];
    let mut reader = ByteReader::new(&bytes);
    assert_eq!(read_u32(&mut reader, Endianness::LittleEndian), Ok(0x0403_0201));
    let mut reader = ByteReader::new(&bytes);
    assert_eq!(read_u32(&mut reader, Endianness::BigEndian), Ok(0x0102_0304));
}

#[test]
fn read_u64_in_both_orders() {
    let bytes = [0x01u8, 0x02, 0x03, 0x04, 0x05, 0x06, 0x07, 0x08];
    let mut reader = ByteReader::new(&bytes);
    assert_eq!(read_u64(&mut reader, Endianness::LittleEndian), Ok(0x0807_0605_0403_0201));
    let mut reader = ByteReader::new(&bytes);
    assert_eq!(read_u64(&mut reader, Endianness::BigEndian), Ok(0x0102_0304_0506_0708));
}

#[test]
fn short_read_leaves_the_reader_where_it_was() {
    let bytes = [0xaau8, 0xbb, 0xcc];
    let mut reader = ByteReader::new(&bytes);
    assert_eq!(read_u32(&mut reader, Endianness::LittleEndian), Err(DecodeError::ShortRead));
    assert_eq!(read_u64(&mut reader, Endianness::BigEndian), Err(DecodeError::ShortRead));
    assert_eq!(reader.remaining_len(), 3);
    assert_eq!(read_u8(&mut reader), Ok(0xaa));
    assert_eq!(read_u16(&mut reader, Endianness::BigEndian), Ok(0xbbcc));
    assert_eq!(read_u8(&mut reader), Err(DecodeError::ShortRead));
    assert_eq!(read_u16(&mut reader, Endianness::LittleEndian), Err(DecodeError::ShortRead));
}

#[test]
fn read_bytes_takes_them_as_they_are() {
    let bytes = [1u8, 2, 3, 4, 5];
    let mut reader = ByteReader::new(&bytes);
    assert_eq!(read_bytes(&mut reader, 2), Ok(&[1u8, 2][..]));
    assert_eq!(read_bytes(&mut reader, 0), Ok(&[][..]));
    assert_eq!(read_bytes(&mut reader, 4), Err(DecodeError::ShortRead));
    assert_eq!(reader.rest(), &[3u8, 4, 5][..]);
    assert_eq!(read_bytes(&mut reader, 3), Ok(&[3u8, 4, 5][..]));
    assert_eq!(reader.remaining_len(), 0);
    assert_eq!(read_bytes(&mut reader, 0), Ok(&[][..]));
}

#[test]
fn reads_follow_one_another() {
    let bytes = [0x01u8, 0x00, 0x02, 0x00, 0x00, 0x00, 0x03, 0, 0, 0, 0, 0, 0, 0, 0x04];
    let mut reader = ByteReader::new(&bytes);
    assert_eq!(read_u16(&mut reader, Endianness::LittleEndian), Ok(1));
    assert_eq!(read_u32(&mut reader, Endianness::LittleEndian), Ok(2));
    assert_eq!(read_u64(&mut reader, Endianness::LittleEndian), Ok(3));
    assert_eq!(read_u8(&mut reader), Ok(4));
    assert_eq!(reader.remaining_len(), 0);
}
