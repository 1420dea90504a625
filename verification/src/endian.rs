use byteorder::{BigEndian, ByteOrder, LittleEndian, NativeEndian};
use vstd::prelude::*;
use vstd::slice::slice_subrange;

verus! {

/// Byte order used for every multi-byte field of a page.
#[derive(Clone, Copy, Debug, PartialEq, Eq, Structural)]
pub enum Endianness {
    LittleEndian,
    BigEndian,
}

/// Value of the first two bytes of `b`, least significant byte first.
pub open spec fn spec_u16_le(b: Seq<u8>) -> u16 {
    (b[0] as int + 0x100 * (b[1] as int)) as u16
}

/// Value of the first two bytes of `b`, most significant byte first.
pub open spec fn spec_u16_be(b: Seq<u8>) -> u16 {
    (0x100 * (b[0] as int) + b[1] as int) as u16
}

/// Value of the first four bytes of `b`, least significant byte first.
pub open spec fn spec_u32_le(b: Seq<u8>) -> u32 {
    (b[0] as int + 0x100 * (b[1] as int) + 0x1_0000 * (b[2] as int) + 0x100_0000 * (
    b[3] as int)) as u32
}

/// Value of the first four bytes of `b`, most significant byte first.
pub open spec fn spec_u32_be(b: Seq<u8>) -> u32 {
    (0x100_0000 * (b[0] as int) + 0x1_0000 * (b[1] as int) + 0x100 * (b[2] as int)
        + b[3] as int) as u32
}

/// Value of the first eight bytes of `b`, least significant byte first.
pub open spec fn spec_u64_le(b: Seq<u8>) -> u64 {
    (spec_u32_le(b) as int + 0x1_0000_0000 * (spec_u32_le(b.skip(4)) as int)) as u64
}

/// Value of the first eight bytes of `b`, most significant byte first.
pub open spec fn spec_u64_be(b: Seq<u8>) -> u64 {
    (0x1_0000_0000 * (spec_u32_be(b) as int) + spec_u32_be(b.skip(4)) as int) as u64
}

/// Value of the first two bytes of `b` in the given byte order.
pub open spec fn spec_u16(b: Seq<u8>, e: Endianness) -> u16 {
    match e {
        Endianness::LittleEndian => spec_u16_le(b),
        Endianness::BigEndian => spec_u16_be(b),
    }
}

/// Value of the first four bytes of `b` in the given byte order.
pub open spec fn spec_u32(b: Seq<u8>, e: Endianness) -> u32 {
    match e {
        Endianness::LittleEndian => spec_u32_le(b),
        Endianness::BigEndian => spec_u32_be(b),
    }
}

/// Value of the first eight bytes of `b` in the given byte order.
pub open spec fn spec_u64(b: Seq<u8>, e: Endianness) -> u64 {
    match e {
        Endianness::LittleEndian => spec_u64_le(b),
        Endianness::BigEndian => spec_u64_be(b),
    }
}

/// Trusted: `byteorder::LittleEndian::read_u16`. It panics on fewer than two
/// bytes and otherwise returns `u16::from_le_bytes` of the first two.
#[verifier::external_body]
fn le_read_u16(buf: &[u8]) -> (value: u16)
    requires
        buf@.len() >= 2,
    ensures
        value == spec_u16_le(buf@),
{
    LittleEndian::read_u16(buf)
}

/// Trusted: `byteorder::BigEndian::read_u16`. It panics on fewer than two
/// bytes and otherwise returns `u16::from_be_bytes` of the first two.
#[verifier::external_body]
fn be_read_u16(buf: &[u8]) -> (value: u16)
    requires
        buf@.len() >= 2,
    ensures
        value == spec_u16_be(buf@),
{
    BigEndian::read_u16(buf)
}

/// Trusted: `byteorder::LittleEndian::read_u32`. It panics on fewer than four
/// bytes and otherwise returns `u32::from_le_bytes` of the first four.
#[verifier::external_body]
fn le_read_u32(buf: &[u8]) -> (value: u32)
    requires
        buf@.len() >= 4,
    ensures
        value == spec_u32_le(buf@),
{
    LittleEndian::read_u32(buf)
}

/// Trusted: `byteorder::BigEndian::read_u32`. It panics on fewer than four
/// bytes and otherwise returns `u32::from_be_bytes` of the first four.
#[verifier::external_body]
fn be_read_u32(buf: &[u8]) -> (value: u32)
    requires
        buf@.len() >= 4,
    ensures
        value == spec_u32_be(buf@),
{
    BigEndian::read_u32(buf)
}

/// Trusted: `byteorder::LittleEndian::read_u64`. It panics on fewer than eight
/// bytes and otherwise returns `u64::from_le_bytes` of the first eight.
#[verifier::external_body]
fn le_read_u64(buf: &[u8]) -> (value: u64)
    requires
        buf@.len() >= 8,
    ensures
        value == spec_u64_le(buf@),
{
    LittleEndian::read_u64(buf)
}

/// Trusted: `byteorder::BigEndian::read_u64`. It panics on fewer than eight
/// bytes and otherwise returns `u64::from_be_bytes` of the first eight.
#[verifier::external_body]
fn be_read_u64(buf: &[u8]) -> (value: u64)
    requires
        buf@.len() >= 8,
    ensures
        value == spec_u64_be(buf@),
{
    BigEndian::read_u64(buf)
}

/// Trusted: `byteorder::NativeEndian::read_u16`. `NativeEndian` is an alias
/// for one of the two orders, chosen when the crate is built, so the value is
/// one of the two readings and nothing says which.
#[verifier::external_body]
fn native_read_u16(buf: &[u8]) -> (value: u16)
    requires
        buf@.len() >= 2,
    ensures
        value == spec_u16_le(buf@) || value == spec_u16_be(buf@),
{
    NativeEndian::read_u16(buf)
}

/// Value of the two bytes of `b` that start at offset `at`.
pub open spec fn spec_u16_at(b: Seq<u8>, at: int, e: Endianness) -> u16 {
    spec_u16(b.subrange(at, at + 2), e)
}

/// Value of the four bytes of `b` that start at offset `at`.
pub open spec fn spec_u32_at(b: Seq<u8>, at: int, e: Endianness) -> u32 {
    spec_u32(b.subrange(at, at + 4), e)
}

/// Value of the eight bytes of `b` that start at offset `at`.
pub open spec fn spec_u64_at(b: Seq<u8>, at: int, e: Endianness) -> u64 {
    spec_u64(b.subrange(at, at + 8), e)
}

/// Decodes the two bytes of `buf` that start at offset `at`.
pub(crate) fn u16_at(buf: &[u8], at: usize, endianness: Endianness) -> (value: u16)
    requires
        at + 2 <= buf.len(),
    ensures
        value == spec_u16_at(buf@, at as int, endianness),
{
    let field = slice_subrange(buf, at, at + 2);
    match endianness {
        Endianness::LittleEndian => le_read_u16(field),
        Endianness::BigEndian => be_read_u16(field),
    }
}

/// Decodes the four bytes of `buf` that start at offset `at`.
pub(crate) fn u32_at(buf: &[u8], at: usize, endianness: Endianness) -> (value: u32)
    requires
        at + 4 <= buf.len(),
    ensures
        value == spec_u32_at(buf@, at as int, endianness),
{
    let field = slice_subrange(buf, at, at + 4);
    match endianness {
        Endianness::LittleEndian => le_read_u32(field),
        Endianness::BigEndian => be_read_u32(field),
    }
}

/// Decodes the eight bytes of `buf` that start at offset `at`.
pub(crate) fn u64_at(buf: &[u8], at: usize, endianness: Endianness) -> (value: u64)
    requires
        at + 8 <= buf.len(),
    ensures
        value == spec_u64_at(buf@, at as int, endianness),
{
    let field = slice_subrange(buf, at, at + 8);
    match endianness {
        Endianness::LittleEndian => le_read_u64(field),
        Endianness::BigEndian => be_read_u64(field),
    }
}

/// The two bytes that hold `value` in the given byte order.
pub open spec fn spec_bytes_u16(value: u16, e: Endianness) -> Seq<u8> {
    let low = (value % 0x100) as u8;
    let high = (value / 0x100) as u8;
    match e {
        Endianness::LittleEndian => seq![low, high],
        Endianness::BigEndian => seq![high, low],
    }
}

/// The four bytes that hold `value` in the given byte order.
pub open spec fn spec_bytes_u32(value: u32, e: Endianness) -> Seq<u8> {
    let low = (value % 0x1_0000) as u16;
    let high = (value / 0x1_0000) as u16;
    match e {
        Endianness::LittleEndian => spec_bytes_u16(low, e) + spec_bytes_u16(high, e),
        Endianness::BigEndian => spec_bytes_u16(high, e) + spec_bytes_u16(low, e),
    }
}

/// The eight bytes that hold `value` in the given byte order.
pub open spec fn spec_bytes_u64(value: u64, e: Endianness) -> Seq<u8> {
    let low = (value % 0x1_0000_0000) as u32;
    let high = (value / 0x1_0000_0000) as u32;
    match e {
        Endianness::LittleEndian => spec_bytes_u32(low, e) + spec_bytes_u32(high, e),
        Endianness::BigEndian => spec_bytes_u32(high, e) + spec_bytes_u32(low, e),
    }
}

/// Appends the two bytes of `value` to `out`.
pub fn push_u16(out: &mut Vec<u8>, value: u16, endianness: Endianness)
    ensures
        final(out)@ == old(out)@ + spec_bytes_u16(value, endianness),
{
    let low = (value % 0x100) as u8;
    let high = (value / 0x100) as u8;
    match endianness {
        Endianness::LittleEndian => {
            out.push(low);
            out.push(high);
        },
        Endianness::BigEndian => {
            out.push(high);
            out.push(low);
        },
    }
    assert(out@ =~= old(out)@ + spec_bytes_u16(value, endianness));
}

/// Appends the four bytes of `value` to `out`.
pub fn push_u32(out: &mut Vec<u8>, value: u32, endianness: Endianness)
    ensures
        final(out)@ == old(out)@ + spec_bytes_u32(value, endianness),
{
    let low = (value % 0x1_0000) as u16;
    let high = (value / 0x1_0000) as u16;
    match endianness {
        Endianness::LittleEndian => {
            push_u16(out, low, endianness);
            push_u16(out, high, endianness);
        },
        Endianness::BigEndian => {
            push_u16(out, high, endianness);
            push_u16(out, low, endianness);
        },
    }
    assert(out@ =~= old(out)@ + spec_bytes_u32(value, endianness));
}

/// Appends the eight bytes of `value` to `out`.
pub fn push_u64(out: &mut Vec<u8>, value: u64, endianness: Endianness)
    ensures
        final(out)@ == old(out)@ + spec_bytes_u64(value, endianness),
{
    let low = (value % 0x1_0000_0000) as u32;
    let high = (value / 0x1_0000_0000) as u32;
    match endianness {
        Endianness::LittleEndian => {
            push_u32(out, low, endianness);
            push_u32(out, high, endianness);
        },
        Endianness::BigEndian => {
            push_u32(out, high, endianness);
            push_u32(out, low, endianness);
        },
    }
    assert(out@ =~= old(out)@ + spec_bytes_u64(value, endianness));
}

/// Two bytes written in a byte order read back, in that order, as the value
/// they were written from.
pub proof fn lemma_u16_round_trip(value: u16, e: Endianness)
    ensures
        spec_bytes_u16(value, e).len() == 2,
        spec_u16(spec_bytes_u16(value, e), e) == value,
{
}

/// Four bytes written in a byte order read back, in that order, as the value
/// they were written from.
pub proof fn lemma_u32_round_trip(value: u32, e: Endianness)
    ensures
        spec_bytes_u32(value, e).len() == 4,
        spec_u32(spec_bytes_u32(value, e), e) == value,
{
}

/// Eight bytes written in a byte order read back, in that order, as the
/// value they were written from.
pub proof fn lemma_u64_round_trip(value: u64, e: Endianness)
    ensures
        spec_bytes_u64(value, e).len() == 8,
        spec_u64(spec_bytes_u64(value, e), e) == value,
{
    let low = (value % 0x1_0000_0000) as u32;
    let high = (value / 0x1_0000_0000) as u32;
    lemma_u32_round_trip(low, e);
    lemma_u32_round_trip(high, e);
    let bytes = spec_bytes_u64(value, e);
    match e {
        Endianness::LittleEndian => {
            assert(bytes.skip(4) =~= spec_bytes_u32(high, e));
        },
        Endianness::BigEndian => {
            assert(bytes.skip(4) =~= spec_bytes_u32(low, e));
        },
    }
}

/// The byte order that a two-byte probe `01 00`, read natively, reveals: read
/// as 1 the low byte came first.
pub open spec fn spec_endianness_of_probe(value: u16) -> Endianness {
    if value == 1 {
        Endianness::LittleEndian
    } else {
        Endianness::BigEndian
    }
}

/// The byte order that a two-byte probe `01 00`, read natively, reveals.
#[verifier::when_used_as_spec(spec_endianness_of_probe)]
pub fn endianness_of_probe(value: u16) -> (e: Endianness)
    ensures
        e == spec_endianness_of_probe(value),
{
    if value == 1 {
        Endianness::LittleEndian
    } else {
        Endianness::BigEndian
    }
}

/// Byte order of the machine this runs on. It is found by reading the probe
/// `01 00` natively. The reading is one of the two that the probe has, and
/// the result is what `endianness_of_probe` makes of it; which of the two it
/// is depends on the machine.
pub fn get_system_endianness() -> (e: Endianness)
    ensures
        e == spec_endianness_of_probe(spec_u16_le(seq![1u8, 0u8])) || e
            == spec_endianness_of_probe(spec_u16_be(seq![1u8, 0u8])),
{
    let probe: [u8; 2] = [1, 0];
    let value = native_read_u16(probe.as_slice());
    endianness_of_probe(value)
}

} // verus!
