//! Little-endian byte order: what the bytes of a number are, stated as
//! arithmetic, and the calls into `byteorder` that read and write them.

use byteorder::{ByteOrder, LittleEndian, WriteBytesExt};
use vstd::prelude::*;

verus! {

/// The two bytes of `n`, lowest first.
pub open spec fn le_bytes_u16(n: u16) -> Seq<u8> {
    seq![(n % 0x100) as u8, (n / 0x100) as u8]
}

/// The four bytes of `n`, lowest first.
pub open spec fn le_bytes_u32(n: u32) -> Seq<u8> {
    seq![
        (n % 0x100) as u8,
        (n / 0x100 % 0x100) as u8,
        (n / 0x1_0000 % 0x100) as u8,
        (n / 0x100_0000) as u8,
    ]
}

/// The number whose two bytes, lowest first, open `bytes`.
pub open spec fn le_value_u16(bytes: Seq<u8>) -> u16
    recommends
        bytes.len() >= 2,
{
    (bytes[0] + 0x100 * bytes[1]) as u16
}

/// The number whose four bytes, lowest first, open `bytes`.
pub open spec fn le_value_u32(bytes: Seq<u8>) -> u32
    recommends
        bytes.len() >= 4,
{
    (bytes[0] + 0x100 * bytes[1] + 0x1_0000 * bytes[2] + 0x100_0000 * bytes[3]) as u32
}

/// The byte that holds `n` in two's complement.
pub open spec fn twos_complement_8(n: i8) -> u8 {
    if n < 0 {
        (n + 0x100) as u8
    } else {
        n as u8
    }
}

/// The 16-bit pattern that holds `n` in two's complement.
pub open spec fn twos_complement_16(n: i16) -> u16 {
    if n < 0 {
        (n + 0x1_0000) as u16
    } else {
        n as u16
    }
}

/// The 32-bit pattern that holds `n` in two's complement.
pub open spec fn twos_complement_32(n: i32) -> u32 {
    if n < 0 {
        (n + 0x1_0000_0000) as u32
    } else {
        n as u32
    }
}

/// The number that the byte `n` holds in two's complement.
pub open spec fn signed_8(n: u8) -> i8 {
    if n < 0x80 {
        n as i8
    } else {
        (n - 0x100) as i8
    }
}

/// The number that the 16-bit pattern `n` holds in two's complement.
pub open spec fn signed_16(n: u16) -> i16 {
    if n < 0x8000 {
        n as i16
    } else {
        (n - 0x1_0000) as i16
    }
}

/// The number that the 32-bit pattern `n` holds in two's complement.
pub open spec fn signed_32(n: u32) -> i32 {
    if n < 0x8000_0000 {
        n as i32
    } else {
        (n - 0x1_0000_0000) as i32
    }
}

/// Reading two little-endian bytes gives back the number that was written.
pub proof fn lemma_le_u16_round_trip(n: u16)
    ensures
        le_bytes_u16(n).len() == 2,
        le_value_u16(le_bytes_u16(n)) == n,
{
}

/// Reading four little-endian bytes gives back the number that was written.
pub proof fn lemma_le_u32_round_trip(n: u32)
    ensures
        le_bytes_u32(n).len() == 4,
        le_value_u32(le_bytes_u32(n)) == n,
{
}

/// Two's complement loses nothing: the signed reading of a pattern made from
/// `n` is `n`.
pub proof fn lemma_twos_complement_round_trip(a: i8, b: i16, c: i32)
    ensures
        signed_8(twos_complement_8(a)) == a,
        signed_16(twos_complement_16(b)) == b,
        signed_32(twos_complement_32(c)) == c,
{
}

/// `byteorder::WriteBytesExt::write_u8` on a `Vec<u8>`. The contract claims
/// that the one byte `n` is appended to the vector; writing to a vector does
/// not fail.
#[verifier::external_body]
pub(crate) fn write_u8(buf: &mut Vec<u8>, n: u8)
    ensures
        final(buf)@ == old(buf)@ + seq![n],
{
    buf.write_u8(n).unwrap();
}

/// `byteorder::WriteBytesExt::write_i8` on a `Vec<u8>`. The contract claims
/// that the one byte holding `n` in two's complement is appended.
#[verifier::external_body]
pub(crate) fn write_i8(buf: &mut Vec<u8>, n: i8)
    ensures
        final(buf)@ == old(buf)@ + seq![twos_complement_8(n)],
{
    buf.write_i8(n).unwrap();
}

/// `byteorder::WriteBytesExt::write_u16` in little-endian order on a
/// `Vec<u8>`. The contract claims that the two bytes of `n` are appended,
/// lowest first.
#[verifier::external_body]
pub(crate) fn write_u16_le(buf: &mut Vec<u8>, n: u16)
    ensures
        final(buf)@ == old(buf)@ + le_bytes_u16(n),
{
    buf.write_u16::<LittleEndian>(n).unwrap();
}

/// `byteorder::WriteBytesExt::write_i16` in little-endian order on a
/// `Vec<u8>`. The contract claims that the two bytes of the two's complement
/// pattern of `n` are appended, lowest first.
#[verifier::external_body]
pub(crate) fn write_i16_le(buf: &mut Vec<u8>, n: i16)
    ensures
        final(buf)@ == old(buf)@ + le_bytes_u16(twos_complement_16(n)),
{
    buf.write_i16::<LittleEndian>(n).unwrap();
}

/// `byteorder::WriteBytesExt::write_u32` in little-endian order on a
/// `Vec<u8>`. The contract claims that the four bytes of `n` are appended,
/// lowest first.
#[verifier::external_body]
pub(crate) fn write_u32_le(buf: &mut Vec<u8>, n: u32)
    ensures
        final(buf)@ == old(buf)@ + le_bytes_u32(n),
{
    buf.write_u32::<LittleEndian>(n).unwrap();
}

/// `byteorder::WriteBytesExt::write_i32` in little-endian order on a
/// `Vec<u8>`. The contract claims that the four bytes of the two's complement
/// pattern of `n` are appended, lowest first.
#[verifier::external_body]
pub(crate) fn write_i32_le(buf: &mut Vec<u8>, n: i32)
    ensures
        final(buf)@ == old(buf)@ + le_bytes_u32(twos_complement_32(n)),
{
    buf.write_i32::<LittleEndian>(n).unwrap();
}

/// `byteorder::ByteOrder::read_u16` of `LittleEndian`, which panics on fewer
/// than two bytes. The contract claims that the result is the number whose
/// low byte is `bytes[0]` and whose high byte is `bytes[1]`.
#[verifier::external_body]
pub(crate) fn read_u16_le(bytes: &[u8]) -> (n: u16)
    requires
        bytes@.len() >= 2,
    ensures
        n == le_value_u16(bytes@),
{
    LittleEndian::read_u16(bytes)
}

/// `byteorder::ByteOrder::read_i16` of `LittleEndian`, which panics on fewer
/// than two bytes. The contract claims that the result is the two's
/// complement reading of the 16-bit pattern that the first two bytes hold,
/// lowest first.
#[verifier::external_body]
pub(crate) fn read_i16_le(bytes: &[u8]) -> (n: i16)
    requires
        bytes@.len() >= 2,
    ensures
        n == signed_16(le_value_u16(bytes@)),
{
    LittleEndian::read_i16(bytes)
}

/// `byteorder::ByteOrder::read_u32` of `LittleEndian`, which panics on fewer
/// than four bytes. The contract claims that the result is the number that
/// the first four bytes hold, lowest first.
#[verifier::external_body]
pub(crate) fn read_u32_le(bytes: &[u8]) -> (n: u32)
    requires
        bytes@.len() >= 4,
    ensures
        n == le_value_u32(bytes@),
{
    LittleEndian::read_u32(bytes)
}

/// `byteorder::ByteOrder::read_i32` of `LittleEndian`, which panics on fewer
/// than four bytes. The contract claims that the result is the two's
/// complement reading of the 32-bit pattern that the first four bytes hold,
/// lowest first.
#[verifier::external_body]
pub(crate) fn read_i32_le(bytes: &[u8]) -> (n: i32)
    requires
        bytes@.len() >= 4,
    ensures
        n == signed_32(le_value_u32(bytes@)),
{
    LittleEndian::read_i32(bytes)
}

} // verus!
