//! Fixed width integers as bytes.

use vstd::prelude::*;

verus! {

/// The number that two bytes, the most significant first, stand for.
pub open spec fn be16(high: u8, low: u8) -> int {
    256 * high + low
}

/// A 16-bit number as two bytes, the most significant first.
pub open spec fn be16_bytes(value: int) -> Seq<u8> {
    seq![(value / 256) as u8, (value % 256) as u8]
}

/// The number that four bytes, the most significant first, stand for.
pub open spec fn be32(bytes: Seq<u8>) -> int {
    0x100_0000 * bytes[0] + 0x1_0000 * bytes[1] + 0x100 * bytes[2] + bytes[3]
}

/// A 32-bit number as four bytes, the most significant first.
pub open spec fn be32_bytes(value: int) -> Seq<u8> {
    seq![
        (value / 0x100_0000) as u8,
        (value / 0x1_0000 % 256) as u8,
        (value / 0x100 % 256) as u8,
        (value % 256) as u8,
    ]
}

/// The signed number that four bytes, the most significant first, stand for in
/// two's complement.
pub open spec fn be32_signed(bytes: Seq<u8>) -> int {
    if be32(bytes) < 0x8000_0000 {
        be32(bytes)
    } else {
        be32(bytes) - 0x1_0000_0000
    }
}

/// The 16-bit audio sample that two bytes, the least significant first, stand
/// for in two's complement.
pub open spec fn le_sample(low: u8, high: u8) -> i16 {
    if high < 128 {
        (256 * high + low) as i16
    } else {
        (256 * high + low - 0x1_0000) as i16
    }
}

/// The two bytes of a 16-bit audio sample, the least significant first.
pub open spec fn le_sample_bytes(sample: i16) -> Seq<u8> {
    let value = if sample >= 0 {
        sample as int
    } else {
        sample + 0x1_0000
    };
    seq![(value % 256) as u8, (value / 256) as u8]
}

/// The samples in `bytes`, two bytes each. A last odd byte is left out.
pub open spec fn le_samples(bytes: Seq<u8>) -> Seq<i16> {
    Seq::new((bytes.len() / 2) as nat, |i: int| le_sample(bytes[2 * i], bytes[2 * i + 1]))
}

pub fn u16_from_be_bytes(high: u8, low: u8) -> (value: u16)
    ensures
        value == be16(high, low),
{
    256 * (high as u16) + low as u16
}

pub fn u16_to_be_bytes(value: u16) -> (bytes: [u8; 2])
    ensures
        bytes@ == be16_bytes(value as int),
{
    let bytes: [u8; 2] = [(value / 256) as u8, (value % 256) as u8];
    assert(bytes@ =~= be16_bytes(value as int));
    bytes
}

pub fn u32_from_be_bytes(bytes: &[u8]) -> (value: u32)
    requires
        bytes@.len() >= 4,
    ensures
        value == be32(bytes@),
{
    0x100_0000 * (bytes[0] as u32) + 0x1_0000 * (bytes[1] as u32) + 0x100 * (bytes[2] as u32)
        + bytes[3] as u32
}

pub fn u32_to_be_bytes(value: u32) -> (bytes: [u8; 4])
    ensures
        bytes@ == be32_bytes(value as int),
{
    let bytes: [u8; 4] = [
        (value / 0x100_0000) as u8,
        (value / 0x1_0000 % 256) as u8,
        (value / 0x100 % 256) as u8,
        (value % 256) as u8,
    ];
    assert(bytes@ =~= be32_bytes(value as int));
    bytes
}

pub fn i32_from_be_bytes(bytes: &[u8]) -> (value: i32)
    requires
        bytes@.len() >= 4,
    ensures
        value == be32_signed(bytes@),
{
    let value: u32 = u32_from_be_bytes(bytes);
    if value < 0x8000_0000 {
        value as i32
    } else {
        (value as i64 - 0x1_0000_0000) as i32
    }
}

pub fn i16_from_le_bytes(low: u8, high: u8) -> (sample: i16)
    ensures
        sample == le_sample(low, high),
{
    let value: i32 = 256 * (high as i32) + low as i32;
    if high < 128 {
        value as i16
    } else {
        (value - 0x1_0000) as i16
    }
}

/// Reading a 16-bit number gives back what was written.
pub proof fn law_be16_round_trip(value: int)
    requires
        0 <= value < 0x1_0000,
    ensures
        be16_bytes(value).len() == 2,
        be16(be16_bytes(value)[0], be16_bytes(value)[1]) == value,
{
}

/// Reading a 32-bit number gives back what was written, and so does the signed
/// reading of a number that is not negative.
pub proof fn law_be32_round_trip(value: int)
    requires
        0 <= value < 0x1_0000_0000,
    ensures
        be32_bytes(value).len() == 4,
        be32(be32_bytes(value)) == value,
        value < 0x8000_0000 ==> be32_signed(be32_bytes(value)) == value,
{
}

/// Reading an audio sample gives back what was written.
pub proof fn law_sample_round_trip(sample: i16)
    ensures
        le_sample_bytes(sample).len() == 2,
        le_sample(le_sample_bytes(sample)[0], le_sample_bytes(sample)[1]) == sample,
{
}

/// Samples of two pieces that follow each other, where the first holds whole
/// samples, are the samples of the first and then those of the second.
pub proof fn law_samples_concatenate(first: Seq<u8>, second: Seq<u8>)
    requires
        first.len() % 2 == 0,
    ensures
        le_samples(first + second) == le_samples(first) + le_samples(second),
{
    assert(le_samples(first + second) =~= le_samples(first) + le_samples(second));
}

/// In big endian the bytes of a number are its bits from the most significant ones to
/// the least significant ones.
pub proof fn law_big_endian_keeps_the_bits(value: u32)
    ensures
        be32_bytes(value as int) == seq![
            (value >> 24) as u8,
            (value >> 16 & 0xff) as u8,
            (value >> 8 & 0xff) as u8,
            (value & 0xff) as u8,
        ],
        value <= 0xffff ==> be16_bytes(value as int) == seq![
            (value >> 8) as u8,
            (value & 0xff) as u8,
        ],
{
    assert(value >> 24 == value / 0x100_0000) by (bit_vector);
    assert(value >> 16 & 0xff == value / 0x1_0000 % 256) by (bit_vector);
    assert(value >> 8 & 0xff == value / 0x100 % 256) by (bit_vector);
    assert(value >> 8 == value / 0x100) by (bit_vector);
    assert(value & 0xff == value % 256) by (bit_vector);
}

/// Two or four bytes in big endian are the number whose bits they are, and the signed
/// number is negative if the first bit is set.
pub proof fn law_big_endian_bits_are_read(bytes: Seq<u8>)
    requires
        bytes.len() >= 4,
    ensures
        be16(bytes[0], bytes[1]) == (bytes[0] as u16) << 8 | bytes[1] as u16,
        be32(bytes) == (bytes[0] as u32) << 24 | (bytes[1] as u32) << 16 | (bytes[2] as u32) << 8
            | bytes[3] as u32,
        be32_signed(bytes) < 0 <==> bytes[0] >= 0x80,
        be32_signed(bytes) == be32(bytes) || be32_signed(bytes) == be32(bytes) - 0x1_0000_0000,
{
    let (a, b, c, d) = (bytes[0], bytes[1], bytes[2], bytes[3]);
    assert(256 * a + b == (a as u16) << 8 | b as u16) by (bit_vector);
    assert(0x100_0000 * a + 0x1_0000 * b + 0x100 * c + d == (a as u32) << 24 | (b as u32) << 16 | (
    c as u32) << 8 | d as u32) by (bit_vector);
}

/// A sample has the bits of its two bytes, the least significant ones first, in two's
/// complement.
pub proof fn law_sample_has_the_bits_of_its_bytes(low: u8, high: u8)
    ensures
        high < 0x80 ==> le_sample(low, high) == (high as u16) << 8 | low as u16,
        high >= 0x80 ==> le_sample(low, high) + 0x1_0000 == (high as u16) << 8 | low as u16,
{
    assert(256 * high + low == (high as u16) << 8 | low as u16) by (bit_vector);
}

/// Samples are read from pairs of bytes one after another.
pub proof fn law_samples_are_pairs_of_bytes(bytes: Seq<u8>, index: int)
    requires
        0 <= 2 * index < bytes.len() - 1,
    ensures
        le_samples(bytes).len() == bytes.len() / 2,
        le_samples(bytes)[index] == le_sample(bytes[2 * index], bytes[2 * index + 1]),
{
}

} // verus!
