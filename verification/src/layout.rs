//! The binary layout of the section table: little-endian integers at fixed
//! offsets, the machine-word fields as wide as `usize`.

use vstd::prelude::*;

verus! {

/// Bytes in a machine word: 4 or 8.
pub open spec fn word_bytes() -> int {
    usize::BITS as int / 8
}

/// Bytes in one encoded section header: four 32-bit fields and six machine
/// words, with no padding between them.
pub open spec fn record_bytes() -> int {
    16 + 6 * word_bytes()
}

/// Bytes in the fixed part of the table that precedes its first header: five
/// 32-bit fields.
pub const TABLE_HEADER_SIZE: usize = 20;

/// The unsigned 32-bit integer that the four bytes from `at` on encode,
/// least significant byte first.
pub open spec fn le_u32(bytes: Seq<u8>, at: int) -> u32
    recommends
        0 <= at,
        at + 4 <= bytes.len(),
{
    (bytes[at] as int + 0x100 * (bytes[at + 1] as int) + 0x1_0000 * (bytes[at + 2] as int)
        + 0x100_0000 * (bytes[at + 3] as int)) as u32
}

/// The unsigned 64-bit integer that the eight bytes from `at` on encode,
/// least significant byte first.
pub open spec fn le_u64(bytes: Seq<u8>, at: int) -> u64
    recommends
        0 <= at,
        at + 8 <= bytes.len(),
{
    (le_u32(bytes, at) as int + 0x1_0000_0000 * (le_u32(bytes, at + 4) as int)) as u64
}

/// The machine word that the bytes from `at` on encode, least significant
/// byte first.
pub open spec fn le_word(bytes: Seq<u8>, at: int) -> usize
    recommends
        0 <= at,
        at + word_bytes() <= bytes.len(),
{
    if usize::BITS == 32 {
        le_u32(bytes, at) as usize
    } else {
        le_u64(bytes, at) as usize
    }
}

/// Bytes in a machine word.
pub fn word_size() -> (r: usize)
    ensures
        r == word_bytes(),
        r == 4 || r == 8,
{
    if usize::BITS == 32 {
        4
    } else {
        8
    }
}

/// Bytes in one encoded section header.
pub fn record_size() -> (r: usize)
    ensures
        r == record_bytes(),
        r == 40 || r == 64,
{
    16 + 6 * word_size()
}

/// Reads the little-endian 32-bit integer at byte offset `at`.
pub(crate) fn read_u32(data: &[u8], at: usize) -> (r: u32)
    requires
        at + 4 <= data.len(),
    ensures
        r == le_u32(data@, at as int),
{
    let b0: u32 = data[at] as u32;
    let b1: u32 = data[at + 1] as u32;
    let b2: u32 = data[at + 2] as u32;
    let b3: u32 = data[at + 3] as u32;
    b0 + 0x100 * b1 + 0x1_0000 * b2 + 0x100_0000 * b3
}

/// Reads the little-endian 64-bit integer at byte offset `at`.
pub(crate) fn read_u64(data: &[u8], at: usize) -> (r: u64)
    requires
        at + 8 <= data.len(),
    ensures
        r == le_u64(data@, at as int),
{
    let low: u64 = read_u32(data, at) as u64;
    let high: u64 = read_u32(data, at + 4) as u64;
    low + 0x1_0000_0000 * high
}

/// Reads the little-endian machine word at byte offset `at`.
pub(crate) fn read_word(data: &[u8], at: usize) -> (r: usize)
    requires
        at + word_bytes() <= data.len(),
    ensures
        r == le_word(data@, at as int),
{
    if usize::BITS == 32 {
        read_u32(data, at) as usize
    } else {
        read_u64(data, at) as usize
    }
}

} // verus!
