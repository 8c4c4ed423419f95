//! Bounds of a range within a mapped region, and the size of the next write
//! when a range of a file is filled with zeros.

use vstd::prelude::*;

verus! {

/// The most bytes of zeros that go to a file in one write.
pub const ZERO_CHUNK: usize = 0x10000;

/// Why a range within a mapped region was refused.
#[derive(Clone, Copy, Debug, PartialEq, Eq, Structural)]
pub enum MapError {
    /// The range ends past the end of the region, or past the largest address.
    InvalidAddress,
}

/// Whether the `count` bytes from `offset` on lie within a region of `size`
/// bytes.
pub open spec fn includes_range(size: usize, offset: usize, count: usize) -> bool {
    offset + count <= size
}

/// The bytes of the next write when `nwritten` bytes of `length` are zeros
/// already: what is left, but no more than `ZERO_CHUNK`.
pub open spec fn zero_chunk(length: usize, nwritten: usize) -> int {
    if nwritten >= length {
        0
    } else if length - nwritten < ZERO_CHUNK {
        length - nwritten
    } else {
        ZERO_CHUNK as int
    }
}

/// Checks that `offset..offset + range_size` lies within a mapping of
/// `mmap_size` bytes. A range whose end overflows lies in none.
pub fn validate_includes_range(mmap_size: usize, offset: usize, range_size: usize) -> (r: Result<
    (),
    MapError,
>)
    ensures
        r is Ok <==> includes_range(mmap_size, offset, range_size),
        r is Err ==> r == Err::<(), MapError>(MapError::InvalidAddress),
{
    match offset.checked_add(range_size) {
        None => Err(MapError::InvalidAddress),
        Some(end_offset) => {
            if end_offset <= mmap_size {
                Ok(())
            } else {
                Err(MapError::InvalidAddress)
            }
        },
    }
}

/// The end of the range `offset..offset + count` within a mapping of `size`
/// bytes, or the error of a range that does not lie within it.
pub fn range_end(size: usize, offset: usize, count: usize) -> (r: Result<usize, MapError>)
    ensures
        r == (if includes_range(size, offset, count) {
            Ok::<usize, MapError>((offset + count) as usize)
        } else {
            Err::<usize, MapError>(MapError::InvalidAddress)
        }),
{
    match offset.checked_add(count) {
        None => Err(MapError::InvalidAddress),
        Some(mem_end) => {
            if mem_end > size {
                Err(MapError::InvalidAddress)
            } else {
                Ok(mem_end)
            }
        },
    }
}

/// The size of the buffer of zeros for a range of `length` bytes: the length,
/// but no more than `ZERO_CHUNK`.
pub fn zero_buffer_size(length: usize) -> (size: usize)
    ensures
        size == zero_chunk(length, 0),
{
    if length < ZERO_CHUNK {
        length
    } else {
        ZERO_CHUNK
    }
}

/// The size of the next write when `nwritten` bytes of `length` are zeros
/// already; 0 when all are.
pub fn next_zero_write(length: usize, nwritten: usize) -> (size: usize)
    ensures
        size == zero_chunk(length, nwritten),
        size <= zero_chunk(length, 0),
{
    if nwritten >= length {
        0
    } else if length - nwritten < ZERO_CHUNK {
        length - nwritten
    } else {
        ZERO_CHUNK
    }
}

/// Writes of the size that `next_zero_write` gives fill the range and never
/// pass its end: while bytes are left the next write has at least one and no
/// more than are left.
pub proof fn lemma_zero_chunk_fits(length: usize, nwritten: usize)
    requires
        nwritten < length,
    ensures
        1 <= zero_chunk(length, nwritten) <= length - nwritten,
        zero_chunk(length, nwritten) <= ZERO_CHUNK,
        zero_chunk(length, nwritten) == length - nwritten || zero_chunk(length, nwritten)
            == ZERO_CHUNK,
{
}

} // verus!
