//! Reading bits straight from a byte vector, without a cursor.

use vstd::prelude::*;
use crate::bits::read_window;
use crate::buffer::read_bits;
use crate::error::ErrorType;

verus! {

/// Reads the `n` bits that start at bit `index` of `buffer` as an unsigned
/// number, most significant bit first.
///
/// This is the read that a `Buffer` over the same bytes makes with its
/// cursor on `index`.
pub fn get_32bits(buffer: &Vec<u8>, index: u32, n: u32) -> (result: Result<u32, ErrorType>)
    ensures
        result == read_bits(buffer@, index as int, n as int),
{
    if n > 32 {
        return Err(ErrorType::Overflow);
    }
    let bytes_needed: u64 = (index as u64 + n as u64 + 7) / 8;
    if bytes_needed > buffer.len() as u64 {
        return Err(ErrorType::OutOfIndex);
    }
    if n == 0 {
        return Ok(0);
    }
    Ok(read_window(buffer, index as usize, n))
}

} // verus!
