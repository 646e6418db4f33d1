//! The bit reader: a byte sequence and a cursor that counts bits.

use vstd::prelude::*;
use crate::bits::{
    bits_value,
    lemma_bits_value_bound,
    lemma_bits_value_is_window_value,
    read_window,
    window_value,
};
use crate::error::ErrorType;
use vstd::arithmetic::power2::lemma2_to64;

verus! {

/// What a read of `n` bits at bit `pos` of `data` gives.
///
/// A width above 32 is refused first, whatever the position; then a range
/// that reaches past the last bit; every other read gives the number that
/// the bits write, most significant bit first.
pub open spec fn read_bits(data: Seq<u8>, pos: int, n: int) -> Result<u32, ErrorType> {
    if n > 32 {
        Err(ErrorType::Overflow)
    } else if pos + n > 8 * data.len() {
        Err(ErrorType::OutOfIndex)
    } else {
        Ok(bits_value(data, pos, n as nat) as u32)
    }
}

/// A read inside the sequence gives what arithmetic on the bytes under the
/// range gives: the bytes joined big-endian, without the unused low bits of
/// the last byte and without the bits in front of the range.
pub proof fn lemma_read_bits_is_byte_arithmetic(data: Seq<u8>, pos: int, n: int)
    requires
        0 <= pos,
        0 <= n <= 32,
        pos + n <= 8 * data.len(),
    ensures
        window_value(data, pos, n as nat) <= u32::MAX,
        read_bits(data, pos, n) == Ok::<u32, ErrorType>(window_value(data, pos, n as nat) as u32),
{
    lemma_bits_value_is_window_value(data, pos, n as nat);
    lemma2_to64();
}

/// A byte sequence with a bit cursor.
///
/// `pos` counts bits from the most significant bit of the first byte. The
/// readers keep it between 0 and `total_bits`; `set_pos` alone can put it
/// elsewhere.
pub struct Buffer {
    pub data: Vec<u8>,
    pub pos: usize,
    pub total_bits: usize,
}

/// A `Buffer` as a mathematical value.
pub struct BufferView {
    pub data: Seq<u8>,
    pub pos: nat,
    pub total_bits: nat,
}

impl View for Buffer {
    type V = BufferView;

    open spec fn view(&self) -> BufferView {
        BufferView {
            data: self.data@,
            pos: self.pos as nat,
            total_bits: self.total_bits as nat,
        }
    }
}

impl Buffer {
    /// `total_bits` is the length of the bytes in bits.
    pub open spec fn wf(&self) -> bool {
        self.total_bits == 8 * self.data@.len()
    }

    /// The cursor lies on a bit of the sequence or just behind the last one.
    pub open spec fn cursor_in_bounds(&self) -> bool {
        self.pos <= self.total_bits
    }

    /// A reader over `data` with the cursor on the first bit.
    pub fn new(data: Vec<u8>) -> (buffer: Buffer)
        requires
            8 * data@.len() <= usize::MAX,
        ensures
            buffer.wf(),
            buffer.data == data,
            buffer.pos == 0,
    {
        let total_bits = data.len() * 8;
        Buffer { data, pos: 0, total_bits }
    }

    /// Reads the next `n` bits as an unsigned number, most significant bit
    /// first, and moves the cursor behind them.
    ///
    /// More than 32 bits are refused with `Overflow`, wherever the cursor
    /// stands; a range that reaches past the last bit is refused with
    /// `OutOfIndex`. A read of no bits gives 0 and moves nothing. A refused
    /// read leaves the reader as it was.
    pub fn get_bits(&mut self, n: u32) -> (result: Result<u32, ErrorType>)
        requires
            old(self).wf(),
        ensures
            result == read_bits(old(self).data@, old(self).pos as int, n as int),
            n > 32 ==> result == Err::<u32, ErrorType>(ErrorType::Overflow),
            n <= 32 && old(self).pos + n > old(self).total_bits ==> result == Err::<u32, ErrorType>(
                ErrorType::OutOfIndex,
            ),
            n == 0 && old(self).cursor_in_bounds() ==> result == Ok::<u32, ErrorType>(0),
            n == 0 ==> final(self).pos == old(self).pos,
            result matches Ok(value) ==> value == bits_value(
                old(self).data@,
                old(self).pos as int,
                n as nat,
            ),
            result is Ok ==> final(self).pos == old(self).pos + n && final(self).cursor_in_bounds(),
            result is Err ==> final(self)@ == old(self)@,
            final(self).data == old(self).data,
            final(self).total_bits == old(self).total_bits,
            final(self).wf(),
    {
        if n > 32 {
            return Err(ErrorType::Overflow);
        }
        if self.pos > self.total_bits || n as usize > self.total_bits - self.pos {
            return Err(ErrorType::OutOfIndex);
        }
        if n == 0 {
            return Ok(0);
        }
        let value = read_window(&self.data, self.pos, n);
        self.pos = self.pos + n as usize;
        Ok(value)
    }

    /// Reads the next `n` bits, 8 at most, as a byte.
    pub(crate) fn get_u8(&mut self, n: u32) -> (result: Result<u8, ErrorType>)
        requires
            old(self).wf(),
            n <= 8,
        ensures
            match result {
                Ok(value) => {
                    &&& value == bits_value(old(self).data@, old(self).pos as int, n as nat)
                    &&& old(self).pos + n <= old(self).total_bits
                    &&& final(self).pos == old(self).pos + n
                },
                Err(error) => {
                    &&& error == ErrorType::OutOfIndex
                    &&& old(self).pos + n > old(self).total_bits
                    &&& final(self).pos == old(self).pos
                },
            },
            final(self).data == old(self).data,
            final(self).total_bits == old(self).total_bits,
    {
        proof {
            lemma_bits_value_bound(self.data@, self.pos as int, n as nat);
            lemma2_to64();
        }
        let value = self.get_bits(n)?;
        Ok(value as u8)
    }

    /// Reads the next `n` bits, 16 at most, as a 16-bit number.
    pub(crate) fn get_u16(&mut self, n: u32) -> (result: Result<u16, ErrorType>)
        requires
            old(self).wf(),
            n <= 16,
        ensures
            match result {
                Ok(value) => {
                    &&& value == bits_value(old(self).data@, old(self).pos as int, n as nat)
                    &&& old(self).pos + n <= old(self).total_bits
                    &&& final(self).pos == old(self).pos + n
                },
                Err(error) => {
                    &&& error == ErrorType::OutOfIndex
                    &&& old(self).pos + n > old(self).total_bits
                    &&& final(self).pos == old(self).pos
                },
            },
            final(self).data == old(self).data,
            final(self).total_bits == old(self).total_bits,
    {
        proof {
            lemma_bits_value_bound(self.data@, self.pos as int, n as nat);
            lemma2_to64();
        }
        let value = self.get_bits(n)?;
        Ok(value as u16)
    }

    /// Reads the next bit as a flag: 1 is true.
    pub(crate) fn get_flag(&mut self) -> (result: Result<bool, ErrorType>)
        requires
            old(self).wf(),
        ensures
            match result {
                Ok(flag) => {
                    &&& flag == (bits_value(old(self).data@, old(self).pos as int, 1) == 1)
                    &&& old(self).pos + 1 <= old(self).total_bits
                    &&& final(self).pos == old(self).pos + 1
                },
                Err(error) => {
                    &&& error == ErrorType::OutOfIndex
                    &&& old(self).pos + 1 > old(self).total_bits
                    &&& final(self).pos == old(self).pos
                },
            },
            final(self).data == old(self).data,
            final(self).total_bits == old(self).total_bits,
    {
        let value = self.get_bits(1)?;
        Ok(value == 1)
    }

    /// Puts the cursor on bit `pos`.
    ///
    /// Nothing is checked: a position behind the last bit is accepted, and
    /// every read from there is refused with `OutOfIndex` until the cursor is
    /// set back.
    pub fn set_pos(&mut self, pos: usize)
        ensures
            final(self).pos == pos,
            final(self).data == old(self).data,
            final(self).total_bits == old(self).total_bits,
            old(self).wf() ==> final(self).wf(),
    {
        self.pos = pos;
    }

    /// Moves the cursor by `n` bits, forward or backward, if it then lies
    /// strictly between the first bit and the end; otherwise the cursor
    /// stays.
    ///
    /// Bit 0 and the position just behind the last bit are never reached
    /// this way: `set_pos` and the readers reach them.
    pub fn move_pos(&mut self, n: isize)
        ensures
            final(self).pos == if 0 < old(self).pos + n < old(self).total_bits {
                old(self).pos + n
            } else {
                old(self).pos as int
            },
            final(self).data == old(self).data,
            final(self).total_bits == old(self).total_bits,
            old(self).wf() ==> final(self).wf(),
            old(self).cursor_in_bounds() ==> final(self).cursor_in_bounds(),
    {
        if n >= 0 {
            let step: usize = n as usize;
            if self.pos < self.total_bits && step < self.total_bits - self.pos && (self.pos > 0
                || step > 0) {
                self.pos = self.pos + step;
            }
        } else {
            let back: usize = (-(n + 1)) as usize + 1;
            if back < self.pos && self.pos - back < self.total_bits {
                self.pos = self.pos - back;
            }
        }
    }
}

} // verus!
