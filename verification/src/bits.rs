//! The mathematical model of a byte sequence read as one stream of bits,
//! most significant bit of every byte first, and the arithmetic that the
//! readers of this crate are proved against.

use vstd::prelude::*;
use vstd::arithmetic::div_mod::lemma_fundamental_div_mod_converse;
use vstd::arithmetic::power2::{lemma2_to64, lemma_pow2_adds, lemma_pow2_unfold, pow2};
use vstd::bits::{lemma_u64_low_bits_mask_is_mod, lemma_u64_shl_is_mul, lemma_u64_shr_is_div};

verus! {

/// The bit at index `i` of the stream: bit 0 is the most significant bit of
/// byte 0, bit 8 the most significant bit of byte 1, and so on.
pub open spec fn bit_at(data: Seq<u8>, i: int) -> nat {
    let byte = data[i / 8] as nat;
    let place = i % 8;
    if place == 0 {
        byte / 128
    } else if place == 1 {
        (byte / 64) % 2
    } else if place == 2 {
        (byte / 32) % 2
    } else if place == 3 {
        (byte / 16) % 2
    } else if place == 4 {
        (byte / 8) % 2
    } else if place == 5 {
        (byte / 4) % 2
    } else if place == 6 {
        (byte / 2) % 2
    } else {
        byte % 2
    }
}

/// The unsigned number written by the `n` bits that start at bit `pos`,
/// the first of them being the most significant.
pub open spec fn bits_value(data: Seq<u8>, pos: int, n: nat) -> nat
    decreases n,
{
    if n == 0 {
        0
    } else {
        2 * bits_value(data, pos, (n - 1) as nat) + bit_at(data, pos + n - 1)
    }
}

/// The big-endian number written by the `count` bytes that start at byte
/// `first`.
pub open spec fn be_value(data: Seq<u8>, first: int, count: nat) -> nat
    decreases count,
{
    if count == 0 {
        0
    } else {
        256 * be_value(data, first, (count - 1) as nat) + data[first + count - 1] as nat
    }
}

/// The same `n` bits, computed on whole bytes: the bytes that the range
/// touches are joined into one big-endian number, the unused low bits of the
/// last byte are shifted out, and the bits in front of the range are cut off.
pub open spec fn window_value(data: Seq<u8>, pos: int, n: nat) -> nat {
    let first = pos / 8;
    let last = (pos + n - 1) / 8;
    let unused = 7 - (pos + n - 1) % 8;
    (be_value(data, first, (last - first + 1) as nat) / pow2(unused as nat)) % pow2(n)
}

/// `n` bits write a number below `2^n`.
pub proof fn lemma_bits_value_bound(data: Seq<u8>, pos: int, n: nat)
    ensures
        bits_value(data, pos, n) < pow2(n),
    decreases n,
{
    if n == 0 {
        lemma2_to64();
    } else {
        lemma_bits_value_bound(data, pos, (n - 1) as nat);
        lemma_pow2_unfold(n);
    }
}

/// Reading `n + m` bits is reading `n` bits and then `m` more: the first
/// part moves up by `m` binary places.
pub proof fn lemma_bits_value_concat(data: Seq<u8>, pos: int, n: nat, m: nat)
    ensures
        bits_value(data, pos, n + m) == bits_value(data, pos, n) * pow2(m) + bits_value(
            data,
            pos + n,
            m,
        ),
    decreases m,
{
    if m == 0 {
        lemma2_to64();
    } else {
        let head = bits_value(data, pos, n);
        let prev = (m - 1) as nat;
        lemma_bits_value_concat(data, pos, n, prev);
        lemma_pow2_unfold(m);
        assert(2 * (head * pow2(prev)) == head * (2 * pow2(prev))) by (nonlinear_arith);
    }
}

/// Any field inside a run of bits is found from the run's number by one
/// division and one remainder: the run has `front` bits before the field
/// and `rest` bits behind it.
pub proof fn lemma_bits_value_field(data: Seq<u8>, pos: int, front: nat, width: nat, rest: nat)
    ensures
        bits_value(data, pos + front, width) == (bits_value(data, pos, front + width + rest)
            / pow2(rest)) % pow2(width),
{
    let before = bits_value(data, pos, front);
    let field = bits_value(data, pos + front, width);
    let upper = bits_value(data, pos, front + width);
    let lower = bits_value(data, pos + front + width, rest);
    lemma_bits_value_concat(data, pos, front + width, rest);
    lemma_bits_value_concat(data, pos, front, width);
    lemma_bits_value_bound(data, pos + front + width, rest);
    lemma_bits_value_bound(data, pos + front, width);
    lemma_fundamental_div_mod_converse(
        bits_value(data, pos, front + width + rest) as int,
        pow2(rest) as int,
        upper as int,
        lower as int,
    );
    lemma_fundamental_div_mod_converse(
        upper as int,
        pow2(width) as int,
        before as int,
        field as int,
    );
}

/// Bit for bit: the bit that lies `k` bits behind the first bit of a range
/// is the binary digit of the range's number `k` places below the highest.
pub proof fn lemma_bits_value_digit(data: Seq<u8>, pos: int, n: nat, k: nat)
    requires
        k < n,
    ensures
        bit_at(data, pos + k) == (bits_value(data, pos, n) / pow2((n - 1 - k) as nat)) % 2,
{
    lemma_bits_value_field(data, pos, k, 1, (n - 1 - k) as nat);
    lemma2_to64();
}

/// The first `t` bits of a byte write the byte without its low `8 - t` bits.
proof fn lemma_bits_value_in_byte(data: Seq<u8>, index: int, t: nat)
    requires
        0 <= index < data.len(),
        t <= 8,
    ensures
        bits_value(data, 8 * index, t) == if t == 0 {
            0
        } else if t == 1 {
            data[index] as nat / 128
        } else if t == 2 {
            data[index] as nat / 64
        } else if t == 3 {
            data[index] as nat / 32
        } else if t == 4 {
            data[index] as nat / 16
        } else if t == 5 {
            data[index] as nat / 8
        } else if t == 6 {
            data[index] as nat / 4
        } else if t == 7 {
            data[index] as nat / 2
        } else {
            data[index] as nat
        },
    decreases t,
{
    if t > 0 {
        lemma_bits_value_in_byte(data, index, (t - 1) as nat);
    }
}

/// The eight bits of a byte write the byte.
pub proof fn lemma_bits_value_of_byte(data: Seq<u8>, index: int)
    requires
        0 <= index < data.len(),
    ensures
        bits_value(data, 8 * index, 8) == data[index],
{
    lemma_bits_value_in_byte(data, index, 8);
}

/// Whole bytes joined big-endian write the same number as their bits.
pub proof fn lemma_be_value_is_bits_value(data: Seq<u8>, first: int, count: nat)
    requires
        0 <= first,
        first + count <= data.len(),
    ensures
        be_value(data, first, count) == bits_value(data, 8 * first, 8 * count),
    decreases count,
{
    if count > 0 {
        let prev = (count - 1) as nat;
        lemma_be_value_is_bits_value(data, first, prev);
        lemma_bits_value_concat(data, 8 * first, 8 * prev, 8);
        lemma_bits_value_of_byte(data, first + prev);
        lemma2_to64();
    }
}

/// `count` bytes write a number below `2^(8 count)`.
pub proof fn lemma_be_value_bound(data: Seq<u8>, first: int, count: nat)
    ensures
        be_value(data, first, count) < pow2(8 * count),
    decreases count,
{
    lemma2_to64();
    if count > 0 {
        let prev = (count - 1) as nat;
        lemma_be_value_bound(data, first, prev);
        lemma_pow2_adds(8 * prev, 8);
    }
}

/// Reading a range bit by bit and reading it by arithmetic on the bytes that
/// it touches agree, for every width and every starting offset inside the
/// sequence.
pub proof fn lemma_bits_value_is_window_value(data: Seq<u8>, pos: int, n: nat)
    requires
        0 <= pos,
        pos + n <= 8 * data.len(),
    ensures
        bits_value(data, pos, n) == window_value(data, pos, n),
{
    if n == 0 {
        lemma2_to64();
    } else {
        let first = pos / 8;
        let last = (pos + n - 1) / 8;
        let count = (last - first + 1) as nat;
        let unused = (7 - (pos + n - 1) % 8) as nat;
        let offset = (pos % 8) as nat;
        lemma_be_value_is_bits_value(data, first, count);
        lemma_bits_value_field(data, 8 * first, offset, n, unused);
    }
}

/// The `n` bits that start at bit `pos` of `data`, for a range of 1 to 32
/// bits that lies inside the sequence.
///
/// The bytes from the first to the last that the range touches (five at
/// most) are joined into one big-endian number. A mask keeps the bits of
/// the range in it: the low bits of the first byte, the bytes between, and
/// the high bits of the last byte. A shift to the right then drops the
/// unused low bits of the last byte.
pub(crate) fn read_window(data: &Vec<u8>, pos: usize, n: u32) -> (value: u32)
    requires
        1 <= n <= 32,
        pos + n <= 8 * data@.len(),
    ensures
        value == bits_value(data@, pos as int, n as nat),
{
    let first: usize = pos / 8;
    let offset: u32 = (pos % 8) as u32;
    let span: u32 = (offset + n - 1) / 8;
    let unused: u32 = 7 - (offset + n - 1) % 8;
    let len: usize = data.len();
    let last: usize = first + span as usize;
    let mut joined: u64 = 0;
    let mut index: usize = first;
    while index <= last
        invariant
            first <= index <= last + 1,
            last < len == data@.len(),
            last - first <= 4,
            joined == be_value(data@, first as int, (index - first) as nat),
        decreases last + 1 - index,
    {
        proof {
            lemma_be_value_bound(data@, first as int, (index - first) as nat);
            lemma2_to64();
        }
        joined = joined * 256 + data[index] as u64;
        index = index + 1;
    }
    proof {
        lemma2_to64();
        lemma_u64_shl_is_mul(1, n as u64);
    }
    let low_mask: u64 = (1u64 << n) - 1;
    let mask: u64 = low_mask << unused;
    let value: u64 = (joined & mask) >> unused;
    proof {
        assert(value == (joined >> unused) & low_mask) by (bit_vector)
            requires
                value == (joined & (low_mask << unused)) >> unused,
                low_mask <= 0xffff_ffff,
                unused < 8,
        ;
        lemma_u64_shr_is_div(joined, unused as u64);
        lemma_u64_low_bits_mask_is_mod(joined >> unused, n as nat);
        lemma_bits_value_is_window_value(data@, pos as int, n as nat);
    }
    value as u32
}

} // verus!
