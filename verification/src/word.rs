//! Fixed-width words of the machine.
//!
//! The machine stores multi-byte values in little-endian byte order,
//! independent of the host, and reinterprets 32-bit words as two's-complement
//! signed values.  This module defines those conversions once, as spec
//! functions with executable counterparts, together with the zero-filled
//! buffers that memory and the register file start from.

use vstd::arithmetic::div_mod::{
    lemma_div_denominator, lemma_div_is_ordered, lemma_fundamental_div_mod, lemma_small_mod,
};
use vstd::prelude::*;

verus! {

/// The little-endian bytes of a 16-bit word, least significant first.
pub open spec fn u16_le_bytes(w: u16) -> Seq<u8> {
    seq![(w % 0x100) as u8, ((w / 0x100) % 0x100) as u8]
}

/// The 16-bit word stored by two little-endian bytes.
pub open spec fn u16_of_le(b: Seq<u8>) -> u16
    recommends
        b.len() == 2,
{
    (b[0] + b[1] * 0x100) as u16
}

/// The little-endian bytes of a 32-bit word, least significant first.
pub open spec fn u32_le_bytes(w: u32) -> Seq<u8> {
    seq![
        (w % 0x100) as u8,
        ((w / 0x100) % 0x100) as u8,
        ((w / 0x10000) % 0x100) as u8,
        ((w / 0x1000000) % 0x100) as u8,
    ]
}

/// The 32-bit word stored by four little-endian bytes.
pub open spec fn u32_of_le(b: Seq<u8>) -> u32
    recommends
        b.len() == 4,
{
    (b[0] + b[1] * 0x100 + b[2] * 0x10000 + b[3] * 0x1000000) as u32
}

/// The unsigned word holding the two's-complement bits of a signed value.
pub open spec fn u32_of_i32(v: i32) -> u32 {
    if v >= 0 {
        v as u32
    } else {
        (v + 0x1_0000_0000) as u32
    }
}

/// The signed value whose two's-complement bits are the given word.
pub open spec fn i32_of_u32(w: u32) -> i32 {
    if w <= 0x7FFF_FFFF {
        w as i32
    } else {
        (w - 0x1_0000_0000) as i32
    }
}

/// Reassembling a 16-bit word from its little-endian bytes gives the word back.
pub proof fn lemma_u16_le_round_trip(w: u16)
    ensures
        u16_of_le(u16_le_bytes(w)) == w,
{
    let x = w as int;
    lemma_fundamental_div_mod(x, 0x100);
    lemma_div_is_ordered(x, 0xFFFF, 0x100);
    lemma_small_mod((x / 0x100) as nat, 0x100);
}

/// Reassembling a 32-bit word from its little-endian bytes gives the word back.
pub proof fn lemma_u32_le_round_trip(w: u32)
    ensures
        u32_of_le(u32_le_bytes(w)) == w,
{
    let x = w as int;
    lemma_fundamental_div_mod(x, 0x100);
    lemma_fundamental_div_mod(x / 0x100, 0x100);
    lemma_fundamental_div_mod(x / 0x10000, 0x100);
    lemma_div_denominator(x, 0x100, 0x100);
    lemma_div_denominator(x, 0x10000, 0x100);
    lemma_div_is_ordered(x, 0xFFFF_FFFF, 0x1000000);
    lemma_small_mod((x / 0x1000000) as nat, 0x100);
}

/// Reinterpreting a signed value as unsigned bits and back gives the value.
pub proof fn lemma_i32_bits_round_trip(v: i32)
    ensures
        i32_of_u32(u32_of_i32(v)) == v,
{
}

/// Builds a 16-bit word from its little-endian bytes.
pub fn u16_from_le(b0: u8, b1: u8) -> (w: u16)
    ensures
        w == u16_of_le(seq![b0, b1]),
{
    b0 as u16 + (b1 as u16) * 0x100
}

/// Builds a 32-bit word from its little-endian bytes.
pub fn u32_from_le(b0: u8, b1: u8, b2: u8, b3: u8) -> (w: u32)
    ensures
        w == u32_of_le(seq![b0, b1, b2, b3]),
{
    b0 as u32 + (b1 as u32) * 0x100 + (b2 as u32) * 0x10000 + (b3 as u32) * 0x1000000
}

/// Splits a 16-bit word into its little-endian bytes.
pub fn u16_to_le(w: u16) -> (v: Vec<u8>)
    ensures
        v@ == u16_le_bytes(w),
{
    let mut v: Vec<u8> = Vec::new();
    v.push((w % 0x100) as u8);
    v.push(((w / 0x100) % 0x100) as u8);
    proof {
        assert(v@ =~= u16_le_bytes(w));
    }
    v
}

/// Splits a 32-bit word into its little-endian bytes.
pub fn u32_to_le(w: u32) -> (v: Vec<u8>)
    ensures
        v@ == u32_le_bytes(w),
{
    let mut v: Vec<u8> = Vec::new();
    v.push((w % 0x100) as u8);
    v.push(((w / 0x100) % 0x100) as u8);
    v.push(((w / 0x10000) % 0x100) as u8);
    v.push(((w / 0x1000000) % 0x100) as u8);
    proof {
        assert(v@ =~= u32_le_bytes(w));
    }
    v
}

/// Extracts the two's-complement bits of a signed value.
pub fn i32_to_bits(v: i32) -> (w: u32)
    ensures
        w == u32_of_i32(v),
{
    if v >= 0 {
        v as u32
    } else {
        ((v as i64) + 0x1_0000_0000) as u32
    }
}

/// Reads a word's bits as a two's-complement signed value.
pub fn bits_to_i32(w: u32) -> (v: i32)
    ensures
        v == i32_of_u32(w),
{
    if w <= 0x7FFF_FFFF {
        w as i32
    } else {
        ((w as i64) - 0x1_0000_0000) as i32
    }
}

/// A buffer of `count` copies of one value.
pub fn filled<T: Copy>(value: T, count: usize) -> (v: Vec<T>)
    ensures
        v@ == Seq::new(count as nat, |i| value),
{
    let mut v: Vec<T> = Vec::new();
    let mut i: usize = 0;
    while i < count
        invariant
            i <= count,
            v@ == Seq::new(i as nat, |j| value),
        decreases count - i,
    {
        v.push(value);
        i = i + 1;
        proof {
            assert(v@ =~= Seq::new(i as nat, |j| value));
        }
    }
    v
}

} // verus!


