//! The linear byte-addressable memory of the machine.
//!
//! A fixed-capacity byte buffer, zeroed at construction, accessed only
//! through width-typed, bounds- and alignment-checked reads and writes.
//! Multi-byte values are stored little-endian, independent of the host.

use crate::error::VmError;
use crate::word::{
    filled, i32_to_bits, bits_to_i32, lemma_i32_bits_round_trip, lemma_u16_le_round_trip,
    lemma_u32_le_round_trip, u16_from_le, u16_le_bytes, u16_of_le, u16_to_le, u32_from_le,
    u32_le_bytes, u32_of_i32, u32_of_le, i32_of_u32, u32_to_le,
};
use vstd::prelude::*;

verus! {

/// A value that memory can store: a fixed width of one, two or four bytes,
/// laid out little-endian.  The alignment of a value equals its width.
pub trait MemValue: Sized + Copy {
    /// The width of the value in bytes.
    spec fn width() -> nat;

    /// The little-endian bytes of the value.
    spec fn to_bytes(self) -> Seq<u8>;

    /// The value stored by `width` little-endian bytes.
    spec fn of_bytes(bytes: Seq<u8>) -> Self;

    /// The width is between one and four bytes.
    proof fn lemma_width()
        ensures
            1 <= Self::width() <= 4,
    ;

    /// Encoding a value yields exactly `width` bytes.
    proof fn lemma_to_bytes_len(self)
        ensures
            self.to_bytes().len() == Self::width(),
    ;

    /// Decoding the encoded bytes of a value gives the value back.
    proof fn lemma_round_trip(self)
        ensures
            Self::of_bytes(self.to_bytes()) == self,
    ;

    /// The width of the value in bytes.
    fn width_exec() -> (w: usize)
        ensures
            w == Self::width(),
    ;

    /// Encodes the value into its little-endian bytes.
    fn encode(self) -> (v: Vec<u8>)
        ensures
            v@ == self.to_bytes(),
    ;

    /// Decodes a value from its little-endian bytes.
    fn decode(bytes: &[u8]) -> (v: Self)
        requires
            bytes@.len() == Self::width(),
        ensures
            v == Self::of_bytes(bytes@),
    ;
}

impl MemValue for u8 {
    open spec fn width() -> nat {
        1
    }

    open spec fn to_bytes(self) -> Seq<u8> {
        seq![self]
    }

    open spec fn of_bytes(bytes: Seq<u8>) -> u8 {
        bytes[0]
    }

    proof fn lemma_width() {
    }

    proof fn lemma_to_bytes_len(self) {
    }

    proof fn lemma_round_trip(self) {
    }

    fn width_exec() -> usize {
        1
    }

    fn encode(self) -> (v: Vec<u8>) {
        let mut v: Vec<u8> = Vec::new();
        v.push(self);
        proof {
            assert(v@ =~= self.to_bytes());
        }
        v
    }

    fn decode(bytes: &[u8]) -> u8 {
        bytes[0]
    }
}

impl MemValue for u16 {
    open spec fn width() -> nat {
        2
    }

    open spec fn to_bytes(self) -> Seq<u8> {
        u16_le_bytes(self)
    }

    open spec fn of_bytes(bytes: Seq<u8>) -> u16 {
        u16_of_le(bytes)
    }

    proof fn lemma_width() {
    }

    proof fn lemma_to_bytes_len(self) {
    }

    proof fn lemma_round_trip(self) {
        lemma_u16_le_round_trip(self);
    }

    fn width_exec() -> usize {
        2
    }

    fn encode(self) -> (v: Vec<u8>) {
        u16_to_le(self)
    }

    fn decode(bytes: &[u8]) -> (v: u16) {
        let w = u16_from_le(bytes[0], bytes[1]);
        proof {
            assert(seq![bytes@[0], bytes@[1]] =~= bytes@);
        }
        w
    }
}

impl MemValue for u32 {
    open spec fn width() -> nat {
        4
    }

    open spec fn to_bytes(self) -> Seq<u8> {
        u32_le_bytes(self)
    }

    open spec fn of_bytes(bytes: Seq<u8>) -> u32 {
        u32_of_le(bytes)
    }

    proof fn lemma_width() {
    }

    proof fn lemma_to_bytes_len(self) {
    }

    proof fn lemma_round_trip(self) {
        lemma_u32_le_round_trip(self);
    }

    fn width_exec() -> usize {
        4
    }

    fn encode(self) -> (v: Vec<u8>) {
        u32_to_le(self)
    }

    fn decode(bytes: &[u8]) -> (v: u32) {
        let w = u32_from_le(bytes[0], bytes[1], bytes[2], bytes[3]);
        proof {
            assert(seq![bytes@[0], bytes@[1], bytes@[2], bytes@[3]] =~= bytes@);
        }
        w
    }
}

impl MemValue for i32 {
    open spec fn width() -> nat {
        4
    }

    open spec fn to_bytes(self) -> Seq<u8> {
        u32_le_bytes(u32_of_i32(self))
    }

    open spec fn of_bytes(bytes: Seq<u8>) -> i32 {
        i32_of_u32(u32_of_le(bytes))
    }

    proof fn lemma_width() {
    }

    proof fn lemma_to_bytes_len(self) {
    }

    proof fn lemma_round_trip(self) {
        lemma_u32_le_round_trip(u32_of_i32(self));
        lemma_i32_bits_round_trip(self);
    }

    fn width_exec() -> usize {
        4
    }

    fn encode(self) -> (v: Vec<u8>) {
        u32_to_le(i32_to_bits(self))
    }

    fn decode(bytes: &[u8]) -> (v: i32) {
        let w = u32_from_le(bytes[0], bytes[1], bytes[2], bytes[3]);
        proof {
            assert(seq![bytes@[0], bytes@[1], bytes@[2], bytes@[3]] =~= bytes@);
        }
        bits_to_i32(w)
    }
}

/// The outcome of the bounds and alignment checks for an access of `width`
/// bytes at `address` against a memory of `len` bytes: out of bounds unless
/// the accessed bytes all lie below `len`, misaligned unless `address` is a
/// multiple of `width`.
pub open spec fn check_access(len: nat, address: usize, width: nat) -> Result<(), VmError>
    recommends
        width > 0,
{
    if address + width > len {
        Err(VmError::MemoryOutOfBounds { address, size: width as usize })
    } else if address as int % width as int != 0 {
        Err(VmError::MemoryNotAligned { address, size: width as usize })
    } else {
        Ok(())
    }
}

/// The bytes a read of `width` bytes at `address` returns, or the error the
/// access checks raise.
pub open spec fn spec_read(mem: Seq<u8>, address: usize, width: nat) -> Result<Seq<u8>, VmError>
    recommends
        width > 0,
{
    match check_access(mem.len(), address, width) {
        Err(e) => Err(e),
        Ok(()) => Ok(mem.subrange(address as int, address + width)),
    }
}

/// The memory after `bytes` are written at `address`, or the error the
/// access checks raise; only the addressed bytes change.
pub open spec fn spec_write(mem: Seq<u8>, address: usize, bytes: Seq<u8>) -> Result<
    Seq<u8>,
    VmError,
>
    recommends
        bytes.len() > 0,
{
    match check_access(mem.len(), address, bytes.len()) {
        Err(e) => Err(e),
        Ok(()) => Ok(
            mem.take(address as int) + bytes + mem.skip(address + bytes.len()),
        ),
    }
}

/// A violated bounds check reports `MemoryOutOfBounds` with the offending
/// address and width; an access within bounds that violates only the
/// alignment check reports `MemoryNotAligned`; an access that satisfies both
/// checks is admitted.
pub proof fn lemma_access_errors(len: nat, address: usize, width: nat)
    requires
        width > 0,
    ensures
        address + width > len ==> check_access(len, address, width) == Err::<(), VmError>(
            VmError::MemoryOutOfBounds { address, size: width as usize },
        ),
        address + width <= len && address as int % width as int != 0 ==> check_access(
            len,
            address,
            width,
        ) == Err::<(), VmError>(VmError::MemoryNotAligned { address, size: width as usize }),
        address + width <= len && address as int % width as int == 0 ==> check_access(
            len,
            address,
            width,
        ) == Ok::<(), VmError>(()),
{
}

/// The flat byte memory of the machine.
pub struct Memory {
    data: Vec<u8>,
}

impl View for Memory {
    type V = Seq<u8>;

    /// The stored bytes; the length of this sequence is the capacity.
    closed spec fn view(&self) -> Seq<u8> {
        self.data@
    }
}

impl Memory {
    /// Creates a memory of `size` zeroed bytes.
    pub fn new(size: usize) -> (m: Self)
        ensures
            m@ == Seq::new(size as nat, |i| 0u8),
            m@.len() == size,
    {
        Memory { data: filled(0u8, size) }
    }

    /// Zeroes every byte; the capacity is kept.
    pub fn clear(&mut self)
        ensures
            final(self)@ == Seq::new(old(self)@.len(), |i| 0u8),
            final(self)@.len() == old(self)@.len(),
    {
        let n = self.data.len();
        self.data = filled(0u8, n);
    }

    /// The size of the memory in bytes.
    pub fn capacity(&self) -> (n: usize)
        ensures
            n == self@.len(),
    {
        self.data.len()
    }

    /// Reads a `W` stored little-endian at `address`.  Fails with
    /// `MemoryOutOfBounds` when the accessed bytes reach past the capacity,
    /// and with `MemoryNotAligned` when `address` is not a multiple of the
    /// width of `W`; succeeds on exactly the remaining addresses and decodes
    /// the addressed bytes.
    pub fn read<W: MemValue>(&self, address: usize) -> (r: Result<W, VmError>)
        ensures
            match spec_read(self@, address, W::width()) {
                Ok(bytes) => r matches Ok(v) && v == W::of_bytes(bytes),
                Err(e) => r == Err::<W, VmError>(e),
            },
    {
        let w = W::width_exec();
        proof {
            W::lemma_width();
        }
        if self.data.len() < w || address > self.data.len() - w {
            return Err(VmError::MemoryOutOfBounds { address, size: w });
        }
        if address % w != 0 {
            return Err(VmError::MemoryNotAligned { address, size: w });
        }
        let mut bytes: Vec<u8> = Vec::new();
        let mut i: usize = 0;
        while i < w
            invariant
                i <= w,
                w == W::width(),
                address + w <= usize::MAX,
                address + w <= self@.len(),
                bytes@ =~= self@.subrange(address as int, address + i),
            decreases w - i,
        {
            bytes.push(self.data[address + i]);
            i = i + 1;
            proof {
                assert(bytes@ =~= self@.subrange(address as int, address + i));
            }
        }
        let v = W::decode(bytes.as_slice());
        Ok(v)
    }

    /// Writes `value` little-endian at `address`.  Fails, leaving the memory
    /// unchanged, with `MemoryOutOfBounds` when the accessed bytes reach past
    /// the capacity, and with `MemoryNotAligned` when `address` is not a
    /// multiple of the width of `W`; succeeds on exactly the remaining
    /// addresses and replaces only the addressed bytes.
    pub fn write<W: MemValue>(&mut self, address: usize, value: W) -> (r: Result<(), VmError>)
        ensures
            final(self)@.len() == old(self)@.len(),
            match spec_write(old(self)@, address, value.to_bytes()) {
                Ok(m2) => r == Ok::<(), VmError>(()) && final(self)@ == m2,
                Err(e) => r == Err::<(), VmError>(e) && final(self)@ == old(self)@,
            },
    {
        let w = W::width_exec();
        proof {
            W::lemma_width();
            value.lemma_to_bytes_len();
        }
        if self.data.len() < w || address > self.data.len() - w {
            return Err(VmError::MemoryOutOfBounds { address, size: w });
        }
        if address % w != 0 {
            return Err(VmError::MemoryNotAligned { address, size: w });
        }
        let bytes = value.encode();
        let mut i: usize = 0;
        while i < w
            invariant
                i <= w,
                w == W::width(),
                bytes@ == value.to_bytes(),
                bytes@.len() == w,
                address + w <= usize::MAX,
                address + w <= old(self)@.len(),
                self@.len() == old(self)@.len(),
                self@ =~= old(self)@.take(address as int) + bytes@.take(i as int) + old(
                    self,
                )@.skip(address + i),
            decreases w - i,
        {
            self.data[address + i] = bytes[i];
            i = i + 1;
            proof {
                assert(self@ =~= old(self)@.take(address as int) + bytes@.take(i as int) + old(
                    self,
                )@.skip(address + i));
            }
        }
        proof {
            assert(bytes@.take(w as int) =~= value.to_bytes());
            assert(self@ =~= old(self)@.take(address as int) + value.to_bytes() + old(
                self,
            )@.skip(address + value.to_bytes().len()));
        }
        Ok(())
    }
}

/// Write-read round trip: any value written at an in-bounds, aligned address
/// is returned unchanged by a read of the same width at the same address.
pub proof fn lemma_write_then_read<W: MemValue>(mem: Seq<u8>, address: usize, value: W)
    requires
        address + W::width() <= mem.len(),
        address as int % W::width() as int == 0,
    ensures
        spec_write(mem, address, value.to_bytes()) matches Ok(m2) && spec_read(
            m2,
            address,
            W::width(),
        ) matches Ok(bytes) && W::of_bytes(bytes) == value,
{
    W::lemma_width();
    value.lemma_to_bytes_len();
    let m2 = spec_write(mem, address, value.to_bytes()).unwrap();
    assert(m2.subrange(address as int, address + W::width()) =~= value.to_bytes());
    value.lemma_round_trip();
}

} // verus!
