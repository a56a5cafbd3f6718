use vstd::prelude::*;
use crate::return_code::code_for_offset;
use crate::return_code::RibosomeReturnCode;

verus! {

/// Largest offset or length a 16-bit field can carry, and the boundary of the
/// 64KiB page: a valid range never runs past byte 65535.
pub const U16_MAX: u32 = 0xFFFF;

/// The high 16 bits of a word — the `offset` field of the wire format.
pub open spec fn high_bits(word: u32) -> u16 {
    (word >> 16u32) as u16
}

/// The low 16 bits of a word — the `length` field of the wire format.
pub open spec fn low_bits(word: u32) -> u16 {
    (word & 0xFFFF) as u16
}

/// The word with `high` in its upper and `low` in its lower 16 bits.
pub open spec fn merge_bits(high: u16, low: u16) -> u32 {
    ((high as u32) << 16u32) | (low as u32)
}

/// Returns the u16 high bits of a u32.
pub fn u32_high_bits(i: u32) -> (high: u16)
    ensures
        high == high_bits(i),
{
    (i >> 16u32) as u16
}

/// Returns the u16 low bits of a u32, by true truncation: all sixteen low
/// bits are kept, so an all-ones low half comes back as 0xFFFF.
pub fn u32_low_bits(i: u32) -> (low: u16)
    ensures
        low == low_bits(i),
{
    (i & 0xFFFF) as u16
}

/// Splits a u32 into its high and low u16 halves, for destructuring.
pub fn u32_split_bits(i: u32) -> (halves: (u16, u16))
    ensures
        halves.0 == high_bits(i),
        halves.1 == low_bits(i),
{
    (u32_high_bits(i), u32_low_bits(i))
}

/// Merges two u16 halves into a single u32.
pub fn u32_merge_bits(high: u16, low: u16) -> (word: u32)
    ensures
        word == merge_bits(high, low),
{
    ((high as u32) << 16u32) | (low as u32)
}

/// A memory allocation guaranteed to fit in the single 64KiB page: `length`
/// bytes starting at byte `offset`.
#[derive(Copy, Clone, Debug)]
pub struct SinglePageAllocation {
    pub offset: u16,
    pub length: u16,
}

impl SinglePageAllocation {
    /// A valid allocation covers at least one byte and stays inside the page.
    pub open spec fn is_valid(self) -> bool {
        1 <= self.length && self.offset + self.length <= U16_MAX
    }
}

/// What a wire word stands for. A zero `length` field makes the word an error
/// code, selected by its `offset` field; a range that would run past the page
/// boundary is the out-of-memory error; any other word spells the allocation
/// held in its two halves.
pub open spec fn decoded(word: u32) -> Result<SinglePageAllocation, RibosomeReturnCode> {
    let offset = high_bits(word);
    let length = low_bits(word);
    if length == 0 {
        Err(code_for_offset(offset))
    } else if offset + length > U16_MAX {
        Err(RibosomeReturnCode::OutOfMemory)
    } else {
        Ok(SinglePageAllocation { offset, length })
    }
}

/// The wire word an allocation travels as: offset above, length below.
pub open spec fn encoded(allocation: SinglePageAllocation) -> u32 {
    merge_bits(allocation.offset, allocation.length)
}

impl SinglePageAllocation {
    /// Decodes a wire word, validating it. A zero-length word is the error
    /// code its offset selects — offset 0 yields `Success` on the error
    /// channel, a quirk of the wire format kept deliberately; a range past
    /// the page boundary is `OutOfMemory`; anything else is a valid
    /// allocation.
    pub fn new(encoded_allocation: u32) -> (result: Result<Self, RibosomeReturnCode>)
        ensures
            result == decoded(encoded_allocation),
            result matches Ok(allocation) ==> allocation.is_valid(),
    {
        let (offset, length) = u32_split_bits(encoded_allocation);
        let allocation = SinglePageAllocation { offset, length };

        // zero length allocation = encoding of an error code
        if allocation.length == 0 {
            return Err(RibosomeReturnCode::from_offset(allocation.offset));
        }

        // the range must not run past the page boundary
        if allocation.offset as u32 + allocation.length as u32 > U16_MAX {
            return Err(RibosomeReturnCode::OutOfMemory);
        }

        Ok(allocation)
    }

    /// Returns the single u32 word encoding both the offset and the length.
    pub fn encode(self) -> (word: u32)
        ensures
            word == encoded(self),
    {
        u32_merge_bits(self.offset, self.length)
    }
}

/// Merging the two halves of a word gives the word back, for every word.
pub proof fn lemma_merge_of_split(word: u32)
    ensures
        merge_bits(high_bits(word), low_bits(word)) == word,
{
    assert(merge_bits(high_bits(word), low_bits(word)) == word) by (bit_vector);
}

/// Splitting a merged word recovers both halves exactly, for every pair.
pub proof fn lemma_split_of_merge(high: u16, low: u16)
    ensures
        high_bits(merge_bits(high, low)) == high,
        low_bits(merge_bits(high, low)) == low,
{
    assert(high_bits(merge_bits(high, low)) == high) by (bit_vector);
    assert(low_bits(merge_bits(high, low)) == low) by (bit_vector);
}

/// Round-trip: every in-page pair with a length of at least one byte survives
/// a merge, a decode and a re-encode unchanged — the decode accepts the
/// merged word as exactly that allocation, and encoding it gives the word
/// back.
pub proof fn lemma_allocation_round_trip(offset: u16, length: u16)
    requires
        1 <= length,
        offset + length <= U16_MAX,
    ensures
        ({
            let word = merge_bits(offset, length);
            decoded(word) == Ok::<SinglePageAllocation, RibosomeReturnCode>(
                SinglePageAllocation { offset, length },
            ) && encoded(SinglePageAllocation { offset, length }) == word
        }),
{
    lemma_split_of_merge(offset, length);
}

/// A zero-length word always fails to decode, as the error code its offset
/// field selects.
pub proof fn lemma_zero_length_is_error(offset: u16)
    ensures
        decoded(merge_bits(offset, 0)) == Err::<SinglePageAllocation, RibosomeReturnCode>(
            code_for_offset(offset),
        ),
{
    lemma_split_of_merge(offset, 0);
}

/// A word whose range would run past the page boundary always fails to
/// decode, as the out-of-memory error.
pub proof fn lemma_overflow_is_out_of_memory(offset: u16, length: u16)
    requires
        1 <= length,
        offset + length > U16_MAX,
    ensures
        decoded(merge_bits(offset, length)) == Err::<SinglePageAllocation, RibosomeReturnCode>(
            RibosomeReturnCode::OutOfMemory,
        ),
{
    lemma_split_of_merge(offset, length);
}

} // verus!
