//! Facts about masks and fields of machine words that the register types
//! and the drivers share.

use vstd::prelude::*;

verus! {

/// Whether bit `index` of `word` is set.
pub open spec fn bit(word: u32, index: u32) -> bool {
    word & (1u32 << index) != 0
}

/// The word with bit `index` set to `value` and every other bit as it is.
pub open spec fn with_bit(word: u32, index: u32, value: bool) -> u32 {
    if value {
        word | (1u32 << index)
    } else {
        word & !(1u32 << index)
    }
}

/// The byte of the word that starts at bit `8 * index`. Past the end of the
/// word there is nothing, so the byte is 0 there.
pub open spec fn byte_of(word: u32, index: nat) -> u8 {
    if index < 4 {
        ((word >> (8 * index)) & 0xff) as u8
    } else {
        0
    }
}

/// [`with_bit`] decides the bit it names and keeps every other bit.
pub proof fn lemma_with_bit(word: u32, index: u32, value: bool, at: u32)
    requires
        index < 32,
        at < 32,
    ensures
        bit(with_bit(word, index, value), at) == if at == index {
            value
        } else {
            bit(word, at)
        },
{
    assert(((word | (1u32 << index)) & (1u32 << at) != 0) == (at == index || (word & (1u32 << at)
        != 0))) by (bit_vector)
        requires
            index < 32,
            at < 32,
    ;
    assert(((word & !(1u32 << index)) & (1u32 << at) != 0) == (at != index && (word & (1u32
        << at) != 0))) by (bit_vector)
        requires
            index < 32,
            at < 32,
    ;
}

/// Setting the bits of a mask makes the word contain the mask.
pub proof fn lemma_or_contains(word: u32, mask: u32)
    ensures
        (word | mask) & mask == mask,
{
    assert((word | mask) & mask == mask) by (bit_vector);
}

/// Clearing the bits of a mask that is not zero leaves a word that does not
/// contain the mask.
pub proof fn lemma_and_not_excludes(word: u32, mask: u32)
    requires
        mask != 0,
    ensures
        (word & !mask) & mask != mask,
{
    assert(mask != 0 ==> (word & !mask) & mask != mask) by (bit_vector);
}

/// Setting or clearing the bits of one mask does not touch the bits of a
/// mask that is disjoint from it.
pub proof fn lemma_disjoint_untouched(word: u32, mask: u32, other: u32)
    requires
        mask & other == 0,
    ensures
        (word | mask) & other == word & other,
        (word & !mask) & other == word & other,
{
    assert(mask & other == 0 ==> (word | mask) & other == word & other) by (bit_vector);
    assert(mask & other == 0 ==> (word & !mask) & other == word & other) by (bit_vector);
}

/// Setting or clearing the bits of a mask leaves every bit outside the mask
/// as it was.
pub proof fn lemma_outside_untouched(word: u32, mask: u32)
    ensures
        (word | mask) & !mask == word & !mask,
        (word & !mask) & !mask == word & !mask,
{
    assert((word | mask) & !mask == word & !mask) by (bit_vector);
    assert((word & !mask) & !mask == word & !mask) by (bit_vector);
}

/// The byte-wide counterpart of [`lemma_or_contains`].
pub proof fn lemma_or_contains_u8(word: u8, mask: u8)
    ensures
        (word | mask) & mask == mask,
{
    assert((word | mask) & mask == mask) by (bit_vector);
}

/// The byte-wide counterpart of [`lemma_and_not_excludes`].
pub proof fn lemma_and_not_excludes_u8(word: u8, mask: u8)
    requires
        mask != 0,
    ensures
        (word & !mask) & mask != mask,
{
    assert(mask != 0 ==> (word & !mask) & mask != mask) by (bit_vector);
}

/// The byte-wide counterpart of [`lemma_disjoint_untouched`].
pub proof fn lemma_disjoint_untouched_u8(word: u8, mask: u8, other: u8)
    requires
        mask & other == 0,
    ensures
        (word | mask) & other == word & other,
        (word & !mask) & other == word & other,
{
    assert(mask & other == 0 ==> (word | mask) & other == word & other) by (bit_vector);
    assert(mask & other == 0 ==> (word & !mask) & other == word & other) by (bit_vector);
}

/// The byte-wide counterpart of [`lemma_outside_untouched`].
pub proof fn lemma_outside_untouched_u8(word: u8, mask: u8)
    ensures
        (word | mask) & !mask == word & !mask,
        (word & !mask) & !mask == word & !mask,
{
    assert((word | mask) & !mask == word & !mask) by (bit_vector);
    assert((word & !mask) & !mask == word & !mask) by (bit_vector);
}

} // verus!
