//! The two nibbles of a fixed-header byte, as numbers.

use vstd::prelude::*;

verus! {

/// Selects the type bits of a header byte.
pub const TYPE_MASK: u8 = 0xf0;

/// Selects the flag bits of a header byte.
pub const FLAG_MASK: u8 = 0x0f;

/// The type code that a header byte carries: the number in its high nibble.
pub open spec fn type_code(header: u8) -> int {
    header as int / 16
}

/// The flags that a header byte carries: the number in its low nibble.
pub open spec fn flag_bits(header: u8) -> int {
    header as int % 16
}

/// A byte is its type code in the high nibble plus its flags in the low one.
/// Masking with `TYPE_MASK` keeps the type code and clears the flags; masking
/// with `FLAG_MASK` leaves the flags alone.
pub proof fn lemma_nibbles(header: u8)
    ensures
        0 <= type_code(header) <= 15,
        0 <= flag_bits(header) <= 15,
        header == 16 * type_code(header) + flag_bits(header),
        header & TYPE_MASK == 16 * type_code(header),
        header & FLAG_MASK == flag_bits(header),
        type_code(header & TYPE_MASK) == type_code(header),
        flag_bits(header & TYPE_MASK) == 0,
{
    assert(header & 0xf0 == 16 * (header / 16)) by (bit_vector);
    assert(header & 0x0f == header % 16) by (bit_vector);
}

} // verus!
