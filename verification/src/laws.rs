//! What holds between the packet types, their codes and the header bytes.

use vstd::prelude::*;
use crate::header::{flag_bits, lemma_nibbles, type_code, FLAG_MASK, TYPE_MASK};
use crate::packet_type::{EncodeError, PacketType};

verus! {

/// True of the bytes that carry an assigned type code over four clear flag
/// bits: `0x10`, `0x20` and so on up to `0xe0`.
pub open spec fn is_base_byte(byte: u8) -> bool {
    1 <= type_code(byte) <= 14 && flag_bits(byte) == 0
}

/// A type has the code `code` exactly when `code` is one of 1 to 14 and is
/// assigned to that type: `code` and `with_code` are each other's inverse.
pub proof fn lemma_code_assignment(t: PacketType, code: int)
    ensures
        t.code() == Some(code) <==> 1 <= code <= 14 && PacketType::with_code(code) == t,
        t.code() is None <==> t is Reserved,
{
}

/// No two types share a code.
pub proof fn lemma_code_is_unique(a: PacketType, b: PacketType)
    requires
        a.code() is Some,
        a.code() == b.code(),
    ensures
        a == b,
{
}

/// The base bytes are the bytes that some type encodes to.
pub proof fn lemma_base_bytes_are_the_encodings(byte: u8)
    ensures
        is_base_byte(byte) <==> exists|t: PacketType|
            #[trigger] t.spec_to_byte() == Ok::<u8, EncodeError>(byte),
{
    if is_base_byte(byte) {
        let t = PacketType::with_code(type_code(byte));
        assert(t.spec_to_byte() == Ok::<u8, EncodeError>(byte));
    }
}

/// Decoding a base byte gives a type other than `Reserved`, and encoding that
/// type gives the byte back.
pub proof fn lemma_decode_then_encode(byte: u8)
    requires
        is_base_byte(byte),
    ensures
        !(PacketType::spec_from_byte(byte) is Reserved),
        PacketType::spec_from_byte(byte).spec_to_byte() == Ok::<u8, EncodeError>(byte),
{
}

/// Encoding any type but `Reserved` gives a base byte, and decoding that byte
/// gives the type back.
pub proof fn lemma_encode_then_decode(t: PacketType)
    requires
        !(t is Reserved),
    ensures
        t.spec_to_byte() matches Ok(byte) && is_base_byte(byte) && PacketType::spec_from_byte(
            byte,
        ) == t,
{
}

/// Setting flag bits in a header byte does not change the type it decodes to.
pub proof fn lemma_flags_are_ignored(header: u8, flags: u8)
    requires
        flags <= FLAG_MASK,
    ensures
        PacketType::spec_from_byte(header | flags) == PacketType::spec_from_byte(header),
{
    assert((header | flags) / 16 == header / 16) by (bit_vector)
        requires
            flags <= 0x0f,
    ;
}

/// Two header bytes with the same type bits decode to the same type.
pub proof fn lemma_type_bits_decide(a: u8, b: u8)
    requires
        a & TYPE_MASK == b & TYPE_MASK,
    ensures
        PacketType::spec_from_byte(a) == PacketType::spec_from_byte(b),
{
    lemma_nibbles(a);
    lemma_nibbles(b);
}

/// A header byte decodes to `Reserved` exactly when its type bits are not a
/// base byte, so when no type encodes to them.
pub proof fn lemma_reserved_closure(header: u8)
    ensures
        PacketType::spec_from_byte(header) is Reserved <==> !is_base_byte(header & TYPE_MASK),
        PacketType::spec_from_byte(header) is Reserved <==> forall|t: PacketType|
            #[trigger] t.spec_to_byte() != Ok::<u8, EncodeError>(header & TYPE_MASK),
{
    lemma_nibbles(header);
    lemma_base_bytes_are_the_encodings(header & TYPE_MASK);
}

} // verus!
