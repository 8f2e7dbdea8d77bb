//! The packet types and their codes.

use vstd::prelude::*;
use crate::header::{flag_bits, lemma_nibbles, type_code, TYPE_MASK};

verus! {

/// A control packet type, or `Reserved` for a code that the protocol forbids.
#[derive(Clone, Copy, Debug, PartialEq, Eq, Hash, Structural)]
pub enum PacketType {
    Reserved,
    Connect,
    ConnAck,
    Publish,
    PubAck,
    PubRec,
    PubRel,
    PubComp,
    Subscribe,
    SubAck,
    Unsubscribe,
    UnsubAck,
    PingReq,
    PingResp,
    Disconnect,
}

/// Why a packet type has no header byte.
#[derive(Clone, Copy, Debug, PartialEq, Eq, Hash, Structural)]
pub enum EncodeError {
    /// The type is `Reserved`, which stands for no packet that can be sent.
    ReservedType,
}

impl PacketType {
    /// The four-bit code that the protocol assigns to the type. `Reserved`
    /// has none.
    pub open spec fn code(self) -> Option<int> {
        match self {
            PacketType::Reserved => None,
            PacketType::Connect => Some(1),
            PacketType::ConnAck => Some(2),
            PacketType::Publish => Some(3),
            PacketType::PubAck => Some(4),
            PacketType::PubRec => Some(5),
            PacketType::PubRel => Some(6),
            PacketType::PubComp => Some(7),
            PacketType::Subscribe => Some(8),
            PacketType::SubAck => Some(9),
            PacketType::Unsubscribe => Some(10),
            PacketType::UnsubAck => Some(11),
            PacketType::PingReq => Some(12),
            PacketType::PingResp => Some(13),
            PacketType::Disconnect => Some(14),
        }
    }

    /// The type that a code is assigned to, `Reserved` where it is assigned
    /// to none.
    pub open spec fn with_code(code: int) -> PacketType {
        if code == 1 {
            PacketType::Connect
        } else if code == 2 {
            PacketType::ConnAck
        } else if code == 3 {
            PacketType::Publish
        } else if code == 4 {
            PacketType::PubAck
        } else if code == 5 {
            PacketType::PubRec
        } else if code == 6 {
            PacketType::PubRel
        } else if code == 7 {
            PacketType::PubComp
        } else if code == 8 {
            PacketType::Subscribe
        } else if code == 9 {
            PacketType::SubAck
        } else if code == 10 {
            PacketType::Unsubscribe
        } else if code == 11 {
            PacketType::UnsubAck
        } else if code == 12 {
            PacketType::PingReq
        } else if code == 13 {
            PacketType::PingResp
        } else if code == 14 {
            PacketType::Disconnect
        } else {
            PacketType::Reserved
        }
    }

    /// What `to_byte` returns: the type's code in the high nibble over four
    /// clear flag bits, or the error for `Reserved`.
    pub open spec fn spec_to_byte(&self) -> Result<u8, EncodeError> {
        match self.code() {
            Some(code) => Ok((16 * code) as u8),
            None => Err(EncodeError::ReservedType),
        }
    }

    /// What `from_byte` returns: the type with the header's type code.
    pub open spec fn spec_from_byte(header: u8) -> PacketType {
        PacketType::with_code(type_code(header))
    }

    /// The header byte of the type with no flag set.
    #[verifier::when_used_as_spec(spec_to_byte)]
    pub fn to_byte(&self) -> (r: Result<u8, EncodeError>)
        ensures
            r == self.spec_to_byte(),
            r is Err <==> self is Reserved,
            r matches Ok(byte) ==> self.code() == Some(type_code(byte)) && flag_bits(byte) == 0,
    {
        match *self {
            PacketType::Connect => Ok(0x10),
            PacketType::ConnAck => Ok(0x20),
            PacketType::Publish => Ok(0x30),
            PacketType::PubAck => Ok(0x40),
            PacketType::PubRec => Ok(0x50),
            PacketType::PubRel => Ok(0x60),
            PacketType::PubComp => Ok(0x70),
            PacketType::Subscribe => Ok(0x80),
            PacketType::SubAck => Ok(0x90),
            PacketType::Unsubscribe => Ok(0xa0),
            PacketType::UnsubAck => Ok(0xb0),
            PacketType::PingReq => Ok(0xc0),
            PacketType::PingResp => Ok(0xd0),
            PacketType::Disconnect => Ok(0xe0),
            PacketType::Reserved => Err(EncodeError::ReservedType),
        }
    }

    /// The type that a header byte announces, whatever its flags.
    #[verifier::when_used_as_spec(spec_from_byte)]
    pub fn from_byte(header: u8) -> (t: PacketType)
        ensures
            t == PacketType::spec_from_byte(header),
            t == PacketType::spec_from_byte(header & TYPE_MASK),
            t is Reserved <==> type_code(header) == 0 || type_code(header) == 15,
    {
        proof {
            lemma_nibbles(header);
        }
        match header & TYPE_MASK {
            0x10 => PacketType::Connect,
            0x20 => PacketType::ConnAck,
            0x30 => PacketType::Publish,
            0x40 => PacketType::PubAck,
            0x50 => PacketType::PubRec,
            0x60 => PacketType::PubRel,
            0x70 => PacketType::PubComp,
            0x80 => PacketType::Subscribe,
            0x90 => PacketType::SubAck,
            0xa0 => PacketType::Unsubscribe,
            0xb0 => PacketType::UnsubAck,
            0xc0 => PacketType::PingReq,
            0xd0 => PacketType::PingResp,
            0xe0 => PacketType::Disconnect,
            _ => PacketType::Reserved,
        }
    }
}

} // verus!
