//! Control packet types of MQTT and their place in the fixed header.
//!
//! The first byte of every MQTT packet holds a four-bit type code in its high
//! nibble and four flag bits in its low nibble. This crate maps between the
//! type codes and [`PacketType`]; the flag bits are the caller's business.

pub mod header;
pub mod laws;
pub mod packet_type;

pub use packet_type::{EncodeError, PacketType};
