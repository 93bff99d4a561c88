//! Option identifiers of the IoT layer, used to tell descriptors and the
//! forms of a value apart on the wire. All have the high bit set.
use vstd::prelude::*;

verus! {

/// An endpoint descriptor: the code of the endpoint kind and the flags.
pub const ENDPOINT_DESCRIPTOR: u16 = 0x8001;

/// The boolean value `false`; no payload.
pub const VALUE_BOOL_FALSE: u16 = 0x8002;

/// The boolean value `true`; no payload.
pub const VALUE_BOOL_TRUE: u16 = 0x8003;

/// A 32-bit floating point value, little-endian.
pub const VALUE_FLOAT: u16 = 0x8004;

/// A 32-bit integer value, little-endian.
pub const VALUE_INT: u16 = 0x8005;

/// A text, as UTF-8 bytes.
pub const VALUE_STRING: u16 = 0x8006;

/// Raw bytes.
pub const VALUE_RAW: u16 = 0x8007;

/// A colour, as a 32-bit number laid out as `0x00RRGGBB`, little-endian.
pub const VALUE_RGB: u16 = 0x8008;

/// Payload length of an endpoint descriptor.
pub const ENDPOINT_DESCRIPTOR_LEN: usize = 4;

} // verus!
