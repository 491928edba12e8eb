//! Values of fixed width: one byte, or sixteen bits in network byte order.

use vstd::prelude::*;
use crate::error::Attribute;
use crate::error::Cause;
use crate::error::ParseError;
use crate::wire::be_bytes;
use crate::wire::be_u16;

verus! {

/// The byte that the value of `attribute` holds: the value must be one byte
/// long.
pub open spec fn decode_u8(value: Seq<u8>, attribute: Attribute) -> Result<u8, ParseError> {
    if value.len() == 1 {
        Ok(value[0])
    } else {
        Err(ParseError::value_length(attribute))
    }
}

/// The number that the value of `attribute` holds in network byte order:
/// the value must be two bytes long.
pub open spec fn decode_u16_be(value: Seq<u8>, attribute: Attribute) -> Result<u16, ParseError> {
    if value.len() == 2 {
        Ok(be_u16(value[0], value[1]))
    } else {
        Err(ParseError::value_length(attribute))
    }
}

/// Reads the one-byte value of `attribute`.
pub fn read_u8(payload: &[u8], attribute: Attribute) -> (r: Result<u8, ParseError>)
    ensures
        r == decode_u8(payload@, attribute),
{
    match netlink_packet_core::parse_u8(payload) {
        Ok(v) => Ok(v),
        Err(_) => Err(ParseError { attribute: Some(attribute), cause: Cause::ValueLength }),
    }
}

/// Reads the two-byte value of `attribute`, a number in network byte order.
pub fn read_u16_be(payload: &[u8], attribute: Attribute) -> (r: Result<u16, ParseError>)
    ensures
        r == decode_u16_be(payload@, attribute),
{
    match netlink_packet_core::parse_u16_be(payload) {
        Ok(v) => Ok(v),
        Err(_) => Err(ParseError { attribute: Some(attribute), cause: Cause::ValueLength }),
    }
}

/// Writes one byte as a whole value.
pub fn write_u8(buffer: &mut [u8], value: u8)
    requires
        old(buffer)@.len() == 1,
    ensures
        final(buffer)@ == seq![value],
{
    buffer[0] = value;
    assert(buffer@ =~= seq![value]);
}

/// Writes a number as a whole value, in network byte order.
pub fn write_u16_be(buffer: &mut [u8], value: u16)
    requires
        old(buffer)@.len() == 2,
    ensures
        final(buffer)@ == be_bytes(value),
{
    netlink_packet_core::emit_u16_be(buffer, value).unwrap();
    assert(buffer@ =~= be_bytes(value));
}

} // verus!
