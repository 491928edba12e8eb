//! What this library takes on trust from `netlink_packet_core`: the types it
//! carries through, and the contracts of the functions it calls. Nothing in
//! this file is proved; every contract restates what the source of that
//! crate shows.

use vstd::prelude::*;
use netlink_packet_core::DecodeError;
use netlink_packet_core::DefaultNla;
use netlink_packet_core::Nla;
use netlink_packet_core::NlaBuffer;
use netlink_packet_core::NlasIterator;
use netlink_packet_core::Parseable;
use crate::constants::NLA_TYPE_MASK;
use crate::nla::OpaqueNla;
use crate::wire::be_bytes;
use crate::wire::be_u16;
use crate::wire::declared_len;
use crate::wire::footprint;
use crate::wire::host_bytes;
use crate::wire::is_attribute;
use crate::wire::kind_field;
use crate::wire::value_field;

verus! {

/// `netlink_packet_core::DecodeError`: a message text that verified code
/// never reads.
#[verifier::external_type_specification]
#[verifier::external_body]
pub struct ExDecodeError(DecodeError);

/// `netlink_packet_core::NlasIterator`: a buffer and a position in it.
#[verifier::external_type_specification]
#[verifier::external_body]
#[verifier::reject_recursive_types(T)]
pub struct ExNlasIterator<T>(NlasIterator<T>);

/// The bytes of its buffer that an `NlasIterator` has yet to pass: those
/// from its position on, none once the position has reached the end.
pub uninterp spec fn nlas_rest(it: NlasIterator<&[u8]>) -> Seq<u8>;

/// `NlasIterator::new`: the iterator starts at the first byte of `payload`.
#[verifier::external_body]
pub(crate) fn nlas_iter<'a>(payload: &'a [u8]) -> (it: NlasIterator<&'a [u8]>)
    ensures
        nlas_rest(it) == payload@,
{
    NlasIterator::new(payload)
}

/// `NlasIterator::next`. With no bytes left it returns `None`. Where the
/// bytes left do not start with a whole attribute it returns an error and
/// gives up the rest. Otherwise it hands out the bytes left, which start with
/// the attribute, and moves on by the attribute's footprint.
#[verifier::external_body]
pub(crate) fn nlas_next<'a>(it: &mut NlasIterator<&'a [u8]>) -> (r: Option<
    Result<&'a [u8], DecodeError>,
>)
    ensures
        r is None <==> nlas_rest(*old(it)).len() == 0,
        r is None ==> nlas_rest(*final(it)) == nlas_rest(*old(it)),
        r matches Some(Ok(_)) <==> nlas_rest(*old(it)).len() > 0 && is_attribute(
            nlas_rest(*old(it)),
        ),
        r matches Some(Ok(b)) ==> b@ == nlas_rest(*old(it)) && nlas_rest(*final(it)) == nlas_rest(
            *old(it),
        ).skip(footprint(nlas_rest(*old(it))) as int),
        r matches Some(Err(_)) ==> nlas_rest(*final(it)).len() == 0,
{
    match it.next() {
        Some(Ok(nla)) => Some(Ok(nla.into_inner())),
        Some(Err(e)) => Some(Err(e)),
        None => None,
    }
}

/// `NlaBuffer::new_checked`: succeeds exactly on bytes that hold a header
/// and declare a length that covers the header and stays within the bytes.
#[verifier::external_body]
pub(crate) fn nla_check(bytes: &[u8]) -> (r: Result<(), DecodeError>)
    ensures
        r is Ok <==> is_attribute(bytes@),
{
    match NlaBuffer::new_checked(bytes) {
        Ok(_) => Ok(()),
        Err(e) => Err(e),
    }
}

/// `NlaBuffer::kind`: the kind field, read in host order, without its two
/// flag bits.
#[verifier::external_body]
pub(crate) fn nla_kind(bytes: &[u8]) -> (k: u16)
    requires
        bytes@.len() >= 4,
    ensures
        k == kind_field(bytes@) & NLA_TYPE_MASK,
{
    NlaBuffer::new(bytes).kind()
}

/// `NlaBuffer::value_length`: the declared length, read in host order,
/// less the four bytes of the header.
#[verifier::external_body]
pub(crate) fn nla_value_length(bytes: &[u8]) -> (n: usize)
    requires
        is_attribute(bytes@),
    ensures
        n == declared_len(bytes@) - 4,
{
    NlaBuffer::new(bytes).value_length()
}

/// `DefaultNla::parse`: always succeeds and keeps the whole kind field, flag
/// bits included, and the value bytes. The fields of the result are read
/// back through its `kind`, `value_len` and `emit_value`.
#[verifier::external_body]
pub(crate) fn default_nla(bytes: &[u8]) -> (r: Result<OpaqueNla, DecodeError>)
    requires
        is_attribute(bytes@),
    ensures
        r is Ok,
        r matches Ok(nla) ==> nla.kind == kind_field(bytes@) && nla.value@ == value_field(bytes@),
{
    match DefaultNla::parse(&NlaBuffer::new(bytes)) {
        Ok(nla) => {
            let mut value = vec![0u8; nla.value_len()];
            nla.emit_value(&mut value);
            Ok(OpaqueNla { kind: nla.kind(), value })
        },
        Err(e) => Err(e),
    }
}

/// `parse_u8`: the one byte of a one-byte payload, an error for any other
/// length.
pub assume_specification[ netlink_packet_core::parse_u8 ](payload: &[u8]) -> (r: Result<
    u8,
    DecodeError,
>)
    ensures
        r is Ok <==> payload@.len() == 1,
        r matches Ok(v) ==> v == payload@[0],
;

/// `parse_u16_be`: the number that a two-byte payload spells in network
/// byte order, an error for any other length.
pub assume_specification[ netlink_packet_core::parse_u16_be ](payload: &[u8]) -> (r: Result<
    u16,
    DecodeError,
>)
    ensures
        r is Ok <==> payload@.len() == 2,
        r matches Ok(v) ==> v == be_u16(payload@[0], payload@[1]),
;

/// `emit_u16_be`: writes the number into the first two bytes in network
/// byte order and leaves the others; fails, writing nothing, on fewer than
/// two bytes.
pub assume_specification[ netlink_packet_core::emit_u16_be ](buf: &mut [u8], value: u16) -> (r:
    Result<(), DecodeError>)
    ensures
        r is Ok <==> old(buf)@.len() >= 2,
        r is Ok ==> final(buf)@ == be_bytes(value) + old(buf)@.skip(2),
        r is Err ==> final(buf)@ == old(buf)@,
;

/// `emit_u16`: writes the number into the first two bytes in host order and
/// leaves the others; fails, writing nothing, on fewer than two bytes.
pub assume_specification[ netlink_packet_core::emit_u16 ](buf: &mut [u8], value: u16) -> (r:
    Result<(), DecodeError>)
    ensures
        r is Ok <==> old(buf)@.len() >= 2,
        r is Ok ==> final(buf)@ == host_bytes(value) + old(buf)@.skip(2),
        r is Err ==> final(buf)@ == old(buf)@,
;

} // verus!
