//! The wire format of one attribute, as mathematics: a 16-bit length and a
//! 16-bit kind in the byte order of the host, the value, and zero bytes up to
//! the next multiple of four. Which byte order the host has is left open, as
//! `vstd::endian::endianness` leaves it: what is proved holds on either.

use vstd::prelude::*;
use vstd::endian::Endian;
use vstd::endian::endianness;
use crate::constants::NLA_F_NESTED;
use crate::constants::NLA_MAX_VALUE_LEN;
use crate::constants::NLA_TYPE_MASK;

verus! {

/// The number that the host reads from two bytes, given in memory order.
pub open spec fn host_u16(b0: u8, b1: u8) -> u16 {
    match endianness() {
        Endian::Little => (b0 + 256 * b1) as u16,
        Endian::Big => (256 * b0 + b1) as u16,
    }
}

/// The two bytes, in memory order, that the host writes for a number.
pub open spec fn host_bytes(x: u16) -> Seq<u8> {
    match endianness() {
        Endian::Little => seq![(x % 256) as u8, (x / 256) as u8],
        Endian::Big => seq![(x / 256) as u8, (x % 256) as u8],
    }
}

/// The number that two bytes spell in network byte order.
pub open spec fn be_u16(b0: u8, b1: u8) -> u16 {
    (256 * b0 + b1) as u16
}

/// The two bytes of a number in network byte order.
pub open spec fn be_bytes(x: u16) -> Seq<u8> {
    seq![(x / 256) as u8, (x % 256) as u8]
}

/// How many padding bytes follow a value of `n` bytes.
pub open spec fn pad_len(n: nat) -> nat {
    ((4 - n % 4) % 4) as nat
}

/// `n` rounded up to the next multiple of four.
pub open spec fn align(n: nat) -> nat {
    n + pad_len(n)
}

/// `n` zero bytes.
pub open spec fn zeros(n: nat) -> Seq<u8> {
    Seq::new(n, |i: int| 0u8)
}

/// What the length field holds for a value of `n` bytes: header and value,
/// never the padding.
pub open spec fn length_field(n: nat) -> u16 {
    ((n + 4) % 0x1_0000) as u16
}

/// The bytes of an attribute with the given kind field and value.
pub open spec fn frame(kind: u16, value: Seq<u8>) -> Seq<u8> {
    host_bytes(length_field(value.len())) + host_bytes(kind) + value + zeros(pad_len(value.len()))
}

/// The length that the attribute at the start of `b` declares.
pub open spec fn declared_len(b: Seq<u8>) -> nat {
    host_u16(b[0], b[1]) as nat
}

/// Whether `b` starts with a whole attribute: a header, and a declared
/// length that covers the header and stays within `b`.
pub open spec fn is_attribute(b: Seq<u8>) -> bool {
    b.len() >= 4 && 4 <= declared_len(b) <= b.len()
}

/// The kind field of the attribute at the start of `b`, flag bits included.
pub open spec fn kind_field(b: Seq<u8>) -> u16 {
    host_u16(b[2], b[3])
}

/// The value of the attribute at the start of `b`.
pub open spec fn value_field(b: Seq<u8>) -> Seq<u8> {
    b.subrange(4, declared_len(b) as int)
}

/// How many bytes of `b` its first attribute takes up, padding included. A
/// last attribute may lack its padding.
pub open spec fn footprint(b: Seq<u8>) -> nat {
    if align(declared_len(b)) <= b.len() {
        align(declared_len(b))
    } else {
        b.len()
    }
}

/// A kind code without flag bits is its own kind, with or without the
/// nested flag, and carries no nested flag of its own.
pub proof fn lemma_kind_code(code: u16)
    requires
        code <= NLA_TYPE_MASK,
    ensures
        code & NLA_TYPE_MASK == code,
        (code | NLA_F_NESTED) & NLA_TYPE_MASK == code,
        code & NLA_F_NESTED == 0,
{
    assert(code <= 0x3fff ==> code & 0x3fff == code && (code | 0x8000) & 0x3fff == code && code
        & 0x8000 == 0) by (bit_vector);
}

/// Setting a flag that is set changes nothing.
pub proof fn lemma_nested_flag_set(kind: u16)
    requires
        kind & NLA_F_NESTED != 0,
    ensures
        kind | NLA_F_NESTED == kind,
{
    assert(kind & 0x8000 != 0 ==> kind | 0x8000 == kind) by (bit_vector);
}

/// Writing a number in host order and reading it back gives the number.
pub proof fn lemma_host_u16_of_bytes(x: u16)
    ensures
        host_bytes(x).len() == 2,
        host_u16(host_bytes(x)[0], host_bytes(x)[1]) == x,
{
}

/// Reading two bytes in host order and writing the number gives the bytes.
pub proof fn lemma_host_bytes_of_u16(b0: u8, b1: u8)
    ensures
        host_bytes(host_u16(b0, b1)) == seq![b0, b1],
{
    assert(host_bytes(host_u16(b0, b1)) =~= seq![b0, b1]);
}

/// Network byte order loses nothing either way.
pub proof fn lemma_be_u16_of_bytes(x: u16)
    ensures
        be_bytes(x).len() == 2,
        be_u16(be_bytes(x)[0], be_bytes(x)[1]) == x,
{
}

/// The footprint of an attribute is a multiple of four and holds fewer than
/// four padding bytes.
pub proof fn lemma_frame_len(kind: u16, value: Seq<u8>)
    ensures
        frame(kind, value).len() == 4 + align(value.len()),
        frame(kind, value).len() % 4 == 0,
        value.len() <= align(value.len()) < value.len() + 4,
        value.len() % 4 == 0 ==> align(value.len()) == value.len(),
{
}

/// An attribute that was written is read back as it was, whatever follows
/// it: the length field declares header and value without the padding, kind
/// and value come back, and the footprint ends where the next attribute
/// starts.
pub proof fn lemma_frame_reads(kind: u16, value: Seq<u8>, rest: Seq<u8>)
    requires
        value.len() <= NLA_MAX_VALUE_LEN,
    ensures
        is_attribute(frame(kind, value) + rest),
        declared_len(frame(kind, value) + rest) == 4 + value.len(),
        kind_field(frame(kind, value) + rest) == kind,
        value_field(frame(kind, value) + rest) == value,
        footprint(frame(kind, value) + rest) == frame(kind, value).len(),
        (frame(kind, value) + rest).skip(footprint(frame(kind, value) + rest) as int) == rest,
{
    let f = frame(kind, value);
    let b = f + rest;
    let l = host_bytes(length_field(value.len()));
    let k = host_bytes(kind);
    lemma_host_u16_of_bytes(length_field(value.len()));
    lemma_host_u16_of_bytes(kind);
    assert(b[0] == l[0] && b[1] == l[1]);
    assert(b[2] == k[0] && b[3] == k[1]);
    assert(value_field(b) =~= value);
    assert(b.skip(f.len() as int) =~= rest);
}

/// Framing the kind field and the value of an attribute gives its bytes
/// back, up to the declared length, and zero bytes for the padding.
pub proof fn lemma_frame_of_fields(b: Seq<u8>)
    requires
        is_attribute(b),
    ensures
        frame(kind_field(b), value_field(b)) == b.subrange(0, declared_len(b) as int) + zeros(
            pad_len((declared_len(b) - 4) as nat),
        ),
{
    let n = declared_len(b);
    lemma_host_bytes_of_u16(b[0], b[1]);
    lemma_host_bytes_of_u16(b[2], b[3]);
    assert(length_field(value_field(b).len()) == host_u16(b[0], b[1]));
    assert(frame(kind_field(b), value_field(b)) =~= b.subrange(0, n as int) + zeros(
        pad_len((n - 4) as nat),
    ));
}

} // verus!
