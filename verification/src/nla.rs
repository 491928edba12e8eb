//! Attributes in general: what every kind of attribute has in common, how
//! one is written, and what holds of writing and reading one.

use vstd::prelude::*;
use crate::constants::NLA_F_NESTED;
use crate::constants::NLA_HEADER_SIZE;
use crate::constants::NLA_MAX_VALUE_LEN;
use crate::constants::NLA_TYPE_MASK;
use crate::error::Cause;
use crate::error::ParseError;
use crate::packet_core::default_nla;
use crate::packet_core::nla_check;
use crate::packet_core::nla_kind;
use crate::packet_core::nla_value_length;
use crate::wire::align;
use crate::wire::declared_len;
use crate::wire::frame;
use crate::wire::is_attribute;
use crate::wire::kind_field;
use crate::wire::lemma_frame_len;
use crate::wire::lemma_frame_of_fields;
use crate::wire::lemma_frame_reads;
use crate::wire::lemma_nested_flag_set;
use crate::wire::pad_len;
use crate::wire::value_field;
use crate::wire::zeros;

verus! {

/// Bytes that start with one whole attribute; more may follow it.
pub struct NlaSlice<'a> {
    bytes: &'a [u8],
}

impl<'a> View for NlaSlice<'a> {
    type V = Seq<u8>;

    closed spec fn view(&self) -> Seq<u8> {
        self.bytes@
    }
}

impl<'a> NlaSlice<'a> {
    #[verifier::type_invariant]
    spec fn starts_with_attribute(self) -> bool {
        is_attribute(self.bytes@)
    }

    /// Accepts `bytes` where they start with a whole attribute.
    pub fn new_checked(bytes: &'a [u8]) -> (r: Result<NlaSlice<'a>, ParseError>)
        ensures
            r is Ok <==> is_attribute(bytes@),
            r matches Ok(s) ==> s@ == bytes@,
            r matches Err(e) ==> e == ParseError::framing(None),
    {
        match nla_check(bytes) {
            Ok(()) => Ok(NlaSlice { bytes }),
            Err(_) => Err(ParseError { attribute: None, cause: Cause::Framing }),
        }
    }

    /// Takes `bytes` that are known to start with a whole attribute.
    pub(crate) fn from_attribute(bytes: &'a [u8]) -> (s: NlaSlice<'a>)
        requires
            is_attribute(bytes@),
        ensures
            s@ == bytes@,
    {
        NlaSlice { bytes }
    }

    /// The bytes themselves, which start with a whole attribute.
    pub fn bytes(&self) -> (b: &'a [u8])
        ensures
            b@ == self@,
            is_attribute(self@),
    {
        proof {
            use_type_invariant(self);
        }
        self.bytes
    }

    /// The kind of the attribute, without the flag bits.
    pub fn kind(&self) -> (k: u16)
        ensures
            k == kind_field(self@) & NLA_TYPE_MASK,
    {
        proof {
            use_type_invariant(self);
        }
        nla_kind(self.bytes)
    }

    /// The value of the attribute.
    pub fn value(&self) -> (v: &'a [u8])
        ensures
            v@ == value_field(self@),
    {
        proof {
            use_type_invariant(self);
        }
        let value_len = nla_value_length(self.bytes);
        vstd::slice::slice_subrange(self.bytes, NLA_HEADER_SIZE, NLA_HEADER_SIZE + value_len)
    }
}

/// An attribute that is kept as it came: the kind field, flag bits
/// included, and the raw value.
#[derive(Clone, Debug, PartialEq, Eq)]
pub struct OpaqueNla {
    pub kind: u16,
    pub value: Vec<u8>,
}

/// The model of an [`OpaqueNla`].
pub struct OpaqueNlaView {
    pub kind: u16,
    pub value: Seq<u8>,
}

impl DeepView for OpaqueNla {
    type V = OpaqueNlaView;

    open spec fn deep_view(&self) -> OpaqueNlaView {
        OpaqueNlaView { kind: self.kind, value: self.value@ }
    }
}

impl OpaqueNla {
    /// An attribute with the given kind field and value.
    pub fn new(kind: u16, value: Vec<u8>) -> (nla: OpaqueNla)
        ensures
            nla.deep_view() == (OpaqueNlaView { kind, value: value@ }),
    {
        OpaqueNla { kind, value }
    }
}

/// What a decode returned, with the value replaced by its model.
pub open spec fn model<T: DeepView>(r: Result<T, ParseError>) -> Result<T::V, ParseError> {
    match r {
        Ok(nla) => Ok(nla.deep_view()),
        Err(e) => Err(e),
    }
}

/// One kind of attribute: a typed value with a kind code, a value encoding
/// and a decoder from kind field and value bytes. The `spec` functions are
/// the mathematical model, stated over the model of the type; the
/// executable functions are verified against them.
pub trait Nla: DeepView + Sized {
    /// The kind code of `v`. An attribute that is kept as it came carries
    /// its flag bits in it.
    spec fn kind_of(v: Self::V) -> u16;

    /// Whether `v` reports a value that is itself a sequence of attributes.
    spec fn nested_of(v: Self::V) -> bool;

    /// The bytes of the value of `v`.
    spec fn value_of(v: Self::V) -> Seq<u8>;

    /// Whether `v` can be written: its value, and every value inside it, is
    /// short enough for the 16-bit length field.
    spec fn encodable_of(v: Self::V) -> bool;

    /// The attribute that a kind field and a value decode to.
    spec fn decode(kind: u16, value: Seq<u8>) -> Result<Self::V, ParseError>;

    /// Whether the decoder interprets the kind code `code`, a kind field
    /// without its flag bits. Every other kind is kept as it came.
    spec fn interprets(code: u16) -> bool;

    /// The attribute that keeps `nla` as it came.
    spec fn opaque(nla: OpaqueNlaView) -> Self::V;

    /// Whether `v` is its own decoding: nothing in it that is kept as it
    /// came carries a kind code that the decoder interprets.
    spec fn canonical(v: Self::V) -> bool;

    /// The number of bytes of the value.
    fn value_len(&self) -> (n: usize)
        requires
            Self::encodable_of(self.deep_view()),
        ensures
            n == Self::value_of(self.deep_view()).len(),
    ;

    /// The kind code.
    fn kind(&self) -> (k: u16)
        ensures
            k == Self::kind_of(self.deep_view()),
    ;

    /// Whether the value is itself a sequence of attributes.
    fn is_nested(&self) -> (b: bool)
        ensures
            b == Self::nested_of(self.deep_view()),
    ;

    /// Writes the value into `buffer`, which has exactly its length.
    fn emit_value(&self, buffer: &mut [u8])
        requires
            Self::encodable_of(self.deep_view()),
            old(buffer)@.len() == Self::value_of(self.deep_view()).len(),
        ensures
            final(buffer)@ == Self::value_of(self.deep_view()),
    ;

    /// Decodes the attribute at the start of `buf`.
    fn parse(buf: &NlaSlice) -> (r: Result<Self, ParseError>)
        ensures
            model(r) == Self::decode(kind_field(buf@), value_field(buf@)),
    ;

    /// Tells whether the attribute can be written.
    fn encodable(&self) -> (b: bool)
        ensures
            b == Self::encodable_of(self.deep_view()),
    ;

    /// The value of an attribute that can be written fits the length field.
    proof fn lemma_value_fits(v: Self::V)
        requires
            Self::encodable_of(v),
        ensures
            Self::value_of(v).len() <= NLA_MAX_VALUE_LEN,
    ;

    /// An attribute of a kind that the decoder does not interpret is never
    /// refused: it is kept with its whole kind field and its value.
    proof fn lemma_unknown_kind(kind: u16, value: Seq<u8>)
        requires
            !Self::interprets(kind & NLA_TYPE_MASK),
        ensures
            Self::decode(kind, value) == Ok::<Self::V, ParseError>(
                Self::opaque(OpaqueNlaView { kind, value }),
            ),
            Self::kind_of(Self::opaque(OpaqueNlaView { kind, value })) == kind,
            Self::value_of(Self::opaque(OpaqueNlaView { kind, value })) == value,
            Self::nested_of(Self::opaque(OpaqueNlaView { kind, value })) ==> kind & NLA_F_NESTED
                != 0,
            Self::canonical(Self::opaque(OpaqueNlaView { kind, value })),
    ;

    /// Whatever the decoder returns is its own decoding.
    proof fn lemma_decode_canonical(kind: u16, value: Seq<u8>)
        ensures
            Self::decode(kind, value) matches Ok(v) ==> Self::canonical(v),
    ;

    /// Decoding the kind field and the value that an attribute is written
    /// with gives the attribute back.
    proof fn lemma_decode_encode(v: Self::V)
        requires
            Self::encodable_of(v),
            Self::canonical(v),
        ensures
            Self::decode(
                if Self::nested_of(v) {
                    Self::kind_of(v) | NLA_F_NESTED
                } else {
                    Self::kind_of(v)
                },
                Self::value_of(v),
            ) == Ok::<Self::V, ParseError>(v),
    ;
}

/// The kind field of `v` on the wire: its kind code, with the nested flag
/// where it reports a value made of attributes.
pub open spec fn wire_kind<T: Nla>(v: T::V) -> u16 {
    if T::nested_of(v) {
        T::kind_of(v) | NLA_F_NESTED
    } else {
        T::kind_of(v)
    }
}

/// The bytes of `v` on the wire: header, value and padding.
pub open spec fn encode<T: Nla>(v: T::V) -> Seq<u8> {
    frame(wire_kind::<T>(v), T::value_of(v))
}

/// What can be written into a buffer that the caller has sized for it.
pub trait Emitable {
    /// The bytes that are written.
    spec fn encoding(&self) -> Seq<u8>;

    /// Whether the value can be written at all.
    spec fn emittable(&self) -> bool;

    /// The number of bytes that are written.
    fn buffer_len(&self) -> (n: usize)
        requires
            self.emittable(),
        ensures
            n == self.encoding().len(),
    ;

    /// Writes the value at the start of `buffer`, which has at least its
    /// length. What follows the value stays.
    fn emit(&self, buffer: &mut [u8])
        requires
            self.emittable(),
            old(buffer)@.len() >= self.encoding().len(),
        ensures
            final(buffer)@ == self.encoding() + old(buffer)@.skip(self.encoding().len() as int),
    ;
}

/// Every attribute is written the same way: the length of header and value,
/// the kind with its nested flag, the value, and zero bytes up to the next
/// multiple of four.
impl<T: Nla> Emitable for T {
    open spec fn encoding(&self) -> Seq<u8> {
        encode::<T>(self.deep_view())
    }

    open spec fn emittable(&self) -> bool {
        T::encodable_of(self.deep_view())
    }

    fn buffer_len(&self) -> (n: usize) {
        proof {
            assert(self.emittable() == T::encodable_of(self.deep_view()));
            assert(self.encoding() == encode::<T>(self.deep_view()));
            T::lemma_value_fits(self.deep_view());
        }
        let value_len = self.value_len();
        value_len + (4 - value_len % 4) % 4 + NLA_HEADER_SIZE
    }

    fn emit(&self, buffer: &mut [u8]) {
        proof {
            assert(self.emittable() == T::encodable_of(self.deep_view()));
            assert(self.encoding() == encode::<T>(self.deep_view()));
            T::lemma_value_fits(self.deep_view());
        }
        let value_len = self.value_len();
        let kind = if self.is_nested() {
            self.kind() | NLA_F_NESTED
        } else {
            self.kind()
        };
        let padding = (4 - value_len % 4) % 4;
        let (header, body) = buffer.split_at_mut(NLA_HEADER_SIZE);
        let (length_bytes, kind_bytes) = header.split_at_mut(2);
        // do not include the padding here, but do include the header
        netlink_packet_core::emit_u16(length_bytes, (value_len + NLA_HEADER_SIZE) as u16).unwrap();
        netlink_packet_core::emit_u16(kind_bytes, kind).unwrap();
        let (value, tail) = body.split_at_mut(value_len);
        self.emit_value(value);
        if padding > 0 {
            tail[0] = 0;
        }
        if padding > 1 {
            tail[1] = 0;
        }
        if padding > 2 {
            tail[2] = 0;
        }
        proof {
            let written = encode::<T>(self.deep_view());
            assert(buffer@ =~= written + old(buffer)@.skip(written.len() as int));
        }
    }
}

/// Copies `src` into `dst`, which has the same length.
pub fn copy_bytes(src: &[u8], dst: &mut [u8])
    requires
        old(dst)@.len() == src@.len(),
    ensures
        final(dst)@ == src@,
{
    let mut i: usize = 0;
    while i < src.len()
        invariant
            dst@.len() == src@.len(),
            i <= src@.len(),
            dst@.take(i as int) == src@.take(i as int),
        decreases src@.len() - i,
    {
        dst[i] = src[i];
        i = i + 1;
        assert(dst@.take(i as int) =~= src@.take(i as int));
    }
    assert(dst@ =~= dst@.take(i as int));
    assert(src@ =~= src@.take(i as int));
}

/// The attribute that interprets nothing: every kind is kept as it came.
impl Nla for OpaqueNla {
    open spec fn kind_of(v: OpaqueNlaView) -> u16 {
        v.kind
    }

    open spec fn nested_of(v: OpaqueNlaView) -> bool {
        v.kind & NLA_F_NESTED != 0
    }

    open spec fn value_of(v: OpaqueNlaView) -> Seq<u8> {
        v.value
    }

    open spec fn encodable_of(v: OpaqueNlaView) -> bool {
        v.value.len() <= NLA_MAX_VALUE_LEN
    }

    open spec fn decode(kind: u16, value: Seq<u8>) -> Result<OpaqueNlaView, ParseError> {
        Ok(OpaqueNlaView { kind, value })
    }

    open spec fn interprets(code: u16) -> bool {
        false
    }

    open spec fn opaque(nla: OpaqueNlaView) -> OpaqueNlaView {
        nla
    }

    open spec fn canonical(v: OpaqueNlaView) -> bool {
        true
    }

    fn value_len(&self) -> (n: usize) {
        self.value.len()
    }

    fn kind(&self) -> (k: u16) {
        self.kind
    }

    fn is_nested(&self) -> (b: bool) {
        (self.kind & NLA_F_NESTED) != 0
    }

    fn emit_value(&self, buffer: &mut [u8]) {
        copy_bytes(self.value.as_slice(), buffer);
    }

    fn parse(buf: &NlaSlice) -> (r: Result<OpaqueNla, ParseError>) {
        match default_nla(buf.bytes()) {
            Ok(nla) => Ok(nla),
            Err(_) => Err(ParseError { attribute: None, cause: Cause::Framing }),
        }
    }

    fn encodable(&self) -> (b: bool) {
        self.value.len() <= NLA_MAX_VALUE_LEN
    }

    proof fn lemma_value_fits(v: OpaqueNlaView) {
    }

    proof fn lemma_unknown_kind(kind: u16, value: Seq<u8>) {
    }

    proof fn lemma_decode_canonical(kind: u16, value: Seq<u8>) {
    }

    proof fn lemma_decode_encode(v: OpaqueNlaView) {
        if v.kind & NLA_F_NESTED != 0 {
            lemma_nested_flag_set(v.kind);
        }
    }
}

/// Reading an attribute that was written gives the attribute back.
pub proof fn lemma_decode_encode_bytes<T: Nla>(v: T::V)
    requires
        T::encodable_of(v),
        T::canonical(v),
    ensures
        is_attribute(encode::<T>(v)),
        T::decode(kind_field(encode::<T>(v)), value_field(encode::<T>(v))) == Ok::<
            T::V,
            ParseError,
        >(v),
{
    T::lemma_value_fits(v);
    T::lemma_decode_encode(v);
    lemma_frame_reads(wire_kind::<T>(v), T::value_of(v), Seq::empty());
    assert(encode::<T>(v) + Seq::<u8>::empty() =~= encode::<T>(v));
}

/// The length field of a written attribute declares the header and the
/// value, never the padding; the footprint is that length rounded up to the
/// next multiple of four.
pub proof fn lemma_length_field<T: Nla>(v: T::V, rest: Seq<u8>)
    requires
        T::encodable_of(v),
    ensures
        declared_len(encode::<T>(v) + rest) == 4 + T::value_of(v).len(),
        encode::<T>(v).len() == align(declared_len(encode::<T>(v) + rest)),
        encode::<T>(v).len() % 4 == 0,
        declared_len(encode::<T>(v) + rest) <= encode::<T>(v).len() < declared_len(
            encode::<T>(v) + rest,
        ) + 4,
{
    T::lemma_value_fits(v);
    lemma_frame_len(wire_kind::<T>(v), T::value_of(v));
    lemma_frame_reads(wire_kind::<T>(v), T::value_of(v), rest);
}

/// An attribute of a kind that the decoder does not interpret is kept, and
/// writing what was kept gives the bytes of the attribute back, flag bits
/// included, followed by zero bytes for the padding.
pub proof fn lemma_unknown_kind_preserved<T: Nla>(b: Seq<u8>)
    requires
        is_attribute(b),
        !T::interprets(kind_field(b) & NLA_TYPE_MASK),
    ensures
        T::decode(kind_field(b), value_field(b)) == Ok::<T::V, ParseError>(
            T::opaque(OpaqueNlaView { kind: kind_field(b), value: value_field(b) }),
        ),
        encode::<T>(T::opaque(OpaqueNlaView { kind: kind_field(b), value: value_field(b) }))
            == b.subrange(0, declared_len(b) as int) + zeros(
            pad_len((declared_len(b) - 4) as nat),
        ),
{
    let kind = kind_field(b);
    T::lemma_unknown_kind(kind, value_field(b));
    lemma_frame_of_fields(b);
    if kind & NLA_F_NESTED != 0 {
        lemma_nested_flag_set(kind);
    }
}

} // verus!
