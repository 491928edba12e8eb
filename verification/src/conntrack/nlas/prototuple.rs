//! The members of the protocol group of a tuple: protocol number and ports.

use vstd::prelude::*;
use vstd::std_specs::convert::FromSpecImpl;
use crate::constants::CTA_PROTO_DST_PORT;
use crate::constants::CTA_PROTO_NUM;
use crate::constants::CTA_PROTO_SRC_PORT;
use crate::constants::NLA_F_NESTED;
use crate::constants::NLA_TYPE_MASK;
use crate::error::Attribute;
use crate::error::ParseError;
use crate::nla::Nla;
use crate::nla::NlaSlice;
use crate::nla::OpaqueNla;
use crate::nla::OpaqueNlaView;
use crate::value::decode_u16_be;
use crate::value::decode_u8;
use crate::value::read_u16_be;
use crate::value::read_u8;
use crate::value::write_u16_be;
use crate::value::write_u8;
use crate::wire::be_bytes;
use crate::wire::lemma_be_u16_of_bytes;
use crate::wire::lemma_kind_code;
use crate::wire::lemma_nested_flag_set;

verus! {

/// A member of the protocol group.
#[derive(Clone, Debug, PartialEq, Eq)]
pub enum ProtoTuple {
    /// The number of the transport protocol.
    Protocol(u8),
    /// The source port.
    SourcePort(u16),
    /// The destination port.
    DestinationPort(u16),
    /// A member of a kind that this codec does not interpret.
    Other(OpaqueNla),
}

/// The model of a [`ProtoTuple`].
pub enum ProtoTupleView {
    Protocol(u8),
    SourcePort(u16),
    DestinationPort(u16),
    Other(OpaqueNlaView),
}

impl DeepView for ProtoTuple {
    type V = ProtoTupleView;

    open spec fn deep_view(&self) -> ProtoTupleView {
        match self {
            ProtoTuple::Protocol(attr) => ProtoTupleView::Protocol(*attr),
            ProtoTuple::SourcePort(attr) => ProtoTupleView::SourcePort(*attr),
            ProtoTuple::DestinationPort(attr) => ProtoTupleView::DestinationPort(*attr),
            ProtoTuple::Other(attr) => ProtoTupleView::Other(attr.deep_view()),
        }
    }
}

impl Nla for ProtoTuple {
    open spec fn kind_of(v: ProtoTupleView) -> u16 {
        match v {
            ProtoTupleView::Protocol(_) => CTA_PROTO_NUM,
            ProtoTupleView::SourcePort(_) => CTA_PROTO_SRC_PORT,
            ProtoTupleView::DestinationPort(_) => CTA_PROTO_DST_PORT,
            ProtoTupleView::Other(attr) => attr.kind,
        }
    }

    open spec fn nested_of(v: ProtoTupleView) -> bool {
        Self::kind_of(v) & NLA_F_NESTED != 0
    }

    open spec fn value_of(v: ProtoTupleView) -> Seq<u8> {
        match v {
            ProtoTupleView::Protocol(attr) => seq![attr],
            ProtoTupleView::SourcePort(attr) => be_bytes(attr),
            ProtoTupleView::DestinationPort(attr) => be_bytes(attr),
            ProtoTupleView::Other(attr) => attr.value,
        }
    }

    open spec fn encodable_of(v: ProtoTupleView) -> bool {
        match v {
            ProtoTupleView::Other(attr) => OpaqueNla::encodable_of(attr),
            _ => true,
        }
    }

    open spec fn decode(kind: u16, value: Seq<u8>) -> Result<ProtoTupleView, ParseError> {
        let code = kind & NLA_TYPE_MASK;
        if code == CTA_PROTO_NUM {
            match decode_u8(value, Attribute::CtaProtoNum) {
                Ok(attr) => Ok(ProtoTupleView::Protocol(attr)),
                Err(e) => Err(e),
            }
        } else if code == CTA_PROTO_SRC_PORT {
            match decode_u16_be(value, Attribute::CtaProtoSrcPort) {
                Ok(attr) => Ok(ProtoTupleView::SourcePort(attr)),
                Err(e) => Err(e),
            }
        } else if code == CTA_PROTO_DST_PORT {
            match decode_u16_be(value, Attribute::CtaProtoDstPort) {
                Ok(attr) => Ok(ProtoTupleView::DestinationPort(attr)),
                Err(e) => Err(e),
            }
        } else {
            Ok(ProtoTupleView::Other(OpaqueNlaView { kind, value }))
        }
    }

    open spec fn interprets(code: u16) -> bool {
        ||| code == CTA_PROTO_NUM
        ||| code == CTA_PROTO_SRC_PORT
        ||| code == CTA_PROTO_DST_PORT
    }

    open spec fn opaque(nla: OpaqueNlaView) -> ProtoTupleView {
        ProtoTupleView::Other(nla)
    }

    open spec fn canonical(v: ProtoTupleView) -> bool {
        match v {
            ProtoTupleView::Other(attr) => !Self::interprets(attr.kind & NLA_TYPE_MASK),
            _ => true,
        }
    }

    fn value_len(&self) -> (n: usize) {
        match self {
            ProtoTuple::Protocol(_) => 1,
            ProtoTuple::SourcePort(_) => 2,
            ProtoTuple::DestinationPort(_) => 2,
            ProtoTuple::Other(attr) => attr.value_len(),
        }
    }

    fn kind(&self) -> (k: u16) {
        match self {
            ProtoTuple::Protocol(_) => CTA_PROTO_NUM,
            ProtoTuple::SourcePort(_) => CTA_PROTO_SRC_PORT,
            ProtoTuple::DestinationPort(_) => CTA_PROTO_DST_PORT,
            ProtoTuple::Other(attr) => attr.kind(),
        }
    }

    fn is_nested(&self) -> (b: bool) {
        (self.kind() & NLA_F_NESTED) != 0
    }

    fn emit_value(&self, buffer: &mut [u8]) {
        match self {
            ProtoTuple::Protocol(attr) => write_u8(buffer, *attr),
            ProtoTuple::SourcePort(attr) => write_u16_be(buffer, *attr),
            ProtoTuple::DestinationPort(attr) => write_u16_be(buffer, *attr),
            ProtoTuple::Other(attr) => attr.emit_value(buffer),
        }
    }

    fn parse(buf: &NlaSlice) -> (r: Result<ProtoTuple, ParseError>) {
        let kind = buf.kind();
        let payload = buf.value();
        let nla = match kind {
            CTA_PROTO_NUM => ProtoTuple::Protocol(read_u8(payload, Attribute::CtaProtoNum)?),
            CTA_PROTO_SRC_PORT => ProtoTuple::SourcePort(
                read_u16_be(payload, Attribute::CtaProtoSrcPort)?,
            ),
            CTA_PROTO_DST_PORT => ProtoTuple::DestinationPort(
                read_u16_be(payload, Attribute::CtaProtoDstPort)?,
            ),
            _ => ProtoTuple::Other(OpaqueNla::parse(buf)?),
        };
        Ok(nla)
    }

    fn encodable(&self) -> (b: bool) {
        match self {
            ProtoTuple::Other(attr) => attr.encodable(),
            _ => true,
        }
    }

    proof fn lemma_value_fits(v: ProtoTupleView) {
    }

    proof fn lemma_unknown_kind(kind: u16, value: Seq<u8>) {
    }

    proof fn lemma_decode_canonical(kind: u16, value: Seq<u8>) {
    }

    proof fn lemma_decode_encode(v: ProtoTupleView) {
        let kind = Self::kind_of(v);
        if kind & NLA_F_NESTED != 0 {
            lemma_nested_flag_set(kind);
        }
        if !(v is Other) {
            lemma_kind_code(kind);
        }
        match v {
            ProtoTupleView::SourcePort(attr) => lemma_be_u16_of_bytes(attr),
            ProtoTupleView::DestinationPort(attr) => lemma_be_u16_of_bytes(attr),
            _ => {},
        }
    }
}

impl ProtoTuple {
    /// Tells whether this is the variant `Protocol`.
    pub fn is_protocol(&self) -> (b: bool)
        ensures
            b == (self is Protocol),
    {
        match self {
            ProtoTuple::Protocol(_) => true,
            _ => false,
        }
    }

    /// Tells whether this is the variant `SourcePort`.
    pub fn is_source_port(&self) -> (b: bool)
        ensures
            b == (self is SourcePort),
    {
        match self {
            ProtoTuple::SourcePort(_) => true,
            _ => false,
        }
    }

    /// Tells whether this is the variant `DestinationPort`.
    pub fn is_destination_port(&self) -> (b: bool)
        ensures
            b == (self is DestinationPort),
    {
        match self {
            ProtoTuple::DestinationPort(_) => true,
            _ => false,
        }
    }

    /// Tells whether this is the variant `Other`.
    pub fn is_other(&self) -> (b: bool)
        ensures
            b == (self is Other),
    {
        match self {
            ProtoTuple::Other(_) => true,
            _ => false,
        }
    }
}

/// A bare byte is a protocol number.
impl From<u8> for ProtoTuple {
    fn from(value: u8) -> (nla: ProtoTuple) {
        ProtoTuple::Protocol(value)
    }
}

impl FromSpecImpl<u8> for ProtoTuple {
    open spec fn obeys_from_spec() -> bool {
        true
    }

    open spec fn from_spec(value: u8) -> ProtoTuple {
        ProtoTuple::Protocol(value)
    }
}

/// A bare 16-bit number is a source port.
impl From<u16> for ProtoTuple {
    fn from(value: u16) -> (nla: ProtoTuple) {
        ProtoTuple::SourcePort(value)
    }
}

impl FromSpecImpl<u16> for ProtoTuple {
    open spec fn obeys_from_spec() -> bool {
        true
    }

    open spec fn from_spec(value: u16) -> ProtoTuple {
        ProtoTuple::SourcePort(value)
    }
}

/// An attribute kept as it came stays so.
impl From<OpaqueNla> for ProtoTuple {
    fn from(value: OpaqueNla) -> (nla: ProtoTuple) {
        ProtoTuple::Other(value)
    }
}

impl FromSpecImpl<OpaqueNla> for ProtoTuple {
    open spec fn obeys_from_spec() -> bool {
        true
    }

    open spec fn from_spec(value: OpaqueNla) -> ProtoTuple {
        ProtoTuple::Other(value)
    }
}

} // verus!
