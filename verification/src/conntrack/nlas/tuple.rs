//! The members of a tuple: the address group and the protocol group.

use vstd::prelude::*;
use vstd::std_specs::convert::FromSpecImpl;
use crate::conntrack::nlas::iptuple::IPTuple;
use crate::conntrack::nlas::iptuple::IPTupleView;
use crate::conntrack::nlas::prototuple::ProtoTuple;
use crate::conntrack::nlas::prototuple::ProtoTupleView;
use crate::constants::CTA_TUPLE_IP;
use crate::constants::CTA_TUPLE_PROTO;
use crate::constants::NLA_MAX_VALUE_LEN;
use crate::constants::NLA_TYPE_MASK;
use crate::error::Attribute;
use crate::error::ParseError;
use crate::nla::Nla;
use crate::nla::NlaSlice;
use crate::nla::OpaqueNla;
use crate::nla::OpaqueNlaView;
use crate::sequence::all_canonical;
use crate::sequence::all_encodable;
use crate::sequence::buffer_len_all;
use crate::sequence::checked_len_all;
use crate::sequence::decode_all;
use crate::sequence::emit_all;
use crate::sequence::encode_all;
use crate::sequence::lemma_decode_all_canonical;
use crate::sequence::lemma_decode_all_encode_all;
use crate::sequence::parse_all;
use crate::wire::lemma_kind_code;

verus! {

/// A member of a tuple.
#[derive(Clone, Debug, PartialEq, Eq)]
pub enum Tuple {
    /// The address group.
    Ip(Vec<IPTuple>),
    /// The protocol group.
    Proto(Vec<ProtoTuple>),
    /// A member of a kind that this codec does not interpret.
    Other(OpaqueNla),
}

/// The model of a [`Tuple`].
pub enum TupleView {
    Ip(Seq<IPTupleView>),
    Proto(Seq<ProtoTupleView>),
    Other(OpaqueNlaView),
}

impl DeepView for Tuple {
    type V = TupleView;

    open spec fn deep_view(&self) -> TupleView {
        match self {
            Tuple::Ip(attr) => TupleView::Ip(attr.deep_view()),
            Tuple::Proto(attr) => TupleView::Proto(attr.deep_view()),
            Tuple::Other(attr) => TupleView::Other(attr.deep_view()),
        }
    }
}

impl Nla for Tuple {
    open spec fn kind_of(v: TupleView) -> u16 {
        match v {
            TupleView::Ip(_) => CTA_TUPLE_IP,
            TupleView::Proto(_) => CTA_TUPLE_PROTO,
            TupleView::Other(attr) => attr.kind,
        }
    }

    open spec fn nested_of(v: TupleView) -> bool {
        !(v is Other)
    }

    open spec fn value_of(v: TupleView) -> Seq<u8> {
        match v {
            TupleView::Ip(attr) => encode_all::<IPTuple>(attr),
            TupleView::Proto(attr) => encode_all::<ProtoTuple>(attr),
            TupleView::Other(attr) => attr.value,
        }
    }

    open spec fn encodable_of(v: TupleView) -> bool {
        match v {
            TupleView::Ip(attr) => {
                &&& all_encodable::<IPTuple>(attr)
                &&& encode_all::<IPTuple>(attr).len() <= NLA_MAX_VALUE_LEN
            },
            TupleView::Proto(attr) => {
                &&& all_encodable::<ProtoTuple>(attr)
                &&& encode_all::<ProtoTuple>(attr).len() <= NLA_MAX_VALUE_LEN
            },
            TupleView::Other(attr) => OpaqueNla::encodable_of(attr),
        }
    }

    open spec fn decode(kind: u16, value: Seq<u8>) -> Result<TupleView, ParseError> {
        let code = kind & NLA_TYPE_MASK;
        if code == CTA_TUPLE_IP {
            match decode_all::<IPTuple>(value, Some(Attribute::CtaTupleIp)) {
                Ok(attr) => Ok(TupleView::Ip(attr)),
                Err(e) => Err(e),
            }
        } else if code == CTA_TUPLE_PROTO {
            match decode_all::<ProtoTuple>(value, Some(Attribute::CtaTupleProto)) {
                Ok(attr) => Ok(TupleView::Proto(attr)),
                Err(e) => Err(e),
            }
        } else {
            Ok(TupleView::Other(OpaqueNlaView { kind, value }))
        }
    }

    open spec fn interprets(code: u16) -> bool {
        ||| code == CTA_TUPLE_IP
        ||| code == CTA_TUPLE_PROTO
    }

    open spec fn opaque(nla: OpaqueNlaView) -> TupleView {
        TupleView::Other(nla)
    }

    open spec fn canonical(v: TupleView) -> bool {
        match v {
            TupleView::Ip(attr) => all_canonical::<IPTuple>(attr),
            TupleView::Proto(attr) => all_canonical::<ProtoTuple>(attr),
            TupleView::Other(attr) => !Self::interprets(attr.kind & NLA_TYPE_MASK),
        }
    }

    fn value_len(&self) -> (n: usize) {
        match self {
            Tuple::Ip(attr) => buffer_len_all(attr),
            Tuple::Proto(attr) => buffer_len_all(attr),
            Tuple::Other(attr) => attr.value_len(),
        }
    }

    fn kind(&self) -> (k: u16) {
        match self {
            Tuple::Ip(_) => CTA_TUPLE_IP,
            Tuple::Proto(_) => CTA_TUPLE_PROTO,
            Tuple::Other(attr) => attr.kind(),
        }
    }

    fn emit_value(&self, buffer: &mut [u8]) {
        match self {
            Tuple::Ip(attr) => {
                emit_all(attr, buffer);
                assert(buffer@ =~= encode_all::<IPTuple>(attr.deep_view()));
            },
            Tuple::Proto(attr) => {
                emit_all(attr, buffer);
                assert(buffer@ =~= encode_all::<ProtoTuple>(attr.deep_view()));
            },
            Tuple::Other(attr) => attr.emit_value(buffer),
        }
    }

    fn is_nested(&self) -> (b: bool) {
        match self {
            Tuple::Other(_) => false,
            _ => true,
        }
    }

    fn parse(buf: &NlaSlice) -> (r: Result<Tuple, ParseError>) {
        let kind = buf.kind();
        let payload = buf.value();
        let nla = match kind {
            CTA_TUPLE_IP => {
                let context = Some(Attribute::CtaTupleIp);
                let ip_tuples = parse_all::<IPTuple>(payload, context)?;
                Tuple::Ip(ip_tuples)
            },
            CTA_TUPLE_PROTO => {
                let context = Some(Attribute::CtaTupleProto);
                let proto_tuples = parse_all::<ProtoTuple>(payload, context)?;
                Tuple::Proto(proto_tuples)
            },
            _ => Tuple::Other(OpaqueNla::parse(buf)?),
        };
        Ok(nla)
    }

    fn encodable(&self) -> (b: bool) {
        match self {
            Tuple::Ip(attr) => checked_len_all(attr, NLA_MAX_VALUE_LEN).is_some(),
            Tuple::Proto(attr) => checked_len_all(attr, NLA_MAX_VALUE_LEN).is_some(),
            Tuple::Other(attr) => attr.encodable(),
        }
    }

    proof fn lemma_value_fits(v: TupleView) {
    }

    proof fn lemma_unknown_kind(kind: u16, value: Seq<u8>) {
    }

    proof fn lemma_decode_canonical(kind: u16, value: Seq<u8>) {
        lemma_decode_all_canonical::<IPTuple>(value, Some(Attribute::CtaTupleIp));
        lemma_decode_all_canonical::<ProtoTuple>(value, Some(Attribute::CtaTupleProto));
    }

    proof fn lemma_decode_encode(v: TupleView) {
        match v {
            TupleView::Ip(attr) => {
                lemma_kind_code(CTA_TUPLE_IP);
                lemma_decode_all_encode_all::<IPTuple>(attr, Some(Attribute::CtaTupleIp));
            },
            TupleView::Proto(attr) => {
                lemma_kind_code(CTA_TUPLE_PROTO);
                lemma_decode_all_encode_all::<ProtoTuple>(attr, Some(Attribute::CtaTupleProto));
            },
            TupleView::Other(_) => {},
        }
    }
}

impl Tuple {
    /// Tells whether this is the variant `Ip`.
    pub fn is_ip(&self) -> (b: bool)
        ensures
            b == (self is Ip),
    {
        match self {
            Tuple::Ip(_) => true,
            _ => false,
        }
    }

    /// Tells whether this is the variant `Proto`.
    pub fn is_proto(&self) -> (b: bool)
        ensures
            b == (self is Proto),
    {
        match self {
            Tuple::Proto(_) => true,
            _ => false,
        }
    }

    /// Tells whether this is the variant `Other`.
    pub fn is_other(&self) -> (b: bool)
        ensures
            b == (self is Other),
    {
        match self {
            Tuple::Other(_) => true,
            _ => false,
        }
    }
}

/// Addresses make the address group.
impl From<Vec<IPTuple>> for Tuple {
    fn from(value: Vec<IPTuple>) -> (nla: Tuple) {
        Tuple::Ip(value)
    }
}

impl FromSpecImpl<Vec<IPTuple>> for Tuple {
    open spec fn obeys_from_spec() -> bool {
        true
    }

    open spec fn from_spec(value: Vec<IPTuple>) -> Tuple {
        Tuple::Ip(value)
    }
}

/// Protocol number and ports make the protocol group.
impl From<Vec<ProtoTuple>> for Tuple {
    fn from(value: Vec<ProtoTuple>) -> (nla: Tuple) {
        Tuple::Proto(value)
    }
}

impl FromSpecImpl<Vec<ProtoTuple>> for Tuple {
    open spec fn obeys_from_spec() -> bool {
        true
    }

    open spec fn from_spec(value: Vec<ProtoTuple>) -> Tuple {
        Tuple::Proto(value)
    }
}

/// An attribute kept as it came stays so.
impl From<OpaqueNla> for Tuple {
    fn from(value: OpaqueNla) -> (nla: Tuple) {
        Tuple::Other(value)
    }
}

impl FromSpecImpl<OpaqueNla> for Tuple {
    open spec fn obeys_from_spec() -> bool {
        true
    }

    open spec fn from_spec(value: OpaqueNla) -> Tuple {
        Tuple::Other(value)
    }
}

} // verus!
