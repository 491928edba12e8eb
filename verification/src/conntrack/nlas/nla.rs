//! The attributes of a connection-tracking message.

use vstd::prelude::*;
use vstd::std_specs::convert::FromSpecImpl;
use crate::conntrack::nlas::protoinfo::ProtoInfo;
use crate::conntrack::nlas::protoinfo::ProtoInfoView;
use crate::conntrack::nlas::tuple::Tuple;
use crate::conntrack::nlas::tuple::TupleView;
use crate::constants::CTA_PROTOINFO;
use crate::constants::CTA_TUPLE_ORIG;
use crate::constants::NLA_MAX_VALUE_LEN;
use crate::constants::NLA_TYPE_MASK;
use crate::error::Attribute;
use crate::error::ParseError;
use crate::nla::Nla;
use crate::nla::NlaSlice;
use crate::nla::OpaqueNla;
use crate::nla::OpaqueNlaView;
use crate::sequence::all_canonical;
use crate::sequence::all_encodable;
use crate::sequence::buffer_len_all;
use crate::sequence::checked_len_all;
use crate::sequence::decode_all;
use crate::sequence::emit_all;
use crate::sequence::encode_all;
use crate::sequence::lemma_decode_all_canonical;
use crate::sequence::lemma_decode_all_encode_all;
use crate::sequence::parse_all;
use crate::wire::lemma_kind_code;

verus! {

/// An attribute of a connection-tracking message.
#[derive(Clone, Debug, PartialEq, Eq)]
pub enum ConntrackNla {
    /// The tuple of the original direction.
    CtaTupleOrig(Vec<Tuple>),
    /// Protocol-specific state of the connection.
    CtaProtoInfo(Vec<ProtoInfo>),
    /// An attribute of a kind that this codec does not interpret.
    Other(OpaqueNla),
}

/// The model of a [`ConntrackNla`].
pub enum ConntrackNlaView {
    CtaTupleOrig(Seq<TupleView>),
    CtaProtoInfo(Seq<ProtoInfoView>),
    Other(OpaqueNlaView),
}

impl DeepView for ConntrackNla {
    type V = ConntrackNlaView;

    open spec fn deep_view(&self) -> ConntrackNlaView {
        match self {
            ConntrackNla::CtaTupleOrig(attr) => ConntrackNlaView::CtaTupleOrig(attr.deep_view()),
            ConntrackNla::CtaProtoInfo(attr) => ConntrackNlaView::CtaProtoInfo(attr.deep_view()),
            ConntrackNla::Other(attr) => ConntrackNlaView::Other(attr.deep_view()),
        }
    }
}

impl Nla for ConntrackNla {
    open spec fn kind_of(v: ConntrackNlaView) -> u16 {
        match v {
            ConntrackNlaView::CtaTupleOrig(_) => CTA_TUPLE_ORIG,
            ConntrackNlaView::CtaProtoInfo(_) => CTA_PROTOINFO,
            ConntrackNlaView::Other(attr) => attr.kind,
        }
    }

    open spec fn nested_of(v: ConntrackNlaView) -> bool {
        !(v is Other)
    }

    open spec fn value_of(v: ConntrackNlaView) -> Seq<u8> {
        match v {
            ConntrackNlaView::CtaTupleOrig(attr) => encode_all::<Tuple>(attr),
            ConntrackNlaView::CtaProtoInfo(attr) => encode_all::<ProtoInfo>(attr),
            ConntrackNlaView::Other(attr) => attr.value,
        }
    }

    open spec fn encodable_of(v: ConntrackNlaView) -> bool {
        match v {
            ConntrackNlaView::CtaTupleOrig(attr) => {
                &&& all_encodable::<Tuple>(attr)
                &&& encode_all::<Tuple>(attr).len() <= NLA_MAX_VALUE_LEN
            },
            ConntrackNlaView::CtaProtoInfo(attr) => {
                &&& all_encodable::<ProtoInfo>(attr)
                &&& encode_all::<ProtoInfo>(attr).len() <= NLA_MAX_VALUE_LEN
            },
            ConntrackNlaView::Other(attr) => OpaqueNla::encodable_of(attr),
        }
    }

    open spec fn decode(kind: u16, value: Seq<u8>) -> Result<ConntrackNlaView, ParseError> {
        let code = kind & NLA_TYPE_MASK;
        if code == CTA_TUPLE_ORIG {
            match decode_all::<Tuple>(value, Some(Attribute::CtaTupleOrig)) {
                Ok(attr) => Ok(ConntrackNlaView::CtaTupleOrig(attr)),
                Err(e) => Err(e),
            }
        } else if code == CTA_PROTOINFO {
            match decode_all::<ProtoInfo>(value, Some(Attribute::CtaProtoInfo)) {
                Ok(attr) => Ok(ConntrackNlaView::CtaProtoInfo(attr)),
                Err(e) => Err(e),
            }
        } else {
            Ok(ConntrackNlaView::Other(OpaqueNlaView { kind, value }))
        }
    }

    open spec fn interprets(code: u16) -> bool {
        ||| code == CTA_TUPLE_ORIG
        ||| code == CTA_PROTOINFO
    }

    open spec fn opaque(nla: OpaqueNlaView) -> ConntrackNlaView {
        ConntrackNlaView::Other(nla)
    }

    open spec fn canonical(v: ConntrackNlaView) -> bool {
        match v {
            ConntrackNlaView::CtaTupleOrig(attr) => all_canonical::<Tuple>(attr),
            ConntrackNlaView::CtaProtoInfo(attr) => all_canonical::<ProtoInfo>(attr),
            ConntrackNlaView::Other(attr) => !Self::interprets(attr.kind & NLA_TYPE_MASK),
        }
    }

    fn value_len(&self) -> (n: usize) {
        match self {
            ConntrackNla::CtaTupleOrig(attr) => buffer_len_all(attr),
            ConntrackNla::CtaProtoInfo(attr) => buffer_len_all(attr),
            ConntrackNla::Other(attr) => attr.value_len(),
        }
    }

    fn kind(&self) -> (k: u16) {
        match self {
            ConntrackNla::CtaTupleOrig(_) => CTA_TUPLE_ORIG,
            ConntrackNla::CtaProtoInfo(_) => CTA_PROTOINFO,
            ConntrackNla::Other(attr) => attr.kind(),
        }
    }

    fn emit_value(&self, buffer: &mut [u8]) {
        match self {
            ConntrackNla::CtaTupleOrig(attr) => {
                emit_all(attr, buffer);
                assert(buffer@ =~= encode_all::<Tuple>(attr.deep_view()));
            },
            ConntrackNla::CtaProtoInfo(attr) => {
                emit_all(attr, buffer);
                assert(buffer@ =~= encode_all::<ProtoInfo>(attr.deep_view()));
            },
            ConntrackNla::Other(attr) => attr.emit_value(buffer),
        }
    }

    fn is_nested(&self) -> (b: bool) {
        match self {
            ConntrackNla::Other(_) => false,
            _ => true,
        }
    }

    fn parse(buf: &NlaSlice) -> (r: Result<ConntrackNla, ParseError>) {
        let kind = buf.kind();
        let payload = buf.value();
        let nla = match kind {
            CTA_TUPLE_ORIG => {
                let context = Some(Attribute::CtaTupleOrig);
                let tuples = parse_all::<Tuple>(payload, context)?;
                ConntrackNla::CtaTupleOrig(tuples)
            },
            CTA_PROTOINFO => {
                let context = Some(Attribute::CtaProtoInfo);
                let proto_infos = parse_all::<ProtoInfo>(payload, context)?;
                ConntrackNla::CtaProtoInfo(proto_infos)
            },
            _ => ConntrackNla::Other(OpaqueNla::parse(buf)?),
        };
        Ok(nla)
    }

    fn encodable(&self) -> (b: bool) {
        match self {
            ConntrackNla::CtaTupleOrig(attr) => checked_len_all(attr, NLA_MAX_VALUE_LEN).is_some(),
            ConntrackNla::CtaProtoInfo(attr) => checked_len_all(attr, NLA_MAX_VALUE_LEN).is_some(),
            ConntrackNla::Other(attr) => attr.encodable(),
        }
    }

    proof fn lemma_value_fits(v: ConntrackNlaView) {
    }

    proof fn lemma_unknown_kind(kind: u16, value: Seq<u8>) {
    }

    proof fn lemma_decode_canonical(kind: u16, value: Seq<u8>) {
        lemma_decode_all_canonical::<Tuple>(value, Some(Attribute::CtaTupleOrig));
        lemma_decode_all_canonical::<ProtoInfo>(value, Some(Attribute::CtaProtoInfo));
    }

    proof fn lemma_decode_encode(v: ConntrackNlaView) {
        match v {
            ConntrackNlaView::CtaTupleOrig(attr) => {
                lemma_kind_code(CTA_TUPLE_ORIG);
                lemma_decode_all_encode_all::<Tuple>(attr, Some(Attribute::CtaTupleOrig));
            },
            ConntrackNlaView::CtaProtoInfo(attr) => {
                lemma_kind_code(CTA_PROTOINFO);
                lemma_decode_all_encode_all::<ProtoInfo>(attr, Some(Attribute::CtaProtoInfo));
            },
            ConntrackNlaView::Other(_) => {},
        }
    }
}

impl ConntrackNla {
    /// Tells whether this is the variant `CtaTupleOrig`.
    pub fn is_cta_tuple_orig(&self) -> (b: bool)
        ensures
            b == (self is CtaTupleOrig),
    {
        match self {
            ConntrackNla::CtaTupleOrig(_) => true,
            _ => false,
        }
    }

    /// Tells whether this is the variant `CtaProtoInfo`.
    pub fn is_cta_proto_info(&self) -> (b: bool)
        ensures
            b == (self is CtaProtoInfo),
    {
        match self {
            ConntrackNla::CtaProtoInfo(_) => true,
            _ => false,
        }
    }

    /// Tells whether this is the variant `Other`.
    pub fn is_other(&self) -> (b: bool)
        ensures
            b == (self is Other),
    {
        match self {
            ConntrackNla::Other(_) => true,
            _ => false,
        }
    }
}

/// Tuple members make the tuple of the original direction.
impl From<Vec<Tuple>> for ConntrackNla {
    fn from(value: Vec<Tuple>) -> (nla: ConntrackNla) {
        ConntrackNla::CtaTupleOrig(value)
    }
}

impl FromSpecImpl<Vec<Tuple>> for ConntrackNla {
    open spec fn obeys_from_spec() -> bool {
        true
    }

    open spec fn from_spec(value: Vec<Tuple>) -> ConntrackNla {
        ConntrackNla::CtaTupleOrig(value)
    }
}

/// Members of the protocol information make that attribute.
impl From<Vec<ProtoInfo>> for ConntrackNla {
    fn from(value: Vec<ProtoInfo>) -> (nla: ConntrackNla) {
        ConntrackNla::CtaProtoInfo(value)
    }
}

impl FromSpecImpl<Vec<ProtoInfo>> for ConntrackNla {
    open spec fn obeys_from_spec() -> bool {
        true
    }

    open spec fn from_spec(value: Vec<ProtoInfo>) -> ConntrackNla {
        ConntrackNla::CtaProtoInfo(value)
    }
}

/// An attribute kept as it came stays so.
impl From<OpaqueNla> for ConntrackNla {
    fn from(value: OpaqueNla) -> (nla: ConntrackNla) {
        ConntrackNla::Other(value)
    }
}

impl FromSpecImpl<OpaqueNla> for ConntrackNla {
    open spec fn obeys_from_spec() -> bool {
        true
    }

    open spec fn from_spec(value: OpaqueNla) -> ConntrackNla {
        ConntrackNla::Other(value)
    }
}

} // verus!
