//! The members of the protocol information: so far the TCP group alone.

use vstd::prelude::*;
use vstd::std_specs::convert::FromSpecImpl;
use crate::conntrack::nlas::protoinfotcp::ProtoInfoTCP;
use crate::conntrack::nlas::protoinfotcp::ProtoInfoTCPView;
use crate::constants::CTA_PROTOINFO_TCP;
use crate::constants::NLA_MAX_VALUE_LEN;
use crate::constants::NLA_TYPE_MASK;
use crate::error::Attribute;
use crate::error::ParseError;
use crate::nla::Nla;
use crate::nla::NlaSlice;
use crate::nla::OpaqueNla;
use crate::nla::OpaqueNlaView;
use crate::sequence::all_canonical;
use crate::sequence::all_encodable;
use crate::sequence::buffer_len_all;
use crate::sequence::checked_len_all;
use crate::sequence::decode_all;
use crate::sequence::emit_all;
use crate::sequence::encode_all;
use crate::sequence::lemma_decode_all_canonical;
use crate::sequence::lemma_decode_all_encode_all;
use crate::sequence::parse_all;
use crate::wire::lemma_kind_code;

verus! {

/// A member of the protocol information.
#[derive(Clone, Debug, PartialEq, Eq)]
pub enum ProtoInfo {
    /// The TCP group.
    TCP(Vec<ProtoInfoTCP>),
    /// A member of a kind that this codec does not interpret.
    Other(OpaqueNla),
}

/// The model of a [`ProtoInfo`].
pub enum ProtoInfoView {
    TCP(Seq<ProtoInfoTCPView>),
    Other(OpaqueNlaView),
}

impl DeepView for ProtoInfo {
    type V = ProtoInfoView;

    open spec fn deep_view(&self) -> ProtoInfoView {
        match self {
            ProtoInfo::TCP(attr) => ProtoInfoView::TCP(attr.deep_view()),
            ProtoInfo::Other(attr) => ProtoInfoView::Other(attr.deep_view()),
        }
    }
}

impl Nla for ProtoInfo {
    open spec fn kind_of(v: ProtoInfoView) -> u16 {
        match v {
            ProtoInfoView::TCP(_) => CTA_PROTOINFO_TCP,
            ProtoInfoView::Other(attr) => attr.kind,
        }
    }

    open spec fn nested_of(v: ProtoInfoView) -> bool {
        !(v is Other)
    }

    open spec fn value_of(v: ProtoInfoView) -> Seq<u8> {
        match v {
            ProtoInfoView::TCP(attr) => encode_all::<ProtoInfoTCP>(attr),
            ProtoInfoView::Other(attr) => attr.value,
        }
    }

    open spec fn encodable_of(v: ProtoInfoView) -> bool {
        match v {
            ProtoInfoView::TCP(attr) => {
                &&& all_encodable::<ProtoInfoTCP>(attr)
                &&& encode_all::<ProtoInfoTCP>(attr).len() <= NLA_MAX_VALUE_LEN
            },
            ProtoInfoView::Other(attr) => OpaqueNla::encodable_of(attr),
        }
    }

    open spec fn decode(kind: u16, value: Seq<u8>) -> Result<ProtoInfoView, ParseError> {
        let code = kind & NLA_TYPE_MASK;
        if code == CTA_PROTOINFO_TCP {
            match decode_all::<ProtoInfoTCP>(value, Some(Attribute::CtaProtoInfoTcp)) {
                Ok(attr) => Ok(ProtoInfoView::TCP(attr)),
                Err(e) => Err(e),
            }
        } else {
            Ok(ProtoInfoView::Other(OpaqueNlaView { kind, value }))
        }
    }

    open spec fn interprets(code: u16) -> bool {
        code == CTA_PROTOINFO_TCP
    }

    open spec fn opaque(nla: OpaqueNlaView) -> ProtoInfoView {
        ProtoInfoView::Other(nla)
    }

    open spec fn canonical(v: ProtoInfoView) -> bool {
        match v {
            ProtoInfoView::TCP(attr) => all_canonical::<ProtoInfoTCP>(attr),
            ProtoInfoView::Other(attr) => !Self::interprets(attr.kind & NLA_TYPE_MASK),
        }
    }

    fn value_len(&self) -> (n: usize) {
        match self {
            ProtoInfo::TCP(attr) => buffer_len_all(attr),
            ProtoInfo::Other(attr) => attr.value_len(),
        }
    }

    fn kind(&self) -> (k: u16) {
        match self {
            ProtoInfo::TCP(_) => CTA_PROTOINFO_TCP,
            ProtoInfo::Other(attr) => attr.kind(),
        }
    }

    fn emit_value(&self, buffer: &mut [u8]) {
        match self {
            ProtoInfo::TCP(attr) => {
                emit_all(attr, buffer);
                assert(buffer@ =~= encode_all::<ProtoInfoTCP>(attr.deep_view()));
            },
            ProtoInfo::Other(attr) => attr.emit_value(buffer),
        }
    }

    fn is_nested(&self) -> (b: bool) {
        match self {
            ProtoInfo::Other(_) => false,
            _ => true,
        }
    }

    fn parse(buf: &NlaSlice) -> (r: Result<ProtoInfo, ParseError>) {
        let kind = buf.kind();
        let payload = buf.value();
        let nla = match kind {
            CTA_PROTOINFO_TCP => {
                let context = Some(Attribute::CtaProtoInfoTcp);
                let tcp_infos = parse_all::<ProtoInfoTCP>(payload, context)?;
                ProtoInfo::TCP(tcp_infos)
            },
            _ => ProtoInfo::Other(OpaqueNla::parse(buf)?),
        };
        Ok(nla)
    }

    fn encodable(&self) -> (b: bool) {
        match self {
            ProtoInfo::TCP(attr) => checked_len_all(attr, NLA_MAX_VALUE_LEN).is_some(),
            ProtoInfo::Other(attr) => attr.encodable(),
        }
    }

    proof fn lemma_value_fits(v: ProtoInfoView) {
    }

    proof fn lemma_unknown_kind(kind: u16, value: Seq<u8>) {
    }

    proof fn lemma_decode_canonical(kind: u16, value: Seq<u8>) {
        lemma_decode_all_canonical::<ProtoInfoTCP>(value, Some(Attribute::CtaProtoInfoTcp));
    }

    proof fn lemma_decode_encode(v: ProtoInfoView) {
        match v {
            ProtoInfoView::TCP(attr) => {
                lemma_kind_code(CTA_PROTOINFO_TCP);
                lemma_decode_all_encode_all::<ProtoInfoTCP>(attr, Some(Attribute::CtaProtoInfoTcp));
            },
            ProtoInfoView::Other(_) => {},
        }
    }
}

impl ProtoInfo {
    /// Tells whether this is the variant `TCP`.
    pub fn is_tcp(&self) -> (b: bool)
        ensures
            b == (self is TCP),
    {
        match self {
            ProtoInfo::TCP(_) => true,
            _ => false,
        }
    }

    /// Tells whether this is the variant `Other`.
    pub fn is_other(&self) -> (b: bool)
        ensures
            b == (self is Other),
    {
        match self {
            ProtoInfo::Other(_) => true,
            _ => false,
        }
    }
}

/// Members of the TCP group make that group.
impl From<Vec<ProtoInfoTCP>> for ProtoInfo {
    fn from(value: Vec<ProtoInfoTCP>) -> (nla: ProtoInfo) {
        ProtoInfo::TCP(value)
    }
}

impl FromSpecImpl<Vec<ProtoInfoTCP>> for ProtoInfo {
    open spec fn obeys_from_spec() -> bool {
        true
    }

    open spec fn from_spec(value: Vec<ProtoInfoTCP>) -> ProtoInfo {
        ProtoInfo::TCP(value)
    }
}

/// An attribute kept as it came stays so.
impl From<OpaqueNla> for ProtoInfo {
    fn from(value: OpaqueNla) -> (nla: ProtoInfo) {
        ProtoInfo::Other(value)
    }
}

impl FromSpecImpl<OpaqueNla> for ProtoInfo {
    open spec fn obeys_from_spec() -> bool {
        true
    }

    open spec fn from_spec(value: OpaqueNla) -> ProtoInfo {
        ProtoInfo::Other(value)
    }
}

} // verus!
