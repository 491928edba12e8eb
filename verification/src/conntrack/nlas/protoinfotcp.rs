//! The members of the TCP group of the protocol information.

use vstd::prelude::*;
use vstd::std_specs::convert::FromSpecImpl;
use crate::conntrack::nlas::tcp_flags::TCPFlags;
use crate::constants::CTA_PROTOINFO_TCP_FLAGS_ORIGINAL;
use crate::constants::CTA_PROTOINFO_TCP_FLAGS_REPLY;
use crate::constants::CTA_PROTOINFO_TCP_STATE;
use crate::constants::CTA_PROTOINFO_TCP_WSCALE_ORIGINAL;
use crate::constants::CTA_PROTOINFO_TCP_WSCALE_REPLY;
use crate::constants::NLA_F_NESTED;
use crate::constants::NLA_TYPE_MASK;
use crate::error::Attribute;
use crate::error::ParseError;
use crate::nla::Emitable;
use crate::nla::Nla;
use crate::nla::NlaSlice;
use crate::nla::OpaqueNla;
use crate::nla::OpaqueNlaView;
use crate::value::decode_u8;
use crate::value::read_u8;
use crate::value::write_u8;
use crate::wire::lemma_kind_code;
use crate::wire::lemma_nested_flag_set;

verus! {

/// A member of the TCP group.
#[derive(Clone, Debug, PartialEq, Eq)]
pub enum ProtoInfoTCP {
    /// The state of the connection, as the kernel numbers it.
    State(u8),
    /// Window scale of the original direction.
    OriginalWindowScale(u8),
    /// Window scale of the reply direction.
    ReplyWindowScale(u8),
    /// Flags of the original direction.
    OriginalFlags(TCPFlags),
    /// Flags of the reply direction.
    ReplyFlags(TCPFlags),
    /// A member of a kind that this codec does not interpret.
    Other(OpaqueNla),
}

/// The model of a [`ProtoInfoTCP`].
pub enum ProtoInfoTCPView {
    State(u8),
    OriginalWindowScale(u8),
    ReplyWindowScale(u8),
    OriginalFlags(TCPFlags),
    ReplyFlags(TCPFlags),
    Other(OpaqueNlaView),
}

impl DeepView for ProtoInfoTCP {
    type V = ProtoInfoTCPView;

    open spec fn deep_view(&self) -> ProtoInfoTCPView {
        match self {
            ProtoInfoTCP::State(attr) => ProtoInfoTCPView::State(*attr),
            ProtoInfoTCP::OriginalWindowScale(attr) => ProtoInfoTCPView::OriginalWindowScale(*attr),
            ProtoInfoTCP::ReplyWindowScale(attr) => ProtoInfoTCPView::ReplyWindowScale(*attr),
            ProtoInfoTCP::OriginalFlags(attr) => ProtoInfoTCPView::OriginalFlags(*attr),
            ProtoInfoTCP::ReplyFlags(attr) => ProtoInfoTCPView::ReplyFlags(*attr),
            ProtoInfoTCP::Other(attr) => ProtoInfoTCPView::Other(attr.deep_view()),
        }
    }
}

/// The flag pair that the value of `attribute` holds.
pub open spec fn decode_flags(value: Seq<u8>, attribute: Attribute) -> Result<
    TCPFlags,
    ParseError,
> {
    match TCPFlags::decode(value) {
        Ok(flags) => Ok(flags),
        Err(e) => Err(ParseError { attribute: Some(attribute), cause: e.cause }),
    }
}

/// Reads the flag pair that the value of `attribute` holds.
fn parse_flags(payload: &[u8], attribute: Attribute) -> (r: Result<TCPFlags, ParseError>)
    ensures
        r == decode_flags(payload@, attribute),
{
    match TCPFlags::parse(payload) {
        Ok(flags) => Ok(flags),
        Err(e) => Err(e.context(attribute)),
    }
}

impl Nla for ProtoInfoTCP {
    open spec fn kind_of(v: ProtoInfoTCPView) -> u16 {
        match v {
            ProtoInfoTCPView::State(_) => CTA_PROTOINFO_TCP_STATE,
            ProtoInfoTCPView::OriginalWindowScale(_) => CTA_PROTOINFO_TCP_WSCALE_ORIGINAL,
            ProtoInfoTCPView::ReplyWindowScale(_) => CTA_PROTOINFO_TCP_WSCALE_REPLY,
            ProtoInfoTCPView::OriginalFlags(_) => CTA_PROTOINFO_TCP_FLAGS_ORIGINAL,
            ProtoInfoTCPView::ReplyFlags(_) => CTA_PROTOINFO_TCP_FLAGS_REPLY,
            ProtoInfoTCPView::Other(attr) => attr.kind,
        }
    }

    open spec fn nested_of(v: ProtoInfoTCPView) -> bool {
        Self::kind_of(v) & NLA_F_NESTED != 0
    }

    open spec fn value_of(v: ProtoInfoTCPView) -> Seq<u8> {
        match v {
            ProtoInfoTCPView::State(attr) => seq![attr],
            ProtoInfoTCPView::OriginalWindowScale(attr) => seq![attr],
            ProtoInfoTCPView::ReplyWindowScale(attr) => seq![attr],
            ProtoInfoTCPView::OriginalFlags(attr) => attr.encoding(),
            ProtoInfoTCPView::ReplyFlags(attr) => attr.encoding(),
            ProtoInfoTCPView::Other(attr) => attr.value,
        }
    }

    open spec fn encodable_of(v: ProtoInfoTCPView) -> bool {
        match v {
            ProtoInfoTCPView::Other(attr) => OpaqueNla::encodable_of(attr),
            _ => true,
        }
    }

    open spec fn decode(kind: u16, value: Seq<u8>) -> Result<ProtoInfoTCPView, ParseError> {
        let code = kind & NLA_TYPE_MASK;
        if code == CTA_PROTOINFO_TCP_STATE {
            match decode_u8(value, Attribute::CtaProtoInfoTcpState) {
                Ok(attr) => Ok(ProtoInfoTCPView::State(attr)),
                Err(e) => Err(e),
            }
        } else if code == CTA_PROTOINFO_TCP_WSCALE_ORIGINAL {
            match decode_u8(value, Attribute::CtaProtoInfoTcpWscaleOriginal) {
                Ok(attr) => Ok(ProtoInfoTCPView::OriginalWindowScale(attr)),
                Err(e) => Err(e),
            }
        } else if code == CTA_PROTOINFO_TCP_WSCALE_REPLY {
            match decode_u8(value, Attribute::CtaProtoInfoTcpWscaleReply) {
                Ok(attr) => Ok(ProtoInfoTCPView::ReplyWindowScale(attr)),
                Err(e) => Err(e),
            }
        } else if code == CTA_PROTOINFO_TCP_FLAGS_ORIGINAL {
            match decode_flags(value, Attribute::CtaProtoInfoTcpFlagsOriginal) {
                Ok(attr) => Ok(ProtoInfoTCPView::OriginalFlags(attr)),
                Err(e) => Err(e),
            }
        } else if code == CTA_PROTOINFO_TCP_FLAGS_REPLY {
            match decode_flags(value, Attribute::CtaProtoInfoTcpFlagsReply) {
                Ok(attr) => Ok(ProtoInfoTCPView::ReplyFlags(attr)),
                Err(e) => Err(e),
            }
        } else {
            Ok(ProtoInfoTCPView::Other(OpaqueNlaView { kind, value }))
        }
    }

    open spec fn interprets(code: u16) -> bool {
        ||| code == CTA_PROTOINFO_TCP_STATE
        ||| code == CTA_PROTOINFO_TCP_WSCALE_ORIGINAL
        ||| code == CTA_PROTOINFO_TCP_WSCALE_REPLY
        ||| code == CTA_PROTOINFO_TCP_FLAGS_ORIGINAL
        ||| code == CTA_PROTOINFO_TCP_FLAGS_REPLY
    }

    open spec fn opaque(nla: OpaqueNlaView) -> ProtoInfoTCPView {
        ProtoInfoTCPView::Other(nla)
    }

    open spec fn canonical(v: ProtoInfoTCPView) -> bool {
        match v {
            ProtoInfoTCPView::Other(attr) => !Self::interprets(attr.kind & NLA_TYPE_MASK),
            _ => true,
        }
    }

    fn value_len(&self) -> (n: usize) {
        match self {
            ProtoInfoTCP::State(_) => 1,
            ProtoInfoTCP::OriginalWindowScale(_) => 1,
            ProtoInfoTCP::ReplyWindowScale(_) => 1,
            ProtoInfoTCP::OriginalFlags(attr) => attr.buffer_len(),
            ProtoInfoTCP::ReplyFlags(attr) => attr.buffer_len(),
            ProtoInfoTCP::Other(attr) => attr.value_len(),
        }
    }

    fn kind(&self) -> (k: u16) {
        match self {
            ProtoInfoTCP::State(_) => CTA_PROTOINFO_TCP_STATE,
            ProtoInfoTCP::OriginalWindowScale(_) => CTA_PROTOINFO_TCP_WSCALE_ORIGINAL,
            ProtoInfoTCP::ReplyWindowScale(_) => CTA_PROTOINFO_TCP_WSCALE_REPLY,
            ProtoInfoTCP::OriginalFlags(_) => CTA_PROTOINFO_TCP_FLAGS_ORIGINAL,
            ProtoInfoTCP::ReplyFlags(_) => CTA_PROTOINFO_TCP_FLAGS_REPLY,
            ProtoInfoTCP::Other(attr) => attr.kind(),
        }
    }

    fn is_nested(&self) -> (b: bool) {
        (self.kind() & NLA_F_NESTED) != 0
    }

    fn emit_value(&self, buffer: &mut [u8]) {
        match self {
            ProtoInfoTCP::State(attr) => write_u8(buffer, *attr),
            ProtoInfoTCP::OriginalWindowScale(attr) => write_u8(buffer, *attr),
            ProtoInfoTCP::ReplyWindowScale(attr) => write_u8(buffer, *attr),
            ProtoInfoTCP::OriginalFlags(attr) => {
                attr.emit(buffer);
                assert(buffer@ =~= attr.encoding());
            },
            ProtoInfoTCP::ReplyFlags(attr) => {
                attr.emit(buffer);
                assert(buffer@ =~= attr.encoding());
            },
            ProtoInfoTCP::Other(attr) => attr.emit_value(buffer),
        }
    }

    fn parse(buf: &NlaSlice) -> (r: Result<ProtoInfoTCP, ParseError>) {
        let kind = buf.kind();
        let payload = buf.value();
        let nla = match kind {
            CTA_PROTOINFO_TCP_STATE => ProtoInfoTCP::State(
                read_u8(payload, Attribute::CtaProtoInfoTcpState)?,
            ),
            CTA_PROTOINFO_TCP_WSCALE_ORIGINAL => ProtoInfoTCP::OriginalWindowScale(
                read_u8(payload, Attribute::CtaProtoInfoTcpWscaleOriginal)?,
            ),
            CTA_PROTOINFO_TCP_WSCALE_REPLY => ProtoInfoTCP::ReplyWindowScale(
                read_u8(payload, Attribute::CtaProtoInfoTcpWscaleReply)?,
            ),
            CTA_PROTOINFO_TCP_FLAGS_ORIGINAL => ProtoInfoTCP::OriginalFlags(
                parse_flags(payload, Attribute::CtaProtoInfoTcpFlagsOriginal)?,
            ),
            CTA_PROTOINFO_TCP_FLAGS_REPLY => ProtoInfoTCP::ReplyFlags(
                parse_flags(payload, Attribute::CtaProtoInfoTcpFlagsReply)?,
            ),
            _ => ProtoInfoTCP::Other(OpaqueNla::parse(buf)?),
        };
        Ok(nla)
    }

    fn encodable(&self) -> (b: bool) {
        match self {
            ProtoInfoTCP::Other(attr) => attr.encodable(),
            _ => true,
        }
    }

    proof fn lemma_value_fits(v: ProtoInfoTCPView) {
    }

    proof fn lemma_unknown_kind(kind: u16, value: Seq<u8>) {
    }

    proof fn lemma_decode_canonical(kind: u16, value: Seq<u8>) {
    }

    proof fn lemma_decode_encode(v: ProtoInfoTCPView) {
        let kind = Self::kind_of(v);
        if kind & NLA_F_NESTED != 0 {
            lemma_nested_flag_set(kind);
        }
        if !(v is Other) {
            lemma_kind_code(kind);
        }
    }
}

impl ProtoInfoTCP {
    /// Tells whether this is the variant `State`.
    pub fn is_state(&self) -> (b: bool)
        ensures
            b == (self is State),
    {
        match self {
            ProtoInfoTCP::State(_) => true,
            _ => false,
        }
    }

    /// Tells whether this is the variant `OriginalWindowScale`.
    pub fn is_original_window_scale(&self) -> (b: bool)
        ensures
            b == (self is OriginalWindowScale),
    {
        match self {
            ProtoInfoTCP::OriginalWindowScale(_) => true,
            _ => false,
        }
    }

    /// Tells whether this is the variant `ReplyWindowScale`.
    pub fn is_reply_window_scale(&self) -> (b: bool)
        ensures
            b == (self is ReplyWindowScale),
    {
        match self {
            ProtoInfoTCP::ReplyWindowScale(_) => true,
            _ => false,
        }
    }

    /// Tells whether this is the variant `OriginalFlags`.
    pub fn is_original_flags(&self) -> (b: bool)
        ensures
            b == (self is OriginalFlags),
    {
        match self {
            ProtoInfoTCP::OriginalFlags(_) => true,
            _ => false,
        }
    }

    /// Tells whether this is the variant `ReplyFlags`.
    pub fn is_reply_flags(&self) -> (b: bool)
        ensures
            b == (self is ReplyFlags),
    {
        match self {
            ProtoInfoTCP::ReplyFlags(_) => true,
            _ => false,
        }
    }

    /// Tells whether this is the variant `Other`.
    pub fn is_other(&self) -> (b: bool)
        ensures
            b == (self is Other),
    {
        match self {
            ProtoInfoTCP::Other(_) => true,
            _ => false,
        }
    }
}

/// A bare byte is a connection state.
impl From<u8> for ProtoInfoTCP {
    fn from(value: u8) -> (nla: ProtoInfoTCP) {
        ProtoInfoTCP::State(value)
    }
}

impl FromSpecImpl<u8> for ProtoInfoTCP {
    open spec fn obeys_from_spec() -> bool {
        true
    }

    open spec fn from_spec(value: u8) -> ProtoInfoTCP {
        ProtoInfoTCP::State(value)
    }
}

/// A bare flag pair is that of the original direction.
impl From<TCPFlags> for ProtoInfoTCP {
    fn from(value: TCPFlags) -> (nla: ProtoInfoTCP) {
        ProtoInfoTCP::OriginalFlags(value)
    }
}

impl FromSpecImpl<TCPFlags> for ProtoInfoTCP {
    open spec fn obeys_from_spec() -> bool {
        true
    }

    open spec fn from_spec(value: TCPFlags) -> ProtoInfoTCP {
        ProtoInfoTCP::OriginalFlags(value)
    }
}

/// An attribute kept as it came stays so.
impl From<OpaqueNla> for ProtoInfoTCP {
    fn from(value: OpaqueNla) -> (nla: ProtoInfoTCP) {
        ProtoInfoTCP::Other(value)
    }
}

impl FromSpecImpl<OpaqueNla> for ProtoInfoTCP {
    open spec fn obeys_from_spec() -> bool {
        true
    }

    open spec fn from_spec(value: OpaqueNla) -> ProtoInfoTCP {
        ProtoInfoTCP::Other(value)
    }
}

} // verus!
