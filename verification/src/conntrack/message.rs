//! The body of a connection-tracking message: what follows the netfilter
//! header.

use vstd::prelude::*;
use crate::conntrack::nlas::nla::ConntrackNla;
use crate::conntrack::nlas::nla::ConntrackNlaView;
use crate::constants::IPCTNL_MSG_CT_GET;
use crate::constants::NFNL_SUBSYS_CTNETLINK;
use crate::error::ParseError;
use crate::nla::Emitable;
use crate::nla::model;
use crate::nla::OpaqueNla;
use crate::nla::OpaqueNlaView;
use crate::sequence::all_canonical;
use crate::sequence::all_encodable;
use crate::sequence::buffer_len_all;
use crate::sequence::checked_len_all;
use crate::sequence::decode_all;
use crate::sequence::emit_all;
use crate::sequence::encode_all;
use crate::sequence::lemma_decode_all_canonical;
use crate::sequence::lemma_decode_all_encode_all;
use crate::sequence::parse_all;

verus! {

/// A connection-tracking message.
#[derive(Debug, PartialEq, Eq, Clone)]
pub enum ConntrackMessage {
    /// A query, or a reply to one, with its attributes.
    Get(Vec<ConntrackNla>),
    /// A message of a type that this codec does not interpret: the type and
    /// the attributes as they came.
    Other { message_type: u8, nlas: Vec<OpaqueNla> },
}

/// The model of a [`ConntrackMessage`].
pub enum ConntrackMessageView {
    Get(Seq<ConntrackNlaView>),
    Other { message_type: u8, nlas: Seq<OpaqueNlaView> },
}

impl DeepView for ConntrackMessage {
    type V = ConntrackMessageView;

    open spec fn deep_view(&self) -> ConntrackMessageView {
        match self {
            ConntrackMessage::Get(nlas) => ConntrackMessageView::Get(nlas.deep_view()),
            ConntrackMessage::Other { message_type, nlas } => ConntrackMessageView::Other {
                message_type: *message_type,
                nlas: nlas.deep_view(),
            },
        }
    }
}

impl ConntrackMessageView {
    /// The type tag of the message.
    pub open spec fn message_type(self) -> u8 {
        match self {
            ConntrackMessageView::Get(_) => IPCTNL_MSG_CT_GET,
            ConntrackMessageView::Other { message_type, .. } => message_type,
        }
    }

    /// The bytes of the message body: its attributes in their order, each
    /// with its padding, and nothing else.
    pub open spec fn encoding(self) -> Seq<u8> {
        match self {
            ConntrackMessageView::Get(nlas) => encode_all::<ConntrackNla>(nlas),
            ConntrackMessageView::Other { nlas, .. } => encode_all::<OpaqueNla>(nlas),
        }
    }

    /// Whether the message can be written: every attribute can, and the
    /// length of the body is a machine number.
    pub open spec fn encodable(self) -> bool {
        &&& self.encoding().len() <= usize::MAX
        &&& match self {
            ConntrackMessageView::Get(nlas) => all_encodable::<ConntrackNla>(nlas),
            ConntrackMessageView::Other { nlas, .. } => all_encodable::<OpaqueNla>(nlas),
        }
    }

    /// Whether the message is its own decoding: it holds no uninterpreted
    /// part of a kind that the decoder interprets.
    pub open spec fn canonical(self) -> bool {
        match self {
            ConntrackMessageView::Get(nlas) => all_canonical::<ConntrackNla>(nlas),
            ConntrackMessageView::Other { message_type, .. } => message_type != IPCTNL_MSG_CT_GET,
        }
    }

    /// The message that a body decodes to under a type tag. The tag alone
    /// decides: a query has its attributes interpreted, any other type keeps
    /// them as they came, with the tag.
    pub open spec fn decode(body: Seq<u8>, message_type: u8) -> Result<
        ConntrackMessageView,
        ParseError,
    > {
        if message_type == IPCTNL_MSG_CT_GET {
            match decode_all::<ConntrackNla>(body, None) {
                Ok(nlas) => Ok(ConntrackMessageView::Get(nlas)),
                Err(e) => Err(e),
            }
        } else {
            match decode_all::<OpaqueNla>(body, None) {
                Ok(nlas) => Ok(ConntrackMessageView::Other { message_type, nlas }),
                Err(e) => Err(e),
            }
        }
    }

    /// Whatever a body decodes to is its own decoding.
    pub proof fn lemma_decode_canonical(body: Seq<u8>, message_type: u8)
        ensures
            ConntrackMessageView::decode(body, message_type) matches Ok(m) ==> m.canonical(),
    {
        lemma_decode_all_canonical::<ConntrackNla>(body, None);
    }

    /// Decoding the body that a message encodes to, under the message's own
    /// type tag, gives the message back.
    pub proof fn lemma_decode_encoding(self)
        requires
            self.encodable(),
            self.canonical(),
        ensures
            ConntrackMessageView::decode(self.encoding(), self.message_type()) == Ok::<
                ConntrackMessageView,
                ParseError,
            >(self),
    {
        match self {
            ConntrackMessageView::Get(nlas) => lemma_decode_all_encode_all::<ConntrackNla>(
                nlas,
                None,
            ),
            ConntrackMessageView::Other { nlas, .. } => lemma_decode_all_encode_all::<OpaqueNla>(
                nlas,
                None,
            ),
        }
    }
}

impl ConntrackMessage {
    /// The netfilter subsystem of these messages.
    pub const SUBSYS: u8 = NFNL_SUBSYS_CTNETLINK;

    /// The type tag of the message.
    pub fn message_type(&self) -> (t: u8)
        ensures
            t == self.deep_view().message_type(),
    {
        match self {
            ConntrackMessage::Get(_) => IPCTNL_MSG_CT_GET,
            ConntrackMessage::Other { message_type, .. } => *message_type,
        }
    }

    /// Tells whether the message can be written.
    pub fn encodable(&self) -> (b: bool)
        ensures
            b == self.deep_view().encodable(),
    {
        match self {
            ConntrackMessage::Get(nlas) => checked_len_all(nlas, usize::MAX).is_some(),
            ConntrackMessage::Other { nlas, .. } => checked_len_all(nlas, usize::MAX).is_some(),
        }
    }

    /// Decodes a message body under the type tag that the netfilter header
    /// gave.
    pub fn parse_with_param(buf: &[u8], message_type: u8) -> (r: Result<
        ConntrackMessage,
        ParseError,
    >)
        ensures
            model(r) == ConntrackMessageView::decode(buf@, message_type),
    {
        Ok(
            match message_type {
                IPCTNL_MSG_CT_GET => {
                    let nlas = parse_all::<ConntrackNla>(buf, None)?;
                    ConntrackMessage::Get(nlas)
                },
                _ => ConntrackMessage::Other {
                    message_type,
                    nlas: parse_all::<OpaqueNla>(buf, None)?,
                },
            },
        )
    }
}

impl Emitable for ConntrackMessage {
    /// The bytes of the message body.
    open spec fn encoding(&self) -> Seq<u8> {
        self.deep_view().encoding()
    }

    open spec fn emittable(&self) -> bool {
        self.deep_view().encodable()
    }

    fn buffer_len(&self) -> (n: usize) {
        match self {
            ConntrackMessage::Get(nlas) => buffer_len_all(nlas),
            ConntrackMessage::Other { nlas, .. } => buffer_len_all(nlas),
        }
    }

    fn emit(&self, buffer: &mut [u8]) {
        match self {
            ConntrackMessage::Get(nlas) => emit_all(nlas, buffer),
            ConntrackMessage::Other { nlas, .. } => emit_all(nlas, buffer),
        }
    }
}

} // verus!
