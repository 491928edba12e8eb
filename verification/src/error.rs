//! Why a decode failed.

use vstd::prelude::*;

verus! {

/// The attributes whose values this codec interprets; a decode error names
/// the one whose value it could not read.
#[derive(Clone, Copy, Debug, PartialEq, Eq, Hash)]
pub enum Attribute {
    CtaTupleOrig,
    CtaProtoInfo,
    CtaTupleIp,
    CtaTupleProto,
    CtaIpSrc,
    CtaIpDst,
    CtaProtoNum,
    CtaProtoSrcPort,
    CtaProtoDstPort,
    CtaProtoInfoTcp,
    CtaProtoInfoTcpState,
    CtaProtoInfoTcpWscaleOriginal,
    CtaProtoInfoTcpWscaleReply,
    CtaProtoInfoTcpFlagsOriginal,
    CtaProtoInfoTcpFlagsReply,
}

/// What was wrong with the bytes.
#[derive(Clone, Copy, Debug, PartialEq, Eq, Hash)]
pub enum Cause {
    /// Where an attribute should start, fewer than four bytes are left, or
    /// the length it declares is shorter than its header or reaches past the
    /// end of the bytes.
    Framing,
    /// A value of fixed width came with another number of bytes.
    ValueLength,
}

/// A failed decode: the cause, and the attribute whose value was being read
/// when it happened.
#[derive(Clone, Copy, Debug, PartialEq, Eq, Hash)]
pub struct ParseError {
    /// The attribute whose value is invalid; `None` where the attribute
    /// sequence of the message itself is malformed.
    pub attribute: Option<Attribute>,
    pub cause: Cause,
}

impl ParseError {
    /// The error for a malformed attribute sequence inside `attribute`, or
    /// in the message itself.
    pub open spec fn framing(attribute: Option<Attribute>) -> ParseError {
        ParseError { attribute, cause: Cause::Framing }
    }

    /// The error for a fixed-width value of `attribute` with the wrong
    /// number of bytes.
    pub open spec fn value_length(attribute: Attribute) -> ParseError {
        ParseError { attribute: Some(attribute), cause: Cause::ValueLength }
    }

    /// The same failure, named as one of the value of `attribute`.
    pub fn context(self, attribute: Attribute) -> (e: ParseError)
        ensures
            e == (ParseError { attribute: Some(attribute), cause: self.cause }),
    {
        ParseError { attribute: Some(attribute), cause: self.cause }
    }
}

} // verus!
