//! The members of the address group of a tuple: source and destination
//! address, each IPv4 or IPv6.

use vstd::prelude::*;
use vstd::std_specs::convert::FromSpecImpl;
use crate::constants::CTA_IP_V4_DST;
use crate::constants::CTA_IP_V4_SRC;
use crate::constants::CTA_IP_V6_DST;
use crate::constants::CTA_IP_V6_SRC;
use crate::constants::NLA_F_NESTED;
use crate::constants::NLA_TYPE_MASK;
use crate::error::Attribute;
use crate::error::Cause;
use crate::error::ParseError;
use crate::nla::copy_bytes;
use crate::nla::model;
use crate::nla::Nla;
use crate::nla::NlaSlice;
use crate::nla::OpaqueNla;
use crate::nla::OpaqueNlaView;
use crate::wire::lemma_kind_code;
use crate::wire::lemma_nested_flag_set;

verus! {

/// Number of bytes of an IPv4 address.
pub const IPV4_LEN: usize = 4;

/// Number of bytes of an IPv6 address.
pub const IPV6_LEN: usize = 16;

/// An IP address, by its bytes in network order.
#[derive(Clone, Copy, Debug, PartialEq, Eq, Hash)]
pub enum IpAddress {
    V4([u8; 4]),
    V6([u8; 16]),
}

/// The model of an [`IpAddress`]: the family, and the bytes in network
/// order, four for IPv4 and sixteen for IPv6.
pub enum IpAddressView {
    V4(Seq<u8>),
    V6(Seq<u8>),
}

impl IpAddressView {
    /// The bytes of the address.
    pub open spec fn octets(self) -> Seq<u8> {
        match self {
            IpAddressView::V4(octets) => octets,
            IpAddressView::V6(octets) => octets,
        }
    }

    /// Whether the address has the number of bytes of its family.
    pub open spec fn well_formed(self) -> bool {
        match self {
            IpAddressView::V4(octets) => octets.len() == IPV4_LEN,
            IpAddressView::V6(octets) => octets.len() == IPV6_LEN,
        }
    }

    /// The address that the value of `attribute` holds. The number of bytes
    /// alone decides the family: four bytes are an IPv4 address, sixteen an
    /// IPv6 address, and no other number is an address.
    pub open spec fn decode(value: Seq<u8>, attribute: Attribute) -> Result<
        IpAddressView,
        ParseError,
    > {
        if value.len() == IPV4_LEN {
            Ok(IpAddressView::V4(value))
        } else if value.len() == IPV6_LEN {
            Ok(IpAddressView::V6(value))
        } else {
            Err(ParseError::value_length(attribute))
        }
    }
}

impl DeepView for IpAddress {
    type V = IpAddressView;

    open spec fn deep_view(&self) -> IpAddressView {
        match self {
            IpAddress::V4(octets) => IpAddressView::V4(octets@),
            IpAddress::V6(octets) => IpAddressView::V6(octets@),
        }
    }
}

/// Writes an address into `buffer`, which has exactly its length.
pub fn emit_ip(addr: &IpAddress, buffer: &mut [u8])
    requires
        old(buffer)@.len() == addr.deep_view().octets().len(),
    ensures
        final(buffer)@ == addr.deep_view().octets(),
{
    match addr {
        IpAddress::V4(octets) => copy_bytes(octets.as_slice(), buffer),
        IpAddress::V6(octets) => copy_bytes(octets.as_slice(), buffer),
    }
}

/// Reads the address that the value of `attribute` holds.
pub fn parse_ip(payload: &[u8], attribute: Attribute) -> (r: Result<IpAddress, ParseError>)
    ensures
        model(r) == IpAddressView::decode(payload@, attribute),
{
    if payload.len() == IPV4_LEN {
        let mut octets = [0u8; 4];
        copy_bytes(payload, &mut octets);
        Ok(IpAddress::V4(octets))
    } else if payload.len() == IPV6_LEN {
        let mut octets = [0u8; 16];
        copy_bytes(payload, &mut octets);
        Ok(IpAddress::V6(octets))
    } else {
        Err(ParseError { attribute: Some(attribute), cause: Cause::ValueLength })
    }
}

/// A member of the address group.
#[derive(Clone, Debug, PartialEq, Eq)]
pub enum IPTuple {
    /// The source address.
    SourceAddress(IpAddress),
    /// The destination address.
    DestinationAddress(IpAddress),
    /// A member of a kind that this codec does not interpret.
    Other(OpaqueNla),
}

/// The model of an [`IPTuple`].
pub enum IPTupleView {
    SourceAddress(IpAddressView),
    DestinationAddress(IpAddressView),
    Other(OpaqueNlaView),
}

impl DeepView for IPTuple {
    type V = IPTupleView;

    open spec fn deep_view(&self) -> IPTupleView {
        match self {
            IPTuple::SourceAddress(attr) => IPTupleView::SourceAddress(attr.deep_view()),
            IPTuple::DestinationAddress(attr) => IPTupleView::DestinationAddress(attr.deep_view()),
            IPTuple::Other(attr) => IPTupleView::Other(attr.deep_view()),
        }
    }
}

impl Nla for IPTuple {
    open spec fn kind_of(v: IPTupleView) -> u16 {
        match v {
            IPTupleView::SourceAddress(IpAddressView::V4(_)) => CTA_IP_V4_SRC,
            IPTupleView::SourceAddress(IpAddressView::V6(_)) => CTA_IP_V6_SRC,
            IPTupleView::DestinationAddress(IpAddressView::V4(_)) => CTA_IP_V4_DST,
            IPTupleView::DestinationAddress(IpAddressView::V6(_)) => CTA_IP_V6_DST,
            IPTupleView::Other(attr) => attr.kind,
        }
    }

    open spec fn nested_of(v: IPTupleView) -> bool {
        Self::kind_of(v) & NLA_F_NESTED != 0
    }

    open spec fn value_of(v: IPTupleView) -> Seq<u8> {
        match v {
            IPTupleView::SourceAddress(attr) => attr.octets(),
            IPTupleView::DestinationAddress(attr) => attr.octets(),
            IPTupleView::Other(attr) => attr.value,
        }
    }

    open spec fn encodable_of(v: IPTupleView) -> bool {
        match v {
            IPTupleView::SourceAddress(attr) => attr.well_formed(),
            IPTupleView::DestinationAddress(attr) => attr.well_formed(),
            IPTupleView::Other(attr) => OpaqueNla::encodable_of(attr),
        }
    }

    open spec fn decode(kind: u16, value: Seq<u8>) -> Result<IPTupleView, ParseError> {
        let code = kind & NLA_TYPE_MASK;
        if code == CTA_IP_V4_SRC || code == CTA_IP_V6_SRC {
            match IpAddressView::decode(value, Attribute::CtaIpSrc) {
                Ok(attr) => Ok(IPTupleView::SourceAddress(attr)),
                Err(e) => Err(e),
            }
        } else if code == CTA_IP_V4_DST || code == CTA_IP_V6_DST {
            match IpAddressView::decode(value, Attribute::CtaIpDst) {
                Ok(attr) => Ok(IPTupleView::DestinationAddress(attr)),
                Err(e) => Err(e),
            }
        } else {
            Ok(IPTupleView::Other(OpaqueNlaView { kind, value }))
        }
    }

    open spec fn interprets(code: u16) -> bool {
        ||| code == CTA_IP_V4_SRC
        ||| code == CTA_IP_V6_SRC
        ||| code == CTA_IP_V4_DST
        ||| code == CTA_IP_V6_DST
    }

    open spec fn opaque(nla: OpaqueNlaView) -> IPTupleView {
        IPTupleView::Other(nla)
    }

    open spec fn canonical(v: IPTupleView) -> bool {
        match v {
            IPTupleView::Other(attr) => !Self::interprets(attr.kind & NLA_TYPE_MASK),
            _ => true,
        }
    }

    fn value_len(&self) -> (n: usize) {
        match self {
            IPTuple::SourceAddress(attr) => match attr {
                IpAddress::V4(_) => IPV4_LEN,
                IpAddress::V6(_) => IPV6_LEN,
            },
            IPTuple::DestinationAddress(attr) => match attr {
                IpAddress::V4(_) => IPV4_LEN,
                IpAddress::V6(_) => IPV6_LEN,
            },
            IPTuple::Other(attr) => attr.value_len(),
        }
    }

    fn kind(&self) -> (k: u16) {
        match self {
            IPTuple::SourceAddress(attr) => match attr {
                IpAddress::V4(_) => CTA_IP_V4_SRC,
                IpAddress::V6(_) => CTA_IP_V6_SRC,
            },
            IPTuple::DestinationAddress(attr) => match attr {
                IpAddress::V4(_) => CTA_IP_V4_DST,
                IpAddress::V6(_) => CTA_IP_V6_DST,
            },
            IPTuple::Other(attr) => attr.kind(),
        }
    }

    fn is_nested(&self) -> (b: bool) {
        (self.kind() & NLA_F_NESTED) != 0
    }

    fn emit_value(&self, buffer: &mut [u8]) {
        match self {
            IPTuple::SourceAddress(attr) => emit_ip(attr, buffer),
            IPTuple::DestinationAddress(attr) => emit_ip(attr, buffer),
            IPTuple::Other(attr) => attr.emit_value(buffer),
        }
    }

    fn parse(buf: &NlaSlice) -> (r: Result<IPTuple, ParseError>) {
        let kind = buf.kind();
        let payload = buf.value();
        let nla = match kind {
            CTA_IP_V4_SRC | CTA_IP_V6_SRC => IPTuple::SourceAddress(
                parse_ip(payload, Attribute::CtaIpSrc)?,
            ),
            CTA_IP_V4_DST | CTA_IP_V6_DST => IPTuple::DestinationAddress(
                parse_ip(payload, Attribute::CtaIpDst)?,
            ),
            _ => IPTuple::Other(OpaqueNla::parse(buf)?),
        };
        Ok(nla)
    }

    fn encodable(&self) -> (b: bool) {
        match self {
            IPTuple::Other(attr) => attr.encodable(),
            _ => true,
        }
    }

    proof fn lemma_value_fits(v: IPTupleView) {
    }

    proof fn lemma_unknown_kind(kind: u16, value: Seq<u8>) {
    }

    proof fn lemma_decode_canonical(kind: u16, value: Seq<u8>) {
    }

    proof fn lemma_decode_encode(v: IPTupleView) {
        let kind = Self::kind_of(v);
        if kind & NLA_F_NESTED != 0 {
            lemma_nested_flag_set(kind);
        }
        if !(v is Other) {
            lemma_kind_code(kind);
        }
    }
}

impl IPTuple {
    /// Tells whether this is the variant `SourceAddress`.
    pub fn is_source_address(&self) -> (b: bool)
        ensures
            b == (self is SourceAddress),
    {
        match self {
            IPTuple::SourceAddress(_) => true,
            _ => false,
        }
    }

    /// Tells whether this is the variant `DestinationAddress`.
    pub fn is_destination_address(&self) -> (b: bool)
        ensures
            b == (self is DestinationAddress),
    {
        match self {
            IPTuple::DestinationAddress(_) => true,
            _ => false,
        }
    }

    /// Tells whether this is the variant `Other`.
    pub fn is_other(&self) -> (b: bool)
        ensures
            b == (self is Other),
    {
        match self {
            IPTuple::Other(_) => true,
            _ => false,
        }
    }
}

/// A bare address is a source address.
impl From<IpAddress> for IPTuple {
    fn from(value: IpAddress) -> (nla: IPTuple) {
        IPTuple::SourceAddress(value)
    }
}

impl FromSpecImpl<IpAddress> for IPTuple {
    open spec fn obeys_from_spec() -> bool {
        true
    }

    open spec fn from_spec(value: IpAddress) -> IPTuple {
        IPTuple::SourceAddress(value)
    }
}

/// An attribute kept as it came stays so.
impl From<OpaqueNla> for IPTuple {
    fn from(value: OpaqueNla) -> (nla: IPTuple) {
        IPTuple::Other(value)
    }
}

impl FromSpecImpl<OpaqueNla> for IPTuple {
    open spec fn obeys_from_spec() -> bool {
        true
    }

    open spec fn from_spec(value: OpaqueNla) -> IPTuple {
        IPTuple::Other(value)
    }
}

/// The number of bytes alone decides the family of an address, whichever of
/// the address kinds the attribute has: four bytes are an IPv4 address,
/// sixteen an IPv6 address, and any other number is refused.
pub proof fn lemma_family_follows_length(kind: u16, value: Seq<u8>)
    requires
        IPTuple::interprets(kind & NLA_TYPE_MASK),
    ensures
        ({
            let code = kind & NLA_TYPE_MASK;
            let source = code == CTA_IP_V4_SRC || code == CTA_IP_V6_SRC;
            &&& value.len() == 4 ==> IPTuple::decode(kind, value) == Ok::<IPTupleView, ParseError>(
                if source {
                    IPTupleView::SourceAddress(IpAddressView::V4(value))
                } else {
                    IPTupleView::DestinationAddress(IpAddressView::V4(value))
                },
            )
            &&& value.len() == 16 ==> IPTuple::decode(kind, value) == Ok::<IPTupleView, ParseError>(
                if source {
                    IPTupleView::SourceAddress(IpAddressView::V6(value))
                } else {
                    IPTupleView::DestinationAddress(IpAddressView::V6(value))
                },
            )
            &&& value.len() != 4 && value.len() != 16 ==> IPTuple::decode(kind, value) == Err::<
                IPTupleView,
                ParseError,
            >(
                ParseError::value_length(
                    if source {
                        Attribute::CtaIpSrc
                    } else {
                        Attribute::CtaIpDst
                    },
                ),
            )
        }),
{
}

} // verus!
