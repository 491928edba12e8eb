//! Numeric codes of the connection-tracking subsystem.

use vstd::prelude::*;

verus! {

/// Netfilter subsystem that carries the connection-tracking messages.
pub const NFNL_SUBSYS_CTNETLINK: u8 = 1;

/// Message type of a connection-tracking query.
pub const IPCTNL_MSG_CT_GET: u8 = 1;

/// Attribute of a message: the tuple of the original direction.
pub const CTA_TUPLE_ORIG: u16 = 1;

/// Attribute of a message: protocol-specific connection state.
pub const CTA_PROTOINFO: u16 = 4;

/// Member of a tuple: the address pair.
pub const CTA_TUPLE_IP: u16 = 1;

/// Member of a tuple: protocol number and ports.
pub const CTA_TUPLE_PROTO: u16 = 2;

/// Member of the address pair: IPv4 source address.
pub const CTA_IP_V4_SRC: u16 = 1;

/// Member of the address pair: IPv4 destination address.
pub const CTA_IP_V4_DST: u16 = 2;

/// Member of the address pair: IPv6 source address.
pub const CTA_IP_V6_SRC: u16 = 3;

/// Member of the address pair: IPv6 destination address.
pub const CTA_IP_V6_DST: u16 = 4;

/// Member of the protocol group: protocol number.
pub const CTA_PROTO_NUM: u16 = 1;

/// Member of the protocol group: source port.
pub const CTA_PROTO_SRC_PORT: u16 = 2;

/// Member of the protocol group: destination port.
pub const CTA_PROTO_DST_PORT: u16 = 3;

/// Member of the protocol information: the TCP group.
pub const CTA_PROTOINFO_TCP: u16 = 1;

/// Member of the TCP group: connection state.
pub const CTA_PROTOINFO_TCP_STATE: u16 = 1;

/// Member of the TCP group: window scale of the original direction.
pub const CTA_PROTOINFO_TCP_WSCALE_ORIGINAL: u16 = 2;

/// Member of the TCP group: window scale of the reply direction.
pub const CTA_PROTOINFO_TCP_WSCALE_REPLY: u16 = 3;

/// Member of the TCP group: flags of the original direction.
pub const CTA_PROTOINFO_TCP_FLAGS_ORIGINAL: u16 = 4;

/// Member of the TCP group: flags of the reply direction.
pub const CTA_PROTOINFO_TCP_FLAGS_REPLY: u16 = 5;

/// Bit of the kind field that marks a value made of further attributes.
pub const NLA_F_NESTED: u16 = 0x8000;

/// Bit of the kind field that marks a value in network byte order.
pub const NLA_F_NET_BYTEORDER: u16 = 0x4000;

/// The bits of the kind field that hold the kind itself.
pub const NLA_TYPE_MASK: u16 = 0x3fff;

/// Size of an attribute header: a 16-bit length and a 16-bit kind.
pub const NLA_HEADER_SIZE: usize = 4;

/// Attributes start at multiples of this many bytes.
pub const NLA_ALIGNTO: usize = 4;

/// Longest value whose length the 16-bit length field can declare.
pub const NLA_MAX_VALUE_LEN: usize = 65531;

} // verus!
