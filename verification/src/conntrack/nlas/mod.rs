//! The attributes of a connection-tracking message, level by level.

mod iptuple;
pub mod nla;
mod protoinfo;
mod protoinfotcp;
mod prototuple;
mod tcp_flags;
mod tuple;

pub use iptuple::IPTuple;
pub use iptuple::IPTupleView;
pub use iptuple::IpAddress;
pub use iptuple::IpAddressView;
pub use protoinfo::ProtoInfo;
pub use protoinfo::ProtoInfoView;
pub use protoinfotcp::ProtoInfoTCP;
pub use protoinfotcp::ProtoInfoTCPView;
pub use prototuple::ProtoTuple;
pub use prototuple::ProtoTupleView;
pub use tcp_flags::TCPFlags;
pub use tuple::Tuple;
pub use tuple::TupleView;
