//! Codec for the connection-tracking messages of the netfilter netlink
//! family: typed attribute trees on one side, their exact wire bytes on the
//! other, with every function verified against a mathematical model of the
//! wire format.
//!
//! - [`wire`] states the format of one attribute over byte sequences.
//! - [`nla`] holds what all attributes share: the [`nla::Nla`] trait, the
//!   one way in which every attribute is written, and the attribute that is
//!   kept as it came.
//! - [`sequence`] decodes and encodes sequences of attributes, the values
//!   of nested attributes among them.
//! - [`value`] reads and writes the values of fixed width.
//! - [`conntrack`] has the message and its attributes, level by level.
//! - [`error`] says why a decode failed, [`constants`] names the codes.
//! - [`packet_core`] lists what is taken on trust from
//!   `netlink_packet_core`, which does the reading and writing of header
//!   fields and of numbers.

pub mod conntrack;
pub mod constants;
pub mod error;
pub mod nla;
pub mod packet_core;
pub mod sequence;
pub mod value;
pub mod wire;
