//! Connection-tracking messages and their attributes.

mod message;
pub mod nlas;

pub use message::ConntrackMessage;
pub use message::ConntrackMessageView;
