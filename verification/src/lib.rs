//! Frame codec of the BYOND Topic protocol.
//!
//! A topic is a short text query sent to a running Dream Daemon instance. On
//! the wire it travels inside a small binary frame, and the reply comes back
//! in a frame of the same shape that carries nothing, a text or a number.
//! This crate builds the outbound frame and decodes the inbound one; both
//! operations are pure functions on bytes.

pub mod buffer;
pub mod codec;
pub mod value;

pub use codec::{
    decode_response, encode_topic, BUFFER_CAPACITY, MAX_TOPIC_LEN, READ_TIMEOUT_SECS,
};
pub use value::{ByondTopicValue, DecodedValue};
