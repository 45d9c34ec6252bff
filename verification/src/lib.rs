//! Command construction and reply decoding for stream and consumer-group
//! operations of a key-value-store wire protocol.
//!
//! The crate has two halves: a builder that assembles outgoing command
//! frames while enforcing which sub-options are legal together, and a
//! decoder that converts a generic, dynamically shaped reply tree into
//! strongly typed structures describing a stream's metadata, its consumer
//! groups and their consumers.

use vstd::prelude::*;

pub mod codec;
pub mod fields;
pub mod xgroup;
pub mod xinfo;

pub use xgroup::XGroup;
pub use xinfo::{XInfo, XInfoType};

verus! {

/// A decoded record paired with the message id it was stored under.
pub struct Record<T> {
    pub msg_id: String,
    pub body: T,
}

} // verus!
