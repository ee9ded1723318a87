//! Data types of the protocol and their wire representation.

use vstd::prelude::*;

pub mod common;
pub mod datasets;
pub mod encoding;
pub mod messages;

verus! {

/// Why a message could not be written to or read from a byte buffer.
#[derive(Clone, Copy, Debug, PartialEq, Eq, Structural)]
pub enum WireFormatError {
    /// The buffer is shorter than the message.
    BufferTooShort,
    /// The message type nibble names a message this engine does not handle.
    UnsupportedMessageType,
    /// A field holds a value that the wire format cannot carry, or that
    /// contradicts another field.
    InvalidField,
}

} // verus!
