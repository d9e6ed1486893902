use vstd::prelude::*;

verus! {

/// Why a header, an envelope or a payload could not be written or read.
#[derive(Debug, Clone, Copy, PartialEq, Eq, Structural)]
pub enum SerializeError {
    /// The message does not fit where it has to go.
    TooBig,
    /// The payload codec rejected the bytes.
    NotParsed,
    /// Fewer bytes than the format needs.
    NotEnough,
    /// No bytes at all.
    BufferEmpty,
    /// The first two bytes are not the protocol's magic number.
    UnknownProtocol,
    /// The version byte is not one this library speaks.
    UnsupportedVersion,
    /// The message type byte names no message type.
    UnknownMessageType,
}

} // verus!
