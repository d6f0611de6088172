use vstd::prelude::*;

verus! {

/// What can go wrong while encoding, framing or decoding packets.
#[derive(Debug, Clone, Copy, PartialEq, Eq, Structural)]
pub enum ProtocolError {
    /// A VarInt ran past five bytes.
    MalformedVarInt,
    /// The data ended before a VarInt, a length prefix, a field or a body was complete.
    UnexpectedEof,
    /// A packet declared a body longer than the safety cap.
    PacketTooLarge,
    /// The response did not start with the expected packet identifier.
    UnexpectedPacketId,
    /// A string field held bytes that are not UTF-8.
    InvalidUtf8,
    /// An outgoing value does not fit the 32 bits that a VarInt carries.
    ValueOutOfRange,
    /// A step of the status exchange was asked for out of its order, or
    /// after the exchange had ended.
    OutOfOrder,
    /// The underlying transport failed.
    IoError,
}

} // verus!
