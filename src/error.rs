//! Why a datagram could not be decoded.

use vstd::prelude::*;

verus! {

/// A failure to decode one datagram. Each failure concerns that datagram
/// alone.
#[derive(Clone, Copy, PartialEq, Eq, Debug, Structural)]
pub enum DecodeError {
    /// The input is shorter than the wire size of what was to be read.
    ShortBuffer,
    /// The header's packet-type byte names no known packet kind.
    UnknownPacketType(u8),
    /// A name field does not hold valid UTF-8 before its first NUL.
    InvalidText,
    /// A result-status byte outside the documented range.
    InvalidResultStatus(u8),
    /// An event packet whose four-letter code names no known event.
    UnknownEventCode,
}

} // verus!
