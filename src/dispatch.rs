//! Turns one datagram into a typed packet: the header first, then the decoder
//! that its packet kind selects.

use vstd::prelude::*;
use crate::error::DecodeError;
use crate::packets::car_motion_data::PacketMotionData;
use crate::packets::car_telemetry::PacketCarTelemetry;
use crate::packets::header::{PacketHeader, PacketType, header_of, HEADER_SIZE};
use crate::packets::lap_data::PacketLapData;
use crate::packets::session_data::PacketSessionData;

verus! {

/// A decoded packet of one of the kinds that this library consumes, with its
/// header.
#[derive(Clone, Copy, Debug, PartialEq)]
pub enum TelemetryPacket {
    Session((PacketHeader, PacketSessionData)),
    Motion((PacketHeader, PacketMotionData)),
    CarTelemetry((PacketHeader, PacketCarTelemetry)),
    LapData((PacketHeader, PacketLapData)),
}

/// What became of a datagram that decoded without error.
#[derive(Clone, Copy, Debug, PartialEq)]
pub enum Decoded {
    /// A packet of a consumed kind.
    Packet(TelemetryPacket),
    /// A well-formed header of a kind that is deliberately not consumed; its
    /// payload was not looked at.
    Skipped(PacketType),
}

/// Whether datagrams of this kind are decoded past their header.
pub open spec fn consumed(t: PacketType) -> bool {
    t == PacketType::Motion || t == PacketType::Session || t == PacketType::CarTelemetry || t
        == PacketType::LapData
}

/// The bytes after the header.
pub open spec fn payload_of(s: Seq<u8>) -> Seq<u8> {
    s.subrange(29, s.len() as int)
}

/// Whether `r` is what decoding the datagram `s` must give.
pub open spec fn datagram_outcome(s: Seq<u8>, r: Result<Decoded, DecodeError>) -> bool {
    match header_of(s) {
        Err(e) => r == Err::<Decoded, DecodeError>(e),
        Ok(h) => {
            let p = payload_of(s);
            match h.packet_id {
                PacketType::Motion => if p.len() < 1320 {
                    r == Err::<Decoded, DecodeError>(DecodeError::ShortBuffer)
                } else {
                    r matches Ok(Decoded::Packet(TelemetryPacket::Motion((hh, m)))) && hh == h
                        && m.decoded_from(p)
                },
                PacketType::Session => if p.len() < 724 {
                    r == Err::<Decoded, DecodeError>(DecodeError::ShortBuffer)
                } else {
                    r matches Ok(Decoded::Packet(TelemetryPacket::Session((hh, d)))) && hh == h
                        && d.decoded_from(p)
                },
                PacketType::LapData => if p.len() < 1256 {
                    r == Err::<Decoded, DecodeError>(DecodeError::ShortBuffer)
                } else {
                    r matches Ok(Decoded::Packet(TelemetryPacket::LapData((hh, d)))) && hh == h
                        && d.decoded_from(p)
                },
                PacketType::CarTelemetry => if p.len() < 60 {
                    r == Err::<Decoded, DecodeError>(DecodeError::ShortBuffer)
                } else {
                    r == Ok::<Decoded, DecodeError>(
                        Decoded::Packet(
                            TelemetryPacket::CarTelemetry((h, PacketCarTelemetry::spec_at(p, 0))),
                        ),
                    )
                },
                _ => r == Ok::<Decoded, DecodeError>(Decoded::Skipped(h.packet_id)),
            }
        },
    }
}

impl TelemetryPacket {
    /// Decodes one datagram. A header error or a payload error of a consumed
    /// kind is returned as such; a well-formed header of any other kind gives
    /// `Skipped`.
    pub fn try_from(value: &[u8]) -> (r: Result<Decoded, DecodeError>)
        ensures
            datagram_outcome(value@, r),
            r matches Ok(Decoded::Skipped(t)) ==> !consumed(t),
    {
        let header = match PacketHeader::try_from(value) {
            Ok(h) => h,
            Err(e) => {
                return Err(e);
            },
        };
        let bytes = &value[HEADER_SIZE..value.len()];
        assert(bytes@ == payload_of(value@));
        match header.packet_id {
            PacketType::Motion => match PacketMotionData::try_from(bytes) {
                Ok(p) => Ok(Decoded::Packet(TelemetryPacket::Motion((header, p)))),
                Err(e) => Err(e),
            },
            PacketType::Session => match PacketSessionData::try_from(bytes) {
                Ok(p) => Ok(Decoded::Packet(TelemetryPacket::Session((header, p)))),
                Err(e) => Err(e),
            },
            PacketType::CarTelemetry => match PacketCarTelemetry::try_from(bytes) {
                Ok(p) => Ok(Decoded::Packet(TelemetryPacket::CarTelemetry((header, p)))),
                Err(e) => Err(e),
            },
            PacketType::LapData => match PacketLapData::try_from(bytes) {
                Ok(p) => Ok(Decoded::Packet(TelemetryPacket::LapData((header, p)))),
                Err(e) => Err(e),
            },
            other => Ok(Decoded::Skipped(other)),
        }
    }
}

} // verus!
