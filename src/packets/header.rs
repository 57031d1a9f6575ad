//! The 29-byte envelope that precedes every packet.

use vstd::prelude::*;
use crate::error::DecodeError;
use crate::packets::PacketSize;
use crate::wire::{
    RawF32, le_u16, le_u32, le_u64, le_f32, u16_bytes, u32_bytes, u64_bytes, read_u16, read_u64,
    read_f32, read_u32, lemma_u16_round_trip, lemma_u32_round_trip, lemma_u64_round_trip,
};

verus! {

/// The kind of packet that follows a header.
#[derive(Clone, Copy, PartialEq, Eq, Debug, Structural)]
pub enum PacketType {
    Motion,
    Session,
    LapData,
    Event,
    Participants,
    CarSetups,
    CarTelemetry,
    CarStatus,
    FinalClassification,
    LobbyInfo,
    CarDamage,
    SessionHistory,
    TyreSets,
    MotionEx,
    TimeTrial,
}

/// The packet kind that a discriminant byte names, if any.
pub open spec fn packet_type_of(v: u8) -> Option<PacketType> {
    if v == 0 {
        Some(PacketType::Motion)
    } else if v == 1 {
        Some(PacketType::Session)
    } else if v == 2 {
        Some(PacketType::LapData)
    } else if v == 3 {
        Some(PacketType::Event)
    } else if v == 4 {
        Some(PacketType::Participants)
    } else if v == 5 {
        Some(PacketType::CarSetups)
    } else if v == 6 {
        Some(PacketType::CarTelemetry)
    } else if v == 7 {
        Some(PacketType::CarStatus)
    } else if v == 8 {
        Some(PacketType::FinalClassification)
    } else if v == 9 {
        Some(PacketType::LobbyInfo)
    } else if v == 10 {
        Some(PacketType::CarDamage)
    } else if v == 11 {
        Some(PacketType::SessionHistory)
    } else if v == 12 {
        Some(PacketType::TyreSets)
    } else if v == 13 {
        Some(PacketType::MotionEx)
    } else if v == 14 {
        Some(PacketType::TimeTrial)
    } else {
        None
    }
}

/// The discriminant byte of a packet kind.
pub open spec fn packet_type_byte(t: PacketType) -> u8 {
    match t {
        PacketType::Motion => 0,
        PacketType::Session => 1,
        PacketType::LapData => 2,
        PacketType::Event => 3,
        PacketType::Participants => 4,
        PacketType::CarSetups => 5,
        PacketType::CarTelemetry => 6,
        PacketType::CarStatus => 7,
        PacketType::FinalClassification => 8,
        PacketType::LobbyInfo => 9,
        PacketType::CarDamage => 10,
        PacketType::SessionHistory => 11,
        PacketType::TyreSets => 12,
        PacketType::MotionEx => 13,
        PacketType::TimeTrial => 14,
    }
}

impl PacketType {
    /// Maps a discriminant byte to its packet kind; bytes from 15 up are
    /// refused.
    pub fn try_from(value: u8) -> (r: Result<PacketType, DecodeError>)
        ensures
            r == (match packet_type_of(value) {
                Some(t) => Ok(t),
                None => Err(DecodeError::UnknownPacketType(value)),
            }),
    {
        match value {
            0 => Ok(PacketType::Motion),
            1 => Ok(PacketType::Session),
            2 => Ok(PacketType::LapData),
            3 => Ok(PacketType::Event),
            4 => Ok(PacketType::Participants),
            5 => Ok(PacketType::CarSetups),
            6 => Ok(PacketType::CarTelemetry),
            7 => Ok(PacketType::CarStatus),
            8 => Ok(PacketType::FinalClassification),
            9 => Ok(PacketType::LobbyInfo),
            10 => Ok(PacketType::CarDamage),
            11 => Ok(PacketType::SessionHistory),
            12 => Ok(PacketType::TyreSets),
            13 => Ok(PacketType::MotionEx),
            14 => Ok(PacketType::TimeTrial),
            _ => Err(DecodeError::UnknownPacketType(value)),
        }
    }
}

/// Every byte from 0 to 14 names a packet kind, whose byte it is, and no
/// other byte names one.
pub proof fn lemma_packet_type_bytes(v: u8)
    ensures
        v <= 14 <==> packet_type_of(v) is Some,
        packet_type_of(v) matches Some(t) ==> packet_type_byte(t) == v,
{
}

/// Each packet kind is named by its own discriminant byte.
pub proof fn lemma_packet_type_byte_names(t: PacketType)
    ensures
        packet_type_of(packet_type_byte(t)) == Some(t),
{
}

/// The header that precedes every packet.
#[derive(Clone, Copy, PartialEq, Eq, Debug, Structural)]
pub struct PacketHeader {
    pub packet_format: u16,
    pub game_year: u8,
    pub game_major_version: u8,
    pub game_minor_version: u8,
    pub packet_version: u8,
    pub packet_id: PacketType,
    pub session_uid: u64,
    pub session_time: RawF32,
    pub frame_identifier: u32,
    pub overall_frame_identifier: u32,
    pub player_car_index: u8,
    /// Absent where the wire holds 255.
    pub secondary_player_car_index: Option<u8>,
}

/// The wire size of a header.
pub const HEADER_SIZE: usize = 29;

/// What a datagram's first bytes decode to as a header.
pub open spec fn header_of(s: Seq<u8>) -> Result<PacketHeader, DecodeError> {
    if s.len() < 29 {
        Err(DecodeError::ShortBuffer)
    } else {
        match packet_type_of(s[6]) {
            None => Err(DecodeError::UnknownPacketType(s[6])),
            Some(t) => Ok(
                PacketHeader {
                    packet_format: le_u16(s, 0),
                    game_year: s[2],
                    game_major_version: s[3],
                    game_minor_version: s[4],
                    packet_version: s[5],
                    packet_id: t,
                    session_uid: le_u64(s, 7),
                    session_time: le_f32(s, 15),
                    frame_identifier: le_u32(s, 19),
                    overall_frame_identifier: le_u32(s, 23),
                    player_car_index: s[27],
                    secondary_player_car_index: if s[28] == 255 {
                        None
                    } else {
                        Some(s[28])
                    },
                },
            ),
        }
    }
}

/// The 29 bytes that encode a header.
pub open spec fn header_bytes(h: PacketHeader) -> Seq<u8> {
    u16_bytes(h.packet_format) + seq![
        h.game_year,
        h.game_major_version,
        h.game_minor_version,
        h.packet_version,
        packet_type_byte(h.packet_id),
    ] + u64_bytes(h.session_uid) + u32_bytes(h.session_time.bits) + u32_bytes(
        h.frame_identifier,
    ) + u32_bytes(h.overall_frame_identifier) + seq![
        h.player_car_index,
        match h.secondary_player_car_index {
            Some(i) => i,
            None => 255u8,
        },
    ]
}

/// A header that the wire can carry: a present secondary index is never the
/// sentinel 255.
pub open spec fn header_encodable(h: PacketHeader) -> bool {
    h.secondary_player_car_index != Some(255u8)
}

impl PacketSize for PacketHeader {
    open spec fn wire_size() -> nat {
        29
    }

    fn size() -> (r: usize) {
        HEADER_SIZE
    }
}

impl PacketHeader {
    /// Decodes the header at the start of a datagram.
    pub fn try_from(data: &[u8]) -> (r: Result<PacketHeader, DecodeError>)
        ensures
            r == header_of(data@),
    {
        if data.len() < HEADER_SIZE {
            return Err(DecodeError::ShortBuffer);
        }
        let packet_id = match PacketType::try_from(data[6]) {
            Ok(t) => t,
            Err(e) => {
                return Err(e);
            },
        };
        Ok(
            PacketHeader {
                packet_format: read_u16(data, 0),
                game_year: data[2],
                game_major_version: data[3],
                game_minor_version: data[4],
                packet_version: data[5],
                packet_id,
                session_uid: read_u64(data, 7),
                session_time: read_f32(data, 15),
                frame_identifier: read_u32(data, 19),
                overall_frame_identifier: read_u32(data, 23),
                player_car_index: data[27],
                secondary_player_car_index: if data[28] == 255 {
                    None
                } else {
                    Some(data[28])
                },
            },
        )
    }
}

/// Decoding the bytes of an encodable header, whatever payload follows them,
/// gives back that header, field for field.
pub proof fn lemma_header_round_trip(h: PacketHeader, payload: Seq<u8>)
    requires
        header_encodable(h),
    ensures
        header_of(header_bytes(h) + payload) == Ok::<PacketHeader, DecodeError>(h),
{
    let s = header_bytes(h) + payload;
    let e = header_bytes(h);
    assert(e.len() == 29);
    assert(s.subrange(0, 2) =~= u16_bytes(h.packet_format));
    assert(s.subrange(7, 15) =~= u64_bytes(h.session_uid));
    assert(s.subrange(15, 19) =~= u32_bytes(h.session_time.bits));
    assert(s.subrange(19, 23) =~= u32_bytes(h.frame_identifier));
    assert(s.subrange(23, 27) =~= u32_bytes(h.overall_frame_identifier));
    lemma_u16_round_trip(s, 0, h.packet_format);
    lemma_u64_round_trip(s, 7, h.session_uid);
    lemma_u32_round_trip(s, 15, h.session_time.bits);
    lemma_u32_round_trip(s, 19, h.frame_identifier);
    lemma_u32_round_trip(s, 23, h.overall_frame_identifier);
    assert(s[6] == packet_type_byte(h.packet_id));
    lemma_packet_type_byte_names(h.packet_id);
    assert(s[27] == h.player_car_index);
    assert(s[28] == e[28]);
}

} // verus!
