//! The car telemetry packet.

use vstd::prelude::*;
use crate::error::DecodeError;
use crate::packets::PacketSize;
use crate::wire::{RawF32, byte_i8, le_u16, le_f32, read_u16, read_f32, read_i8, lemma_i8_round_trip, lemma_u16_round_trip, lemma_u32_round_trip, u16_bytes, u32_bytes};

verus! {

/// Telemetry of the player car.
#[derive(Clone, Copy, PartialEq, Eq, Debug)]
pub struct PacketCarTelemetry {
    /// Speed in km/h.
    pub speed: u16,
    /// Throttle applied, 0.0 to 1.0.
    pub throttle: RawF32,
    pub steer: RawF32,
    pub brake: RawF32,
    pub clutch: u8,
    /// 1 to 8, 0 = neutral, -1 = reverse.
    pub gear: i8,
    pub engine_rpm: u16,
    pub drs: u8,
    pub rev_lights_percent: u8,
    pub rev_lights_bit_value: u16,
    pub brake_temp: [u16; 4],
    pub tyre_surface_temp: [u8; 4],
    pub tyre_inner_temp: [u8; 4],
    pub engine_temperature: u16,
    pub tyre_pressure: [RawF32; 4],
    pub surface_type: [u8; 4],
}

impl PacketCarTelemetry {
    /// The value that the 60 bytes at `off` encode.
    pub open spec fn spec_at(s: Seq<u8>, off: int) -> PacketCarTelemetry {
        PacketCarTelemetry {
            speed: le_u16(s, off),
            throttle: le_f32(s, off + 2),
            steer: le_f32(s, off + 6),
            brake: le_f32(s, off + 10),
            clutch: s[off + 14],
            gear: byte_i8(s, off + 15),
            engine_rpm: le_u16(s, off + 16),
            drs: s[off + 18],
            rev_lights_percent: s[off + 19],
            rev_lights_bit_value: le_u16(s, off + 20),
            brake_temp: [le_u16(s, off + 22), le_u16(s, off + 24), le_u16(s, off + 26), le_u16(s, off + 28)],
            tyre_surface_temp: [s[off + 30], s[off + 31], s[off + 32], s[off + 33]],
            tyre_inner_temp: [s[off + 34], s[off + 35], s[off + 36], s[off + 37]],
            engine_temperature: le_u16(s, off + 38),
            tyre_pressure: [le_f32(s, off + 40), le_f32(s, off + 44), le_f32(s, off + 48), le_f32(s, off + 52)],
            surface_type: [s[off + 56], s[off + 57], s[off + 58], s[off + 59]],
        }
    }

    /// Reads the value whose 60 bytes start at `off`.
    pub fn read_at(b: &[u8], off: usize) -> (r: PacketCarTelemetry)
        requires
            off + 60 <= b.len(),
        ensures
            r == PacketCarTelemetry::spec_at(b@, off as int),
    {
        PacketCarTelemetry {
            speed: read_u16(b, off),
            throttle: read_f32(b, off + 2),
            steer: read_f32(b, off + 6),
            brake: read_f32(b, off + 10),
            clutch: b[off + 14],
            gear: read_i8(b, off + 15),
            engine_rpm: read_u16(b, off + 16),
            drs: b[off + 18],
            rev_lights_percent: b[off + 19],
            rev_lights_bit_value: read_u16(b, off + 20),
            brake_temp: [read_u16(b, off + 22), read_u16(b, off + 24), read_u16(b, off + 26), read_u16(b, off + 28)],
            tyre_surface_temp: [b[off + 30], b[off + 31], b[off + 32], b[off + 33]],
            tyre_inner_temp: [b[off + 34], b[off + 35], b[off + 36], b[off + 37]],
            engine_temperature: read_u16(b, off + 38),
            tyre_pressure: [read_f32(b, off + 40), read_f32(b, off + 44), read_f32(b, off + 48), read_f32(b, off + 52)],
            surface_type: [b[off + 56], b[off + 57], b[off + 58], b[off + 59]],
        }
    }
}

impl PacketSize for PacketCarTelemetry {
    open spec fn wire_size() -> nat {
        60
    }

    fn size() -> (r: usize) {
        60
    }
}

impl PacketCarTelemetry {
    /// Decodes a telemetry sample from the start of `b`.
    pub fn try_from(b: &[u8]) -> (r: Result<PacketCarTelemetry, DecodeError>)
        ensures
            r == (if b@.len() < 60 {
                Err(DecodeError::ShortBuffer)
            } else {
                Ok(PacketCarTelemetry::spec_at(b@, 0))
            }),
    {
        if b.len() < 60 {
            return Err(DecodeError::ShortBuffer);
        }
        Ok(PacketCarTelemetry::read_at(b, 0))
    }
}

impl PacketCarTelemetry {
    /// The 60 bytes that encode a telemetry sample.
    pub open spec fn wire_bytes(self) -> Seq<u8> {
        u16_bytes(self.speed)
            + u32_bytes(self.throttle.bits)
            + u32_bytes(self.steer.bits)
            + u32_bytes(self.brake.bits)
            + seq![self.clutch]
            + seq![self.gear as u8]
            + u16_bytes(self.engine_rpm)
            + seq![self.drs]
            + seq![self.rev_lights_percent]
            + u16_bytes(self.rev_lights_bit_value)
            + u16_bytes(self.brake_temp[0])
            + u16_bytes(self.brake_temp[1])
            + u16_bytes(self.brake_temp[2])
            + u16_bytes(self.brake_temp[3])
            + seq![self.tyre_surface_temp[0]]
            + seq![self.tyre_surface_temp[1]]
            + seq![self.tyre_surface_temp[2]]
            + seq![self.tyre_surface_temp[3]]
            + seq![self.tyre_inner_temp[0]]
            + seq![self.tyre_inner_temp[1]]
            + seq![self.tyre_inner_temp[2]]
            + seq![self.tyre_inner_temp[3]]
            + u16_bytes(self.engine_temperature)
            + u32_bytes(self.tyre_pressure[0].bits)
            + u32_bytes(self.tyre_pressure[1].bits)
            + u32_bytes(self.tyre_pressure[2].bits)
            + u32_bytes(self.tyre_pressure[3].bits)
            + seq![self.surface_type[0]]
            + seq![self.surface_type[1]]
            + seq![self.surface_type[2]]
            + seq![self.surface_type[3]]
    }

    /// Decoding the bytes of a telemetry sample, whatever follows them, gives back that
    /// value, field for field.
    #[verifier::rlimit(50)]
    #[verifier::spinoff_prover]
    pub proof fn lemma_round_trip(self, rest: Seq<u8>)
        ensures
            PacketCarTelemetry::spec_at(self.wire_bytes() + rest, 0) == self,
    {
        let s = self.wire_bytes() + rest;
        assert(self.wire_bytes().len() == 60);
        assert(s.subrange(0, 2) =~= u16_bytes(self.speed));
        lemma_u16_round_trip(s, 0, self.speed);
        assert(s.subrange(2, 6) =~= u32_bytes(self.throttle.bits));
        lemma_u32_round_trip(s, 2, self.throttle.bits);
        assert(s.subrange(6, 10) =~= u32_bytes(self.steer.bits));
        lemma_u32_round_trip(s, 6, self.steer.bits);
        assert(s.subrange(10, 14) =~= u32_bytes(self.brake.bits));
        lemma_u32_round_trip(s, 10, self.brake.bits);
        assert(s[14] == self.clutch);
        assert(s[15] == self.gear as u8);
        lemma_i8_round_trip(self.gear);
        assert(s.subrange(16, 18) =~= u16_bytes(self.engine_rpm));
        lemma_u16_round_trip(s, 16, self.engine_rpm);
        assert(s[18] == self.drs);
        assert(s[19] == self.rev_lights_percent);
        assert(s.subrange(20, 22) =~= u16_bytes(self.rev_lights_bit_value));
        lemma_u16_round_trip(s, 20, self.rev_lights_bit_value);
        assert(s.subrange(22, 24) =~= u16_bytes(self.brake_temp[0]));
        lemma_u16_round_trip(s, 22, self.brake_temp[0]);
        assert(s.subrange(24, 26) =~= u16_bytes(self.brake_temp[1]));
        lemma_u16_round_trip(s, 24, self.brake_temp[1]);
        assert(s.subrange(26, 28) =~= u16_bytes(self.brake_temp[2]));
        lemma_u16_round_trip(s, 26, self.brake_temp[2]);
        assert(s.subrange(28, 30) =~= u16_bytes(self.brake_temp[3]));
        lemma_u16_round_trip(s, 28, self.brake_temp[3]);
        assert(s[30] == self.tyre_surface_temp[0]);
        assert(s[31] == self.tyre_surface_temp[1]);
        assert(s[32] == self.tyre_surface_temp[2]);
        assert(s[33] == self.tyre_surface_temp[3]);
        assert(s[34] == self.tyre_inner_temp[0]);
        assert(s[35] == self.tyre_inner_temp[1]);
        assert(s[36] == self.tyre_inner_temp[2]);
        assert(s[37] == self.tyre_inner_temp[3]);
        assert(s.subrange(38, 40) =~= u16_bytes(self.engine_temperature));
        lemma_u16_round_trip(s, 38, self.engine_temperature);
        assert(s.subrange(40, 44) =~= u32_bytes(self.tyre_pressure[0].bits));
        lemma_u32_round_trip(s, 40, self.tyre_pressure[0].bits);
        assert(s.subrange(44, 48) =~= u32_bytes(self.tyre_pressure[1].bits));
        lemma_u32_round_trip(s, 44, self.tyre_pressure[1].bits);
        assert(s.subrange(48, 52) =~= u32_bytes(self.tyre_pressure[2].bits));
        lemma_u32_round_trip(s, 48, self.tyre_pressure[2].bits);
        assert(s.subrange(52, 56) =~= u32_bytes(self.tyre_pressure[3].bits));
        lemma_u32_round_trip(s, 52, self.tyre_pressure[3].bits);
        assert(s[56] == self.surface_type[0]);
        assert(s[57] == self.surface_type[1]);
        assert(s[58] == self.surface_type[2]);
        assert(s[59] == self.surface_type[3]);
        let d = PacketCarTelemetry::spec_at(s, 0);
        assert(d.brake_temp =~= self.brake_temp);
        assert(d.tyre_surface_temp =~= self.tyre_surface_temp);
        assert(d.tyre_inner_temp =~= self.tyre_inner_temp);
        assert(d.tyre_pressure =~= self.tyre_pressure);
        assert(d.surface_type =~= self.surface_type);
    }
}

} // verus!
