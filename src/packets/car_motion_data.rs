//! The motion packet: position and forces for all 22 cars.

use vstd::prelude::*;
use crate::error::DecodeError;
use crate::packets::PacketSize;
use crate::wire::{RawF32, le_i16, le_f32, read_i16, read_f32, lemma_i16_round_trip, lemma_u32_round_trip, u16_bytes, u32_bytes};

verus! {

/// Position, velocity and orientation of one car.
#[derive(Clone, Copy, PartialEq, Eq, Debug, Structural)]
pub struct CarMotionData {
    pub world_position_x: RawF32,
    pub world_position_y: RawF32,
    pub world_position_z: RawF32,
    pub world_velocity_x: RawF32,
    pub world_velocity_y: RawF32,
    pub world_velocity_z: RawF32,
    pub world_forward_dir_x: i16,
    pub world_forward_dir_y: i16,
    pub world_forward_dir_z: i16,
    pub world_right_dir_x: i16,
    pub world_right_dir_y: i16,
    pub world_right_dir_z: i16,
    pub g_force_lateral: RawF32,
    pub g_force_longitudinal: RawF32,
    pub g_force_vertical: RawF32,
    pub yaw: RawF32,
    pub pitch: RawF32,
    pub roll: RawF32,
}

impl CarMotionData {
    /// The value that the 60 bytes at `off` encode.
    pub open spec fn spec_at(s: Seq<u8>, off: int) -> CarMotionData {
        CarMotionData {
            world_position_x: le_f32(s, off),
            world_position_y: le_f32(s, off + 4),
            world_position_z: le_f32(s, off + 8),
            world_velocity_x: le_f32(s, off + 12),
            world_velocity_y: le_f32(s, off + 16),
            world_velocity_z: le_f32(s, off + 20),
            world_forward_dir_x: le_i16(s, off + 24),
            world_forward_dir_y: le_i16(s, off + 26),
            world_forward_dir_z: le_i16(s, off + 28),
            world_right_dir_x: le_i16(s, off + 30),
            world_right_dir_y: le_i16(s, off + 32),
            world_right_dir_z: le_i16(s, off + 34),
            g_force_lateral: le_f32(s, off + 36),
            g_force_longitudinal: le_f32(s, off + 40),
            g_force_vertical: le_f32(s, off + 44),
            yaw: le_f32(s, off + 48),
            pitch: le_f32(s, off + 52),
            roll: le_f32(s, off + 56),
        }
    }

    /// Reads the value whose 60 bytes start at `off`.
    pub fn read_at(b: &[u8], off: usize) -> (r: CarMotionData)
        requires
            off + 60 <= b.len(),
        ensures
            r == CarMotionData::spec_at(b@, off as int),
    {
        CarMotionData {
            world_position_x: read_f32(b, off),
            world_position_y: read_f32(b, off + 4),
            world_position_z: read_f32(b, off + 8),
            world_velocity_x: read_f32(b, off + 12),
            world_velocity_y: read_f32(b, off + 16),
            world_velocity_z: read_f32(b, off + 20),
            world_forward_dir_x: read_i16(b, off + 24),
            world_forward_dir_y: read_i16(b, off + 26),
            world_forward_dir_z: read_i16(b, off + 28),
            world_right_dir_x: read_i16(b, off + 30),
            world_right_dir_y: read_i16(b, off + 32),
            world_right_dir_z: read_i16(b, off + 34),
            g_force_lateral: read_f32(b, off + 36),
            g_force_longitudinal: read_f32(b, off + 40),
            g_force_vertical: read_f32(b, off + 44),
            yaw: read_f32(b, off + 48),
            pitch: read_f32(b, off + 52),
            roll: read_f32(b, off + 56),
        }
    }
}

impl PacketSize for CarMotionData {
    open spec fn wire_size() -> nat {
        60
    }

    fn size() -> (r: usize) {
        60
    }
}

impl CarMotionData {
    /// Decodes the motion of one car from the start of `b`.
    pub fn try_from(b: &[u8]) -> (r: Result<CarMotionData, DecodeError>)
        ensures
            r == (if b@.len() < 60 {
                Err(DecodeError::ShortBuffer)
            } else {
                Ok(CarMotionData::spec_at(b@, 0))
            }),
    {
        if b.len() < 60 {
            return Err(DecodeError::ShortBuffer);
        }
        Ok(CarMotionData::read_at(b, 0))
    }
}

/// Motion of every car on track.
#[derive(Clone, Copy, Debug, PartialEq, Eq)]
pub struct PacketMotionData {
    pub car_motion_data: [CarMotionData; 22],
}

impl PacketSize for PacketMotionData {
    open spec fn wire_size() -> nat {
        1320
    }

    fn size() -> (r: usize) {
        1320
    }
}

impl PacketMotionData {
    /// Whether this value is what the bytes `s` encode.
    pub open spec fn decoded_from(self, s: Seq<u8>) -> bool {
        &&& forall|i: int|
            0 <= i < 22 ==> #[trigger] self.car_motion_data@[i] == CarMotionData::spec_at(s, 60 * i)
    }

    /// Decodes the motion packet; input shorter than 1320 bytes is refused.
    pub fn try_from(b: &[u8]) -> (r: Result<PacketMotionData, DecodeError>)
        ensures
            b@.len() < 1320 ==> r == Err::<PacketMotionData, DecodeError>(DecodeError::ShortBuffer),
            b@.len() >= 1320 ==> (r matches Ok(p) && p.decoded_from(b@)),
    {
        if b.len() < 1320 {
            return Err(DecodeError::ShortBuffer);
        }
        let mut car_motion_data = [CarMotionData::read_at(b, 0); 22];
        let mut i: usize = 0;
        while i < 22
            invariant
                1320 <= b.len(),
                i <= 22,
                forall|j: int|
                    0 <= j < i ==> #[trigger] car_motion_data@[j] == CarMotionData::spec_at(b@, 60 * j),
            decreases 22 - i,
        {
            car_motion_data[i] = CarMotionData::read_at(b, 60 * i);
            i = i + 1;
        }
        Ok(
            PacketMotionData {
                car_motion_data,
            },
        )
    }
}

impl CarMotionData {
    /// The 60 bytes that encode the motion of one car.
    pub open spec fn wire_bytes(self) -> Seq<u8> {
        u32_bytes(self.world_position_x.bits)
            + u32_bytes(self.world_position_y.bits)
            + u32_bytes(self.world_position_z.bits)
            + u32_bytes(self.world_velocity_x.bits)
            + u32_bytes(self.world_velocity_y.bits)
            + u32_bytes(self.world_velocity_z.bits)
            + u16_bytes(self.world_forward_dir_x as u16)
            + u16_bytes(self.world_forward_dir_y as u16)
            + u16_bytes(self.world_forward_dir_z as u16)
            + u16_bytes(self.world_right_dir_x as u16)
            + u16_bytes(self.world_right_dir_y as u16)
            + u16_bytes(self.world_right_dir_z as u16)
            + u32_bytes(self.g_force_lateral.bits)
            + u32_bytes(self.g_force_longitudinal.bits)
            + u32_bytes(self.g_force_vertical.bits)
            + u32_bytes(self.yaw.bits)
            + u32_bytes(self.pitch.bits)
            + u32_bytes(self.roll.bits)
    }

    /// Decoding the bytes of the motion of one car, whatever follows them, gives back that
    /// value, field for field.
    pub proof fn lemma_round_trip(self, rest: Seq<u8>)
        ensures
            CarMotionData::spec_at(self.wire_bytes() + rest, 0) == self,
    {
        let s = self.wire_bytes() + rest;
        assert(self.wire_bytes().len() == 60);
        assert(s.subrange(0, 4) =~= u32_bytes(self.world_position_x.bits));
        lemma_u32_round_trip(s, 0, self.world_position_x.bits);
        assert(s.subrange(4, 8) =~= u32_bytes(self.world_position_y.bits));
        lemma_u32_round_trip(s, 4, self.world_position_y.bits);
        assert(s.subrange(8, 12) =~= u32_bytes(self.world_position_z.bits));
        lemma_u32_round_trip(s, 8, self.world_position_z.bits);
        assert(s.subrange(12, 16) =~= u32_bytes(self.world_velocity_x.bits));
        lemma_u32_round_trip(s, 12, self.world_velocity_x.bits);
        assert(s.subrange(16, 20) =~= u32_bytes(self.world_velocity_y.bits));
        lemma_u32_round_trip(s, 16, self.world_velocity_y.bits);
        assert(s.subrange(20, 24) =~= u32_bytes(self.world_velocity_z.bits));
        lemma_u32_round_trip(s, 20, self.world_velocity_z.bits);
        assert(s.subrange(24, 26) =~= u16_bytes(self.world_forward_dir_x as u16));
        lemma_i16_round_trip(s, 24, self.world_forward_dir_x);
        assert(s.subrange(26, 28) =~= u16_bytes(self.world_forward_dir_y as u16));
        lemma_i16_round_trip(s, 26, self.world_forward_dir_y);
        assert(s.subrange(28, 30) =~= u16_bytes(self.world_forward_dir_z as u16));
        lemma_i16_round_trip(s, 28, self.world_forward_dir_z);
        assert(s.subrange(30, 32) =~= u16_bytes(self.world_right_dir_x as u16));
        lemma_i16_round_trip(s, 30, self.world_right_dir_x);
        assert(s.subrange(32, 34) =~= u16_bytes(self.world_right_dir_y as u16));
        lemma_i16_round_trip(s, 32, self.world_right_dir_y);
        assert(s.subrange(34, 36) =~= u16_bytes(self.world_right_dir_z as u16));
        lemma_i16_round_trip(s, 34, self.world_right_dir_z);
        assert(s.subrange(36, 40) =~= u32_bytes(self.g_force_lateral.bits));
        lemma_u32_round_trip(s, 36, self.g_force_lateral.bits);
        assert(s.subrange(40, 44) =~= u32_bytes(self.g_force_longitudinal.bits));
        lemma_u32_round_trip(s, 40, self.g_force_longitudinal.bits);
        assert(s.subrange(44, 48) =~= u32_bytes(self.g_force_vertical.bits));
        lemma_u32_round_trip(s, 44, self.g_force_vertical.bits);
        assert(s.subrange(48, 52) =~= u32_bytes(self.yaw.bits));
        lemma_u32_round_trip(s, 48, self.yaw.bits);
        assert(s.subrange(52, 56) =~= u32_bytes(self.pitch.bits));
        lemma_u32_round_trip(s, 52, self.pitch.bits);
        assert(s.subrange(56, 60) =~= u32_bytes(self.roll.bits));
        lemma_u32_round_trip(s, 56, self.roll.bits);
    }
}

} // verus!
