//! The extended motion packet.

use vstd::prelude::*;
use crate::error::DecodeError;
use crate::packets::PacketSize;
use crate::wire::{RawF32, le_f32, read_f32};

verus! {

/// Extended motion data of the player car; wheel arrays run RL, RR, FL, FR.
#[derive(Clone, Copy, PartialEq, Eq, Debug)]
pub struct PacketMotionExData {
    pub suspension_position: [RawF32; 4],
    pub suspension_velocity: [RawF32; 4],
    pub suspension_acceleration: [RawF32; 4],
    pub wheel_speed: [RawF32; 4],
    pub wheel_slip_ratio: [RawF32; 4],
    pub wheel_slip_angle: [RawF32; 4],
    pub wheel_lat_force: [RawF32; 4],
    pub wheel_long_force: [RawF32; 4],
    pub height_of_cog_above_ground: RawF32,
    pub local_velocity_x: RawF32,
    pub local_velocity_y: RawF32,
    pub local_velocity_z: RawF32,
    pub angular_velocity_x: RawF32,
    pub angular_velocity_y: RawF32,
    pub angular_velocity_z: RawF32,
    pub angular_acceleration_x: RawF32,
    pub angular_acceleration_y: RawF32,
    pub angular_acceleration_z: RawF32,
    pub front_wheels_angle: RawF32,
    pub wheel_vert_force: [RawF32; 4],
    pub front_aero_height: RawF32,
    pub rear_aero_height: RawF32,
    pub front_roll_angle: RawF32,
    pub rear_roll_angle: RawF32,
    pub chassis_yaw: RawF32,
}

impl PacketMotionExData {
    /// The value that the 208 bytes at `off` encode.
    pub open spec fn spec_at(s: Seq<u8>, off: int) -> PacketMotionExData {
        PacketMotionExData {
            suspension_position: [le_f32(s, off), le_f32(s, off + 4), le_f32(s, off + 8), le_f32(s, off + 12)],
            suspension_velocity: [le_f32(s, off + 16), le_f32(s, off + 20), le_f32(s, off + 24), le_f32(s, off + 28)],
            suspension_acceleration: [le_f32(s, off + 32), le_f32(s, off + 36), le_f32(s, off + 40), le_f32(s, off + 44)],
            wheel_speed: [le_f32(s, off + 48), le_f32(s, off + 52), le_f32(s, off + 56), le_f32(s, off + 60)],
            wheel_slip_ratio: [le_f32(s, off + 64), le_f32(s, off + 68), le_f32(s, off + 72), le_f32(s, off + 76)],
            wheel_slip_angle: [le_f32(s, off + 80), le_f32(s, off + 84), le_f32(s, off + 88), le_f32(s, off + 92)],
            wheel_lat_force: [le_f32(s, off + 96), le_f32(s, off + 100), le_f32(s, off + 104), le_f32(s, off + 108)],
            wheel_long_force: [le_f32(s, off + 112), le_f32(s, off + 116), le_f32(s, off + 120), le_f32(s, off + 124)],
            height_of_cog_above_ground: le_f32(s, off + 128),
            local_velocity_x: le_f32(s, off + 132),
            local_velocity_y: le_f32(s, off + 136),
            local_velocity_z: le_f32(s, off + 140),
            angular_velocity_x: le_f32(s, off + 144),
            angular_velocity_y: le_f32(s, off + 148),
            angular_velocity_z: le_f32(s, off + 152),
            angular_acceleration_x: le_f32(s, off + 156),
            angular_acceleration_y: le_f32(s, off + 160),
            angular_acceleration_z: le_f32(s, off + 164),
            front_wheels_angle: le_f32(s, off + 168),
            wheel_vert_force: [le_f32(s, off + 172), le_f32(s, off + 176), le_f32(s, off + 180), le_f32(s, off + 184)],
            front_aero_height: le_f32(s, off + 188),
            rear_aero_height: le_f32(s, off + 192),
            front_roll_angle: le_f32(s, off + 196),
            rear_roll_angle: le_f32(s, off + 200),
            chassis_yaw: le_f32(s, off + 204),
        }
    }

    /// Reads the value whose 208 bytes start at `off`.
    pub fn read_at(b: &[u8], off: usize) -> (r: PacketMotionExData)
        requires
            off + 208 <= b.len(),
        ensures
            r == PacketMotionExData::spec_at(b@, off as int),
    {
        PacketMotionExData {
            suspension_position: [read_f32(b, off), read_f32(b, off + 4), read_f32(b, off + 8), read_f32(b, off + 12)],
            suspension_velocity: [read_f32(b, off + 16), read_f32(b, off + 20), read_f32(b, off + 24), read_f32(b, off + 28)],
            suspension_acceleration: [read_f32(b, off + 32), read_f32(b, off + 36), read_f32(b, off + 40), read_f32(b, off + 44)],
            wheel_speed: [read_f32(b, off + 48), read_f32(b, off + 52), read_f32(b, off + 56), read_f32(b, off + 60)],
            wheel_slip_ratio: [read_f32(b, off + 64), read_f32(b, off + 68), read_f32(b, off + 72), read_f32(b, off + 76)],
            wheel_slip_angle: [read_f32(b, off + 80), read_f32(b, off + 84), read_f32(b, off + 88), read_f32(b, off + 92)],
            wheel_lat_force: [read_f32(b, off + 96), read_f32(b, off + 100), read_f32(b, off + 104), read_f32(b, off + 108)],
            wheel_long_force: [read_f32(b, off + 112), read_f32(b, off + 116), read_f32(b, off + 120), read_f32(b, off + 124)],
            height_of_cog_above_ground: read_f32(b, off + 128),
            local_velocity_x: read_f32(b, off + 132),
            local_velocity_y: read_f32(b, off + 136),
            local_velocity_z: read_f32(b, off + 140),
            angular_velocity_x: read_f32(b, off + 144),
            angular_velocity_y: read_f32(b, off + 148),
            angular_velocity_z: read_f32(b, off + 152),
            angular_acceleration_x: read_f32(b, off + 156),
            angular_acceleration_y: read_f32(b, off + 160),
            angular_acceleration_z: read_f32(b, off + 164),
            front_wheels_angle: read_f32(b, off + 168),
            wheel_vert_force: [read_f32(b, off + 172), read_f32(b, off + 176), read_f32(b, off + 180), read_f32(b, off + 184)],
            front_aero_height: read_f32(b, off + 188),
            rear_aero_height: read_f32(b, off + 192),
            front_roll_angle: read_f32(b, off + 196),
            rear_roll_angle: read_f32(b, off + 200),
            chassis_yaw: read_f32(b, off + 204),
        }
    }
}

impl PacketSize for PacketMotionExData {
    open spec fn wire_size() -> nat {
        237
    }

    fn size() -> (r: usize) {
        237
    }
}

impl PacketMotionExData {
    /// Decodes the extended motion packet from the start of `b`.
    pub fn try_from(b: &[u8]) -> (r: Result<PacketMotionExData, DecodeError>)
        ensures
            r == (if b@.len() < 237 {
                Err(DecodeError::ShortBuffer)
            } else {
                Ok(PacketMotionExData::spec_at(b@, 0))
            }),
    {
        if b.len() < 237 {
            return Err(DecodeError::ShortBuffer);
        }
        Ok(PacketMotionExData::read_at(b, 0))
    }
}

} // verus!
