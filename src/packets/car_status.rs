//! The car status packet.

use vstd::prelude::*;
use crate::error::DecodeError;
use crate::packets::PacketSize;
use crate::wire::{RawF32, byte_i8, le_u16, le_f32, read_u16, read_f32, read_i8, lemma_i8_round_trip, lemma_u16_round_trip, lemma_u32_round_trip, u16_bytes, u32_bytes};

verus! {

/// Status of one car.
#[derive(Clone, Copy, PartialEq, Eq, Debug, Structural)]
pub struct CarStatusData {
    pub traction_control: u8,
    pub anti_lock_brakes: u8,
    pub fuel_mix: u8,
    pub front_brake_bias: u8,
    pub pit_limiter_status: u8,
    pub fuel_in_tank: RawF32,
    pub fuel_capacity: RawF32,
    pub fuel_remaining_laps: RawF32,
    pub max_rpm: u16,
    pub idle_rpm: u16,
    pub max_gears: u8,
    pub drs_allowed: u8,
    pub drs_activation_distance: u16,
    pub actual_tyre_compound: u8,
    pub visual_tyre_compound: u8,
    pub tyres_age_laps: u8,
    /// -1 = invalid or unknown, 0 = none, 1 = green, 2 = blue, 3 = yellow.
    pub vehicle_fia_flags: i8,
    pub engine_power_ice: RawF32,
    pub engine_power_mguk: RawF32,
    pub ers_store_energy: RawF32,
    pub ers_deploy_mode: u8,
    pub ers_harvested_this_lap_mguk: RawF32,
    pub ers_harvested_this_lap_mguh: RawF32,
    pub ers_deployed_this_lap: RawF32,
    /// Any non-zero byte means paused.
    pub network_paused: bool,
}

impl CarStatusData {
    /// The value that the 55 bytes at `off` encode.
    pub open spec fn spec_at(s: Seq<u8>, off: int) -> CarStatusData {
        CarStatusData {
            traction_control: s[off],
            anti_lock_brakes: s[off + 1],
            fuel_mix: s[off + 2],
            front_brake_bias: s[off + 3],
            pit_limiter_status: s[off + 4],
            fuel_in_tank: le_f32(s, off + 5),
            fuel_capacity: le_f32(s, off + 9),
            fuel_remaining_laps: le_f32(s, off + 13),
            max_rpm: le_u16(s, off + 17),
            idle_rpm: le_u16(s, off + 19),
            max_gears: s[off + 21],
            drs_allowed: s[off + 22],
            drs_activation_distance: le_u16(s, off + 23),
            actual_tyre_compound: s[off + 25],
            visual_tyre_compound: s[off + 26],
            tyres_age_laps: s[off + 27],
            vehicle_fia_flags: byte_i8(s, off + 28),
            engine_power_ice: le_f32(s, off + 29),
            engine_power_mguk: le_f32(s, off + 33),
            ers_store_energy: le_f32(s, off + 37),
            ers_deploy_mode: s[off + 41],
            ers_harvested_this_lap_mguk: le_f32(s, off + 42),
            ers_harvested_this_lap_mguh: le_f32(s, off + 46),
            ers_deployed_this_lap: le_f32(s, off + 50),
            network_paused: s[off + 54] != 0,
        }
    }

    /// Reads the value whose 55 bytes start at `off`.
    pub fn read_at(b: &[u8], off: usize) -> (r: CarStatusData)
        requires
            off + 55 <= b.len(),
        ensures
            r == CarStatusData::spec_at(b@, off as int),
    {
        CarStatusData {
            traction_control: b[off],
            anti_lock_brakes: b[off + 1],
            fuel_mix: b[off + 2],
            front_brake_bias: b[off + 3],
            pit_limiter_status: b[off + 4],
            fuel_in_tank: read_f32(b, off + 5),
            fuel_capacity: read_f32(b, off + 9),
            fuel_remaining_laps: read_f32(b, off + 13),
            max_rpm: read_u16(b, off + 17),
            idle_rpm: read_u16(b, off + 19),
            max_gears: b[off + 21],
            drs_allowed: b[off + 22],
            drs_activation_distance: read_u16(b, off + 23),
            actual_tyre_compound: b[off + 25],
            visual_tyre_compound: b[off + 26],
            tyres_age_laps: b[off + 27],
            vehicle_fia_flags: read_i8(b, off + 28),
            engine_power_ice: read_f32(b, off + 29),
            engine_power_mguk: read_f32(b, off + 33),
            ers_store_energy: read_f32(b, off + 37),
            ers_deploy_mode: b[off + 41],
            ers_harvested_this_lap_mguk: read_f32(b, off + 42),
            ers_harvested_this_lap_mguh: read_f32(b, off + 46),
            ers_deployed_this_lap: read_f32(b, off + 50),
            network_paused: b[off + 54] != 0,
        }
    }
}

/// Status of every car.
#[derive(Clone, Debug, PartialEq, Eq)]
pub struct PacketCarStatusData {
    pub car_status_data: Vec<CarStatusData>,
}

impl PacketSize for PacketCarStatusData {
    open spec fn wire_size() -> nat {
        1239
    }

    fn size() -> (r: usize) {
        1239
    }
}

impl PacketCarStatusData {
    /// Whether this value is what the bytes `s` encode.
    pub open spec fn decoded_from(self, s: Seq<u8>) -> bool {
        &&& self.car_status_data@.len() == 22
        &&& forall|i: int|
            0 <= i < 22 ==> #[trigger] self.car_status_data@[i] == CarStatusData::spec_at(s, 55 * i)
    }

    /// Decodes the car status packet; input shorter than 1239 bytes is refused.
    pub fn try_from(b: &[u8]) -> (r: Result<PacketCarStatusData, DecodeError>)
        ensures
            b@.len() < 1239 ==> r == Err::<PacketCarStatusData, DecodeError>(DecodeError::ShortBuffer),
            b@.len() >= 1239 ==> (r matches Ok(p) && p.decoded_from(b@)),
    {
        if b.len() < 1239 {
            return Err(DecodeError::ShortBuffer);
        }
        let mut car_status_data: Vec<CarStatusData> = Vec::with_capacity(22);
        let mut i: usize = 0;
        while i < 22
            invariant
                1239 <= b.len(),
                i <= 22,
                car_status_data@.len() == i,
                forall|j: int|
                    0 <= j < i ==> #[trigger] car_status_data@[j] == CarStatusData::spec_at(b@, 55 * j),
            decreases 22 - i,
        {
            car_status_data.push(CarStatusData::read_at(b, 55 * i));
            i = i + 1;
        }
        Ok(
            PacketCarStatusData {
                car_status_data,
            },
        )
    }
}

impl CarStatusData {
    /// The 55 bytes that encode the status of one car.
    pub open spec fn wire_bytes(self) -> Seq<u8> {
        seq![self.traction_control]
            + seq![self.anti_lock_brakes]
            + seq![self.fuel_mix]
            + seq![self.front_brake_bias]
            + seq![self.pit_limiter_status]
            + u32_bytes(self.fuel_in_tank.bits)
            + u32_bytes(self.fuel_capacity.bits)
            + u32_bytes(self.fuel_remaining_laps.bits)
            + u16_bytes(self.max_rpm)
            + u16_bytes(self.idle_rpm)
            + seq![self.max_gears]
            + seq![self.drs_allowed]
            + u16_bytes(self.drs_activation_distance)
            + seq![self.actual_tyre_compound]
            + seq![self.visual_tyre_compound]
            + seq![self.tyres_age_laps]
            + seq![self.vehicle_fia_flags as u8]
            + u32_bytes(self.engine_power_ice.bits)
            + u32_bytes(self.engine_power_mguk.bits)
            + u32_bytes(self.ers_store_energy.bits)
            + seq![self.ers_deploy_mode]
            + u32_bytes(self.ers_harvested_this_lap_mguk.bits)
            + u32_bytes(self.ers_harvested_this_lap_mguh.bits)
            + u32_bytes(self.ers_deployed_this_lap.bits)
            + seq![if self.network_paused { 1u8 } else { 0u8 }]
    }

    /// Decoding the bytes of the status of one car, whatever follows them, gives back that
    /// value, field for field.
    #[verifier::rlimit(50)]
    #[verifier::spinoff_prover]
    pub proof fn lemma_round_trip(self, rest: Seq<u8>)
        ensures
            CarStatusData::spec_at(self.wire_bytes() + rest, 0) == self,
    {
        let s = self.wire_bytes() + rest;
        assert(self.wire_bytes().len() == 55);
        assert(s[0] == self.traction_control);
        assert(s[1] == self.anti_lock_brakes);
        assert(s[2] == self.fuel_mix);
        assert(s[3] == self.front_brake_bias);
        assert(s[4] == self.pit_limiter_status);
        assert(s.subrange(5, 9) =~= u32_bytes(self.fuel_in_tank.bits));
        lemma_u32_round_trip(s, 5, self.fuel_in_tank.bits);
        assert(s.subrange(9, 13) =~= u32_bytes(self.fuel_capacity.bits));
        lemma_u32_round_trip(s, 9, self.fuel_capacity.bits);
        assert(s.subrange(13, 17) =~= u32_bytes(self.fuel_remaining_laps.bits));
        lemma_u32_round_trip(s, 13, self.fuel_remaining_laps.bits);
        assert(s.subrange(17, 19) =~= u16_bytes(self.max_rpm));
        lemma_u16_round_trip(s, 17, self.max_rpm);
        assert(s.subrange(19, 21) =~= u16_bytes(self.idle_rpm));
        lemma_u16_round_trip(s, 19, self.idle_rpm);
        assert(s[21] == self.max_gears);
        assert(s[22] == self.drs_allowed);
        assert(s.subrange(23, 25) =~= u16_bytes(self.drs_activation_distance));
        lemma_u16_round_trip(s, 23, self.drs_activation_distance);
        assert(s[25] == self.actual_tyre_compound);
        assert(s[26] == self.visual_tyre_compound);
        assert(s[27] == self.tyres_age_laps);
        assert(s[28] == self.vehicle_fia_flags as u8);
        lemma_i8_round_trip(self.vehicle_fia_flags);
        assert(s.subrange(29, 33) =~= u32_bytes(self.engine_power_ice.bits));
        lemma_u32_round_trip(s, 29, self.engine_power_ice.bits);
        assert(s.subrange(33, 37) =~= u32_bytes(self.engine_power_mguk.bits));
        lemma_u32_round_trip(s, 33, self.engine_power_mguk.bits);
        assert(s.subrange(37, 41) =~= u32_bytes(self.ers_store_energy.bits));
        lemma_u32_round_trip(s, 37, self.ers_store_energy.bits);
        assert(s[41] == self.ers_deploy_mode);
        assert(s.subrange(42, 46) =~= u32_bytes(self.ers_harvested_this_lap_mguk.bits));
        lemma_u32_round_trip(s, 42, self.ers_harvested_this_lap_mguk.bits);
        assert(s.subrange(46, 50) =~= u32_bytes(self.ers_harvested_this_lap_mguh.bits));
        lemma_u32_round_trip(s, 46, self.ers_harvested_this_lap_mguh.bits);
        assert(s.subrange(50, 54) =~= u32_bytes(self.ers_deployed_this_lap.bits));
        lemma_u32_round_trip(s, 50, self.ers_deployed_this_lap.bits);
        assert(s[54] == (if self.network_paused { 1u8 } else { 0u8 }));
    }
}

} // verus!
