//! The lap data packet.

use vstd::prelude::*;
use crate::error::DecodeError;
use crate::packets::PacketSize;
use crate::wire::{RawF32, le_u16, le_u32, le_f32, read_u16, read_u32, read_f32, lemma_u16_round_trip, lemma_u32_round_trip, u16_bytes, u32_bytes};

verus! {

/// Lap timing of one car.
#[derive(Clone, Copy, PartialEq, Eq, Debug, Structural)]
pub struct LapData {
    pub last_lap_time_in_ms: u32,
    pub current_lap_time_in_ms: u32,
    pub sector1_time_ms_part: u16,
    pub sector1_time_minutes_part: u8,
    pub sector2_time_ms_part: u16,
    pub sector2_time_minutes_part: u8,
    pub delta_to_car_in_front_ms_part: u16,
    pub delta_to_car_in_front_minutes_part: u8,
    pub delta_to_race_leader_ms_part: u16,
    pub delta_to_race_leader_minutes_part: u8,
    pub lap_distance: RawF32,
    pub total_distance: RawF32,
    pub safety_car_delta: RawF32,
    pub car_position: u8,
    pub current_lap_num: u8,
    pub pit_status: u8,
    pub num_pit_stops: u8,
    pub sector: u8,
    pub current_lap_invalid: u8,
    pub penalties: u8,
    pub total_warnings: u8,
    pub corner_cutting_warnings: u8,
    pub num_unserved_drive_through_pens: u8,
    pub num_unserved_stop_go_pens: u8,
    pub grid_position: u8,
    pub driver_status: u8,
    pub result_status: u8,
    pub pit_lane_timer_active: u8,
    pub pit_lane_time_in_lane_in_ms: u16,
    pub pit_stop_timer_in_ms: u16,
    pub pit_stop_should_serve_pen: u8,
    pub speed_trap_fastest_speed: RawF32,
    /// Lap of the fastest speed-trap pass; 255 = not set.
    pub speed_trap_fastest_lap: u8,
}

impl LapData {
    /// The value that the 57 bytes at `off` encode.
    pub open spec fn spec_at(s: Seq<u8>, off: int) -> LapData {
        LapData {
            last_lap_time_in_ms: le_u32(s, off),
            current_lap_time_in_ms: le_u32(s, off + 4),
            sector1_time_ms_part: le_u16(s, off + 8),
            sector1_time_minutes_part: s[off + 10],
            sector2_time_ms_part: le_u16(s, off + 11),
            sector2_time_minutes_part: s[off + 13],
            delta_to_car_in_front_ms_part: le_u16(s, off + 14),
            delta_to_car_in_front_minutes_part: s[off + 16],
            delta_to_race_leader_ms_part: le_u16(s, off + 17),
            delta_to_race_leader_minutes_part: s[off + 19],
            lap_distance: le_f32(s, off + 20),
            total_distance: le_f32(s, off + 24),
            safety_car_delta: le_f32(s, off + 28),
            car_position: s[off + 32],
            current_lap_num: s[off + 33],
            pit_status: s[off + 34],
            num_pit_stops: s[off + 35],
            sector: s[off + 36],
            current_lap_invalid: s[off + 37],
            penalties: s[off + 38],
            total_warnings: s[off + 39],
            corner_cutting_warnings: s[off + 40],
            num_unserved_drive_through_pens: s[off + 41],
            num_unserved_stop_go_pens: s[off + 42],
            grid_position: s[off + 43],
            driver_status: s[off + 44],
            result_status: s[off + 45],
            pit_lane_timer_active: s[off + 46],
            pit_lane_time_in_lane_in_ms: le_u16(s, off + 47),
            pit_stop_timer_in_ms: le_u16(s, off + 49),
            pit_stop_should_serve_pen: s[off + 51],
            speed_trap_fastest_speed: le_f32(s, off + 52),
            speed_trap_fastest_lap: s[off + 56],
        }
    }

    /// Reads the value whose 57 bytes start at `off`.
    pub fn read_at(b: &[u8], off: usize) -> (r: LapData)
        requires
            off + 57 <= b.len(),
        ensures
            r == LapData::spec_at(b@, off as int),
    {
        LapData {
            last_lap_time_in_ms: read_u32(b, off),
            current_lap_time_in_ms: read_u32(b, off + 4),
            sector1_time_ms_part: read_u16(b, off + 8),
            sector1_time_minutes_part: b[off + 10],
            sector2_time_ms_part: read_u16(b, off + 11),
            sector2_time_minutes_part: b[off + 13],
            delta_to_car_in_front_ms_part: read_u16(b, off + 14),
            delta_to_car_in_front_minutes_part: b[off + 16],
            delta_to_race_leader_ms_part: read_u16(b, off + 17),
            delta_to_race_leader_minutes_part: b[off + 19],
            lap_distance: read_f32(b, off + 20),
            total_distance: read_f32(b, off + 24),
            safety_car_delta: read_f32(b, off + 28),
            car_position: b[off + 32],
            current_lap_num: b[off + 33],
            pit_status: b[off + 34],
            num_pit_stops: b[off + 35],
            sector: b[off + 36],
            current_lap_invalid: b[off + 37],
            penalties: b[off + 38],
            total_warnings: b[off + 39],
            corner_cutting_warnings: b[off + 40],
            num_unserved_drive_through_pens: b[off + 41],
            num_unserved_stop_go_pens: b[off + 42],
            grid_position: b[off + 43],
            driver_status: b[off + 44],
            result_status: b[off + 45],
            pit_lane_timer_active: b[off + 46],
            pit_lane_time_in_lane_in_ms: read_u16(b, off + 47),
            pit_stop_timer_in_ms: read_u16(b, off + 49),
            pit_stop_should_serve_pen: b[off + 51],
            speed_trap_fastest_speed: read_f32(b, off + 52),
            speed_trap_fastest_lap: b[off + 56],
        }
    }
}

impl PacketSize for LapData {
    open spec fn wire_size() -> nat {
        57
    }

    fn size() -> (r: usize) {
        57
    }
}

impl LapData {
    /// Decodes the lap timing of one car from the start of `b`.
    pub fn try_from(b: &[u8]) -> (r: Result<LapData, DecodeError>)
        ensures
            r == (if b@.len() < 57 {
                Err(DecodeError::ShortBuffer)
            } else {
                Ok(LapData::spec_at(b@, 0))
            }),
    {
        if b.len() < 57 {
            return Err(DecodeError::ShortBuffer);
        }
        Ok(LapData::read_at(b, 0))
    }
}

/// Lap timing of every car.
#[derive(Clone, Copy, Debug, PartialEq, Eq)]
pub struct PacketLapData {
    pub lap_data: [LapData; 22],
    /// Personal-best car in time trial; 255 = invalid.
    pub time_trial_pb_car_idx: u8,
    /// Rival car in time trial; 255 = invalid.
    pub time_trial_rival_car_idx: u8,
}

impl PacketSize for PacketLapData {
    open spec fn wire_size() -> nat {
        1256
    }

    fn size() -> (r: usize) {
        1256
    }
}

impl PacketLapData {
    /// Whether this value is what the bytes `s` encode.
    pub open spec fn decoded_from(self, s: Seq<u8>) -> bool {
        &&& forall|i: int|
            0 <= i < 22 ==> #[trigger] self.lap_data@[i] == LapData::spec_at(s, 57 * i)
        &&& self.time_trial_pb_car_idx == s[1254]
        &&& self.time_trial_rival_car_idx == s[1255]
    }

    /// Decodes the lap data packet; input shorter than 1256 bytes is refused.
    pub fn try_from(b: &[u8]) -> (r: Result<PacketLapData, DecodeError>)
        ensures
            b@.len() < 1256 ==> r == Err::<PacketLapData, DecodeError>(DecodeError::ShortBuffer),
            b@.len() >= 1256 ==> (r matches Ok(p) && p.decoded_from(b@)),
    {
        if b.len() < 1256 {
            return Err(DecodeError::ShortBuffer);
        }
        let mut lap_data = [LapData::read_at(b, 0); 22];
        let mut i: usize = 0;
        while i < 22
            invariant
                1256 <= b.len(),
                i <= 22,
                forall|j: int|
                    0 <= j < i ==> #[trigger] lap_data@[j] == LapData::spec_at(b@, 57 * j),
            decreases 22 - i,
        {
            lap_data[i] = LapData::read_at(b, 57 * i);
            i = i + 1;
        }
        Ok(
            PacketLapData {
                lap_data,
                time_trial_pb_car_idx: b[1254],
                time_trial_rival_car_idx: b[1255],
            },
        )
    }
}

impl LapData {
    /// The 57 bytes that encode the lap timing of one car.
    pub open spec fn wire_bytes(self) -> Seq<u8> {
        u32_bytes(self.last_lap_time_in_ms)
            + u32_bytes(self.current_lap_time_in_ms)
            + u16_bytes(self.sector1_time_ms_part)
            + seq![self.sector1_time_minutes_part]
            + u16_bytes(self.sector2_time_ms_part)
            + seq![self.sector2_time_minutes_part]
            + u16_bytes(self.delta_to_car_in_front_ms_part)
            + seq![self.delta_to_car_in_front_minutes_part]
            + u16_bytes(self.delta_to_race_leader_ms_part)
            + seq![self.delta_to_race_leader_minutes_part]
            + u32_bytes(self.lap_distance.bits)
            + u32_bytes(self.total_distance.bits)
            + u32_bytes(self.safety_car_delta.bits)
            + seq![self.car_position]
            + seq![self.current_lap_num]
            + seq![self.pit_status]
            + seq![self.num_pit_stops]
            + seq![self.sector]
            + seq![self.current_lap_invalid]
            + seq![self.penalties]
            + seq![self.total_warnings]
            + seq![self.corner_cutting_warnings]
            + seq![self.num_unserved_drive_through_pens]
            + seq![self.num_unserved_stop_go_pens]
            + seq![self.grid_position]
            + seq![self.driver_status]
            + seq![self.result_status]
            + seq![self.pit_lane_timer_active]
            + u16_bytes(self.pit_lane_time_in_lane_in_ms)
            + u16_bytes(self.pit_stop_timer_in_ms)
            + seq![self.pit_stop_should_serve_pen]
            + u32_bytes(self.speed_trap_fastest_speed.bits)
            + seq![self.speed_trap_fastest_lap]
    }

    /// Decoding the bytes of the lap timing of one car, whatever follows them, gives back that
    /// value, field for field.
    #[verifier::rlimit(50)]
    #[verifier::spinoff_prover]
    pub proof fn lemma_round_trip(self, rest: Seq<u8>)
        ensures
            LapData::spec_at(self.wire_bytes() + rest, 0) == self,
    {
        let s = self.wire_bytes() + rest;
        assert(self.wire_bytes().len() == 57);
        assert(s.subrange(0, 4) =~= u32_bytes(self.last_lap_time_in_ms));
        lemma_u32_round_trip(s, 0, self.last_lap_time_in_ms);
        assert(s.subrange(4, 8) =~= u32_bytes(self.current_lap_time_in_ms));
        lemma_u32_round_trip(s, 4, self.current_lap_time_in_ms);
        assert(s.subrange(8, 10) =~= u16_bytes(self.sector1_time_ms_part));
        lemma_u16_round_trip(s, 8, self.sector1_time_ms_part);
        assert(s[10] == self.sector1_time_minutes_part);
        assert(s.subrange(11, 13) =~= u16_bytes(self.sector2_time_ms_part));
        lemma_u16_round_trip(s, 11, self.sector2_time_ms_part);
        assert(s[13] == self.sector2_time_minutes_part);
        assert(s.subrange(14, 16) =~= u16_bytes(self.delta_to_car_in_front_ms_part));
        lemma_u16_round_trip(s, 14, self.delta_to_car_in_front_ms_part);
        assert(s[16] == self.delta_to_car_in_front_minutes_part);
        assert(s.subrange(17, 19) =~= u16_bytes(self.delta_to_race_leader_ms_part));
        lemma_u16_round_trip(s, 17, self.delta_to_race_leader_ms_part);
        assert(s[19] == self.delta_to_race_leader_minutes_part);
        assert(s.subrange(20, 24) =~= u32_bytes(self.lap_distance.bits));
        lemma_u32_round_trip(s, 20, self.lap_distance.bits);
        assert(s.subrange(24, 28) =~= u32_bytes(self.total_distance.bits));
        lemma_u32_round_trip(s, 24, self.total_distance.bits);
        assert(s.subrange(28, 32) =~= u32_bytes(self.safety_car_delta.bits));
        lemma_u32_round_trip(s, 28, self.safety_car_delta.bits);
        assert(s[32] == self.car_position);
        assert(s[33] == self.current_lap_num);
        assert(s[34] == self.pit_status);
        assert(s[35] == self.num_pit_stops);
        assert(s[36] == self.sector);
        assert(s[37] == self.current_lap_invalid);
        assert(s[38] == self.penalties);
        assert(s[39] == self.total_warnings);
        assert(s[40] == self.corner_cutting_warnings);
        assert(s[41] == self.num_unserved_drive_through_pens);
        assert(s[42] == self.num_unserved_stop_go_pens);
        assert(s[43] == self.grid_position);
        assert(s[44] == self.driver_status);
        assert(s[45] == self.result_status);
        assert(s[46] == self.pit_lane_timer_active);
        assert(s.subrange(47, 49) =~= u16_bytes(self.pit_lane_time_in_lane_in_ms));
        lemma_u16_round_trip(s, 47, self.pit_lane_time_in_lane_in_ms);
        assert(s.subrange(49, 51) =~= u16_bytes(self.pit_stop_timer_in_ms));
        lemma_u16_round_trip(s, 49, self.pit_stop_timer_in_ms);
        assert(s[51] == self.pit_stop_should_serve_pen);
        assert(s.subrange(52, 56) =~= u32_bytes(self.speed_trap_fastest_speed.bits));
        lemma_u32_round_trip(s, 52, self.speed_trap_fastest_speed.bits);
        assert(s[56] == self.speed_trap_fastest_lap);
    }
}

} // verus!
