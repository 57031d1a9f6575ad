//! The time trial packet.

use vstd::prelude::*;
use crate::error::DecodeError;
use crate::packets::PacketSize;
use crate::wire::{le_u32, read_u32, lemma_u32_round_trip, u32_bytes};

verus! {

/// One time-trial data set.
#[derive(Clone, Copy, PartialEq, Eq, Debug, Structural)]
pub struct TimeTrialDataSet {
    pub car_idx: u8,
    pub team_id: u8,
    pub lap_time_in_ms: u32,
    pub sector1_time_in_ms: u32,
    pub sector2_time_in_ms: u32,
    pub sector3_time_in_ms: u32,
    pub traction_control: u8,
    pub gearbox_assist: u8,
    pub anti_lock_brakes: u8,
    pub equal_car_performance: u8,
    pub custom_setup: u8,
    pub valid: u8,
}

impl TimeTrialDataSet {
    /// The value that the 24 bytes at `off` encode.
    pub open spec fn spec_at(s: Seq<u8>, off: int) -> TimeTrialDataSet {
        TimeTrialDataSet {
            car_idx: s[off],
            team_id: s[off + 1],
            lap_time_in_ms: le_u32(s, off + 2),
            sector1_time_in_ms: le_u32(s, off + 6),
            sector2_time_in_ms: le_u32(s, off + 10),
            sector3_time_in_ms: le_u32(s, off + 14),
            traction_control: s[off + 18],
            gearbox_assist: s[off + 19],
            anti_lock_brakes: s[off + 20],
            equal_car_performance: s[off + 21],
            custom_setup: s[off + 22],
            valid: s[off + 23],
        }
    }

    /// Reads the value whose 24 bytes start at `off`.
    pub fn read_at(b: &[u8], off: usize) -> (r: TimeTrialDataSet)
        requires
            off + 24 <= b.len(),
        ensures
            r == TimeTrialDataSet::spec_at(b@, off as int),
    {
        TimeTrialDataSet {
            car_idx: b[off],
            team_id: b[off + 1],
            lap_time_in_ms: read_u32(b, off + 2),
            sector1_time_in_ms: read_u32(b, off + 6),
            sector2_time_in_ms: read_u32(b, off + 10),
            sector3_time_in_ms: read_u32(b, off + 14),
            traction_control: b[off + 18],
            gearbox_assist: b[off + 19],
            anti_lock_brakes: b[off + 20],
            equal_car_performance: b[off + 21],
            custom_setup: b[off + 22],
            valid: b[off + 23],
        }
    }
}

/// The three time-trial data sets; each takes 33 bytes on the wire.
#[derive(Clone, Copy, PartialEq, Eq, Debug, Structural)]
pub struct PacketTimeTrialData {
    pub player_session_best_data_set: TimeTrialDataSet,
    pub personal_best_data_set: TimeTrialDataSet,
    pub rival_data_set: TimeTrialDataSet,
}

impl PacketTimeTrialData {
    /// The value that the 90 bytes at `off` encode.
    pub open spec fn spec_at(s: Seq<u8>, off: int) -> PacketTimeTrialData {
        PacketTimeTrialData {
            player_session_best_data_set: TimeTrialDataSet::spec_at(s, off),
            personal_best_data_set: TimeTrialDataSet::spec_at(s, off + 33),
            rival_data_set: TimeTrialDataSet::spec_at(s, off + 66),
        }
    }

    /// Reads the value whose 90 bytes start at `off`.
    pub fn read_at(b: &[u8], off: usize) -> (r: PacketTimeTrialData)
        requires
            off + 90 <= b.len(),
        ensures
            r == PacketTimeTrialData::spec_at(b@, off as int),
    {
        PacketTimeTrialData {
            player_session_best_data_set: TimeTrialDataSet::read_at(b, off),
            personal_best_data_set: TimeTrialDataSet::read_at(b, off + 33),
            rival_data_set: TimeTrialDataSet::read_at(b, off + 66),
        }
    }
}

impl PacketSize for PacketTimeTrialData {
    open spec fn wire_size() -> nat {
        101
    }

    fn size() -> (r: usize) {
        101
    }
}

impl PacketTimeTrialData {
    /// Decodes the time trial packet from the start of `b`.
    pub fn try_from(b: &[u8]) -> (r: Result<PacketTimeTrialData, DecodeError>)
        ensures
            r == (if b@.len() < 101 {
                Err(DecodeError::ShortBuffer)
            } else {
                Ok(PacketTimeTrialData::spec_at(b@, 0))
            }),
    {
        if b.len() < 101 {
            return Err(DecodeError::ShortBuffer);
        }
        Ok(PacketTimeTrialData::read_at(b, 0))
    }
}

impl Default for TimeTrialDataSet {
    /// All fields zero, but the gearbox assist, which is manual (1).
    fn default() -> (r: TimeTrialDataSet)
        ensures
            r == (TimeTrialDataSet {
                car_idx: 0,
                team_id: 0,
                lap_time_in_ms: 0,
                sector1_time_in_ms: 0,
                sector2_time_in_ms: 0,
                sector3_time_in_ms: 0,
                traction_control: 0,
                gearbox_assist: 1,
                anti_lock_brakes: 0,
                equal_car_performance: 0,
                custom_setup: 0,
                valid: 0,
            }),
    {
        TimeTrialDataSet {
            car_idx: 0,
            team_id: 0,
            lap_time_in_ms: 0,
            sector1_time_in_ms: 0,
            sector2_time_in_ms: 0,
            sector3_time_in_ms: 0,
            traction_control: 0,
            gearbox_assist: 1,
            anti_lock_brakes: 0,
            equal_car_performance: 0,
            custom_setup: 0,
            valid: 0,
        }
    }
}

impl Default for PacketTimeTrialData {
    /// Three default data sets.
    fn default() -> (r: PacketTimeTrialData)
        ensures
            r.player_session_best_data_set.gearbox_assist == 1,
            r.player_session_best_data_set.car_idx == 0,
            r.personal_best_data_set.gearbox_assist == 1,
            r.personal_best_data_set.car_idx == 0,
            r.rival_data_set.gearbox_assist == 1,
            r.rival_data_set.car_idx == 0,
    {
        PacketTimeTrialData {
            player_session_best_data_set: TimeTrialDataSet::default(),
            personal_best_data_set: TimeTrialDataSet::default(),
            rival_data_set: TimeTrialDataSet::default(),
        }
    }
}

impl TimeTrialDataSet {
    /// The 24 bytes that encode one time-trial data set.
    pub open spec fn wire_bytes(self) -> Seq<u8> {
        seq![self.car_idx]
            + seq![self.team_id]
            + u32_bytes(self.lap_time_in_ms)
            + u32_bytes(self.sector1_time_in_ms)
            + u32_bytes(self.sector2_time_in_ms)
            + u32_bytes(self.sector3_time_in_ms)
            + seq![self.traction_control]
            + seq![self.gearbox_assist]
            + seq![self.anti_lock_brakes]
            + seq![self.equal_car_performance]
            + seq![self.custom_setup]
            + seq![self.valid]
    }

    /// Decoding the bytes of one time-trial data set, whatever follows them, gives back that
    /// value, field for field.
    pub proof fn lemma_round_trip(self, rest: Seq<u8>)
        ensures
            TimeTrialDataSet::spec_at(self.wire_bytes() + rest, 0) == self,
    {
        let s = self.wire_bytes() + rest;
        assert(self.wire_bytes().len() == 24);
        assert(s[0] == self.car_idx);
        assert(s[1] == self.team_id);
        assert(s.subrange(2, 6) =~= u32_bytes(self.lap_time_in_ms));
        lemma_u32_round_trip(s, 2, self.lap_time_in_ms);
        assert(s.subrange(6, 10) =~= u32_bytes(self.sector1_time_in_ms));
        lemma_u32_round_trip(s, 6, self.sector1_time_in_ms);
        assert(s.subrange(10, 14) =~= u32_bytes(self.sector2_time_in_ms));
        lemma_u32_round_trip(s, 10, self.sector2_time_in_ms);
        assert(s.subrange(14, 18) =~= u32_bytes(self.sector3_time_in_ms));
        lemma_u32_round_trip(s, 14, self.sector3_time_in_ms);
        assert(s[18] == self.traction_control);
        assert(s[19] == self.gearbox_assist);
        assert(s[20] == self.anti_lock_brakes);
        assert(s[21] == self.equal_car_performance);
        assert(s[22] == self.custom_setup);
        assert(s[23] == self.valid);
    }
}

} // verus!
