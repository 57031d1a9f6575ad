//! The session history packet: laps and tyre stints of one car.

use vstd::prelude::*;
use crate::error::DecodeError;
use crate::packets::PacketSize;
use crate::wire::{le_u16, le_u32, read_u16, read_u32, lemma_u16_round_trip, lemma_u32_round_trip, u16_bytes, u32_bytes};

verus! {

/// Timing of one past lap.
#[derive(Clone, Copy, PartialEq, Eq, Debug, Structural)]
pub struct LapHistoryData {
    pub lap_time_in_ms: u32,
    pub sector1_time_ms_part: u16,
    pub sector1_time_minutes_part: u8,
    pub sector2_time_ms_part: u16,
    pub sector2_time_minutes_part: u8,
    pub sector3_time_ms_part: u16,
    pub sector3_time_minutes_part: u8,
    /// Bit 0: lap valid; bits 1 to 3: sectors 1 to 3 valid.
    pub lap_valid_bit_flags: u8,
}

impl LapHistoryData {
    /// The value that the 14 bytes at `off` encode.
    pub open spec fn spec_at(s: Seq<u8>, off: int) -> LapHistoryData {
        LapHistoryData {
            lap_time_in_ms: le_u32(s, off),
            sector1_time_ms_part: le_u16(s, off + 4),
            sector1_time_minutes_part: s[off + 6],
            sector2_time_ms_part: le_u16(s, off + 7),
            sector2_time_minutes_part: s[off + 9],
            sector3_time_ms_part: le_u16(s, off + 10),
            sector3_time_minutes_part: s[off + 12],
            lap_valid_bit_flags: s[off + 13],
        }
    }

    /// Reads the value whose 14 bytes start at `off`.
    pub fn read_at(b: &[u8], off: usize) -> (r: LapHistoryData)
        requires
            off + 14 <= b.len(),
        ensures
            r == LapHistoryData::spec_at(b@, off as int),
    {
        LapHistoryData {
            lap_time_in_ms: read_u32(b, off),
            sector1_time_ms_part: read_u16(b, off + 4),
            sector1_time_minutes_part: b[off + 6],
            sector2_time_ms_part: read_u16(b, off + 7),
            sector2_time_minutes_part: b[off + 9],
            sector3_time_ms_part: read_u16(b, off + 10),
            sector3_time_minutes_part: b[off + 12],
            lap_valid_bit_flags: b[off + 13],
        }
    }
}

/// One tyre stint.
#[derive(Clone, Copy, PartialEq, Eq, Debug, Structural)]
pub struct TyreStintHistoryData {
    /// Lap the stint ends on; 255 = the current tyre.
    pub end_lap: u8,
    pub tyre_actual_compound: u8,
    pub tyre_visual_compound: u8,
}

impl TyreStintHistoryData {
    /// The value that the 3 bytes at `off` encode.
    pub open spec fn spec_at(s: Seq<u8>, off: int) -> TyreStintHistoryData {
        TyreStintHistoryData {
            end_lap: s[off],
            tyre_actual_compound: s[off + 1],
            tyre_visual_compound: s[off + 2],
        }
    }

    /// Reads the value whose 3 bytes start at `off`.
    pub fn read_at(b: &[u8], off: usize) -> (r: TyreStintHistoryData)
        requires
            off + 3 <= b.len(),
        ensures
            r == TyreStintHistoryData::spec_at(b@, off as int),
    {
        TyreStintHistoryData {
            end_lap: b[off],
            tyre_actual_compound: b[off + 1],
            tyre_visual_compound: b[off + 2],
        }
    }
}

/// Lap and tyre-stint history of one car.
#[derive(Clone, Debug, PartialEq, Eq)]
pub struct PacketSessionHistoryData {
    pub car_idx: u8,
    pub num_laps: u8,
    pub num_tyre_stints: u8,
    pub best_lap_time_lap_num: u8,
    pub best_sector1_lap_num: u8,
    pub best_sector2_lap_num: u8,
    pub best_sector3_lap_num: u8,
    pub lap_history_data: Vec<LapHistoryData>,
    pub tyre_stints_history_data: Vec<TyreStintHistoryData>,
}

impl PacketSize for PacketSessionHistoryData {
    open spec fn wire_size() -> nat {
        1460
    }

    fn size() -> (r: usize) {
        1460
    }
}

impl PacketSessionHistoryData {
    /// Whether this value is what the bytes `s` encode.
    pub open spec fn decoded_from(self, s: Seq<u8>) -> bool {
        &&& self.car_idx == s[0]
        &&& self.num_laps == s[1]
        &&& self.num_tyre_stints == s[2]
        &&& self.best_lap_time_lap_num == s[3]
        &&& self.best_sector1_lap_num == s[4]
        &&& self.best_sector2_lap_num == s[5]
        &&& self.best_sector3_lap_num == s[6]
        &&& self.lap_history_data@.len() == 100
        &&& forall|i: int|
            0 <= i < 100 ==> #[trigger] self.lap_history_data@[i] == LapHistoryData::spec_at(s, 7 + 14 * i)
        &&& self.tyre_stints_history_data@.len() == 8
        &&& forall|i: int|
            0 <= i < 8 ==> #[trigger] self.tyre_stints_history_data@[i] == TyreStintHistoryData::spec_at(s, 1407 + 3 * i)
    }

    /// Decodes the session history packet; input shorter than 1460 bytes is refused.
    pub fn try_from(b: &[u8]) -> (r: Result<PacketSessionHistoryData, DecodeError>)
        ensures
            b@.len() < 1460 ==> r == Err::<PacketSessionHistoryData, DecodeError>(DecodeError::ShortBuffer),
            b@.len() >= 1460 ==> (r matches Ok(p) && p.decoded_from(b@)),
    {
        if b.len() < 1460 {
            return Err(DecodeError::ShortBuffer);
        }
        let mut lap_history_data: Vec<LapHistoryData> = Vec::with_capacity(100);
        let mut i: usize = 0;
        while i < 100
            invariant
                1460 <= b.len(),
                i <= 100,
                lap_history_data@.len() == i,
                forall|j: int|
                    0 <= j < i ==> #[trigger] lap_history_data@[j] == LapHistoryData::spec_at(b@, 7 + 14 * j),
            decreases 100 - i,
        {
            lap_history_data.push(LapHistoryData::read_at(b, 7 + 14 * i));
            i = i + 1;
        }
        let mut tyre_stints_history_data: Vec<TyreStintHistoryData> = Vec::with_capacity(8);
        let mut i: usize = 0;
        while i < 8
            invariant
                1460 <= b.len(),
                i <= 8,
                tyre_stints_history_data@.len() == i,
                forall|j: int|
                    0 <= j < i ==> #[trigger] tyre_stints_history_data@[j] == TyreStintHistoryData::spec_at(b@, 1407 + 3 * j),
            decreases 8 - i,
        {
            tyre_stints_history_data.push(TyreStintHistoryData::read_at(b, 1407 + 3 * i));
            i = i + 1;
        }
        Ok(
            PacketSessionHistoryData {
                car_idx: b[0],
                num_laps: b[1],
                num_tyre_stints: b[2],
                best_lap_time_lap_num: b[3],
                best_sector1_lap_num: b[4],
                best_sector2_lap_num: b[5],
                best_sector3_lap_num: b[6],
                lap_history_data,
                tyre_stints_history_data,
            },
        )
    }
}

impl LapHistoryData {
    /// The 14 bytes that encode one past lap.
    pub open spec fn wire_bytes(self) -> Seq<u8> {
        u32_bytes(self.lap_time_in_ms)
            + u16_bytes(self.sector1_time_ms_part)
            + seq![self.sector1_time_minutes_part]
            + u16_bytes(self.sector2_time_ms_part)
            + seq![self.sector2_time_minutes_part]
            + u16_bytes(self.sector3_time_ms_part)
            + seq![self.sector3_time_minutes_part]
            + seq![self.lap_valid_bit_flags]
    }

    /// Decoding the bytes of one past lap, whatever follows them, gives back that
    /// value, field for field.
    pub proof fn lemma_round_trip(self, rest: Seq<u8>)
        ensures
            LapHistoryData::spec_at(self.wire_bytes() + rest, 0) == self,
    {
        let s = self.wire_bytes() + rest;
        assert(self.wire_bytes().len() == 14);
        assert(s.subrange(0, 4) =~= u32_bytes(self.lap_time_in_ms));
        lemma_u32_round_trip(s, 0, self.lap_time_in_ms);
        assert(s.subrange(4, 6) =~= u16_bytes(self.sector1_time_ms_part));
        lemma_u16_round_trip(s, 4, self.sector1_time_ms_part);
        assert(s[6] == self.sector1_time_minutes_part);
        assert(s.subrange(7, 9) =~= u16_bytes(self.sector2_time_ms_part));
        lemma_u16_round_trip(s, 7, self.sector2_time_ms_part);
        assert(s[9] == self.sector2_time_minutes_part);
        assert(s.subrange(10, 12) =~= u16_bytes(self.sector3_time_ms_part));
        lemma_u16_round_trip(s, 10, self.sector3_time_ms_part);
        assert(s[12] == self.sector3_time_minutes_part);
        assert(s[13] == self.lap_valid_bit_flags);
    }
}

impl TyreStintHistoryData {
    /// The 3 bytes that encode one tyre stint.
    pub open spec fn wire_bytes(self) -> Seq<u8> {
        seq![self.end_lap]
            + seq![self.tyre_actual_compound]
            + seq![self.tyre_visual_compound]
    }

    /// Decoding the bytes of one tyre stint, whatever follows them, gives back that
    /// value, field for field.
    pub proof fn lemma_round_trip(self, rest: Seq<u8>)
        ensures
            TyreStintHistoryData::spec_at(self.wire_bytes() + rest, 0) == self,
    {
        let s = self.wire_bytes() + rest;
        assert(self.wire_bytes().len() == 3);
        assert(s[0] == self.end_lap);
        assert(s[1] == self.tyre_actual_compound);
        assert(s[2] == self.tyre_visual_compound);
    }
}

} // verus!
