//! The final classification packet: the result of every car.

use vstd::prelude::*;
use crate::error::DecodeError;
use crate::packets::PacketSize;
use crate::wire::{RawF64, le_u32, le_f64, read_u32, read_f64};

verus! {

/// How a driver's race ended.
#[derive(Clone, Copy, PartialEq, Eq, Debug, Structural)]
pub enum ResultStatus {
    Invalid,
    Inactive,
    Active,
    Finished,
    DidNotFinish,
    Disqualified,
    NotClassified,
    Retired,
}

/// The result status that a byte names, if any.
pub open spec fn result_status_of(v: u8) -> Option<ResultStatus> {
    if v == 0 {
        Some(ResultStatus::Invalid)
    } else if v == 1 {
        Some(ResultStatus::Inactive)
    } else if v == 2 {
        Some(ResultStatus::Active)
    } else if v == 3 {
        Some(ResultStatus::Finished)
    } else if v == 4 {
        Some(ResultStatus::DidNotFinish)
    } else if v == 5 {
        Some(ResultStatus::Disqualified)
    } else if v == 6 {
        Some(ResultStatus::NotClassified)
    } else if v == 7 {
        Some(ResultStatus::Retired)
    } else {
        None
    }
}

impl ResultStatus {
    /// Maps a byte to its result status; bytes from 8 up are refused.
    pub fn try_from(value: u8) -> (r: Result<ResultStatus, DecodeError>)
        ensures
            r == (match result_status_of(value) {
                Some(t) => Ok(t),
                None => Err(DecodeError::InvalidResultStatus(value)),
            }),
    {
        match value {
            0 => Ok(ResultStatus::Invalid),
            1 => Ok(ResultStatus::Inactive),
            2 => Ok(ResultStatus::Active),
            3 => Ok(ResultStatus::Finished),
            4 => Ok(ResultStatus::DidNotFinish),
            5 => Ok(ResultStatus::Disqualified),
            6 => Ok(ResultStatus::NotClassified),
            7 => Ok(ResultStatus::Retired),
            _ => Err(DecodeError::InvalidResultStatus(value)),
        }
    }
}

impl Default for ResultStatus {
    fn default() -> (r: ResultStatus)
        ensures
            r == ResultStatus::Invalid,
    {
        ResultStatus::Invalid
    }
}

/// The final result of one car.
#[derive(Clone, Copy, PartialEq, Eq, Debug)]
pub struct FinalClassificationData {
    pub position: u8,
    pub num_laps: u8,
    pub grid_position: u8,
    pub points: u8,
    pub num_pit_stops: u8,
    pub result_status: ResultStatus,
    pub best_lap_time_in_ms: u32,
    /// Total race time in seconds, without penalties.
    pub total_race_time: RawF64,
    pub penalties_time: u8,
    pub num_penalties: u8,
    pub num_tyre_stints: u8,
    pub tyre_stints_actual: [u8; 8],
    pub tyre_stints_visual: [u8; 8],
    pub tyre_stints_end_laps: [u8; 8],
}

impl PacketSize for FinalClassificationData {
    open spec fn wire_size() -> nat {
        45
    }

    fn size() -> (r: usize) {
        45
    }
}

impl FinalClassificationData {
    /// The result that the 45 bytes at `off` encode, given the status that
    /// its status byte names.
    pub open spec fn spec_at(s: Seq<u8>, off: int, status: ResultStatus) -> FinalClassificationData {
        FinalClassificationData {
            position: s[off],
            num_laps: s[off + 1],
            grid_position: s[off + 2],
            points: s[off + 3],
            num_pit_stops: s[off + 4],
            result_status: status,
            best_lap_time_in_ms: le_u32(s, off + 6),
            total_race_time: le_f64(s, off + 10),
            penalties_time: s[off + 18],
            num_penalties: s[off + 19],
            num_tyre_stints: s[off + 20],
            tyre_stints_actual: [s[off + 21], s[off + 22], s[off + 23], s[off + 24], s[off + 25], s[off + 26], s[off + 27], s[off + 28]],
            tyre_stints_visual: [s[off + 29], s[off + 30], s[off + 31], s[off + 32], s[off + 33], s[off + 34], s[off + 35], s[off + 36]],
            tyre_stints_end_laps: [s[off + 37], s[off + 38], s[off + 39], s[off + 40], s[off + 41], s[off + 42], s[off + 43], s[off + 44]],
        }
    }

    /// Reads the result whose 45 bytes start at `off`; a status byte outside
    /// the documented range is refused.
    pub fn read_at(b: &[u8], off: usize) -> (r: Result<FinalClassificationData, DecodeError>)
        requires
            off + 45 <= b.len(),
        ensures
            r == (match result_status_of(b@[off + 5]) {
                Some(t) => Ok(FinalClassificationData::spec_at(b@, off as int, t)),
                None => Err(DecodeError::InvalidResultStatus(b@[off + 5])),
            }),
    {
        let result_status = match ResultStatus::try_from(b[off + 5]) {
            Ok(t) => t,
            Err(e) => {
                return Err(e);
            },
        };
        Ok(
            FinalClassificationData {
                position: b[off],
                num_laps: b[off + 1],
                grid_position: b[off + 2],
                points: b[off + 3],
                num_pit_stops: b[off + 4],
                result_status,
                best_lap_time_in_ms: read_u32(b, off + 6),
                total_race_time: read_f64(b, off + 10),
                penalties_time: b[off + 18],
                num_penalties: b[off + 19],
                num_tyre_stints: b[off + 20],
                tyre_stints_actual: [b[off + 21], b[off + 22], b[off + 23], b[off + 24], b[off + 25], b[off + 26], b[off + 27], b[off + 28]],
                tyre_stints_visual: [b[off + 29], b[off + 30], b[off + 31], b[off + 32], b[off + 33], b[off + 34], b[off + 35], b[off + 36]],
                tyre_stints_end_laps: [b[off + 37], b[off + 38], b[off + 39], b[off + 40], b[off + 41], b[off + 42], b[off + 43], b[off + 44]],
            },
        )
    }
}

/// The status byte of the car in slot `i`.
pub open spec fn status_byte(s: Seq<u8>, i: int) -> u8 {
    s[1 + 45 * i + 5]
}

/// Whether the status byte of the car in slot `i` names a result status.
pub open spec fn status_valid(s: Seq<u8>, i: int) -> bool {
    result_status_of(status_byte(s, i)) is Some
}

/// The final classification of every car.
#[derive(Clone, Debug, PartialEq, Eq)]
pub struct PacketFinalClassificationData {
    /// Number of cars in the final classification.
    pub num_cars: u8,
    pub classification_data: Vec<FinalClassificationData>,
}

impl PacketSize for PacketFinalClassificationData {
    open spec fn wire_size() -> nat {
        1020
    }

    fn size() -> (r: usize) {
        1020
    }
}

impl PacketFinalClassificationData {
    /// Whether every one of the 22 status bytes names a result status.
    pub open spec fn statuses_valid(s: Seq<u8>) -> bool {
        forall|i: int| 0 <= i < 22 ==> #[trigger] status_valid(s, i)
    }

    /// Whether this value is what the bytes `s` encode.
    pub open spec fn decoded_from(self, s: Seq<u8>) -> bool {
        &&& self.num_cars == s[0]
        &&& self.classification_data@.len() == 22
        &&& forall|i: int|
            0 <= i < 22 ==> #[trigger] self.classification_data@[i]
                == FinalClassificationData::spec_at(
                s,
                1 + 45 * i,
                result_status_of(status_byte(s, i))->0,
            )
    }

    /// Decodes the final classification packet; input shorter than 1020
    /// bytes is refused, and so is the first status byte, in slot order,
    /// that names no result status.
    pub fn try_from(b: &[u8]) -> (r: Result<PacketFinalClassificationData, DecodeError>)
        ensures
            b@.len() < 1020 ==> r == Err::<PacketFinalClassificationData, DecodeError>(
                DecodeError::ShortBuffer,
            ),
            b@.len() >= 1020 && Self::statuses_valid(b@) ==> (r matches Ok(p)
                && p.decoded_from(b@)),
            b@.len() >= 1020 && !Self::statuses_valid(b@) ==> exists|k: int|
                0 <= k < 22 && !#[trigger] status_valid(b@, k) && (forall|j: int|
                    0 <= j < k ==> status_valid(b@, j)) && r == Err::<
                    PacketFinalClassificationData,
                    DecodeError,
                >(DecodeError::InvalidResultStatus(status_byte(b@, k))),
    {
        if b.len() < 1020 {
            return Err(DecodeError::ShortBuffer);
        }
        let mut classification_data: Vec<FinalClassificationData> = Vec::with_capacity(22);
        let mut i: usize = 0;
        while i < 22
            invariant
                1020 <= b.len(),
                i <= 22,
                classification_data@.len() == i,
                forall|j: int| 0 <= j < i ==> #[trigger] status_valid(b@, j),
                forall|j: int|
                    0 <= j < i ==> #[trigger] classification_data@[j]
                        == FinalClassificationData::spec_at(
                        b@,
                        1 + 45 * j,
                        result_status_of(status_byte(b@, j))->0,
                    ),
            decreases 22 - i,
        {
            match FinalClassificationData::read_at(b, 1 + 45 * i) {
                Ok(d) => classification_data.push(d),
                Err(e) => {
                    assert(!status_valid(b@, i as int));
                    return Err(e);
                },
            }
            i = i + 1;
        }
        Ok(PacketFinalClassificationData { num_cars: b[0], classification_data })
    }
}

} // verus!
