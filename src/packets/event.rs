//! The event packet: one notable occurrence, named by a four-letter code.

use vstd::prelude::*;
use crate::error::DecodeError;
use crate::packets::PacketSize;
use crate::wire::{RawF32, le_u32, le_f32, read_u32, read_f32};

verus! {

/// The fastest lap of the session so far.
#[derive(Clone, Copy, PartialEq, Eq, Debug, Structural)]
pub struct FastestLap {
    pub vehicle_idx: u8,
    pub lap_time: RawF32,
}

/// A car retired.
#[derive(Clone, Copy, PartialEq, Eq, Debug, Structural)]
pub struct Retirement {
    pub vehicle_idx: u8,
}

/// The team mate entered the pits.
#[derive(Clone, Copy, PartialEq, Eq, Debug, Structural)]
pub struct TeamMateInPits {
    pub vehicle_idx: u8,
}

/// The race winner.
#[derive(Clone, Copy, PartialEq, Eq, Debug, Structural)]
pub struct RaceWinner {
    pub vehicle_idx: u8,
}

/// A penalty was issued.
#[derive(Clone, Copy, PartialEq, Eq, Debug, Structural)]
pub struct Penalty {
    pub penalty_type: u8,
    pub infringement_type: u8,
    pub vehicle_idx: u8,
    pub other_vehicle_idx: u8,
    pub time: u8,
    pub lap_num: u8,
    pub places_gained: u8,
}

/// A speed-trap pass.
#[derive(Clone, Copy, PartialEq, Eq, Debug, Structural)]
pub struct SpeedTrap {
    pub vehicle_idx: u8,
    pub speed: RawF32,
    pub is_overall_fastest_in_session: u8,
    pub is_driver_fastest_in_session: u8,
    pub fastest_vehicle_idx_in_session: u8,
    pub fastest_speed_in_session: RawF32,
}

/// Start lights.
#[derive(Clone, Copy, PartialEq, Eq, Debug, Structural)]
pub struct StartLights {
    pub num_lights: u8,
}

/// A drive-through penalty was served.
#[derive(Clone, Copy, PartialEq, Eq, Debug, Structural)]
pub struct DriveThroughPenaltyServed {
    pub vehicle_idx: u8,
}

/// A stop-go penalty was served.
#[derive(Clone, Copy, PartialEq, Eq, Debug, Structural)]
pub struct StopGoPenaltyServed {
    pub vehicle_idx: u8,
}

/// A flashback was activated.
#[derive(Clone, Copy, PartialEq, Eq, Debug, Structural)]
pub struct Flashback {
    pub flashback_frame_identifier: u32,
    pub flashback_session_time: RawF32,
}

/// The button status changed.
#[derive(Clone, Copy, PartialEq, Eq, Debug, Structural)]
pub struct Buttons {
    pub button_status: u32,
}

/// An overtake.
#[derive(Clone, Copy, PartialEq, Eq, Debug, Structural)]
pub struct Overtake {
    pub overtaking_vehicle_idx: u8,
    pub being_overtaken_vehicle_idx: u8,
}

/// A safety car event.
#[derive(Clone, Copy, PartialEq, Eq, Debug, Structural)]
pub struct SafetyCar {
    pub safety_car_type: u8,
    pub event_type: u8,
}

/// A collision between two cars.
#[derive(Clone, Copy, PartialEq, Eq, Debug, Structural)]
pub struct Collision {
    pub vehicle1_idx: u8,
    pub vehicle2_idx: u8,
}

/// What an event carries, by kind.
#[derive(Clone, Copy, PartialEq, Eq, Debug, Structural)]
pub enum EventDataDetails {
    FastestLap(FastestLap),
    Retirement(Retirement),
    TeamMateInPits(TeamMateInPits),
    RaceWinner(RaceWinner),
    Penalty(Penalty),
    SpeedTrap(SpeedTrap),
    StartLights(StartLights),
    DriveThroughPenaltyServed(DriveThroughPenaltyServed),
    StopGoPenaltyServed(StopGoPenaltyServed),
    Flashback(Flashback),
    Buttons(Buttons),
    Overtake(Overtake),
    SafetyCar(SafetyCar),
    Collision(Collision),
}

/// Whether the four-letter code at the start of `s` is `c`.
pub open spec fn code_is(s: Seq<u8>, c: Seq<u8>) -> bool {
    s.subrange(0, 4) == c
}

/// The details that the bytes `s` carry, where their code names a known
/// event.
pub open spec fn event_details_of(s: Seq<u8>) -> Option<EventDataDetails> {
    if code_is(s, seq![70, 84, 76, 80]) {  // FTLP
        Some(EventDataDetails::FastestLap(FastestLap { vehicle_idx: s[4], lap_time: le_f32(s, 5) }))
    } else if code_is(s, seq![82, 84, 77, 84]) {  // RTMT
        Some(EventDataDetails::Retirement(Retirement { vehicle_idx: s[4] }))
    } else if code_is(s, seq![84, 77, 80, 84]) {  // TMPT
        Some(EventDataDetails::TeamMateInPits(TeamMateInPits { vehicle_idx: s[4] }))
    } else if code_is(s, seq![82, 67, 87, 78]) {  // RCWN
        Some(EventDataDetails::RaceWinner(RaceWinner { vehicle_idx: s[4] }))
    } else if code_is(s, seq![80, 69, 78, 65]) {  // PENA
        Some(EventDataDetails::Penalty(Penalty { penalty_type: s[4], infringement_type: s[5], vehicle_idx: s[6], other_vehicle_idx: s[7], time: s[8], lap_num: s[9], places_gained: s[10] }))
    } else if code_is(s, seq![83, 80, 84, 80]) {  // SPTP
        Some(EventDataDetails::SpeedTrap(SpeedTrap { vehicle_idx: s[4], speed: le_f32(s, 5), is_overall_fastest_in_session: s[9], is_driver_fastest_in_session: s[10], fastest_vehicle_idx_in_session: s[11], fastest_speed_in_session: le_f32(s, 12) }))
    } else if code_is(s, seq![83, 84, 76, 71]) {  // STLG
        Some(EventDataDetails::StartLights(StartLights { num_lights: s[4] }))
    } else if code_is(s, seq![68, 84, 83, 86]) {  // DTSV
        Some(EventDataDetails::DriveThroughPenaltyServed(DriveThroughPenaltyServed { vehicle_idx: s[4] }))
    } else if code_is(s, seq![83, 71, 83, 86]) {  // SGSV
        Some(EventDataDetails::StopGoPenaltyServed(StopGoPenaltyServed { vehicle_idx: s[4] }))
    } else if code_is(s, seq![70, 76, 66, 75]) {  // FLBK
        Some(EventDataDetails::Flashback(Flashback { flashback_frame_identifier: le_u32(s, 4), flashback_session_time: le_f32(s, 8) }))
    } else if code_is(s, seq![66, 85, 84, 78]) {  // BUTN
        Some(EventDataDetails::Buttons(Buttons { button_status: le_u32(s, 4) }))
    } else if code_is(s, seq![79, 86, 84, 75]) {  // OVTK
        Some(EventDataDetails::Overtake(Overtake { overtaking_vehicle_idx: s[4], being_overtaken_vehicle_idx: s[5] }))
    } else if code_is(s, seq![83, 67, 65, 82]) {  // SCAR
        Some(EventDataDetails::SafetyCar(SafetyCar { safety_car_type: s[4], event_type: s[5] }))
    } else if code_is(s, seq![67, 79, 76, 76]) {  // COLL
        Some(EventDataDetails::Collision(Collision { vehicle1_idx: s[4], vehicle2_idx: s[5] }))
    } else {
        None
    }
}

/// Whether the first four bytes of `b` are `c0 c1 c2 c3`.
fn has_code(b: &[u8], c0: u8, c1: u8, c2: u8, c3: u8) -> (r: bool)
    requires
        4 <= b.len(),
    ensures
        r == code_is(b@, seq![c0, c1, c2, c3]),
{
    let r = b[0] == c0 && b[1] == c1 && b[2] == c2 && b[3] == c3;
    assert(r ==> b@.subrange(0, 4) =~= seq![c0, c1, c2, c3]);
    assert(b@.subrange(0, 4) =~= seq![c0, c1, c2, c3] ==> b@[0] == c0 && b@[1] == c1 && b@[2] == c2 && b@[3] == c3) by {
        if b@.subrange(0, 4) =~= seq![c0, c1, c2, c3] {
            assert(b@.subrange(0, 4)[0] == b@[0]);
            assert(b@.subrange(0, 4)[1] == b@[1]);
            assert(b@.subrange(0, 4)[2] == b@[2]);
            assert(b@.subrange(0, 4)[3] == b@[3]);
        }
    }
    r
}

/// One event.
#[derive(Clone, Copy, PartialEq, Eq, Debug)]
pub struct PacketEventData {
    pub event_string_code: [u8; 4],
    pub event_details: EventDataDetails,
}

impl PacketSize for PacketEventData {
    open spec fn wire_size() -> nat {
        45
    }

    fn size() -> (r: usize) {
        45
    }
}

impl PacketEventData {
    /// Decodes the event packet; input shorter than 45 bytes, or a code that
    /// names no known event, is refused.
    pub fn try_from(b: &[u8]) -> (r: Result<PacketEventData, DecodeError>)
        ensures
            r == (if b@.len() < 45 {
                Err(DecodeError::ShortBuffer)
            } else {
                match event_details_of(b@) {
                    Some(d) => Ok(PacketEventData { event_string_code: [b@[0], b@[1], b@[2], b@[3]], event_details: d }),
                    None => Err(DecodeError::UnknownEventCode),
                }
            }),
    {
        if b.len() < 45 {
            return Err(DecodeError::ShortBuffer);
        }
        let event_string_code = [b[0], b[1], b[2], b[3]];
        let event_details = if has_code(b, 70, 84, 76, 80) {  // FTLP
            EventDataDetails::FastestLap(FastestLap { vehicle_idx: b[4], lap_time: read_f32(b, 5) })
        } else if has_code(b, 82, 84, 77, 84) {  // RTMT
            EventDataDetails::Retirement(Retirement { vehicle_idx: b[4] })
        } else if has_code(b, 84, 77, 80, 84) {  // TMPT
            EventDataDetails::TeamMateInPits(TeamMateInPits { vehicle_idx: b[4] })
        } else if has_code(b, 82, 67, 87, 78) {  // RCWN
            EventDataDetails::RaceWinner(RaceWinner { vehicle_idx: b[4] })
        } else if has_code(b, 80, 69, 78, 65) {  // PENA
            EventDataDetails::Penalty(Penalty { penalty_type: b[4], infringement_type: b[5], vehicle_idx: b[6], other_vehicle_idx: b[7], time: b[8], lap_num: b[9], places_gained: b[10] })
        } else if has_code(b, 83, 80, 84, 80) {  // SPTP
            EventDataDetails::SpeedTrap(SpeedTrap { vehicle_idx: b[4], speed: read_f32(b, 5), is_overall_fastest_in_session: b[9], is_driver_fastest_in_session: b[10], fastest_vehicle_idx_in_session: b[11], fastest_speed_in_session: read_f32(b, 12) })
        } else if has_code(b, 83, 84, 76, 71) {  // STLG
            EventDataDetails::StartLights(StartLights { num_lights: b[4] })
        } else if has_code(b, 68, 84, 83, 86) {  // DTSV
            EventDataDetails::DriveThroughPenaltyServed(DriveThroughPenaltyServed { vehicle_idx: b[4] })
        } else if has_code(b, 83, 71, 83, 86) {  // SGSV
            EventDataDetails::StopGoPenaltyServed(StopGoPenaltyServed { vehicle_idx: b[4] })
        } else if has_code(b, 70, 76, 66, 75) {  // FLBK
            EventDataDetails::Flashback(Flashback { flashback_frame_identifier: read_u32(b, 4), flashback_session_time: read_f32(b, 8) })
        } else if has_code(b, 66, 85, 84, 78) {  // BUTN
            EventDataDetails::Buttons(Buttons { button_status: read_u32(b, 4) })
        } else if has_code(b, 79, 86, 84, 75) {  // OVTK
            EventDataDetails::Overtake(Overtake { overtaking_vehicle_idx: b[4], being_overtaken_vehicle_idx: b[5] })
        } else if has_code(b, 83, 67, 65, 82) {  // SCAR
            EventDataDetails::SafetyCar(SafetyCar { safety_car_type: b[4], event_type: b[5] })
        } else if has_code(b, 67, 79, 76, 76) {  // COLL
            EventDataDetails::Collision(Collision { vehicle1_idx: b[4], vehicle2_idx: b[5] })
        } else {
            return Err(DecodeError::UnknownEventCode);
        };
        Ok(PacketEventData { event_string_code, event_details })
    }
}

} // verus!
