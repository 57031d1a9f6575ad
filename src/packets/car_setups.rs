//! The car setups packet.

use vstd::prelude::*;
use crate::error::DecodeError;
use crate::packets::PacketSize;
use crate::wire::{RawF32, le_f32, read_f32, lemma_u32_round_trip, u32_bytes};

verus! {

/// Setup of one car.
#[derive(Clone, Copy, PartialEq, Eq, Debug, Structural)]
pub struct CarSetupData {
    pub front_wing: u8,
    pub rear_wing: u8,
    pub on_throttle: u8,
    pub off_throttle: u8,
    pub front_camber: RawF32,
    pub rear_camber: RawF32,
    pub front_toe: RawF32,
    pub rear_toe: RawF32,
    pub front_suspension: u8,
    pub rear_suspension: u8,
    pub front_anti_roll_bar: u8,
    pub rear_anti_roll_bar: u8,
    pub front_suspension_height: u8,
    pub rear_suspension_height: u8,
    pub brake_pressure: u8,
    pub brake_bias: u8,
    pub engine_braking: u8,
    pub rear_left_tyre_pressure: RawF32,
    pub rear_right_tyre_pressure: RawF32,
    pub front_left_tyre_pressure: RawF32,
    pub front_right_tyre_pressure: RawF32,
    pub ballast: u8,
    pub fuel_load: RawF32,
}

impl CarSetupData {
    /// The value that the 50 bytes at `off` encode.
    pub open spec fn spec_at(s: Seq<u8>, off: int) -> CarSetupData {
        CarSetupData {
            front_wing: s[off],
            rear_wing: s[off + 1],
            on_throttle: s[off + 2],
            off_throttle: s[off + 3],
            front_camber: le_f32(s, off + 4),
            rear_camber: le_f32(s, off + 8),
            front_toe: le_f32(s, off + 12),
            rear_toe: le_f32(s, off + 16),
            front_suspension: s[off + 20],
            rear_suspension: s[off + 21],
            front_anti_roll_bar: s[off + 22],
            rear_anti_roll_bar: s[off + 23],
            front_suspension_height: s[off + 24],
            rear_suspension_height: s[off + 25],
            brake_pressure: s[off + 26],
            brake_bias: s[off + 27],
            engine_braking: s[off + 28],
            rear_left_tyre_pressure: le_f32(s, off + 29),
            rear_right_tyre_pressure: le_f32(s, off + 33),
            front_left_tyre_pressure: le_f32(s, off + 37),
            front_right_tyre_pressure: le_f32(s, off + 41),
            ballast: s[off + 45],
            fuel_load: le_f32(s, off + 46),
        }
    }

    /// Reads the value whose 50 bytes start at `off`.
    pub fn read_at(b: &[u8], off: usize) -> (r: CarSetupData)
        requires
            off + 50 <= b.len(),
        ensures
            r == CarSetupData::spec_at(b@, off as int),
    {
        CarSetupData {
            front_wing: b[off],
            rear_wing: b[off + 1],
            on_throttle: b[off + 2],
            off_throttle: b[off + 3],
            front_camber: read_f32(b, off + 4),
            rear_camber: read_f32(b, off + 8),
            front_toe: read_f32(b, off + 12),
            rear_toe: read_f32(b, off + 16),
            front_suspension: b[off + 20],
            rear_suspension: b[off + 21],
            front_anti_roll_bar: b[off + 22],
            rear_anti_roll_bar: b[off + 23],
            front_suspension_height: b[off + 24],
            rear_suspension_height: b[off + 25],
            brake_pressure: b[off + 26],
            brake_bias: b[off + 27],
            engine_braking: b[off + 28],
            rear_left_tyre_pressure: read_f32(b, off + 29),
            rear_right_tyre_pressure: read_f32(b, off + 33),
            front_left_tyre_pressure: read_f32(b, off + 37),
            front_right_tyre_pressure: read_f32(b, off + 41),
            ballast: b[off + 45],
            fuel_load: read_f32(b, off + 46),
        }
    }
}

/// Setups of every car.
#[derive(Clone, Debug, PartialEq, Eq)]
pub struct PacketCarSetupData {
    pub car_setups: Vec<CarSetupData>,
    /// Front wing value after the next pit stop (player only).
    pub next_front_wing_value: RawF32,
}

impl PacketSize for PacketCarSetupData {
    open spec fn wire_size() -> nat {
        1133
    }

    fn size() -> (r: usize) {
        1133
    }
}

impl PacketCarSetupData {
    /// Whether this value is what the bytes `s` encode.
    pub open spec fn decoded_from(self, s: Seq<u8>) -> bool {
        &&& self.car_setups@.len() == 22
        &&& forall|i: int|
            0 <= i < 22 ==> #[trigger] self.car_setups@[i] == CarSetupData::spec_at(s, 50 * i)
        &&& self.next_front_wing_value == le_f32(s, 1100)
    }

    /// Decodes the car setups packet; input shorter than 1133 bytes is refused.
    pub fn try_from(b: &[u8]) -> (r: Result<PacketCarSetupData, DecodeError>)
        ensures
            b@.len() < 1133 ==> r == Err::<PacketCarSetupData, DecodeError>(DecodeError::ShortBuffer),
            b@.len() >= 1133 ==> (r matches Ok(p) && p.decoded_from(b@)),
    {
        if b.len() < 1133 {
            return Err(DecodeError::ShortBuffer);
        }
        let mut car_setups: Vec<CarSetupData> = Vec::with_capacity(22);
        let mut i: usize = 0;
        while i < 22
            invariant
                1133 <= b.len(),
                i <= 22,
                car_setups@.len() == i,
                forall|j: int|
                    0 <= j < i ==> #[trigger] car_setups@[j] == CarSetupData::spec_at(b@, 50 * j),
            decreases 22 - i,
        {
            car_setups.push(CarSetupData::read_at(b, 50 * i));
            i = i + 1;
        }
        Ok(
            PacketCarSetupData {
                car_setups,
                next_front_wing_value: read_f32(b, 1100),
            },
        )
    }
}

impl Default for CarSetupData {
    /// All fields zero.
    fn default() -> (r: CarSetupData)
        ensures
            r == (CarSetupData {
                front_wing: 0,
                rear_wing: 0,
                on_throttle: 0,
                off_throttle: 0,
                front_camber: RawF32 { bits: 0 },
                rear_camber: RawF32 { bits: 0 },
                front_toe: RawF32 { bits: 0 },
                rear_toe: RawF32 { bits: 0 },
                front_suspension: 0,
                rear_suspension: 0,
                front_anti_roll_bar: 0,
                rear_anti_roll_bar: 0,
                front_suspension_height: 0,
                rear_suspension_height: 0,
                brake_pressure: 0,
                brake_bias: 0,
                engine_braking: 0,
                rear_left_tyre_pressure: RawF32 { bits: 0 },
                rear_right_tyre_pressure: RawF32 { bits: 0 },
                front_left_tyre_pressure: RawF32 { bits: 0 },
                front_right_tyre_pressure: RawF32 { bits: 0 },
                ballast: 0,
                fuel_load: RawF32 { bits: 0 },
            }),
    {
        CarSetupData {
            front_wing: 0,
            rear_wing: 0,
            on_throttle: 0,
            off_throttle: 0,
            front_camber: RawF32 { bits: 0 },
            rear_camber: RawF32 { bits: 0 },
            front_toe: RawF32 { bits: 0 },
            rear_toe: RawF32 { bits: 0 },
            front_suspension: 0,
            rear_suspension: 0,
            front_anti_roll_bar: 0,
            rear_anti_roll_bar: 0,
            front_suspension_height: 0,
            rear_suspension_height: 0,
            brake_pressure: 0,
            brake_bias: 0,
            engine_braking: 0,
            rear_left_tyre_pressure: RawF32 { bits: 0 },
            rear_right_tyre_pressure: RawF32 { bits: 0 },
            front_left_tyre_pressure: RawF32 { bits: 0 },
            front_right_tyre_pressure: RawF32 { bits: 0 },
            ballast: 0,
            fuel_load: RawF32 { bits: 0 },
        }
    }
}

impl Default for PacketCarSetupData {
    /// No cars, and a zero next front wing value.
    fn default() -> (r: PacketCarSetupData)
        ensures
            r.car_setups@.len() == 0,
            r.next_front_wing_value == (RawF32 { bits: 0 }),
    {
        PacketCarSetupData { car_setups: Vec::new(), next_front_wing_value: RawF32 { bits: 0 } }
    }
}

impl CarSetupData {
    /// The 50 bytes that encode the setup of one car.
    pub open spec fn wire_bytes(self) -> Seq<u8> {
        seq![self.front_wing]
            + seq![self.rear_wing]
            + seq![self.on_throttle]
            + seq![self.off_throttle]
            + u32_bytes(self.front_camber.bits)
            + u32_bytes(self.rear_camber.bits)
            + u32_bytes(self.front_toe.bits)
            + u32_bytes(self.rear_toe.bits)
            + seq![self.front_suspension]
            + seq![self.rear_suspension]
            + seq![self.front_anti_roll_bar]
            + seq![self.rear_anti_roll_bar]
            + seq![self.front_suspension_height]
            + seq![self.rear_suspension_height]
            + seq![self.brake_pressure]
            + seq![self.brake_bias]
            + seq![self.engine_braking]
            + u32_bytes(self.rear_left_tyre_pressure.bits)
            + u32_bytes(self.rear_right_tyre_pressure.bits)
            + u32_bytes(self.front_left_tyre_pressure.bits)
            + u32_bytes(self.front_right_tyre_pressure.bits)
            + seq![self.ballast]
            + u32_bytes(self.fuel_load.bits)
    }

    /// Decoding the bytes of the setup of one car, whatever follows them, gives back that
    /// value, field for field.
    #[verifier::rlimit(50)]
    #[verifier::spinoff_prover]
    pub proof fn lemma_round_trip(self, rest: Seq<u8>)
        ensures
            CarSetupData::spec_at(self.wire_bytes() + rest, 0) == self,
    {
        let s = self.wire_bytes() + rest;
        assert(self.wire_bytes().len() == 50);
        assert(s[0] == self.front_wing);
        assert(s[1] == self.rear_wing);
        assert(s[2] == self.on_throttle);
        assert(s[3] == self.off_throttle);
        assert(s.subrange(4, 8) =~= u32_bytes(self.front_camber.bits));
        lemma_u32_round_trip(s, 4, self.front_camber.bits);
        assert(s.subrange(8, 12) =~= u32_bytes(self.rear_camber.bits));
        lemma_u32_round_trip(s, 8, self.rear_camber.bits);
        assert(s.subrange(12, 16) =~= u32_bytes(self.front_toe.bits));
        lemma_u32_round_trip(s, 12, self.front_toe.bits);
        assert(s.subrange(16, 20) =~= u32_bytes(self.rear_toe.bits));
        lemma_u32_round_trip(s, 16, self.rear_toe.bits);
        assert(s[20] == self.front_suspension);
        assert(s[21] == self.rear_suspension);
        assert(s[22] == self.front_anti_roll_bar);
        assert(s[23] == self.rear_anti_roll_bar);
        assert(s[24] == self.front_suspension_height);
        assert(s[25] == self.rear_suspension_height);
        assert(s[26] == self.brake_pressure);
        assert(s[27] == self.brake_bias);
        assert(s[28] == self.engine_braking);
        assert(s.subrange(29, 33) =~= u32_bytes(self.rear_left_tyre_pressure.bits));
        lemma_u32_round_trip(s, 29, self.rear_left_tyre_pressure.bits);
        assert(s.subrange(33, 37) =~= u32_bytes(self.rear_right_tyre_pressure.bits));
        lemma_u32_round_trip(s, 33, self.rear_right_tyre_pressure.bits);
        assert(s.subrange(37, 41) =~= u32_bytes(self.front_left_tyre_pressure.bits));
        lemma_u32_round_trip(s, 37, self.front_left_tyre_pressure.bits);
        assert(s.subrange(41, 45) =~= u32_bytes(self.front_right_tyre_pressure.bits));
        lemma_u32_round_trip(s, 41, self.front_right_tyre_pressure.bits);
        assert(s[45] == self.ballast);
        assert(s.subrange(46, 50) =~= u32_bytes(self.fuel_load.bits));
        lemma_u32_round_trip(s, 46, self.fuel_load.bits);
    }
}

} // verus!
