//! The car damage packet: wear and damage of all 22 cars.

use vstd::prelude::*;
use crate::error::DecodeError;
use crate::packets::PacketSize;
use crate::wire::{RawF32, le_f32, read_f32, lemma_u32_round_trip, u32_bytes};

verus! {

/// Damage state of one car.
#[derive(Clone, Copy, PartialEq, Eq, Debug)]
pub struct CarDamageData {
    /// Tyre wear, per wheel (percentage).
    pub tyres_wear: [RawF32; 4],
    pub tyres_damage: [u8; 4],
    pub brakes_damage: [u8; 4],
    pub front_left_wing_damage: u8,
    pub front_right_wing_damage: u8,
    pub rear_wing_damage: u8,
    pub floor_damage: u8,
    pub diffuser_damage: u8,
    pub sidepod_damage: u8,
    pub drs_fault: u8,
    pub ers_fault: u8,
    pub gear_box_damage: u8,
    pub engine_damage: u8,
    pub engine_mguh_wear: u8,
    pub engine_es_wear: u8,
    pub engine_ce_wear: u8,
    pub engine_ice_wear: u8,
    pub engine_mguk_wear: u8,
    pub engine_tc_wear: u8,
    pub engine_blown: u8,
    pub engine_seized: u8,
}

impl CarDamageData {
    /// The value that the 42 bytes at `off` encode.
    pub open spec fn spec_at(s: Seq<u8>, off: int) -> CarDamageData {
        CarDamageData {
            tyres_wear: [le_f32(s, off), le_f32(s, off + 4), le_f32(s, off + 8), le_f32(s, off + 12)],
            tyres_damage: [s[off + 16], s[off + 17], s[off + 18], s[off + 19]],
            brakes_damage: [s[off + 20], s[off + 21], s[off + 22], s[off + 23]],
            front_left_wing_damage: s[off + 24],
            front_right_wing_damage: s[off + 25],
            rear_wing_damage: s[off + 26],
            floor_damage: s[off + 27],
            diffuser_damage: s[off + 28],
            sidepod_damage: s[off + 29],
            drs_fault: s[off + 30],
            ers_fault: s[off + 31],
            gear_box_damage: s[off + 32],
            engine_damage: s[off + 33],
            engine_mguh_wear: s[off + 34],
            engine_es_wear: s[off + 35],
            engine_ce_wear: s[off + 36],
            engine_ice_wear: s[off + 37],
            engine_mguk_wear: s[off + 38],
            engine_tc_wear: s[off + 39],
            engine_blown: s[off + 40],
            engine_seized: s[off + 41],
        }
    }

    /// Reads the value whose 42 bytes start at `off`.
    pub fn read_at(b: &[u8], off: usize) -> (r: CarDamageData)
        requires
            off + 42 <= b.len(),
        ensures
            r == CarDamageData::spec_at(b@, off as int),
    {
        CarDamageData {
            tyres_wear: [read_f32(b, off), read_f32(b, off + 4), read_f32(b, off + 8), read_f32(b, off + 12)],
            tyres_damage: [b[off + 16], b[off + 17], b[off + 18], b[off + 19]],
            brakes_damage: [b[off + 20], b[off + 21], b[off + 22], b[off + 23]],
            front_left_wing_damage: b[off + 24],
            front_right_wing_damage: b[off + 25],
            rear_wing_damage: b[off + 26],
            floor_damage: b[off + 27],
            diffuser_damage: b[off + 28],
            sidepod_damage: b[off + 29],
            drs_fault: b[off + 30],
            ers_fault: b[off + 31],
            gear_box_damage: b[off + 32],
            engine_damage: b[off + 33],
            engine_mguh_wear: b[off + 34],
            engine_es_wear: b[off + 35],
            engine_ce_wear: b[off + 36],
            engine_ice_wear: b[off + 37],
            engine_mguk_wear: b[off + 38],
            engine_tc_wear: b[off + 39],
            engine_blown: b[off + 40],
            engine_seized: b[off + 41],
        }
    }
}

/// Damage state of every car.
#[derive(Clone, Debug, PartialEq, Eq)]
pub struct PacketCarDamageData {
    pub car_damage_data: Vec<CarDamageData>,
}

impl PacketSize for PacketCarDamageData {
    open spec fn wire_size() -> nat {
        953
    }

    fn size() -> (r: usize) {
        953
    }
}

impl PacketCarDamageData {
    /// Whether this value is what the bytes `s` encode.
    pub open spec fn decoded_from(self, s: Seq<u8>) -> bool {
        &&& self.car_damage_data@.len() == 22
        &&& forall|i: int|
            0 <= i < 22 ==> #[trigger] self.car_damage_data@[i] == CarDamageData::spec_at(s, 42 * i)
    }

    /// Decodes the damage packet; input shorter than 953 bytes is refused.
    pub fn try_from(b: &[u8]) -> (r: Result<PacketCarDamageData, DecodeError>)
        ensures
            b@.len() < 953 ==> r == Err::<PacketCarDamageData, DecodeError>(DecodeError::ShortBuffer),
            b@.len() >= 953 ==> (r matches Ok(p) && p.decoded_from(b@)),
    {
        if b.len() < 953 {
            return Err(DecodeError::ShortBuffer);
        }
        let mut car_damage_data: Vec<CarDamageData> = Vec::with_capacity(22);
        let mut i: usize = 0;
        while i < 22
            invariant
                953 <= b.len(),
                i <= 22,
                car_damage_data@.len() == i,
                forall|j: int|
                    0 <= j < i ==> #[trigger] car_damage_data@[j] == CarDamageData::spec_at(b@, 42 * j),
            decreases 22 - i,
        {
            car_damage_data.push(CarDamageData::read_at(b, 42 * i));
            i = i + 1;
        }
        Ok(
            PacketCarDamageData {
                car_damage_data,
            },
        )
    }
}

impl Default for CarDamageData {
    /// All fields zero.
    fn default() -> (r: CarDamageData)
        ensures
            r == (CarDamageData {
                tyres_wear: [RawF32 { bits: 0 }, RawF32 { bits: 0 }, RawF32 { bits: 0 }, RawF32 { bits: 0 }],
                tyres_damage: [0, 0, 0, 0],
                brakes_damage: [0, 0, 0, 0],
                front_left_wing_damage: 0,
                front_right_wing_damage: 0,
                rear_wing_damage: 0,
                floor_damage: 0,
                diffuser_damage: 0,
                sidepod_damage: 0,
                drs_fault: 0,
                ers_fault: 0,
                gear_box_damage: 0,
                engine_damage: 0,
                engine_mguh_wear: 0,
                engine_es_wear: 0,
                engine_ce_wear: 0,
                engine_ice_wear: 0,
                engine_mguk_wear: 0,
                engine_tc_wear: 0,
                engine_blown: 0,
                engine_seized: 0,
            }),
    {
        CarDamageData {
            tyres_wear: [RawF32 { bits: 0 }, RawF32 { bits: 0 }, RawF32 { bits: 0 }, RawF32 { bits: 0 }],
            tyres_damage: [0, 0, 0, 0],
            brakes_damage: [0, 0, 0, 0],
            front_left_wing_damage: 0,
            front_right_wing_damage: 0,
            rear_wing_damage: 0,
            floor_damage: 0,
            diffuser_damage: 0,
            sidepod_damage: 0,
            drs_fault: 0,
            ers_fault: 0,
            gear_box_damage: 0,
            engine_damage: 0,
            engine_mguh_wear: 0,
            engine_es_wear: 0,
            engine_ce_wear: 0,
            engine_ice_wear: 0,
            engine_mguk_wear: 0,
            engine_tc_wear: 0,
            engine_blown: 0,
            engine_seized: 0,
        }
    }
}

impl Default for PacketCarDamageData {
    /// No cars.
    fn default() -> (r: PacketCarDamageData)
        ensures
            r.car_damage_data@.len() == 0,
    {
        PacketCarDamageData { car_damage_data: Vec::new() }
    }
}

impl CarDamageData {
    /// The 42 bytes that encode the damage state of one car.
    pub open spec fn wire_bytes(self) -> Seq<u8> {
        u32_bytes(self.tyres_wear[0].bits)
            + u32_bytes(self.tyres_wear[1].bits)
            + u32_bytes(self.tyres_wear[2].bits)
            + u32_bytes(self.tyres_wear[3].bits)
            + seq![self.tyres_damage[0]]
            + seq![self.tyres_damage[1]]
            + seq![self.tyres_damage[2]]
            + seq![self.tyres_damage[3]]
            + seq![self.brakes_damage[0]]
            + seq![self.brakes_damage[1]]
            + seq![self.brakes_damage[2]]
            + seq![self.brakes_damage[3]]
            + seq![self.front_left_wing_damage]
            + seq![self.front_right_wing_damage]
            + seq![self.rear_wing_damage]
            + seq![self.floor_damage]
            + seq![self.diffuser_damage]
            + seq![self.sidepod_damage]
            + seq![self.drs_fault]
            + seq![self.ers_fault]
            + seq![self.gear_box_damage]
            + seq![self.engine_damage]
            + seq![self.engine_mguh_wear]
            + seq![self.engine_es_wear]
            + seq![self.engine_ce_wear]
            + seq![self.engine_ice_wear]
            + seq![self.engine_mguk_wear]
            + seq![self.engine_tc_wear]
            + seq![self.engine_blown]
            + seq![self.engine_seized]
    }

    /// Decoding the bytes of the damage state of one car, whatever follows them, gives back that
    /// value, field for field.
    #[verifier::rlimit(50)]
    #[verifier::spinoff_prover]
    pub proof fn lemma_round_trip(self, rest: Seq<u8>)
        ensures
            CarDamageData::spec_at(self.wire_bytes() + rest, 0) == self,
    {
        let s = self.wire_bytes() + rest;
        assert(self.wire_bytes().len() == 42);
        assert(s.subrange(0, 4) =~= u32_bytes(self.tyres_wear[0].bits));
        lemma_u32_round_trip(s, 0, self.tyres_wear[0].bits);
        assert(s.subrange(4, 8) =~= u32_bytes(self.tyres_wear[1].bits));
        lemma_u32_round_trip(s, 4, self.tyres_wear[1].bits);
        assert(s.subrange(8, 12) =~= u32_bytes(self.tyres_wear[2].bits));
        lemma_u32_round_trip(s, 8, self.tyres_wear[2].bits);
        assert(s.subrange(12, 16) =~= u32_bytes(self.tyres_wear[3].bits));
        lemma_u32_round_trip(s, 12, self.tyres_wear[3].bits);
        assert(s[16] == self.tyres_damage[0]);
        assert(s[17] == self.tyres_damage[1]);
        assert(s[18] == self.tyres_damage[2]);
        assert(s[19] == self.tyres_damage[3]);
        assert(s[20] == self.brakes_damage[0]);
        assert(s[21] == self.brakes_damage[1]);
        assert(s[22] == self.brakes_damage[2]);
        assert(s[23] == self.brakes_damage[3]);
        assert(s[24] == self.front_left_wing_damage);
        assert(s[25] == self.front_right_wing_damage);
        assert(s[26] == self.rear_wing_damage);
        assert(s[27] == self.floor_damage);
        assert(s[28] == self.diffuser_damage);
        assert(s[29] == self.sidepod_damage);
        assert(s[30] == self.drs_fault);
        assert(s[31] == self.ers_fault);
        assert(s[32] == self.gear_box_damage);
        assert(s[33] == self.engine_damage);
        assert(s[34] == self.engine_mguh_wear);
        assert(s[35] == self.engine_es_wear);
        assert(s[36] == self.engine_ce_wear);
        assert(s[37] == self.engine_ice_wear);
        assert(s[38] == self.engine_mguk_wear);
        assert(s[39] == self.engine_tc_wear);
        assert(s[40] == self.engine_blown);
        assert(s[41] == self.engine_seized);
        let d = CarDamageData::spec_at(s, 0);
        assert(d.tyres_wear =~= self.tyres_wear);
        assert(d.tyres_damage =~= self.tyres_damage);
        assert(d.brakes_damage =~= self.brakes_damage);
    }
}

} // verus!
