//! The session packet.

use vstd::prelude::*;
use crate::error::DecodeError;
use crate::packets::PacketSize;
use crate::wire::{RawF32, byte_i8, le_u16, le_u32, le_f32, read_u16, read_u32, read_f32, read_i8, lemma_i8_round_trip, lemma_u32_round_trip, u32_bytes};

verus! {

/// One marshal zone.
#[derive(Clone, Copy, PartialEq, Eq, Debug, Structural)]
pub struct MarshalZone {
    /// Fraction of the lap, 0 to 1.
    pub zone_start: RawF32,
    /// -1 = invalid or unknown, 0 = none, 1 = green, 2 = blue, 3 = yellow.
    pub zone_flag: i8,
}

impl MarshalZone {
    /// The value that the 5 bytes at `off` encode.
    pub open spec fn spec_at(s: Seq<u8>, off: int) -> MarshalZone {
        MarshalZone {
            zone_start: le_f32(s, off),
            zone_flag: byte_i8(s, off + 4),
        }
    }

    /// Reads the value whose 5 bytes start at `off`.
    pub fn read_at(b: &[u8], off: usize) -> (r: MarshalZone)
        requires
            off + 5 <= b.len(),
        ensures
            r == MarshalZone::spec_at(b@, off as int),
    {
        MarshalZone {
            zone_start: read_f32(b, off),
            zone_flag: read_i8(b, off + 4),
        }
    }
}

impl PacketSize for MarshalZone {
    open spec fn wire_size() -> nat {
        5
    }

    fn size() -> (r: usize) {
        5
    }
}

impl MarshalZone {
    /// Decodes one marshal zone from the start of `b`.
    pub fn try_from(b: &[u8]) -> (r: Result<MarshalZone, DecodeError>)
        ensures
            r == (if b@.len() < 5 {
                Err(DecodeError::ShortBuffer)
            } else {
                Ok(MarshalZone::spec_at(b@, 0))
            }),
    {
        if b.len() < 5 {
            return Err(DecodeError::ShortBuffer);
        }
        Ok(MarshalZone::read_at(b, 0))
    }
}

/// One weather forecast sample.
#[derive(Clone, Copy, PartialEq, Eq, Debug, Structural)]
pub struct WeatherForecastSample {
    pub session_type: u8,
    pub time_offset: u8,
    pub weather: u8,
    pub track_temperature: i8,
    pub track_temperature_change: i8,
    pub air_temperature: i8,
    pub air_temperature_change: i8,
    pub rain_percentage: u8,
}

impl WeatherForecastSample {
    /// The value that the 8 bytes at `off` encode.
    pub open spec fn spec_at(s: Seq<u8>, off: int) -> WeatherForecastSample {
        WeatherForecastSample {
            session_type: s[off],
            time_offset: s[off + 1],
            weather: s[off + 2],
            track_temperature: byte_i8(s, off + 3),
            track_temperature_change: byte_i8(s, off + 4),
            air_temperature: byte_i8(s, off + 5),
            air_temperature_change: byte_i8(s, off + 6),
            rain_percentage: s[off + 7],
        }
    }

    /// Reads the value whose 8 bytes start at `off`.
    pub fn read_at(b: &[u8], off: usize) -> (r: WeatherForecastSample)
        requires
            off + 8 <= b.len(),
        ensures
            r == WeatherForecastSample::spec_at(b@, off as int),
    {
        WeatherForecastSample {
            session_type: b[off],
            time_offset: b[off + 1],
            weather: b[off + 2],
            track_temperature: read_i8(b, off + 3),
            track_temperature_change: read_i8(b, off + 4),
            air_temperature: read_i8(b, off + 5),
            air_temperature_change: read_i8(b, off + 6),
            rain_percentage: b[off + 7],
        }
    }
}

impl PacketSize for WeatherForecastSample {
    open spec fn wire_size() -> nat {
        8
    }

    fn size() -> (r: usize) {
        8
    }
}

impl WeatherForecastSample {
    /// Decodes one forecast sample from the start of `b`.
    pub fn try_from(b: &[u8]) -> (r: Result<WeatherForecastSample, DecodeError>)
        ensures
            r == (if b@.len() < 8 {
                Err(DecodeError::ShortBuffer)
            } else {
                Ok(WeatherForecastSample::spec_at(b@, 0))
            }),
    {
        if b.len() < 8 {
            return Err(DecodeError::ShortBuffer);
        }
        Ok(WeatherForecastSample::read_at(b, 0))
    }
}

/// Session-wide state: weather, track, rules and assists.
#[derive(Clone, Copy, Debug, PartialEq, Eq)]
pub struct PacketSessionData {
    pub weather: u8,
    pub track_temperature: i8,
    pub air_temperature: i8,
    pub total_laps: u8,
    pub track_length: u16,
    pub session_type: u8,
    pub track_id: i8,
    pub formula: u8,
    pub session_time_left: u16,
    pub session_duration: u16,
    pub pit_speed_limit: u8,
    pub game_paused: u8,
    pub is_spectating: u8,
    pub spectator_car_index: u8,
    pub sli_pro_native_support: u8,
    pub num_marshal_zones: u8,
    pub marshal_zones: [MarshalZone; 21],
    pub safety_car_status: u8,
    pub network_game: u8,
    pub num_weather_forecast_samples: u8,
    pub weather_forecast_samples: [WeatherForecastSample; 64],
    pub forecast_accuracy: u8,
    pub ai_difficulty: u8,
    pub season_link_identifier: u32,
    pub weekend_link_identifier: u32,
    pub session_link_identifier: u32,
    pub pit_stop_window_ideal_lap: u8,
    pub pit_stop_window_latest_lap: u8,
    pub pit_stop_rejoin_position: u8,
    pub steering_assist: u8,
    pub braking_assist: u8,
    pub gearbox_assist: u8,
    pub pit_assist: u8,
    pub pit_release_assist: u8,
    pub ers_assist: u8,
    pub drs_assist: u8,
    pub dynamic_racing_line: u8,
    pub dynamic_racing_line_type: u8,
    pub game_mode: u8,
    pub ruleset: u8,
    pub time_of_day: u32,
    pub session_length: u8,
    pub speed_units_lead_player: u8,
    pub temperature_units_lead_player: u8,
    pub speed_units_secondary_player: u8,
    pub temperature_units_secondary_player: u8,
    pub num_safety_car_periods: u8,
    pub num_virtual_safety_car_periods: u8,
    pub num_red_flag_periods: u8,
    pub equal_car_performance: u8,
    pub recovery_mode: u8,
    pub flashback_limit: u8,
    pub surface_type: u8,
    pub low_fuel_mode: u8,
    pub race_starts: u8,
    pub tyre_temperature: u8,
    pub pit_lane_tyre_sim: u8,
    pub car_damage: u8,
    pub car_damage_rate: u8,
    pub collisions: u8,
    pub collisions_off_for_first_lap_only: u8,
    pub mp_unsafe_pit_release: u8,
    pub mp_off_for_griefing: u8,
    pub corner_cutting_stringency: u8,
    pub parc_ferme_rules: u8,
    pub pit_stop_experience: u8,
    pub safety_car: u8,
    pub safety_car_experience: u8,
    pub formation_lap: u8,
    pub formation_lap_experience: u8,
    pub red_flags: u8,
    pub affects_licence_level_solo: u8,
    pub affects_licence_level_mp: u8,
    pub num_sessions_in_weekend: u8,
    pub weekend_structure: [u8; 12],
    pub sector2_lap_distance_start: RawF32,
    pub sector3_lap_distance_start: RawF32,
}

impl PacketSize for PacketSessionData {
    open spec fn wire_size() -> nat {
        724
    }

    fn size() -> (r: usize) {
        724
    }
}

impl PacketSessionData {
    /// Whether this value is what the bytes `s` encode.
    pub open spec fn decoded_from(self, s: Seq<u8>) -> bool {
        &&& self.weather == s[0]
        &&& self.track_temperature == byte_i8(s, 1)
        &&& self.air_temperature == byte_i8(s, 2)
        &&& self.total_laps == s[3]
        &&& self.track_length == le_u16(s, 4)
        &&& self.session_type == s[6]
        &&& self.track_id == byte_i8(s, 7)
        &&& self.formula == s[8]
        &&& self.session_time_left == le_u16(s, 9)
        &&& self.session_duration == le_u16(s, 11)
        &&& self.pit_speed_limit == s[13]
        &&& self.game_paused == s[14]
        &&& self.is_spectating == s[15]
        &&& self.spectator_car_index == s[16]
        &&& self.sli_pro_native_support == s[17]
        &&& self.num_marshal_zones == s[18]
        &&& forall|i: int|
            0 <= i < 21 ==> #[trigger] self.marshal_zones@[i] == MarshalZone::spec_at(s, 19 + 5 * i)
        &&& self.safety_car_status == s[124]
        &&& self.network_game == s[125]
        &&& self.num_weather_forecast_samples == s[126]
        &&& forall|i: int|
            0 <= i < 64 ==> #[trigger] self.weather_forecast_samples@[i] == WeatherForecastSample::spec_at(s, 127 + 8 * i)
        &&& self.forecast_accuracy == s[639]
        &&& self.ai_difficulty == s[640]
        &&& self.season_link_identifier == le_u32(s, 641)
        &&& self.weekend_link_identifier == le_u32(s, 645)
        &&& self.session_link_identifier == le_u32(s, 649)
        &&& self.pit_stop_window_ideal_lap == s[653]
        &&& self.pit_stop_window_latest_lap == s[654]
        &&& self.pit_stop_rejoin_position == s[655]
        &&& self.steering_assist == s[656]
        &&& self.braking_assist == s[657]
        &&& self.gearbox_assist == s[658]
        &&& self.pit_assist == s[659]
        &&& self.pit_release_assist == s[660]
        &&& self.ers_assist == s[661]
        &&& self.drs_assist == s[662]
        &&& self.dynamic_racing_line == s[663]
        &&& self.dynamic_racing_line_type == s[664]
        &&& self.game_mode == s[665]
        &&& self.ruleset == s[666]
        &&& self.time_of_day == le_u32(s, 667)
        &&& self.session_length == s[671]
        &&& self.speed_units_lead_player == s[672]
        &&& self.temperature_units_lead_player == s[673]
        &&& self.speed_units_secondary_player == s[674]
        &&& self.temperature_units_secondary_player == s[675]
        &&& self.num_safety_car_periods == s[676]
        &&& self.num_virtual_safety_car_periods == s[677]
        &&& self.num_red_flag_periods == s[678]
        &&& self.equal_car_performance == s[679]
        &&& self.recovery_mode == s[680]
        &&& self.flashback_limit == s[681]
        &&& self.surface_type == s[682]
        &&& self.low_fuel_mode == s[683]
        &&& self.race_starts == s[684]
        &&& self.tyre_temperature == s[685]
        &&& self.pit_lane_tyre_sim == s[686]
        &&& self.car_damage == s[687]
        &&& self.car_damage_rate == s[688]
        &&& self.collisions == s[689]
        &&& self.collisions_off_for_first_lap_only == s[690]
        &&& self.mp_unsafe_pit_release == s[691]
        &&& self.mp_off_for_griefing == s[692]
        &&& self.corner_cutting_stringency == s[693]
        &&& self.parc_ferme_rules == s[694]
        &&& self.pit_stop_experience == s[695]
        &&& self.safety_car == s[696]
        &&& self.safety_car_experience == s[697]
        &&& self.formation_lap == s[698]
        &&& self.formation_lap_experience == s[699]
        &&& self.red_flags == s[700]
        &&& self.affects_licence_level_solo == s[701]
        &&& self.affects_licence_level_mp == s[702]
        &&& self.num_sessions_in_weekend == s[703]
        &&& self.weekend_structure == [s[704], s[705], s[706], s[707], s[708], s[709], s[710], s[711], s[712], s[713], s[714], s[715]]
        &&& self.sector2_lap_distance_start == le_f32(s, 716)
        &&& self.sector3_lap_distance_start == le_f32(s, 720)
    }

    /// Decodes the session packet; input shorter than 724 bytes is refused.
    pub fn try_from(b: &[u8]) -> (r: Result<PacketSessionData, DecodeError>)
        ensures
            b@.len() < 724 ==> r == Err::<PacketSessionData, DecodeError>(DecodeError::ShortBuffer),
            b@.len() >= 724 ==> (r matches Ok(p) && p.decoded_from(b@)),
    {
        if b.len() < 724 {
            return Err(DecodeError::ShortBuffer);
        }
        let mut marshal_zones = [MarshalZone::read_at(b, 19); 21];
        let mut i: usize = 0;
        while i < 21
            invariant
                724 <= b.len(),
                i <= 21,
                forall|j: int|
                    0 <= j < i ==> #[trigger] marshal_zones@[j] == MarshalZone::spec_at(b@, 19 + 5 * j),
            decreases 21 - i,
        {
            marshal_zones[i] = MarshalZone::read_at(b, 19 + 5 * i);
            i = i + 1;
        }
        let mut weather_forecast_samples = [WeatherForecastSample::read_at(b, 127); 64];
        let mut i: usize = 0;
        while i < 64
            invariant
                724 <= b.len(),
                i <= 64,
                forall|j: int|
                    0 <= j < i ==> #[trigger] weather_forecast_samples@[j] == WeatherForecastSample::spec_at(b@, 127 + 8 * j),
            decreases 64 - i,
        {
            weather_forecast_samples[i] = WeatherForecastSample::read_at(b, 127 + 8 * i);
            i = i + 1;
        }
        Ok(
            PacketSessionData {
                weather: b[0],
                track_temperature: read_i8(b, 1),
                air_temperature: read_i8(b, 2),
                total_laps: b[3],
                track_length: read_u16(b, 4),
                session_type: b[6],
                track_id: read_i8(b, 7),
                formula: b[8],
                session_time_left: read_u16(b, 9),
                session_duration: read_u16(b, 11),
                pit_speed_limit: b[13],
                game_paused: b[14],
                is_spectating: b[15],
                spectator_car_index: b[16],
                sli_pro_native_support: b[17],
                num_marshal_zones: b[18],
                marshal_zones,
                safety_car_status: b[124],
                network_game: b[125],
                num_weather_forecast_samples: b[126],
                weather_forecast_samples,
                forecast_accuracy: b[639],
                ai_difficulty: b[640],
                season_link_identifier: read_u32(b, 641),
                weekend_link_identifier: read_u32(b, 645),
                session_link_identifier: read_u32(b, 649),
                pit_stop_window_ideal_lap: b[653],
                pit_stop_window_latest_lap: b[654],
                pit_stop_rejoin_position: b[655],
                steering_assist: b[656],
                braking_assist: b[657],
                gearbox_assist: b[658],
                pit_assist: b[659],
                pit_release_assist: b[660],
                ers_assist: b[661],
                drs_assist: b[662],
                dynamic_racing_line: b[663],
                dynamic_racing_line_type: b[664],
                game_mode: b[665],
                ruleset: b[666],
                time_of_day: read_u32(b, 667),
                session_length: b[671],
                speed_units_lead_player: b[672],
                temperature_units_lead_player: b[673],
                speed_units_secondary_player: b[674],
                temperature_units_secondary_player: b[675],
                num_safety_car_periods: b[676],
                num_virtual_safety_car_periods: b[677],
                num_red_flag_periods: b[678],
                equal_car_performance: b[679],
                recovery_mode: b[680],
                flashback_limit: b[681],
                surface_type: b[682],
                low_fuel_mode: b[683],
                race_starts: b[684],
                tyre_temperature: b[685],
                pit_lane_tyre_sim: b[686],
                car_damage: b[687],
                car_damage_rate: b[688],
                collisions: b[689],
                collisions_off_for_first_lap_only: b[690],
                mp_unsafe_pit_release: b[691],
                mp_off_for_griefing: b[692],
                corner_cutting_stringency: b[693],
                parc_ferme_rules: b[694],
                pit_stop_experience: b[695],
                safety_car: b[696],
                safety_car_experience: b[697],
                formation_lap: b[698],
                formation_lap_experience: b[699],
                red_flags: b[700],
                affects_licence_level_solo: b[701],
                affects_licence_level_mp: b[702],
                num_sessions_in_weekend: b[703],
                weekend_structure: [b[704], b[705], b[706], b[707], b[708], b[709], b[710], b[711], b[712], b[713], b[714], b[715]],
                sector2_lap_distance_start: read_f32(b, 716),
                sector3_lap_distance_start: read_f32(b, 720),
            },
        )
    }
}

impl MarshalZone {
    /// The 5 bytes that encode one marshal zone.
    pub open spec fn wire_bytes(self) -> Seq<u8> {
        u32_bytes(self.zone_start.bits)
            + seq![self.zone_flag as u8]
    }

    /// Decoding the bytes of one marshal zone, whatever follows them, gives back that
    /// value, field for field.
    pub proof fn lemma_round_trip(self, rest: Seq<u8>)
        ensures
            MarshalZone::spec_at(self.wire_bytes() + rest, 0) == self,
    {
        let s = self.wire_bytes() + rest;
        assert(self.wire_bytes().len() == 5);
        assert(s.subrange(0, 4) =~= u32_bytes(self.zone_start.bits));
        lemma_u32_round_trip(s, 0, self.zone_start.bits);
        assert(s[4] == self.zone_flag as u8);
        lemma_i8_round_trip(self.zone_flag);
    }
}

impl WeatherForecastSample {
    /// The 8 bytes that encode one forecast sample.
    pub open spec fn wire_bytes(self) -> Seq<u8> {
        seq![self.session_type]
            + seq![self.time_offset]
            + seq![self.weather]
            + seq![self.track_temperature as u8]
            + seq![self.track_temperature_change as u8]
            + seq![self.air_temperature as u8]
            + seq![self.air_temperature_change as u8]
            + seq![self.rain_percentage]
    }

    /// Decoding the bytes of one forecast sample, whatever follows them, gives back that
    /// value, field for field.
    pub proof fn lemma_round_trip(self, rest: Seq<u8>)
        ensures
            WeatherForecastSample::spec_at(self.wire_bytes() + rest, 0) == self,
    {
        let s = self.wire_bytes() + rest;
        assert(self.wire_bytes().len() == 8);
        assert(s[0] == self.session_type);
        assert(s[1] == self.time_offset);
        assert(s[2] == self.weather);
        assert(s[3] == self.track_temperature as u8);
        lemma_i8_round_trip(self.track_temperature);
        assert(s[4] == self.track_temperature_change as u8);
        lemma_i8_round_trip(self.track_temperature_change);
        assert(s[5] == self.air_temperature as u8);
        lemma_i8_round_trip(self.air_temperature);
        assert(s[6] == self.air_temperature_change as u8);
        lemma_i8_round_trip(self.air_temperature_change);
        assert(s[7] == self.rain_percentage);
    }
}

} // verus!
