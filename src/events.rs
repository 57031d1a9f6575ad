//! The events that leave the library: a narrower, renamed projection of the
//! decoded packets, each tagged with its kind.

use vstd::prelude::*;
use crate::dispatch::TelemetryPacket;
use crate::packets::car_motion_data::CarMotionData;
use crate::packets::car_telemetry::PacketCarTelemetry;
use crate::packets::header::PacketType;
use crate::packets::lap_data::LapData;
use crate::wire::RawF32;

verus! {

/// The tag that every outgoing event carries.
#[derive(Clone, Copy, PartialEq, Eq, Debug, Structural)]
pub enum EventType {
    CarTelemetryEvent,
    CarMotionEvent,
    LapDataEvent,
    Heartbeat,
}

/// A keep-alive event with no data.
#[derive(Clone, Copy, PartialEq, Eq, Debug, Structural)]
pub struct HeartbeatEvent {
    pub event_type: EventType,
}

/// Throttle, brake, speed and temperatures of the player car.
#[derive(Clone, Copy, PartialEq, Eq, Debug)]
pub struct CarTelemetryEvent {
    /// Always the tag of this event's kind.
    pub event_type: EventType,
    pub throttle: RawF32,
    pub brake: RawF32,
    pub speed: u16,
    pub brake_temp: [u16; 4],
    pub tyre_surface_temp: [u8; 4],
    pub tyre_inner_temp: [u8; 4],
    pub engine_temperature: u16,
    pub tyre_pressure: [RawF32; 4],
}

/// World position and G-forces of the first car.
#[derive(Clone, Copy, PartialEq, Eq, Debug, Structural)]
pub struct CarMotionEvent {
    /// Always the tag of this event's kind.
    pub event_type: EventType,
    pub world_position_x: RawF32,
    pub world_position_y: RawF32,
    pub world_position_z: RawF32,
    pub g_force_lateral: RawF32,
    pub g_force_longitudinal: RawF32,
    pub g_force_vertical: RawF32,
}

/// Lap and sector timing and position of the first car.
#[derive(Clone, Copy, PartialEq, Eq, Debug, Structural)]
pub struct LapDataEvent {
    /// Always the tag of this event's kind.
    pub event_type: EventType,
    pub last_lap_time_in_ms: u32,
    pub current_lap_time_in_ms: u32,
    pub sector1_time_ms_part: u16,
    pub sector1_time_minutes_part: u8,
    pub sector2_time_ms_part: u16,
    pub sector2_time_minutes_part: u8,
    pub delta_to_car_in_front_ms_part: u16,
    pub delta_to_car_in_front_minutes_part: u8,
    pub delta_to_race_leader_ms_part: u16,
    pub delta_to_race_leader_minutes_part: u8,
    pub lap_distance: RawF32,
    pub total_distance: RawF32,
    pub car_position: u8,
    pub current_lap_num: u8,
    pub sector: u8,
    pub current_lap_invalid: u8,
    pub grid_position: u8,
    pub driver_status: u8,
    pub result_status: u8,
}

/// An outgoing event: a tagged union, never an untagged record.
#[derive(Clone, Copy, PartialEq, Eq, Debug)]
pub enum Event {
    CarTelemetry(CarTelemetryEvent),
    CarMotion(CarMotionEvent),
    LapData(LapDataEvent),
    Heartbeat(HeartbeatEvent),
}

/// The event that a telemetry sample projects to.
pub open spec fn telemetry_event_of(d: PacketCarTelemetry) -> CarTelemetryEvent {
    CarTelemetryEvent {
        event_type: EventType::CarTelemetryEvent,
        throttle: d.throttle,
        brake: d.brake,
        speed: d.speed,
        brake_temp: d.brake_temp,
        tyre_surface_temp: d.tyre_surface_temp,
        tyre_inner_temp: d.tyre_inner_temp,
        engine_temperature: d.engine_temperature,
        tyre_pressure: d.tyre_pressure,
    }
}

/// The event that one car's motion projects to.
pub open spec fn motion_event_of(m: CarMotionData) -> CarMotionEvent {
    CarMotionEvent {
        event_type: EventType::CarMotionEvent,
        world_position_x: m.world_position_x,
        world_position_y: m.world_position_y,
        world_position_z: m.world_position_z,
        g_force_lateral: m.g_force_lateral,
        g_force_longitudinal: m.g_force_longitudinal,
        g_force_vertical: m.g_force_vertical,
    }
}

/// The event that one car's lap timing projects to.
pub open spec fn lap_event_of(d: LapData) -> LapDataEvent {
    LapDataEvent {
        event_type: EventType::LapDataEvent,
        last_lap_time_in_ms: d.last_lap_time_in_ms,
        current_lap_time_in_ms: d.current_lap_time_in_ms,
        sector1_time_ms_part: d.sector1_time_ms_part,
        sector1_time_minutes_part: d.sector1_time_minutes_part,
        sector2_time_ms_part: d.sector2_time_ms_part,
        sector2_time_minutes_part: d.sector2_time_minutes_part,
        delta_to_car_in_front_ms_part: d.delta_to_car_in_front_ms_part,
        delta_to_car_in_front_minutes_part: d.delta_to_car_in_front_minutes_part,
        delta_to_race_leader_ms_part: d.delta_to_race_leader_ms_part,
        delta_to_race_leader_minutes_part: d.delta_to_race_leader_minutes_part,
        lap_distance: d.lap_distance,
        total_distance: d.total_distance,
        car_position: d.car_position,
        current_lap_num: d.current_lap_num,
        sector: d.sector,
        current_lap_invalid: d.current_lap_invalid,
        grid_position: d.grid_position,
        driver_status: d.driver_status,
        result_status: d.result_status,
    }
}

/// The event that a packet projects to, if its kind has one: the telemetry
/// sample, or the first car's motion or lap timing.
pub open spec fn event_of(p: TelemetryPacket) -> Option<Event> {
    match p {
        TelemetryPacket::CarTelemetry((_, d)) => Some(Event::CarTelemetry(telemetry_event_of(d))),
        TelemetryPacket::Motion((_, m)) => Some(Event::CarMotion(motion_event_of(m.car_motion_data[0]))),
        TelemetryPacket::LapData((_, d)) => Some(Event::LapData(lap_event_of(d.lap_data[0]))),
        TelemetryPacket::Session(_) => None,
    }
}

/// The packet kind of a decoded packet.
pub open spec fn kind_of(p: TelemetryPacket) -> PacketType {
    match p {
        TelemetryPacket::CarTelemetry(_) => PacketType::CarTelemetry,
        TelemetryPacket::Motion(_) => PacketType::Motion,
        TelemetryPacket::LapData(_) => PacketType::LapData,
        TelemetryPacket::Session(_) => PacketType::Session,
    }
}

impl Event {
    /// Whether the event's tag names the kind of its payload.
    pub open spec fn well_tagged(self) -> bool {
        match self {
            Event::CarTelemetry(e) => e.event_type == EventType::CarTelemetryEvent,
            Event::CarMotion(e) => e.event_type == EventType::CarMotionEvent,
            Event::LapData(e) => e.event_type == EventType::LapDataEvent,
            Event::Heartbeat(e) => e.event_type == EventType::Heartbeat,
        }
    }

    /// The tag of this event.
    pub fn event_type(&self) -> (r: EventType)
        ensures
            r == match *self {
                Event::CarTelemetry(e) => e.event_type,
                Event::CarMotion(e) => e.event_type,
                Event::LapData(e) => e.event_type,
                Event::Heartbeat(e) => e.event_type,
            },
    {
        match self {
            Event::CarTelemetry(e) => e.event_type,
            Event::CarMotion(e) => e.event_type,
            Event::LapData(e) => e.event_type,
            Event::Heartbeat(e) => e.event_type,
        }
    }

    /// A keep-alive event.
    pub fn heartbeat() -> (r: Event)
        ensures
            r == Event::Heartbeat(HeartbeatEvent { event_type: EventType::Heartbeat }),
            r.well_tagged(),
    {
        Event::Heartbeat(HeartbeatEvent { event_type: EventType::Heartbeat })
    }

    /// Projects a packet to its outgoing event; a packet kind without one is
    /// returned as the error.
    pub fn try_from(value: TelemetryPacket) -> (r: Result<Event, PacketType>)
        ensures
            r == (match event_of(value) {
                Some(e) => Ok(e),
                None => Err(kind_of(value)),
            }),
            r matches Ok(e) ==> e.well_tagged(),
    {
        match value {
            TelemetryPacket::CarTelemetry((_, data)) => Ok(
                Event::CarTelemetry(
                    CarTelemetryEvent {
                        event_type: EventType::CarTelemetryEvent,
                        throttle: data.throttle,
                        brake: data.brake,
                        speed: data.speed,
                        brake_temp: data.brake_temp,
                        tyre_surface_temp: data.tyre_surface_temp,
                        tyre_inner_temp: data.tyre_inner_temp,
                        engine_temperature: data.engine_temperature,
                        tyre_pressure: data.tyre_pressure,
                    }
                ),
            ),
            TelemetryPacket::Motion((_, data)) => {
                let m = data.car_motion_data[0];
                Ok(
                    Event::CarMotion(
                        CarMotionEvent {
                            event_type: EventType::CarMotionEvent,
                            world_position_x: m.world_position_x,
                            world_position_y: m.world_position_y,
                            world_position_z: m.world_position_z,
                            g_force_lateral: m.g_force_lateral,
                            g_force_longitudinal: m.g_force_longitudinal,
                            g_force_vertical: m.g_force_vertical,
                        }
                    ),
                )
            },
            TelemetryPacket::LapData((_, data)) => {
                let d = data.lap_data[0];
                Ok(
                    Event::LapData(
                        LapDataEvent {
                            event_type: EventType::LapDataEvent,
                            last_lap_time_in_ms: d.last_lap_time_in_ms,
                            current_lap_time_in_ms: d.current_lap_time_in_ms,
                            sector1_time_ms_part: d.sector1_time_ms_part,
                            sector1_time_minutes_part: d.sector1_time_minutes_part,
                            sector2_time_ms_part: d.sector2_time_ms_part,
                            sector2_time_minutes_part: d.sector2_time_minutes_part,
                            delta_to_car_in_front_ms_part: d.delta_to_car_in_front_ms_part,
                            delta_to_car_in_front_minutes_part: d.delta_to_car_in_front_minutes_part,
                            delta_to_race_leader_ms_part: d.delta_to_race_leader_ms_part,
                            delta_to_race_leader_minutes_part: d.delta_to_race_leader_minutes_part,
                            lap_distance: d.lap_distance,
                            total_distance: d.total_distance,
                            car_position: d.car_position,
                            current_lap_num: d.current_lap_num,
                            sector: d.sector,
                            current_lap_invalid: d.current_lap_invalid,
                            grid_position: d.grid_position,
                            driver_status: d.driver_status,
                            result_status: d.result_status,
                        }
                    ),
                )
            },
            TelemetryPacket::Session(_) => Err(PacketType::Session),
        }
    }
}

} // verus!
