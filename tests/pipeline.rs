use f1_telemetry::api::{EventLog, F1TelemetryApi};
use f1_telemetry::dispatch::{Decoded, TelemetryPacket};
use f1_telemetry::error::DecodeError;
use f1_telemetry::events::{Event, EventType};
use f1_telemetry::hub::BroadcastHub;
use f1_telemetry::ingest::{ingest, route};
use f1_telemetry::packets::header::PacketType;
use f1_telemetry::persistence::{PersistenceBuffer, TelemetryRow};
use f1_telemetry::wire::RawF32;

fn datagram(kind: u8, payload_len: usize) -> Vec<u8> {
    let mut b = Vec::new();
    b.extend_from_slice(&2024u16.to_le_bytes());
    b.extend_from_slice(&[24, 1, 0, 1, kind]);
    b.extend_from_slice(&42u64.to_le_bytes());
    b.extend_from_slice(&3.5f32.to_le_bytes());
    b.extend_from_slice(&1u32.to_le_bytes());
    b.extend_from_slice(&2u32.to_le_bytes());
    b.push(0);
    b.push(255);
    b.resize(29 + payload_len, 0);
    b
}

fn telemetry_datagram(speed: u16, throttle: f32) -> Vec<u8> {
    let mut b = datagram(6, 60);
    b[29..31].copy_from_slice(&speed.to_le_bytes());
    b[31..35].copy_from_slice(&throttle.to_le_bytes());
    b
}

#[test]
fn lobby_info_datagram_is_skipped() {
    let b = datagram(9, 1306);
    assert_eq!(TelemetryPacket::try_from(&b), Ok(Decoded::Skipped(PacketType::LobbyInfo)));
    let r = ingest(&b).unwrap();
    assert_eq!(r.event, None);
    assert_eq!(r.row, None);
    // The payload of a skipped kind is not looked at, even when short.
    assert_eq!(TelemetryPacket::try_from(&datagram(9, 0)), Ok(Decoded::Skipped(PacketType::LobbyInfo)));
}

#[test]
fn consumed_kind_with_short_payload_fails() {
    assert_eq!(TelemetryPacket::try_from(&datagram(6, 59)), Err(DecodeError::ShortBuffer));
    assert_eq!(TelemetryPacket::try_from(&datagram(0, 1319)), Err(DecodeError::ShortBuffer));
    assert_eq!(TelemetryPacket::try_from(&datagram(20, 60)), Err(DecodeError::UnknownPacketType(20)));
    assert_eq!(ingest(&datagram(2, 10)), Err(DecodeError::ShortBuffer));
}

#[test]
fn telemetry_datagram_is_published_and_persisted() {
    let b = telemetry_datagram(250, 0.5);
    let r = ingest(&b).unwrap();
    match r.event {
        Some(Event::CarTelemetry(e)) => {
            assert_eq!(e.event_type, EventType::CarTelemetryEvent);
            assert_eq!(e.speed, 250);
            assert_eq!(f32::from_bits(e.throttle.bits), 0.5);
        }
        other => panic!("unexpected {:?}", other),
    }
    let row = r.row.unwrap();
    assert_eq!(row.session_uid, 42);
    assert_eq!(f32::from_bits(row.session_time.bits), 3.5);
    assert_eq!(row.speed, 250);
}

#[test]
fn motion_event_is_tagged_as_motion() {
    let mut b = datagram(0, 1320);
    b[29..33].copy_from_slice(&10.0f32.to_le_bytes());
    b[29 + 36..29 + 40].copy_from_slice(&1.5f32.to_le_bytes());
    let p = match TelemetryPacket::try_from(&b).unwrap() {
        Decoded::Packet(p) => p,
        other => panic!("unexpected {:?}", other),
    };
    match Event::try_from(p).unwrap() {
        Event::CarMotion(m) => {
            assert_eq!(m.event_type, EventType::CarMotionEvent);
            assert_eq!(f32::from_bits(m.world_position_x.bits), 10.0);
            assert_eq!(f32::from_bits(m.g_force_lateral.bits), 1.5);
        }
        other => panic!("unexpected {:?}", other),
    }
    assert_eq!(route(&p).row, None);
}

#[test]
fn session_packet_has_no_event() {
    let b = datagram(1, 724);
    let p = match TelemetryPacket::try_from(&b).unwrap() {
        Decoded::Packet(p) => p,
        other => panic!("unexpected {:?}", other),
    };
    assert_eq!(Event::try_from(p), Err(PacketType::Session));
    let r = route(&p);
    assert_eq!((r.event, r.row), (None, None));
}

fn hb(n: u8) -> u8 {
    n
}

#[test]
fn hub_delivers_in_order_to_each_subscriber() {
    let mut hub: BroadcastHub<u8> = BroadcastHub::new(8);
    let mut s1 = hub.subscribe();
    let mut s2 = hub.subscribe();
    hub.publish(hb(b'A'));
    hub.publish(hb(b'B'));
    let mut late = hub.subscribe();
    hub.publish(hb(b'C'));
    let mut got1 = Vec::new();
    while let Some(e) = hub.recv(&mut s1) {
        got1.push(e);
    }
    let mut got2 = Vec::new();
    while let Some(e) = hub.recv(&mut s2) {
        got2.push(e);
    }
    assert_eq!(got1, vec![b'A', b'B', b'C']);
    assert_eq!(got2, vec![b'A', b'B', b'C']);
    assert_eq!(hub.recv(&mut late), Some(b'C'));
    assert_eq!(hub.recv(&mut late), None);
    assert_eq!(hub.published_count(), 3);
}

#[test]
fn hub_lagging_subscriber_skips_forward() {
    let mut hub: BroadcastHub<u32> = BroadcastHub::new(3);
    let mut s = hub.subscribe();
    for i in 0..10u32 {
        hub.publish(i);
    }
    assert_eq!(hub.recv(&mut s), Some(7));
    assert_eq!(hub.recv(&mut s), Some(8));
    hub.publish(10);
    assert_eq!(hub.recv(&mut s), Some(9));
    assert_eq!(hub.recv(&mut s), Some(10));
    assert_eq!(hub.recv(&mut s), None);
    assert_eq!(hub.capacity(), 3);
}

#[test]
fn hub_carries_events() {
    let mut hub: BroadcastHub<Event> = BroadcastHub::new(F1TelemetryApi::new().hub_capacity());
    let mut s = hub.subscribe();
    hub.publish(Event::heartbeat());
    let e = hub.recv(&mut s).unwrap();
    assert_eq!(e.event_type(), EventType::Heartbeat);
}

fn row(speed: u16) -> TelemetryRow {
    TelemetryRow {
        session_uid: 7,
        session_time: RawF32 { bits: 1.0f32.to_bits() },
        throttle: RawF32 { bits: 0.5f32.to_bits() },
        speed,
    }
}

#[test]
fn flush_takes_exactly_the_rows_before_it() {
    let mut buf = PersistenceBuffer::new();
    assert_eq!(buf.take_batch(), None);
    buf.append(row(1));
    buf.append(row(2));
    let batch = buf.take_batch().unwrap();
    assert_eq!(batch, vec![row(1), row(2)]);
    buf.append(row(3));
    assert_eq!(batch.len(), 2);
    assert_eq!(buf.len(), 1);
    assert_eq!(buf.take_batch(), Some(vec![row(3)]));
    assert_eq!(buf.take_batch(), None);
}

#[test]
fn event_log_lap_data_snapshot() {
    let mut b = datagram(2, 1256);
    b[29 + 33] = 12;
    let lap = match ingest(&b).unwrap().event {
        Some(e) => e,
        None => panic!("no event"),
    };
    let mut log = EventLog::new();
    log.record(Event::heartbeat());
    log.record(lap);
    log.record(ingest(&telemetry_datagram(1, 0.0)).unwrap().event.unwrap());
    log.record(lap);
    let laps = log.lap_data();
    assert_eq!(log.len(), 4);
    assert_eq!(laps.len(), 2);
    assert_eq!(laps[0].current_lap_num, 12);
    assert_eq!(laps[1].event_type, EventType::LapDataEvent);
}
