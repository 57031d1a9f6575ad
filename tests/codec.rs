use f1_telemetry::error::DecodeError;
use f1_telemetry::packets::car_damage::PacketCarDamageData;
use f1_telemetry::packets::car_motion_data::{CarMotionData, PacketMotionData};
use f1_telemetry::packets::car_setups::PacketCarSetupData;
use f1_telemetry::packets::car_status::PacketCarStatusData;
use f1_telemetry::packets::car_telemetry::PacketCarTelemetry;
use f1_telemetry::packets::event::{EventDataDetails, PacketEventData};
use f1_telemetry::packets::final_classification::{PacketFinalClassificationData, ResultStatus};
use f1_telemetry::packets::header::{PacketHeader, PacketType};
use f1_telemetry::packets::lap_data::{LapData, PacketLapData};
use f1_telemetry::packets::lobby_info::PacketLobbyInfoData;
use f1_telemetry::packets::motion_ex::PacketMotionExData;
use f1_telemetry::packets::participants::PacketParticipantsData;
use f1_telemetry::packets::session_data::{MarshalZone, PacketSessionData, WeatherForecastSample};
use f1_telemetry::packets::time_trial::PacketTimeTrialData;
use f1_telemetry::packets::tyre_sets::PacketSessionHistoryData;
use f1_telemetry::packets::PacketSize;

fn header_bytes(kind: u8, secondary: u8) -> Vec<u8> {
    let mut b = Vec::new();
    b.extend_from_slice(&2024u16.to_le_bytes());
    b.extend_from_slice(&[24, 1, 2, 3, kind]);
    b.extend_from_slice(&0x0102_0304_0506_0708u64.to_le_bytes());
    b.extend_from_slice(&12.5f32.to_le_bytes());
    b.extend_from_slice(&77u32.to_le_bytes());
    b.extend_from_slice(&88u32.to_le_bytes());
    b.push(5);
    b.push(secondary);
    b
}

#[test]
fn header_decodes_every_field() {
    let h = PacketHeader::try_from(&header_bytes(6, 3)).unwrap();
    assert_eq!(h.packet_format, 2024);
    assert_eq!(h.game_year, 24);
    assert_eq!(h.game_major_version, 1);
    assert_eq!(h.game_minor_version, 2);
    assert_eq!(h.packet_version, 3);
    assert_eq!(h.packet_id, PacketType::CarTelemetry);
    assert_eq!(h.session_uid, 0x0102_0304_0506_0708);
    assert_eq!(f32::from_bits(h.session_time.bits), 12.5);
    assert_eq!(h.frame_identifier, 77);
    assert_eq!(h.overall_frame_identifier, 88);
    assert_eq!(h.player_car_index, 5);
    assert_eq!(h.secondary_player_car_index, Some(3));
}

#[test]
fn header_secondary_sentinel_is_absent() {
    let h = PacketHeader::try_from(&header_bytes(0, 255)).unwrap();
    assert_eq!(h.secondary_player_car_index, None);
}

#[test]
fn header_short_buffer() {
    let b = header_bytes(0, 0);
    assert_eq!(PacketHeader::try_from(&b[..28]), Err(DecodeError::ShortBuffer));
    assert_eq!(PacketHeader::try_from(&[]), Err(DecodeError::ShortBuffer));
    assert_eq!(PacketHeader::size(), 29);
}

#[test]
fn header_unknown_packet_type() {
    assert_eq!(PacketHeader::try_from(&header_bytes(15, 0)), Err(DecodeError::UnknownPacketType(15)));
    assert_eq!(PacketHeader::try_from(&header_bytes(255, 0)), Err(DecodeError::UnknownPacketType(255)));
}

#[test]
fn packet_type_mapping() {
    let kinds = [
        PacketType::Motion,
        PacketType::Session,
        PacketType::LapData,
        PacketType::Event,
        PacketType::Participants,
        PacketType::CarSetups,
        PacketType::CarTelemetry,
        PacketType::CarStatus,
        PacketType::FinalClassification,
        PacketType::LobbyInfo,
        PacketType::CarDamage,
        PacketType::SessionHistory,
        PacketType::TyreSets,
        PacketType::MotionEx,
        PacketType::TimeTrial,
    ];
    for (i, k) in kinds.iter().enumerate() {
        assert_eq!(PacketType::try_from(i as u8), Ok(*k));
    }
    for v in 15..=255u8 {
        assert_eq!(PacketType::try_from(v), Err(DecodeError::UnknownPacketType(v)));
    }
}

#[test]
fn every_payload_refuses_short_input() {
    let sizes: [(usize, fn(&[u8]) -> bool); 14] = [
        (1320, |b| PacketMotionData::try_from(b) == Err(DecodeError::ShortBuffer)),
        (724, |b| PacketSessionData::try_from(b) == Err(DecodeError::ShortBuffer)),
        (1256, |b| PacketLapData::try_from(b) == Err(DecodeError::ShortBuffer)),
        (45, |b| PacketEventData::try_from(b) == Err(DecodeError::ShortBuffer)),
        (1350, |b| PacketParticipantsData::try_from(b) == Err(DecodeError::ShortBuffer)),
        (1133, |b| PacketCarSetupData::try_from(b) == Err(DecodeError::ShortBuffer)),
        (60, |b| PacketCarTelemetry::try_from(b) == Err(DecodeError::ShortBuffer)),
        (1239, |b| PacketCarStatusData::try_from(b) == Err(DecodeError::ShortBuffer)),
        (1020, |b| PacketFinalClassificationData::try_from(b) == Err(DecodeError::ShortBuffer)),
        (1306, |b| PacketLobbyInfoData::try_from(b) == Err(DecodeError::ShortBuffer)),
        (953, |b| PacketCarDamageData::try_from(b) == Err(DecodeError::ShortBuffer)),
        (1460, |b| PacketSessionHistoryData::try_from(b) == Err(DecodeError::ShortBuffer)),
        (237, |b| PacketMotionExData::try_from(b) == Err(DecodeError::ShortBuffer)),
        (101, |b| PacketTimeTrialData::try_from(b) == Err(DecodeError::ShortBuffer)),
    ];
    for (size, refuses) in sizes.iter() {
        let full = vec![0u8; *size];
        for len in [0, 1, size / 2, size - 1] {
            assert!(refuses(&full[..len]), "size {} len {}", size, len);
        }
        assert!(!refuses(&full), "size {}", size);
    }
}

#[test]
fn packet_sizes() {
    assert_eq!(PacketMotionData::size(), 1320);
    assert_eq!(PacketSessionData::size(), 724);
    assert_eq!(PacketLapData::size(), 1256);
    assert_eq!(PacketEventData::size(), 45);
    assert_eq!(PacketParticipantsData::size(), 1350);
    assert_eq!(PacketCarSetupData::size(), 1133);
    assert_eq!(PacketCarTelemetry::size(), 60);
    assert_eq!(PacketCarStatusData::size(), 1239);
    assert_eq!(PacketFinalClassificationData::size(), 1020);
    assert_eq!(PacketLobbyInfoData::size(), 1306);
    assert_eq!(PacketCarDamageData::size(), 953);
    assert_eq!(PacketSessionHistoryData::size(), 1460);
    assert_eq!(PacketMotionExData::size(), 237);
    assert_eq!(PacketTimeTrialData::size(), 101);
}

fn telemetry_bytes() -> Vec<u8> {
    let mut b = Vec::new();
    b.extend_from_slice(&312u16.to_le_bytes());
    b.extend_from_slice(&0.75f32.to_le_bytes());
    b.extend_from_slice(&(-0.5f32).to_le_bytes());
    b.extend_from_slice(&0.25f32.to_le_bytes());
    b.push(40);
    b.push(0xFF);
    b.extend_from_slice(&11000u16.to_le_bytes());
    b.push(1);
    b.push(90);
    b.extend_from_slice(&0x0F0Fu16.to_le_bytes());
    for t in [500u16, 510, 520, 530] {
        b.extend_from_slice(&t.to_le_bytes());
    }
    b.extend_from_slice(&[90, 91, 92, 93]);
    b.extend_from_slice(&[100, 101, 102, 103]);
    b.extend_from_slice(&105u16.to_le_bytes());
    for p in [22.5f32, 22.75, 23.0, 23.25] {
        b.extend_from_slice(&p.to_le_bytes());
    }
    b.extend_from_slice(&[0, 1, 2, 3]);
    assert_eq!(b.len(), 60);
    b
}

#[test]
fn car_telemetry_decodes_every_field() {
    let t = PacketCarTelemetry::try_from(&telemetry_bytes()).unwrap();
    assert_eq!(t.speed, 312);
    assert_eq!(f32::from_bits(t.throttle.bits), 0.75);
    assert_eq!(f32::from_bits(t.steer.bits), -0.5);
    assert_eq!(f32::from_bits(t.brake.bits), 0.25);
    assert_eq!(t.clutch, 40);
    assert_eq!(t.gear, -1);
    assert_eq!(t.engine_rpm, 11000);
    assert_eq!(t.drs, 1);
    assert_eq!(t.rev_lights_percent, 90);
    assert_eq!(t.rev_lights_bit_value, 0x0F0F);
    assert_eq!(t.brake_temp, [500, 510, 520, 530]);
    assert_eq!(t.tyre_surface_temp, [90, 91, 92, 93]);
    assert_eq!(t.tyre_inner_temp, [100, 101, 102, 103]);
    assert_eq!(t.engine_temperature, 105);
    let p: Vec<f32> = t.tyre_pressure.iter().map(|x| f32::from_bits(x.bits)).collect();
    assert_eq!(p, vec![22.5, 22.75, 23.0, 23.25]);
    assert_eq!(t.surface_type, [0, 1, 2, 3]);
}

#[test]
fn car_motion_reads_each_car_at_its_stride() {
    let mut b = vec![0u8; 1320];
    for car in 0..22usize {
        let base = car * 60;
        b[base..base + 4].copy_from_slice(&(car as f32).to_le_bytes());
        b[base + 24..base + 26].copy_from_slice(&(-(car as i16)).to_le_bytes());
        b[base + 56..base + 60].copy_from_slice(&(car as f32 * 2.0).to_le_bytes());
    }
    let m = PacketMotionData::try_from(&b).unwrap();
    for car in 0..22usize {
        let c = m.car_motion_data[car];
        assert_eq!(f32::from_bits(c.world_position_x.bits), car as f32);
        assert_eq!(c.world_forward_dir_x, -(car as i16));
        assert_eq!(f32::from_bits(c.roll.bits), car as f32 * 2.0);
    }
    let one = CarMotionData::try_from(&b[60..120]).unwrap();
    assert_eq!(f32::from_bits(one.world_position_x.bits), 1.0);
    assert_eq!(CarMotionData::try_from(&b[..59]), Err(DecodeError::ShortBuffer));
}

#[test]
fn lap_data_keeps_sentinels() {
    let mut b = vec![0u8; 1256];
    for car in 0..22usize {
        let base = car * 57;
        b[base..base + 4].copy_from_slice(&(90_000u32 + car as u32).to_le_bytes());
        b[base + 33] = car as u8 + 1;
        b[base + 56] = 255;
    }
    b[1254] = 255;
    b[1255] = 4;
    let l = PacketLapData::try_from(&b).unwrap();
    assert_eq!(l.lap_data[21].last_lap_time_in_ms, 90_021);
    assert_eq!(l.lap_data[3].current_lap_num, 4);
    assert_eq!(l.lap_data[0].speed_trap_fastest_lap, 255);
    assert_eq!(l.time_trial_pb_car_idx, 255);
    assert_eq!(l.time_trial_rival_car_idx, 4);
    assert_eq!(LapData::try_from(&b[..56]), Err(DecodeError::ShortBuffer));
}

fn name_window(name: &[u8], width: usize) -> Vec<u8> {
    let mut w = name.to_vec();
    w.resize(width, 0);
    w
}

fn participants_bytes(names: &[&[u8]]) -> Vec<u8> {
    let mut b = vec![0u8; 1350];
    b[0] = 20;
    for car in 0..22usize {
        let base = 1 + car * 60;
        b[base + 1] = car as u8;
        let n: &[u8] = names.get(car).copied().unwrap_or(b"");
        b[base + 7..base + 55].copy_from_slice(&name_window(n, 48));
        b[base + 57..base + 59].copy_from_slice(&1234u16.to_le_bytes());
        b[base + 59] = 255;
    }
    b
}

#[test]
fn participant_name_stops_at_first_nul() {
    let b = participants_bytes(&[b"Max", "Jos\u{e9}".as_bytes()]);
    let p = PacketParticipantsData::try_from(&b).unwrap();
    assert_eq!(p.num_active_cars, 20);
    assert_eq!(p.participants.len(), 22);
    assert_eq!(p.participants[0].name, "Max");
    assert_eq!(p.participants[1].name, "Jos\u{e9}");
    assert_eq!(p.participants[2].name, "");
    assert_eq!(p.participants[5].driver_id, 5);
    assert_eq!(p.participants[21].tech_level, 1234);
    assert_eq!(p.participants[21].platform, 255);
}

#[test]
fn participant_name_filling_the_window() {
    let long = [b'A'; 48];
    let b = participants_bytes(&[&long]);
    let p = PacketParticipantsData::try_from(&b).unwrap();
    assert_eq!(p.participants[0].name, "A".repeat(48));
}

#[test]
fn participant_invalid_utf8_is_refused() {
    let b = participants_bytes(&[b"ok", &[0xC3, 0x28]]);
    assert_eq!(PacketParticipantsData::try_from(&b), Err(DecodeError::InvalidText));
}

#[test]
fn lobby_name_stops_at_first_nul() {
    let mut b = vec![0u8; 1306];
    b[0] = 2;
    for car in 0..22usize {
        let base = 1 + car * 58;
        b[base + 1] = 255;
        b[base + 52] = car as u8;
    }
    b[1 + 4..1 + 52].copy_from_slice(&name_window(b"Max", 48));
    let l = PacketLobbyInfoData::try_from(&b).unwrap();
    assert_eq!(l.num_players, 2);
    assert_eq!(l.lobby_players[0].name, "Max");
    assert_eq!(l.lobby_players[0].team_id, 255);
    assert_eq!(l.lobby_players[7].car_number, 7);
    b[58 + 1 + 4] = 0xFF;
    assert_eq!(PacketLobbyInfoData::try_from(&b), Err(DecodeError::InvalidText));
}

#[test]
fn final_classification_status() {
    let mut b = vec![0u8; 1020];
    b[0] = 22;
    for car in 0..22usize {
        let base = 1 + car * 45;
        b[base] = car as u8 + 1;
        b[base + 5] = 3;
        b[base + 6..base + 10].copy_from_slice(&81_234u32.to_le_bytes());
        b[base + 10..base + 18].copy_from_slice(&5400.5f64.to_le_bytes());
        b[base + 37..base + 45].copy_from_slice(&[10, 20, 30, 255, 0, 0, 0, 0]);
    }
    let f = PacketFinalClassificationData::try_from(&b).unwrap();
    assert_eq!(f.num_cars, 22);
    assert_eq!(f.classification_data[4].position, 5);
    assert_eq!(f.classification_data[4].result_status, ResultStatus::Finished);
    assert_eq!(f.classification_data[21].best_lap_time_in_ms, 81_234);
    assert_eq!(f64::from_bits(f.classification_data[0].total_race_time.bits), 5400.5);
    assert_eq!(f.classification_data[0].tyre_stints_end_laps, [10, 20, 30, 255, 0, 0, 0, 0]);
    b[1 + 3 * 45 + 5] = 9;
    b[1 + 7 * 45 + 5] = 8;
    assert_eq!(PacketFinalClassificationData::try_from(&b), Err(DecodeError::InvalidResultStatus(9)));
    assert_eq!(ResultStatus::try_from(7), Ok(ResultStatus::Retired));
    assert_eq!(ResultStatus::try_from(8), Err(DecodeError::InvalidResultStatus(8)));
    assert_eq!(ResultStatus::default(), ResultStatus::Invalid);
}

#[test]
fn event_codes() {
    let mut b = vec![0u8; 45];
    b[..4].copy_from_slice(b"FTLP");
    b[4] = 7;
    b[5..9].copy_from_slice(&88.5f32.to_le_bytes());
    let e = PacketEventData::try_from(&b).unwrap();
    assert_eq!(e.event_string_code, *b"FTLP");
    match e.event_details {
        EventDataDetails::FastestLap(f) => {
            assert_eq!(f.vehicle_idx, 7);
            assert_eq!(f32::from_bits(f.lap_time.bits), 88.5);
        }
        other => panic!("unexpected {:?}", other),
    }
    b[..4].copy_from_slice(b"BUTN");
    b[4..8].copy_from_slice(&0xDEAD_BEEFu32.to_le_bytes());
    match PacketEventData::try_from(&b).unwrap().event_details {
        EventDataDetails::Buttons(x) => assert_eq!(x.button_status, 0xDEAD_BEEF),
        other => panic!("unexpected {:?}", other),
    }
    b[..4].copy_from_slice(b"PENA");
    b[4..11].copy_from_slice(&[1, 2, 3, 4, 5, 6, 7]);
    match PacketEventData::try_from(&b).unwrap().event_details {
        EventDataDetails::Penalty(p) => {
            assert_eq!((p.penalty_type, p.vehicle_idx, p.places_gained), (1, 3, 7));
        }
        other => panic!("unexpected {:?}", other),
    }
    b[..4].copy_from_slice(b"XXXX");
    assert_eq!(PacketEventData::try_from(&b), Err(DecodeError::UnknownEventCode));
    b[..4].copy_from_slice(&[0xFF, 0xFE, 0x00, 0x01]);
    assert_eq!(PacketEventData::try_from(&b), Err(DecodeError::UnknownEventCode));
}

#[test]
fn session_reads_zones_and_forecasts() {
    let mut b = vec![0u8; 724];
    b[0] = 3;
    b[1] = (-5i8) as u8;
    b[4..6].copy_from_slice(&5412u16.to_le_bytes());
    b[18] = 21;
    for z in 0..21usize {
        b[19 + 5 * z..23 + 5 * z].copy_from_slice(&(z as f32 / 21.0).to_le_bytes());
        b[23 + 5 * z] = (-1i8) as u8;
    }
    for w in 0..64usize {
        b[127 + 8 * w + 1] = w as u8;
        b[127 + 8 * w + 7] = 50;
    }
    b[667..671].copy_from_slice(&720u32.to_le_bytes());
    b[704..716].copy_from_slice(&[1, 2, 3, 4, 5, 6, 7, 8, 9, 10, 11, 12]);
    b[720..724].copy_from_slice(&4000.0f32.to_le_bytes());
    let s = PacketSessionData::try_from(&b).unwrap();
    assert_eq!(s.weather, 3);
    assert_eq!(s.track_temperature, -5);
    assert_eq!(s.track_length, 5412);
    assert_eq!(s.num_marshal_zones, 21);
    assert_eq!(f32::from_bits(s.marshal_zones[20].zone_start.bits), 20.0 / 21.0);
    assert_eq!(s.marshal_zones[20].zone_flag, -1);
    assert_eq!(s.weather_forecast_samples[63].time_offset, 63);
    assert_eq!(s.weather_forecast_samples[63].rain_percentage, 50);
    assert_eq!(s.time_of_day, 720);
    assert_eq!(s.weekend_structure, [1, 2, 3, 4, 5, 6, 7, 8, 9, 10, 11, 12]);
    assert_eq!(f32::from_bits(s.sector3_lap_distance_start.bits), 4000.0);
    assert_eq!(MarshalZone::try_from(&b[19..23]), Err(DecodeError::ShortBuffer));
    assert_eq!(WeatherForecastSample::try_from(&b[127..135]).unwrap().rain_percentage, 50);
}

#[test]
fn session_history_laps_and_stints() {
    let mut b = vec![0u8; 1460];
    b[0] = 9;
    b[1] = 100;
    b[2] = 8;
    for lap in 0..100usize {
        b[7 + 14 * lap..11 + 14 * lap].copy_from_slice(&(80_000u32 + lap as u32).to_le_bytes());
        b[7 + 14 * lap + 13] = 0x0F;
    }
    for st in 0..8usize {
        b[1407 + 3 * st] = if st == 7 { 255 } else { st as u8 * 10 };
        b[1407 + 3 * st + 1] = 16 + st as u8;
    }
    let h = PacketSessionHistoryData::try_from(&b).unwrap();
    assert_eq!((h.car_idx, h.num_laps, h.num_tyre_stints), (9, 100, 8));
    assert_eq!(h.lap_history_data.len(), 100);
    assert_eq!(h.lap_history_data[99].lap_time_in_ms, 80_099);
    assert_eq!(h.lap_history_data[50].lap_valid_bit_flags, 0x0F);
    assert_eq!(h.tyre_stints_history_data.len(), 8);
    assert_eq!(h.tyre_stints_history_data[7].end_lap, 255);
    assert_eq!(h.tyre_stints_history_data[2].tyre_actual_compound, 18);
}

#[test]
fn time_trial_data_sets_at_their_offsets() {
    let mut b = vec![0u8; 101];
    for (i, base) in [0usize, 33, 66].iter().enumerate() {
        b[*base] = i as u8 + 1;
        b[base + 2..base + 6].copy_from_slice(&(70_000u32 + i as u32).to_le_bytes());
        b[base + 23] = 1;
    }
    let t = PacketTimeTrialData::try_from(&b).unwrap();
    assert_eq!(t.player_session_best_data_set.car_idx, 1);
    assert_eq!(t.personal_best_data_set.lap_time_in_ms, 70_001);
    assert_eq!(t.rival_data_set.car_idx, 3);
    assert_eq!(t.rival_data_set.valid, 1);
    assert_eq!(PacketTimeTrialData::default().rival_data_set.gearbox_assist, 1);
}

#[test]
fn car_damage_status_setups_and_motion_ex() {
    let mut d = vec![0u8; 953];
    d[21 * 42 + 41] = 1;
    d[16] = 33;
    let dmg = PacketCarDamageData::try_from(&d).unwrap();
    assert_eq!(dmg.car_damage_data.len(), 22);
    assert_eq!(dmg.car_damage_data[21].engine_seized, 1);
    assert_eq!(dmg.car_damage_data[0].tyres_damage, [33, 0, 0, 0]);

    let mut s = vec![0u8; 1239];
    s[55 + 54] = 2;
    s[55 + 28] = (-1i8) as u8;
    let st = PacketCarStatusData::try_from(&s).unwrap();
    assert!(st.car_status_data[1].network_paused);
    assert!(!st.car_status_data[0].network_paused);
    assert_eq!(st.car_status_data[1].vehicle_fia_flags, -1);

    let mut c = vec![0u8; 1133];
    c[1100..1104].copy_from_slice(&7.0f32.to_le_bytes());
    c[50 * 3 + 45] = 9;
    let cs = PacketCarSetupData::try_from(&c).unwrap();
    assert_eq!(f32::from_bits(cs.next_front_wing_value.bits), 7.0);
    assert_eq!(cs.car_setups[3].ballast, 9);

    let mut m = vec![0u8; 237];
    m[204..208].copy_from_slice(&0.125f32.to_le_bytes());
    m[172..176].copy_from_slice(&1500.0f32.to_le_bytes());
    let mx = PacketMotionExData::try_from(&m).unwrap();
    assert_eq!(f32::from_bits(mx.chassis_yaw.bits), 0.125);
    assert_eq!(f32::from_bits(mx.wheel_vert_force[0].bits), 1500.0);
}
