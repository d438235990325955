use makair_telemetry::alarm::{AlarmCode, AlarmCodeDescription};
use makair_telemetry::control::{parse_control_message, ControlMessage, ControlSetting};
use makair_telemetry::locale::Locale;
use makair_telemetry::parsers::{message, parse_telemetry_message, v1, v2};
use makair_telemetry::serializers::{mk_frame, ToBytes};
use makair_telemetry::stream::{
    process_buffer, replay_delay_ms, session_step, SessionAction, SessionEvent, SessionState,
    StreamEvent,
};
use makair_telemetry::text::device_id_string;
use makair_telemetry::structures::{
    AlarmPriority, AlarmTrap, BootMessage, ControlAck, DataSnapshot, EolTestSnapshot,
    EolTestSnapshotContent, EolTestStep, FatalError, FatalErrorDetails, HighLevelError,
    MachineStateSnapshot, Mode, ParseResult, PatientGender, Phase, StoppedMessage, SubPhase,
    TelemetryError, TelemetryErrorKind, TelemetryMessage, TelemetryMessageOrError, VentilationMode,
};

fn boot(version: u8, value128: u8) -> TelemetryMessage {
    TelemetryMessage::BootMessage(BootMessage {
        telemetry_version: version,
        version: "test".to_owned(),
        device_id: "0-0-0".to_owned(),
        systick: 10,
        mode: Mode::Production,
        value128,
    })
}

fn stopped_v2() -> TelemetryMessage {
    TelemetryMessage::StoppedMessage(StoppedMessage {
        telemetry_version: 2,
        version: "1.5.2".to_owned(),
        device_id: "1-2-3".to_owned(),
        systick: 123_456_789,
        peak_command: Some(30),
        plateau_command: Some(25),
        peep_command: Some(5),
        cpm_command: Some(20),
        expiratory_term: Some(20),
        trigger_enabled: Some(true),
        trigger_offset: Some(20),
        alarm_snoozed: Some(false),
        cpu_load: Some(42),
        ventilation_mode: VentilationMode::VC_CMV,
        inspiratory_trigger_flow: Some(10),
        expiratory_trigger_flow: Some(30),
        ti_min: Some(200),
        ti_max: Some(1000),
        low_inspiratory_minute_volume_alarm_threshold: Some(3),
        high_inspiratory_minute_volume_alarm_threshold: Some(20),
        low_expiratory_minute_volume_alarm_threshold: Some(3),
        high_expiratory_minute_volume_alarm_threshold: Some(20),
        low_respiratory_rate_alarm_threshold: Some(10),
        high_respiratory_rate_alarm_threshold: Some(30),
        target_tidal_volume: Some(400),
        low_tidal_volume_alarm_threshold: Some(200),
        high_tidal_volume_alarm_threshold: Some(1000),
        plateau_duration: Some(200),
        leak_alarm_threshold: Some(200),
        target_inspiratory_flow: Some(40),
        inspiratory_duration_command: Some(800),
        battery_level: Some(2650),
        current_alarm_codes: Some(vec![12, 21]),
        locale: Some(Locale(0x6672)),
        patient_height: Some(160),
        patient_gender: Some(PatientGender::Female),
        peak_pressure_alarm_threshold: Some(500),
    })
}

fn stopped_v1() -> TelemetryMessage {
    TelemetryMessage::StoppedMessage(StoppedMessage {
        telemetry_version: 1,
        version: "1.0".to_owned(),
        device_id: "4294967295-0-7".to_owned(),
        systick: 1,
        peak_command: None,
        plateau_command: None,
        peep_command: None,
        cpm_command: None,
        expiratory_term: None,
        trigger_enabled: None,
        trigger_offset: None,
        alarm_snoozed: None,
        cpu_load: None,
        ventilation_mode: VentilationMode::PC_AC,
        inspiratory_trigger_flow: None,
        expiratory_trigger_flow: None,
        ti_min: None,
        ti_max: None,
        low_inspiratory_minute_volume_alarm_threshold: None,
        high_inspiratory_minute_volume_alarm_threshold: None,
        low_expiratory_minute_volume_alarm_threshold: None,
        high_expiratory_minute_volume_alarm_threshold: None,
        low_respiratory_rate_alarm_threshold: None,
        high_respiratory_rate_alarm_threshold: None,
        target_tidal_volume: None,
        low_tidal_volume_alarm_threshold: None,
        high_tidal_volume_alarm_threshold: None,
        plateau_duration: None,
        leak_alarm_threshold: None,
        target_inspiratory_flow: None,
        inspiratory_duration_command: None,
        battery_level: None,
        current_alarm_codes: None,
        locale: None,
        patient_height: None,
        patient_gender: None,
        peak_pressure_alarm_threshold: None,
    })
}

fn data_snapshot(version: u8) -> TelemetryMessage {
    TelemetryMessage::DataSnapshot(DataSnapshot {
        telemetry_version: version,
        version: "test".to_owned(),
        device_id: "0-0-0".to_owned(),
        systick: 1500,
        centile: 10,
        pressure: 200,
        phase: Phase::Inhalation,
        subphase: if version == 1 { Some(SubPhase::HoldInspiration) } else { None },
        blower_valve_position: 35,
        patient_valve_position: 0,
        blower_rpm: 10,
        battery_level: 24,
        inspiratory_flow: if version == 2 { Some(-100) } else { None },
        expiratory_flow: if version == 2 { Some(0) } else { None },
    })
}

fn machine_state_snapshot(version: u8, previous_volume: Option<u16>) -> TelemetryMessage {
    let v2 = version == 2;
    TelemetryMessage::MachineStateSnapshot(MachineStateSnapshot {
        telemetry_version: version,
        version: "x".to_owned(),
        device_id: "9-8-7".to_owned(),
        systick: 99,
        cycle: 1234,
        peak_command: 30,
        plateau_command: 25,
        peep_command: 5,
        cpm_command: 20,
        previous_peak_pressure: 300,
        previous_plateau_pressure: 250,
        previous_peep_pressure: 50,
        current_alarm_codes: vec![13, 21, 14],
        previous_volume,
        expiratory_term: 20,
        trigger_enabled: true,
        trigger_offset: 20,
        previous_cpm: if v2 { Some(19) } else { None },
        alarm_snoozed: if v2 { Some(true) } else { None },
        cpu_load: if v2 { Some(50) } else { None },
        ventilation_mode: if v2 { VentilationMode::PC_VSAI } else { VentilationMode::PC_AC },
        inspiratory_trigger_flow: if v2 { Some(10) } else { None },
        expiratory_trigger_flow: if v2 { Some(30) } else { None },
        ti_min: if v2 { Some(200) } else { None },
        ti_max: if v2 { Some(1000) } else { None },
        low_inspiratory_minute_volume_alarm_threshold: if v2 { Some(3) } else { None },
        high_inspiratory_minute_volume_alarm_threshold: if v2 { Some(20) } else { None },
        low_expiratory_minute_volume_alarm_threshold: if v2 { Some(3) } else { None },
        high_expiratory_minute_volume_alarm_threshold: if v2 { Some(20) } else { None },
        low_respiratory_rate_alarm_threshold: if v2 { Some(10) } else { None },
        high_respiratory_rate_alarm_threshold: if v2 { Some(30) } else { None },
        target_tidal_volume: if v2 { Some(400) } else { None },
        low_tidal_volume_alarm_threshold: if v2 { Some(200) } else { None },
        high_tidal_volume_alarm_threshold: if v2 { Some(1000) } else { None },
        plateau_duration: if v2 { Some(200) } else { None },
        leak_alarm_threshold: if v2 { Some(200) } else { None },
        target_inspiratory_flow: if v2 { Some(40) } else { None },
        inspiratory_duration_command: if v2 { Some(800) } else { None },
        previous_inspiratory_duration: if v2 { Some(790) } else { None },
        battery_level: if v2 { Some(2400) } else { None },
        locale: if v2 { Some(Locale(0x656e)) } else { None },
        patient_height: if v2 { Some(180) } else { None },
        patient_gender: if v2 { Some(PatientGender::Male) } else { None },
        peak_pressure_alarm_threshold: if v2 { Some(600) } else { None },
    })
}

fn alarm_trap(version: u8) -> TelemetryMessage {
    TelemetryMessage::AlarmTrap(AlarmTrap {
        telemetry_version: version,
        version: "test".to_owned(),
        device_id: "0-0-0".to_owned(),
        systick: 77,
        centile: 250,
        pressure: if version == 2 { -12 } else { 12 },
        phase: Phase::Exhalation,
        subphase: if version == 1 { Some(SubPhase::Exhale) } else { None },
        cycle: 70000,
        alarm_code: 13,
        alarm_priority: AlarmPriority::High,
        triggered: false,
        expected: 1,
        measured: 2,
        cycles_since_trigger: 3,
    })
}

fn control_ack(version: u8) -> TelemetryMessage {
    TelemetryMessage::ControlAck(ControlAck {
        telemetry_version: version,
        version: "test".to_owned(),
        device_id: "0-0-0".to_owned(),
        systick: 50,
        setting: ControlSetting::PEEP,
        value: 0,
    })
}

fn fatal_error(error: FatalErrorDetails) -> TelemetryMessage {
    TelemetryMessage::FatalError(FatalError {
        telemetry_version: 2,
        version: "test".to_owned(),
        device_id: "0-0-0".to_owned(),
        systick: 5,
        error,
    })
}

fn eol(content: EolTestSnapshotContent) -> TelemetryMessage {
    TelemetryMessage::EolTestSnapshot(EolTestSnapshot {
        telemetry_version: 2,
        version: "test".to_owned(),
        device_id: "0-0-0".to_owned(),
        systick: 6,
        current_step: EolTestStep::CHECK_FAN,
        content,
    })
}

fn round_trip(m: TelemetryMessage) {
    let frame = if m.telemetry_version() == 1 { m.to_bytes_v1() } else { m.to_bytes_v2() };
    assert_eq!(parse_telemetry_message(&frame), ParseResult::Done(m, frame.len()));
}

#[test]
fn boot_frame_v2_bytes() {
    let m = boot(2, 128);
    let mut body: Vec<u8> = vec![0x42, 0x3a, 0x02, 0x04];
    body.extend_from_slice(b"test");
    body.extend_from_slice(&[0; 12]);
    body.push(0x09);
    body.extend_from_slice(&[0, 0, 0, 0, 0, 0, 0, 0x0a]);
    body.extend_from_slice(&[0x09, 0x01, 0x09, 0x80, 0x0a]);
    let mut frame = vec![0x03, 0x0c];
    frame.extend_from_slice(&body);
    frame.extend_from_slice(&crc32fast::hash(&body).to_be_bytes());
    frame.extend_from_slice(&[0x30, 0xc0]);
    assert_eq!(m.to_bytes_v2(), frame);
    match parse_telemetry_message(&frame) {
        ParseResult::Done(TelemetryMessage::BootMessage(b), n) => {
            assert_eq!(n, frame.len());
            assert_eq!(b.value128, 128);
            assert_eq!(TelemetryMessage::BootMessage(b), m);
        }
        other => panic!("unexpected {:?}", other),
    }
}

#[test]
fn boot_with_wrong_value128_is_delivered() {
    let m = boot(2, 127);
    let frame = m.to_bytes_v2();
    match parse_telemetry_message(&frame) {
        ParseResult::Done(TelemetryMessage::BootMessage(b), _) => assert_eq!(b.value128, 127),
        other => panic!("unexpected {:?}", other),
    }
}

#[test]
fn round_trips_v1() {
    round_trip(boot(1, 128));
    round_trip(stopped_v1());
    round_trip(data_snapshot(1));
    round_trip(machine_state_snapshot(1, Some(420)));
    round_trip(machine_state_snapshot(1, None));
    round_trip(alarm_trap(1));
    round_trip(control_ack(1));
}

#[test]
fn round_trips_v2() {
    round_trip(boot(2, 128));
    round_trip(stopped_v2());
    round_trip(data_snapshot(2));
    round_trip(machine_state_snapshot(2, Some(420)));
    round_trip(machine_state_snapshot(2, None));
    round_trip(alarm_trap(2));
    round_trip(control_ack(2));
    round_trip(fatal_error(FatalErrorDetails::WatchdogRestart));
    round_trip(fatal_error(FatalErrorDetails::CalibrationError {
        pressure_offset: -3,
        min_pressure: -20,
        max_pressure: 700,
        flow_at_starting: None,
        flow_with_blower_on: Some(-5),
    }));
    round_trip(fatal_error(FatalErrorDetails::BatteryDeeplyDischarged { battery_level: 2100 }));
    round_trip(fatal_error(FatalErrorDetails::MassFlowMeterError));
    round_trip(fatal_error(FatalErrorDetails::InconsistentPressure { pressure: 65000 }));
    round_trip(eol(EolTestSnapshotContent::InProgress("Checking fan".to_owned())));
    round_trip(eol(EolTestSnapshotContent::Error("Fan: défaut".to_owned())));
    round_trip(eol(EolTestSnapshotContent::Success("".to_owned())));
}

#[test]
fn unicode_firmware_version_round_trips() {
    let m = TelemetryMessage::BootMessage(BootMessage {
        telemetry_version: 2,
        version: "v1.0-β".to_owned(),
        device_id: "1-22-333".to_owned(),
        systick: u64::MAX,
        mode: Mode::IntegrationTest,
        value128: 128,
    });
    round_trip(m);
}

#[test]
fn machine_state_snapshot_volume_sentinel() {
    let m = machine_state_snapshot(2, None);
    let body = match &m {
        TelemetryMessage::MachineStateSnapshot(x) => x.to_bytes_v2(),
        _ => unreachable!(),
    };
    // the volume follows the alarm codes (3 codes): "S:" 2, len, "x", 12 bytes of ID, sep,
    // systick, then the head of 23 bytes, then 4 bytes of alarm codes, then a separator
    let volume_at = 4 + 1 + 12 + 1 + 8 + 23 + 4 + 1;
    assert_eq!(&body[volume_at..volume_at + 2], &[0xff, 0xff]);
    match v2::message(&body) {
        ParseResult::Done(TelemetryMessage::MachineStateSnapshot(x), n) => {
            assert_eq!(n, body.len());
            assert_eq!(x.previous_volume, None);
        }
        other => panic!("unexpected {:?}", other),
    }
}

#[test]
fn v1_pressure_above_i16_max_reads_as_max() {
    let m = match data_snapshot(1) {
        TelemetryMessage::DataSnapshot(mut x) => {
            x.pressure = -1;
            x
        }
        _ => unreachable!(),
    };
    match v1::message(&m.to_bytes_v1()) {
        ParseResult::Done(TelemetryMessage::DataSnapshot(x), _) => assert_eq!(x.pressure, i16::MAX),
        other => panic!("unexpected {:?}", other),
    }
}

#[test]
fn v2_only_messages_have_no_v1_bytes() {
    let f = fatal_error(FatalErrorDetails::WatchdogRestart);
    match &f {
        TelemetryMessage::FatalError(x) => assert!(x.to_bytes_v1().is_empty()),
        _ => unreachable!(),
    }
    let e = eol(EolTestSnapshotContent::Success("ok".to_owned()));
    match &e {
        TelemetryMessage::EolTestSnapshot(x) => assert!(x.to_bytes_v1().is_empty()),
        _ => unreachable!(),
    }
}

#[test]
fn body_dispatch_tries_v2_then_v1() {
    let b1 = match boot(1, 128) {
        TelemetryMessage::BootMessage(x) => x.to_bytes_v1(),
        _ => unreachable!(),
    };
    assert!(matches!(v2::message(&b1), ParseResult::Failed(_)));
    assert!(matches!(message(&b1), ParseResult::Done(_, n) if n == b1.len()));
    assert_eq!(message(&b1[..5]), ParseResult::Incomplete);
    assert!(matches!(message(b"Z:\x02"), ParseResult::Failed(_)));
}

#[test]
fn incremental_feeding() {
    let m = alarm_trap(2);
    let frame = m.to_bytes_v2();
    for end in 0..frame.len() {
        assert_eq!(parse_telemetry_message(&frame[..end]), ParseResult::Incomplete, "prefix {}", end);
    }
    assert_eq!(parse_telemetry_message(&frame), ParseResult::Done(m, frame.len()));
}

#[test]
fn crc_error_and_resync() {
    let m = data_snapshot(1);
    let mut frame = m.to_bytes_v1();
    let n = frame.len();
    let embedded = u32::from_be_bytes([frame[n - 6], frame[n - 5], frame[n - 4], frame[n - 3]]);
    frame[20] ^= 0xff;
    let computed = crc32fast::hash(&frame[2..n - 6]);
    assert_eq!(
        parse_telemetry_message(&frame),
        ParseResult::Failed(TelemetryError(
            n,
            TelemetryErrorKind::CrcError { expected: embedded, computed }
        ))
    );
    let next = boot(2, 128);
    let mut buffer = frame.clone();
    buffer.extend_from_slice(&next.to_bytes_v2());
    assert_eq!(
        process_buffer(&mut buffer),
        StreamEvent::Error(HighLevelError::CrcError { expected: embedded, computed })
    );
    match process_buffer(&mut buffer) {
        StreamEvent::Message(got, bytes) => {
            assert_eq!(got, next);
            assert_eq!(bytes, next.to_bytes_v2());
        }
        other => panic!("unexpected {:?}", other),
    }
    assert!(buffer.is_empty());
}

#[test]
fn garbage_before_and_after_a_frame() {
    let m = boot(2, 128);
    let mut buffer = vec![0xff, 0xff];
    buffer.extend_from_slice(&m.to_bytes_v2());
    buffer.push(0xff);
    assert_eq!(process_buffer(&mut buffer), StreamEvent::Skipped);
    assert_eq!(process_buffer(&mut buffer), StreamEvent::Skipped);
    match process_buffer(&mut buffer) {
        StreamEvent::Message(got, _) => assert_eq!(got, m),
        other => panic!("unexpected {:?}", other),
    }
    assert_eq!(buffer, vec![0xff]);
    assert_eq!(process_buffer(&mut buffer), StreamEvent::Skipped);
    assert!(buffer.is_empty());
    assert_eq!(process_buffer(&mut buffer), StreamEvent::NeedMore);
}

#[test]
fn unsupported_version_is_reported_and_skipped() {
    let mut buffer = vec![0x03, 0x0c, 0x42, 0x3a, 0x03, 0x01];
    assert_eq!(
        process_buffer(&mut buffer),
        StreamEvent::Error(HighLevelError::UnsupportedProtocolVersion {
            maximum_supported: 2,
            found: 3
        })
    );
    assert_eq!(buffer, vec![0x01]);
}

#[test]
fn parser_errors() {
    assert_eq!(
        parse_telemetry_message(b"\x03\x0dB"),
        ParseResult::Failed(TelemetryError(1, TelemetryErrorKind::ParserError))
    );
    assert_eq!(parse_telemetry_message(b"\x03"), ParseResult::Incomplete);
    assert_eq!(parse_telemetry_message(b""), ParseResult::Incomplete);
    // a mode byte outside 1..=3 is rejected
    let mut frame = boot(2, 128).to_bytes_v2();
    let at = frame.len() - 10;
    assert_eq!(frame[at], 1);
    frame[at] = 4;
    assert_eq!(
        parse_telemetry_message(&frame),
        ParseResult::Failed(TelemetryError(1, TelemetryErrorKind::ParserError))
    );
    // a wrong footer
    let mut frame = boot(2, 128).to_bytes_v2();
    let last = frame.len() - 1;
    frame[last] = 0;
    assert_eq!(
        parse_telemetry_message(&frame),
        ParseResult::Failed(TelemetryError(1, TelemetryErrorKind::ParserError))
    );
}

#[test]
fn mk_frame_wraps_with_crc() {
    let frame = mk_frame(&[1, 2, 3]);
    let crc = crc32fast::hash(&[1, 2, 3]).to_be_bytes();
    assert_eq!(frame, vec![3, 0x0c, 1, 2, 3, crc[0], crc[1], crc[2], crc[3], 0x30, 0xc0]);
}

#[test]
fn control_frame_peep() {
    let m = ControlMessage { setting: ControlSetting::PEEP, value: 0 };
    let crc = crc32fast::hash(&[0x03, 0x00, 0x00]).to_be_bytes();
    let expected = vec![0x05, 0x0a, 0x03, 0x00, 0x00, crc[0], crc[1], crc[2], crc[3], 0x50, 0xa0];
    assert_eq!(m.to_control_frame(), expected);
    assert_eq!(m.to_bytes(), vec![0x03, 0x00, 0x00]);
    assert_eq!(parse_control_message(&expected), ParseResult::Done(m, 11));
}

#[test]
fn control_frame_with_forced_crc() {
    let m = ControlMessage { setting: ControlSetting::Heartbeat, value: 43690 };
    let frame = m.to_control_frame_with(Some(0xdeadbeef));
    assert_eq!(frame, vec![0x05, 0x0a, 0x00, 0xaa, 0xaa, 0xde, 0xad, 0xbe, 0xef, 0x50, 0xa0]);
    let computed = crc32fast::hash(&[0x00, 0xaa, 0xaa]);
    assert_eq!(
        parse_control_message(&frame),
        ParseResult::Failed(TelemetryError(
            11,
            TelemetryErrorKind::CrcError { expected: 0xdeadbeef, computed }
        ))
    );
    assert_eq!(parse_control_message(&frame[..4]), ParseResult::Incomplete);
    assert_eq!(
        parse_control_message(&[0x05, 0x0a, 31]),
        ParseResult::Failed(TelemetryError(1, TelemetryErrorKind::ParserError))
    );
}

#[test]
fn control_settings_round_trip() {
    for b in 0u8..=255 {
        match ControlSetting::try_from_u8(b) {
            Some(s) => {
                assert!(b <= 30);
                assert_eq!(s.as_u8(), b);
                let m = ControlMessage { setting: s, value: 1234 };
                assert_eq!(parse_control_message(&m.to_control_frame()), ParseResult::Done(m, 11));
            }
            None => assert!(b > 30),
        }
    }
}

#[test]
fn control_setting_tables() {
    assert_eq!(ControlSetting::CyclesPerMinute.default(), 20);
    assert_eq!(ControlSetting::Locale.default(), 0x656e);
    assert_eq!(ControlSetting::PeakPressureAlarmThreshold.default(), 500);
    assert_eq!(ControlSetting::PEEP.bounds(), 0..=300);
    assert_eq!(ControlSetting::TiMax.bounds(), 200..=5000);
    assert_eq!(ControlSetting::Locale.bounds(), 0x6161..=0x7a7a);
    assert_eq!(ControlSetting::LeakAlarmThreshold.bounds(), 0..=10000);
}

#[test]
fn alarm_adjacency() {
    for (high, medium) in [(13u8, 21u8), (11, 24), (12, 22), (14, 23)].iter() {
        assert_eq!(AlarmCode::from(*high).adjacent().map(|a| a.code()), Some(*medium));
        assert_eq!(AlarmCode::from(*medium).adjacent(), None);
    }
    assert_eq!(AlarmCode::from(40).adjacent(), None);
}

#[test]
fn alarm_descriptions() {
    assert_eq!(AlarmCode::from(13).description(), AlarmCodeDescription::BatteryVeryLow);
    assert_eq!(AlarmCode::from(21).description(), AlarmCodeDescription::BatteryLow);
    assert_eq!(AlarmCode::from(22).description(), AlarmCodeDescription::PlateauPressureNotReached);
    assert_eq!(AlarmCode::from(49).description(), AlarmCodeDescription::PeakPressureHigh);
    assert_eq!(AlarmCode::from(99).description(), AlarmCodeDescription::Unknown(99));
    assert_eq!(AlarmCode::from(7).code(), 7);
}

#[test]
fn replay_pacing() {
    assert_eq!(replay_delay_ms(&data_snapshot(2)), 10);
    assert_eq!(replay_delay_ms(&stopped_v1()), 100);
    assert_eq!(replay_delay_ms(&boot(2, 128)), 0);
}

#[test]
fn envelope_getters() {
    let m = machine_state_snapshot(2, None);
    assert_eq!(m.telemetry_version(), 2);
    assert_eq!(m.version(), "x");
    assert_eq!(m.device_id(), "9-8-7");
    assert_eq!(m.systick(), 99);
}

#[test]
fn message_or_error_wraps_messages() {
    let m = boot(2, 128);
    assert_eq!(TelemetryMessageOrError::from(m.clone()), TelemetryMessageOrError::Message(m.clone()));
    assert_eq!(TelemetryMessageOrError::from_message(m.clone()), TelemetryMessageOrError::Message(m));
}

#[test]
fn device_id_text_is_three_decimal_numbers() {
    assert_eq!(device_id_string(0, 0, 0), "0-0-0");
    assert_eq!(
        device_id_string(123, 4294967295, 7),
        "123-4294967295-7"
    );
}

#[test]
fn incremental_feeding_v1() {
    let m = machine_state_snapshot(1, Some(3));
    let frame = m.to_bytes_v1();
    for end in 0..frame.len() {
        assert_eq!(parse_telemetry_message(&frame[..end]), ParseResult::Incomplete, "prefix {}", end);
    }
    assert_eq!(parse_telemetry_message(&frame), ParseResult::Done(m, frame.len()));
}

#[test]
fn transport_session_steps() {
    let (s, a) = session_step(SessionState::Closed, SessionEvent::Opened);
    assert_eq!((s, a), (SessionState::Configuring, SessionAction::Configure));
    let (s, a) = session_step(s, SessionEvent::Configured);
    assert_eq!((s, a), (SessionState::Streaming, SessionAction::Read));
    assert_eq!(
        session_step(s, SessionEvent::TimedOut),
        (SessionState::Streaming, SessionAction::FlushAndRead)
    );
    assert_eq!(
        session_step(s, SessionEvent::ReadFailed),
        (SessionState::Closed, SessionAction::ReportAndWait(1000))
    );
    assert_eq!(
        session_step(SessionState::Closed, SessionEvent::OpenFailed),
        (SessionState::Closed, SessionAction::ReportAndWait(1000))
    );
    assert_eq!(
        session_step(SessionState::Configuring, SessionEvent::ConfigureFailed),
        (SessionState::Closed, SessionAction::ReportAndWait(1000))
    );
}
