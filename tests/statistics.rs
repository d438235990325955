use makair_telemetry::stream::compute_duration;
use makair_telemetry::structures::{
    AlarmPriority, AlarmTrap, BootMessage, DataSnapshot, MachineStateSnapshot, Mode, Phase,
    StoppedMessage, SubPhase, TelemetryMessage, VentilationMode,
};

fn boot() -> TelemetryMessage {
    TelemetryMessage::BootMessage(BootMessage {
        telemetry_version: 1,
        version: String::from(""),
        device_id: String::from(""),
        systick: 0,
        mode: Mode::Production,
        value128: 0,
    })
}

fn alarm_trap() -> TelemetryMessage {
    TelemetryMessage::AlarmTrap(AlarmTrap {
        telemetry_version: 1,
        version: String::from(""),
        device_id: String::from(""),
        systick: 0,
        centile: 0,
        pressure: 0,
        phase: Phase::Inhalation,
        subphase: Some(SubPhase::Inspiration),
        cycle: 0,
        alarm_code: 0,
        alarm_priority: AlarmPriority::Low,
        triggered: true,
        expected: 0,
        measured: 0,
        cycles_since_trigger: 0,
    })
}

fn data_snapshot() -> TelemetryMessage {
    TelemetryMessage::DataSnapshot(DataSnapshot {
        telemetry_version: 1,
        version: String::from(""),
        device_id: String::from(""),
        systick: 0,
        centile: 0,
        pressure: 0,
        phase: Phase::Inhalation,
        subphase: Some(SubPhase::Inspiration),
        blower_valve_position: 0,
        patient_valve_position: 0,
        blower_rpm: 0,
        battery_level: 0,
        inspiratory_flow: None,
        expiratory_flow: None,
    })
}

fn machine_state_snapshot() -> TelemetryMessage {
    TelemetryMessage::MachineStateSnapshot(MachineStateSnapshot {
        telemetry_version: 1,
        version: String::from(""),
        device_id: String::from(""),
        systick: 0,
        cycle: 0,
        peak_command: 0,
        plateau_command: 0,
        peep_command: 0,
        cpm_command: 0,
        previous_peak_pressure: 0,
        previous_plateau_pressure: 0,
        previous_peep_pressure: 0,
        current_alarm_codes: vec![],
        previous_volume: None,
        expiratory_term: 0,
        trigger_enabled: false,
        trigger_offset: 0,
        previous_cpm: None,
        alarm_snoozed: None,
        cpu_load: None,
        ventilation_mode: VentilationMode::PC_AC,
        inspiratory_trigger_flow: None,
        expiratory_trigger_flow: None,
        ti_min: None,
        ti_max: None,
        low_inspiratory_minute_volume_alarm_threshold: None,
        high_inspiratory_minute_volume_alarm_threshold: None,
        low_expiratory_minute_volume_alarm_threshold: None,
        high_expiratory_minute_volume_alarm_threshold: None,
        low_respiratory_rate_alarm_threshold: None,
        high_respiratory_rate_alarm_threshold: None,
        target_tidal_volume: None,
        low_tidal_volume_alarm_threshold: None,
        high_tidal_volume_alarm_threshold: None,
        plateau_duration: None,
        leak_alarm_threshold: None,
        target_inspiratory_flow: None,
        inspiratory_duration_command: None,
        previous_inspiratory_duration: None,
        battery_level: None,
        locale: None,
        patient_height: None,
        patient_gender: None,
        peak_pressure_alarm_threshold: None,
    })
}

fn stopped() -> TelemetryMessage {
    TelemetryMessage::StoppedMessage(StoppedMessage {
        telemetry_version: 1,
        version: String::from(""),
        device_id: String::from(""),
        systick: 0,
        peak_command: None,
        plateau_command: None,
        peep_command: None,
        cpm_command: None,
        expiratory_term: None,
        trigger_enabled: None,
        trigger_offset: None,
        alarm_snoozed: None,
        cpu_load: None,
        ventilation_mode: VentilationMode::PC_AC,
        inspiratory_trigger_flow: None,
        expiratory_trigger_flow: None,
        ti_min: None,
        ti_max: None,
        low_inspiratory_minute_volume_alarm_threshold: None,
        high_inspiratory_minute_volume_alarm_threshold: None,
        low_expiratory_minute_volume_alarm_threshold: None,
        high_expiratory_minute_volume_alarm_threshold: None,
        low_respiratory_rate_alarm_threshold: None,
        high_respiratory_rate_alarm_threshold: None,
        target_tidal_volume: None,
        low_tidal_volume_alarm_threshold: None,
        high_tidal_volume_alarm_threshold: None,
        plateau_duration: None,
        leak_alarm_threshold: None,
        target_inspiratory_flow: None,
        inspiratory_duration_command: None,
        battery_level: None,
        current_alarm_codes: None,
        locale: None,
        patient_height: None,
        patient_gender: None,
        peak_pressure_alarm_threshold: None,
    })
}

#[test]
fn statistics_test_compute_duration_no_data() {
    assert_eq!(compute_duration(vec![]), 0);
}

#[test]
fn statistics_test_compute_duration_one_boot_message() {
    assert_eq!(compute_duration(vec![boot()]), 0);
}

#[test]
fn statistics_test_compute_duration_one_alarm_trap() {
    assert_eq!(compute_duration(vec![alarm_trap()]), 0);
}

#[test]
fn statistics_test_compute_duration_one_data_snapshot() {
    assert_eq!(compute_duration(vec![data_snapshot()]), 10);
}

#[test]
fn statistics_test_compute_duration_one_machine_state_snapshot() {
    assert_eq!(compute_duration(vec![machine_state_snapshot()]), 0);
}

#[test]
fn statistics_test_compute_duration_one_stopped_message() {
    let mut vect: Vec<TelemetryMessage> = Vec::new();
    vect.push(stopped());
    assert_eq!(compute_duration(vect), 100);
}

#[test]
fn statistics_test_compute_duration_one_of_each_message() {
    let mut vect: Vec<TelemetryMessage> = Vec::new();
    vect.push(boot());
    vect.push(alarm_trap());
    vect.push(data_snapshot());
    vect.push(machine_state_snapshot());
    vect.push(stopped());
    assert_eq!(compute_duration(vect), 110);
}
