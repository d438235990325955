use vstd::prelude::*;

use crate::locale::{locale_of_text, word_bytes, Locale};
use crate::parsers::{
    agrees, boot, boot_decodes, control_ack, control_ack_decodes, copy_array, envelope_end,
    envelope_fields, grammar_error, read_simple, scan_boot, scan_control_ack, scan_simple,
    stopped_scan, volume_from, volume_of,
};
use crate::structures::{
    eol_step_of, ventilation_mode_of, AlarmTrap, DataSnapshot, EolTestSnapshot,
    EolTestSnapshotContent, EolTestStep, FatalError, FatalErrorDetails, MachineStateSnapshot,
    ParseResult, StoppedMessage, TelemetryError, TelemetryErrorKind, TelemetryMessage,
};
use crate::text::{lossy_text, lossy_text_of};
use crate::wire::{
    bytes_at, gender_from, gender_of, i16_at, lemma_fixed_byte, phase_v2_from, phase_v2_of,
    priority_from, priority_of, read_i16, read_u16, read_u32, scan_bytes, scan_bytes_exec,
    scan_fixed, scan_fixed_exec, triggered_of, u16_at, u32_at, ventilation_from, ByteRule, Scan,
};

verus! {

/// Fixed-size part between the envelope and the alarm codes of a stopped message
pub open spec fn stopped_head_rules() -> Seq<ByteRule> {
    seq![
        ByteRule::Is(9),
        ByteRule::Any,
        ByteRule::Is(9),
        ByteRule::Any,
        ByteRule::Is(9),
        ByteRule::Any,
        ByteRule::Is(9),
        ByteRule::Any,
        ByteRule::Is(9),
        ByteRule::Any,
        ByteRule::Is(9),
        ByteRule::Any,
        ByteRule::Is(9),
        ByteRule::Any,
        ByteRule::Is(9),
        ByteRule::Any,
        ByteRule::Is(9),
        ByteRule::Any,
        ByteRule::Is(9),
        ByteRule::Ventilation,
        ByteRule::Is(9),
        ByteRule::Any,
        ByteRule::Is(9),
        ByteRule::Any,
        ByteRule::Is(9),
        ByteRule::Any,
        ByteRule::Any,
        ByteRule::Is(9),
        ByteRule::Any,
        ByteRule::Any,
        ByteRule::Is(9),
        ByteRule::Any,
        ByteRule::Is(9),
        ByteRule::Any,
        ByteRule::Is(9),
        ByteRule::Any,
        ByteRule::Is(9),
        ByteRule::Any,
        ByteRule::Is(9),
        ByteRule::Any,
        ByteRule::Is(9),
        ByteRule::Any,
        ByteRule::Is(9),
        ByteRule::Any,
        ByteRule::Any,
        ByteRule::Is(9),
        ByteRule::Any,
        ByteRule::Any,
        ByteRule::Is(9),
        ByteRule::Any,
        ByteRule::Any,
        ByteRule::Is(9),
        ByteRule::Any,
        ByteRule::Any,
        ByteRule::Is(9),
        ByteRule::Any,
        ByteRule::Any,
        ByteRule::Is(9),
        ByteRule::Any,
        ByteRule::Is(9),
        ByteRule::Any,
        ByteRule::Any,
        ByteRule::Is(9),
        ByteRule::Any,
        ByteRule::Any,
        ByteRule::Is(9),
    ]
}

fn stopped_head_rules_exec() -> (r: Vec<ByteRule>)
    ensures
        r@ == stopped_head_rules(),
{
    let r = vec![
        ByteRule::Is(9),
        ByteRule::Any,
        ByteRule::Is(9),
        ByteRule::Any,
        ByteRule::Is(9),
        ByteRule::Any,
        ByteRule::Is(9),
        ByteRule::Any,
        ByteRule::Is(9),
        ByteRule::Any,
        ByteRule::Is(9),
        ByteRule::Any,
        ByteRule::Is(9),
        ByteRule::Any,
        ByteRule::Is(9),
        ByteRule::Any,
        ByteRule::Is(9),
        ByteRule::Any,
        ByteRule::Is(9),
        ByteRule::Ventilation,
        ByteRule::Is(9),
        ByteRule::Any,
        ByteRule::Is(9),
        ByteRule::Any,
        ByteRule::Is(9),
        ByteRule::Any,
        ByteRule::Any,
        ByteRule::Is(9),
        ByteRule::Any,
        ByteRule::Any,
        ByteRule::Is(9),
        ByteRule::Any,
        ByteRule::Is(9),
        ByteRule::Any,
        ByteRule::Is(9),
        ByteRule::Any,
        ByteRule::Is(9),
        ByteRule::Any,
        ByteRule::Is(9),
        ByteRule::Any,
        ByteRule::Is(9),
        ByteRule::Any,
        ByteRule::Is(9),
        ByteRule::Any,
        ByteRule::Any,
        ByteRule::Is(9),
        ByteRule::Any,
        ByteRule::Any,
        ByteRule::Is(9),
        ByteRule::Any,
        ByteRule::Any,
        ByteRule::Is(9),
        ByteRule::Any,
        ByteRule::Any,
        ByteRule::Is(9),
        ByteRule::Any,
        ByteRule::Any,
        ByteRule::Is(9),
        ByteRule::Any,
        ByteRule::Is(9),
        ByteRule::Any,
        ByteRule::Any,
        ByteRule::Is(9),
        ByteRule::Any,
        ByteRule::Any,
        ByteRule::Is(9),
    ];
    assert(r@ =~= stopped_head_rules());
    r
}

/// Fixed-size part at the end of a stopped message
pub open spec fn stopped_tail_rules() -> Seq<ByteRule> {
    seq![
        ByteRule::Is(9),
        ByteRule::Any,
        ByteRule::Any,
        ByteRule::Is(9),
        ByteRule::Any,
        ByteRule::Is(9),
        ByteRule::Gender,
        ByteRule::Is(9),
        ByteRule::Any,
        ByteRule::Any,
        ByteRule::Is(10),
    ]
}

fn stopped_tail_rules_exec() -> (r: Vec<ByteRule>)
    ensures
        r@ == stopped_tail_rules(),
{
    let r = vec![
        ByteRule::Is(9),
        ByteRule::Any,
        ByteRule::Any,
        ByteRule::Is(9),
        ByteRule::Any,
        ByteRule::Is(9),
        ByteRule::Gender,
        ByteRule::Is(9),
        ByteRule::Any,
        ByteRule::Any,
        ByteRule::Is(10),
    ];
    assert(r@ =~= stopped_tail_rules());
    r
}

/// Scan a stopped message body
#[verifier::opaque]
pub open spec fn scan_stopped(b: Seq<u8>) -> Scan {
    match scan_simple(b, 79, 2, stopped_head_rules()) {
        Scan::Next(p) => match scan_bytes(b, p as int) {
            Scan::Next(q) => scan_fixed(b, q as int, stopped_tail_rules()),
            o => o,
        },
        o => o,
    }
}

/// Whether `m` is the stopped message that a body holds
#[verifier::opaque]
pub open spec fn stopped_decodes(b: Seq<u8>, m: TelemetryMessage) -> bool {
    let e = envelope_end(b);
    let t = e + 66 + 1 + b[e + 66];
    match m {
        TelemetryMessage::StoppedMessage(x) => {
            &&& envelope_fields(b, 2, x.telemetry_version, x.version@, x.device_id@, x.systick)
            &&& x.peak_command == Some(b[e + 1])
            &&& x.plateau_command == Some(b[e + 3])
            &&& x.peep_command == Some(b[e + 5])
            &&& x.cpm_command == Some(b[e + 7])
            &&& x.expiratory_term == Some(b[e + 9])
            &&& x.trigger_enabled == Some(b[e + 11] != 0)
            &&& x.trigger_offset == Some(b[e + 13])
            &&& x.alarm_snoozed == Some(b[e + 15] != 0)
            &&& x.cpu_load == Some(b[e + 17])
            &&& ventilation_mode_of(b[e + 19]) == Some(x.ventilation_mode)
            &&& x.inspiratory_trigger_flow == Some(b[e + 21])
            &&& x.expiratory_trigger_flow == Some(b[e + 23])
            &&& x.ti_min == Some(u16_at(b, e + 25))
            &&& x.ti_max == Some(u16_at(b, e + 28))
            &&& x.low_inspiratory_minute_volume_alarm_threshold == Some(b[e + 31])
            &&& x.high_inspiratory_minute_volume_alarm_threshold == Some(b[e + 33])
            &&& x.low_expiratory_minute_volume_alarm_threshold == Some(b[e + 35])
            &&& x.high_expiratory_minute_volume_alarm_threshold == Some(b[e + 37])
            &&& x.low_respiratory_rate_alarm_threshold == Some(b[e + 39])
            &&& x.high_respiratory_rate_alarm_threshold == Some(b[e + 41])
            &&& x.target_tidal_volume == Some(u16_at(b, e + 43))
            &&& x.low_tidal_volume_alarm_threshold == Some(u16_at(b, e + 46))
            &&& x.high_tidal_volume_alarm_threshold == Some(u16_at(b, e + 49))
            &&& x.plateau_duration == Some(u16_at(b, e + 52))
            &&& x.leak_alarm_threshold == Some(u16_at(b, e + 55))
            &&& x.target_inspiratory_flow == Some(b[e + 58])
            &&& x.inspiratory_duration_command == Some(u16_at(b, e + 60))
            &&& x.battery_level == Some(u16_at(b, e + 63))
            &&& x.current_alarm_codes matches Some(c) && c@ == bytes_at(b, e + 66)
            &&& x.locale == locale_of_text(lossy_text_of(word_bytes(u16_at(b, t + 1))))
            &&& x.patient_height == Some(b[t + 4])
            &&& x.patient_gender == gender_of(b[t + 6])
            &&& x.peak_pressure_alarm_threshold == Some(u16_at(b, t + 8))
        },
        _ => false,
    }
}

/// Parse a stopped message body
pub fn stopped(b: &[u8]) -> (r: ParseResult<TelemetryMessage>)
    ensures
        agrees(r, scan_stopped(b@)),
        r matches ParseResult::Done(_, n) ==> n <= b@.len(),
        r matches ParseResult::Done(m, _) ==> stopped_decodes(b@, m),
{
    reveal(scan_stopped);
    reveal(stopped_decodes);
    let head = stopped_head_rules_exec();
    let tail = stopped_tail_rules_exec();
    let (env, e) = match read_simple(b, 79, 2, head.as_slice()) {
        Err(s) => {
            return stopped_scan(s);
        },
        Ok(x) => x,
    };
    let a = e + 66;
    let t = match scan_bytes_exec(b, a) {
        Scan::Next(t) => t,
        s => {
            return stopped_scan(s);
        },
    };
    let end = match scan_fixed_exec(b, t, tail.as_slice()) {
        Scan::Next(end) => end,
        s => {
            return stopped_scan(s);
        },
    };
    let codes = copy_array(b, a);
    proof {
        lemma_fixed_byte(b@, e as int, stopped_head_rules(), 19);
        lemma_fixed_byte(b@, t as int, stopped_tail_rules(), 6);
    }
    let x = StoppedMessage {
        telemetry_version: 2,
        version: env.version,
        device_id: env.device_id,
        systick: env.systick,
        peak_command: Some(b[e + 1]),
        plateau_command: Some(b[e + 3]),
        peep_command: Some(b[e + 5]),
        cpm_command: Some(b[e + 7]),
        expiratory_term: Some(b[e + 9]),
        trigger_enabled: Some(b[e + 11] != 0),
        trigger_offset: Some(b[e + 13]),
        alarm_snoozed: Some(b[e + 15] != 0),
        cpu_load: Some(b[e + 17]),
        ventilation_mode: ventilation_from(b[e + 19]),
        inspiratory_trigger_flow: Some(b[e + 21]),
        expiratory_trigger_flow: Some(b[e + 23]),
        ti_min: Some(read_u16(b, e + 25)),
        ti_max: Some(read_u16(b, e + 28)),
        low_inspiratory_minute_volume_alarm_threshold: Some(b[e + 31]),
        high_inspiratory_minute_volume_alarm_threshold: Some(b[e + 33]),
        low_expiratory_minute_volume_alarm_threshold: Some(b[e + 35]),
        high_expiratory_minute_volume_alarm_threshold: Some(b[e + 37]),
        low_respiratory_rate_alarm_threshold: Some(b[e + 39]),
        high_respiratory_rate_alarm_threshold: Some(b[e + 41]),
        target_tidal_volume: Some(read_u16(b, e + 43)),
        low_tidal_volume_alarm_threshold: Some(read_u16(b, e + 46)),
        high_tidal_volume_alarm_threshold: Some(read_u16(b, e + 49)),
        plateau_duration: Some(read_u16(b, e + 52)),
        leak_alarm_threshold: Some(read_u16(b, e + 55)),
        target_inspiratory_flow: Some(b[e + 58]),
        inspiratory_duration_command: Some(read_u16(b, e + 60)),
        battery_level: Some(read_u16(b, e + 63)),
        current_alarm_codes: Some(codes),
        locale: Locale::try_from_u16(read_u16(b, t + 1)),
        patient_height: Some(b[t + 4]),
        patient_gender: Some(gender_from(b[t + 6])),
        peak_pressure_alarm_threshold: Some(read_u16(b, t + 8)),
    };
    ParseResult::Done(TelemetryMessage::StoppedMessage(x), end)
}

/// Fixed-size part at the end of a data snapshot
pub open spec fn data_snapshot_tail_rules() -> Seq<ByteRule> {
    seq![
        ByteRule::Is(9),
        ByteRule::Any,
        ByteRule::Any,
        ByteRule::Is(9),
        ByteRule::Any,
        ByteRule::Any,
        ByteRule::Is(9),
        ByteRule::PhaseV2,
        ByteRule::Is(9),
        ByteRule::Any,
        ByteRule::Is(9),
        ByteRule::Any,
        ByteRule::Is(9),
        ByteRule::Any,
        ByteRule::Is(9),
        ByteRule::Any,
        ByteRule::Is(9),
        ByteRule::Any,
        ByteRule::Any,
        ByteRule::Is(9),
        ByteRule::Any,
        ByteRule::Any,
        ByteRule::Is(10),
    ]
}

fn data_snapshot_tail_rules_exec() -> (r: Vec<ByteRule>)
    ensures
        r@ == data_snapshot_tail_rules(),
{
    let r = vec![
        ByteRule::Is(9),
        ByteRule::Any,
        ByteRule::Any,
        ByteRule::Is(9),
        ByteRule::Any,
        ByteRule::Any,
        ByteRule::Is(9),
        ByteRule::PhaseV2,
        ByteRule::Is(9),
        ByteRule::Any,
        ByteRule::Is(9),
        ByteRule::Any,
        ByteRule::Is(9),
        ByteRule::Any,
        ByteRule::Is(9),
        ByteRule::Any,
        ByteRule::Is(9),
        ByteRule::Any,
        ByteRule::Any,
        ByteRule::Is(9),
        ByteRule::Any,
        ByteRule::Any,
        ByteRule::Is(10),
    ];
    assert(r@ =~= data_snapshot_tail_rules());
    r
}

/// Scan a data snapshot body
#[verifier::opaque]
pub open spec fn scan_data_snapshot(b: Seq<u8>) -> Scan {
    scan_simple(b, 68, 2, data_snapshot_tail_rules())
}

/// Whether `m` is the data snapshot that a body holds
#[verifier::opaque]
pub open spec fn data_snapshot_decodes(b: Seq<u8>, m: TelemetryMessage) -> bool {
    let e = envelope_end(b);
    match m {
        TelemetryMessage::DataSnapshot(x) => {
            &&& envelope_fields(b, 2, x.telemetry_version, x.version@, x.device_id@, x.systick)
            &&& x.centile == u16_at(b, e + 1)
            &&& x.pressure == i16_at(b, e + 4)
            &&& phase_v2_of(b[e + 7]) == Some(x.phase)
            &&& x.blower_valve_position == b[e + 9]
            &&& x.patient_valve_position == b[e + 11]
            &&& x.blower_rpm == b[e + 13]
            &&& x.battery_level == b[e + 15]
            &&& x.inspiratory_flow == Some(i16_at(b, e + 17))
            &&& x.expiratory_flow == Some(i16_at(b, e + 20))
            &&& x.subphase is None
        },
        _ => false,
    }
}

/// Parse a data snapshot body
pub fn data_snapshot(b: &[u8]) -> (r: ParseResult<TelemetryMessage>)
    ensures
        agrees(r, scan_data_snapshot(b@)),
        r matches ParseResult::Done(_, n) ==> n <= b@.len(),
        r matches ParseResult::Done(m, _) ==> data_snapshot_decodes(b@, m),
{
    reveal(scan_data_snapshot);
    reveal(data_snapshot_decodes);
    let tail = data_snapshot_tail_rules_exec();
    let (env, e) = match read_simple(b, 68, 2, tail.as_slice()) {
        Err(s) => {
            return stopped_scan(s);
        },
        Ok(x) => x,
    };
    let end = e + 23;
    proof {
        lemma_fixed_byte(b@, e as int, data_snapshot_tail_rules(), 7);
    }
    let x = DataSnapshot {
        telemetry_version: 2,
        version: env.version,
        device_id: env.device_id,
        systick: env.systick,
        centile: read_u16(b, e + 1),
        pressure: read_i16(b, e + 4),
        phase: phase_v2_from(b[e + 7]),
        blower_valve_position: b[e + 9],
        patient_valve_position: b[e + 11],
        blower_rpm: b[e + 13],
        battery_level: b[e + 15],
        inspiratory_flow: Some(read_i16(b, e + 17)),
        expiratory_flow: Some(read_i16(b, e + 20)),
        subphase: None,
    };
    ParseResult::Done(TelemetryMessage::DataSnapshot(x), end)
}

/// Fixed-size part between the envelope and the alarm codes of a machine state snapshot
pub open spec fn machine_state_snapshot_head_rules() -> Seq<ByteRule> {
    seq![
        ByteRule::Is(9),
        ByteRule::Any,
        ByteRule::Any,
        ByteRule::Any,
        ByteRule::Any,
        ByteRule::Is(9),
        ByteRule::Any,
        ByteRule::Is(9),
        ByteRule::Any,
        ByteRule::Is(9),
        ByteRule::Any,
        ByteRule::Is(9),
        ByteRule::Any,
        ByteRule::Is(9),
        ByteRule::Any,
        ByteRule::Any,
        ByteRule::Is(9),
        ByteRule::Any,
        ByteRule::Any,
        ByteRule::Is(9),
        ByteRule::Any,
        ByteRule::Any,
        ByteRule::Is(9),
    ]
}

fn machine_state_snapshot_head_rules_exec() -> (r: Vec<ByteRule>)
    ensures
        r@ == machine_state_snapshot_head_rules(),
{
    let r = vec![
        ByteRule::Is(9),
        ByteRule::Any,
        ByteRule::Any,
        ByteRule::Any,
        ByteRule::Any,
        ByteRule::Is(9),
        ByteRule::Any,
        ByteRule::Is(9),
        ByteRule::Any,
        ByteRule::Is(9),
        ByteRule::Any,
        ByteRule::Is(9),
        ByteRule::Any,
        ByteRule::Is(9),
        ByteRule::Any,
        ByteRule::Any,
        ByteRule::Is(9),
        ByteRule::Any,
        ByteRule::Any,
        ByteRule::Is(9),
        ByteRule::Any,
        ByteRule::Any,
        ByteRule::Is(9),
    ];
    assert(r@ =~= machine_state_snapshot_head_rules());
    r
}

/// Fixed-size part at the end of a machine state snapshot
pub open spec fn machine_state_snapshot_tail_rules() -> Seq<ByteRule> {
    seq![
        ByteRule::Is(9),
        ByteRule::Any,
        ByteRule::Any,
        ByteRule::Is(9),
        ByteRule::Any,
        ByteRule::Is(9),
        ByteRule::Any,
        ByteRule::Is(9),
        ByteRule::Any,
        ByteRule::Is(9),
        ByteRule::Any,
        ByteRule::Is(9),
        ByteRule::Any,
        ByteRule::Is(9),
        ByteRule::Any,
        ByteRule::Is(9),
        ByteRule::Ventilation,
        ByteRule::Is(9),
        ByteRule::Any,
        ByteRule::Is(9),
        ByteRule::Any,
        ByteRule::Is(9),
        ByteRule::Any,
        ByteRule::Any,
        ByteRule::Is(9),
        ByteRule::Any,
        ByteRule::Any,
        ByteRule::Is(9),
        ByteRule::Any,
        ByteRule::Is(9),
        ByteRule::Any,
        ByteRule::Is(9),
        ByteRule::Any,
        ByteRule::Is(9),
        ByteRule::Any,
        ByteRule::Is(9),
        ByteRule::Any,
        ByteRule::Is(9),
        ByteRule::Any,
        ByteRule::Is(9),
        ByteRule::Any,
        ByteRule::Any,
        ByteRule::Is(9),
        ByteRule::Any,
        ByteRule::Any,
        ByteRule::Is(9),
        ByteRule::Any,
        ByteRule::Any,
        ByteRule::Is(9),
        ByteRule::Any,
        ByteRule::Any,
        ByteRule::Is(9),
        ByteRule::Any,
        ByteRule::Any,
        ByteRule::Is(9),
        ByteRule::Any,
        ByteRule::Is(9),
        ByteRule::Any,
        ByteRule::Any,
        ByteRule::Is(9),
        ByteRule::Any,
        ByteRule::Any,
        ByteRule::Is(9),
        ByteRule::Any,
        ByteRule::Any,
        ByteRule::Is(9),
        ByteRule::Any,
        ByteRule::Any,
        ByteRule::Is(9),
        ByteRule::Any,
        ByteRule::Is(9),
        ByteRule::Gender,
        ByteRule::Is(9),
        ByteRule::Any,
        ByteRule::Any,
        ByteRule::Is(10),
    ]
}

fn machine_state_snapshot_tail_rules_exec() -> (r: Vec<ByteRule>)
    ensures
        r@ == machine_state_snapshot_tail_rules(),
{
    let r = vec![
        ByteRule::Is(9),
        ByteRule::Any,
        ByteRule::Any,
        ByteRule::Is(9),
        ByteRule::Any,
        ByteRule::Is(9),
        ByteRule::Any,
        ByteRule::Is(9),
        ByteRule::Any,
        ByteRule::Is(9),
        ByteRule::Any,
        ByteRule::Is(9),
        ByteRule::Any,
        ByteRule::Is(9),
        ByteRule::Any,
        ByteRule::Is(9),
        ByteRule::Ventilation,
        ByteRule::Is(9),
        ByteRule::Any,
        ByteRule::Is(9),
        ByteRule::Any,
        ByteRule::Is(9),
        ByteRule::Any,
        ByteRule::Any,
        ByteRule::Is(9),
        ByteRule::Any,
        ByteRule::Any,
        ByteRule::Is(9),
        ByteRule::Any,
        ByteRule::Is(9),
        ByteRule::Any,
        ByteRule::Is(9),
        ByteRule::Any,
        ByteRule::Is(9),
        ByteRule::Any,
        ByteRule::Is(9),
        ByteRule::Any,
        ByteRule::Is(9),
        ByteRule::Any,
        ByteRule::Is(9),
        ByteRule::Any,
        ByteRule::Any,
        ByteRule::Is(9),
        ByteRule::Any,
        ByteRule::Any,
        ByteRule::Is(9),
        ByteRule::Any,
        ByteRule::Any,
        ByteRule::Is(9),
        ByteRule::Any,
        ByteRule::Any,
        ByteRule::Is(9),
        ByteRule::Any,
        ByteRule::Any,
        ByteRule::Is(9),
        ByteRule::Any,
        ByteRule::Is(9),
        ByteRule::Any,
        ByteRule::Any,
        ByteRule::Is(9),
        ByteRule::Any,
        ByteRule::Any,
        ByteRule::Is(9),
        ByteRule::Any,
        ByteRule::Any,
        ByteRule::Is(9),
        ByteRule::Any,
        ByteRule::Any,
        ByteRule::Is(9),
        ByteRule::Any,
        ByteRule::Is(9),
        ByteRule::Gender,
        ByteRule::Is(9),
        ByteRule::Any,
        ByteRule::Any,
        ByteRule::Is(10),
    ];
    assert(r@ =~= machine_state_snapshot_tail_rules());
    r
}

/// Scan a machine state snapshot body
#[verifier::opaque]
pub open spec fn scan_machine_state_snapshot(b: Seq<u8>) -> Scan {
    match scan_simple(b, 83, 2, machine_state_snapshot_head_rules()) {
        Scan::Next(p) => match scan_bytes(b, p as int) {
            Scan::Next(q) => scan_fixed(b, q as int, machine_state_snapshot_tail_rules()),
            o => o,
        },
        o => o,
    }
}

/// Whether `m` is the machine state snapshot that a body holds
#[verifier::opaque]
pub open spec fn machine_state_snapshot_decodes(b: Seq<u8>, m: TelemetryMessage) -> bool {
    let e = envelope_end(b);
    let t = e + 23 + 1 + b[e + 23];
    match m {
        TelemetryMessage::MachineStateSnapshot(x) => {
            &&& envelope_fields(b, 2, x.telemetry_version, x.version@, x.device_id@, x.systick)
            &&& x.cycle == u32_at(b, e + 1)
            &&& x.peak_command == b[e + 6]
            &&& x.plateau_command == b[e + 8]
            &&& x.peep_command == b[e + 10]
            &&& x.cpm_command == b[e + 12]
            &&& x.previous_peak_pressure == u16_at(b, e + 14)
            &&& x.previous_plateau_pressure == u16_at(b, e + 17)
            &&& x.previous_peep_pressure == u16_at(b, e + 20)
            &&& x.current_alarm_codes@ == bytes_at(b, e + 23)
            &&& x.previous_volume == volume_of(u16_at(b, t + 1))
            &&& x.expiratory_term == b[t + 4]
            &&& x.trigger_enabled == (b[t + 6] != 0)
            &&& x.trigger_offset == b[t + 8]
            &&& x.previous_cpm == Some(b[t + 10])
            &&& x.alarm_snoozed == Some(b[t + 12] != 0)
            &&& x.cpu_load == Some(b[t + 14])
            &&& ventilation_mode_of(b[t + 16]) == Some(x.ventilation_mode)
            &&& x.inspiratory_trigger_flow == Some(b[t + 18])
            &&& x.expiratory_trigger_flow == Some(b[t + 20])
            &&& x.ti_min == Some(u16_at(b, t + 22))
            &&& x.ti_max == Some(u16_at(b, t + 25))
            &&& x.low_inspiratory_minute_volume_alarm_threshold == Some(b[t + 28])
            &&& x.high_inspiratory_minute_volume_alarm_threshold == Some(b[t + 30])
            &&& x.low_expiratory_minute_volume_alarm_threshold == Some(b[t + 32])
            &&& x.high_expiratory_minute_volume_alarm_threshold == Some(b[t + 34])
            &&& x.low_respiratory_rate_alarm_threshold == Some(b[t + 36])
            &&& x.high_respiratory_rate_alarm_threshold == Some(b[t + 38])
            &&& x.target_tidal_volume == Some(u16_at(b, t + 40))
            &&& x.low_tidal_volume_alarm_threshold == Some(u16_at(b, t + 43))
            &&& x.high_tidal_volume_alarm_threshold == Some(u16_at(b, t + 46))
            &&& x.plateau_duration == Some(u16_at(b, t + 49))
            &&& x.leak_alarm_threshold == Some(u16_at(b, t + 52))
            &&& x.target_inspiratory_flow == Some(b[t + 55])
            &&& x.inspiratory_duration_command == Some(u16_at(b, t + 57))
            &&& x.previous_inspiratory_duration == Some(u16_at(b, t + 60))
            &&& x.battery_level == Some(u16_at(b, t + 63))
            &&& x.locale == locale_of_text(lossy_text_of(word_bytes(u16_at(b, t + 66))))
            &&& x.patient_height == Some(b[t + 69])
            &&& x.patient_gender == gender_of(b[t + 71])
            &&& x.peak_pressure_alarm_threshold == Some(u16_at(b, t + 73))
        },
        _ => false,
    }
}

/// Parse a machine state snapshot body
pub fn machine_state_snapshot(b: &[u8]) -> (r: ParseResult<TelemetryMessage>)
    ensures
        agrees(r, scan_machine_state_snapshot(b@)),
        r matches ParseResult::Done(_, n) ==> n <= b@.len(),
        r matches ParseResult::Done(m, _) ==> machine_state_snapshot_decodes(b@, m),
{
    reveal(scan_machine_state_snapshot);
    reveal(machine_state_snapshot_decodes);
    let head = machine_state_snapshot_head_rules_exec();
    let tail = machine_state_snapshot_tail_rules_exec();
    let (env, e) = match read_simple(b, 83, 2, head.as_slice()) {
        Err(s) => {
            return stopped_scan(s);
        },
        Ok(x) => x,
    };
    let a = e + 23;
    let t = match scan_bytes_exec(b, a) {
        Scan::Next(t) => t,
        s => {
            return stopped_scan(s);
        },
    };
    let end = match scan_fixed_exec(b, t, tail.as_slice()) {
        Scan::Next(end) => end,
        s => {
            return stopped_scan(s);
        },
    };
    let codes = copy_array(b, a);
    proof {
        lemma_fixed_byte(b@, t as int, machine_state_snapshot_tail_rules(), 16);
        lemma_fixed_byte(b@, t as int, machine_state_snapshot_tail_rules(), 71);
    }
    let x = MachineStateSnapshot {
        telemetry_version: 2,
        version: env.version,
        device_id: env.device_id,
        systick: env.systick,
        cycle: read_u32(b, e + 1),
        peak_command: b[e + 6],
        plateau_command: b[e + 8],
        peep_command: b[e + 10],
        cpm_command: b[e + 12],
        previous_peak_pressure: read_u16(b, e + 14),
        previous_plateau_pressure: read_u16(b, e + 17),
        previous_peep_pressure: read_u16(b, e + 20),
        current_alarm_codes: codes,
        previous_volume: volume_from(read_u16(b, t + 1)),
        expiratory_term: b[t + 4],
        trigger_enabled: b[t + 6] != 0,
        trigger_offset: b[t + 8],
        previous_cpm: Some(b[t + 10]),
        alarm_snoozed: Some(b[t + 12] != 0),
        cpu_load: Some(b[t + 14]),
        ventilation_mode: ventilation_from(b[t + 16]),
        inspiratory_trigger_flow: Some(b[t + 18]),
        expiratory_trigger_flow: Some(b[t + 20]),
        ti_min: Some(read_u16(b, t + 22)),
        ti_max: Some(read_u16(b, t + 25)),
        low_inspiratory_minute_volume_alarm_threshold: Some(b[t + 28]),
        high_inspiratory_minute_volume_alarm_threshold: Some(b[t + 30]),
        low_expiratory_minute_volume_alarm_threshold: Some(b[t + 32]),
        high_expiratory_minute_volume_alarm_threshold: Some(b[t + 34]),
        low_respiratory_rate_alarm_threshold: Some(b[t + 36]),
        high_respiratory_rate_alarm_threshold: Some(b[t + 38]),
        target_tidal_volume: Some(read_u16(b, t + 40)),
        low_tidal_volume_alarm_threshold: Some(read_u16(b, t + 43)),
        high_tidal_volume_alarm_threshold: Some(read_u16(b, t + 46)),
        plateau_duration: Some(read_u16(b, t + 49)),
        leak_alarm_threshold: Some(read_u16(b, t + 52)),
        target_inspiratory_flow: Some(b[t + 55]),
        inspiratory_duration_command: Some(read_u16(b, t + 57)),
        previous_inspiratory_duration: Some(read_u16(b, t + 60)),
        battery_level: Some(read_u16(b, t + 63)),
        locale: Locale::try_from_u16(read_u16(b, t + 66)),
        patient_height: Some(b[t + 69]),
        patient_gender: Some(gender_from(b[t + 71])),
        peak_pressure_alarm_threshold: Some(read_u16(b, t + 73)),
    };
    ParseResult::Done(TelemetryMessage::MachineStateSnapshot(x), end)
}

/// Fixed-size part at the end of an alarm trap
pub open spec fn alarm_trap_tail_rules() -> Seq<ByteRule> {
    seq![
        ByteRule::Is(9),
        ByteRule::Any,
        ByteRule::Any,
        ByteRule::Is(9),
        ByteRule::Any,
        ByteRule::Any,
        ByteRule::Is(9),
        ByteRule::PhaseV2,
        ByteRule::Is(9),
        ByteRule::Any,
        ByteRule::Any,
        ByteRule::Any,
        ByteRule::Any,
        ByteRule::Is(9),
        ByteRule::Any,
        ByteRule::Is(9),
        ByteRule::Priority,
        ByteRule::Is(9),
        ByteRule::Triggered,
        ByteRule::Is(9),
        ByteRule::Any,
        ByteRule::Any,
        ByteRule::Any,
        ByteRule::Any,
        ByteRule::Is(9),
        ByteRule::Any,
        ByteRule::Any,
        ByteRule::Any,
        ByteRule::Any,
        ByteRule::Is(9),
        ByteRule::Any,
        ByteRule::Any,
        ByteRule::Any,
        ByteRule::Any,
        ByteRule::Is(10),
    ]
}

fn alarm_trap_tail_rules_exec() -> (r: Vec<ByteRule>)
    ensures
        r@ == alarm_trap_tail_rules(),
{
    let r = vec![
        ByteRule::Is(9),
        ByteRule::Any,
        ByteRule::Any,
        ByteRule::Is(9),
        ByteRule::Any,
        ByteRule::Any,
        ByteRule::Is(9),
        ByteRule::PhaseV2,
        ByteRule::Is(9),
        ByteRule::Any,
        ByteRule::Any,
        ByteRule::Any,
        ByteRule::Any,
        ByteRule::Is(9),
        ByteRule::Any,
        ByteRule::Is(9),
        ByteRule::Priority,
        ByteRule::Is(9),
        ByteRule::Triggered,
        ByteRule::Is(9),
        ByteRule::Any,
        ByteRule::Any,
        ByteRule::Any,
        ByteRule::Any,
        ByteRule::Is(9),
        ByteRule::Any,
        ByteRule::Any,
        ByteRule::Any,
        ByteRule::Any,
        ByteRule::Is(9),
        ByteRule::Any,
        ByteRule::Any,
        ByteRule::Any,
        ByteRule::Any,
        ByteRule::Is(10),
    ];
    assert(r@ =~= alarm_trap_tail_rules());
    r
}

/// Scan an alarm trap body
#[verifier::opaque]
pub open spec fn scan_alarm_trap(b: Seq<u8>) -> Scan {
    scan_simple(b, 84, 2, alarm_trap_tail_rules())
}

/// Whether `m` is the an alarm trap that a body holds
#[verifier::opaque]
pub open spec fn alarm_trap_decodes(b: Seq<u8>, m: TelemetryMessage) -> bool {
    let e = envelope_end(b);
    match m {
        TelemetryMessage::AlarmTrap(x) => {
            &&& envelope_fields(b, 2, x.telemetry_version, x.version@, x.device_id@, x.systick)
            &&& x.centile == u16_at(b, e + 1)
            &&& x.pressure == i16_at(b, e + 4)
            &&& phase_v2_of(b[e + 7]) == Some(x.phase)
            &&& x.cycle == u32_at(b, e + 9)
            &&& x.alarm_code == b[e + 14]
            &&& priority_of(b[e + 16]) == Some(x.alarm_priority)
            &&& triggered_of(b[e + 18]) == Some(x.triggered)
            &&& x.expected == u32_at(b, e + 20)
            &&& x.measured == u32_at(b, e + 25)
            &&& x.cycles_since_trigger == u32_at(b, e + 30)
            &&& x.subphase is None
        },
        _ => false,
    }
}

/// Parse an alarm trap body
pub fn alarm_trap(b: &[u8]) -> (r: ParseResult<TelemetryMessage>)
    ensures
        agrees(r, scan_alarm_trap(b@)),
        r matches ParseResult::Done(_, n) ==> n <= b@.len(),
        r matches ParseResult::Done(m, _) ==> alarm_trap_decodes(b@, m),
{
    reveal(scan_alarm_trap);
    reveal(alarm_trap_decodes);
    let tail = alarm_trap_tail_rules_exec();
    let (env, e) = match read_simple(b, 84, 2, tail.as_slice()) {
        Err(s) => {
            return stopped_scan(s);
        },
        Ok(x) => x,
    };
    let end = e + 35;
    proof {
        lemma_fixed_byte(b@, e as int, alarm_trap_tail_rules(), 7);
        lemma_fixed_byte(b@, e as int, alarm_trap_tail_rules(), 16);
        lemma_fixed_byte(b@, e as int, alarm_trap_tail_rules(), 18);
    }
    let x = AlarmTrap {
        telemetry_version: 2,
        version: env.version,
        device_id: env.device_id,
        systick: env.systick,
        centile: read_u16(b, e + 1),
        pressure: read_i16(b, e + 4),
        phase: phase_v2_from(b[e + 7]),
        cycle: read_u32(b, e + 9),
        alarm_code: b[e + 14],
        alarm_priority: priority_from(b[e + 16]),
        triggered: b[e + 18] == 0xf0,
        expected: read_u32(b, e + 20),
        measured: read_u32(b, e + 25),
        cycles_since_trigger: read_u32(b, e + 30),
        subphase: None,
    };
    ParseResult::Done(TelemetryMessage::AlarmTrap(x), end)
}


/// Separator that follows the envelope of a fatal error
pub open spec fn fatal_error_head_rules() -> Seq<ByteRule> {
    seq![ByteRule::Is(9)]
}

/// Fields of a calibration error: five separated i16
pub open spec fn calibration_rules() -> Seq<ByteRule> {
    Seq::new(15, |i: int| if i % 3 == 0 { ByteRule::Is(9) } else { ByteRule::Any })
}

/// A separated u16
pub open spec fn separated_u16_rules() -> Seq<ByteRule> {
    seq![ByteRule::Is(9), ByteRule::Any, ByteRule::Any]
}

/// End of a message body
pub open spec fn end_rules() -> Seq<ByteRule> {
    seq![ByteRule::Is(10)]
}

/// Scan the details of a fatal error that start at `p`: a type byte (1 to 5), then its fields
pub open spec fn scan_fatal_details(b: Seq<u8>, p: int) -> Scan {
    if p >= b.len() {
        Scan::More
    } else if b[p] == 1 || b[p] == 4 {
        Scan::Next((p + 1) as usize)
    } else if b[p] == 2 {
        scan_fixed(b, p + 1, calibration_rules())
    } else if b[p] == 3 || b[p] == 5 {
        scan_fixed(b, p + 1, separated_u16_rules())
    } else {
        Scan::Bad
    }
}

/// An optional flow: `i16::MAX` stands for an absent value
pub open spec fn flow_of(x: i16) -> Option<i16> {
    if x == i16::MAX {
        None
    } else {
        Some(x)
    }
}

/// Details of a fatal error held from position `p`
pub open spec fn fatal_details_of(b: Seq<u8>, p: int) -> FatalErrorDetails {
    if b[p] == 1 {
        FatalErrorDetails::WatchdogRestart
    } else if b[p] == 2 {
        FatalErrorDetails::CalibrationError {
            pressure_offset: i16_at(b, p + 2),
            min_pressure: i16_at(b, p + 5),
            max_pressure: i16_at(b, p + 8),
            flow_at_starting: flow_of(i16_at(b, p + 11)),
            flow_with_blower_on: flow_of(i16_at(b, p + 14)),
        }
    } else if b[p] == 3 {
        FatalErrorDetails::BatteryDeeplyDischarged { battery_level: u16_at(b, p + 2) }
    } else if b[p] == 4 {
        FatalErrorDetails::MassFlowMeterError
    } else {
        FatalErrorDetails::InconsistentPressure { pressure: u16_at(b, p + 2) }
    }
}

/// Scan a fatal error body
#[verifier::opaque]
pub open spec fn scan_fatal_error(b: Seq<u8>) -> Scan {
    match scan_simple(b, 69, 2, fatal_error_head_rules()) {
        Scan::Next(p) => match scan_fatal_details(b, p as int) {
            Scan::Next(q) => scan_fixed(b, q as int, end_rules()),
            o => o,
        },
        o => o,
    }
}

/// Whether `m` is the fatal error that a body holds
#[verifier::opaque]
pub open spec fn fatal_error_decodes(b: Seq<u8>, m: TelemetryMessage) -> bool {
    let e = envelope_end(b);
    match m {
        TelemetryMessage::FatalError(x) => {
            &&& envelope_fields(b, 2, x.telemetry_version, x.version@, x.device_id@, x.systick)
            &&& x.error == fatal_details_of(b, e + 1)
        },
        _ => false,
    }
}

fn flow_from(x: i16) -> (r: Option<i16>)
    ensures
        r == flow_of(x),
{
    if x == i16::MAX {
        None
    } else {
        Some(x)
    }
}

fn end_rules_exec() -> (r: Vec<ByteRule>)
    ensures
        r@ == end_rules(),
{
    let r = vec![ByteRule::Is(10)];
    assert(r@ =~= end_rules());
    r
}

/// Read the details of a fatal error that start at `p`, and where they end
fn fatal_details(b: &[u8], p: usize) -> (r: Result<(FatalErrorDetails, usize), Scan>)
    requires
        p <= b@.len(),
    ensures
        match r {
            Ok((d, q)) => scan_fatal_details(b@, p as int) == Scan::Next(q) && d
                == fatal_details_of(b@, p as int),
            Err(s) => s == scan_fatal_details(b@, p as int) && !(s is Next),
        },
{
    if p >= b.len() {
        return Err(Scan::More);
    }
    let t = b[p];
    if t == 1 {
        Ok((FatalErrorDetails::WatchdogRestart, p + 1))
    } else if t == 4 {
        Ok((FatalErrorDetails::MassFlowMeterError, p + 1))
    } else if t == 2 {
        let rules = vec![
            ByteRule::Is(9),
            ByteRule::Any,
            ByteRule::Any,
            ByteRule::Is(9),
            ByteRule::Any,
            ByteRule::Any,
            ByteRule::Is(9),
            ByteRule::Any,
            ByteRule::Any,
            ByteRule::Is(9),
            ByteRule::Any,
            ByteRule::Any,
            ByteRule::Is(9),
            ByteRule::Any,
            ByteRule::Any,
        ];
        assert(rules@ =~= calibration_rules());
        match scan_fixed_exec(b, p + 1, rules.as_slice()) {
            Scan::Next(q) => {
                let d = FatalErrorDetails::CalibrationError {
                    pressure_offset: read_i16(b, p + 2),
                    min_pressure: read_i16(b, p + 5),
                    max_pressure: read_i16(b, p + 8),
                    flow_at_starting: flow_from(read_i16(b, p + 11)),
                    flow_with_blower_on: flow_from(read_i16(b, p + 14)),
                };
                Ok((d, q))
            },
            s => Err(s),
        }
    } else if t == 3 || t == 5 {
        let rules = vec![ByteRule::Is(9), ByteRule::Any, ByteRule::Any];
        assert(rules@ =~= separated_u16_rules());
        match scan_fixed_exec(b, p + 1, rules.as_slice()) {
            Scan::Next(q) => {
                let x = read_u16(b, p + 2);
                if t == 3 {
                    Ok((FatalErrorDetails::BatteryDeeplyDischarged { battery_level: x }, q))
                } else {
                    Ok((FatalErrorDetails::InconsistentPressure { pressure: x }, q))
                }
            },
            s => Err(s),
        }
    } else {
        Err(Scan::Bad)
    }
}

/// Parse a fatal error body
pub fn fatal_error(b: &[u8]) -> (r: ParseResult<TelemetryMessage>)
    ensures
        agrees(r, scan_fatal_error(b@)),
        r matches ParseResult::Done(_, n) ==> n <= b@.len(),
        r matches ParseResult::Done(m, _) ==> fatal_error_decodes(b@, m),
{
    reveal(scan_fatal_error);
    reveal(fatal_error_decodes);
    let head = vec![ByteRule::Is(9)];
    assert(head@ =~= fatal_error_head_rules());
    let (env, e) = match read_simple(b, 69, 2, head.as_slice()) {
        Err(s) => {
            return stopped_scan(s);
        },
        Ok(x) => x,
    };
    let (error, q) = match fatal_details(b, e + 1) {
        Ok(x) => x,
        Err(s) => {
            return stopped_scan(s);
        },
    };
    let end_rules = end_rules_exec();
    let end = match scan_fixed_exec(b, q, end_rules.as_slice()) {
        Scan::Next(end) => end,
        s => {
            return stopped_scan(s);
        },
    };
    let x = FatalError {
        telemetry_version: 2,
        version: env.version,
        device_id: env.device_id,
        systick: env.systick,
        error,
    };
    ParseResult::Done(TelemetryMessage::FatalError(x), end)
}

/// Step of an end of line test snapshot, between separators
pub open spec fn eol_test_snapshot_head_rules() -> Seq<ByteRule> {
    seq![ByteRule::Is(9), ByteRule::EolStep, ByteRule::Is(9)]
}

/// Scan the content of an end of line test snapshot that starts at `p`: a type byte (0 to 2),
/// a separator, then a length-prefixed text
pub open spec fn scan_eol_content(b: Seq<u8>, p: int) -> Scan {
    if p >= b.len() {
        Scan::More
    } else if b[p] > 2 {
        Scan::Bad
    } else {
        match scan_fixed(b, p + 1, seq![ByteRule::Is(9)]) {
            Scan::Next(q) => scan_bytes(b, q as int),
            o => o,
        }
    }
}

/// Scan an end of line test snapshot body
#[verifier::opaque]
pub open spec fn scan_eol_test_snapshot(b: Seq<u8>) -> Scan {
    match scan_simple(b, 76, 2, eol_test_snapshot_head_rules()) {
        Scan::Next(p) => match scan_eol_content(b, p as int) {
            Scan::Next(q) => scan_fixed(b, q as int, end_rules()),
            o => o,
        },
        o => o,
    }
}

/// Whether `m` is the end of line test snapshot that a body holds
#[verifier::opaque]
pub open spec fn eol_test_snapshot_decodes(b: Seq<u8>, m: TelemetryMessage) -> bool {
    let e = envelope_end(b);
    let text = lossy_text_of(bytes_at(b, e + 5));
    match m {
        TelemetryMessage::EolTestSnapshot(x) => {
            &&& envelope_fields(b, 2, x.telemetry_version, x.version@, x.device_id@, x.systick)
            &&& eol_step_of(b[e + 1]) == Some(x.current_step)
            &&& match x.content {
                EolTestSnapshotContent::InProgress(s) => b[e + 3] == 0 && s@ == text,
                EolTestSnapshotContent::Error(s) => b[e + 3] == 1 && s@ == text,
                EolTestSnapshotContent::Success(s) => b[e + 3] == 2 && s@ == text,
            }
        },
        _ => false,
    }
}

/// Parse an end of line test snapshot body
pub fn eol_test_snapshot(b: &[u8]) -> (r: ParseResult<TelemetryMessage>)
    ensures
        agrees(r, scan_eol_test_snapshot(b@)),
        r matches ParseResult::Done(_, n) ==> n <= b@.len(),
        r matches ParseResult::Done(m, _) ==> eol_test_snapshot_decodes(b@, m),
{
    reveal(scan_eol_test_snapshot);
    reveal(eol_test_snapshot_decodes);
    let head = vec![ByteRule::Is(9), ByteRule::EolStep, ByteRule::Is(9)];
    assert(head@ =~= eol_test_snapshot_head_rules());
    let (env, e) = match read_simple(b, 76, 2, head.as_slice()) {
        Err(s) => {
            return stopped_scan(s);
        },
        Ok(x) => x,
    };
    let p = e + 3;
    if p >= b.len() {
        return ParseResult::Incomplete;
    }
    let kind = b[p];
    if kind > 2 {
        return stopped_scan(Scan::Bad);
    }
    let sep = vec![ByteRule::Is(9)];
    assert(sep@ =~= seq![ByteRule::Is(9)]);
    let a = match scan_fixed_exec(b, p + 1, sep.as_slice()) {
        Scan::Next(a) => a,
        s => {
            return stopped_scan(s);
        },
    };
    let q = match scan_bytes_exec(b, a) {
        Scan::Next(q) => q,
        s => {
            return stopped_scan(s);
        },
    };
    let end_rules = end_rules_exec();
    let end = match scan_fixed_exec(b, q, end_rules.as_slice()) {
        Scan::Next(end) => end,
        s => {
            return stopped_scan(s);
        },
    };
    proof {
        lemma_fixed_byte(b@, e as int, eol_test_snapshot_head_rules(), 1);
    }
    let step = match EolTestStep::try_from_u8(b[e + 1]) {
        Some(s) => s,
        None => EolTestStep::START,
    };
    let text = lossy_text(&b[a + 1..q]);
    assert(b@.subrange(a + 1, q as int) =~= bytes_at(b@, e + 5));
    let content = if kind == 0 {
        EolTestSnapshotContent::InProgress(text)
    } else if kind == 1 {
        EolTestSnapshotContent::Error(text)
    } else {
        EolTestSnapshotContent::Success(text)
    };
    let x = EolTestSnapshot {
        telemetry_version: 2,
        version: env.version,
        device_id: env.device_id,
        systick: env.systick,
        current_step: step,
        content,
    };
    ParseResult::Done(TelemetryMessage::EolTestSnapshot(x), end)
}

/// Scan a message body of protocol v2; its first byte selects the kind of message
pub open spec fn scan_message(b: Seq<u8>) -> Scan {
    if b.len() == 0 {
        Scan::More
    } else if b[0] == 66 {
        scan_boot(b, 2)
    } else if b[0] == 79 {
        scan_stopped(b)
    } else if b[0] == 68 {
        scan_data_snapshot(b)
    } else if b[0] == 83 {
        scan_machine_state_snapshot(b)
    } else if b[0] == 84 {
        scan_alarm_trap(b)
    } else if b[0] == 65 {
        scan_control_ack(b, 2)
    } else if b[0] == 69 {
        scan_fatal_error(b)
    } else if b[0] == 76 {
        scan_eol_test_snapshot(b)
    } else {
        Scan::Bad
    }
}

/// Whether `m` is the protocol v2 message that a body holds
pub open spec fn message_decodes(b: Seq<u8>, m: TelemetryMessage) -> bool {
    if b[0] == 66 {
        boot_decodes(b, 2, m)
    } else if b[0] == 79 {
        stopped_decodes(b, m)
    } else if b[0] == 68 {
        data_snapshot_decodes(b, m)
    } else if b[0] == 83 {
        machine_state_snapshot_decodes(b, m)
    } else if b[0] == 84 {
        alarm_trap_decodes(b, m)
    } else if b[0] == 65 {
        control_ack_decodes(b, 2, m)
    } else if b[0] == 69 {
        fatal_error_decodes(b, m)
    } else {
        eol_test_snapshot_decodes(b, m)
    }
}

/// Transform the bytes of a message body into a structured telemetry message of protocol v2
///
/// * `input` - Bytes to parse: the body only, without header, CRC and footer.
pub fn message(input: &[u8]) -> (r: ParseResult<TelemetryMessage>)
    ensures
        agrees(r, scan_message(input@)),
        r matches ParseResult::Done(_, n) ==> n <= input@.len(),
        r matches ParseResult::Done(m, _) ==> message_decodes(input@, m),
{
    if input.len() == 0 {
        return ParseResult::Incomplete;
    }
    let k = input[0];
    if k == 66 {
        boot(input, 2)
    } else if k == 79 {
        stopped(input)
    } else if k == 68 {
        data_snapshot(input)
    } else if k == 83 {
        machine_state_snapshot(input)
    } else if k == 84 {
        alarm_trap(input)
    } else if k == 65 {
        control_ack(input, 2)
    } else if k == 69 {
        fatal_error(input)
    } else if k == 76 {
        eol_test_snapshot(input)
    } else {
        stopped_scan(Scan::Bad)
    }
}

} // verus!
