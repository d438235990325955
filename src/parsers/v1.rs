use vstd::prelude::*;

use crate::parsers::{
    agrees, boot, boot_decodes, control_ack, control_ack_decodes, copy_array, envelope_end,
    envelope_fields, pressure_from_v1, pressure_v1, read_simple, scan_boot, scan_control_ack,
    scan_simple, stopped_scan, volume_from, volume_of,
};
use crate::structures::{
    AlarmTrap, DataSnapshot, MachineStateSnapshot, ParseResult, StoppedMessage, TelemetryMessage,
    VentilationMode,
};
use crate::wire::{
    bytes_at, lemma_fixed_byte, phase_v1_from, phase_v1_of, priority_from, priority_of, read_u16,
    read_u32, scan_bytes, scan_bytes_exec, scan_fixed, scan_fixed_exec, triggered_of, u16_at,
    u32_at, ByteRule, Scan,
};

verus! {

/// Fixed-size part at the end of a stopped message
pub open spec fn stopped_tail_rules() -> Seq<ByteRule> {
    seq![
        ByteRule::Is(10),
    ]
}

fn stopped_tail_rules_exec() -> (r: Vec<ByteRule>)
    ensures
        r@ == stopped_tail_rules(),
{
    let r = vec![
        ByteRule::Is(10),
    ];
    assert(r@ =~= stopped_tail_rules());
    r
}

/// Scan a stopped message body
#[verifier::opaque]
pub open spec fn scan_stopped(b: Seq<u8>) -> Scan {
    scan_simple(b, 79, 1, stopped_tail_rules())
}

/// Whether `m` is the stopped message that a body holds
#[verifier::opaque]
pub open spec fn stopped_decodes(b: Seq<u8>, m: TelemetryMessage) -> bool {
    let e = envelope_end(b);
    match m {
        TelemetryMessage::StoppedMessage(x) => {
            &&& envelope_fields(b, 1, x.telemetry_version, x.version@, x.device_id@, x.systick)
            &&& x.peak_command is None
            &&& x.plateau_command is None
            &&& x.peep_command is None
            &&& x.cpm_command is None
            &&& x.expiratory_term is None
            &&& x.trigger_enabled is None
            &&& x.trigger_offset is None
            &&& x.alarm_snoozed is None
            &&& x.cpu_load is None
            &&& x.inspiratory_trigger_flow is None
            &&& x.expiratory_trigger_flow is None
            &&& x.ti_min is None
            &&& x.ti_max is None
            &&& x.low_inspiratory_minute_volume_alarm_threshold is None
            &&& x.high_inspiratory_minute_volume_alarm_threshold is None
            &&& x.low_expiratory_minute_volume_alarm_threshold is None
            &&& x.high_expiratory_minute_volume_alarm_threshold is None
            &&& x.low_respiratory_rate_alarm_threshold is None
            &&& x.high_respiratory_rate_alarm_threshold is None
            &&& x.target_tidal_volume is None
            &&& x.low_tidal_volume_alarm_threshold is None
            &&& x.high_tidal_volume_alarm_threshold is None
            &&& x.plateau_duration is None
            &&& x.leak_alarm_threshold is None
            &&& x.target_inspiratory_flow is None
            &&& x.inspiratory_duration_command is None
            &&& x.battery_level is None
            &&& x.current_alarm_codes is None
            &&& x.locale is None
            &&& x.patient_height is None
            &&& x.patient_gender is None
            &&& x.peak_pressure_alarm_threshold is None
            &&& x.ventilation_mode == VentilationMode::PC_AC
        },
        _ => false,
    }
}

/// Parse a stopped message body
pub fn stopped(b: &[u8]) -> (r: ParseResult<TelemetryMessage>)
    ensures
        agrees(r, scan_stopped(b@)),
        r matches ParseResult::Done(_, n) ==> n <= b@.len(),
        r matches ParseResult::Done(m, _) ==> stopped_decodes(b@, m),
{
    reveal(scan_stopped);
    reveal(stopped_decodes);
    let tail = stopped_tail_rules_exec();
    let (env, e) = match read_simple(b, 79, 1, tail.as_slice()) {
        Err(s) => {
            return stopped_scan(s);
        },
        Ok(x) => x,
    };
    let end = e + 1;
    let x = StoppedMessage {
        telemetry_version: 1,
        version: env.version,
        device_id: env.device_id,
        systick: env.systick,
        peak_command: None,
        plateau_command: None,
        peep_command: None,
        cpm_command: None,
        expiratory_term: None,
        trigger_enabled: None,
        trigger_offset: None,
        alarm_snoozed: None,
        cpu_load: None,
        inspiratory_trigger_flow: None,
        expiratory_trigger_flow: None,
        ti_min: None,
        ti_max: None,
        low_inspiratory_minute_volume_alarm_threshold: None,
        high_inspiratory_minute_volume_alarm_threshold: None,
        low_expiratory_minute_volume_alarm_threshold: None,
        high_expiratory_minute_volume_alarm_threshold: None,
        low_respiratory_rate_alarm_threshold: None,
        high_respiratory_rate_alarm_threshold: None,
        target_tidal_volume: None,
        low_tidal_volume_alarm_threshold: None,
        high_tidal_volume_alarm_threshold: None,
        plateau_duration: None,
        leak_alarm_threshold: None,
        target_inspiratory_flow: None,
        inspiratory_duration_command: None,
        battery_level: None,
        current_alarm_codes: None,
        locale: None,
        patient_height: None,
        patient_gender: None,
        peak_pressure_alarm_threshold: None,
        ventilation_mode: VentilationMode::PC_AC,
    };
    ParseResult::Done(TelemetryMessage::StoppedMessage(x), end)
}

/// Fixed-size part at the end of a data snapshot
pub open spec fn data_snapshot_tail_rules() -> Seq<ByteRule> {
    seq![
        ByteRule::Is(9),
        ByteRule::Any,
        ByteRule::Any,
        ByteRule::Is(9),
        ByteRule::Any,
        ByteRule::Any,
        ByteRule::Is(9),
        ByteRule::PhaseV1,
        ByteRule::Is(9),
        ByteRule::Any,
        ByteRule::Is(9),
        ByteRule::Any,
        ByteRule::Is(9),
        ByteRule::Any,
        ByteRule::Is(9),
        ByteRule::Any,
        ByteRule::Is(10),
    ]
}

fn data_snapshot_tail_rules_exec() -> (r: Vec<ByteRule>)
    ensures
        r@ == data_snapshot_tail_rules(),
{
    let r = vec![
        ByteRule::Is(9),
        ByteRule::Any,
        ByteRule::Any,
        ByteRule::Is(9),
        ByteRule::Any,
        ByteRule::Any,
        ByteRule::Is(9),
        ByteRule::PhaseV1,
        ByteRule::Is(9),
        ByteRule::Any,
        ByteRule::Is(9),
        ByteRule::Any,
        ByteRule::Is(9),
        ByteRule::Any,
        ByteRule::Is(9),
        ByteRule::Any,
        ByteRule::Is(10),
    ];
    assert(r@ =~= data_snapshot_tail_rules());
    r
}

/// Scan a data snapshot body
#[verifier::opaque]
pub open spec fn scan_data_snapshot(b: Seq<u8>) -> Scan {
    scan_simple(b, 68, 1, data_snapshot_tail_rules())
}

/// Whether `m` is the data snapshot that a body holds
#[verifier::opaque]
pub open spec fn data_snapshot_decodes(b: Seq<u8>, m: TelemetryMessage) -> bool {
    let e = envelope_end(b);
    match m {
        TelemetryMessage::DataSnapshot(x) => {
            &&& envelope_fields(b, 1, x.telemetry_version, x.version@, x.device_id@, x.systick)
            &&& x.centile == u16_at(b, e + 1)
            &&& x.pressure == pressure_v1(u16_at(b, e + 4))
            &&& x.subphase matches Some(sp) && phase_v1_of(b[e + 7]) == Some((x.phase, sp))
            &&& x.blower_valve_position == b[e + 9]
            &&& x.patient_valve_position == b[e + 11]
            &&& x.blower_rpm == b[e + 13]
            &&& x.battery_level == b[e + 15]
            &&& x.inspiratory_flow is None
            &&& x.expiratory_flow is None
        },
        _ => false,
    }
}

/// Parse a data snapshot body
pub fn data_snapshot(b: &[u8]) -> (r: ParseResult<TelemetryMessage>)
    ensures
        agrees(r, scan_data_snapshot(b@)),
        r matches ParseResult::Done(_, n) ==> n <= b@.len(),
        r matches ParseResult::Done(m, _) ==> data_snapshot_decodes(b@, m),
{
    reveal(scan_data_snapshot);
    reveal(data_snapshot_decodes);
    let tail = data_snapshot_tail_rules_exec();
    let (env, e) = match read_simple(b, 68, 1, tail.as_slice()) {
        Err(s) => {
            return stopped_scan(s);
        },
        Ok(x) => x,
    };
    let end = e + 17;
    proof {
        lemma_fixed_byte(b@, e as int, data_snapshot_tail_rules(), 7);
    }
    let x = DataSnapshot {
        telemetry_version: 1,
        version: env.version,
        device_id: env.device_id,
        systick: env.systick,
        centile: read_u16(b, e + 1),
        pressure: pressure_from_v1(read_u16(b, e + 4)),
        phase: phase_v1_from(b[e + 7]).0,
        subphase: Some(phase_v1_from(b[e + 7]).1),
        blower_valve_position: b[e + 9],
        patient_valve_position: b[e + 11],
        blower_rpm: b[e + 13],
        battery_level: b[e + 15],
        inspiratory_flow: None,
        expiratory_flow: None,
    };
    ParseResult::Done(TelemetryMessage::DataSnapshot(x), end)
}

/// Fixed-size part between the envelope and the alarm codes of a machine state snapshot
pub open spec fn machine_state_snapshot_head_rules() -> Seq<ByteRule> {
    seq![
        ByteRule::Is(9),
        ByteRule::Any,
        ByteRule::Any,
        ByteRule::Any,
        ByteRule::Any,
        ByteRule::Is(9),
        ByteRule::Any,
        ByteRule::Is(9),
        ByteRule::Any,
        ByteRule::Is(9),
        ByteRule::Any,
        ByteRule::Is(9),
        ByteRule::Any,
        ByteRule::Is(9),
        ByteRule::Any,
        ByteRule::Any,
        ByteRule::Is(9),
        ByteRule::Any,
        ByteRule::Any,
        ByteRule::Is(9),
        ByteRule::Any,
        ByteRule::Any,
        ByteRule::Is(9),
    ]
}

fn machine_state_snapshot_head_rules_exec() -> (r: Vec<ByteRule>)
    ensures
        r@ == machine_state_snapshot_head_rules(),
{
    let r = vec![
        ByteRule::Is(9),
        ByteRule::Any,
        ByteRule::Any,
        ByteRule::Any,
        ByteRule::Any,
        ByteRule::Is(9),
        ByteRule::Any,
        ByteRule::Is(9),
        ByteRule::Any,
        ByteRule::Is(9),
        ByteRule::Any,
        ByteRule::Is(9),
        ByteRule::Any,
        ByteRule::Is(9),
        ByteRule::Any,
        ByteRule::Any,
        ByteRule::Is(9),
        ByteRule::Any,
        ByteRule::Any,
        ByteRule::Is(9),
        ByteRule::Any,
        ByteRule::Any,
        ByteRule::Is(9),
    ];
    assert(r@ =~= machine_state_snapshot_head_rules());
    r
}

/// Fixed-size part at the end of a machine state snapshot
pub open spec fn machine_state_snapshot_tail_rules() -> Seq<ByteRule> {
    seq![
        ByteRule::Is(9),
        ByteRule::Any,
        ByteRule::Any,
        ByteRule::Is(9),
        ByteRule::Any,
        ByteRule::Is(9),
        ByteRule::Any,
        ByteRule::Is(9),
        ByteRule::Any,
        ByteRule::Is(10),
    ]
}

fn machine_state_snapshot_tail_rules_exec() -> (r: Vec<ByteRule>)
    ensures
        r@ == machine_state_snapshot_tail_rules(),
{
    let r = vec![
        ByteRule::Is(9),
        ByteRule::Any,
        ByteRule::Any,
        ByteRule::Is(9),
        ByteRule::Any,
        ByteRule::Is(9),
        ByteRule::Any,
        ByteRule::Is(9),
        ByteRule::Any,
        ByteRule::Is(10),
    ];
    assert(r@ =~= machine_state_snapshot_tail_rules());
    r
}

/// Scan a machine state snapshot body
#[verifier::opaque]
pub open spec fn scan_machine_state_snapshot(b: Seq<u8>) -> Scan {
    match scan_simple(b, 83, 1, machine_state_snapshot_head_rules()) {
        Scan::Next(p) => match scan_bytes(b, p as int) {
            Scan::Next(q) => scan_fixed(b, q as int, machine_state_snapshot_tail_rules()),
            o => o,
        },
        o => o,
    }
}

/// Whether `m` is the machine state snapshot that a body holds
#[verifier::opaque]
pub open spec fn machine_state_snapshot_decodes(b: Seq<u8>, m: TelemetryMessage) -> bool {
    let e = envelope_end(b);
    let t = e + 23 + 1 + b[e + 23];
    match m {
        TelemetryMessage::MachineStateSnapshot(x) => {
            &&& envelope_fields(b, 1, x.telemetry_version, x.version@, x.device_id@, x.systick)
            &&& x.cycle == u32_at(b, e + 1)
            &&& x.peak_command == b[e + 6]
            &&& x.plateau_command == b[e + 8]
            &&& x.peep_command == b[e + 10]
            &&& x.cpm_command == b[e + 12]
            &&& x.previous_peak_pressure == u16_at(b, e + 14)
            &&& x.previous_plateau_pressure == u16_at(b, e + 17)
            &&& x.previous_peep_pressure == u16_at(b, e + 20)
            &&& x.current_alarm_codes@ == bytes_at(b, e + 23)
            &&& x.previous_volume == volume_of(u16_at(b, t + 1))
            &&& x.expiratory_term == b[t + 4]
            &&& x.trigger_enabled == (b[t + 6] != 0)
            &&& x.trigger_offset == b[t + 8]
            &&& x.previous_cpm is None
            &&& x.alarm_snoozed is None
            &&& x.cpu_load is None
            &&& x.inspiratory_trigger_flow is None
            &&& x.expiratory_trigger_flow is None
            &&& x.ti_min is None
            &&& x.ti_max is None
            &&& x.low_inspiratory_minute_volume_alarm_threshold is None
            &&& x.high_inspiratory_minute_volume_alarm_threshold is None
            &&& x.low_expiratory_minute_volume_alarm_threshold is None
            &&& x.high_expiratory_minute_volume_alarm_threshold is None
            &&& x.low_respiratory_rate_alarm_threshold is None
            &&& x.high_respiratory_rate_alarm_threshold is None
            &&& x.target_tidal_volume is None
            &&& x.low_tidal_volume_alarm_threshold is None
            &&& x.high_tidal_volume_alarm_threshold is None
            &&& x.plateau_duration is None
            &&& x.leak_alarm_threshold is None
            &&& x.target_inspiratory_flow is None
            &&& x.inspiratory_duration_command is None
            &&& x.previous_inspiratory_duration is None
            &&& x.battery_level is None
            &&& x.locale is None
            &&& x.patient_height is None
            &&& x.patient_gender is None
            &&& x.peak_pressure_alarm_threshold is None
            &&& x.ventilation_mode == VentilationMode::PC_AC
        },
        _ => false,
    }
}

/// Parse a machine state snapshot body
pub fn machine_state_snapshot(b: &[u8]) -> (r: ParseResult<TelemetryMessage>)
    ensures
        agrees(r, scan_machine_state_snapshot(b@)),
        r matches ParseResult::Done(_, n) ==> n <= b@.len(),
        r matches ParseResult::Done(m, _) ==> machine_state_snapshot_decodes(b@, m),
{
    reveal(scan_machine_state_snapshot);
    reveal(machine_state_snapshot_decodes);
    let head = machine_state_snapshot_head_rules_exec();
    let tail = machine_state_snapshot_tail_rules_exec();
    let (env, e) = match read_simple(b, 83, 1, head.as_slice()) {
        Err(s) => {
            return stopped_scan(s);
        },
        Ok(x) => x,
    };
    let a = e + 23;
    let t = match scan_bytes_exec(b, a) {
        Scan::Next(t) => t,
        s => {
            return stopped_scan(s);
        },
    };
    let end = match scan_fixed_exec(b, t, tail.as_slice()) {
        Scan::Next(end) => end,
        s => {
            return stopped_scan(s);
        },
    };
    let codes = copy_array(b, a);
    let x = MachineStateSnapshot {
        telemetry_version: 1,
        version: env.version,
        device_id: env.device_id,
        systick: env.systick,
        cycle: read_u32(b, e + 1),
        peak_command: b[e + 6],
        plateau_command: b[e + 8],
        peep_command: b[e + 10],
        cpm_command: b[e + 12],
        previous_peak_pressure: read_u16(b, e + 14),
        previous_plateau_pressure: read_u16(b, e + 17),
        previous_peep_pressure: read_u16(b, e + 20),
        current_alarm_codes: codes,
        previous_volume: volume_from(read_u16(b, t + 1)),
        expiratory_term: b[t + 4],
        trigger_enabled: b[t + 6] != 0,
        trigger_offset: b[t + 8],
        previous_cpm: None,
        alarm_snoozed: None,
        cpu_load: None,
        inspiratory_trigger_flow: None,
        expiratory_trigger_flow: None,
        ti_min: None,
        ti_max: None,
        low_inspiratory_minute_volume_alarm_threshold: None,
        high_inspiratory_minute_volume_alarm_threshold: None,
        low_expiratory_minute_volume_alarm_threshold: None,
        high_expiratory_minute_volume_alarm_threshold: None,
        low_respiratory_rate_alarm_threshold: None,
        high_respiratory_rate_alarm_threshold: None,
        target_tidal_volume: None,
        low_tidal_volume_alarm_threshold: None,
        high_tidal_volume_alarm_threshold: None,
        plateau_duration: None,
        leak_alarm_threshold: None,
        target_inspiratory_flow: None,
        inspiratory_duration_command: None,
        previous_inspiratory_duration: None,
        battery_level: None,
        locale: None,
        patient_height: None,
        patient_gender: None,
        peak_pressure_alarm_threshold: None,
        ventilation_mode: VentilationMode::PC_AC,
    };
    ParseResult::Done(TelemetryMessage::MachineStateSnapshot(x), end)
}

/// Fixed-size part at the end of an alarm trap
pub open spec fn alarm_trap_tail_rules() -> Seq<ByteRule> {
    seq![
        ByteRule::Is(9),
        ByteRule::Any,
        ByteRule::Any,
        ByteRule::Is(9),
        ByteRule::Any,
        ByteRule::Any,
        ByteRule::Is(9),
        ByteRule::PhaseV1,
        ByteRule::Is(9),
        ByteRule::Any,
        ByteRule::Any,
        ByteRule::Any,
        ByteRule::Any,
        ByteRule::Is(9),
        ByteRule::Any,
        ByteRule::Is(9),
        ByteRule::Priority,
        ByteRule::Is(9),
        ByteRule::Triggered,
        ByteRule::Is(9),
        ByteRule::Any,
        ByteRule::Any,
        ByteRule::Any,
        ByteRule::Any,
        ByteRule::Is(9),
        ByteRule::Any,
        ByteRule::Any,
        ByteRule::Any,
        ByteRule::Any,
        ByteRule::Is(9),
        ByteRule::Any,
        ByteRule::Any,
        ByteRule::Any,
        ByteRule::Any,
        ByteRule::Is(10),
    ]
}

fn alarm_trap_tail_rules_exec() -> (r: Vec<ByteRule>)
    ensures
        r@ == alarm_trap_tail_rules(),
{
    let r = vec![
        ByteRule::Is(9),
        ByteRule::Any,
        ByteRule::Any,
        ByteRule::Is(9),
        ByteRule::Any,
        ByteRule::Any,
        ByteRule::Is(9),
        ByteRule::PhaseV1,
        ByteRule::Is(9),
        ByteRule::Any,
        ByteRule::Any,
        ByteRule::Any,
        ByteRule::Any,
        ByteRule::Is(9),
        ByteRule::Any,
        ByteRule::Is(9),
        ByteRule::Priority,
        ByteRule::Is(9),
        ByteRule::Triggered,
        ByteRule::Is(9),
        ByteRule::Any,
        ByteRule::Any,
        ByteRule::Any,
        ByteRule::Any,
        ByteRule::Is(9),
        ByteRule::Any,
        ByteRule::Any,
        ByteRule::Any,
        ByteRule::Any,
        ByteRule::Is(9),
        ByteRule::Any,
        ByteRule::Any,
        ByteRule::Any,
        ByteRule::Any,
        ByteRule::Is(10),
    ];
    assert(r@ =~= alarm_trap_tail_rules());
    r
}

/// Scan an alarm trap body
#[verifier::opaque]
pub open spec fn scan_alarm_trap(b: Seq<u8>) -> Scan {
    scan_simple(b, 84, 1, alarm_trap_tail_rules())
}

/// Whether `m` is the an alarm trap that a body holds
#[verifier::opaque]
pub open spec fn alarm_trap_decodes(b: Seq<u8>, m: TelemetryMessage) -> bool {
    let e = envelope_end(b);
    match m {
        TelemetryMessage::AlarmTrap(x) => {
            &&& envelope_fields(b, 1, x.telemetry_version, x.version@, x.device_id@, x.systick)
            &&& x.centile == u16_at(b, e + 1)
            &&& x.pressure == pressure_v1(u16_at(b, e + 4))
            &&& x.subphase matches Some(sp) && phase_v1_of(b[e + 7]) == Some((x.phase, sp))
            &&& x.cycle == u32_at(b, e + 9)
            &&& x.alarm_code == b[e + 14]
            &&& priority_of(b[e + 16]) == Some(x.alarm_priority)
            &&& triggered_of(b[e + 18]) == Some(x.triggered)
            &&& x.expected == u32_at(b, e + 20)
            &&& x.measured == u32_at(b, e + 25)
            &&& x.cycles_since_trigger == u32_at(b, e + 30)
        },
        _ => false,
    }
}

/// Parse an alarm trap body
pub fn alarm_trap(b: &[u8]) -> (r: ParseResult<TelemetryMessage>)
    ensures
        agrees(r, scan_alarm_trap(b@)),
        r matches ParseResult::Done(_, n) ==> n <= b@.len(),
        r matches ParseResult::Done(m, _) ==> alarm_trap_decodes(b@, m),
{
    reveal(scan_alarm_trap);
    reveal(alarm_trap_decodes);
    let tail = alarm_trap_tail_rules_exec();
    let (env, e) = match read_simple(b, 84, 1, tail.as_slice()) {
        Err(s) => {
            return stopped_scan(s);
        },
        Ok(x) => x,
    };
    let end = e + 35;
    proof {
        lemma_fixed_byte(b@, e as int, alarm_trap_tail_rules(), 7);
        lemma_fixed_byte(b@, e as int, alarm_trap_tail_rules(), 16);
        lemma_fixed_byte(b@, e as int, alarm_trap_tail_rules(), 18);
    }
    let x = AlarmTrap {
        telemetry_version: 1,
        version: env.version,
        device_id: env.device_id,
        systick: env.systick,
        centile: read_u16(b, e + 1),
        pressure: pressure_from_v1(read_u16(b, e + 4)),
        phase: phase_v1_from(b[e + 7]).0,
        subphase: Some(phase_v1_from(b[e + 7]).1),
        cycle: read_u32(b, e + 9),
        alarm_code: b[e + 14],
        alarm_priority: priority_from(b[e + 16]),
        triggered: b[e + 18] == 0xf0,
        expected: read_u32(b, e + 20),
        measured: read_u32(b, e + 25),
        cycles_since_trigger: read_u32(b, e + 30),
    };
    ParseResult::Done(TelemetryMessage::AlarmTrap(x), end)
}


/// Scan a message body of protocol v1; its first byte selects the kind of message
pub open spec fn scan_message(b: Seq<u8>) -> Scan {
    if b.len() == 0 {
        Scan::More
    } else if b[0] == 66 {
        scan_boot(b, 1)
    } else if b[0] == 79 {
        scan_stopped(b)
    } else if b[0] == 68 {
        scan_data_snapshot(b)
    } else if b[0] == 83 {
        scan_machine_state_snapshot(b)
    } else if b[0] == 84 {
        scan_alarm_trap(b)
    } else if b[0] == 65 {
        scan_control_ack(b, 1)
    } else {
        Scan::Bad
    }
}

/// Whether `m` is the protocol v1 message that a body holds
pub open spec fn message_decodes(b: Seq<u8>, m: TelemetryMessage) -> bool {
    if b[0] == 66 {
        boot_decodes(b, 1, m)
    } else if b[0] == 79 {
        stopped_decodes(b, m)
    } else if b[0] == 68 {
        data_snapshot_decodes(b, m)
    } else if b[0] == 83 {
        machine_state_snapshot_decodes(b, m)
    } else if b[0] == 84 {
        alarm_trap_decodes(b, m)
    } else {
        control_ack_decodes(b, 1, m)
    }
}

/// Transform the bytes of a message body into a structured telemetry message of protocol v1
///
/// * `input` - Bytes to parse: the body only, without header, CRC and footer.
pub fn message(input: &[u8]) -> (r: ParseResult<TelemetryMessage>)
    ensures
        agrees(r, scan_message(input@)),
        r matches ParseResult::Done(_, n) ==> n <= input@.len(),
        r matches ParseResult::Done(m, _) ==> message_decodes(input@, m),
{
    if input.len() == 0 {
        return ParseResult::Incomplete;
    }
    let k = input[0];
    if k == 66 {
        boot(input, 1)
    } else if k == 79 {
        stopped(input)
    } else if k == 68 {
        data_snapshot(input)
    } else if k == 83 {
        machine_state_snapshot(input)
    } else if k == 84 {
        alarm_trap(input)
    } else if k == 65 {
        control_ack(input, 1)
    } else {
        stopped_scan(Scan::Bad)
    }
}

} // verus!
