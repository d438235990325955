use vstd::prelude::*;
use vstd::utf8::*;

use crate::control::setting_code;
use crate::framing::crc32_of;
use crate::locale::{lemma_locale_back, locale_of_text, word_bytes};
use crate::parsers::volume_of;
use crate::structures::ventilation_mode_of;
use crate::text::lossy_text_of;
use crate::parsers::v1;
use crate::parsers::v2;
use crate::parsers::v1::{
    alarm_trap_tail_rules as alarm_trap_v1_rules, data_snapshot_tail_rules as data_snapshot_v1_rules,
    machine_state_snapshot_head_rules as machine_state_snapshot_v1_head_rules,
    machine_state_snapshot_tail_rules as machine_state_snapshot_v1_tail_rules,
    stopped_tail_rules as stopped_v1_rules,
};
use crate::parsers::v2::{
    alarm_trap_tail_rules, data_snapshot_tail_rules, machine_state_snapshot_head_rules,
    machine_state_snapshot_tail_rules, stopped_head_rules, stopped_tail_rules,
};
use crate::parsers::{
    body_decodes, frame_outcome, header_rules, scan_body, trailer_rules, FrameOutcome,
    control_ack_decodes, control_ack_rules, scan_control_ack, boot_decodes, boot_rules, envelope_end, envelope_fields, envelope_tail_rules, prefix_rules,
    scan_boot, scan_envelope,
};
use crate::serializers::{
    stopped_v2_part0_bytes, stopped_v2_part1_bytes, stopped_v2_part2_bytes, stopped_v2_part3_bytes, stopped_v2_part4_bytes, stopped_v2_part5_bytes, stopped_v2_part6_bytes, stopped_v2_part7_bytes, machine_state_snapshot_v2_part0_bytes, machine_state_snapshot_v2_part1_bytes, machine_state_snapshot_v2_part2_bytes, machine_state_snapshot_v2_part3_bytes, machine_state_snapshot_v2_part4_bytes, machine_state_snapshot_v2_part5_bytes, machine_state_snapshot_v2_part6_bytes, machine_state_snapshot_v2_part7_bytes, machine_state_snapshot_v2_part8_bytes, machine_state_snapshot_v2_part9_bytes, lemma_stopped_v2_parts, lemma_machine_state_snapshot_v2_parts,
    frame_bytes, payload_v1, payload_v2, ToBytes, control_ack_body_v1, control_ack_body_v2, eol_content_bytes, eol_test_snapshot_body_v2,
    eol_kind, eol_text, fatal_details_bytes, fatal_error_body_v2, flow_code, alarm_priority_value, alarm_trap_body_v1, alarm_trap_body_v2, bool_byte, boot_body_v1,
    boot_body_v2, codes_or_empty, data_snapshot_body_v1, data_snapshot_body_v2, envelope_bytes,
    gender_or_male, i16_or_zero, locale_code, machine_state_snapshot_body_v1,
    machine_state_snapshot_body_v2, phase_value_v1, phase_value_v2, stopped_body_v1,
    stopped_body_v2, triggered_byte, u16_or_zero, u8_or_zero, volume_code,
};
use crate::structures::{
    TelemetryError, TelemetryErrorKind, eol_step_code, eol_step_of, ControlAck, EolTestSnapshot, EolTestSnapshotContent, FatalError,
    FatalErrorDetails, ventilation_mode_code, AlarmTrap, BootMessage, DataSnapshot, MachineStateSnapshot, Mode,
    StoppedMessage, TelemetryMessage, VentilationMode,
};
use crate::stream::{buffer_after, header_free, lemma_resync, next_buffer};
use crate::text::{canonical_device_id, device_id_text, lemma_split_device_id_text};
use crate::wire::{
    array_bytes, be16, be32, be64, be_i16, bytes_at, lemma_fixed_ok, lemma_i16_back,
    lemma_u16_back, lemma_u32_back, lemma_u64_back, mode_code, mode_of, rule_ok, scan_text, ByteRule,
    scan_fixed, u16_at, u32_at, gender_of, lemma_fixed_shift,
    Scan,
};

verus! {

broadcast use {encode_utf8_valid_utf8, encode_utf8_decode_utf8};

/// What a message needs for its envelope to read back: a firmware version of at most 255 bytes
/// of UTF-8, and a device ID written as three numbers
pub open spec fn envelope_writable(version: Seq<char>, device_id: Seq<char>) -> bool {
    encode_utf8(version).len() <= 255 && canonical_device_id(device_id)
}

/// A body of kind `k` in version `v`, of at most 4096 bytes, starts `b`
pub open spec fn starts_body(b: Seq<u8>, body: Seq<u8>, k: u8, v: u8) -> bool {
    &&& b.len() >= 3
    &&& b[0] == k
    &&& b[1] == 58
    &&& b[2] == v
    &&& body.len() <= 0x1000
}

/// An envelope followed by anything reads back as the envelope's fields
pub proof fn lemma_envelope_round_trip(
    k: u8,
    v: u8,
    version: Seq<char>,
    device_id: Seq<char>,
    systick: u64,
    rest: Seq<u8>,
)
    requires
        envelope_writable(version, device_id),
        rest.len() <= 0x100_0000,
    ensures
        ({
            let env = envelope_bytes(k, v, version, device_id, systick);
            let b = env + rest;
            &&& env.len() == 25 + encode_utf8(version).len()
            &&& b[0] == k && b[1] == 58 && b[2] == v
            &&& scan_envelope(b, k, v) == Scan::Next(env.len() as usize)
            &&& envelope_end(b) == env.len()
            &&& envelope_fields(b, v, v, version, device_id, systick)
        }),
{
    reveal(envelope_bytes);
    reveal(scan_envelope);
    let env = envelope_bytes(k, v, version, device_id, systick);
    let b = env + rest;
    let t = encode_utf8(version);
    let l = t.len() as int;
    let (a0, a1, a2) = choose|a0: u32, a1: u32, a2: u32|
        device_id == #[trigger] device_id_text(a0, a1, a2);
    lemma_split_device_id_text(a0, a1, a2);
    assert(env.len() == 25 + l);
    assert(b[0] == k && b[1] == 58 && b[2] == v && b[3] == l);
    lemma_fixed_ok(b, 0, prefix_rules(k, v));
    assert(bytes_at(b, 3) =~= t);
    assert(scan_text(b, 3) == Scan::Next((4 + l) as usize));
    assert forall|i: int| 0 <= i < 4 implies b[4 + l + i] == #[trigger] be32(a0)[i] by {}
    assert forall|i: int| 0 <= i < 4 implies b[8 + l + i] == #[trigger] be32(a1)[i] by {}
    assert forall|i: int| 0 <= i < 4 implies b[12 + l + i] == #[trigger] be32(a2)[i] by {}
    assert(b[16 + l] == 9);
    assert forall|i: int| 0 <= i < 8 implies b[17 + l + i] == #[trigger] be64(systick)[i] by {}
    assert forall|i: int|
        0 <= i < envelope_tail_rules().len() implies crate::wire::rule_ok(
        #[trigger] envelope_tail_rules()[i],
        b[4 + l + i],
    ) by {}
    lemma_fixed_ok(b, 4 + l, envelope_tail_rules());
    lemma_u32_back(b, 4 + l, a0);
    lemma_u32_back(b, 8 + l, a1);
    lemma_u32_back(b, 12 + l, a2);
    lemma_u64_back(b, 17 + l, systick);
}

/// An envelope at the start of a buffer reads back as the envelope's fields
pub proof fn lemma_envelope_at_start(
    k: u8,
    v: u8,
    version: Seq<char>,
    device_id: Seq<char>,
    systick: u64,
    b: Seq<u8>,
)
    requires
        envelope_writable(version, device_id),
        envelope_bytes(k, v, version, device_id, systick).len() <= b.len(),
        b.len() <= envelope_bytes(k, v, version, device_id, systick).len() + 0x100_0000,
        b.subrange(0, envelope_bytes(k, v, version, device_id, systick).len() as int)
            == envelope_bytes(k, v, version, device_id, systick),
    ensures
        ({
            let env = envelope_bytes(k, v, version, device_id, systick);
            &&& env.len() == 25 + encode_utf8(version).len()
            &&& b[0] == k && b[1] == 58 && b[2] == v
            &&& scan_envelope(b, k, v) == Scan::Next(env.len() as usize)
            &&& envelope_end(b) == env.len()
            &&& envelope_fields(b, v, v, version, device_id, systick)
        }),
{
    let env = envelope_bytes(k, v, version, device_id, systick);
    let rest = b.subrange(env.len() as int, b.len() as int);
    assert(b =~= env + rest);
    lemma_envelope_round_trip(k, v, version, device_id, systick, rest);
}

/// A boot message whose envelope can be written reads back as itself, whatever follows its body
pub proof fn lemma_boot_round_trip(x: BootMessage, v: u8, rest: Seq<u8>)
    requires
        v == 1 || v == 2,
        x.telemetry_version == v,
        envelope_writable(x.version@, x.device_id@),
        rest.len() <= 0x1_0000,
    ensures
        ({
            let body = if v == 1 {
                boot_body_v1(x)
            } else {
                boot_body_v2(x)
            };
            &&& starts_body(body + rest, body, 66, v)
            &&& scan_boot(body + rest, v) == Scan::Next(body.len() as usize)
            &&& boot_decodes(body + rest, v, TelemetryMessage::BootMessage(x))
        }),
{
    reveal(scan_boot);
    reveal(boot_decodes);
    let body = if v == 1 {
        boot_body_v1(x)
    } else {
        boot_body_v2(x)
    };
    let env = envelope_bytes(66, v, x.version@, x.device_id@, x.systick);
    let tail = seq![9u8, mode_code(x.mode), 9u8, x.value128, 10u8];
    assert(body =~= env + tail);
    let b = body + rest;
    assert(b =~= env + (tail + rest));
    lemma_envelope_round_trip(66, v, x.version@, x.device_id@, x.systick, tail + rest);
    let e = env.len() as int;
    assert(e + 5 <= b.len());
    assert(b.len() <= usize::MAX);
    assert(b[e] == 9 && b[e + 1] == mode_code(x.mode) && b[e + 2] == 9 && b[e + 4] == 10);
    assert forall|i: int| 0 <= i < boot_rules().len() implies crate::wire::rule_ok(
        #[trigger] boot_rules()[i],
        b[e + i],
    ) by {}
    lemma_fixed_ok(b, e, boot_rules());
}

/// A data snapshot that can be written in protocol v2 reads back as itself, whatever follows its body
#[verifier::rlimit(100)]
#[verifier::spinoff_prover]
pub proof fn lemma_data_snapshot_v2_round_trip(x: DataSnapshot, rest: Seq<u8>)
    requires
        x.telemetry_version == 2,
        envelope_writable(x.version@, x.device_id@),
        rest.len() <= 0x1_0000,
        x.inspiratory_flow is Some,
        x.expiratory_flow is Some,
        x.subphase is None,
    ensures
        v2::scan_data_snapshot(data_snapshot_body_v2(x) + rest) == Scan::Next(data_snapshot_body_v2(x).len() as usize),
        v2::data_snapshot_decodes(data_snapshot_body_v2(x) + rest, TelemetryMessage::DataSnapshot(x)),
        starts_body(data_snapshot_body_v2(x) + rest, data_snapshot_body_v2(x), 68, 2),
{
    reveal(v2::scan_data_snapshot);
    reveal(v2::data_snapshot_decodes);
    let body = data_snapshot_body_v2(x);
    let env = envelope_bytes(68, 2, x.version@, x.device_id@, x.systick);
    let tail = seq![9u8] + be16(x.centile) + seq![9u8] + be_i16(x.pressure) + seq![9u8] + seq![phase_value_v2(x.phase)] + seq![9u8] + seq![x.blower_valve_position] + seq![9u8] + seq![x.patient_valve_position] + seq![9u8] + seq![x.blower_rpm] + seq![9u8] + seq![x.battery_level] + seq![9u8] + be_i16(i16_or_zero(x.inspiratory_flow)) + seq![9u8] + be_i16(i16_or_zero(x.expiratory_flow)) + seq![10u8];
    assert(body =~= env + tail);
    let b = body + rest;
    assert(b =~= env + (tail + rest));
    lemma_envelope_round_trip(68, 2, x.version@, x.device_id@, x.systick, tail + rest);
    let e = env.len() as int;
    assert forall|i: int| 0 <= i < data_snapshot_tail_rules().len() implies rule_ok(
        #[trigger] data_snapshot_tail_rules()[i],
        b[e + i],
    ) by {}
    lemma_fixed_ok(b, e, data_snapshot_tail_rules());
    lemma_u16_back(b, e + 1, x.centile);
    lemma_i16_back(b, e + 4, x.pressure);
    lemma_i16_back(b, e + 17, i16_or_zero(x.inspiratory_flow));
    lemma_i16_back(b, e + 20, i16_or_zero(x.expiratory_flow));
}

/// An alarm trap that can be written in protocol v2 reads back as itself, whatever follows its body
#[verifier::rlimit(100)]
#[verifier::spinoff_prover]
pub proof fn lemma_alarm_trap_v2_round_trip(x: AlarmTrap, rest: Seq<u8>)
    requires
        x.telemetry_version == 2,
        envelope_writable(x.version@, x.device_id@),
        rest.len() <= 0x1_0000,
        x.subphase is None,
    ensures
        v2::scan_alarm_trap(alarm_trap_body_v2(x) + rest) == Scan::Next(alarm_trap_body_v2(x).len() as usize),
        v2::alarm_trap_decodes(alarm_trap_body_v2(x) + rest, TelemetryMessage::AlarmTrap(x)),
        starts_body(alarm_trap_body_v2(x) + rest, alarm_trap_body_v2(x), 84, 2),
{
    reveal(v2::scan_alarm_trap);
    reveal(v2::alarm_trap_decodes);
    let body = alarm_trap_body_v2(x);
    let env = envelope_bytes(84, 2, x.version@, x.device_id@, x.systick);
    let tail = seq![9u8] + be16(x.centile) + seq![9u8] + be_i16(x.pressure) + seq![9u8] + seq![phase_value_v2(x.phase)] + seq![9u8] + be32(x.cycle) + seq![9u8] + seq![x.alarm_code] + seq![9u8] + seq![alarm_priority_value(x.alarm_priority)] + seq![9u8] + seq![triggered_byte(x.triggered)] + seq![9u8] + be32(x.expected) + seq![9u8] + be32(x.measured) + seq![9u8] + be32(x.cycles_since_trigger) + seq![10u8];
    assert(body =~= env + tail);
    let b = body + rest;
    assert(b =~= env + (tail + rest));
    lemma_envelope_round_trip(84, 2, x.version@, x.device_id@, x.systick, tail + rest);
    let e = env.len() as int;
    assert forall|i: int| 0 <= i < alarm_trap_tail_rules().len() implies rule_ok(
        #[trigger] alarm_trap_tail_rules()[i],
        b[e + i],
    ) by {}
    lemma_fixed_ok(b, e, alarm_trap_tail_rules());
    lemma_u16_back(b, e + 1, x.centile);
    lemma_i16_back(b, e + 4, x.pressure);
    lemma_u32_back(b, e + 9, x.cycle);
    lemma_u32_back(b, e + 20, x.expected);
    lemma_u32_back(b, e + 25, x.measured);
    lemma_u32_back(b, e + 30, x.cycles_since_trigger);
}

/// A stopped message that can be written in protocol v1 reads back as itself, whatever follows its body
#[verifier::rlimit(100)]
#[verifier::spinoff_prover]
pub proof fn lemma_stopped_v1_round_trip(x: StoppedMessage, rest: Seq<u8>)
    requires
        x.telemetry_version == 1,
        envelope_writable(x.version@, x.device_id@),
        rest.len() <= 0x1_0000,
        x.peak_command is None,
        x.plateau_command is None,
        x.peep_command is None,
        x.cpm_command is None,
        x.expiratory_term is None,
        x.trigger_enabled is None,
        x.trigger_offset is None,
        x.alarm_snoozed is None,
        x.cpu_load is None,
        x.inspiratory_trigger_flow is None,
        x.expiratory_trigger_flow is None,
        x.ti_min is None,
        x.ti_max is None,
        x.low_inspiratory_minute_volume_alarm_threshold is None,
        x.high_inspiratory_minute_volume_alarm_threshold is None,
        x.low_expiratory_minute_volume_alarm_threshold is None,
        x.high_expiratory_minute_volume_alarm_threshold is None,
        x.low_respiratory_rate_alarm_threshold is None,
        x.high_respiratory_rate_alarm_threshold is None,
        x.target_tidal_volume is None,
        x.low_tidal_volume_alarm_threshold is None,
        x.high_tidal_volume_alarm_threshold is None,
        x.plateau_duration is None,
        x.leak_alarm_threshold is None,
        x.target_inspiratory_flow is None,
        x.inspiratory_duration_command is None,
        x.battery_level is None,
        x.current_alarm_codes is None,
        x.locale is None,
        x.patient_height is None,
        x.patient_gender is None,
        x.peak_pressure_alarm_threshold is None,
        x.ventilation_mode == VentilationMode::PC_AC,
    ensures
        v1::scan_stopped(stopped_body_v1(x) + rest) == Scan::Next(stopped_body_v1(x).len() as usize),
        v1::stopped_decodes(stopped_body_v1(x) + rest, TelemetryMessage::StoppedMessage(x)),
        starts_body(stopped_body_v1(x) + rest, stopped_body_v1(x), 79, 1),
{
    reveal(v1::scan_stopped);
    reveal(v1::stopped_decodes);
    let body = stopped_body_v1(x);
    let env = envelope_bytes(79, 1, x.version@, x.device_id@, x.systick);
    let tail = seq![10u8];
    assert(body =~= env + tail);
    let b = body + rest;
    assert(b =~= env + (tail + rest));
    lemma_envelope_round_trip(79, 1, x.version@, x.device_id@, x.systick, tail + rest);
    let e = env.len() as int;
    assert forall|i: int| 0 <= i < stopped_v1_rules().len() implies rule_ok(
        #[trigger] stopped_v1_rules()[i],
        b[e + i],
    ) by {}
    lemma_fixed_ok(b, e, stopped_v1_rules());
}

/// A data snapshot that can be written in protocol v1 reads back as itself, whatever follows its body
#[verifier::rlimit(100)]
#[verifier::spinoff_prover]
pub proof fn lemma_data_snapshot_v1_round_trip(x: DataSnapshot, rest: Seq<u8>)
    requires
        x.telemetry_version == 1,
        envelope_writable(x.version@, x.device_id@),
        rest.len() <= 0x1_0000,
        x.pressure >= 0,
        x.subphase is Some && phase_value_v1(x.phase, x.subphase) != 0,
        x.inspiratory_flow is None,
        x.expiratory_flow is None,
    ensures
        v1::scan_data_snapshot(data_snapshot_body_v1(x) + rest) == Scan::Next(data_snapshot_body_v1(x).len() as usize),
        v1::data_snapshot_decodes(data_snapshot_body_v1(x) + rest, TelemetryMessage::DataSnapshot(x)),
        starts_body(data_snapshot_body_v1(x) + rest, data_snapshot_body_v1(x), 68, 1),
{
    reveal(v1::scan_data_snapshot);
    reveal(v1::data_snapshot_decodes);
    let body = data_snapshot_body_v1(x);
    let env = envelope_bytes(68, 1, x.version@, x.device_id@, x.systick);
    let tail = seq![9u8] + be16(x.centile) + seq![9u8] + be_i16(x.pressure) + seq![9u8] + seq![phase_value_v1(x.phase, x.subphase)] + seq![9u8] + seq![x.blower_valve_position] + seq![9u8] + seq![x.patient_valve_position] + seq![9u8] + seq![x.blower_rpm] + seq![9u8] + seq![x.battery_level] + seq![10u8];
    assert(body =~= env + tail);
    let b = body + rest;
    assert(b =~= env + (tail + rest));
    lemma_envelope_round_trip(68, 1, x.version@, x.device_id@, x.systick, tail + rest);
    let e = env.len() as int;
    assert forall|i: int| 0 <= i < data_snapshot_v1_rules().len() implies rule_ok(
        #[trigger] data_snapshot_v1_rules()[i],
        b[e + i],
    ) by {}
    lemma_fixed_ok(b, e, data_snapshot_v1_rules());
    lemma_u16_back(b, e + 1, x.centile);
    lemma_i16_back(b, e + 4, x.pressure);
}

/// An alarm trap that can be written in protocol v1 reads back as itself, whatever follows its body
#[verifier::rlimit(100)]
#[verifier::spinoff_prover]
pub proof fn lemma_alarm_trap_v1_round_trip(x: AlarmTrap, rest: Seq<u8>)
    requires
        x.telemetry_version == 1,
        envelope_writable(x.version@, x.device_id@),
        rest.len() <= 0x1_0000,
        x.pressure >= 0,
        x.subphase is Some && phase_value_v1(x.phase, x.subphase) != 0,
    ensures
        v1::scan_alarm_trap(alarm_trap_body_v1(x) + rest) == Scan::Next(alarm_trap_body_v1(x).len() as usize),
        v1::alarm_trap_decodes(alarm_trap_body_v1(x) + rest, TelemetryMessage::AlarmTrap(x)),
        starts_body(alarm_trap_body_v1(x) + rest, alarm_trap_body_v1(x), 84, 1),
{
    reveal(v1::scan_alarm_trap);
    reveal(v1::alarm_trap_decodes);
    let body = alarm_trap_body_v1(x);
    let env = envelope_bytes(84, 1, x.version@, x.device_id@, x.systick);
    let tail = seq![9u8] + be16(x.centile) + seq![9u8] + be_i16(x.pressure) + seq![9u8] + seq![phase_value_v1(x.phase, x.subphase)] + seq![9u8] + be32(x.cycle) + seq![9u8] + seq![x.alarm_code] + seq![9u8] + seq![alarm_priority_value(x.alarm_priority)] + seq![9u8] + seq![triggered_byte(x.triggered)] + seq![9u8] + be32(x.expected) + seq![9u8] + be32(x.measured) + seq![9u8] + be32(x.cycles_since_trigger) + seq![10u8];
    assert(body =~= env + tail);
    let b = body + rest;
    assert(b =~= env + (tail + rest));
    lemma_envelope_round_trip(84, 1, x.version@, x.device_id@, x.systick, tail + rest);
    let e = env.len() as int;
    assert forall|i: int| 0 <= i < alarm_trap_v1_rules().len() implies rule_ok(
        #[trigger] alarm_trap_v1_rules()[i],
        b[e + i],
    ) by {}
    lemma_fixed_ok(b, e, alarm_trap_v1_rules());
    lemma_u16_back(b, e + 1, x.centile);
    lemma_i16_back(b, e + 4, x.pressure);
    lemma_u32_back(b, e + 9, x.cycle);
    lemma_u32_back(b, e + 20, x.expected);
    lemma_u32_back(b, e + 25, x.measured);
    lemma_u32_back(b, e + 30, x.cycles_since_trigger);
}

#[verifier::rlimit(100)]
#[verifier::spinoff_prover]
proof fn lemma_machine_state_snapshot_v1_head_scan(x: MachineStateSnapshot, rest: Seq<u8>)
    requires
        x.telemetry_version == 1,
        envelope_writable(x.version@, x.device_id@),
        rest.len() <= 0x1_0000,
        x.previous_volume != Some(0xffffu16),
        x.current_alarm_codes.len() <= 255,
        x.previous_cpm is None,
        x.alarm_snoozed is None,
        x.cpu_load is None,
        x.inspiratory_trigger_flow is None,
        x.expiratory_trigger_flow is None,
        x.ti_min is None,
        x.ti_max is None,
        x.low_inspiratory_minute_volume_alarm_threshold is None,
        x.high_inspiratory_minute_volume_alarm_threshold is None,
        x.low_expiratory_minute_volume_alarm_threshold is None,
        x.high_expiratory_minute_volume_alarm_threshold is None,
        x.low_respiratory_rate_alarm_threshold is None,
        x.high_respiratory_rate_alarm_threshold is None,
        x.target_tidal_volume is None,
        x.low_tidal_volume_alarm_threshold is None,
        x.high_tidal_volume_alarm_threshold is None,
        x.plateau_duration is None,
        x.leak_alarm_threshold is None,
        x.target_inspiratory_flow is None,
        x.inspiratory_duration_command is None,
        x.previous_inspiratory_duration is None,
        x.battery_level is None,
        x.locale is None,
        x.patient_height is None,
        x.patient_gender is None,
        x.peak_pressure_alarm_threshold is None,
        x.ventilation_mode == VentilationMode::PC_AC,
    ensures
        ({
            let b = machine_state_snapshot_body_v1(x) + rest;
            let e = envelope_bytes(83, 1, x.version@, x.device_id@, x.systick).len() as int;
            let t = e + 23 + 1 + x.current_alarm_codes@.len();
            &&& scan_fixed(b, e, machine_state_snapshot_v1_head_rules()) == Scan::Next((e + 23) as usize)
        }),
{
    let body = machine_state_snapshot_body_v1(x);
    let env = envelope_bytes(83, 1, x.version@, x.device_id@, x.systick);
    let head = seq![9u8] + be32(x.cycle) + seq![9u8] + seq![x.peak_command] + seq![9u8] + seq![x.plateau_command] + seq![9u8] + seq![x.peep_command] + seq![9u8] + seq![x.cpm_command] + seq![9u8] + be16(x.previous_peak_pressure) + seq![9u8] + be16(x.previous_plateau_pressure) + seq![9u8] + be16(x.previous_peep_pressure) + seq![9u8];
    let arr = array_bytes(x.current_alarm_codes@);
    let tail = seq![9u8] + be16(volume_code(x.previous_volume)) + seq![9u8] + seq![x.expiratory_term] + seq![9u8] + seq![bool_byte(x.trigger_enabled)] + seq![9u8] + seq![x.trigger_offset] + seq![10u8];
    assert(body =~= env + head + arr + tail);
    let b = body + rest;
    let s2 = tail + rest;
    let s1 = head + (arr + s2);
    assert(b =~= env + s1);
    lemma_envelope_round_trip(83, 1, x.version@, x.device_id@, x.systick, s1);
    let e = env.len() as int;
    assert(b.subrange(e, b.len() as int) =~= s1);
    assert forall|i: int| 0 <= i < machine_state_snapshot_v1_head_rules().len() implies rule_ok(
        #[trigger] machine_state_snapshot_v1_head_rules()[i],
        s1[i],
    ) by {}
    lemma_fixed_shift(b, e, machine_state_snapshot_v1_head_rules(), s1);
}

#[verifier::rlimit(100)]
#[verifier::spinoff_prover]
proof fn lemma_machine_state_snapshot_v1_head(x: MachineStateSnapshot, rest: Seq<u8>)
    requires
        x.telemetry_version == 1,
        envelope_writable(x.version@, x.device_id@),
        rest.len() <= 0x1_0000,
        x.previous_volume != Some(0xffffu16),
        x.current_alarm_codes.len() <= 255,
        x.previous_cpm is None,
        x.alarm_snoozed is None,
        x.cpu_load is None,
        x.inspiratory_trigger_flow is None,
        x.expiratory_trigger_flow is None,
        x.ti_min is None,
        x.ti_max is None,
        x.low_inspiratory_minute_volume_alarm_threshold is None,
        x.high_inspiratory_minute_volume_alarm_threshold is None,
        x.low_expiratory_minute_volume_alarm_threshold is None,
        x.high_expiratory_minute_volume_alarm_threshold is None,
        x.low_respiratory_rate_alarm_threshold is None,
        x.high_respiratory_rate_alarm_threshold is None,
        x.target_tidal_volume is None,
        x.low_tidal_volume_alarm_threshold is None,
        x.high_tidal_volume_alarm_threshold is None,
        x.plateau_duration is None,
        x.leak_alarm_threshold is None,
        x.target_inspiratory_flow is None,
        x.inspiratory_duration_command is None,
        x.previous_inspiratory_duration is None,
        x.battery_level is None,
        x.locale is None,
        x.patient_height is None,
        x.patient_gender is None,
        x.peak_pressure_alarm_threshold is None,
        x.ventilation_mode == VentilationMode::PC_AC,
    ensures
        ({
            let b = machine_state_snapshot_body_v1(x) + rest;
            let e = envelope_bytes(83, 1, x.version@, x.device_id@, x.systick).len() as int;
            let t = e + 23 + 1 + x.current_alarm_codes@.len();
            &&& scan_fixed(b, e, machine_state_snapshot_v1_head_rules()) == Scan::Next((e + 23) as usize)
            &&& x.cycle == u32_at(b, e + 1)
            &&& x.peak_command == b[e + 6]
            &&& x.plateau_command == b[e + 8]
            &&& x.peep_command == b[e + 10]
            &&& x.cpm_command == b[e + 12]
            &&& x.previous_peak_pressure == u16_at(b, e + 14)
            &&& x.previous_plateau_pressure == u16_at(b, e + 17)
            &&& x.previous_peep_pressure == u16_at(b, e + 20)
        }),
{
    lemma_machine_state_snapshot_v1_head_scan(x, rest);
    let body = machine_state_snapshot_body_v1(x);
    let env = envelope_bytes(83, 1, x.version@, x.device_id@, x.systick);
    let head = seq![9u8] + be32(x.cycle) + seq![9u8] + seq![x.peak_command] + seq![9u8] + seq![x.plateau_command] + seq![9u8] + seq![x.peep_command] + seq![9u8] + seq![x.cpm_command] + seq![9u8] + be16(x.previous_peak_pressure) + seq![9u8] + be16(x.previous_plateau_pressure) + seq![9u8] + be16(x.previous_peep_pressure) + seq![9u8];
    let arr = array_bytes(x.current_alarm_codes@);
    let tail = seq![9u8] + be16(volume_code(x.previous_volume)) + seq![9u8] + seq![x.expiratory_term] + seq![9u8] + seq![bool_byte(x.trigger_enabled)] + seq![9u8] + seq![x.trigger_offset] + seq![10u8];
    assert(body =~= env + head + arr + tail);
    let b = body + rest;
    let s2 = tail + rest;
    let s1 = head + (arr + s2);
    assert(b =~= env + s1);
    lemma_envelope_round_trip(83, 1, x.version@, x.device_id@, x.systick, s1);
    let e = env.len() as int;
    lemma_u32_back(b, e + 1, x.cycle);
    lemma_u16_back(b, e + 14, x.previous_peak_pressure);
    lemma_u16_back(b, e + 17, x.previous_plateau_pressure);
    lemma_u16_back(b, e + 20, x.previous_peep_pressure);
}

#[verifier::rlimit(100)]
#[verifier::spinoff_prover]
proof fn lemma_machine_state_snapshot_v1_tail(x: MachineStateSnapshot, rest: Seq<u8>)
    requires
        x.telemetry_version == 1,
        envelope_writable(x.version@, x.device_id@),
        rest.len() <= 0x1_0000,
        x.previous_volume != Some(0xffffu16),
        x.current_alarm_codes.len() <= 255,
        x.previous_cpm is None,
        x.alarm_snoozed is None,
        x.cpu_load is None,
        x.inspiratory_trigger_flow is None,
        x.expiratory_trigger_flow is None,
        x.ti_min is None,
        x.ti_max is None,
        x.low_inspiratory_minute_volume_alarm_threshold is None,
        x.high_inspiratory_minute_volume_alarm_threshold is None,
        x.low_expiratory_minute_volume_alarm_threshold is None,
        x.high_expiratory_minute_volume_alarm_threshold is None,
        x.low_respiratory_rate_alarm_threshold is None,
        x.high_respiratory_rate_alarm_threshold is None,
        x.target_tidal_volume is None,
        x.low_tidal_volume_alarm_threshold is None,
        x.high_tidal_volume_alarm_threshold is None,
        x.plateau_duration is None,
        x.leak_alarm_threshold is None,
        x.target_inspiratory_flow is None,
        x.inspiratory_duration_command is None,
        x.previous_inspiratory_duration is None,
        x.battery_level is None,
        x.locale is None,
        x.patient_height is None,
        x.patient_gender is None,
        x.peak_pressure_alarm_threshold is None,
        x.ventilation_mode == VentilationMode::PC_AC,
    ensures
        ({
            let b = machine_state_snapshot_body_v1(x) + rest;
            let e = envelope_bytes(83, 1, x.version@, x.device_id@, x.systick).len() as int;
            let t = e + 23 + 1 + x.current_alarm_codes@.len();
            &&& b[e + 23] == x.current_alarm_codes@.len()
            &&& crate::wire::bytes_at(b, e + 23) == x.current_alarm_codes@
            &&& scan_fixed(b, t, machine_state_snapshot_v1_tail_rules()) == Scan::Next((t + 10) as usize)
            &&& x.previous_volume == volume_of(u16_at(b, t + 1))
            &&& x.expiratory_term == b[t + 4]
            &&& x.trigger_enabled == (b[t + 6] != 0)
            &&& x.trigger_offset == b[t + 8]
        }),
{
    let body = machine_state_snapshot_body_v1(x);
    let env = envelope_bytes(83, 1, x.version@, x.device_id@, x.systick);
    let head = seq![9u8] + be32(x.cycle) + seq![9u8] + seq![x.peak_command] + seq![9u8] + seq![x.plateau_command] + seq![9u8] + seq![x.peep_command] + seq![9u8] + seq![x.cpm_command] + seq![9u8] + be16(x.previous_peak_pressure) + seq![9u8] + be16(x.previous_plateau_pressure) + seq![9u8] + be16(x.previous_peep_pressure) + seq![9u8];
    let arr = array_bytes(x.current_alarm_codes@);
    let tail = seq![9u8] + be16(volume_code(x.previous_volume)) + seq![9u8] + seq![x.expiratory_term] + seq![9u8] + seq![bool_byte(x.trigger_enabled)] + seq![9u8] + seq![x.trigger_offset] + seq![10u8];
    assert(body =~= env + head + arr + tail);
    let b = body + rest;
    let s2 = tail + rest;
    let s1 = head + (arr + s2);
    assert(b =~= env + s1);
    lemma_envelope_round_trip(83, 1, x.version@, x.device_id@, x.systick, s1);
    let e = env.len() as int;
    let a = e + 23;
    let t = a + 1 + x.current_alarm_codes@.len();
    assert(b[a] == x.current_alarm_codes@.len());
    assert(crate::wire::bytes_at(b, a) =~= x.current_alarm_codes@);
    assert(b.subrange(t, b.len() as int) =~= s2);
    assert forall|i: int| 0 <= i < machine_state_snapshot_v1_tail_rules().len() implies rule_ok(
        #[trigger] machine_state_snapshot_v1_tail_rules()[i],
        s2[i],
    ) by {}
    lemma_fixed_shift(b, t, machine_state_snapshot_v1_tail_rules(), s2);
    lemma_u16_back(b, t + 1, volume_code(x.previous_volume));
}

/// A machine state snapshot that can be written in protocol v1 reads back as itself, whatever follows its body
#[verifier::rlimit(100)]
pub proof fn lemma_machine_state_snapshot_v1_round_trip(x: MachineStateSnapshot, rest: Seq<u8>)
    requires
        x.telemetry_version == 1,
        envelope_writable(x.version@, x.device_id@),
        rest.len() <= 0x1_0000,
        x.previous_volume != Some(0xffffu16),
        x.current_alarm_codes.len() <= 255,
        x.previous_cpm is None,
        x.alarm_snoozed is None,
        x.cpu_load is None,
        x.inspiratory_trigger_flow is None,
        x.expiratory_trigger_flow is None,
        x.ti_min is None,
        x.ti_max is None,
        x.low_inspiratory_minute_volume_alarm_threshold is None,
        x.high_inspiratory_minute_volume_alarm_threshold is None,
        x.low_expiratory_minute_volume_alarm_threshold is None,
        x.high_expiratory_minute_volume_alarm_threshold is None,
        x.low_respiratory_rate_alarm_threshold is None,
        x.high_respiratory_rate_alarm_threshold is None,
        x.target_tidal_volume is None,
        x.low_tidal_volume_alarm_threshold is None,
        x.high_tidal_volume_alarm_threshold is None,
        x.plateau_duration is None,
        x.leak_alarm_threshold is None,
        x.target_inspiratory_flow is None,
        x.inspiratory_duration_command is None,
        x.previous_inspiratory_duration is None,
        x.battery_level is None,
        x.locale is None,
        x.patient_height is None,
        x.patient_gender is None,
        x.peak_pressure_alarm_threshold is None,
        x.ventilation_mode == VentilationMode::PC_AC,
    ensures
        starts_body(machine_state_snapshot_body_v1(x) + rest, machine_state_snapshot_body_v1(x), 83, 1),
        v1::scan_machine_state_snapshot(machine_state_snapshot_body_v1(x) + rest) == Scan::Next(machine_state_snapshot_body_v1(x).len() as usize),
        v1::machine_state_snapshot_decodes(machine_state_snapshot_body_v1(x) + rest, TelemetryMessage::MachineStateSnapshot(x)),
{
    reveal(v1::scan_machine_state_snapshot);
    reveal(v1::machine_state_snapshot_decodes);
    let body = machine_state_snapshot_body_v1(x);
    let env = envelope_bytes(83, 1, x.version@, x.device_id@, x.systick);
    let head = seq![9u8] + be32(x.cycle) + seq![9u8] + seq![x.peak_command] + seq![9u8] + seq![x.plateau_command] + seq![9u8] + seq![x.peep_command] + seq![9u8] + seq![x.cpm_command] + seq![9u8] + be16(x.previous_peak_pressure) + seq![9u8] + be16(x.previous_plateau_pressure) + seq![9u8] + be16(x.previous_peep_pressure) + seq![9u8];
    let arr = array_bytes(x.current_alarm_codes@);
    let tail = seq![9u8] + be16(volume_code(x.previous_volume)) + seq![9u8] + seq![x.expiratory_term] + seq![9u8] + seq![bool_byte(x.trigger_enabled)] + seq![9u8] + seq![x.trigger_offset] + seq![10u8];
    assert(body =~= env + head + arr + tail);
    let b = body + rest;
    let s2 = tail + rest;
    let s1 = head + (arr + s2);
    assert(b =~= env + s1);
    lemma_envelope_round_trip(83, 1, x.version@, x.device_id@, x.systick, s1);
    let e = env.len() as int;
    lemma_machine_state_snapshot_v1_head(x, rest);
    lemma_machine_state_snapshot_v1_tail(x, rest);
}


#[verifier::rlimit(100)]
#[verifier::spinoff_prover]
proof fn lemma_machine_state_snapshot_v2_head_scan(x: MachineStateSnapshot, rest: Seq<u8>)
    requires
        x.telemetry_version == 2,
        envelope_writable(x.version@, x.device_id@),
        rest.len() <= 0x1_0000,
        x.previous_volume != Some(0xffffu16),
        x.previous_cpm is Some,
        x.alarm_snoozed is Some,
        x.cpu_load is Some,
        x.inspiratory_trigger_flow is Some,
        x.expiratory_trigger_flow is Some,
        x.ti_min is Some,
        x.ti_max is Some,
        x.low_inspiratory_minute_volume_alarm_threshold is Some,
        x.high_inspiratory_minute_volume_alarm_threshold is Some,
        x.low_expiratory_minute_volume_alarm_threshold is Some,
        x.high_expiratory_minute_volume_alarm_threshold is Some,
        x.low_respiratory_rate_alarm_threshold is Some,
        x.high_respiratory_rate_alarm_threshold is Some,
        x.target_tidal_volume is Some,
        x.low_tidal_volume_alarm_threshold is Some,
        x.high_tidal_volume_alarm_threshold is Some,
        x.plateau_duration is Some,
        x.leak_alarm_threshold is Some,
        x.target_inspiratory_flow is Some,
        x.inspiratory_duration_command is Some,
        x.previous_inspiratory_duration is Some,
        x.battery_level is Some,
        x.locale matches Some(l) && valid_utf8(word_bytes(l.0)),
        x.patient_height is Some,
        x.patient_gender is Some,
        x.peak_pressure_alarm_threshold is Some,
        x.current_alarm_codes.len() <= 255,
    ensures
        ({
            let b = machine_state_snapshot_body_v2(x) + rest;
            let e = envelope_bytes(83, 2, x.version@, x.device_id@, x.systick).len() as int;
            let t = e + 23 + 1 + x.current_alarm_codes@.len();
            &&& scan_fixed(b, e, machine_state_snapshot_head_rules()) == Scan::Next((e + 23) as usize)
        }),
{
    let body = machine_state_snapshot_body_v2(x);
    let env = envelope_bytes(83, 2, x.version@, x.device_id@, x.systick);
    lemma_machine_state_snapshot_v2_parts(x);
    let head = machine_state_snapshot_v2_part0_bytes(x) + machine_state_snapshot_v2_part1_bytes(x);
    let arr = array_bytes(x.current_alarm_codes@);
    let tail = machine_state_snapshot_v2_part2_bytes(x) + machine_state_snapshot_v2_part3_bytes(x) + machine_state_snapshot_v2_part4_bytes(x) + machine_state_snapshot_v2_part5_bytes(x) + machine_state_snapshot_v2_part6_bytes(x) + machine_state_snapshot_v2_part7_bytes(x) + machine_state_snapshot_v2_part8_bytes(x) + machine_state_snapshot_v2_part9_bytes(x);
    assert(body =~= env + head + arr + tail);
    let b = body + rest;
    let s2 = tail + rest;
    let s1 = head + (arr + s2);
    assert(b =~= env + s1);
    lemma_envelope_round_trip(83, 2, x.version@, x.device_id@, x.systick, s1);
    let e = env.len() as int;
    assert(b.subrange(e, b.len() as int) =~= s1);
    assert forall|i: int| 0 <= i < machine_state_snapshot_head_rules().len() implies rule_ok(
        #[trigger] machine_state_snapshot_head_rules()[i],
        s1[i],
    ) by {}
    lemma_fixed_shift(b, e, machine_state_snapshot_head_rules(), s1);
}

#[verifier::rlimit(100)]
#[verifier::spinoff_prover]
proof fn lemma_machine_state_snapshot_v2_head(x: MachineStateSnapshot, rest: Seq<u8>)
    requires
        x.telemetry_version == 2,
        envelope_writable(x.version@, x.device_id@),
        rest.len() <= 0x1_0000,
        x.previous_volume != Some(0xffffu16),
        x.previous_cpm is Some,
        x.alarm_snoozed is Some,
        x.cpu_load is Some,
        x.inspiratory_trigger_flow is Some,
        x.expiratory_trigger_flow is Some,
        x.ti_min is Some,
        x.ti_max is Some,
        x.low_inspiratory_minute_volume_alarm_threshold is Some,
        x.high_inspiratory_minute_volume_alarm_threshold is Some,
        x.low_expiratory_minute_volume_alarm_threshold is Some,
        x.high_expiratory_minute_volume_alarm_threshold is Some,
        x.low_respiratory_rate_alarm_threshold is Some,
        x.high_respiratory_rate_alarm_threshold is Some,
        x.target_tidal_volume is Some,
        x.low_tidal_volume_alarm_threshold is Some,
        x.high_tidal_volume_alarm_threshold is Some,
        x.plateau_duration is Some,
        x.leak_alarm_threshold is Some,
        x.target_inspiratory_flow is Some,
        x.inspiratory_duration_command is Some,
        x.previous_inspiratory_duration is Some,
        x.battery_level is Some,
        x.locale matches Some(l) && valid_utf8(word_bytes(l.0)),
        x.patient_height is Some,
        x.patient_gender is Some,
        x.peak_pressure_alarm_threshold is Some,
        x.current_alarm_codes.len() <= 255,
    ensures
        ({
            let b = machine_state_snapshot_body_v2(x) + rest;
            let e = envelope_bytes(83, 2, x.version@, x.device_id@, x.systick).len() as int;
            let t = e + 23 + 1 + x.current_alarm_codes@.len();
            &&& envelope_end(b) == e
            &&& envelope_fields(b, 2, 2, x.version@, x.device_id@, x.systick)
            &&& scan_fixed(b, e, machine_state_snapshot_head_rules()) == Scan::Next((e + 23) as usize)
            &&& x.cycle == u32_at(b, e + 1)
            &&& x.peak_command == b[e + 6]
            &&& x.plateau_command == b[e + 8]
            &&& x.peep_command == b[e + 10]
            &&& x.cpm_command == b[e + 12]
            &&& x.previous_peak_pressure == u16_at(b, e + 14)
            &&& x.previous_plateau_pressure == u16_at(b, e + 17)
            &&& x.previous_peep_pressure == u16_at(b, e + 20)
        }),
{
    lemma_machine_state_snapshot_v2_head_scan(x, rest);
    let body = machine_state_snapshot_body_v2(x);
    let env = envelope_bytes(83, 2, x.version@, x.device_id@, x.systick);
    lemma_machine_state_snapshot_v2_parts(x);
    let head = machine_state_snapshot_v2_part0_bytes(x) + machine_state_snapshot_v2_part1_bytes(x);
    let arr = array_bytes(x.current_alarm_codes@);
    let tail = machine_state_snapshot_v2_part2_bytes(x) + machine_state_snapshot_v2_part3_bytes(x) + machine_state_snapshot_v2_part4_bytes(x) + machine_state_snapshot_v2_part5_bytes(x) + machine_state_snapshot_v2_part6_bytes(x) + machine_state_snapshot_v2_part7_bytes(x) + machine_state_snapshot_v2_part8_bytes(x) + machine_state_snapshot_v2_part9_bytes(x);
    assert(body =~= env + head + arr + tail);
    let b = body + rest;
    let s2 = tail + rest;
    let s1 = head + (arr + s2);
    assert(b =~= env + s1);
    lemma_envelope_round_trip(83, 2, x.version@, x.device_id@, x.systick, s1);
    let e = env.len() as int;
    lemma_u32_back(b, e + 1, x.cycle);
    lemma_u16_back(b, e + 14, x.previous_peak_pressure);
    lemma_u16_back(b, e + 17, x.previous_plateau_pressure);
    lemma_u16_back(b, e + 20, x.previous_peep_pressure);
}

/// Bytes after the alarm codes of a machine state snapshot in protocol v2, followed by `rest`
pub open spec fn machine_state_snapshot_v2_after_codes(x: MachineStateSnapshot, rest: Seq<u8>) -> Seq<u8> {
    machine_state_snapshot_v2_part2_bytes(x) + machine_state_snapshot_v2_part3_bytes(x) + machine_state_snapshot_v2_part4_bytes(x) + machine_state_snapshot_v2_part5_bytes(x) + machine_state_snapshot_v2_part6_bytes(x) + machine_state_snapshot_v2_part7_bytes(x) + machine_state_snapshot_v2_part8_bytes(x) + machine_state_snapshot_v2_part9_bytes(x) + rest
}

#[verifier::spinoff_prover]
#[verifier::rlimit(100)]
proof fn lemma_machine_state_snapshot_v2_after_codes_rules_0(x: MachineStateSnapshot, rest: Seq<u8>)
    ensures
        forall|i: int|
            0 <= i < 19 ==> rule_ok(
                #[trigger] machine_state_snapshot_tail_rules()[i],
                machine_state_snapshot_v2_after_codes(x, rest)[i],
            ),
{
    let s2 = machine_state_snapshot_v2_after_codes(x, rest);
    assert forall|i: int| 0 <= i < 19 implies rule_ok(#[trigger] machine_state_snapshot_tail_rules()[i], s2[i]) by {}
}

#[verifier::spinoff_prover]
#[verifier::rlimit(100)]
proof fn lemma_machine_state_snapshot_v2_after_codes_rules_19(x: MachineStateSnapshot, rest: Seq<u8>)
    ensures
        forall|i: int|
            19 <= i < 38 ==> rule_ok(
                #[trigger] machine_state_snapshot_tail_rules()[i],
                machine_state_snapshot_v2_after_codes(x, rest)[i],
            ),
{
    let s2 = machine_state_snapshot_v2_after_codes(x, rest);
    assert forall|i: int| 19 <= i < 38 implies rule_ok(#[trigger] machine_state_snapshot_tail_rules()[i], s2[i]) by {}
}

#[verifier::spinoff_prover]
#[verifier::rlimit(100)]
proof fn lemma_machine_state_snapshot_v2_after_codes_rules_38(x: MachineStateSnapshot, rest: Seq<u8>)
    ensures
        forall|i: int|
            38 <= i < 57 ==> rule_ok(
                #[trigger] machine_state_snapshot_tail_rules()[i],
                machine_state_snapshot_v2_after_codes(x, rest)[i],
            ),
{
    let s2 = machine_state_snapshot_v2_after_codes(x, rest);
    assert forall|i: int| 38 <= i < 57 implies rule_ok(#[trigger] machine_state_snapshot_tail_rules()[i], s2[i]) by {}
}

#[verifier::spinoff_prover]
#[verifier::rlimit(100)]
proof fn lemma_machine_state_snapshot_v2_after_codes_rules_57(x: MachineStateSnapshot, rest: Seq<u8>)
    ensures
        forall|i: int|
            57 <= i < 76 ==> rule_ok(
                #[trigger] machine_state_snapshot_tail_rules()[i],
                machine_state_snapshot_v2_after_codes(x, rest)[i],
            ),
{
    let s2 = machine_state_snapshot_v2_after_codes(x, rest);
    assert forall|i: int| 57 <= i < 76 implies rule_ok(#[trigger] machine_state_snapshot_tail_rules()[i], s2[i]) by {}
}

#[verifier::spinoff_prover]
#[verifier::rlimit(100)]
proof fn lemma_machine_state_snapshot_v2_after_codes_values_0(x: MachineStateSnapshot, rest: Seq<u8>)
    requires
        x.telemetry_version == 2,
        envelope_writable(x.version@, x.device_id@),
        x.previous_volume != Some(0xffffu16),
        x.previous_cpm is Some,
        x.alarm_snoozed is Some,
        x.cpu_load is Some,
        x.inspiratory_trigger_flow is Some,
        x.expiratory_trigger_flow is Some,
        x.ti_min is Some,
        x.ti_max is Some,
        x.low_inspiratory_minute_volume_alarm_threshold is Some,
        x.high_inspiratory_minute_volume_alarm_threshold is Some,
        x.low_expiratory_minute_volume_alarm_threshold is Some,
        x.high_expiratory_minute_volume_alarm_threshold is Some,
        x.low_respiratory_rate_alarm_threshold is Some,
        x.high_respiratory_rate_alarm_threshold is Some,
        x.target_tidal_volume is Some,
        x.low_tidal_volume_alarm_threshold is Some,
        x.high_tidal_volume_alarm_threshold is Some,
        x.plateau_duration is Some,
        x.leak_alarm_threshold is Some,
        x.target_inspiratory_flow is Some,
        x.inspiratory_duration_command is Some,
        x.previous_inspiratory_duration is Some,
        x.battery_level is Some,
        x.locale matches Some(l) && valid_utf8(word_bytes(l.0)),
        x.patient_height is Some,
        x.patient_gender is Some,
        x.peak_pressure_alarm_threshold is Some,
        x.current_alarm_codes.len() <= 255,
    ensures
        ({
            let s2 = machine_state_snapshot_v2_after_codes(x, rest);
            &&& x.previous_volume == volume_of(u16_at(s2, 1))
            &&& x.expiratory_term == s2[4]
            &&& x.trigger_enabled == (s2[6] != 0)
            &&& x.trigger_offset == s2[8]
            &&& x.previous_cpm == Some(s2[10])
            &&& x.alarm_snoozed == Some((s2[12] != 0))
            &&& x.cpu_load == Some(s2[14])
            &&& ventilation_mode_of(s2[16]) == Some(x.ventilation_mode)
            &&& x.inspiratory_trigger_flow == Some(s2[18])
            &&& x.expiratory_trigger_flow == Some(s2[20])
            &&& x.ti_min == Some(u16_at(s2, 22))
            &&& x.ti_max == Some(u16_at(s2, 25))
            &&& x.low_inspiratory_minute_volume_alarm_threshold == Some(s2[28])
            &&& x.high_inspiratory_minute_volume_alarm_threshold == Some(s2[30])
            &&& x.low_expiratory_minute_volume_alarm_threshold == Some(s2[32])
        }),
{
    let s2 = machine_state_snapshot_v2_after_codes(x, rest);
    lemma_u16_back(s2, 1, volume_code(x.previous_volume));
    lemma_u16_back(s2, 22, u16_or_zero(x.ti_min));
    lemma_u16_back(s2, 25, u16_or_zero(x.ti_max));
}

#[verifier::spinoff_prover]
#[verifier::rlimit(100)]
proof fn lemma_machine_state_snapshot_v2_after_codes_values_1(x: MachineStateSnapshot, rest: Seq<u8>)
    requires
        x.telemetry_version == 2,
        envelope_writable(x.version@, x.device_id@),
        x.previous_volume != Some(0xffffu16),
        x.previous_cpm is Some,
        x.alarm_snoozed is Some,
        x.cpu_load is Some,
        x.inspiratory_trigger_flow is Some,
        x.expiratory_trigger_flow is Some,
        x.ti_min is Some,
        x.ti_max is Some,
        x.low_inspiratory_minute_volume_alarm_threshold is Some,
        x.high_inspiratory_minute_volume_alarm_threshold is Some,
        x.low_expiratory_minute_volume_alarm_threshold is Some,
        x.high_expiratory_minute_volume_alarm_threshold is Some,
        x.low_respiratory_rate_alarm_threshold is Some,
        x.high_respiratory_rate_alarm_threshold is Some,
        x.target_tidal_volume is Some,
        x.low_tidal_volume_alarm_threshold is Some,
        x.high_tidal_volume_alarm_threshold is Some,
        x.plateau_duration is Some,
        x.leak_alarm_threshold is Some,
        x.target_inspiratory_flow is Some,
        x.inspiratory_duration_command is Some,
        x.previous_inspiratory_duration is Some,
        x.battery_level is Some,
        x.locale matches Some(l) && valid_utf8(word_bytes(l.0)),
        x.patient_height is Some,
        x.patient_gender is Some,
        x.peak_pressure_alarm_threshold is Some,
        x.current_alarm_codes.len() <= 255,
    ensures
        ({
            let s2 = machine_state_snapshot_v2_after_codes(x, rest);
            &&& x.high_expiratory_minute_volume_alarm_threshold == Some(s2[34])
            &&& x.low_respiratory_rate_alarm_threshold == Some(s2[36])
            &&& x.high_respiratory_rate_alarm_threshold == Some(s2[38])
            &&& x.target_tidal_volume == Some(u16_at(s2, 40))
            &&& x.low_tidal_volume_alarm_threshold == Some(u16_at(s2, 43))
            &&& x.high_tidal_volume_alarm_threshold == Some(u16_at(s2, 46))
            &&& x.plateau_duration == Some(u16_at(s2, 49))
            &&& x.leak_alarm_threshold == Some(u16_at(s2, 52))
            &&& x.target_inspiratory_flow == Some(s2[55])
            &&& x.inspiratory_duration_command == Some(u16_at(s2, 57))
            &&& x.previous_inspiratory_duration == Some(u16_at(s2, 60))
            &&& x.battery_level == Some(u16_at(s2, 63))
            &&& x.locale == locale_of_text(lossy_text_of(word_bytes(u16_at(s2, 66))))
            &&& x.patient_height == Some(s2[69])
            &&& x.patient_gender == gender_of(s2[71])
            &&& x.peak_pressure_alarm_threshold == Some(u16_at(s2, 73))
        }),
{
    let s2 = machine_state_snapshot_v2_after_codes(x, rest);
    lemma_u16_back(s2, 40, u16_or_zero(x.target_tidal_volume));
    lemma_u16_back(s2, 43, u16_or_zero(x.low_tidal_volume_alarm_threshold));
    lemma_u16_back(s2, 46, u16_or_zero(x.high_tidal_volume_alarm_threshold));
    lemma_u16_back(s2, 49, u16_or_zero(x.plateau_duration));
    lemma_u16_back(s2, 52, u16_or_zero(x.leak_alarm_threshold));
    lemma_u16_back(s2, 57, u16_or_zero(x.inspiratory_duration_command));
    lemma_u16_back(s2, 60, u16_or_zero(x.previous_inspiratory_duration));
    lemma_u16_back(s2, 63, u16_or_zero(x.battery_level));
    lemma_u16_back(s2, 66, locale_code(x.locale));
    lemma_locale_back(locale_code(x.locale));
    lemma_u16_back(s2, 73, u16_or_zero(x.peak_pressure_alarm_threshold));
}


#[verifier::rlimit(100)]
#[verifier::spinoff_prover]
proof fn lemma_machine_state_snapshot_v2_tail_scan(x: MachineStateSnapshot, rest: Seq<u8>)
    requires
        x.telemetry_version == 2,
        envelope_writable(x.version@, x.device_id@),
        rest.len() <= 0x1_0000,
        x.previous_volume != Some(0xffffu16),
        x.previous_cpm is Some,
        x.alarm_snoozed is Some,
        x.cpu_load is Some,
        x.inspiratory_trigger_flow is Some,
        x.expiratory_trigger_flow is Some,
        x.ti_min is Some,
        x.ti_max is Some,
        x.low_inspiratory_minute_volume_alarm_threshold is Some,
        x.high_inspiratory_minute_volume_alarm_threshold is Some,
        x.low_expiratory_minute_volume_alarm_threshold is Some,
        x.high_expiratory_minute_volume_alarm_threshold is Some,
        x.low_respiratory_rate_alarm_threshold is Some,
        x.high_respiratory_rate_alarm_threshold is Some,
        x.target_tidal_volume is Some,
        x.low_tidal_volume_alarm_threshold is Some,
        x.high_tidal_volume_alarm_threshold is Some,
        x.plateau_duration is Some,
        x.leak_alarm_threshold is Some,
        x.target_inspiratory_flow is Some,
        x.inspiratory_duration_command is Some,
        x.previous_inspiratory_duration is Some,
        x.battery_level is Some,
        x.locale matches Some(l) && valid_utf8(word_bytes(l.0)),
        x.patient_height is Some,
        x.patient_gender is Some,
        x.peak_pressure_alarm_threshold is Some,
        x.current_alarm_codes.len() <= 255,
    ensures
        ({
            let b = machine_state_snapshot_body_v2(x) + rest;
            let e = envelope_bytes(83, 2, x.version@, x.device_id@, x.systick).len() as int;
            let t = e + 23 + 1 + x.current_alarm_codes@.len();
            &&& b[e + 23] == x.current_alarm_codes@.len()
            &&& crate::wire::bytes_at(b, e + 23) == x.current_alarm_codes@
            &&& scan_fixed(b, t, machine_state_snapshot_tail_rules()) == Scan::Next((t + 76) as usize)
        }),
{
    let body = machine_state_snapshot_body_v2(x);
    let b = body + rest;
    let env = envelope_bytes(83, 2, x.version@, x.device_id@, x.systick);
    lemma_machine_state_snapshot_v2_parts(x);
    assert(b.subrange(0, env.len() as int) =~= env);
    lemma_envelope_at_start(83, 2, x.version@, x.device_id@, x.systick, b);
    let e = env.len() as int;
    let s2 = machine_state_snapshot_v2_after_codes(x, rest);
    let a = e + 23;
    let t = a + 1 + x.current_alarm_codes@.len();
    assert(b[a] == x.current_alarm_codes@.len());
    assert(crate::wire::bytes_at(b, a) =~= x.current_alarm_codes@);
    assert(s2 == machine_state_snapshot_v2_after_codes(x, rest));
    assert(b.subrange(t, b.len() as int) =~= s2);
    lemma_machine_state_snapshot_v2_after_codes_rules_0(x, rest);
    lemma_machine_state_snapshot_v2_after_codes_rules_19(x, rest);
    lemma_machine_state_snapshot_v2_after_codes_rules_38(x, rest);
    lemma_machine_state_snapshot_v2_after_codes_rules_57(x, rest);
    assert forall|i: int| 0 <= i < machine_state_snapshot_tail_rules().len() implies rule_ok(
        #[trigger] machine_state_snapshot_tail_rules()[i],
        s2[i],
    ) by {}
    lemma_fixed_shift(b, t, machine_state_snapshot_tail_rules(), s2);

}

#[verifier::rlimit(100)]
#[verifier::spinoff_prover]
proof fn lemma_machine_state_snapshot_v2_tail(x: MachineStateSnapshot, rest: Seq<u8>)
    requires
        x.telemetry_version == 2,
        envelope_writable(x.version@, x.device_id@),
        rest.len() <= 0x1_0000,
        x.previous_volume != Some(0xffffu16),
        x.previous_cpm is Some,
        x.alarm_snoozed is Some,
        x.cpu_load is Some,
        x.inspiratory_trigger_flow is Some,
        x.expiratory_trigger_flow is Some,
        x.ti_min is Some,
        x.ti_max is Some,
        x.low_inspiratory_minute_volume_alarm_threshold is Some,
        x.high_inspiratory_minute_volume_alarm_threshold is Some,
        x.low_expiratory_minute_volume_alarm_threshold is Some,
        x.high_expiratory_minute_volume_alarm_threshold is Some,
        x.low_respiratory_rate_alarm_threshold is Some,
        x.high_respiratory_rate_alarm_threshold is Some,
        x.target_tidal_volume is Some,
        x.low_tidal_volume_alarm_threshold is Some,
        x.high_tidal_volume_alarm_threshold is Some,
        x.plateau_duration is Some,
        x.leak_alarm_threshold is Some,
        x.target_inspiratory_flow is Some,
        x.inspiratory_duration_command is Some,
        x.previous_inspiratory_duration is Some,
        x.battery_level is Some,
        x.locale matches Some(l) && valid_utf8(word_bytes(l.0)),
        x.patient_height is Some,
        x.patient_gender is Some,
        x.peak_pressure_alarm_threshold is Some,
        x.current_alarm_codes.len() <= 255,
    ensures
        ({
            let b = machine_state_snapshot_body_v2(x) + rest;
            let e = envelope_bytes(83, 2, x.version@, x.device_id@, x.systick).len() as int;
            let t = e + 23 + 1 + x.current_alarm_codes@.len();
            &&& x.previous_volume == volume_of(u16_at(b, t + 1))
            &&& x.expiratory_term == b[t + 4]
            &&& x.trigger_enabled == (b[t + 6] != 0)
            &&& x.trigger_offset == b[t + 8]
            &&& x.previous_cpm == Some(b[t + 10])
            &&& x.alarm_snoozed == Some((b[t + 12] != 0))
            &&& x.cpu_load == Some(b[t + 14])
            &&& ventilation_mode_of(b[t + 16]) == Some(x.ventilation_mode)
            &&& x.inspiratory_trigger_flow == Some(b[t + 18])
            &&& x.expiratory_trigger_flow == Some(b[t + 20])
            &&& x.ti_min == Some(u16_at(b, t + 22))
            &&& x.ti_max == Some(u16_at(b, t + 25))
            &&& x.low_inspiratory_minute_volume_alarm_threshold == Some(b[t + 28])
            &&& x.high_inspiratory_minute_volume_alarm_threshold == Some(b[t + 30])
            &&& x.low_expiratory_minute_volume_alarm_threshold == Some(b[t + 32])
            &&& x.high_expiratory_minute_volume_alarm_threshold == Some(b[t + 34])
            &&& x.low_respiratory_rate_alarm_threshold == Some(b[t + 36])
            &&& x.high_respiratory_rate_alarm_threshold == Some(b[t + 38])
            &&& x.target_tidal_volume == Some(u16_at(b, t + 40))
            &&& x.low_tidal_volume_alarm_threshold == Some(u16_at(b, t + 43))
            &&& x.high_tidal_volume_alarm_threshold == Some(u16_at(b, t + 46))
            &&& x.plateau_duration == Some(u16_at(b, t + 49))
            &&& x.leak_alarm_threshold == Some(u16_at(b, t + 52))
            &&& x.target_inspiratory_flow == Some(b[t + 55])
            &&& x.inspiratory_duration_command == Some(u16_at(b, t + 57))
            &&& x.previous_inspiratory_duration == Some(u16_at(b, t + 60))
            &&& x.battery_level == Some(u16_at(b, t + 63))
            &&& x.locale == locale_of_text(lossy_text_of(word_bytes(u16_at(b, t + 66))))
            &&& x.patient_height == Some(b[t + 69])
            &&& x.patient_gender == gender_of(b[t + 71])
            &&& x.peak_pressure_alarm_threshold == Some(u16_at(b, t + 73))
        }),
{
    let body = machine_state_snapshot_body_v2(x);
    let b = body + rest;
    let env = envelope_bytes(83, 2, x.version@, x.device_id@, x.systick);
    lemma_machine_state_snapshot_v2_parts(x);
    assert(b.subrange(0, env.len() as int) =~= env);
    lemma_envelope_at_start(83, 2, x.version@, x.device_id@, x.systick, b);
    let e = env.len() as int;
    let s2 = machine_state_snapshot_v2_after_codes(x, rest);
    let a = e + 23;
    let t = a + 1 + x.current_alarm_codes@.len();
    assert(b[a] == x.current_alarm_codes@.len());
    assert(crate::wire::bytes_at(b, a) =~= x.current_alarm_codes@);
    assert(s2 == machine_state_snapshot_v2_after_codes(x, rest));
    assert(b.subrange(t, b.len() as int) =~= s2);
    lemma_machine_state_snapshot_v2_after_codes_values_0(x, rest);
    lemma_machine_state_snapshot_v2_after_codes_values_1(x, rest);
    assert forall|i: int| 0 <= i < 76 implies #[trigger] b[t + i] == s2[i] by {}

}

#[verifier::rlimit(100)]
#[verifier::spinoff_prover]
proof fn lemma_machine_state_snapshot_v2_reads_scan(x: MachineStateSnapshot, rest: Seq<u8>)
    requires
        x.telemetry_version == 2,
        envelope_writable(x.version@, x.device_id@),
        rest.len() <= 0x1_0000,
        x.previous_volume != Some(0xffffu16),
        x.previous_cpm is Some,
        x.alarm_snoozed is Some,
        x.cpu_load is Some,
        x.inspiratory_trigger_flow is Some,
        x.expiratory_trigger_flow is Some,
        x.ti_min is Some,
        x.ti_max is Some,
        x.low_inspiratory_minute_volume_alarm_threshold is Some,
        x.high_inspiratory_minute_volume_alarm_threshold is Some,
        x.low_expiratory_minute_volume_alarm_threshold is Some,
        x.high_expiratory_minute_volume_alarm_threshold is Some,
        x.low_respiratory_rate_alarm_threshold is Some,
        x.high_respiratory_rate_alarm_threshold is Some,
        x.target_tidal_volume is Some,
        x.low_tidal_volume_alarm_threshold is Some,
        x.high_tidal_volume_alarm_threshold is Some,
        x.plateau_duration is Some,
        x.leak_alarm_threshold is Some,
        x.target_inspiratory_flow is Some,
        x.inspiratory_duration_command is Some,
        x.previous_inspiratory_duration is Some,
        x.battery_level is Some,
        x.locale matches Some(l) && valid_utf8(word_bytes(l.0)),
        x.patient_height is Some,
        x.patient_gender is Some,
        x.peak_pressure_alarm_threshold is Some,
        x.current_alarm_codes.len() <= 255,
    ensures
        starts_body(machine_state_snapshot_body_v2(x) + rest, machine_state_snapshot_body_v2(x), 83, 2),
        v2::scan_machine_state_snapshot(machine_state_snapshot_body_v2(x) + rest) == Scan::Next(machine_state_snapshot_body_v2(x).len() as usize),
{
    reveal(v2::scan_machine_state_snapshot);
    let body = machine_state_snapshot_body_v2(x);
    let env = envelope_bytes(83, 2, x.version@, x.device_id@, x.systick);
    lemma_machine_state_snapshot_v2_parts(x);
    let b = body + rest;
    assert(b.subrange(0, env.len() as int) =~= env);
    lemma_envelope_at_start(83, 2, x.version@, x.device_id@, x.systick, b);
    let e = env.len() as int;
    lemma_machine_state_snapshot_v2_head_scan(x, rest);
    lemma_machine_state_snapshot_v2_tail_scan(x, rest);
}

#[verifier::rlimit(100)]
#[verifier::spinoff_prover]
proof fn lemma_machine_state_snapshot_v2_reads_fields(x: MachineStateSnapshot, rest: Seq<u8>)
    requires
        x.telemetry_version == 2,
        envelope_writable(x.version@, x.device_id@),
        rest.len() <= 0x1_0000,
        x.previous_volume != Some(0xffffu16),
        x.previous_cpm is Some,
        x.alarm_snoozed is Some,
        x.cpu_load is Some,
        x.inspiratory_trigger_flow is Some,
        x.expiratory_trigger_flow is Some,
        x.ti_min is Some,
        x.ti_max is Some,
        x.low_inspiratory_minute_volume_alarm_threshold is Some,
        x.high_inspiratory_minute_volume_alarm_threshold is Some,
        x.low_expiratory_minute_volume_alarm_threshold is Some,
        x.high_expiratory_minute_volume_alarm_threshold is Some,
        x.low_respiratory_rate_alarm_threshold is Some,
        x.high_respiratory_rate_alarm_threshold is Some,
        x.target_tidal_volume is Some,
        x.low_tidal_volume_alarm_threshold is Some,
        x.high_tidal_volume_alarm_threshold is Some,
        x.plateau_duration is Some,
        x.leak_alarm_threshold is Some,
        x.target_inspiratory_flow is Some,
        x.inspiratory_duration_command is Some,
        x.previous_inspiratory_duration is Some,
        x.battery_level is Some,
        x.locale matches Some(l) && valid_utf8(word_bytes(l.0)),
        x.patient_height is Some,
        x.patient_gender is Some,
        x.peak_pressure_alarm_threshold is Some,
        x.current_alarm_codes.len() <= 255,
    ensures
        v2::machine_state_snapshot_decodes(machine_state_snapshot_body_v2(x) + rest, TelemetryMessage::MachineStateSnapshot(x)),
{
    let b = machine_state_snapshot_body_v2(x) + rest;
    let e = envelope_bytes(83, 2, x.version@, x.device_id@, x.systick).len() as int;
    lemma_machine_state_snapshot_v2_head(x, rest);
    lemma_machine_state_snapshot_v2_tail_scan(x, rest);
    lemma_machine_state_snapshot_v2_tail(x, rest);
    assert(b[e + 23] == x.current_alarm_codes@.len());
    reveal(v2::machine_state_snapshot_decodes);
}

/// A machine state snapshot that can be written in protocol v2 reads back as itself, whatever follows its body
pub proof fn lemma_machine_state_snapshot_v2_round_trip(x: MachineStateSnapshot, rest: Seq<u8>)
    requires
        x.telemetry_version == 2,
        envelope_writable(x.version@, x.device_id@),
        rest.len() <= 0x1_0000,
        x.previous_volume != Some(0xffffu16),
        x.previous_cpm is Some,
        x.alarm_snoozed is Some,
        x.cpu_load is Some,
        x.inspiratory_trigger_flow is Some,
        x.expiratory_trigger_flow is Some,
        x.ti_min is Some,
        x.ti_max is Some,
        x.low_inspiratory_minute_volume_alarm_threshold is Some,
        x.high_inspiratory_minute_volume_alarm_threshold is Some,
        x.low_expiratory_minute_volume_alarm_threshold is Some,
        x.high_expiratory_minute_volume_alarm_threshold is Some,
        x.low_respiratory_rate_alarm_threshold is Some,
        x.high_respiratory_rate_alarm_threshold is Some,
        x.target_tidal_volume is Some,
        x.low_tidal_volume_alarm_threshold is Some,
        x.high_tidal_volume_alarm_threshold is Some,
        x.plateau_duration is Some,
        x.leak_alarm_threshold is Some,
        x.target_inspiratory_flow is Some,
        x.inspiratory_duration_command is Some,
        x.previous_inspiratory_duration is Some,
        x.battery_level is Some,
        x.locale matches Some(l) && valid_utf8(word_bytes(l.0)),
        x.patient_height is Some,
        x.patient_gender is Some,
        x.peak_pressure_alarm_threshold is Some,
        x.current_alarm_codes.len() <= 255,
    ensures
        starts_body(machine_state_snapshot_body_v2(x) + rest, machine_state_snapshot_body_v2(x), 83, 2),
        v2::scan_machine_state_snapshot(machine_state_snapshot_body_v2(x) + rest) == Scan::Next(machine_state_snapshot_body_v2(x).len() as usize),
        v2::machine_state_snapshot_decodes(machine_state_snapshot_body_v2(x) + rest, TelemetryMessage::MachineStateSnapshot(x)),
{
    lemma_machine_state_snapshot_v2_reads_scan(x, rest);
    lemma_machine_state_snapshot_v2_reads_fields(x, rest);
}

#[verifier::rlimit(100)]
#[verifier::spinoff_prover]
proof fn lemma_stopped_v2_head_scan(x: StoppedMessage, rest: Seq<u8>)
    requires
        x.telemetry_version == 2,
        envelope_writable(x.version@, x.device_id@),
        rest.len() <= 0x1_0000,
        x.peak_command is Some,
        x.plateau_command is Some,
        x.peep_command is Some,
        x.cpm_command is Some,
        x.expiratory_term is Some,
        x.trigger_enabled is Some,
        x.trigger_offset is Some,
        x.alarm_snoozed is Some,
        x.cpu_load is Some,
        x.inspiratory_trigger_flow is Some,
        x.expiratory_trigger_flow is Some,
        x.ti_min is Some,
        x.ti_max is Some,
        x.low_inspiratory_minute_volume_alarm_threshold is Some,
        x.high_inspiratory_minute_volume_alarm_threshold is Some,
        x.low_expiratory_minute_volume_alarm_threshold is Some,
        x.high_expiratory_minute_volume_alarm_threshold is Some,
        x.low_respiratory_rate_alarm_threshold is Some,
        x.high_respiratory_rate_alarm_threshold is Some,
        x.target_tidal_volume is Some,
        x.low_tidal_volume_alarm_threshold is Some,
        x.high_tidal_volume_alarm_threshold is Some,
        x.plateau_duration is Some,
        x.leak_alarm_threshold is Some,
        x.target_inspiratory_flow is Some,
        x.inspiratory_duration_command is Some,
        x.battery_level is Some,
        x.locale matches Some(l) && valid_utf8(word_bytes(l.0)),
        x.patient_height is Some,
        x.patient_gender is Some,
        x.peak_pressure_alarm_threshold is Some,
        x.current_alarm_codes matches Some(c) && c.len() <= 255,
    ensures
        ({
            let b = stopped_body_v2(x) + rest;
            let e = envelope_bytes(79, 2, x.version@, x.device_id@, x.systick).len() as int;
            let t = e + 66 + 1 + codes_or_empty(x.current_alarm_codes).len();
            &&& scan_fixed(b, e, stopped_head_rules()) == Scan::Next((e + 66) as usize)
        }),
{
    let body = stopped_body_v2(x);
    let env = envelope_bytes(79, 2, x.version@, x.device_id@, x.systick);
    lemma_stopped_v2_parts(x);
    let head = stopped_v2_part0_bytes(x) + stopped_v2_part1_bytes(x) + stopped_v2_part2_bytes(x) + stopped_v2_part3_bytes(x) + stopped_v2_part4_bytes(x) + stopped_v2_part5_bytes(x) + stopped_v2_part6_bytes(x);
    let arr = array_bytes(codes_or_empty(x.current_alarm_codes));
    let tail = stopped_v2_part7_bytes(x);
    assert(body =~= env + head + arr + tail);
    let b = body + rest;
    let s2 = tail + rest;
    let s1 = head + (arr + s2);
    assert(b =~= env + s1);
    lemma_envelope_round_trip(79, 2, x.version@, x.device_id@, x.systick, s1);
    let e = env.len() as int;
    assert(b.subrange(e, b.len() as int) =~= s1);
    assert forall|i: int| 0 <= i < stopped_head_rules().len() implies rule_ok(
        #[trigger] stopped_head_rules()[i],
        s1[i],
    ) by {}
    lemma_fixed_shift(b, e, stopped_head_rules(), s1);
}

#[verifier::rlimit(100)]
#[verifier::spinoff_prover]
proof fn lemma_stopped_v2_head(x: StoppedMessage, rest: Seq<u8>)
    requires
        x.telemetry_version == 2,
        envelope_writable(x.version@, x.device_id@),
        rest.len() <= 0x1_0000,
        x.peak_command is Some,
        x.plateau_command is Some,
        x.peep_command is Some,
        x.cpm_command is Some,
        x.expiratory_term is Some,
        x.trigger_enabled is Some,
        x.trigger_offset is Some,
        x.alarm_snoozed is Some,
        x.cpu_load is Some,
        x.inspiratory_trigger_flow is Some,
        x.expiratory_trigger_flow is Some,
        x.ti_min is Some,
        x.ti_max is Some,
        x.low_inspiratory_minute_volume_alarm_threshold is Some,
        x.high_inspiratory_minute_volume_alarm_threshold is Some,
        x.low_expiratory_minute_volume_alarm_threshold is Some,
        x.high_expiratory_minute_volume_alarm_threshold is Some,
        x.low_respiratory_rate_alarm_threshold is Some,
        x.high_respiratory_rate_alarm_threshold is Some,
        x.target_tidal_volume is Some,
        x.low_tidal_volume_alarm_threshold is Some,
        x.high_tidal_volume_alarm_threshold is Some,
        x.plateau_duration is Some,
        x.leak_alarm_threshold is Some,
        x.target_inspiratory_flow is Some,
        x.inspiratory_duration_command is Some,
        x.battery_level is Some,
        x.locale matches Some(l) && valid_utf8(word_bytes(l.0)),
        x.patient_height is Some,
        x.patient_gender is Some,
        x.peak_pressure_alarm_threshold is Some,
        x.current_alarm_codes matches Some(c) && c.len() <= 255,
    ensures
        ({
            let b = stopped_body_v2(x) + rest;
            let e = envelope_bytes(79, 2, x.version@, x.device_id@, x.systick).len() as int;
            let t = e + 66 + 1 + codes_or_empty(x.current_alarm_codes).len();
            &&& scan_fixed(b, e, stopped_head_rules()) == Scan::Next((e + 66) as usize)
            &&& x.peak_command == Some(b[e + 1])
            &&& x.plateau_command == Some(b[e + 3])
            &&& x.peep_command == Some(b[e + 5])
            &&& x.cpm_command == Some(b[e + 7])
            &&& x.expiratory_term == Some(b[e + 9])
            &&& x.trigger_enabled == Some((b[e + 11] != 0))
            &&& x.trigger_offset == Some(b[e + 13])
            &&& x.alarm_snoozed == Some((b[e + 15] != 0))
            &&& x.cpu_load == Some(b[e + 17])
            &&& ventilation_mode_of(b[e + 19]) == Some(x.ventilation_mode)
            &&& x.inspiratory_trigger_flow == Some(b[e + 21])
            &&& x.expiratory_trigger_flow == Some(b[e + 23])
            &&& x.ti_min == Some(u16_at(b, e + 25))
            &&& x.ti_max == Some(u16_at(b, e + 28))
            &&& x.low_inspiratory_minute_volume_alarm_threshold == Some(b[e + 31])
            &&& x.high_inspiratory_minute_volume_alarm_threshold == Some(b[e + 33])
            &&& x.low_expiratory_minute_volume_alarm_threshold == Some(b[e + 35])
            &&& x.high_expiratory_minute_volume_alarm_threshold == Some(b[e + 37])
            &&& x.low_respiratory_rate_alarm_threshold == Some(b[e + 39])
            &&& x.high_respiratory_rate_alarm_threshold == Some(b[e + 41])
            &&& x.target_tidal_volume == Some(u16_at(b, e + 43))
            &&& x.low_tidal_volume_alarm_threshold == Some(u16_at(b, e + 46))
            &&& x.high_tidal_volume_alarm_threshold == Some(u16_at(b, e + 49))
            &&& x.plateau_duration == Some(u16_at(b, e + 52))
            &&& x.leak_alarm_threshold == Some(u16_at(b, e + 55))
            &&& x.target_inspiratory_flow == Some(b[e + 58])
            &&& x.inspiratory_duration_command == Some(u16_at(b, e + 60))
            &&& x.battery_level == Some(u16_at(b, e + 63))
        }),
{
    lemma_stopped_v2_head_scan(x, rest);
    let body = stopped_body_v2(x);
    let env = envelope_bytes(79, 2, x.version@, x.device_id@, x.systick);
    lemma_stopped_v2_parts(x);
    let head = stopped_v2_part0_bytes(x) + stopped_v2_part1_bytes(x) + stopped_v2_part2_bytes(x) + stopped_v2_part3_bytes(x) + stopped_v2_part4_bytes(x) + stopped_v2_part5_bytes(x) + stopped_v2_part6_bytes(x);
    let arr = array_bytes(codes_or_empty(x.current_alarm_codes));
    let tail = stopped_v2_part7_bytes(x);
    assert(body =~= env + head + arr + tail);
    let b = body + rest;
    let s2 = tail + rest;
    let s1 = head + (arr + s2);
    assert(b =~= env + s1);
    lemma_envelope_round_trip(79, 2, x.version@, x.device_id@, x.systick, s1);
    let e = env.len() as int;
    lemma_u16_back(b, e + 25, u16_or_zero(x.ti_min));
    lemma_u16_back(b, e + 28, u16_or_zero(x.ti_max));
    lemma_u16_back(b, e + 43, u16_or_zero(x.target_tidal_volume));
    lemma_u16_back(b, e + 46, u16_or_zero(x.low_tidal_volume_alarm_threshold));
    lemma_u16_back(b, e + 49, u16_or_zero(x.high_tidal_volume_alarm_threshold));
    lemma_u16_back(b, e + 52, u16_or_zero(x.plateau_duration));
    lemma_u16_back(b, e + 55, u16_or_zero(x.leak_alarm_threshold));
    lemma_u16_back(b, e + 60, u16_or_zero(x.inspiratory_duration_command));
    lemma_u16_back(b, e + 63, u16_or_zero(x.battery_level));
}

#[verifier::rlimit(100)]
#[verifier::spinoff_prover]
proof fn lemma_stopped_v2_tail(x: StoppedMessage, rest: Seq<u8>)
    requires
        x.telemetry_version == 2,
        envelope_writable(x.version@, x.device_id@),
        rest.len() <= 0x1_0000,
        x.peak_command is Some,
        x.plateau_command is Some,
        x.peep_command is Some,
        x.cpm_command is Some,
        x.expiratory_term is Some,
        x.trigger_enabled is Some,
        x.trigger_offset is Some,
        x.alarm_snoozed is Some,
        x.cpu_load is Some,
        x.inspiratory_trigger_flow is Some,
        x.expiratory_trigger_flow is Some,
        x.ti_min is Some,
        x.ti_max is Some,
        x.low_inspiratory_minute_volume_alarm_threshold is Some,
        x.high_inspiratory_minute_volume_alarm_threshold is Some,
        x.low_expiratory_minute_volume_alarm_threshold is Some,
        x.high_expiratory_minute_volume_alarm_threshold is Some,
        x.low_respiratory_rate_alarm_threshold is Some,
        x.high_respiratory_rate_alarm_threshold is Some,
        x.target_tidal_volume is Some,
        x.low_tidal_volume_alarm_threshold is Some,
        x.high_tidal_volume_alarm_threshold is Some,
        x.plateau_duration is Some,
        x.leak_alarm_threshold is Some,
        x.target_inspiratory_flow is Some,
        x.inspiratory_duration_command is Some,
        x.battery_level is Some,
        x.locale matches Some(l) && valid_utf8(word_bytes(l.0)),
        x.patient_height is Some,
        x.patient_gender is Some,
        x.peak_pressure_alarm_threshold is Some,
        x.current_alarm_codes matches Some(c) && c.len() <= 255,
    ensures
        ({
            let b = stopped_body_v2(x) + rest;
            let e = envelope_bytes(79, 2, x.version@, x.device_id@, x.systick).len() as int;
            let t = e + 66 + 1 + codes_or_empty(x.current_alarm_codes).len();
            &&& b[e + 66] == codes_or_empty(x.current_alarm_codes).len()
            &&& crate::wire::bytes_at(b, e + 66) == codes_or_empty(x.current_alarm_codes)
            &&& scan_fixed(b, t, stopped_tail_rules()) == Scan::Next((t + 11) as usize)
            &&& x.locale == locale_of_text(lossy_text_of(word_bytes(u16_at(b, t + 1))))
            &&& x.patient_height == Some(b[t + 4])
            &&& x.patient_gender == gender_of(b[t + 6])
            &&& x.peak_pressure_alarm_threshold == Some(u16_at(b, t + 8))
        }),
{
    let body = stopped_body_v2(x);
    let env = envelope_bytes(79, 2, x.version@, x.device_id@, x.systick);
    lemma_stopped_v2_parts(x);
    let head = stopped_v2_part0_bytes(x) + stopped_v2_part1_bytes(x) + stopped_v2_part2_bytes(x) + stopped_v2_part3_bytes(x) + stopped_v2_part4_bytes(x) + stopped_v2_part5_bytes(x) + stopped_v2_part6_bytes(x);
    let arr = array_bytes(codes_or_empty(x.current_alarm_codes));
    let tail = stopped_v2_part7_bytes(x);
    assert(body =~= env + head + arr + tail);
    let b = body + rest;
    let s2 = tail + rest;
    let s1 = head + (arr + s2);
    assert(b =~= env + s1);
    lemma_envelope_round_trip(79, 2, x.version@, x.device_id@, x.systick, s1);
    let e = env.len() as int;
    let a = e + 66;
    let t = a + 1 + codes_or_empty(x.current_alarm_codes).len();
    assert(b[a] == codes_or_empty(x.current_alarm_codes).len());
    assert(crate::wire::bytes_at(b, a) =~= codes_or_empty(x.current_alarm_codes));
    assert(b.subrange(t, b.len() as int) =~= s2);
    assert forall|i: int| 0 <= i < stopped_tail_rules().len() implies rule_ok(
        #[trigger] stopped_tail_rules()[i],
        s2[i],
    ) by {}
    lemma_fixed_shift(b, t, stopped_tail_rules(), s2);
    lemma_u16_back(b, t + 1, locale_code(x.locale));
    lemma_locale_back(locale_code(x.locale));
    lemma_u16_back(b, t + 8, u16_or_zero(x.peak_pressure_alarm_threshold));
}

/// A stopped message that can be written in protocol v2 reads back as itself, whatever follows its body
#[verifier::rlimit(100)]
#[verifier::spinoff_prover]
pub proof fn lemma_stopped_v2_round_trip(x: StoppedMessage, rest: Seq<u8>)
    requires
        x.telemetry_version == 2,
        envelope_writable(x.version@, x.device_id@),
        rest.len() <= 0x1_0000,
        x.peak_command is Some,
        x.plateau_command is Some,
        x.peep_command is Some,
        x.cpm_command is Some,
        x.expiratory_term is Some,
        x.trigger_enabled is Some,
        x.trigger_offset is Some,
        x.alarm_snoozed is Some,
        x.cpu_load is Some,
        x.inspiratory_trigger_flow is Some,
        x.expiratory_trigger_flow is Some,
        x.ti_min is Some,
        x.ti_max is Some,
        x.low_inspiratory_minute_volume_alarm_threshold is Some,
        x.high_inspiratory_minute_volume_alarm_threshold is Some,
        x.low_expiratory_minute_volume_alarm_threshold is Some,
        x.high_expiratory_minute_volume_alarm_threshold is Some,
        x.low_respiratory_rate_alarm_threshold is Some,
        x.high_respiratory_rate_alarm_threshold is Some,
        x.target_tidal_volume is Some,
        x.low_tidal_volume_alarm_threshold is Some,
        x.high_tidal_volume_alarm_threshold is Some,
        x.plateau_duration is Some,
        x.leak_alarm_threshold is Some,
        x.target_inspiratory_flow is Some,
        x.inspiratory_duration_command is Some,
        x.battery_level is Some,
        x.locale matches Some(l) && valid_utf8(word_bytes(l.0)),
        x.patient_height is Some,
        x.patient_gender is Some,
        x.peak_pressure_alarm_threshold is Some,
        x.current_alarm_codes matches Some(c) && c.len() <= 255,
    ensures
        starts_body(stopped_body_v2(x) + rest, stopped_body_v2(x), 79, 2),
        v2::scan_stopped(stopped_body_v2(x) + rest) == Scan::Next(stopped_body_v2(x).len() as usize),
        v2::stopped_decodes(stopped_body_v2(x) + rest, TelemetryMessage::StoppedMessage(x)),
{
    reveal(v2::scan_stopped);
    reveal(v2::stopped_decodes);
    let body = stopped_body_v2(x);
    let env = envelope_bytes(79, 2, x.version@, x.device_id@, x.systick);
    lemma_stopped_v2_parts(x);
    let b = body + rest;
    assert(b.subrange(0, env.len() as int) =~= env);
    lemma_envelope_at_start(79, 2, x.version@, x.device_id@, x.systick, b);
    let e = env.len() as int;
    lemma_stopped_v2_head(x, rest);
    lemma_stopped_v2_tail(x, rest);
}

/// A control acknowledgement whose envelope can be written reads back as itself, whatever follows
/// its body
pub proof fn lemma_control_ack_round_trip(x: ControlAck, v: u8, rest: Seq<u8>)
    requires
        v == 1 || v == 2,
        x.telemetry_version == v,
        envelope_writable(x.version@, x.device_id@),
        rest.len() <= 0x1_0000,
    ensures
        ({
            let body = if v == 1 {
                control_ack_body_v1(x)
            } else {
                control_ack_body_v2(x)
            };
            &&& starts_body(body + rest, body, 65, v)
            &&& scan_control_ack(body + rest, v) == Scan::Next(body.len() as usize)
            &&& control_ack_decodes(body + rest, v, TelemetryMessage::ControlAck(x))
        }),
{
    reveal(scan_control_ack);
    reveal(control_ack_decodes);
    let body = if v == 1 {
        control_ack_body_v1(x)
    } else {
        control_ack_body_v2(x)
    };
    let env = envelope_bytes(65, v, x.version@, x.device_id@, x.systick);
    let tail = seq![9u8, setting_code(x.setting), 9u8] + be16(x.value) + seq![10u8];
    assert(body =~= env + tail);
    let b = body + rest;
    assert(b =~= env + (tail + rest));
    lemma_envelope_round_trip(65, v, x.version@, x.device_id@, x.systick, tail + rest);
    let e = env.len() as int;
    assert forall|i: int| 0 <= i < control_ack_rules().len() implies rule_ok(
        #[trigger] control_ack_rules()[i],
        b[e + i],
    ) by {}
    lemma_fixed_ok(b, e, control_ack_rules());
    lemma_u16_back(b, e + 3, x.value);
}

/// A fatal error whose envelope can be written, and whose calibration flows are not `i16::MAX`,
/// reads back as itself, whatever follows its body
#[verifier::rlimit(100)]
pub proof fn lemma_fatal_error_round_trip(x: FatalError, rest: Seq<u8>)
    requires
        x.telemetry_version == 2,
        envelope_writable(x.version@, x.device_id@),
        rest.len() <= 0x1_0000,
        x.error matches FatalErrorDetails::CalibrationError { flow_at_starting, flow_with_blower_on, .. }
            ==> flow_at_starting != Some(i16::MAX) && flow_with_blower_on != Some(i16::MAX),
    ensures
        v2::scan_fatal_error(fatal_error_body_v2(x) + rest) == Scan::Next(
            fatal_error_body_v2(x).len() as usize,
        ),
        v2::fatal_error_decodes(fatal_error_body_v2(x) + rest, TelemetryMessage::FatalError(x)),
        starts_body(fatal_error_body_v2(x) + rest, fatal_error_body_v2(x), 69, 2),
{
    reveal(v2::scan_fatal_error);
    reveal(v2::fatal_error_decodes);
    let body = fatal_error_body_v2(x);
    let env = envelope_bytes(69, 2, x.version@, x.device_id@, x.systick);
    let d = fatal_details_bytes(x.error);
    let tail = seq![9u8] + d + seq![10u8];
    assert(body =~= env + tail);
    let b = body + rest;
    assert(b =~= env + (tail + rest));
    lemma_envelope_round_trip(69, 2, x.version@, x.device_id@, x.systick, tail + rest);
    let e = env.len() as int;
    assert forall|i: int| 0 <= i < v2::fatal_error_head_rules().len() implies rule_ok(
        #[trigger] v2::fatal_error_head_rules()[i],
        b[e + i],
    ) by {}
    lemma_fixed_ok(b, e, v2::fatal_error_head_rules());
    let p = e + 1;
    let q = p + d.len();
    match x.error {
        FatalErrorDetails::CalibrationError {
            pressure_offset,
            min_pressure,
            max_pressure,
            flow_at_starting,
            flow_with_blower_on,
        } => {
            assert forall|i: int| 0 <= i < v2::calibration_rules().len() implies rule_ok(
                #[trigger] v2::calibration_rules()[i],
                b[p + 1 + i],
            ) by {}
            lemma_fixed_ok(b, p + 1, v2::calibration_rules());
            lemma_i16_back(b, p + 2, pressure_offset);
            lemma_i16_back(b, p + 5, min_pressure);
            lemma_i16_back(b, p + 8, max_pressure);
            lemma_i16_back(b, p + 11, flow_code(flow_at_starting));
            lemma_i16_back(b, p + 14, flow_code(flow_with_blower_on));
        },
        FatalErrorDetails::BatteryDeeplyDischarged { battery_level } => {
            lemma_fixed_ok(b, p + 1, v2::separated_u16_rules());
            lemma_u16_back(b, p + 2, battery_level);
        },
        FatalErrorDetails::InconsistentPressure { pressure } => {
            lemma_fixed_ok(b, p + 1, v2::separated_u16_rules());
            lemma_u16_back(b, p + 2, pressure);
        },
        _ => {},
    }
    assert(v2::scan_fatal_details(b, p) == Scan::Next(q as usize));
    lemma_fixed_ok(b, q, v2::end_rules());
}

/// An end of line test snapshot whose envelope can be written, and whose text has at most 255
/// bytes of UTF-8, reads back as itself, whatever follows its body
#[verifier::rlimit(100)]
pub proof fn lemma_eol_test_snapshot_round_trip(x: EolTestSnapshot, rest: Seq<u8>)
    requires
        x.telemetry_version == 2,
        envelope_writable(x.version@, x.device_id@),
        rest.len() <= 0x1_0000,
        encode_utf8(eol_text(x.content)).len() <= 255,
    ensures
        v2::scan_eol_test_snapshot(eol_test_snapshot_body_v2(x) + rest) == Scan::Next(
            eol_test_snapshot_body_v2(x).len() as usize,
        ),
        v2::eol_test_snapshot_decodes(
            eol_test_snapshot_body_v2(x) + rest,
            TelemetryMessage::EolTestSnapshot(x),
        ),
        starts_body(eol_test_snapshot_body_v2(x) + rest, eol_test_snapshot_body_v2(x), 76, 2),
{
    reveal(v2::scan_eol_test_snapshot);
    reveal(v2::eol_test_snapshot_decodes);
    let body = eol_test_snapshot_body_v2(x);
    let env = envelope_bytes(76, 2, x.version@, x.device_id@, x.systick);
    let t = encode_utf8(eol_text(x.content));
    let c = eol_content_bytes(x.content);
    assert(c =~= seq![eol_kind(x.content), 9u8] + array_bytes(t));
    let tail = seq![9u8, eol_step_code(x.current_step), 9u8] + c + seq![10u8];
    assert(body =~= env + tail);
    let b = body + rest;
    assert(b =~= env + (tail + rest));
    lemma_envelope_round_trip(76, 2, x.version@, x.device_id@, x.systick, tail + rest);
    let e = env.len() as int;
    assert(eol_step_of(eol_step_code(x.current_step)) == Some(x.current_step));
    assert forall|i: int| 0 <= i < v2::eol_test_snapshot_head_rules().len() implies rule_ok(
        #[trigger] v2::eol_test_snapshot_head_rules()[i],
        b[e + i],
    ) by {}
    lemma_fixed_ok(b, e, v2::eol_test_snapshot_head_rules());
    lemma_fixed_ok(b, e + 4, seq![ByteRule::Is(9)]);
    assert(b[e + 5] == t.len());
    assert(bytes_at(b, e + 5) =~= t);
    lemma_fixed_ok(b, e + 6 + t.len(), v2::end_rules());
}

/// The envelope of a body of kind `k` in version `v` is rejected when the version byte differs
pub proof fn lemma_other_version(b: Seq<u8>, k: u8, v: u8)
    requires
        b.len() >= 3,
        b[2] != v,
    ensures
        scan_envelope(b, k, v) == Scan::Bad,
{
    reveal(scan_envelope);
    let i: int = 2;
    assert(!rule_ok(prefix_rules(k, v)[i], b[0 + i]));
}

/// What a message needs to read back as itself from its protocol v2 frame: boot messages, data
/// snapshots, alarm traps, control acknowledgements, fatal errors and end of line test snapshots
/// whose envelope can be written, whose v2 fields are all present and whose sentinel values are
/// not used for present values
pub open spec fn reads_back_v2(m: TelemetryMessage) -> bool {
    match m {
        TelemetryMessage::BootMessage(x) => x.telemetry_version == 2 && envelope_writable(
            x.version@,
            x.device_id@,
        ),
        TelemetryMessage::DataSnapshot(x) => x.telemetry_version == 2 && envelope_writable(
            x.version@,
            x.device_id@,
        ) && x.subphase is None && x.inspiratory_flow is Some && x.expiratory_flow is Some,
        TelemetryMessage::AlarmTrap(x) => x.telemetry_version == 2 && envelope_writable(
            x.version@,
            x.device_id@,
        ) && x.subphase is None,
        TelemetryMessage::ControlAck(x) => x.telemetry_version == 2 && envelope_writable(
            x.version@,
            x.device_id@,
        ),
        TelemetryMessage::FatalError(x) => x.telemetry_version == 2 && envelope_writable(
            x.version@,
            x.device_id@,
        ) && (x.error matches FatalErrorDetails::CalibrationError {
            flow_at_starting,
            flow_with_blower_on,
            ..
        } ==> flow_at_starting != Some(i16::MAX) && flow_with_blower_on != Some(i16::MAX)),
        TelemetryMessage::EolTestSnapshot(x) => x.telemetry_version == 2 && envelope_writable(
            x.version@,
            x.device_id@,
        ) && encode_utf8(eol_text(x.content)).len() <= 255,
        _ => false,
    }
}

/// What a message needs to read back as itself from its protocol v1 frame: boot messages,
/// stopped messages, data snapshots, machine state snapshots, alarm traps and control
/// acknowledgements whose envelope can be written, with no v2 field, a pressure that is not
/// negative, a sub-phase that belongs to the phase, at most 255 alarm codes and a measured volume
/// other than 0xFFFF
pub open spec fn reads_back_v1(m: TelemetryMessage) -> bool {
    match m {
        TelemetryMessage::BootMessage(x) => x.telemetry_version == 1 && envelope_writable(
            x.version@,
            x.device_id@,
        ),
        TelemetryMessage::StoppedMessage(x) => x.telemetry_version == 1 && envelope_writable(
            x.version@,
            x.device_id@,
        ) && x == (StoppedMessage {
            peak_command: None,
            plateau_command: None,
            peep_command: None,
            cpm_command: None,
            expiratory_term: None,
            trigger_enabled: None,
            trigger_offset: None,
            alarm_snoozed: None,
            cpu_load: None,
            ventilation_mode: VentilationMode::PC_AC,
            inspiratory_trigger_flow: None,
            expiratory_trigger_flow: None,
            ti_min: None,
            ti_max: None,
            low_inspiratory_minute_volume_alarm_threshold: None,
            high_inspiratory_minute_volume_alarm_threshold: None,
            low_expiratory_minute_volume_alarm_threshold: None,
            high_expiratory_minute_volume_alarm_threshold: None,
            low_respiratory_rate_alarm_threshold: None,
            high_respiratory_rate_alarm_threshold: None,
            target_tidal_volume: None,
            low_tidal_volume_alarm_threshold: None,
            high_tidal_volume_alarm_threshold: None,
            plateau_duration: None,
            leak_alarm_threshold: None,
            target_inspiratory_flow: None,
            inspiratory_duration_command: None,
            battery_level: None,
            current_alarm_codes: None,
            locale: None,
            patient_height: None,
            patient_gender: None,
            peak_pressure_alarm_threshold: None,
            ..x
        }),
        TelemetryMessage::DataSnapshot(x) => x.telemetry_version == 1 && envelope_writable(
            x.version@,
            x.device_id@,
        ) && x.pressure >= 0 && x.subphase is Some && phase_value_v1(x.phase, x.subphase) != 0
            && x.inspiratory_flow is None && x.expiratory_flow is None,
        TelemetryMessage::AlarmTrap(x) => x.telemetry_version == 1 && envelope_writable(
            x.version@,
            x.device_id@,
        ) && x.pressure >= 0 && x.subphase is Some && phase_value_v1(x.phase, x.subphase) != 0,
        TelemetryMessage::ControlAck(x) => x.telemetry_version == 1 && envelope_writable(
            x.version@,
            x.device_id@,
        ),
        TelemetryMessage::MachineStateSnapshot(x) => x.telemetry_version == 1 && envelope_writable(
            x.version@,
            x.device_id@,
        ) && x.previous_volume != Some(0xffffu16) && x.current_alarm_codes.len() <= 255 && x == (
        MachineStateSnapshot {
            previous_cpm: None,
            alarm_snoozed: None,
            cpu_load: None,
            ventilation_mode: VentilationMode::PC_AC,
            inspiratory_trigger_flow: None,
            expiratory_trigger_flow: None,
            ti_min: None,
            ti_max: None,
            low_inspiratory_minute_volume_alarm_threshold: None,
            high_inspiratory_minute_volume_alarm_threshold: None,
            low_expiratory_minute_volume_alarm_threshold: None,
            high_expiratory_minute_volume_alarm_threshold: None,
            low_respiratory_rate_alarm_threshold: None,
            high_respiratory_rate_alarm_threshold: None,
            target_tidal_volume: None,
            low_tidal_volume_alarm_threshold: None,
            high_tidal_volume_alarm_threshold: None,
            plateau_duration: None,
            leak_alarm_threshold: None,
            target_inspiratory_flow: None,
            inspiratory_duration_command: None,
            previous_inspiratory_duration: None,
            battery_level: None,
            locale: None,
            patient_height: None,
            patient_gender: None,
            peak_pressure_alarm_threshold: None,
            ..x
        }),
        _ => false,
    }
}

/// The frame that a message is written to in protocol `v`
pub open spec fn written_frame(m: TelemetryMessage, v: u8) -> Seq<u8> {
    if v == 1 {
        m.bytes_v1()
    } else {
        m.bytes_v2()
    }
}

/// CRC and footer that close the frame of a body
pub open spec fn trailer_of(payload: Seq<u8>) -> Seq<u8> {
    be32(crc32_of(payload)) + seq![0x30u8, 0xc0]
}

/// A frame reads back as a message when its body, followed by the CRC and footer, does
pub proof fn lemma_frame_of_body(payload: Seq<u8>, m: TelemetryMessage)
    requires
        payload.len() <= 0x1_0000,
        scan_body(payload + trailer_of(payload)) == Scan::Next(payload.len() as usize),
        body_decodes(payload + trailer_of(payload), m),
    ensures
        frame_outcome(frame_bytes(payload)) == FrameOutcome::Record(
            frame_bytes(payload).len() as usize,
        ),
        body_decodes(frame_bytes(payload).subrange(2, frame_bytes(payload).len() as int), m),
{
    reveal(frame_outcome);
    let crc = crc32_of(payload);
    let trailer = trailer_of(payload);
    let frame = frame_bytes(payload);
    assert(frame =~= seq![0x03u8, 0x0c] + (payload + trailer));
    let body = frame.subrange(2, frame.len() as int);
    assert(body =~= payload + trailer);
    let n = payload.len() as int;
    assert(body.subrange(0, n) =~= payload);
    assert forall|i: int| 0 <= i < trailer_rules().len() implies rule_ok(
        #[trigger] trailer_rules()[i],
        frame[2 + n + i],
    ) by {}
    lemma_fixed_ok(frame, 2 + n, trailer_rules());
    lemma_u32_back(frame, 2 + n, crc);
    lemma_fixed_ok(frame, 0, header_rules());
}

/// The protocol v2 body of a message that reads back is read as the message, whatever follows it
pub proof fn lemma_body_reads_back_v2(m: TelemetryMessage, rest: Seq<u8>)
    requires
        reads_back_v2(m),
        rest.len() <= 0x1_0000,
    ensures
        scan_body(payload_v2(m) + rest) == Scan::Next(payload_v2(m).len() as usize),
        v2::scan_message(payload_v2(m) + rest) == Scan::Next(payload_v2(m).len() as usize),
        payload_v2(m).len() <= 0x1000,
        body_decodes(payload_v2(m) + rest, m),
{
    reveal(scan_body);
    reveal(body_decodes);
    let b = payload_v2(m) + rest;
    match m {
        TelemetryMessage::BootMessage(x) => {
            lemma_boot_round_trip(x, 2, rest);
            assert(v2::scan_message(b) == scan_boot(b, 2));
            assert(v2::message_decodes(b, m) == boot_decodes(b, 2, m));
        },
        TelemetryMessage::DataSnapshot(x) => {
            lemma_data_snapshot_v2_round_trip(x, rest);
            assert(v2::scan_message(b) == v2::scan_data_snapshot(b));
            assert(v2::message_decodes(b, m) == v2::data_snapshot_decodes(b, m));
        },
        TelemetryMessage::AlarmTrap(x) => {
            lemma_alarm_trap_v2_round_trip(x, rest);
            assert(v2::scan_message(b) == v2::scan_alarm_trap(b));
            assert(v2::message_decodes(b, m) == v2::alarm_trap_decodes(b, m));
        },
        TelemetryMessage::ControlAck(x) => {
            lemma_control_ack_round_trip(x, 2, rest);
            assert(v2::scan_message(b) == scan_control_ack(b, 2));
            assert(v2::message_decodes(b, m) == control_ack_decodes(b, 2, m));
        },
        TelemetryMessage::FatalError(x) => {
            lemma_fatal_error_round_trip(x, rest);
            assert(v2::scan_message(b) == v2::scan_fatal_error(b));
            assert(v2::message_decodes(b, m) == v2::fatal_error_decodes(b, m));
        },
        TelemetryMessage::EolTestSnapshot(x) => {
            lemma_eol_test_snapshot_round_trip(x, rest);
            assert(v2::scan_message(b) == v2::scan_eol_test_snapshot(b));
            assert(v2::message_decodes(b, m) == v2::eol_test_snapshot_decodes(b, m));
        },
        _ => {},
    }
}

/// The protocol v1 body of a message that reads back is read as the message, whatever follows it
pub proof fn lemma_body_reads_back_v1(m: TelemetryMessage, rest: Seq<u8>)
    requires
        reads_back_v1(m),
        rest.len() <= 0x1_0000,
    ensures
        scan_body(payload_v1(m) + rest) == Scan::Next(payload_v1(m).len() as usize),
        v1::scan_message(payload_v1(m) + rest) == Scan::Next(payload_v1(m).len() as usize),
        (payload_v1(m) + rest).len() >= 3,
        (payload_v1(m) + rest)[1] == 58,
        (payload_v1(m) + rest)[2] == 1,
        payload_v1(m).len() <= 0x1000,
        body_decodes(payload_v1(m) + rest, m),
{
    reveal(scan_body);
    reveal(body_decodes);
    let b = payload_v1(m) + rest;
    match m {
        TelemetryMessage::BootMessage(x) => {
            lemma_boot_round_trip(x, 1, rest);
            lemma_other_version(b, 66, 2);
            reveal(scan_boot);
        },
        TelemetryMessage::StoppedMessage(x) => {
            lemma_stopped_v1_round_trip(x, rest);
            lemma_other_version(b, 79, 2);
            reveal(v2::scan_stopped);
        },
        TelemetryMessage::DataSnapshot(x) => {
            lemma_data_snapshot_v1_round_trip(x, rest);
            lemma_other_version(b, 68, 2);
            reveal(v2::scan_data_snapshot);
        },
        TelemetryMessage::AlarmTrap(x) => {
            lemma_alarm_trap_v1_round_trip(x, rest);
            lemma_other_version(b, 84, 2);
            reveal(v2::scan_alarm_trap);
        },
        TelemetryMessage::ControlAck(x) => {
            lemma_control_ack_round_trip(x, 1, rest);
            lemma_other_version(b, 65, 2);
            reveal(scan_control_ack);
        },
        TelemetryMessage::MachineStateSnapshot(x) => {
            lemma_machine_state_snapshot_v1_round_trip(x, rest);
            lemma_other_version(b, 83, 2);
            reveal(v2::scan_machine_state_snapshot);
        },
        _ => {},
    }
}

/// A message written to a frame reads back as itself: reading the frame gives a message that
/// covers the whole frame and is the one written
pub proof fn lemma_written_frame_reads_back(m: TelemetryMessage, v: u8)
    requires
        (v == 1 && reads_back_v1(m)) || (v == 2 && reads_back_v2(m)),
    ensures
        frame_outcome(written_frame(m, v)) == FrameOutcome::Record(written_frame(m, v).len() as usize),
        body_decodes(
            written_frame(m, v).subrange(2, written_frame(m, v).len() as int),
            m,
        ),
{
    let payload = if v == 1 {
        payload_v1(m)
    } else {
        payload_v2(m)
    };
    if v == 1 {
        lemma_body_reads_back_v1(m, trailer_of(payload));
    } else {
        lemma_body_reads_back_v2(m, trailer_of(payload));
    }
    lemma_frame_of_body(payload, m);
}

/// A frame whose body reads as a message but whose CRC field is not the CRC of the body is rejected
/// with both CRC values, and the whole frame is skipped
#[verifier::rlimit(100)]
pub proof fn lemma_wrong_crc_of_body(payload: Seq<u8>, crc: u32, rest: Seq<u8>)
    requires
        payload.len() <= 0x1000,
        rest.len() <= 0x1000,
        crc != crc32_of(payload),
        scan_body(payload + (be32(crc) + seq![0x30u8, 0xc0] + rest)) == Scan::Next(
            payload.len() as usize,
        ),
    ensures
        ({
            let frame = seq![0x03u8, 0x0c] + payload + be32(crc) + seq![0x30u8, 0xc0];
            &&& frame_outcome(frame + rest) == FrameOutcome::Rejected(
                TelemetryError(
                    frame.len() as usize,
                    TelemetryErrorKind::CrcError { expected: crc, computed: crc32_of(payload) },
                ),
            )
            &&& next_buffer(frame + rest) == rest
        }),
{
    reveal(frame_outcome);
    let trailer = be32(crc) + seq![0x30u8, 0xc0];
    let frame = seq![0x03u8, 0x0c] + payload + trailer;
    assert(frame =~= seq![0x03u8, 0x0c] + payload + be32(crc) + seq![0x30u8, 0xc0]);
    let b = frame + rest;
    assert(b =~= seq![0x03u8, 0x0c] + (payload + (trailer + rest)));
    let body = b.subrange(2, b.len() as int);
    assert(body =~= payload + (trailer + rest));
    let n = payload.len() as int;
    assert(body.subrange(0, n) =~= payload);
    assert forall|i: int| 0 <= i < trailer_rules().len() implies rule_ok(
        #[trigger] trailer_rules()[i],
        b[2 + n + i],
    ) by {}
    lemma_fixed_ok(b, 2 + n, trailer_rules());
    lemma_u32_back(b, 2 + n, crc);
    lemma_fixed_ok(b, 0, header_rules());
    assert(b.subrange(frame.len() as int, b.len() as int) =~= rest);
}

/// The frame of a message that reads back, but with a CRC field that is not the CRC of its body,
/// is rejected with the CRC it holds and the CRC of its body, and the whole frame is skipped
pub proof fn lemma_wrong_crc_rejected(m: TelemetryMessage, v: u8, crc: u32, rest: Seq<u8>)
    requires
        (v == 1 && reads_back_v1(m)) || (v == 2 && reads_back_v2(m)),
        crc != crc32_of(if v == 1 {
            payload_v1(m)
        } else {
            payload_v2(m)
        }),
        rest.len() <= 0x1000,
    ensures
        ({
            let payload = if v == 1 {
                payload_v1(m)
            } else {
                payload_v2(m)
            };
            let frame = seq![0x03u8, 0x0c] + payload + be32(crc) + seq![0x30u8, 0xc0];
            &&& frame_outcome(frame + rest) == FrameOutcome::Rejected(
                TelemetryError(
                    frame.len() as usize,
                    TelemetryErrorKind::CrcError { expected: crc, computed: crc32_of(payload) },
                ),
            )
            &&& next_buffer(frame + rest) == rest
        }),
{
    let payload = if v == 1 {
        payload_v1(m)
    } else {
        payload_v2(m)
    };
    let after = be32(crc) + seq![0x30u8, 0xc0] + rest;
    if v == 1 {
        lemma_body_reads_back_v1(m, after);
    } else {
        lemma_body_reads_back_v2(m, after);
    }
    lemma_wrong_crc_of_body(payload, crc, rest);
}

/// Bytes in which no frame header starts, then the frame of a message that reads back: after as
/// many readings as there are such bytes, the buffer holds the frame, and reading it gives the
/// message
pub proof fn lemma_garbage_then_frame(garbage: Seq<u8>, m: TelemetryMessage, v: u8)
    requires
        (v == 1 && reads_back_v1(m)) || (v == 2 && reads_back_v2(m)),
        garbage.len() <= 0x1_0000,
        header_free(garbage + written_frame(m, v), garbage.len() as int),
    ensures
        buffer_after(garbage + written_frame(m, v), garbage.len()) == written_frame(m, v),
        frame_outcome(written_frame(m, v)) == FrameOutcome::Record(written_frame(m, v).len() as usize),
        body_decodes(
            written_frame(m, v).subrange(2, written_frame(m, v).len() as int),
            m,
        ),
{
    let payload = if v == 1 {
        payload_v1(m)
    } else {
        payload_v2(m)
    };
    if v == 1 {
        lemma_body_reads_back_v1(m, trailer_of(payload));
    } else {
        lemma_body_reads_back_v2(m, trailer_of(payload));
    }
    lemma_written_frame_reads_back(m, v);
    lemma_resync(garbage, written_frame(m, v));
}

/// Alarm codes and the fixed-size part before them, as written
pub open spec fn machine_state_front(x: MachineStateSnapshot, v: u8) -> Seq<u8> {
    envelope_bytes(83, v, x.version@, x.device_id@, x.systick) + seq![9u8] + be32(x.cycle)
        + seq![9u8] + seq![x.peak_command] + seq![9u8] + seq![x.plateau_command] + seq![9u8]
        + seq![x.peep_command] + seq![9u8] + seq![x.cpm_command] + seq![9u8] + be16(
        x.previous_peak_pressure,
    ) + seq![9u8] + be16(x.previous_plateau_pressure) + seq![9u8] + be16(
        x.previous_peep_pressure,
    ) + seq![9u8] + array_bytes(x.current_alarm_codes@) + seq![9u8]
}

#[verifier::spinoff_prover]
proof fn lemma_volume_slot_v1(x: MachineStateSnapshot)
    ensures
        machine_state_snapshot_body_v1(x).subrange(
            0,
            machine_state_front(x, 1).len() + 2int,
        ) == machine_state_front(x, 1) + be16(volume_code(x.previous_volume)),
{
    assert(machine_state_snapshot_body_v1(x).subrange(0, machine_state_front(x, 1).len() + 2int)
        =~= machine_state_front(x, 1) + be16(volume_code(x.previous_volume)));
}

#[verifier::spinoff_prover]
#[verifier::rlimit(100)]
proof fn lemma_volume_slot_v2(x: MachineStateSnapshot)
    ensures
        machine_state_front(x, 2).len() + 2 <= machine_state_snapshot_body_v2(x).len(),
        machine_state_snapshot_body_v2(x).subrange(
            0,
            machine_state_front(x, 2).len() + 2int,
        ) == machine_state_front(x, 2) + be16(volume_code(x.previous_volume)),
{
    lemma_machine_state_snapshot_v2_parts(x);
    let env = envelope_bytes(83, 2, x.version@, x.device_id@, x.systick);
    let f = env + machine_state_snapshot_v2_part0_bytes(x) + machine_state_snapshot_v2_part1_bytes(x)
        + array_bytes(x.current_alarm_codes@) + machine_state_snapshot_v2_part2_bytes(x);
    let body = machine_state_snapshot_body_v2(x);
    assert(body.subrange(0, f.len() as int) =~= f);
    assert(f.subrange(0, machine_state_front(x, 2).len() + 2int) =~= machine_state_front(x, 2)
        + be16(volume_code(x.previous_volume)));
    assert(body.subrange(0, machine_state_front(x, 2).len() + 2int) =~= f.subrange(
        0,
        machine_state_front(x, 2).len() + 2int,
    ));
}

/// A machine state snapshot without a measured volume is written, in protocol v1 and v2, with
/// 0xFFFF where the volume goes (after the alarm codes and a separator), and 0xFFFF in that place
/// reads as no volume
#[verifier::spinoff_prover]
#[verifier::rlimit(100)]
pub proof fn lemma_volume_sentinel(x: MachineStateSnapshot, v: u8)
    requires
        x.previous_volume is None,
        v == 1 || v == 2,
    ensures
        ({
            let body = if v == 1 {
                machine_state_snapshot_body_v1(x)
            } else {
                machine_state_snapshot_body_v2(x)
            };
            let p = machine_state_front(x, v).len() as int;
            &&& p + 2 <= body.len()
            &&& body[p] == 0xff
            &&& body[p + 1] == 0xff
        }),
        crate::parsers::volume_of(0xffff) is None,
        forall|u: u16| u != 0xffff ==> crate::parsers::volume_of(u) == Some(u),
{
    let p = machine_state_front(x, v).len() as int;
    if v == 1 {
        lemma_volume_slot_v1(x);
        let body = machine_state_snapshot_body_v1(x);
        assert(body.subrange(0, p + 2)[p] == body[p]);
        assert(body.subrange(0, p + 2)[p + 1] == body[p + 1]);
    } else {
        lemma_volume_slot_v2(x);
        let body = machine_state_snapshot_body_v2(x);
        assert(body.subrange(0, p + 2)[p] == body[p]);
        assert(body.subrange(0, p + 2)[p + 1] == body[p + 1]);
    }
}

} // verus!
