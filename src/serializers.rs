use vstd::prelude::*;
use vstd::string::*;
use vstd::utf8::*;

use crate::control::setting_code;
use crate::framing::{crc32, crc32_of};
use crate::locale::Locale;
use crate::structures::{
    eol_step_code, ventilation_mode_code, AlarmPriority, AlarmTrap, BootMessage, ControlAck,
    DataSnapshot, EolTestSnapshot, EolTestSnapshotContent, FatalError, FatalErrorDetails,
    MachineStateSnapshot, PatientGender, Phase, StoppedMessage, SubPhase, TelemetryMessage,
};
use crate::text::split_device_id_spec;
use crate::wire::{
    array_bytes, be16, be32, be64, be_i16, gender_code, gender_value, mode_code, mode_value,
    push_all, push_array, push_i16, push_one, push_u16, push_u32, push_u64,
};

pub use crate::text::split_device_id;

verus! {

/// Value of an optional byte, 0 when absent
pub open spec fn u8_or_zero(o: Option<u8>) -> u8 {
    match o {
        Some(x) => x,
        None => 0,
    }
}

/// Value of an optional u16, 0 when absent
pub open spec fn u16_or_zero(o: Option<u16>) -> u16 {
    match o {
        Some(x) => x,
        None => 0,
    }
}

/// Value of an optional i16, 0 when absent
pub open spec fn i16_or_zero(o: Option<i16>) -> i16 {
    match o {
        Some(x) => x,
        None => 0,
    }
}

/// Byte of a boolean: 1 for true, 0 for false
pub open spec fn bool_byte(b: bool) -> u8 {
    if b {
        1
    } else {
        0
    }
}

/// Wire value of an optional measured volume: absent is 0xFFFF
pub open spec fn volume_code(o: Option<u16>) -> u16 {
    match o {
        Some(x) => x,
        None => 0xffff,
    }
}

/// Wire value of an optional locale: absent is the default locale, "en"
pub open spec fn locale_code(o: Option<Locale>) -> u16 {
    match o {
        Some(l) => l.0,
        None => 0x656e,
    }
}

/// Wire value of an optional gender: absent is the default gender, male
pub open spec fn gender_or_male(o: Option<PatientGender>) -> u8 {
    match o {
        Some(g) => gender_code(g),
        None => 0,
    }
}

/// Wire value of an optional flow: absent is `i16::MAX`
pub open spec fn flow_code(o: Option<i16>) -> i16 {
    match o {
        Some(x) => x,
        None => i16::MAX,
    }
}

/// Alarm codes of a stopped message, empty when absent
pub open spec fn codes_or_empty(o: Option<Vec<u8>>) -> Seq<u8> {
    match o {
        Some(c) => c@,
        None => Seq::empty(),
    }
}

/// Protocol v1 wire value of a phase and sub-phase; a missing sub-phase is the first one of the
/// phase, and a sub-phase of the other phase gives 0
pub open spec fn phase_value_v1(phase: Phase, subphase: Option<SubPhase>) -> u8 {
    let s = match subphase {
        Some(s) => s,
        None => match phase {
            Phase::Inhalation => SubPhase::Inspiration,
            Phase::Exhalation => SubPhase::Exhale,
        },
    };
    match (phase, s) {
        (Phase::Inhalation, SubPhase::Inspiration) => 17,
        (Phase::Inhalation, SubPhase::HoldInspiration) => 18,
        (Phase::Exhalation, SubPhase::Exhale) => 68,
        _ => 0,
    }
}

/// Protocol v2 wire value of a phase
pub open spec fn phase_value_v2(phase: Phase) -> u8 {
    match phase {
        Phase::Inhalation => 17,
        Phase::Exhalation => 68,
    }
}

/// Wire value of an alarm priority
pub open spec fn alarm_priority_value(p: AlarmPriority) -> u8 {
    match p {
        AlarmPriority::High => 4,
        AlarmPriority::Medium => 2,
        AlarmPriority::Low => 1,
    }
}

/// Wire value of an alarm state
pub open spec fn triggered_byte(t: bool) -> u8 {
    if t {
        0xf0
    } else {
        0x0f
    }
}

#[verifier::opaque]
/// Envelope of a message body: "K:", version, firmware version (length-prefixed UTF-8), the three
/// numbers of the device ID, separator, systick
pub open spec fn envelope_bytes(
    k: u8,
    v: u8,
    version: Seq<char>,
    device_id: Seq<char>,
    systick: u64,
) -> Seq<u8> {
    let id = split_device_id_spec(device_id);
    seq![k, 58, v] + array_bytes(encode_utf8(version)) + be32(id.0) + be32(id.1) + be32(id.2)
        + seq![9u8] + be64(systick)
}

fn or_zero_u8(o: Option<u8>) -> (r: u8)
    ensures
        r == u8_or_zero(o),
{
    match o {
        Some(x) => x,
        None => 0,
    }
}

fn or_zero_u16(o: Option<u16>) -> (r: u16)
    ensures
        r == u16_or_zero(o),
{
    match o {
        Some(x) => x,
        None => 0,
    }
}

fn or_zero_i16(o: Option<i16>) -> (r: i16)
    ensures
        r == i16_or_zero(o),
{
    match o {
        Some(x) => x,
        None => 0,
    }
}

fn opt_bool_byte(o: Option<bool>) -> (r: u8)
    ensures
        r == bool_byte(o == Some(true)),
{
    match o {
        Some(true) => 1,
        _ => 0,
    }
}

fn volume_value(o: Option<u16>) -> (r: u16)
    ensures
        r == volume_code(o),
{
    match o {
        Some(x) => x,
        None => 0xffff,
    }
}

fn locale_value(o: Option<Locale>) -> (r: u16)
    ensures
        r == locale_code(o),
{
    match o {
        Some(l) => l.as_u16(),
        None => Locale::default().as_u16(),
    }
}

fn gender_or_male_value(o: Option<PatientGender>) -> (r: u8)
    ensures
        r == gender_or_male(o),
{
    match o {
        Some(g) => gender_value(g),
        None => 0,
    }
}

fn flow_value(o: Option<i16>) -> (r: i16)
    ensures
        r == flow_code(o),
{
    match o {
        Some(x) => x,
        None => i16::MAX,
    }
}

/// Protocol v1 wire value of a phase and sub-phase
pub fn phase_byte_v1(phase: Phase, subphase: Option<SubPhase>) -> (r: u8)
    ensures
        r == phase_value_v1(phase, subphase),
{
    let s = match subphase {
        Some(s) => s,
        None => match phase {
            Phase::Inhalation => SubPhase::Inspiration,
            Phase::Exhalation => SubPhase::Exhale,
        },
    };
    match (phase, s) {
        (Phase::Inhalation, SubPhase::Inspiration) => 17,
        (Phase::Inhalation, SubPhase::HoldInspiration) => 18,
        (Phase::Exhalation, SubPhase::Exhale) => 68,
        _ => 0,
    }
}

/// Protocol v2 wire value of a phase
pub fn phase_byte_v2(phase: Phase) -> (r: u8)
    ensures
        r == phase_value_v2(phase),
{
    match phase {
        Phase::Inhalation => 17,
        Phase::Exhalation => 68,
    }
}

/// Wire value of an alarm priority
pub fn alarm_priority_byte(p: AlarmPriority) -> (r: u8)
    ensures
        r == alarm_priority_value(p),
{
    match p {
        AlarmPriority::High => 4,
        AlarmPriority::Medium => 2,
        AlarmPriority::Low => 1,
    }
}

/// Bytes of the envelope of a message body
fn envelope_vec(k: u8, v: u8, version: &String, device_id: &String, systick: u64) -> (r: Vec<
    u8,
>)
    ensures
        r@ == envelope_bytes(k, v, version@, device_id@, systick),
{
    let mut r: Vec<u8> = Vec::new();
    push_one(&mut r, k);
    push_one(&mut r, 58);
    push_one(&mut r, v);
    let text = version.as_str().as_bytes();
    push_array(&mut r, text);
    let id = split_device_id(device_id.as_str());
    push_u32(&mut r, id.0);
    push_u32(&mut r, id.1);
    push_u32(&mut r, id.2);
    push_one(&mut r, 9);
    push_u64(&mut r, systick);
    reveal(envelope_bytes);
    assert(r@ =~= envelope_bytes(k, v, version@, device_id@, systick));
    r
}

/// Body of a boot message in protocol v1
pub open spec fn boot_body_v1(x: BootMessage) -> Seq<u8> {
    envelope_bytes(66, 1, x.version@, x.device_id@, x.systick)
        + seq![9u8]
        + seq![mode_code(x.mode)]
        + seq![9u8]
        + seq![x.value128]
        + seq![10u8]
}

/// Body of a boot message in protocol v2
pub open spec fn boot_body_v2(x: BootMessage) -> Seq<u8> {
    envelope_bytes(66, 2, x.version@, x.device_id@, x.systick)
        + seq![9u8]
        + seq![mode_code(x.mode)]
        + seq![9u8]
        + seq![x.value128]
        + seq![10u8]
}

/// Body of a stopped message in protocol v1
pub open spec fn stopped_body_v1(x: StoppedMessage) -> Seq<u8> {
    envelope_bytes(79, 1, x.version@, x.device_id@, x.systick)
        + seq![10u8]
}

/// Part 0 of the fixed-size fields of a stopped message in protocol v2, as written after `pre`
#[verifier::opaque]
pub open spec fn stopped_v2_part0(pre: Seq<u8>, x: StoppedMessage) -> Seq<u8> {
    pre + seq![9u8] + seq![u8_or_zero(x.peak_command)] + seq![9u8] + seq![u8_or_zero(x.plateau_command)] + seq![9u8] + seq![u8_or_zero(x.peep_command)] + seq![9u8] + seq![u8_or_zero(x.cpm_command)] + seq![9u8]
}

/// Bytes of part 0 of the fixed-size fields of a stopped message in protocol v2
pub open spec fn stopped_v2_part0_bytes(x: StoppedMessage) -> Seq<u8> {
    seq![9u8] + seq![u8_or_zero(x.peak_command)] + seq![9u8] + seq![u8_or_zero(x.plateau_command)] + seq![9u8] + seq![u8_or_zero(x.peep_command)] + seq![9u8] + seq![u8_or_zero(x.cpm_command)] + seq![9u8]
}

/// Part 1 of the fixed-size fields of a stopped message in protocol v2, as written after `pre`
#[verifier::opaque]
pub open spec fn stopped_v2_part1(pre: Seq<u8>, x: StoppedMessage) -> Seq<u8> {
    pre + seq![u8_or_zero(x.expiratory_term)] + seq![9u8] + seq![bool_byte(x.trigger_enabled == Some(true))] + seq![9u8] + seq![u8_or_zero(x.trigger_offset)] + seq![9u8] + seq![bool_byte(x.alarm_snoozed == Some(true))] + seq![9u8]
}

/// Bytes of part 1 of the fixed-size fields of a stopped message in protocol v2
pub open spec fn stopped_v2_part1_bytes(x: StoppedMessage) -> Seq<u8> {
    seq![u8_or_zero(x.expiratory_term)] + seq![9u8] + seq![bool_byte(x.trigger_enabled == Some(true))] + seq![9u8] + seq![u8_or_zero(x.trigger_offset)] + seq![9u8] + seq![bool_byte(x.alarm_snoozed == Some(true))] + seq![9u8]
}

/// Part 2 of the fixed-size fields of a stopped message in protocol v2, as written after `pre`
#[verifier::opaque]
pub open spec fn stopped_v2_part2(pre: Seq<u8>, x: StoppedMessage) -> Seq<u8> {
    pre + seq![u8_or_zero(x.cpu_load)] + seq![9u8] + seq![ventilation_mode_code(x.ventilation_mode)] + seq![9u8] + seq![u8_or_zero(x.inspiratory_trigger_flow)] + seq![9u8] + seq![u8_or_zero(x.expiratory_trigger_flow)] + seq![9u8]
}

/// Bytes of part 2 of the fixed-size fields of a stopped message in protocol v2
pub open spec fn stopped_v2_part2_bytes(x: StoppedMessage) -> Seq<u8> {
    seq![u8_or_zero(x.cpu_load)] + seq![9u8] + seq![ventilation_mode_code(x.ventilation_mode)] + seq![9u8] + seq![u8_or_zero(x.inspiratory_trigger_flow)] + seq![9u8] + seq![u8_or_zero(x.expiratory_trigger_flow)] + seq![9u8]
}

/// Part 3 of the fixed-size fields of a stopped message in protocol v2, as written after `pre`
#[verifier::opaque]
pub open spec fn stopped_v2_part3(pre: Seq<u8>, x: StoppedMessage) -> Seq<u8> {
    pre + be16(u16_or_zero(x.ti_min)) + seq![9u8] + be16(u16_or_zero(x.ti_max)) + seq![9u8] + seq![u8_or_zero(x.low_inspiratory_minute_volume_alarm_threshold)] + seq![9u8] + seq![u8_or_zero(x.high_inspiratory_minute_volume_alarm_threshold)] + seq![9u8]
}

/// Bytes of part 3 of the fixed-size fields of a stopped message in protocol v2
pub open spec fn stopped_v2_part3_bytes(x: StoppedMessage) -> Seq<u8> {
    be16(u16_or_zero(x.ti_min)) + seq![9u8] + be16(u16_or_zero(x.ti_max)) + seq![9u8] + seq![u8_or_zero(x.low_inspiratory_minute_volume_alarm_threshold)] + seq![9u8] + seq![u8_or_zero(x.high_inspiratory_minute_volume_alarm_threshold)] + seq![9u8]
}

/// Part 4 of the fixed-size fields of a stopped message in protocol v2, as written after `pre`
#[verifier::opaque]
pub open spec fn stopped_v2_part4(pre: Seq<u8>, x: StoppedMessage) -> Seq<u8> {
    pre + seq![u8_or_zero(x.low_expiratory_minute_volume_alarm_threshold)] + seq![9u8] + seq![u8_or_zero(x.high_expiratory_minute_volume_alarm_threshold)] + seq![9u8] + seq![u8_or_zero(x.low_respiratory_rate_alarm_threshold)] + seq![9u8] + seq![u8_or_zero(x.high_respiratory_rate_alarm_threshold)] + seq![9u8]
}

/// Bytes of part 4 of the fixed-size fields of a stopped message in protocol v2
pub open spec fn stopped_v2_part4_bytes(x: StoppedMessage) -> Seq<u8> {
    seq![u8_or_zero(x.low_expiratory_minute_volume_alarm_threshold)] + seq![9u8] + seq![u8_or_zero(x.high_expiratory_minute_volume_alarm_threshold)] + seq![9u8] + seq![u8_or_zero(x.low_respiratory_rate_alarm_threshold)] + seq![9u8] + seq![u8_or_zero(x.high_respiratory_rate_alarm_threshold)] + seq![9u8]
}

/// Part 5 of the fixed-size fields of a stopped message in protocol v2, as written after `pre`
#[verifier::opaque]
pub open spec fn stopped_v2_part5(pre: Seq<u8>, x: StoppedMessage) -> Seq<u8> {
    pre + be16(u16_or_zero(x.target_tidal_volume)) + seq![9u8] + be16(u16_or_zero(x.low_tidal_volume_alarm_threshold)) + seq![9u8] + be16(u16_or_zero(x.high_tidal_volume_alarm_threshold)) + seq![9u8] + be16(u16_or_zero(x.plateau_duration)) + seq![9u8]
}

/// Bytes of part 5 of the fixed-size fields of a stopped message in protocol v2
pub open spec fn stopped_v2_part5_bytes(x: StoppedMessage) -> Seq<u8> {
    be16(u16_or_zero(x.target_tidal_volume)) + seq![9u8] + be16(u16_or_zero(x.low_tidal_volume_alarm_threshold)) + seq![9u8] + be16(u16_or_zero(x.high_tidal_volume_alarm_threshold)) + seq![9u8] + be16(u16_or_zero(x.plateau_duration)) + seq![9u8]
}

/// Part 6 of the fixed-size fields of a stopped message in protocol v2, as written after `pre`
#[verifier::opaque]
pub open spec fn stopped_v2_part6(pre: Seq<u8>, x: StoppedMessage) -> Seq<u8> {
    pre + be16(u16_or_zero(x.leak_alarm_threshold)) + seq![9u8] + seq![u8_or_zero(x.target_inspiratory_flow)] + seq![9u8] + be16(u16_or_zero(x.inspiratory_duration_command)) + seq![9u8] + be16(u16_or_zero(x.battery_level)) + seq![9u8]
}

/// Bytes of part 6 of the fixed-size fields of a stopped message in protocol v2
pub open spec fn stopped_v2_part6_bytes(x: StoppedMessage) -> Seq<u8> {
    be16(u16_or_zero(x.leak_alarm_threshold)) + seq![9u8] + seq![u8_or_zero(x.target_inspiratory_flow)] + seq![9u8] + be16(u16_or_zero(x.inspiratory_duration_command)) + seq![9u8] + be16(u16_or_zero(x.battery_level)) + seq![9u8]
}

/// Part 7 of the fixed-size fields of a stopped message in protocol v2, as written after `pre`
#[verifier::opaque]
pub open spec fn stopped_v2_part7(pre: Seq<u8>, x: StoppedMessage) -> Seq<u8> {
    pre + seq![9u8] + be16(locale_code(x.locale)) + seq![9u8] + seq![u8_or_zero(x.patient_height)] + seq![9u8] + seq![gender_or_male(x.patient_gender)] + seq![9u8] + be16(u16_or_zero(x.peak_pressure_alarm_threshold)) + seq![10u8]
}

/// Bytes of part 7 of the fixed-size fields of a stopped message in protocol v2
pub open spec fn stopped_v2_part7_bytes(x: StoppedMessage) -> Seq<u8> {
    seq![9u8] + be16(locale_code(x.locale)) + seq![9u8] + seq![u8_or_zero(x.patient_height)] + seq![9u8] + seq![gender_or_male(x.patient_gender)] + seq![9u8] + be16(u16_or_zero(x.peak_pressure_alarm_threshold)) + seq![10u8]
}

#[verifier::spinoff_prover]
proof fn lemma_stopped_v2_part0(pre: Seq<u8>, x: StoppedMessage)
    ensures
        stopped_v2_part0(pre, x) == pre + stopped_v2_part0_bytes(x),
{
    reveal(stopped_v2_part0);
    assert(stopped_v2_part0(pre, x) =~= pre + stopped_v2_part0_bytes(x));
}

#[verifier::spinoff_prover]
proof fn lemma_stopped_v2_part1(pre: Seq<u8>, x: StoppedMessage)
    ensures
        stopped_v2_part1(pre, x) == pre + stopped_v2_part1_bytes(x),
{
    reveal(stopped_v2_part1);
    assert(stopped_v2_part1(pre, x) =~= pre + stopped_v2_part1_bytes(x));
}

#[verifier::spinoff_prover]
proof fn lemma_stopped_v2_part2(pre: Seq<u8>, x: StoppedMessage)
    ensures
        stopped_v2_part2(pre, x) == pre + stopped_v2_part2_bytes(x),
{
    reveal(stopped_v2_part2);
    assert(stopped_v2_part2(pre, x) =~= pre + stopped_v2_part2_bytes(x));
}

#[verifier::spinoff_prover]
proof fn lemma_stopped_v2_part3(pre: Seq<u8>, x: StoppedMessage)
    ensures
        stopped_v2_part3(pre, x) == pre + stopped_v2_part3_bytes(x),
{
    reveal(stopped_v2_part3);
    assert(stopped_v2_part3(pre, x) =~= pre + stopped_v2_part3_bytes(x));
}

#[verifier::spinoff_prover]
proof fn lemma_stopped_v2_part4(pre: Seq<u8>, x: StoppedMessage)
    ensures
        stopped_v2_part4(pre, x) == pre + stopped_v2_part4_bytes(x),
{
    reveal(stopped_v2_part4);
    assert(stopped_v2_part4(pre, x) =~= pre + stopped_v2_part4_bytes(x));
}

#[verifier::spinoff_prover]
proof fn lemma_stopped_v2_part5(pre: Seq<u8>, x: StoppedMessage)
    ensures
        stopped_v2_part5(pre, x) == pre + stopped_v2_part5_bytes(x),
{
    reveal(stopped_v2_part5);
    assert(stopped_v2_part5(pre, x) =~= pre + stopped_v2_part5_bytes(x));
}

#[verifier::spinoff_prover]
proof fn lemma_stopped_v2_part6(pre: Seq<u8>, x: StoppedMessage)
    ensures
        stopped_v2_part6(pre, x) == pre + stopped_v2_part6_bytes(x),
{
    reveal(stopped_v2_part6);
    assert(stopped_v2_part6(pre, x) =~= pre + stopped_v2_part6_bytes(x));
}

#[verifier::spinoff_prover]
proof fn lemma_stopped_v2_part7(pre: Seq<u8>, x: StoppedMessage)
    ensures
        stopped_v2_part7(pre, x) == pre + stopped_v2_part7_bytes(x),
{
    reveal(stopped_v2_part7);
    assert(stopped_v2_part7(pre, x) =~= pre + stopped_v2_part7_bytes(x));
}

/// Body of a stopped message in protocol v2
pub open spec fn stopped_body_v2(x: StoppedMessage) -> Seq<u8> {
    stopped_v2_part7(stopped_v2_part6(stopped_v2_part5(stopped_v2_part4(stopped_v2_part3(stopped_v2_part2(stopped_v2_part1(stopped_v2_part0(envelope_bytes(79, 2, x.version@, x.device_id@, x.systick), x), x), x), x), x), x), x) + array_bytes(codes_or_empty(x.current_alarm_codes)), x)
}

/// The body of a stopped message in protocol v2, part by part
pub proof fn lemma_stopped_v2_parts(x: StoppedMessage)
    ensures
        stopped_body_v2(x) == envelope_bytes(79, 2, x.version@, x.device_id@, x.systick) + stopped_v2_part0_bytes(x) + stopped_v2_part1_bytes(x) + stopped_v2_part2_bytes(x) + stopped_v2_part3_bytes(x) + stopped_v2_part4_bytes(x) + stopped_v2_part5_bytes(x) + stopped_v2_part6_bytes(x) + array_bytes(codes_or_empty(x.current_alarm_codes)) + stopped_v2_part7_bytes(x),
{
    lemma_stopped_v2_part0(envelope_bytes(79, 2, x.version@, x.device_id@, x.systick), x);
    lemma_stopped_v2_part1(stopped_v2_part0(envelope_bytes(79, 2, x.version@, x.device_id@, x.systick), x), x);
    lemma_stopped_v2_part2(stopped_v2_part1(stopped_v2_part0(envelope_bytes(79, 2, x.version@, x.device_id@, x.systick), x), x), x);
    lemma_stopped_v2_part3(stopped_v2_part2(stopped_v2_part1(stopped_v2_part0(envelope_bytes(79, 2, x.version@, x.device_id@, x.systick), x), x), x), x);
    lemma_stopped_v2_part4(stopped_v2_part3(stopped_v2_part2(stopped_v2_part1(stopped_v2_part0(envelope_bytes(79, 2, x.version@, x.device_id@, x.systick), x), x), x), x), x);
    lemma_stopped_v2_part5(stopped_v2_part4(stopped_v2_part3(stopped_v2_part2(stopped_v2_part1(stopped_v2_part0(envelope_bytes(79, 2, x.version@, x.device_id@, x.systick), x), x), x), x), x), x);
    lemma_stopped_v2_part6(stopped_v2_part5(stopped_v2_part4(stopped_v2_part3(stopped_v2_part2(stopped_v2_part1(stopped_v2_part0(envelope_bytes(79, 2, x.version@, x.device_id@, x.systick), x), x), x), x), x), x), x);
    lemma_stopped_v2_part7(stopped_v2_part6(stopped_v2_part5(stopped_v2_part4(stopped_v2_part3(stopped_v2_part2(stopped_v2_part1(stopped_v2_part0(envelope_bytes(79, 2, x.version@, x.device_id@, x.systick), x), x), x), x), x), x), x) + array_bytes(codes_or_empty(x.current_alarm_codes)), x);
}

/// Body of a data snapshot in protocol v1
pub open spec fn data_snapshot_body_v1(x: DataSnapshot) -> Seq<u8> {
    envelope_bytes(68, 1, x.version@, x.device_id@, x.systick)
        + seq![9u8]
        + be16(x.centile)
        + seq![9u8]
        + be_i16(x.pressure)
        + seq![9u8]
        + seq![phase_value_v1(x.phase, x.subphase)]
        + seq![9u8]
        + seq![x.blower_valve_position]
        + seq![9u8]
        + seq![x.patient_valve_position]
        + seq![9u8]
        + seq![x.blower_rpm]
        + seq![9u8]
        + seq![x.battery_level]
        + seq![10u8]
}

/// Body of a data snapshot in protocol v2
pub open spec fn data_snapshot_body_v2(x: DataSnapshot) -> Seq<u8> {
    envelope_bytes(68, 2, x.version@, x.device_id@, x.systick)
        + seq![9u8]
        + be16(x.centile)
        + seq![9u8]
        + be_i16(x.pressure)
        + seq![9u8]
        + seq![phase_value_v2(x.phase)]
        + seq![9u8]
        + seq![x.blower_valve_position]
        + seq![9u8]
        + seq![x.patient_valve_position]
        + seq![9u8]
        + seq![x.blower_rpm]
        + seq![9u8]
        + seq![x.battery_level]
        + seq![9u8]
        + be_i16(i16_or_zero(x.inspiratory_flow))
        + seq![9u8]
        + be_i16(i16_or_zero(x.expiratory_flow))
        + seq![10u8]
}

/// Body of a machine state snapshot in protocol v1
pub open spec fn machine_state_snapshot_body_v1(x: MachineStateSnapshot) -> Seq<u8> {
    envelope_bytes(83, 1, x.version@, x.device_id@, x.systick)
        + seq![9u8]
        + be32(x.cycle)
        + seq![9u8]
        + seq![x.peak_command]
        + seq![9u8]
        + seq![x.plateau_command]
        + seq![9u8]
        + seq![x.peep_command]
        + seq![9u8]
        + seq![x.cpm_command]
        + seq![9u8]
        + be16(x.previous_peak_pressure)
        + seq![9u8]
        + be16(x.previous_plateau_pressure)
        + seq![9u8]
        + be16(x.previous_peep_pressure)
        + seq![9u8]
        + array_bytes(x.current_alarm_codes@)
        + seq![9u8]
        + be16(volume_code(x.previous_volume))
        + seq![9u8]
        + seq![x.expiratory_term]
        + seq![9u8]
        + seq![bool_byte(x.trigger_enabled)]
        + seq![9u8]
        + seq![x.trigger_offset]
        + seq![10u8]
}

/// Part 0 of the fixed-size fields of a machine state snapshot in protocol v2, as written after `pre`
#[verifier::opaque]
pub open spec fn machine_state_snapshot_v2_part0(pre: Seq<u8>, x: MachineStateSnapshot) -> Seq<u8> {
    pre + seq![9u8] + be32(x.cycle) + seq![9u8] + seq![x.peak_command] + seq![9u8] + seq![x.plateau_command] + seq![9u8] + seq![x.peep_command] + seq![9u8]
}

/// Bytes of part 0 of the fixed-size fields of a machine state snapshot in protocol v2
pub open spec fn machine_state_snapshot_v2_part0_bytes(x: MachineStateSnapshot) -> Seq<u8> {
    seq![9u8] + be32(x.cycle) + seq![9u8] + seq![x.peak_command] + seq![9u8] + seq![x.plateau_command] + seq![9u8] + seq![x.peep_command] + seq![9u8]
}

/// Part 1 of the fixed-size fields of a machine state snapshot in protocol v2, as written after `pre`
#[verifier::opaque]
pub open spec fn machine_state_snapshot_v2_part1(pre: Seq<u8>, x: MachineStateSnapshot) -> Seq<u8> {
    pre + seq![x.cpm_command] + seq![9u8] + be16(x.previous_peak_pressure) + seq![9u8] + be16(x.previous_plateau_pressure) + seq![9u8] + be16(x.previous_peep_pressure) + seq![9u8]
}

/// Bytes of part 1 of the fixed-size fields of a machine state snapshot in protocol v2
pub open spec fn machine_state_snapshot_v2_part1_bytes(x: MachineStateSnapshot) -> Seq<u8> {
    seq![x.cpm_command] + seq![9u8] + be16(x.previous_peak_pressure) + seq![9u8] + be16(x.previous_plateau_pressure) + seq![9u8] + be16(x.previous_peep_pressure) + seq![9u8]
}

/// Part 2 of the fixed-size fields of a machine state snapshot in protocol v2, as written after `pre`
#[verifier::opaque]
pub open spec fn machine_state_snapshot_v2_part2(pre: Seq<u8>, x: MachineStateSnapshot) -> Seq<u8> {
    pre + seq![9u8] + be16(volume_code(x.previous_volume)) + seq![9u8] + seq![x.expiratory_term] + seq![9u8] + seq![bool_byte(x.trigger_enabled)] + seq![9u8] + seq![x.trigger_offset] + seq![9u8]
}

/// Bytes of part 2 of the fixed-size fields of a machine state snapshot in protocol v2
pub open spec fn machine_state_snapshot_v2_part2_bytes(x: MachineStateSnapshot) -> Seq<u8> {
    seq![9u8] + be16(volume_code(x.previous_volume)) + seq![9u8] + seq![x.expiratory_term] + seq![9u8] + seq![bool_byte(x.trigger_enabled)] + seq![9u8] + seq![x.trigger_offset] + seq![9u8]
}

/// Part 3 of the fixed-size fields of a machine state snapshot in protocol v2, as written after `pre`
#[verifier::opaque]
pub open spec fn machine_state_snapshot_v2_part3(pre: Seq<u8>, x: MachineStateSnapshot) -> Seq<u8> {
    pre + seq![u8_or_zero(x.previous_cpm)] + seq![9u8] + seq![bool_byte(x.alarm_snoozed == Some(true))] + seq![9u8] + seq![u8_or_zero(x.cpu_load)] + seq![9u8] + seq![ventilation_mode_code(x.ventilation_mode)] + seq![9u8]
}

/// Bytes of part 3 of the fixed-size fields of a machine state snapshot in protocol v2
pub open spec fn machine_state_snapshot_v2_part3_bytes(x: MachineStateSnapshot) -> Seq<u8> {
    seq![u8_or_zero(x.previous_cpm)] + seq![9u8] + seq![bool_byte(x.alarm_snoozed == Some(true))] + seq![9u8] + seq![u8_or_zero(x.cpu_load)] + seq![9u8] + seq![ventilation_mode_code(x.ventilation_mode)] + seq![9u8]
}

/// Part 4 of the fixed-size fields of a machine state snapshot in protocol v2, as written after `pre`
#[verifier::opaque]
pub open spec fn machine_state_snapshot_v2_part4(pre: Seq<u8>, x: MachineStateSnapshot) -> Seq<u8> {
    pre + seq![u8_or_zero(x.inspiratory_trigger_flow)] + seq![9u8] + seq![u8_or_zero(x.expiratory_trigger_flow)] + seq![9u8] + be16(u16_or_zero(x.ti_min)) + seq![9u8] + be16(u16_or_zero(x.ti_max)) + seq![9u8]
}

/// Bytes of part 4 of the fixed-size fields of a machine state snapshot in protocol v2
pub open spec fn machine_state_snapshot_v2_part4_bytes(x: MachineStateSnapshot) -> Seq<u8> {
    seq![u8_or_zero(x.inspiratory_trigger_flow)] + seq![9u8] + seq![u8_or_zero(x.expiratory_trigger_flow)] + seq![9u8] + be16(u16_or_zero(x.ti_min)) + seq![9u8] + be16(u16_or_zero(x.ti_max)) + seq![9u8]
}

/// Part 5 of the fixed-size fields of a machine state snapshot in protocol v2, as written after `pre`
#[verifier::opaque]
pub open spec fn machine_state_snapshot_v2_part5(pre: Seq<u8>, x: MachineStateSnapshot) -> Seq<u8> {
    pre + seq![u8_or_zero(x.low_inspiratory_minute_volume_alarm_threshold)] + seq![9u8] + seq![u8_or_zero(x.high_inspiratory_minute_volume_alarm_threshold)] + seq![9u8] + seq![u8_or_zero(x.low_expiratory_minute_volume_alarm_threshold)] + seq![9u8] + seq![u8_or_zero(x.high_expiratory_minute_volume_alarm_threshold)] + seq![9u8]
}

/// Bytes of part 5 of the fixed-size fields of a machine state snapshot in protocol v2
pub open spec fn machine_state_snapshot_v2_part5_bytes(x: MachineStateSnapshot) -> Seq<u8> {
    seq![u8_or_zero(x.low_inspiratory_minute_volume_alarm_threshold)] + seq![9u8] + seq![u8_or_zero(x.high_inspiratory_minute_volume_alarm_threshold)] + seq![9u8] + seq![u8_or_zero(x.low_expiratory_minute_volume_alarm_threshold)] + seq![9u8] + seq![u8_or_zero(x.high_expiratory_minute_volume_alarm_threshold)] + seq![9u8]
}

/// Part 6 of the fixed-size fields of a machine state snapshot in protocol v2, as written after `pre`
#[verifier::opaque]
pub open spec fn machine_state_snapshot_v2_part6(pre: Seq<u8>, x: MachineStateSnapshot) -> Seq<u8> {
    pre + seq![u8_or_zero(x.low_respiratory_rate_alarm_threshold)] + seq![9u8] + seq![u8_or_zero(x.high_respiratory_rate_alarm_threshold)] + seq![9u8] + be16(u16_or_zero(x.target_tidal_volume)) + seq![9u8] + be16(u16_or_zero(x.low_tidal_volume_alarm_threshold)) + seq![9u8]
}

/// Bytes of part 6 of the fixed-size fields of a machine state snapshot in protocol v2
pub open spec fn machine_state_snapshot_v2_part6_bytes(x: MachineStateSnapshot) -> Seq<u8> {
    seq![u8_or_zero(x.low_respiratory_rate_alarm_threshold)] + seq![9u8] + seq![u8_or_zero(x.high_respiratory_rate_alarm_threshold)] + seq![9u8] + be16(u16_or_zero(x.target_tidal_volume)) + seq![9u8] + be16(u16_or_zero(x.low_tidal_volume_alarm_threshold)) + seq![9u8]
}

/// Part 7 of the fixed-size fields of a machine state snapshot in protocol v2, as written after `pre`
#[verifier::opaque]
pub open spec fn machine_state_snapshot_v2_part7(pre: Seq<u8>, x: MachineStateSnapshot) -> Seq<u8> {
    pre + be16(u16_or_zero(x.high_tidal_volume_alarm_threshold)) + seq![9u8] + be16(u16_or_zero(x.plateau_duration)) + seq![9u8] + be16(u16_or_zero(x.leak_alarm_threshold)) + seq![9u8] + seq![u8_or_zero(x.target_inspiratory_flow)] + seq![9u8]
}

/// Bytes of part 7 of the fixed-size fields of a machine state snapshot in protocol v2
pub open spec fn machine_state_snapshot_v2_part7_bytes(x: MachineStateSnapshot) -> Seq<u8> {
    be16(u16_or_zero(x.high_tidal_volume_alarm_threshold)) + seq![9u8] + be16(u16_or_zero(x.plateau_duration)) + seq![9u8] + be16(u16_or_zero(x.leak_alarm_threshold)) + seq![9u8] + seq![u8_or_zero(x.target_inspiratory_flow)] + seq![9u8]
}

/// Part 8 of the fixed-size fields of a machine state snapshot in protocol v2, as written after `pre`
#[verifier::opaque]
pub open spec fn machine_state_snapshot_v2_part8(pre: Seq<u8>, x: MachineStateSnapshot) -> Seq<u8> {
    pre + be16(u16_or_zero(x.inspiratory_duration_command)) + seq![9u8] + be16(u16_or_zero(x.previous_inspiratory_duration)) + seq![9u8] + be16(u16_or_zero(x.battery_level)) + seq![9u8] + be16(locale_code(x.locale)) + seq![9u8]
}

/// Bytes of part 8 of the fixed-size fields of a machine state snapshot in protocol v2
pub open spec fn machine_state_snapshot_v2_part8_bytes(x: MachineStateSnapshot) -> Seq<u8> {
    be16(u16_or_zero(x.inspiratory_duration_command)) + seq![9u8] + be16(u16_or_zero(x.previous_inspiratory_duration)) + seq![9u8] + be16(u16_or_zero(x.battery_level)) + seq![9u8] + be16(locale_code(x.locale)) + seq![9u8]
}

/// Part 9 of the fixed-size fields of a machine state snapshot in protocol v2, as written after `pre`
#[verifier::opaque]
pub open spec fn machine_state_snapshot_v2_part9(pre: Seq<u8>, x: MachineStateSnapshot) -> Seq<u8> {
    pre + seq![u8_or_zero(x.patient_height)] + seq![9u8] + seq![gender_or_male(x.patient_gender)] + seq![9u8] + be16(u16_or_zero(x.peak_pressure_alarm_threshold)) + seq![10u8]
}

/// Bytes of part 9 of the fixed-size fields of a machine state snapshot in protocol v2
pub open spec fn machine_state_snapshot_v2_part9_bytes(x: MachineStateSnapshot) -> Seq<u8> {
    seq![u8_or_zero(x.patient_height)] + seq![9u8] + seq![gender_or_male(x.patient_gender)] + seq![9u8] + be16(u16_or_zero(x.peak_pressure_alarm_threshold)) + seq![10u8]
}

#[verifier::spinoff_prover]
proof fn lemma_machine_state_snapshot_v2_part0(pre: Seq<u8>, x: MachineStateSnapshot)
    ensures
        machine_state_snapshot_v2_part0(pre, x) == pre + machine_state_snapshot_v2_part0_bytes(x),
{
    reveal(machine_state_snapshot_v2_part0);
    assert(machine_state_snapshot_v2_part0(pre, x) =~= pre + machine_state_snapshot_v2_part0_bytes(x));
}

#[verifier::spinoff_prover]
proof fn lemma_machine_state_snapshot_v2_part1(pre: Seq<u8>, x: MachineStateSnapshot)
    ensures
        machine_state_snapshot_v2_part1(pre, x) == pre + machine_state_snapshot_v2_part1_bytes(x),
{
    reveal(machine_state_snapshot_v2_part1);
    assert(machine_state_snapshot_v2_part1(pre, x) =~= pre + machine_state_snapshot_v2_part1_bytes(x));
}

#[verifier::spinoff_prover]
proof fn lemma_machine_state_snapshot_v2_part2(pre: Seq<u8>, x: MachineStateSnapshot)
    ensures
        machine_state_snapshot_v2_part2(pre, x) == pre + machine_state_snapshot_v2_part2_bytes(x),
{
    reveal(machine_state_snapshot_v2_part2);
    assert(machine_state_snapshot_v2_part2(pre, x) =~= pre + machine_state_snapshot_v2_part2_bytes(x));
}

#[verifier::spinoff_prover]
proof fn lemma_machine_state_snapshot_v2_part3(pre: Seq<u8>, x: MachineStateSnapshot)
    ensures
        machine_state_snapshot_v2_part3(pre, x) == pre + machine_state_snapshot_v2_part3_bytes(x),
{
    reveal(machine_state_snapshot_v2_part3);
    assert(machine_state_snapshot_v2_part3(pre, x) =~= pre + machine_state_snapshot_v2_part3_bytes(x));
}

#[verifier::spinoff_prover]
proof fn lemma_machine_state_snapshot_v2_part4(pre: Seq<u8>, x: MachineStateSnapshot)
    ensures
        machine_state_snapshot_v2_part4(pre, x) == pre + machine_state_snapshot_v2_part4_bytes(x),
{
    reveal(machine_state_snapshot_v2_part4);
    assert(machine_state_snapshot_v2_part4(pre, x) =~= pre + machine_state_snapshot_v2_part4_bytes(x));
}

#[verifier::spinoff_prover]
proof fn lemma_machine_state_snapshot_v2_part5(pre: Seq<u8>, x: MachineStateSnapshot)
    ensures
        machine_state_snapshot_v2_part5(pre, x) == pre + machine_state_snapshot_v2_part5_bytes(x),
{
    reveal(machine_state_snapshot_v2_part5);
    assert(machine_state_snapshot_v2_part5(pre, x) =~= pre + machine_state_snapshot_v2_part5_bytes(x));
}

#[verifier::spinoff_prover]
proof fn lemma_machine_state_snapshot_v2_part6(pre: Seq<u8>, x: MachineStateSnapshot)
    ensures
        machine_state_snapshot_v2_part6(pre, x) == pre + machine_state_snapshot_v2_part6_bytes(x),
{
    reveal(machine_state_snapshot_v2_part6);
    assert(machine_state_snapshot_v2_part6(pre, x) =~= pre + machine_state_snapshot_v2_part6_bytes(x));
}

#[verifier::spinoff_prover]
proof fn lemma_machine_state_snapshot_v2_part7(pre: Seq<u8>, x: MachineStateSnapshot)
    ensures
        machine_state_snapshot_v2_part7(pre, x) == pre + machine_state_snapshot_v2_part7_bytes(x),
{
    reveal(machine_state_snapshot_v2_part7);
    assert(machine_state_snapshot_v2_part7(pre, x) =~= pre + machine_state_snapshot_v2_part7_bytes(x));
}

#[verifier::spinoff_prover]
proof fn lemma_machine_state_snapshot_v2_part8(pre: Seq<u8>, x: MachineStateSnapshot)
    ensures
        machine_state_snapshot_v2_part8(pre, x) == pre + machine_state_snapshot_v2_part8_bytes(x),
{
    reveal(machine_state_snapshot_v2_part8);
    assert(machine_state_snapshot_v2_part8(pre, x) =~= pre + machine_state_snapshot_v2_part8_bytes(x));
}

#[verifier::spinoff_prover]
proof fn lemma_machine_state_snapshot_v2_part9(pre: Seq<u8>, x: MachineStateSnapshot)
    ensures
        machine_state_snapshot_v2_part9(pre, x) == pre + machine_state_snapshot_v2_part9_bytes(x),
{
    reveal(machine_state_snapshot_v2_part9);
    assert(machine_state_snapshot_v2_part9(pre, x) =~= pre + machine_state_snapshot_v2_part9_bytes(x));
}

/// Body of a machine state snapshot in protocol v2
pub open spec fn machine_state_snapshot_body_v2(x: MachineStateSnapshot) -> Seq<u8> {
    machine_state_snapshot_v2_part9(machine_state_snapshot_v2_part8(machine_state_snapshot_v2_part7(machine_state_snapshot_v2_part6(machine_state_snapshot_v2_part5(machine_state_snapshot_v2_part4(machine_state_snapshot_v2_part3(machine_state_snapshot_v2_part2(machine_state_snapshot_v2_part1(machine_state_snapshot_v2_part0(envelope_bytes(83, 2, x.version@, x.device_id@, x.systick), x), x) + array_bytes(x.current_alarm_codes@), x), x), x), x), x), x), x), x)
}

/// The body of a machine state snapshot in protocol v2, part by part
pub proof fn lemma_machine_state_snapshot_v2_parts(x: MachineStateSnapshot)
    ensures
        machine_state_snapshot_body_v2(x) == envelope_bytes(83, 2, x.version@, x.device_id@, x.systick) + machine_state_snapshot_v2_part0_bytes(x) + machine_state_snapshot_v2_part1_bytes(x) + array_bytes(x.current_alarm_codes@) + machine_state_snapshot_v2_part2_bytes(x) + machine_state_snapshot_v2_part3_bytes(x) + machine_state_snapshot_v2_part4_bytes(x) + machine_state_snapshot_v2_part5_bytes(x) + machine_state_snapshot_v2_part6_bytes(x) + machine_state_snapshot_v2_part7_bytes(x) + machine_state_snapshot_v2_part8_bytes(x) + machine_state_snapshot_v2_part9_bytes(x),
{
    lemma_machine_state_snapshot_v2_part0(envelope_bytes(83, 2, x.version@, x.device_id@, x.systick), x);
    lemma_machine_state_snapshot_v2_part1(machine_state_snapshot_v2_part0(envelope_bytes(83, 2, x.version@, x.device_id@, x.systick), x), x);
    lemma_machine_state_snapshot_v2_part2(machine_state_snapshot_v2_part1(machine_state_snapshot_v2_part0(envelope_bytes(83, 2, x.version@, x.device_id@, x.systick), x), x) + array_bytes(x.current_alarm_codes@), x);
    lemma_machine_state_snapshot_v2_part3(machine_state_snapshot_v2_part2(machine_state_snapshot_v2_part1(machine_state_snapshot_v2_part0(envelope_bytes(83, 2, x.version@, x.device_id@, x.systick), x), x) + array_bytes(x.current_alarm_codes@), x), x);
    lemma_machine_state_snapshot_v2_part4(machine_state_snapshot_v2_part3(machine_state_snapshot_v2_part2(machine_state_snapshot_v2_part1(machine_state_snapshot_v2_part0(envelope_bytes(83, 2, x.version@, x.device_id@, x.systick), x), x) + array_bytes(x.current_alarm_codes@), x), x), x);
    lemma_machine_state_snapshot_v2_part5(machine_state_snapshot_v2_part4(machine_state_snapshot_v2_part3(machine_state_snapshot_v2_part2(machine_state_snapshot_v2_part1(machine_state_snapshot_v2_part0(envelope_bytes(83, 2, x.version@, x.device_id@, x.systick), x), x) + array_bytes(x.current_alarm_codes@), x), x), x), x);
    lemma_machine_state_snapshot_v2_part6(machine_state_snapshot_v2_part5(machine_state_snapshot_v2_part4(machine_state_snapshot_v2_part3(machine_state_snapshot_v2_part2(machine_state_snapshot_v2_part1(machine_state_snapshot_v2_part0(envelope_bytes(83, 2, x.version@, x.device_id@, x.systick), x), x) + array_bytes(x.current_alarm_codes@), x), x), x), x), x);
    lemma_machine_state_snapshot_v2_part7(machine_state_snapshot_v2_part6(machine_state_snapshot_v2_part5(machine_state_snapshot_v2_part4(machine_state_snapshot_v2_part3(machine_state_snapshot_v2_part2(machine_state_snapshot_v2_part1(machine_state_snapshot_v2_part0(envelope_bytes(83, 2, x.version@, x.device_id@, x.systick), x), x) + array_bytes(x.current_alarm_codes@), x), x), x), x), x), x);
    lemma_machine_state_snapshot_v2_part8(machine_state_snapshot_v2_part7(machine_state_snapshot_v2_part6(machine_state_snapshot_v2_part5(machine_state_snapshot_v2_part4(machine_state_snapshot_v2_part3(machine_state_snapshot_v2_part2(machine_state_snapshot_v2_part1(machine_state_snapshot_v2_part0(envelope_bytes(83, 2, x.version@, x.device_id@, x.systick), x), x) + array_bytes(x.current_alarm_codes@), x), x), x), x), x), x), x);
    lemma_machine_state_snapshot_v2_part9(machine_state_snapshot_v2_part8(machine_state_snapshot_v2_part7(machine_state_snapshot_v2_part6(machine_state_snapshot_v2_part5(machine_state_snapshot_v2_part4(machine_state_snapshot_v2_part3(machine_state_snapshot_v2_part2(machine_state_snapshot_v2_part1(machine_state_snapshot_v2_part0(envelope_bytes(83, 2, x.version@, x.device_id@, x.systick), x), x) + array_bytes(x.current_alarm_codes@), x), x), x), x), x), x), x), x);
}

/// Body of an alarm trap in protocol v1
pub open spec fn alarm_trap_body_v1(x: AlarmTrap) -> Seq<u8> {
    envelope_bytes(84, 1, x.version@, x.device_id@, x.systick)
        + seq![9u8]
        + be16(x.centile)
        + seq![9u8]
        + be_i16(x.pressure)
        + seq![9u8]
        + seq![phase_value_v1(x.phase, x.subphase)]
        + seq![9u8]
        + be32(x.cycle)
        + seq![9u8]
        + seq![x.alarm_code]
        + seq![9u8]
        + seq![alarm_priority_value(x.alarm_priority)]
        + seq![9u8]
        + seq![triggered_byte(x.triggered)]
        + seq![9u8]
        + be32(x.expected)
        + seq![9u8]
        + be32(x.measured)
        + seq![9u8]
        + be32(x.cycles_since_trigger)
        + seq![10u8]
}

/// Body of an alarm trap in protocol v2
pub open spec fn alarm_trap_body_v2(x: AlarmTrap) -> Seq<u8> {
    envelope_bytes(84, 2, x.version@, x.device_id@, x.systick)
        + seq![9u8]
        + be16(x.centile)
        + seq![9u8]
        + be_i16(x.pressure)
        + seq![9u8]
        + seq![phase_value_v2(x.phase)]
        + seq![9u8]
        + be32(x.cycle)
        + seq![9u8]
        + seq![x.alarm_code]
        + seq![9u8]
        + seq![alarm_priority_value(x.alarm_priority)]
        + seq![9u8]
        + seq![triggered_byte(x.triggered)]
        + seq![9u8]
        + be32(x.expected)
        + seq![9u8]
        + be32(x.measured)
        + seq![9u8]
        + be32(x.cycles_since_trigger)
        + seq![10u8]
}

/// Body of a control acknowledgement in protocol v1
pub open spec fn control_ack_body_v1(x: ControlAck) -> Seq<u8> {
    envelope_bytes(65, 1, x.version@, x.device_id@, x.systick)
        + seq![9u8]
        + seq![setting_code(x.setting)]
        + seq![9u8]
        + be16(x.value)
        + seq![10u8]
}

/// Body of a control acknowledgement in protocol v2
pub open spec fn control_ack_body_v2(x: ControlAck) -> Seq<u8> {
    envelope_bytes(65, 2, x.version@, x.device_id@, x.systick)
        + seq![9u8]
        + seq![setting_code(x.setting)]
        + seq![9u8]
        + be16(x.value)
        + seq![10u8]
}

fn boot_to_bytes_v1(x: &BootMessage) -> (r: Vec<u8>)
    ensures
        r@ == boot_body_v1(*x),
{
    let mut v = envelope_vec(66, 1, &x.version, &x.device_id, x.systick);
    push_one(&mut v, 9);
    push_one(&mut v, mode_value(x.mode));
    push_one(&mut v, 9);
    push_one(&mut v, x.value128);
    push_one(&mut v, 10);
    v
}

fn boot_to_bytes_v2(x: &BootMessage) -> (r: Vec<u8>)
    ensures
        r@ == boot_body_v2(*x),
{
    let mut v = envelope_vec(66, 2, &x.version, &x.device_id, x.systick);
    push_one(&mut v, 9);
    push_one(&mut v, mode_value(x.mode));
    push_one(&mut v, 9);
    push_one(&mut v, x.value128);
    push_one(&mut v, 10);
    v
}

fn stopped_to_bytes_v1(x: &StoppedMessage) -> (r: Vec<u8>)
    ensures
        r@ == stopped_body_v1(*x),
{
    let mut v = envelope_vec(79, 1, &x.version, &x.device_id, x.systick);
    push_one(&mut v, 10);
    v
}

fn stopped_to_bytes_v2(x: &StoppedMessage) -> (r: Vec<u8>)
    ensures
        r@ == stopped_body_v2(*x),
{
    reveal(stopped_v2_part0);
    reveal(stopped_v2_part1);
    reveal(stopped_v2_part2);
    reveal(stopped_v2_part3);
    reveal(stopped_v2_part4);
    reveal(stopped_v2_part5);
    reveal(stopped_v2_part6);
    reveal(stopped_v2_part7);
    let mut v = envelope_vec(79, 2, &x.version, &x.device_id, x.systick);
    push_one(&mut v, 9);
    push_one(&mut v, or_zero_u8(x.peak_command));
    push_one(&mut v, 9);
    push_one(&mut v, or_zero_u8(x.plateau_command));
    push_one(&mut v, 9);
    push_one(&mut v, or_zero_u8(x.peep_command));
    push_one(&mut v, 9);
    push_one(&mut v, or_zero_u8(x.cpm_command));
    push_one(&mut v, 9);
    push_one(&mut v, or_zero_u8(x.expiratory_term));
    push_one(&mut v, 9);
    push_one(&mut v, opt_bool_byte(x.trigger_enabled));
    push_one(&mut v, 9);
    push_one(&mut v, or_zero_u8(x.trigger_offset));
    push_one(&mut v, 9);
    push_one(&mut v, opt_bool_byte(x.alarm_snoozed));
    push_one(&mut v, 9);
    push_one(&mut v, or_zero_u8(x.cpu_load));
    push_one(&mut v, 9);
    push_one(&mut v, x.ventilation_mode.as_u8());
    push_one(&mut v, 9);
    push_one(&mut v, or_zero_u8(x.inspiratory_trigger_flow));
    push_one(&mut v, 9);
    push_one(&mut v, or_zero_u8(x.expiratory_trigger_flow));
    push_one(&mut v, 9);
    push_u16(&mut v, or_zero_u16(x.ti_min));
    push_one(&mut v, 9);
    push_u16(&mut v, or_zero_u16(x.ti_max));
    push_one(&mut v, 9);
    push_one(&mut v, or_zero_u8(x.low_inspiratory_minute_volume_alarm_threshold));
    push_one(&mut v, 9);
    push_one(&mut v, or_zero_u8(x.high_inspiratory_minute_volume_alarm_threshold));
    push_one(&mut v, 9);
    push_one(&mut v, or_zero_u8(x.low_expiratory_minute_volume_alarm_threshold));
    push_one(&mut v, 9);
    push_one(&mut v, or_zero_u8(x.high_expiratory_minute_volume_alarm_threshold));
    push_one(&mut v, 9);
    push_one(&mut v, or_zero_u8(x.low_respiratory_rate_alarm_threshold));
    push_one(&mut v, 9);
    push_one(&mut v, or_zero_u8(x.high_respiratory_rate_alarm_threshold));
    push_one(&mut v, 9);
    push_u16(&mut v, or_zero_u16(x.target_tidal_volume));
    push_one(&mut v, 9);
    push_u16(&mut v, or_zero_u16(x.low_tidal_volume_alarm_threshold));
    push_one(&mut v, 9);
    push_u16(&mut v, or_zero_u16(x.high_tidal_volume_alarm_threshold));
    push_one(&mut v, 9);
    push_u16(&mut v, or_zero_u16(x.plateau_duration));
    push_one(&mut v, 9);
    push_u16(&mut v, or_zero_u16(x.leak_alarm_threshold));
    push_one(&mut v, 9);
    push_one(&mut v, or_zero_u8(x.target_inspiratory_flow));
    push_one(&mut v, 9);
    push_u16(&mut v, or_zero_u16(x.inspiratory_duration_command));
    push_one(&mut v, 9);
    push_u16(&mut v, or_zero_u16(x.battery_level));
    push_one(&mut v, 9);
    match &x.current_alarm_codes {
            Some(c) => push_array(&mut v, c.as_slice()),
            None => push_array(&mut v, &[]),
        }
    push_one(&mut v, 9);
    push_u16(&mut v, locale_value(x.locale));
    push_one(&mut v, 9);
    push_one(&mut v, or_zero_u8(x.patient_height));
    push_one(&mut v, 9);
    push_one(&mut v, gender_or_male_value(x.patient_gender));
    push_one(&mut v, 9);
    push_u16(&mut v, or_zero_u16(x.peak_pressure_alarm_threshold));
    push_one(&mut v, 10);
    v
}

fn data_snapshot_to_bytes_v1(x: &DataSnapshot) -> (r: Vec<u8>)
    ensures
        r@ == data_snapshot_body_v1(*x),
{
    let mut v = envelope_vec(68, 1, &x.version, &x.device_id, x.systick);
    push_one(&mut v, 9);
    push_u16(&mut v, x.centile);
    push_one(&mut v, 9);
    push_i16(&mut v, x.pressure);
    push_one(&mut v, 9);
    push_one(&mut v, phase_byte_v1(x.phase, x.subphase));
    push_one(&mut v, 9);
    push_one(&mut v, x.blower_valve_position);
    push_one(&mut v, 9);
    push_one(&mut v, x.patient_valve_position);
    push_one(&mut v, 9);
    push_one(&mut v, x.blower_rpm);
    push_one(&mut v, 9);
    push_one(&mut v, x.battery_level);
    push_one(&mut v, 10);
    v
}

fn data_snapshot_to_bytes_v2(x: &DataSnapshot) -> (r: Vec<u8>)
    ensures
        r@ == data_snapshot_body_v2(*x),
{
    let mut v = envelope_vec(68, 2, &x.version, &x.device_id, x.systick);
    push_one(&mut v, 9);
    push_u16(&mut v, x.centile);
    push_one(&mut v, 9);
    push_i16(&mut v, x.pressure);
    push_one(&mut v, 9);
    push_one(&mut v, phase_byte_v2(x.phase));
    push_one(&mut v, 9);
    push_one(&mut v, x.blower_valve_position);
    push_one(&mut v, 9);
    push_one(&mut v, x.patient_valve_position);
    push_one(&mut v, 9);
    push_one(&mut v, x.blower_rpm);
    push_one(&mut v, 9);
    push_one(&mut v, x.battery_level);
    push_one(&mut v, 9);
    push_i16(&mut v, or_zero_i16(x.inspiratory_flow));
    push_one(&mut v, 9);
    push_i16(&mut v, or_zero_i16(x.expiratory_flow));
    push_one(&mut v, 10);
    v
}

fn machine_state_snapshot_to_bytes_v1(x: &MachineStateSnapshot) -> (r: Vec<u8>)
    ensures
        r@ == machine_state_snapshot_body_v1(*x),
{
    let mut v = envelope_vec(83, 1, &x.version, &x.device_id, x.systick);
    push_one(&mut v, 9);
    push_u32(&mut v, x.cycle);
    push_one(&mut v, 9);
    push_one(&mut v, x.peak_command);
    push_one(&mut v, 9);
    push_one(&mut v, x.plateau_command);
    push_one(&mut v, 9);
    push_one(&mut v, x.peep_command);
    push_one(&mut v, 9);
    push_one(&mut v, x.cpm_command);
    push_one(&mut v, 9);
    push_u16(&mut v, x.previous_peak_pressure);
    push_one(&mut v, 9);
    push_u16(&mut v, x.previous_plateau_pressure);
    push_one(&mut v, 9);
    push_u16(&mut v, x.previous_peep_pressure);
    push_one(&mut v, 9);
    push_array(&mut v, x.current_alarm_codes.as_slice());
    push_one(&mut v, 9);
    push_u16(&mut v, volume_value(x.previous_volume));
    push_one(&mut v, 9);
    push_one(&mut v, x.expiratory_term);
    push_one(&mut v, 9);
    push_one(&mut v, if x.trigger_enabled { 1 } else { 0 });
    push_one(&mut v, 9);
    push_one(&mut v, x.trigger_offset);
    push_one(&mut v, 10);
    v
}

fn machine_state_snapshot_to_bytes_v2(x: &MachineStateSnapshot) -> (r: Vec<u8>)
    ensures
        r@ == machine_state_snapshot_body_v2(*x),
{
    reveal(machine_state_snapshot_v2_part0);
    reveal(machine_state_snapshot_v2_part1);
    reveal(machine_state_snapshot_v2_part2);
    reveal(machine_state_snapshot_v2_part3);
    reveal(machine_state_snapshot_v2_part4);
    reveal(machine_state_snapshot_v2_part5);
    reveal(machine_state_snapshot_v2_part6);
    reveal(machine_state_snapshot_v2_part7);
    reveal(machine_state_snapshot_v2_part8);
    reveal(machine_state_snapshot_v2_part9);
    let mut v = envelope_vec(83, 2, &x.version, &x.device_id, x.systick);
    push_one(&mut v, 9);
    push_u32(&mut v, x.cycle);
    push_one(&mut v, 9);
    push_one(&mut v, x.peak_command);
    push_one(&mut v, 9);
    push_one(&mut v, x.plateau_command);
    push_one(&mut v, 9);
    push_one(&mut v, x.peep_command);
    push_one(&mut v, 9);
    push_one(&mut v, x.cpm_command);
    push_one(&mut v, 9);
    push_u16(&mut v, x.previous_peak_pressure);
    push_one(&mut v, 9);
    push_u16(&mut v, x.previous_plateau_pressure);
    push_one(&mut v, 9);
    push_u16(&mut v, x.previous_peep_pressure);
    push_one(&mut v, 9);
    push_array(&mut v, x.current_alarm_codes.as_slice());
    push_one(&mut v, 9);
    push_u16(&mut v, volume_value(x.previous_volume));
    push_one(&mut v, 9);
    push_one(&mut v, x.expiratory_term);
    push_one(&mut v, 9);
    push_one(&mut v, if x.trigger_enabled { 1 } else { 0 });
    push_one(&mut v, 9);
    push_one(&mut v, x.trigger_offset);
    push_one(&mut v, 9);
    push_one(&mut v, or_zero_u8(x.previous_cpm));
    push_one(&mut v, 9);
    push_one(&mut v, opt_bool_byte(x.alarm_snoozed));
    push_one(&mut v, 9);
    push_one(&mut v, or_zero_u8(x.cpu_load));
    push_one(&mut v, 9);
    push_one(&mut v, x.ventilation_mode.as_u8());
    push_one(&mut v, 9);
    push_one(&mut v, or_zero_u8(x.inspiratory_trigger_flow));
    push_one(&mut v, 9);
    push_one(&mut v, or_zero_u8(x.expiratory_trigger_flow));
    push_one(&mut v, 9);
    push_u16(&mut v, or_zero_u16(x.ti_min));
    push_one(&mut v, 9);
    push_u16(&mut v, or_zero_u16(x.ti_max));
    push_one(&mut v, 9);
    push_one(&mut v, or_zero_u8(x.low_inspiratory_minute_volume_alarm_threshold));
    push_one(&mut v, 9);
    push_one(&mut v, or_zero_u8(x.high_inspiratory_minute_volume_alarm_threshold));
    push_one(&mut v, 9);
    push_one(&mut v, or_zero_u8(x.low_expiratory_minute_volume_alarm_threshold));
    push_one(&mut v, 9);
    push_one(&mut v, or_zero_u8(x.high_expiratory_minute_volume_alarm_threshold));
    push_one(&mut v, 9);
    push_one(&mut v, or_zero_u8(x.low_respiratory_rate_alarm_threshold));
    push_one(&mut v, 9);
    push_one(&mut v, or_zero_u8(x.high_respiratory_rate_alarm_threshold));
    push_one(&mut v, 9);
    push_u16(&mut v, or_zero_u16(x.target_tidal_volume));
    push_one(&mut v, 9);
    push_u16(&mut v, or_zero_u16(x.low_tidal_volume_alarm_threshold));
    push_one(&mut v, 9);
    push_u16(&mut v, or_zero_u16(x.high_tidal_volume_alarm_threshold));
    push_one(&mut v, 9);
    push_u16(&mut v, or_zero_u16(x.plateau_duration));
    push_one(&mut v, 9);
    push_u16(&mut v, or_zero_u16(x.leak_alarm_threshold));
    push_one(&mut v, 9);
    push_one(&mut v, or_zero_u8(x.target_inspiratory_flow));
    push_one(&mut v, 9);
    push_u16(&mut v, or_zero_u16(x.inspiratory_duration_command));
    push_one(&mut v, 9);
    push_u16(&mut v, or_zero_u16(x.previous_inspiratory_duration));
    push_one(&mut v, 9);
    push_u16(&mut v, or_zero_u16(x.battery_level));
    push_one(&mut v, 9);
    push_u16(&mut v, locale_value(x.locale));
    push_one(&mut v, 9);
    push_one(&mut v, or_zero_u8(x.patient_height));
    push_one(&mut v, 9);
    push_one(&mut v, gender_or_male_value(x.patient_gender));
    push_one(&mut v, 9);
    push_u16(&mut v, or_zero_u16(x.peak_pressure_alarm_threshold));
    push_one(&mut v, 10);
    v
}

fn alarm_trap_to_bytes_v1(x: &AlarmTrap) -> (r: Vec<u8>)
    ensures
        r@ == alarm_trap_body_v1(*x),
{
    let mut v = envelope_vec(84, 1, &x.version, &x.device_id, x.systick);
    push_one(&mut v, 9);
    push_u16(&mut v, x.centile);
    push_one(&mut v, 9);
    push_i16(&mut v, x.pressure);
    push_one(&mut v, 9);
    push_one(&mut v, phase_byte_v1(x.phase, x.subphase));
    push_one(&mut v, 9);
    push_u32(&mut v, x.cycle);
    push_one(&mut v, 9);
    push_one(&mut v, x.alarm_code);
    push_one(&mut v, 9);
    push_one(&mut v, alarm_priority_byte(x.alarm_priority));
    push_one(&mut v, 9);
    push_one(&mut v, if x.triggered { 0xf0 } else { 0x0f });
    push_one(&mut v, 9);
    push_u32(&mut v, x.expected);
    push_one(&mut v, 9);
    push_u32(&mut v, x.measured);
    push_one(&mut v, 9);
    push_u32(&mut v, x.cycles_since_trigger);
    push_one(&mut v, 10);
    v
}

fn alarm_trap_to_bytes_v2(x: &AlarmTrap) -> (r: Vec<u8>)
    ensures
        r@ == alarm_trap_body_v2(*x),
{
    let mut v = envelope_vec(84, 2, &x.version, &x.device_id, x.systick);
    push_one(&mut v, 9);
    push_u16(&mut v, x.centile);
    push_one(&mut v, 9);
    push_i16(&mut v, x.pressure);
    push_one(&mut v, 9);
    push_one(&mut v, phase_byte_v2(x.phase));
    push_one(&mut v, 9);
    push_u32(&mut v, x.cycle);
    push_one(&mut v, 9);
    push_one(&mut v, x.alarm_code);
    push_one(&mut v, 9);
    push_one(&mut v, alarm_priority_byte(x.alarm_priority));
    push_one(&mut v, 9);
    push_one(&mut v, if x.triggered { 0xf0 } else { 0x0f });
    push_one(&mut v, 9);
    push_u32(&mut v, x.expected);
    push_one(&mut v, 9);
    push_u32(&mut v, x.measured);
    push_one(&mut v, 9);
    push_u32(&mut v, x.cycles_since_trigger);
    push_one(&mut v, 10);
    v
}

fn control_ack_to_bytes_v1(x: &ControlAck) -> (r: Vec<u8>)
    ensures
        r@ == control_ack_body_v1(*x),
{
    let mut v = envelope_vec(65, 1, &x.version, &x.device_id, x.systick);
    push_one(&mut v, 9);
    push_one(&mut v, x.setting.as_u8());
    push_one(&mut v, 9);
    push_u16(&mut v, x.value);
    push_one(&mut v, 10);
    v
}

fn control_ack_to_bytes_v2(x: &ControlAck) -> (r: Vec<u8>)
    ensures
        r@ == control_ack_body_v2(*x),
{
    let mut v = envelope_vec(65, 2, &x.version, &x.device_id, x.systick);
    push_one(&mut v, 9);
    push_one(&mut v, x.setting.as_u8());
    push_one(&mut v, 9);
    push_u16(&mut v, x.value);
    push_one(&mut v, 10);
    v
}

/// Details of a fatal error: a type byte, then the fields of the type
pub open spec fn fatal_details_bytes(d: FatalErrorDetails) -> Seq<u8> {
    match d {
        FatalErrorDetails::WatchdogRestart => seq![1u8],
        FatalErrorDetails::CalibrationError {
            pressure_offset,
            min_pressure,
            max_pressure,
            flow_at_starting,
            flow_with_blower_on,
        } => seq![2u8] + seq![9u8] + be_i16(pressure_offset) + seq![9u8] + be_i16(min_pressure)
            + seq![9u8] + be_i16(max_pressure) + seq![9u8] + be_i16(flow_code(flow_at_starting))
            + seq![9u8] + be_i16(flow_code(flow_with_blower_on)),
        FatalErrorDetails::BatteryDeeplyDischarged { battery_level } => seq![3u8] + seq![9u8]
            + be16(battery_level),
        FatalErrorDetails::MassFlowMeterError => seq![4u8],
        FatalErrorDetails::InconsistentPressure { pressure } => seq![5u8] + seq![9u8] + be16(
            pressure,
        ),
    }
}

/// Body of a fatal error in protocol v2
pub open spec fn fatal_error_body_v2(x: FatalError) -> Seq<u8> {
    envelope_bytes(69, 2, x.version@, x.device_id@, x.systick) + seq![9u8] + fatal_details_bytes(
        x.error,
    ) + seq![10u8]
}

/// Text of the content of an end of line test snapshot
pub open spec fn eol_text(c: EolTestSnapshotContent) -> Seq<char> {
    match c {
        EolTestSnapshotContent::InProgress(s) => s@,
        EolTestSnapshotContent::Error(s) => s@,
        EolTestSnapshotContent::Success(s) => s@,
    }
}

/// Type byte of the content of an end of line test snapshot
pub open spec fn eol_kind(c: EolTestSnapshotContent) -> u8 {
    match c {
        EolTestSnapshotContent::InProgress(_) => 0,
        EolTestSnapshotContent::Error(_) => 1,
        EolTestSnapshotContent::Success(_) => 2,
    }
}

/// Content of an end of line test snapshot: a type byte, a separator, then the text
pub open spec fn eol_content_bytes(c: EolTestSnapshotContent) -> Seq<u8> {
    match c {
        EolTestSnapshotContent::InProgress(s) => seq![0u8] + seq![9u8] + array_bytes(
            encode_utf8(s@),
        ),
        EolTestSnapshotContent::Error(s) => seq![1u8] + seq![9u8] + array_bytes(encode_utf8(s@)),
        EolTestSnapshotContent::Success(s) => seq![2u8] + seq![9u8] + array_bytes(
            encode_utf8(s@),
        ),
    }
}

/// Body of an end of line test snapshot in protocol v2
pub open spec fn eol_test_snapshot_body_v2(x: EolTestSnapshot) -> Seq<u8> {
    envelope_bytes(76, 2, x.version@, x.device_id@, x.systick) + seq![9u8] + seq![
        eol_step_code(x.current_step),
    ] + seq![9u8] + eol_content_bytes(x.content) + seq![10u8]
}

fn fatal_details_vec(v: &mut Vec<u8>, d: FatalErrorDetails)
    ensures
        final(v)@ == old(v)@ + fatal_details_bytes(d),
{
    let ghost start = v@;
    match d {
        FatalErrorDetails::WatchdogRestart => push_one(v, 1),
        FatalErrorDetails::CalibrationError {
            pressure_offset,
            min_pressure,
            max_pressure,
            flow_at_starting,
            flow_with_blower_on,
        } => {
            push_one(v, 2);
            push_one(v, 9);
            push_i16(v, pressure_offset);
            push_one(v, 9);
            push_i16(v, min_pressure);
            push_one(v, 9);
            push_i16(v, max_pressure);
            push_one(v, 9);
            push_i16(v, flow_value(flow_at_starting));
            push_one(v, 9);
            push_i16(v, flow_value(flow_with_blower_on));
        },
        FatalErrorDetails::BatteryDeeplyDischarged { battery_level } => {
            push_one(v, 3);
            push_one(v, 9);
            push_u16(v, battery_level);
        },
        FatalErrorDetails::MassFlowMeterError => push_one(v, 4),
        FatalErrorDetails::InconsistentPressure { pressure } => {
            push_one(v, 5);
            push_one(v, 9);
            push_u16(v, pressure);
        },
    }
    assert(v@ =~= start + fatal_details_bytes(d));
}

fn fatal_error_to_bytes_v2(x: &FatalError) -> (r: Vec<u8>)
    ensures
        r@ == fatal_error_body_v2(*x),
{
    let mut v = envelope_vec(69, 2, &x.version, &x.device_id, x.systick);
    push_one(&mut v, 9);
    fatal_details_vec(&mut v, x.error);
    push_one(&mut v, 10);
    v
}

fn eol_test_snapshot_to_bytes_v2(x: &EolTestSnapshot) -> (r: Vec<u8>)
    ensures
        r@ == eol_test_snapshot_body_v2(*x),
{
    let mut v = envelope_vec(76, 2, &x.version, &x.device_id, x.systick);
    push_one(&mut v, 9);
    push_one(&mut v, x.current_step.as_u8());
    push_one(&mut v, 9);
    let ghost before = v@;
    match &x.content {
        EolTestSnapshotContent::InProgress(s) => {
            push_one(&mut v, 0);
            push_one(&mut v, 9);
            push_array(&mut v, s.as_str().as_bytes());
        },
        EolTestSnapshotContent::Error(s) => {
            push_one(&mut v, 1);
            push_one(&mut v, 9);
            push_array(&mut v, s.as_str().as_bytes());
        },
        EolTestSnapshotContent::Success(s) => {
            push_one(&mut v, 2);
            push_one(&mut v, 9);
            push_array(&mut v, s.as_str().as_bytes());
        },
    }
    assert(v@ =~= before + eol_content_bytes(x.content));
    push_one(&mut v, 10);
    v
}

/// A telemetry frame around a message body: header, body, CRC-32 of the body in big-endian
/// order, footer
pub open spec fn frame_bytes(payload: Seq<u8>) -> Seq<u8> {
    seq![0x03u8, 0x0c] + payload + be32(crc32_of(payload)) + seq![0x30u8, 0xc0]
}

/// Wrap a binary payload into a CRC-aware binary frame
pub fn mk_frame(payload: &[u8]) -> (r: Vec<u8>)
    ensures
        r@ == frame_bytes(payload@),
{
    let crc = crc32(payload);
    let mut v: Vec<u8> = Vec::new();
    push_one(&mut v, 0x03);
    push_one(&mut v, 0x0c);
    push_all(&mut v, payload);
    push_u32(&mut v, crc);
    push_one(&mut v, 0x30);
    push_one(&mut v, 0xc0);
    assert(v@ =~= frame_bytes(payload@));
    v
}

/// Serialize to binary using the telemetry protocol
pub trait ToBytes {
    /// Bytes in protocol v1
    spec fn bytes_v1(&self) -> Seq<u8>;

    /// Bytes in protocol v2
    spec fn bytes_v2(&self) -> Seq<u8>;

    /// Serialize to binary using the telemetry protocol v1
    fn to_bytes_v1(&self) -> (r: Vec<u8>)
        ensures
            r@ == self.bytes_v1(),
    ;

    /// Serialize to binary using the telemetry protocol v2
    fn to_bytes_v2(&self) -> (r: Vec<u8>)
        ensures
            r@ == self.bytes_v2(),
    ;

    /// Serialize to binary using the latest telemetry protocol
    fn to_bytes(&self) -> (r: Vec<u8>)
        ensures
            r@ == self.bytes_v2(),
    {
        self.to_bytes_v2()
    }
}

impl ToBytes for BootMessage {
    open spec fn bytes_v1(&self) -> Seq<u8> {
        boot_body_v1(*self)
    }

    open spec fn bytes_v2(&self) -> Seq<u8> {
        boot_body_v2(*self)
    }

    fn to_bytes_v1(&self) -> (r: Vec<u8>) {
        boot_to_bytes_v1(self)
    }

    fn to_bytes_v2(&self) -> (r: Vec<u8>) {
        boot_to_bytes_v2(self)
    }
}

impl ToBytes for StoppedMessage {
    open spec fn bytes_v1(&self) -> Seq<u8> {
        stopped_body_v1(*self)
    }

    open spec fn bytes_v2(&self) -> Seq<u8> {
        stopped_body_v2(*self)
    }

    fn to_bytes_v1(&self) -> (r: Vec<u8>) {
        stopped_to_bytes_v1(self)
    }

    fn to_bytes_v2(&self) -> (r: Vec<u8>) {
        stopped_to_bytes_v2(self)
    }
}

impl ToBytes for DataSnapshot {
    open spec fn bytes_v1(&self) -> Seq<u8> {
        data_snapshot_body_v1(*self)
    }

    open spec fn bytes_v2(&self) -> Seq<u8> {
        data_snapshot_body_v2(*self)
    }

    fn to_bytes_v1(&self) -> (r: Vec<u8>) {
        data_snapshot_to_bytes_v1(self)
    }

    fn to_bytes_v2(&self) -> (r: Vec<u8>) {
        data_snapshot_to_bytes_v2(self)
    }
}

impl ToBytes for MachineStateSnapshot {
    open spec fn bytes_v1(&self) -> Seq<u8> {
        machine_state_snapshot_body_v1(*self)
    }

    open spec fn bytes_v2(&self) -> Seq<u8> {
        machine_state_snapshot_body_v2(*self)
    }

    fn to_bytes_v1(&self) -> (r: Vec<u8>) {
        machine_state_snapshot_to_bytes_v1(self)
    }

    fn to_bytes_v2(&self) -> (r: Vec<u8>) {
        machine_state_snapshot_to_bytes_v2(self)
    }
}

impl ToBytes for AlarmTrap {
    open spec fn bytes_v1(&self) -> Seq<u8> {
        alarm_trap_body_v1(*self)
    }

    open spec fn bytes_v2(&self) -> Seq<u8> {
        alarm_trap_body_v2(*self)
    }

    fn to_bytes_v1(&self) -> (r: Vec<u8>) {
        alarm_trap_to_bytes_v1(self)
    }

    fn to_bytes_v2(&self) -> (r: Vec<u8>) {
        alarm_trap_to_bytes_v2(self)
    }
}

impl ToBytes for ControlAck {
    open spec fn bytes_v1(&self) -> Seq<u8> {
        control_ack_body_v1(*self)
    }

    open spec fn bytes_v2(&self) -> Seq<u8> {
        control_ack_body_v2(*self)
    }

    fn to_bytes_v1(&self) -> (r: Vec<u8>) {
        control_ack_to_bytes_v1(self)
    }

    fn to_bytes_v2(&self) -> (r: Vec<u8>) {
        control_ack_to_bytes_v2(self)
    }
}

impl ToBytes for FatalError {
    /// Fatal errors do not exist in protocol v1: no bytes
    open spec fn bytes_v1(&self) -> Seq<u8> {
        Seq::empty()
    }

    open spec fn bytes_v2(&self) -> Seq<u8> {
        fatal_error_body_v2(*self)
    }

    fn to_bytes_v1(&self) -> (r: Vec<u8>) {
        Vec::new()
    }

    fn to_bytes_v2(&self) -> (r: Vec<u8>) {
        fatal_error_to_bytes_v2(self)
    }
}

impl ToBytes for EolTestSnapshot {
    /// End of line test snapshots do not exist in protocol v1: no bytes
    open spec fn bytes_v1(&self) -> Seq<u8> {
        Seq::empty()
    }

    open spec fn bytes_v2(&self) -> Seq<u8> {
        eol_test_snapshot_body_v2(*self)
    }

    fn to_bytes_v1(&self) -> (r: Vec<u8>) {
        Vec::new()
    }

    fn to_bytes_v2(&self) -> (r: Vec<u8>) {
        eol_test_snapshot_to_bytes_v2(self)
    }
}

/// Body of a telemetry message in protocol v1
pub open spec fn payload_v1(m: TelemetryMessage) -> Seq<u8> {
    match m {
        TelemetryMessage::BootMessage(x) => x.bytes_v1(),
        TelemetryMessage::StoppedMessage(x) => x.bytes_v1(),
        TelemetryMessage::DataSnapshot(x) => x.bytes_v1(),
        TelemetryMessage::MachineStateSnapshot(x) => x.bytes_v1(),
        TelemetryMessage::AlarmTrap(x) => x.bytes_v1(),
        TelemetryMessage::ControlAck(x) => x.bytes_v1(),
        TelemetryMessage::FatalError(x) => x.bytes_v1(),
        TelemetryMessage::EolTestSnapshot(x) => x.bytes_v1(),
    }
}

/// Body of a telemetry message in protocol v2
pub open spec fn payload_v2(m: TelemetryMessage) -> Seq<u8> {
    match m {
        TelemetryMessage::BootMessage(x) => x.bytes_v2(),
        TelemetryMessage::StoppedMessage(x) => x.bytes_v2(),
        TelemetryMessage::DataSnapshot(x) => x.bytes_v2(),
        TelemetryMessage::MachineStateSnapshot(x) => x.bytes_v2(),
        TelemetryMessage::AlarmTrap(x) => x.bytes_v2(),
        TelemetryMessage::ControlAck(x) => x.bytes_v2(),
        TelemetryMessage::FatalError(x) => x.bytes_v2(),
        TelemetryMessage::EolTestSnapshot(x) => x.bytes_v2(),
    }
}

impl ToBytes for TelemetryMessage {
    /// A whole frame around the body in protocol v1
    open spec fn bytes_v1(&self) -> Seq<u8> {
        frame_bytes(payload_v1(*self))
    }

    /// A whole frame around the body in protocol v2
    open spec fn bytes_v2(&self) -> Seq<u8> {
        frame_bytes(payload_v2(*self))
    }

    fn to_bytes_v1(&self) -> (r: Vec<u8>) {
        let payload = match self {
            TelemetryMessage::BootMessage(m) => m.to_bytes_v1(),
            TelemetryMessage::StoppedMessage(m) => m.to_bytes_v1(),
            TelemetryMessage::DataSnapshot(m) => m.to_bytes_v1(),
            TelemetryMessage::MachineStateSnapshot(m) => m.to_bytes_v1(),
            TelemetryMessage::AlarmTrap(m) => m.to_bytes_v1(),
            TelemetryMessage::ControlAck(m) => m.to_bytes_v1(),
            TelemetryMessage::FatalError(m) => m.to_bytes_v1(),
            TelemetryMessage::EolTestSnapshot(m) => m.to_bytes_v1(),
        };
        mk_frame(payload.as_slice())
    }

    fn to_bytes_v2(&self) -> (r: Vec<u8>) {
        let payload = match self {
            TelemetryMessage::BootMessage(m) => m.to_bytes_v2(),
            TelemetryMessage::StoppedMessage(m) => m.to_bytes_v2(),
            TelemetryMessage::DataSnapshot(m) => m.to_bytes_v2(),
            TelemetryMessage::MachineStateSnapshot(m) => m.to_bytes_v2(),
            TelemetryMessage::AlarmTrap(m) => m.to_bytes_v2(),
            TelemetryMessage::ControlAck(m) => m.to_bytes_v2(),
            TelemetryMessage::FatalError(m) => m.to_bytes_v2(),
            TelemetryMessage::EolTestSnapshot(m) => m.to_bytes_v2(),
        };
        mk_frame(payload.as_slice())
    }
}

} // verus!
