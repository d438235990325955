use vstd::prelude::*;
use vstd::utf8::*;

use crate::control::setting_of;
use crate::framing::{crc32, crc32_of};
use crate::structures::{ParseResult, TelemetryError, TelemetryErrorKind, TelemetryMessage};
use crate::structures::{BootMessage, ControlAck};
use crate::text::{device_id_string, device_id_text, utf8_text};
use crate::wire::{
    bytes_at, lemma_fixed_byte, mode_from, mode_of, read_u16, read_u32, read_u64, scan_bytes,
    scan_bytes_exec, scan_fixed, scan_fixed_exec, scan_text, setting_from, u16_at, u32_at, u64_at,
    rule_ok, ByteRule, Scan,
};

/// Parsers for the telemetry protocol version 1
pub mod v1;
/// Parsers for the telemetry protocol version 2
pub mod v2;

verus! {

/// Highest version of the telemetry protocol that this library reads
pub const MAXIMUM_SUPPORTED_VERSION: u8 = 2;

/// Outcome of reading a telemetry frame from the start of a buffer
#[derive(Debug, Clone, Copy, PartialEq, Eq, Structural)]
pub enum FrameOutcome {
    /// A message was read from this many leading bytes
    Record(usize),
    /// The buffer ends before the frame does
    NeedMore,
    /// The frame was rejected
    Rejected(TelemetryError),
}

/// The error that makes the reader drop one byte and try again
pub open spec fn grammar_error() -> TelemetryError {
    TelemetryError(1, TelemetryErrorKind::ParserError)
}

/// Whether a parser result agrees with the outcome of a scan, and its consumed length with the
/// scan's end
pub open spec fn agrees(r: ParseResult<TelemetryMessage>, s: Scan) -> bool {
    match (r, s) {
        (ParseResult::Done(_, n), Scan::Next(q)) => n == q,
        (ParseResult::Incomplete, Scan::More) => true,
        (ParseResult::Failed(e), Scan::Bad) => e == grammar_error(),
        _ => false,
    }
}

/// Parser result of a scan that did not go through
pub fn stopped_scan(s: Scan) -> (r: ParseResult<TelemetryMessage>)
    requires
        !(s is Next),
    ensures
        agrees(r, s),
{
    match s {
        Scan::More => ParseResult::Incomplete,
        _ => ParseResult::Failed(TelemetryError(1, TelemetryErrorKind::ParserError)),
    }
}

/// Message kind letter, ':', then the protocol version
pub open spec fn prefix_rules(k: u8, v: u8) -> Seq<ByteRule> {
    seq![ByteRule::Is(k), ByteRule::Is(58), ByteRule::Is(v)]
}

/// Device ID (three u32), separator, systick (u64)
pub open spec fn envelope_tail_rules() -> Seq<ByteRule> {
    Seq::new(21, |i: int| if i == 12 { ByteRule::Is(9) } else { ByteRule::Any })
}

#[verifier::opaque]
/// Scan the envelope that starts every message body of kind `k` in protocol version `v`:
/// "K:", version, firmware version (length-prefixed text), device ID, separator, systick
pub open spec fn scan_envelope(b: Seq<u8>, k: u8, v: u8) -> Scan {
    match scan_fixed(b, 0, prefix_rules(k, v)) {
        Scan::Next(_) => match scan_text(b, 3) {
            Scan::Next(q) => scan_fixed(b, q as int, envelope_tail_rules()),
            o => o,
        },
        o => o,
    }
}

/// Position where the envelope ends
pub open spec fn envelope_end(b: Seq<u8>) -> int {
    b[3] + 25
}

/// Whether envelope fields hold what the envelope at the start of `b` holds
pub open spec fn envelope_fields(
    b: Seq<u8>,
    v: u8,
    telemetry_version: u8,
    version: Seq<char>,
    device_id: Seq<char>,
    systick: u64,
) -> bool {
    let l = b[3] as int;
    &&& telemetry_version == v
    &&& version == decode_utf8(bytes_at(b, 3))
    &&& device_id == device_id_text(u32_at(b, 4 + l), u32_at(b, 8 + l), u32_at(b, 12 + l))
    &&& systick == u64_at(b, 17 + l)
}

/// Scan an envelope followed by a fixed-size part
pub open spec fn scan_simple(b: Seq<u8>, k: u8, v: u8, rules: Seq<ByteRule>) -> Scan {
    match scan_envelope(b, k, v) {
        Scan::Next(p) => scan_fixed(b, p as int, rules),
        o => o,
    }
}

/// The envelope as read from a buffer
pub struct Envelope {
    /// Version of the MCU firmware
    pub version: String,
    /// Internal ID of the MCU
    pub device_id: String,
    /// Number of microseconds since the MCU booted
    pub systick: u64,
}

fn prefix_rules_exec(k: u8, v: u8) -> (r: Vec<ByteRule>)
    ensures
        r@ == prefix_rules(k, v),
{
    let r = vec![ByteRule::Is(k), ByteRule::Is(58), ByteRule::Is(v)];
    assert(r@ =~= prefix_rules(k, v));
    r
}

fn envelope_tail_rules_exec() -> (r: Vec<ByteRule>)
    ensures
        r@ == envelope_tail_rules(),
{
    let mut r: Vec<ByteRule> = Vec::new();
    let mut i: usize = 0;
    while i < 21
        invariant
            i <= 21,
            r@ =~= envelope_tail_rules().subrange(0, i as int),
        decreases 21 - i,
    {
        if i == 12 {
            r.push(ByteRule::Is(9));
        } else {
            r.push(ByteRule::Any);
        }
        i = i + 1;
    }
    assert(r@ =~= envelope_tail_rules());
    r
}

/// Read the envelope of a message body of kind `k` in protocol version `v`, then a fixed-size
/// part; on success, also the position where the envelope ends
pub fn read_simple(b: &[u8], k: u8, v: u8, rules: &[ByteRule]) -> (r: Result<
    (Envelope, usize),
    Scan,
>)
    ensures
        match r {
            Ok((env, e)) => {
                &&& e == envelope_end(b@)
                &&& scan_envelope(b@, k, v) == Scan::Next(e)
                &&& scan_fixed(b@, e as int, rules@) == Scan::Next((e + rules@.len()) as usize)
                &&& scan_simple(b@, k, v, rules@) == Scan::Next((e + rules@.len()) as usize)
                &&& envelope_fields(b@, v, v, env.version@, env.device_id@, env.systick)
            },
            Err(s) => s == scan_simple(b@, k, v, rules@) && !(s is Next),
        },
{
    match read_envelope(b, k, v) {
        Err(s) => Err(s),
        Ok((env, e)) => match scan_fixed_exec(b, e, rules) {
            Scan::Next(q) => Ok((env, e)),
            s => Err(s),
        },
    }
}

/// Read the envelope of a message body of kind `k` in protocol version `v`
pub fn read_envelope(b: &[u8], k: u8, v: u8) -> (r: Result<(Envelope, usize), Scan>)
    ensures
        match r {
            Ok((env, e)) => {
                &&& e == envelope_end(b@)
                &&& e <= b@.len()
                &&& scan_envelope(b@, k, v) == Scan::Next(e)
                &&& envelope_fields(b@, v, v, env.version@, env.device_id@, env.systick)
            },
            Err(s) => s == scan_envelope(b@, k, v) && !(s is Next),
        },
{
    reveal(scan_envelope);
    let prefix = prefix_rules_exec(k, v);
    match scan_fixed_exec(b, 0, prefix.as_slice()) {
        Scan::Next(_) => {},
        s => {
            return Err(s);
        },
    }
    let q = match scan_bytes_exec(b, 3) {
        Scan::Next(q) => q,
        s => {
            return Err(s);
        },
    };
    let version = match utf8_text(&b[4..q]) {
        Some(t) => t,
        None => {
            assert(b@.subrange(4, q as int) =~= bytes_at(b@, 3));
            return Err(Scan::Bad);
        },
    };
    assert(b@.subrange(4, q as int) =~= bytes_at(b@, 3));
    let tail = envelope_tail_rules_exec();
    match scan_fixed_exec(b, q, tail.as_slice()) {
        Scan::Next(e) => {
            let device_id = device_id_string(read_u32(b, q), read_u32(b, q + 4), read_u32(b, q + 8));
            let systick = read_u64(b, q + 13);
            Ok((Envelope { version, device_id, systick }, e))
        },
        s => Err(s),
    }
}

/// Copy of the payload of the length-prefixed byte array that starts at `a`
pub fn copy_array(b: &[u8], a: usize) -> (r: Vec<u8>)
    requires
        scan_bytes(b@, a as int) is Next,
    ensures
        r@ == bytes_at(b@, a as int),
{
    let mut v: Vec<u8> = Vec::new();
    let n = b[a] as usize;
    crate::wire::push_all(&mut v, &b[a + 1..a + 1 + n]);
    assert(b@.subrange(a + 1, a + 1 + n) =~= bytes_at(b@, a as int));
    v
}

/// Pressure of protocol v1, sent as a u16: values above i16::MAX read as i16::MAX
pub open spec fn pressure_v1(u: u16) -> i16 {
    if u <= 0x7fff {
        u as i16
    } else {
        0x7fff
    }
}

/// Pressure of protocol v1, sent as a u16: values above i16::MAX read as i16::MAX
pub fn pressure_from_v1(u: u16) -> (r: i16)
    ensures
        r == pressure_v1(u),
{
    if u <= 0x7fff {
        u as i16
    } else {
        0x7fff
    }
}

/// Measured volume: 0xFFFF stands for an absent value
pub open spec fn volume_of(u: u16) -> Option<u16> {
    if u == 0xffff {
        None
    } else {
        Some(u)
    }
}

/// Measured volume: 0xFFFF stands for an absent value
pub fn volume_from(u: u16) -> (r: Option<u16>)
    ensures
        r == volume_of(u),
{
    if u == 0xffff {
        None
    } else {
        Some(u)
    }
}

/// Fixed-size part of a boot message (both protocol versions)
pub open spec fn boot_rules() -> Seq<ByteRule> {
    seq![ByteRule::Is(9), ByteRule::Mode, ByteRule::Is(9), ByteRule::Any, ByteRule::Is(10)]
}

/// Scan a boot message body
#[verifier::opaque]
pub open spec fn scan_boot(b: Seq<u8>, v: u8) -> Scan {
    scan_simple(b, 66, v, boot_rules())
}

/// Whether `m` is the boot message that a body holds
#[verifier::opaque]
pub open spec fn boot_decodes(b: Seq<u8>, v: u8, m: TelemetryMessage) -> bool {
    let e = envelope_end(b);
    match m {
        TelemetryMessage::BootMessage(x) => {
            &&& envelope_fields(b, v, x.telemetry_version, x.version@, x.device_id@, x.systick)
            &&& mode_of(b[e + 1]) == Some(x.mode)
            &&& x.value128 == b[e + 3]
        },
        _ => false,
    }
}

/// Parse a boot message body
pub fn boot(b: &[u8], v: u8) -> (r: ParseResult<TelemetryMessage>)
    ensures
        agrees(r, scan_boot(b@, v)),
        r matches ParseResult::Done(_, n) ==> n <= b@.len(),
        r matches ParseResult::Done(m, _) ==> boot_decodes(b@, v, m),
{
    reveal(scan_boot);
    reveal(boot_decodes);
    let rules = vec![
        ByteRule::Is(9),
        ByteRule::Mode,
        ByteRule::Is(9),
        ByteRule::Any,
        ByteRule::Is(10),
    ];
    assert(rules@ =~= boot_rules());
    match read_simple(b, 66, v, rules.as_slice()) {
        Err(s) => stopped_scan(s),
        Ok((env, e)) => {
            proof {
                lemma_fixed_byte(b@, e as int, boot_rules(), 1);
            }
            let m = BootMessage {
                telemetry_version: v,
                version: env.version,
                device_id: env.device_id,
                systick: env.systick,
                mode: mode_from(b[e + 1]),
                value128: b[e + 3],
            };
            ParseResult::Done(TelemetryMessage::BootMessage(m), e + 5)
        },
    }
}

/// Fixed-size part of a control acknowledgement (both protocol versions)
pub open spec fn control_ack_rules() -> Seq<ByteRule> {
    seq![
        ByteRule::Is(9),
        ByteRule::Setting,
        ByteRule::Is(9),
        ByteRule::Any,
        ByteRule::Any,
        ByteRule::Is(10),
    ]
}

/// Scan a control acknowledgement body
#[verifier::opaque]
pub open spec fn scan_control_ack(b: Seq<u8>, v: u8) -> Scan {
    scan_simple(b, 65, v, control_ack_rules())
}

/// Whether `m` is the control acknowledgement that a body holds
#[verifier::opaque]
pub open spec fn control_ack_decodes(b: Seq<u8>, v: u8, m: TelemetryMessage) -> bool {
    let e = envelope_end(b);
    match m {
        TelemetryMessage::ControlAck(x) => {
            &&& envelope_fields(b, v, x.telemetry_version, x.version@, x.device_id@, x.systick)
            &&& setting_of(b[e + 1]) == Some(x.setting)
            &&& x.value == u16_at(b, e + 3)
        },
        _ => false,
    }
}

/// Parse a control acknowledgement body
pub fn control_ack(b: &[u8], v: u8) -> (r: ParseResult<TelemetryMessage>)
    ensures
        agrees(r, scan_control_ack(b@, v)),
        r matches ParseResult::Done(_, n) ==> n <= b@.len(),
        r matches ParseResult::Done(m, _) ==> control_ack_decodes(b@, v, m),
{
    reveal(scan_control_ack);
    reveal(control_ack_decodes);
    let rules = vec![
        ByteRule::Is(9),
        ByteRule::Setting,
        ByteRule::Is(9),
        ByteRule::Any,
        ByteRule::Any,
        ByteRule::Is(10),
    ];
    assert(rules@ =~= control_ack_rules());
    match read_simple(b, 65, v, rules.as_slice()) {
        Err(s) => stopped_scan(s),
        Ok((env, e)) => {
            proof {
                lemma_fixed_byte(b@, e as int, control_ack_rules(), 1);
            }
            let m = ControlAck {
                telemetry_version: v,
                version: env.version,
                device_id: env.device_id,
                systick: env.systick,
                setting: setting_from(b[e + 1]),
                value: read_u16(b, e + 3),
            };
            ParseResult::Done(TelemetryMessage::ControlAck(m), e + 6)
        },
    }
}

/// Scan a message body: as protocol v2 first, then as protocol v1
#[verifier::opaque]
pub open spec fn scan_body(b: Seq<u8>) -> Scan {
    match v2::scan_message(b) {
        Scan::Bad => v1::scan_message(b),
        o => o,
    }
}

/// Whether `m` is the message that a body holds, in the protocol version that reads it
#[verifier::opaque]
pub open spec fn body_decodes(b: Seq<u8>, m: TelemetryMessage) -> bool {
    if v2::scan_message(b) is Bad {
        v1::message_decodes(b, m)
    } else {
        v2::message_decodes(b, m)
    }
}

/// Transform the bytes of a message body into a structured telemetry message, trying protocol v2
/// first and then protocol v1
///
/// * `input` - Bytes to parse: the body only, without header, CRC and footer.
pub fn message(input: &[u8]) -> (r: ParseResult<TelemetryMessage>)
    ensures
        agrees(r, scan_body(input@)),
        r matches ParseResult::Done(_, n) ==> n <= input@.len(),
        r matches ParseResult::Done(m, _) ==> body_decodes(input@, m),
{
    reveal(body_decodes);
    reveal(scan_body);
    match v2::message(input) {
        ParseResult::Failed(_) => v1::message(input),
        r => r,
    }
}

/// Header of telemetry frames
pub open spec fn header_rules() -> Seq<ByteRule> {
    seq![ByteRule::Is(0x03), ByteRule::Is(0x0c)]
}

/// Header, message kind, ':' and protocol version
pub open spec fn version_probe_rules() -> Seq<ByteRule> {
    seq![ByteRule::Is(0x03), ByteRule::Is(0x0c), ByteRule::Any, ByteRule::Is(58), ByteRule::Any]
}

/// CRC and footer of telemetry frames
pub open spec fn trailer_rules() -> Seq<ByteRule> {
    seq![
        ByteRule::Any,
        ByteRule::Any,
        ByteRule::Any,
        ByteRule::Any,
        ByteRule::Is(0x30),
        ByteRule::Is(0xc0),
    ]
}

/// Outcome of reading the protocol version of the frame that starts `b`
pub open spec fn protocol_version_spec(b: Seq<u8>) -> ParseResult<u8> {
    match scan_fixed(b, 0, version_probe_rules()) {
        Scan::Next(_) => ParseResult::Done(b[4], 5),
        Scan::More => ParseResult::Incomplete,
        Scan::Bad => ParseResult::Failed(grammar_error()),
    }
}

/// Outcome of reading a telemetry frame at the start of `b`: header, message body, CRC of the
/// body, footer
#[verifier::opaque]
pub open spec fn frame_outcome(b: Seq<u8>) -> FrameOutcome {
    match scan_fixed(b, 0, header_rules()) {
        Scan::Bad => FrameOutcome::Rejected(grammar_error()),
        Scan::More => FrameOutcome::NeedMore,
        Scan::Next(_) => {
            let body = b.subrange(2, b.len() as int);
            match scan_body(body) {
                Scan::More => FrameOutcome::NeedMore,
                Scan::Bad => match protocol_version_spec(b) {
                    ParseResult::Done(v, _) => if v > MAXIMUM_SUPPORTED_VERSION {
                        FrameOutcome::Rejected(
                            TelemetryError(
                                5,
                                TelemetryErrorKind::UnsupportedProtocolVersion {
                                    maximum_supported: MAXIMUM_SUPPORTED_VERSION,
                                    found: v,
                                },
                            ),
                        )
                    } else {
                        FrameOutcome::Rejected(grammar_error())
                    },
                    ParseResult::Incomplete => FrameOutcome::NeedMore,
                    ParseResult::Failed(e) => FrameOutcome::Rejected(e),
                },
                Scan::Next(n) => match scan_fixed(b, 2 + n, trailer_rules()) {
                    Scan::Next(end) => {
                        let expected = u32_at(b, 2 + n);
                        let computed = crc32_of(body.subrange(0, n as int));
                        if expected == computed {
                            FrameOutcome::Record(end)
                        } else {
                            FrameOutcome::Rejected(
                                TelemetryError(
                                    end,
                                    TelemetryErrorKind::CrcError { expected, computed },
                                ),
                            )
                        }
                    },
                    Scan::More => FrameOutcome::NeedMore,
                    Scan::Bad => FrameOutcome::Rejected(grammar_error()),
                },
            }
        },
    }
}

/// A message or a rejection covers some of the bytes that were read
pub proof fn lemma_frame_outcome_len(b: Seq<u8>)
    requires
        b.len() <= usize::MAX,
    ensures
        frame_outcome(b) matches FrameOutcome::Record(n) ==> 2 <= n <= b.len(),
        frame_outcome(b) matches FrameOutcome::Rejected(TelemetryError(n, _)) ==> 1 <= n <= b.len(),
        frame_outcome(b) matches FrameOutcome::Rejected(TelemetryError(n, k)) ==> (k
            is ParserError ==> n == 1),
{
    reveal(frame_outcome);
}

/// Whether a parser result matches the outcome of reading a frame, and its message is the one
/// that the frame's body holds
pub open spec fn frame_result(b: Seq<u8>, r: ParseResult<TelemetryMessage>) -> bool {
    match r {
        ParseResult::Done(m, n) => frame_outcome(b) == FrameOutcome::Record(n) && body_decodes(
            b.subrange(2, b.len() as int),
            m,
        ),
        ParseResult::Incomplete => frame_outcome(b) == FrameOutcome::NeedMore,
        ParseResult::Failed(e) => frame_outcome(b) == FrameOutcome::Rejected(e),
    }
}

/// Try to extract the protocol version from the first bytes of a frame
///
/// * `input` - Bytes of the message: the header and the 3 first bytes of the body are needed.
///
/// The CRC is not checked.
pub fn protocol_version(input: &[u8]) -> (r: ParseResult<u8>)
    ensures
        r == protocol_version_spec(input@),
{
    let rules = vec![
        ByteRule::Is(0x03),
        ByteRule::Is(0x0c),
        ByteRule::Any,
        ByteRule::Is(58),
        ByteRule::Any,
    ];
    assert(rules@ =~= version_probe_rules());
    match scan_fixed_exec(input, 0, rules.as_slice()) {
        Scan::Next(_) => ParseResult::Done(input[4], 5),
        Scan::More => ParseResult::Incomplete,
        Scan::Bad => ParseResult::Failed(TelemetryError(1, TelemetryErrorKind::ParserError)),
    }
}

/// Transform bytes into a structured telemetry message
///
/// * `input` - Bytes to parse: a whole frame (header, body, CRC and footer) is needed.
///
/// The CRC is checked. On error, the first field of the error tells how many bytes to skip: the
/// whole frame after a CRC error, the header and version after an unsupported version, and one
/// byte when the bytes do not follow the grammar.
pub fn parse_telemetry_message(input: &[u8]) -> (r: ParseResult<TelemetryMessage>)
    ensures
        frame_result(input@, r),
{
    reveal(frame_outcome);
    let header = vec![ByteRule::Is(0x03), ByteRule::Is(0x0c)];
    assert(header@ =~= header_rules());
    match scan_fixed_exec(input, 0, header.as_slice()) {
        Scan::Next(_) => {},
        Scan::More => {
            return ParseResult::Incomplete;
        },
        Scan::Bad => {
            return ParseResult::Failed(TelemetryError(1, TelemetryErrorKind::ParserError));
        },
    }
    let body = &input[2..input.len()];
    assert(body@ =~= input@.subrange(2, input@.len() as int));
    match message(body) {
        ParseResult::Incomplete => ParseResult::Incomplete,
        ParseResult::Failed(_) => match protocol_version(input) {
            ParseResult::Done(v, _) => {
                if v > MAXIMUM_SUPPORTED_VERSION {
                    ParseResult::Failed(
                        TelemetryError(
                            5,
                            TelemetryErrorKind::UnsupportedProtocolVersion {
                                maximum_supported: MAXIMUM_SUPPORTED_VERSION,
                                found: v,
                            },
                        ),
                    )
                } else {
                    ParseResult::Failed(TelemetryError(1, TelemetryErrorKind::ParserError))
                }
            },
            ParseResult::Incomplete => ParseResult::Incomplete,
            ParseResult::Failed(e) => ParseResult::Failed(e),
        },
        ParseResult::Done(m, n) => {
            let trailer = vec![
                ByteRule::Any,
                ByteRule::Any,
                ByteRule::Any,
                ByteRule::Any,
                ByteRule::Is(0x30),
                ByteRule::Is(0xc0),
            ];
            assert(trailer@ =~= trailer_rules());
            match scan_fixed_exec(input, 2 + n, trailer.as_slice()) {
                Scan::Next(end) => {
                    let expected = read_u32(input, 2 + n);
                    let computed = crc32(&body[0..n]);
                    assert(body@.subrange(0, n as int) =~= body@.subrange(0, n as int));
                    if expected == computed {
                        ParseResult::Done(m, end)
                    } else {
                        ParseResult::Failed(
                            TelemetryError(
                                end,
                                TelemetryErrorKind::CrcError { expected, computed },
                            ),
                        )
                    }
                },
                Scan::More => ParseResult::Incomplete,
                Scan::Bad => ParseResult::Failed(TelemetryError(1, TelemetryErrorKind::ParserError)),
            }
        },
    }
}

/// A frame whose protocol version is above the highest supported one is rejected as an unsupported
/// protocol version (not as bytes outside the grammar), whatever its message kind, and its header,
/// kind, ':' and version are skipped
pub proof fn lemma_unsupported_version(b: Seq<u8>)
    requires
        5 <= b.len() <= usize::MAX,
        b[0] == 0x03,
        b[1] == 0x0c,
        b[3] == 58,
        b[4] > MAXIMUM_SUPPORTED_VERSION,
    ensures
        frame_outcome(b) == FrameOutcome::Rejected(
            TelemetryError(
                5,
                TelemetryErrorKind::UnsupportedProtocolVersion {
                    maximum_supported: MAXIMUM_SUPPORTED_VERSION,
                    found: b[4],
                },
            ),
        ),
{
    reveal(frame_outcome);
    reveal(scan_body);
    reveal(scan_envelope);
    reveal(scan_boot);
    reveal(scan_control_ack);
    reveal(v2::scan_stopped);
    reveal(v2::scan_data_snapshot);
    reveal(v2::scan_machine_state_snapshot);
    reveal(v2::scan_alarm_trap);
    reveal(v2::scan_fatal_error);
    reveal(v2::scan_eol_test_snapshot);
    reveal(v1::scan_stopped);
    reveal(v1::scan_data_snapshot);
    reveal(v1::scan_machine_state_snapshot);
    reveal(v1::scan_alarm_trap);
    let body = b.subrange(2, b.len() as int);
    let k = body[0];
    let i: int = 2;
    assert(body[i] == b[4]);
    assert(!rule_ok(prefix_rules(k, 2)[i], body[0 + i]));
    assert(!rule_ok(prefix_rules(k, 1)[i], body[0 + i]));
    assert(scan_envelope(body, k, 2) == Scan::Bad);
    assert(scan_envelope(body, k, 1) == Scan::Bad);
    assert(v2::scan_message(body) == Scan::Bad);
    assert(v1::scan_message(body) == Scan::Bad);
    assert forall|j: int| 0 <= j < header_rules().len() implies rule_ok(
        #[trigger] header_rules()[j],
        b[0 + j],
    ) by {}
    assert forall|j: int| 0 <= j < version_probe_rules().len() implies rule_ok(
        #[trigger] version_probe_rules()[j],
        b[0 + j],
    ) by {}
}

} // verus!
