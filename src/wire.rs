use vstd::prelude::*;

use crate::control::{setting_of, ControlSetting};
use crate::structures::{
    ventilation_mode_of, AlarmPriority, Mode, PatientGender, Phase, SubPhase, VentilationMode,
};

verus! {

/// Big-endian bytes of a u16
pub open spec fn be16(x: u16) -> Seq<u8> {
    seq![(x / 0x100) as u8, (x % 0x100) as u8]
}

/// Big-endian bytes of a u32
pub open spec fn be32(x: u32) -> Seq<u8> {
    seq![
        (x / 0x100_0000) as u8,
        ((x / 0x1_0000) % 0x100) as u8,
        ((x / 0x100) % 0x100) as u8,
        (x % 0x100) as u8,
    ]
}

/// Big-endian bytes of a u64
pub open spec fn be64(x: u64) -> Seq<u8> {
    be32((x / 0x1_0000_0000) as u32) + be32((x % 0x1_0000_0000) as u32)
}

/// The u16 that a signed value has in two's complement
pub open spec fn i16_bits(x: i16) -> u16 {
    if x < 0 {
        (x + 0x1_0000) as u16
    } else {
        x as u16
    }
}

/// Big-endian two's complement bytes of an i16
pub open spec fn be_i16(x: i16) -> Seq<u8> {
    be16(i16_bits(x))
}

/// Big-endian u16 at position `i`
pub open spec fn u16_at(b: Seq<u8>, i: int) -> u16 {
    (b[i] as int * 0x100 + b[i + 1] as int) as u16
}

/// Big-endian u32 at position `i`
pub open spec fn u32_at(b: Seq<u8>, i: int) -> u32 {
    (b[i] as int * 0x100_0000 + b[i + 1] as int * 0x1_0000 + b[i + 2] as int * 0x100 + b[i
        + 3] as int) as u32
}

/// Big-endian u64 at position `i`
pub open spec fn u64_at(b: Seq<u8>, i: int) -> u64 {
    (u32_at(b, i) as int * 0x1_0000_0000 + u32_at(b, i + 4) as int) as u64
}

/// Big-endian two's complement i16 at position `i`
pub open spec fn i16_at(b: Seq<u8>, i: int) -> i16 {
    let u = u16_at(b, i);
    if u >= 0x8000 {
        (u - 0x1_0000) as i16
    } else {
        u as i16
    }
}

/// Outcome of scanning a part of a message
#[derive(Debug, Clone, Copy, PartialEq, Eq, Structural)]
pub enum Scan {
    /// The part is well-formed and ends at this position
    Next(usize),
    /// The input ends before the part does, and nothing in it is wrong so far
    More,
    /// The part is malformed
    Bad,
}

/// What a single byte of a fixed-size part of a message must be
#[derive(Debug, Clone, Copy, PartialEq, Eq, Structural)]
pub enum ByteRule {
    /// Any byte
    Any,
    /// Exactly this byte
    Is(u8),
    /// A firmware mode (1, 2 or 3)
    Mode,
    /// A protocol v1 phase (17, 18 or 68)
    PhaseV1,
    /// A protocol v2 phase (17 or 68)
    PhaseV2,
    /// An alarm priority (4, 2 or 1)
    Priority,
    /// An alarm state (0xF0 or 0x0F)
    Triggered,
    /// A ventilation mode (1 to 5)
    Ventilation,
    /// A control setting (0 to 30)
    Setting,
    /// A patient gender (0 or 1)
    Gender,
    /// An end of line test step (0 to 27)
    EolStep,
}

/// Firmware mode of a wire value
pub open spec fn mode_of(b: u8) -> Option<Mode> {
    if b == 1 {
        Some(Mode::Production)
    } else if b == 2 {
        Some(Mode::Qualification)
    } else if b == 3 {
        Some(Mode::IntegrationTest)
    } else {
        None
    }
}

/// Wire value of a firmware mode
pub open spec fn mode_code(m: Mode) -> u8 {
    match m {
        Mode::Production => 1,
        Mode::Qualification => 2,
        Mode::IntegrationTest => 3,
    }
}

/// Phase and sub-phase of a protocol v1 wire value
pub open spec fn phase_v1_of(b: u8) -> Option<(Phase, SubPhase)> {
    if b == 17 {
        Some((Phase::Inhalation, SubPhase::Inspiration))
    } else if b == 18 {
        Some((Phase::Inhalation, SubPhase::HoldInspiration))
    } else if b == 68 {
        Some((Phase::Exhalation, SubPhase::Exhale))
    } else {
        None
    }
}

/// Phase of a protocol v2 wire value
pub open spec fn phase_v2_of(b: u8) -> Option<Phase> {
    if b == 17 {
        Some(Phase::Inhalation)
    } else if b == 68 {
        Some(Phase::Exhalation)
    } else {
        None
    }
}

/// Alarm priority of a wire value
pub open spec fn priority_of(b: u8) -> Option<AlarmPriority> {
    if b == 4 {
        Some(AlarmPriority::High)
    } else if b == 2 {
        Some(AlarmPriority::Medium)
    } else if b == 1 {
        Some(AlarmPriority::Low)
    } else {
        None
    }
}

/// Alarm state of a wire value
pub open spec fn triggered_of(b: u8) -> Option<bool> {
    if b == 0xf0 {
        Some(true)
    } else if b == 0x0f {
        Some(false)
    } else {
        None
    }
}

/// Patient gender of a wire value
pub open spec fn gender_of(b: u8) -> Option<PatientGender> {
    if b == 0 {
        Some(PatientGender::Male)
    } else if b == 1 {
        Some(PatientGender::Female)
    } else {
        None
    }
}

/// Wire value of a patient gender
pub open spec fn gender_code(g: PatientGender) -> u8 {
    match g {
        PatientGender::Male => 0,
        PatientGender::Female => 1,
    }
}

/// Whether a byte follows a rule
pub open spec fn rule_ok(r: ByteRule, x: u8) -> bool {
    match r {
        ByteRule::Any => true,
        ByteRule::Is(y) => x == y,
        ByteRule::Mode => mode_of(x).is_some(),
        ByteRule::PhaseV1 => phase_v1_of(x).is_some(),
        ByteRule::PhaseV2 => phase_v2_of(x).is_some(),
        ByteRule::Priority => priority_of(x).is_some(),
        ByteRule::Triggered => triggered_of(x).is_some(),
        ByteRule::Ventilation => ventilation_mode_of(x).is_some(),
        ByteRule::Setting => setting_of(x).is_some(),
        ByteRule::Gender => gender_of(x).is_some(),
        ByteRule::EolStep => x <= 27,
    }
}

/// Scan a fixed-size part that starts at `p` and whose bytes follow the rules of `pat`:
/// malformed as soon as an available byte breaks its rule, else incomplete while bytes are missing
pub open spec fn scan_fixed(b: Seq<u8>, p: int, pat: Seq<ByteRule>) -> Scan {
    if exists|i: int| 0 <= i < pat.len() && p + i < b.len() && !rule_ok(pat[i], #[trigger] b[p + i]) {
        Scan::Bad
    } else if p + pat.len() > b.len() {
        Scan::More
    } else {
        Scan::Next((p + pat.len()) as usize)
    }
}

/// Scan a length-prefixed byte array that starts at `p`
pub open spec fn scan_bytes(b: Seq<u8>, p: int) -> Scan {
    if p >= b.len() {
        Scan::More
    } else if p + 1 + b[p] > b.len() {
        Scan::More
    } else {
        Scan::Next((p + 1 + b[p]) as usize)
    }
}

/// Payload of the length-prefixed byte array that starts at `p`
pub open spec fn bytes_at(b: Seq<u8>, p: int) -> Seq<u8> {
    b.subrange(p + 1, p + 1 + b[p])
}

/// Scan a length-prefixed UTF-8 text that starts at `p`
pub open spec fn scan_text(b: Seq<u8>, p: int) -> Scan {
    match scan_bytes(b, p) {
        Scan::Next(q) => if vstd::utf8::valid_utf8(bytes_at(b, p)) {
            Scan::Next(q)
        } else {
            Scan::Bad
        },
        o => o,
    }
}

/// Mode of a byte that follows its rule
pub fn mode_from(x: u8) -> (r: Mode)
    requires
        mode_of(x).is_some(),
    ensures
        mode_of(x) == Some(r),
{
    if x == 1 {
        Mode::Production
    } else if x == 2 {
        Mode::Qualification
    } else {
        Mode::IntegrationTest
    }
}

/// Wire value of a mode
pub fn mode_value(m: Mode) -> (r: u8)
    ensures
        r == mode_code(m),
{
    match m {
        Mode::Production => 1,
        Mode::Qualification => 2,
        Mode::IntegrationTest => 3,
    }
}

/// Wire value of a gender
pub fn gender_value(g: PatientGender) -> (r: u8)
    ensures
        r == gender_code(g),
{
    match g {
        PatientGender::Male => 0,
        PatientGender::Female => 1,
    }
}

pub fn phase_v1_from(x: u8) -> (r: (Phase, SubPhase))
    requires
        phase_v1_of(x).is_some(),
    ensures
        phase_v1_of(x) == Some(r),
{
    if x == 17 {
        (Phase::Inhalation, SubPhase::Inspiration)
    } else if x == 18 {
        (Phase::Inhalation, SubPhase::HoldInspiration)
    } else {
        (Phase::Exhalation, SubPhase::Exhale)
    }
}

pub fn phase_v2_from(x: u8) -> (r: Phase)
    requires
        phase_v2_of(x).is_some(),
    ensures
        phase_v2_of(x) == Some(r),
{
    if x == 17 {
        Phase::Inhalation
    } else {
        Phase::Exhalation
    }
}

pub fn priority_from(x: u8) -> (r: AlarmPriority)
    requires
        priority_of(x).is_some(),
    ensures
        priority_of(x) == Some(r),
{
    if x == 4 {
        AlarmPriority::High
    } else if x == 2 {
        AlarmPriority::Medium
    } else {
        AlarmPriority::Low
    }
}

pub fn gender_from(x: u8) -> (r: PatientGender)
    requires
        gender_of(x).is_some(),
    ensures
        gender_of(x) == Some(r),
{
    if x == 0 {
        PatientGender::Male
    } else {
        PatientGender::Female
    }
}

pub fn ventilation_from(x: u8) -> (r: VentilationMode)
    requires
        ventilation_mode_of(x).is_some(),
    ensures
        ventilation_mode_of(x) == Some(r),
{
    match VentilationMode::try_from_u8(x) {
        Some(m) => m,
        None => VentilationMode::PC_AC,
    }
}

pub fn setting_from(x: u8) -> (r: ControlSetting)
    requires
        setting_of(x).is_some(),
    ensures
        setting_of(x) == Some(r),
{
    match ControlSetting::try_from_u8(x) {
        Some(s) => s,
        None => ControlSetting::Heartbeat,
    }
}

/// Whether a byte follows a rule
pub fn rule_holds(r: ByteRule, x: u8) -> (ok: bool)
    ensures
        ok == rule_ok(r, x),
{
    match r {
        ByteRule::Any => true,
        ByteRule::Is(y) => x == y,
        ByteRule::Mode => 1 <= x && x <= 3,
        ByteRule::PhaseV1 => x == 17 || x == 18 || x == 68,
        ByteRule::PhaseV2 => x == 17 || x == 68,
        ByteRule::Priority => x == 4 || x == 2 || x == 1,
        ByteRule::Triggered => x == 0xf0 || x == 0x0f,
        ByteRule::Ventilation => VentilationMode::try_from_u8(x).is_some(),
        ByteRule::Setting => ControlSetting::try_from_u8(x).is_some(),
        ByteRule::Gender => x <= 1,
        ByteRule::EolStep => x <= 27,
    }
}

/// Scan a fixed-size part of a message
pub fn scan_fixed_exec(b: &[u8], p: usize, pat: &[ByteRule]) -> (r: Scan)
    requires
        p <= b@.len(),
    ensures
        r == scan_fixed(b@, p as int, pat@),
{
    let mut i: usize = 0;
    while i < pat.len()
        invariant
            p <= b@.len(),
            i <= pat@.len(),
            forall|j: int| 0 <= j < i ==> p + j < b@.len() && rule_ok(pat@[j], #[trigger] b@[p + j]),
        decreases pat.len() - i,
    {
        if i >= b.len() - p {
            assert(!exists|j: int|
                0 <= j < pat@.len() && p + j < b@.len() && !rule_ok(pat@[j], #[trigger] b@[p + j]));
            return Scan::More;
        }
        if !rule_holds(pat[i], b[p + i]) {
            assert(!rule_ok(pat@[i as int], b@[p + i]));
            return Scan::Bad;
        }
        i = i + 1;
    }
    if pat.len() > b.len() - p {
        return Scan::More;
    }
    Scan::Next(p + pat.len())
}

/// A scan of a fixed-size part that went through: every byte of the part follows its rule
pub proof fn lemma_fixed_byte(b: Seq<u8>, p: int, pat: Seq<ByteRule>, i: int)
    requires
        scan_fixed(b, p, pat) is Next,
        0 <= i < pat.len(),
    ensures
        p + i < b.len(),
        rule_ok(pat[i], b[p + i]),
{
}

/// Scan a length-prefixed byte array
pub fn scan_bytes_exec(b: &[u8], p: usize) -> (r: Scan)
    requires
        p <= b@.len(),
    ensures
        r == scan_bytes(b@, p as int),
{
    if p >= b.len() {
        Scan::More
    } else if b[p] as usize >= b.len() - p {
        Scan::More
    } else {
        Scan::Next(p + 1 + b[p] as usize)
    }
}

/// Big-endian u16 at position `i`
pub fn read_u16(b: &[u8], i: usize) -> (r: u16)
    requires
        i + 2 <= b@.len(),
    ensures
        r == u16_at(b@, i as int),
{
    (b[i] as u16) * 0x100 + (b[i + 1] as u16)
}

/// Big-endian u32 at position `i`
pub fn read_u32(b: &[u8], i: usize) -> (r: u32)
    requires
        i + 4 <= b@.len(),
    ensures
        r == u32_at(b@, i as int),
{
    (b[i] as u32) * 0x100_0000 + (b[i + 1] as u32) * 0x1_0000 + (b[i + 2] as u32) * 0x100 + (b[i
        + 3] as u32)
}

/// Big-endian u64 at position `i`
pub fn read_u64(b: &[u8], i: usize) -> (r: u64)
    requires
        i + 8 <= b@.len(),
    ensures
        r == u64_at(b@, i as int),
{
    let n = b.len();
    let hi = read_u32(b, i) as u64;
    let lo = read_u32(b, i + 4) as u64;
    assert(hi * 0x1_0000_0000 <= 0xffff_ffff_0000_0000) by (nonlinear_arith)
        requires
            hi <= 0xffff_ffff,
    ;
    hi * 0x1_0000_0000 + lo
}

/// Big-endian two's complement i16 at position `i`
pub fn read_i16(b: &[u8], i: usize) -> (r: i16)
    requires
        i + 2 <= b@.len(),
    ensures
        r == i16_at(b@, i as int),
{
    let u = read_u16(b, i);
    if u >= 0x8000 {
        (u as i32 - 0x1_0000) as i16
    } else {
        u as i16
    }
}

/// Append the big-endian bytes of a u16
pub fn push_u16(v: &mut Vec<u8>, x: u16)
    ensures
        final(v)@ == old(v)@ + be16(x),
{
    v.push((x / 0x100) as u8);
    v.push((x % 0x100) as u8);
    assert(final(v)@ =~= old(v)@ + be16(x));
}

/// Append the big-endian bytes of a u32
pub fn push_u32(v: &mut Vec<u8>, x: u32)
    ensures
        final(v)@ == old(v)@ + be32(x),
{
    v.push((x / 0x100_0000) as u8);
    v.push(((x / 0x1_0000) % 0x100) as u8);
    v.push(((x / 0x100) % 0x100) as u8);
    v.push((x % 0x100) as u8);
    assert(final(v)@ =~= old(v)@ + be32(x));
}

/// Append the big-endian bytes of a u64
pub fn push_u64(v: &mut Vec<u8>, x: u64)
    ensures
        final(v)@ == old(v)@ + be64(x),
{
    push_u32(v, (x / 0x1_0000_0000) as u32);
    push_u32(v, (x % 0x1_0000_0000) as u32);
    assert(final(v)@ =~= old(v)@ + be64(x));
}

/// Append the big-endian two's complement bytes of an i16
pub fn push_i16(v: &mut Vec<u8>, x: i16)
    ensures
        final(v)@ == old(v)@ + be_i16(x),
{
    let u: u16 = if x < 0 {
        (x as i32 + 0x1_0000) as u16
    } else {
        x as u16
    };
    push_u16(v, u);
}

/// Append one byte
pub fn push_one(v: &mut Vec<u8>, x: u8)
    ensures
        final(v)@ == old(v)@ + seq![x],
{
    v.push(x);
    assert(final(v)@ =~= old(v)@ + seq![x]);
}

/// Append all bytes of a slice
pub fn push_all(v: &mut Vec<u8>, s: &[u8])
    ensures
        final(v)@ == old(v)@ + s@,
{
    let mut i: usize = 0;
    while i < s.len()
        invariant
            i <= s@.len(),
            v@ == old(v)@ + s@.subrange(0, i as int),
        decreases s.len() - i,
    {
        v.push(s[i]);
        i = i + 1;
        assert(v@ =~= old(v)@ + s@.subrange(0, i as int));
    }
    assert(s@.subrange(0, s@.len() as int) =~= s@);
}

/// A length-prefixed byte array: the length as a byte, then the bytes
pub open spec fn array_bytes(s: Seq<u8>) -> Seq<u8> {
    seq![s.len() as u8] + s
}

/// Append a length-prefixed byte array
pub fn push_array(v: &mut Vec<u8>, s: &[u8])
    ensures
        final(v)@ == old(v)@ + array_bytes(s@),
{
    push_one(v, s.len() as u8);
    push_all(v, s);
    assert(final(v)@ =~= old(v)@ + array_bytes(s@));
}

/// A scan of a fixed-size part goes through when every byte of the part is there and follows its
/// rule
pub proof fn lemma_fixed_ok(b: Seq<u8>, p: int, pat: Seq<ByteRule>)
    requires
        0 <= p,
        p + pat.len() <= b.len(),
        b.len() <= usize::MAX,
        forall|i: int| 0 <= i < pat.len() ==> rule_ok(pat[i], #[trigger] b[p + i]),
    ensures
        scan_fixed(b, p, pat) == Scan::Next((p + pat.len()) as usize),
{
}

/// The bytes of a u16 read back as the u16
pub proof fn lemma_u16_back(b: Seq<u8>, p: int, x: u16)
    requires
        0 <= p,
        p + 2 <= b.len(),
        b[p] == be16(x)[0],
        b[p + 1] == be16(x)[1],
    ensures
        u16_at(b, p) == x,
{
}

/// The bytes of an i16 read back as the i16
pub proof fn lemma_i16_back(b: Seq<u8>, p: int, x: i16)
    requires
        0 <= p,
        p + 2 <= b.len(),
        b[p] == be_i16(x)[0],
        b[p + 1] == be_i16(x)[1],
    ensures
        i16_at(b, p) == x,
{
    lemma_u16_back(b, p, i16_bits(x));
}

/// The bytes of a u32 read back as the u32
pub proof fn lemma_u32_back(b: Seq<u8>, p: int, x: u32)
    requires
        0 <= p,
        p + 4 <= b.len(),
        b[p] == be32(x)[0],
        b[p + 1] == be32(x)[1],
        b[p + 2] == be32(x)[2],
        b[p + 3] == be32(x)[3],
    ensures
        u32_at(b, p) == x,
{
    assert((x / 0x100_0000) * 0x100_0000 + ((x / 0x1_0000) % 0x100) * 0x1_0000 + ((x / 0x100)
        % 0x100) * 0x100 + x % 0x100 == x) by (nonlinear_arith);
}

/// The bytes of a u64 read back as the u64
pub proof fn lemma_u64_back(b: Seq<u8>, p: int, x: u64)
    requires
        0 <= p,
        p + 8 <= b.len(),
        forall|i: int| 0 <= i < 8 ==> b[p + i] == #[trigger] be64(x)[i],
    ensures
        u64_at(b, p) == x,
{
    let hi = (x / 0x1_0000_0000) as u32;
    let lo = (x % 0x1_0000_0000) as u32;
    assert(be64(x)[0] == be32(hi)[0] && be64(x)[3] == be32(hi)[3]);
    assert(be64(x)[1] == be32(hi)[1] && be64(x)[2] == be32(hi)[2]);
    assert(be64(x)[4] == be32(lo)[0] && be64(x)[7] == be32(lo)[3]);
    assert(be64(x)[5] == be32(lo)[1] && be64(x)[6] == be32(lo)[2]);
    assert(b[p] == be64(x)[0] && b[p + 1] == be64(x)[1] && b[p + 2] == be64(x)[2] && b[p + 3]
        == be64(x)[3]);
    assert(b[p + 4] == be64(x)[4] && b[p + 5] == be64(x)[5] && b[p + 6] == be64(x)[6] && b[p
        + 7] == be64(x)[7]);
    lemma_u32_back(b, p, hi);
    lemma_u32_back(b, p + 4, lo);
}

/// A fixed-size part goes through when the bytes from its start on follow its rules
pub proof fn lemma_fixed_shift(b: Seq<u8>, p: int, pat: Seq<ByteRule>, s: Seq<u8>)
    requires
        0 <= p <= b.len(),
        b.len() <= usize::MAX,
        s == b.subrange(p, b.len() as int),
        pat.len() <= s.len(),
        forall|i: int| 0 <= i < pat.len() ==> rule_ok(pat[i], #[trigger] s[i]),
    ensures
        scan_fixed(b, p, pat) == Scan::Next((p + pat.len()) as usize),
{
    assert forall|i: int| 0 <= i < pat.len() implies rule_ok(pat[i], #[trigger] b[p + i]) by {
        assert(s[i] == b[p + i]);
    }
}

} // verus!
