use vstd::prelude::*;

use crate::locale::Locale;
use crate::structures::{ParseResult, TelemetryError, TelemetryErrorKind};
use crate::wire::{
    be16, be32, push_u16, push_u32, read_u16, read_u32, lemma_fixed_byte, scan_fixed, scan_fixed_exec, setting_from,
    u16_at, u32_at, ByteRule, Scan,
};

verus! {

/// Special value that can be used in a heartbeat control message to disable RPi watchdog
pub const DISABLE_RPI_WATCHDOG: u16 = 43_690;

/// Available settings in the control protocol
#[allow(clippy::upper_case_acronyms)]
#[derive(Debug, Clone, Copy, PartialEq, Eq, Structural)]
pub enum ControlSetting {
    /// Heartbeat used for the RPi watchdog feature (value is ignored except for the special value `DISABLE_RPI_WATCHDOG` which disables watchdog)
    Heartbeat,
    /// Ventilation mode: 1 = PC-CMV, 2 = PC-AC (default), 3 = VC-CMV, 4 = PC-VSAI, 5 = VC-AC
    VentilationMode,
    /// Plateau pressure in mmH2O
    PlateauPressure,
    /// PEEP in mmH2O
    PEEP,
    /// Number of cycles per minute
    CyclesPerMinute,
    /// Expiration term in the "Inspiration/Expiration" ratio given that Inspiration = 10
    ExpiratoryTerm,
    /// State of the trigger (1 if enabled, 0 if disabled)
    TriggerEnabled,
    /// Trigger offset in mmH2O
    TriggerOffset,
    /// State of the respiration (1 if enabled, 0 if disabled)
    RespirationEnabled,
    /// Alarm snooze (1 to snooze, 0 to unsnooze)
    AlarmSnooze,
    /// Inspiratory trigger flow in percent
    InspiratoryTriggerFlow,
    /// Expiratory trigger flow in percent
    ExpiratoryTriggerFlow,
    /// Minimum duration of inhalation in ms
    TiMin,
    /// Maximum duration of inhalation in ms
    TiMax,
    /// Threshold for low inspiratory minute volume alarm in L/min
    LowInspiratoryMinuteVolumeAlarmThreshold,
    /// Threshold for high inspiratory minute volume alarm in L/min
    HighInspiratoryMinuteVolumeAlarmThreshold,
    /// Threshold for low expiratory minute volume alarm in L/min
    LowExpiratoryMinuteVolumeAlarmThreshold,
    /// Threshold for high expiratory minute volume alarm in L/min
    HighExpiratoryMinuteVolumeAlarmThreshold,
    /// Threshold for low respiratory rate alarm in cycle per minute
    LowRespiratoryRateAlarmThreshold,
    /// Threshold for high respiratory rate alarm in cycle per minute
    HighRespiratoryRateAlarmThreshold,
    /// Target tidal volume in mL
    TargetTidalVolume,
    /// Threshold for low tidal volume in mL
    LowTidalVolumeAlarmThreshold,
    /// Threshold for high tidal volume in mL
    HighTidalVolumeAlarmThreshold,
    /// Duration in ms of closing both valves to measure plateau pressure in volume control modes
    PlateauDuration,
    /// Threshold for leak alarm in cL/min
    LeakAlarmThreshold,
    /// Target flow during inspiration in L/min
    TargetInspiratoryFlow,
    /// Duration of inspiration in ms
    InspiratoryDuration,
    /// Language of the system: two ASCII letters (ISO 639-1) as two bytes
    Locale,
    /// Patient's height in centimeters
    PatientHeight,
    /// Patient's gender (0 = male, 1 = female)
    PatientGender,
    /// Threshold for peak pressure alarm in mmH2O
    PeakPressureAlarmThreshold,
}

/// Wire value of a setting (0 to 30, in the order of declaration)
pub open spec fn setting_code(s: ControlSetting) -> u8 {
    match s {
        ControlSetting::Heartbeat => 0,
        ControlSetting::VentilationMode => 1,
        ControlSetting::PlateauPressure => 2,
        ControlSetting::PEEP => 3,
        ControlSetting::CyclesPerMinute => 4,
        ControlSetting::ExpiratoryTerm => 5,
        ControlSetting::TriggerEnabled => 6,
        ControlSetting::TriggerOffset => 7,
        ControlSetting::RespirationEnabled => 8,
        ControlSetting::AlarmSnooze => 9,
        ControlSetting::InspiratoryTriggerFlow => 10,
        ControlSetting::ExpiratoryTriggerFlow => 11,
        ControlSetting::TiMin => 12,
        ControlSetting::TiMax => 13,
        ControlSetting::LowInspiratoryMinuteVolumeAlarmThreshold => 14,
        ControlSetting::HighInspiratoryMinuteVolumeAlarmThreshold => 15,
        ControlSetting::LowExpiratoryMinuteVolumeAlarmThreshold => 16,
        ControlSetting::HighExpiratoryMinuteVolumeAlarmThreshold => 17,
        ControlSetting::LowRespiratoryRateAlarmThreshold => 18,
        ControlSetting::HighRespiratoryRateAlarmThreshold => 19,
        ControlSetting::TargetTidalVolume => 20,
        ControlSetting::LowTidalVolumeAlarmThreshold => 21,
        ControlSetting::HighTidalVolumeAlarmThreshold => 22,
        ControlSetting::PlateauDuration => 23,
        ControlSetting::LeakAlarmThreshold => 24,
        ControlSetting::TargetInspiratoryFlow => 25,
        ControlSetting::InspiratoryDuration => 26,
        ControlSetting::Locale => 27,
        ControlSetting::PatientHeight => 28,
        ControlSetting::PatientGender => 29,
        ControlSetting::PeakPressureAlarmThreshold => 30,
    }
}

/// Setting of a wire value
pub open spec fn setting_of(b: u8) -> Option<ControlSetting> {
    if b == 0 {
        Some(ControlSetting::Heartbeat)
    } else if b == 1 {
        Some(ControlSetting::VentilationMode)
    } else if b == 2 {
        Some(ControlSetting::PlateauPressure)
    } else if b == 3 {
        Some(ControlSetting::PEEP)
    } else if b == 4 {
        Some(ControlSetting::CyclesPerMinute)
    } else if b == 5 {
        Some(ControlSetting::ExpiratoryTerm)
    } else if b == 6 {
        Some(ControlSetting::TriggerEnabled)
    } else if b == 7 {
        Some(ControlSetting::TriggerOffset)
    } else if b == 8 {
        Some(ControlSetting::RespirationEnabled)
    } else if b == 9 {
        Some(ControlSetting::AlarmSnooze)
    } else if b == 10 {
        Some(ControlSetting::InspiratoryTriggerFlow)
    } else if b == 11 {
        Some(ControlSetting::ExpiratoryTriggerFlow)
    } else if b == 12 {
        Some(ControlSetting::TiMin)
    } else if b == 13 {
        Some(ControlSetting::TiMax)
    } else if b == 14 {
        Some(ControlSetting::LowInspiratoryMinuteVolumeAlarmThreshold)
    } else if b == 15 {
        Some(ControlSetting::HighInspiratoryMinuteVolumeAlarmThreshold)
    } else if b == 16 {
        Some(ControlSetting::LowExpiratoryMinuteVolumeAlarmThreshold)
    } else if b == 17 {
        Some(ControlSetting::HighExpiratoryMinuteVolumeAlarmThreshold)
    } else if b == 18 {
        Some(ControlSetting::LowRespiratoryRateAlarmThreshold)
    } else if b == 19 {
        Some(ControlSetting::HighRespiratoryRateAlarmThreshold)
    } else if b == 20 {
        Some(ControlSetting::TargetTidalVolume)
    } else if b == 21 {
        Some(ControlSetting::LowTidalVolumeAlarmThreshold)
    } else if b == 22 {
        Some(ControlSetting::HighTidalVolumeAlarmThreshold)
    } else if b == 23 {
        Some(ControlSetting::PlateauDuration)
    } else if b == 24 {
        Some(ControlSetting::LeakAlarmThreshold)
    } else if b == 25 {
        Some(ControlSetting::TargetInspiratoryFlow)
    } else if b == 26 {
        Some(ControlSetting::InspiratoryDuration)
    } else if b == 27 {
        Some(ControlSetting::Locale)
    } else if b == 28 {
        Some(ControlSetting::PatientHeight)
    } else if b == 29 {
        Some(ControlSetting::PatientGender)
    } else if b == 30 {
        Some(ControlSetting::PeakPressureAlarmThreshold)
    } else {
        None
    }
}

/// Default value of a setting
pub open spec fn setting_default(s: ControlSetting) -> usize {
    match s {
        ControlSetting::Heartbeat => 0,
        ControlSetting::VentilationMode => 1,
        ControlSetting::PlateauPressure => 0,
        ControlSetting::PEEP => 0,
        ControlSetting::CyclesPerMinute => 20,
        ControlSetting::ExpiratoryTerm => 20,
        ControlSetting::TriggerEnabled => 0,
        ControlSetting::TriggerOffset => 20,
        ControlSetting::RespirationEnabled => 0,
        ControlSetting::AlarmSnooze => 0,
        ControlSetting::InspiratoryTriggerFlow => 10,
        ControlSetting::ExpiratoryTriggerFlow => 30,
        ControlSetting::TiMin => 200,
        ControlSetting::TiMax => 1000,
        ControlSetting::LowInspiratoryMinuteVolumeAlarmThreshold => 3,
        ControlSetting::HighInspiratoryMinuteVolumeAlarmThreshold => 20,
        ControlSetting::LowExpiratoryMinuteVolumeAlarmThreshold => 3,
        ControlSetting::HighExpiratoryMinuteVolumeAlarmThreshold => 20,
        ControlSetting::LowRespiratoryRateAlarmThreshold => 10,
        ControlSetting::HighRespiratoryRateAlarmThreshold => 30,
        ControlSetting::TargetTidalVolume => 400,
        ControlSetting::LowTidalVolumeAlarmThreshold => 200,
        ControlSetting::HighTidalVolumeAlarmThreshold => 1000,
        ControlSetting::PlateauDuration => 200,
        ControlSetting::LeakAlarmThreshold => 200,
        ControlSetting::TargetInspiratoryFlow => 40,
        ControlSetting::InspiratoryDuration => 800,
        ControlSetting::Locale => 0x656e,
        ControlSetting::PatientHeight => 160,
        ControlSetting::PatientGender => 0,
        ControlSetting::PeakPressureAlarmThreshold => 500,
    }
}

/// Inclusive bounds of the allowed values of a setting
pub open spec fn setting_bounds(s: ControlSetting) -> (usize, usize) {
    match s {
        ControlSetting::Heartbeat => (0, 255),
        ControlSetting::VentilationMode => (1, 5),
        ControlSetting::PlateauPressure => (100, 400),
        ControlSetting::PEEP => (0, 300),
        ControlSetting::CyclesPerMinute => (5, 35),
        ControlSetting::ExpiratoryTerm => (10, 60),
        ControlSetting::TriggerEnabled => (0, 1),
        ControlSetting::TriggerOffset => (0, 100),
        ControlSetting::RespirationEnabled => (0, 1),
        ControlSetting::AlarmSnooze => (0, 1),
        ControlSetting::InspiratoryTriggerFlow => (0, 100),
        ControlSetting::ExpiratoryTriggerFlow => (0, 100),
        ControlSetting::TiMin => (100, 3000),
        ControlSetting::TiMax => (200, 5000),
        ControlSetting::LowInspiratoryMinuteVolumeAlarmThreshold => (0, 20),
        ControlSetting::HighInspiratoryMinuteVolumeAlarmThreshold => (10, 40),
        ControlSetting::LowExpiratoryMinuteVolumeAlarmThreshold => (0, 20),
        ControlSetting::HighExpiratoryMinuteVolumeAlarmThreshold => (10, 40),
        ControlSetting::LowRespiratoryRateAlarmThreshold => (5, 25),
        ControlSetting::HighRespiratoryRateAlarmThreshold => (15, 35),
        ControlSetting::TargetTidalVolume => (50, 2000),
        ControlSetting::LowTidalVolumeAlarmThreshold => (0, 1000),
        ControlSetting::HighTidalVolumeAlarmThreshold => (50, 2000),
        ControlSetting::PlateauDuration => (100, 2000),
        ControlSetting::LeakAlarmThreshold => (0, 10000),
        ControlSetting::TargetInspiratoryFlow => (5, 80),
        ControlSetting::InspiratoryDuration => (200, 3000),
        ControlSetting::Locale => (0x6161, 0x7a7a),
        ControlSetting::PatientHeight => (100, 250),
        ControlSetting::PatientGender => (0, 1),
        ControlSetting::PeakPressureAlarmThreshold => (50, 700),
    }
}

impl ControlSetting {
    /// Default value of the setting
    pub fn default(&self) -> (r: usize)
        ensures
            r == setting_default(*self),
    {
        match self {
            ControlSetting::Heartbeat => 0,
            ControlSetting::VentilationMode => 1,
            ControlSetting::PlateauPressure => 0,
            ControlSetting::PEEP => 0,
            ControlSetting::CyclesPerMinute => 20,
            ControlSetting::ExpiratoryTerm => 20,
            ControlSetting::TriggerEnabled => 0,
            ControlSetting::TriggerOffset => 20,
            ControlSetting::RespirationEnabled => 0,
            ControlSetting::AlarmSnooze => 0,
            ControlSetting::InspiratoryTriggerFlow => 10,
            ControlSetting::ExpiratoryTriggerFlow => 30,
            ControlSetting::TiMin => 200,
            ControlSetting::TiMax => 1000,
            ControlSetting::LowInspiratoryMinuteVolumeAlarmThreshold => 3,
            ControlSetting::HighInspiratoryMinuteVolumeAlarmThreshold => 20,
            ControlSetting::LowExpiratoryMinuteVolumeAlarmThreshold => 3,
            ControlSetting::HighExpiratoryMinuteVolumeAlarmThreshold => 20,
            ControlSetting::LowRespiratoryRateAlarmThreshold => 10,
            ControlSetting::HighRespiratoryRateAlarmThreshold => 30,
            ControlSetting::TargetTidalVolume => 400,
            ControlSetting::LowTidalVolumeAlarmThreshold => 200,
            ControlSetting::HighTidalVolumeAlarmThreshold => 1000,
            ControlSetting::PlateauDuration => 200,
            ControlSetting::LeakAlarmThreshold => 200,
            ControlSetting::TargetInspiratoryFlow => 40,
            ControlSetting::InspiratoryDuration => 800,
            ControlSetting::Locale => Locale::default().as_usize(),
            ControlSetting::PatientHeight => 160,
            ControlSetting::PatientGender => 0,
            ControlSetting::PeakPressureAlarmThreshold => 500,
        }
    }

    /// Allowed value bounds of the setting
    pub fn bounds(&self) -> (r: core::ops::RangeInclusive<usize>)
        ensures
            r@.start == setting_bounds(*self).0,
            r@.end == setting_bounds(*self).1,
            !r@.exhausted,
    {
        match self {
            ControlSetting::Heartbeat => core::ops::RangeInclusive::new(0usize, 255usize),
            ControlSetting::VentilationMode => core::ops::RangeInclusive::new(1usize, 5usize),
            ControlSetting::PlateauPressure => core::ops::RangeInclusive::new(100usize, 400usize),
            ControlSetting::PEEP => core::ops::RangeInclusive::new(0usize, 300usize),
            ControlSetting::CyclesPerMinute => core::ops::RangeInclusive::new(5usize, 35usize),
            ControlSetting::ExpiratoryTerm => core::ops::RangeInclusive::new(10usize, 60usize),
            ControlSetting::TriggerEnabled => core::ops::RangeInclusive::new(0usize, 1usize),
            ControlSetting::TriggerOffset => core::ops::RangeInclusive::new(0usize, 100usize),
            ControlSetting::RespirationEnabled => core::ops::RangeInclusive::new(0usize, 1usize),
            ControlSetting::AlarmSnooze => core::ops::RangeInclusive::new(0usize, 1usize),
            ControlSetting::InspiratoryTriggerFlow => core::ops::RangeInclusive::new(0usize, 100usize),
            ControlSetting::ExpiratoryTriggerFlow => core::ops::RangeInclusive::new(0usize, 100usize),
            ControlSetting::TiMin => core::ops::RangeInclusive::new(100usize, 3000usize),
            ControlSetting::TiMax => core::ops::RangeInclusive::new(200usize, 5000usize),
            ControlSetting::LowInspiratoryMinuteVolumeAlarmThreshold => core::ops::RangeInclusive::new(0usize, 20usize),
            ControlSetting::HighInspiratoryMinuteVolumeAlarmThreshold => core::ops::RangeInclusive::new(10usize, 40usize),
            ControlSetting::LowExpiratoryMinuteVolumeAlarmThreshold => core::ops::RangeInclusive::new(0usize, 20usize),
            ControlSetting::HighExpiratoryMinuteVolumeAlarmThreshold => core::ops::RangeInclusive::new(10usize, 40usize),
            ControlSetting::LowRespiratoryRateAlarmThreshold => core::ops::RangeInclusive::new(5usize, 25usize),
            ControlSetting::HighRespiratoryRateAlarmThreshold => core::ops::RangeInclusive::new(15usize, 35usize),
            ControlSetting::TargetTidalVolume => core::ops::RangeInclusive::new(50usize, 2000usize),
            ControlSetting::LowTidalVolumeAlarmThreshold => core::ops::RangeInclusive::new(0usize, 1000usize),
            ControlSetting::HighTidalVolumeAlarmThreshold => core::ops::RangeInclusive::new(50usize, 2000usize),
            ControlSetting::PlateauDuration => core::ops::RangeInclusive::new(100usize, 2000usize),
            ControlSetting::LeakAlarmThreshold => core::ops::RangeInclusive::new(0usize, 10000usize),
            ControlSetting::TargetInspiratoryFlow => core::ops::RangeInclusive::new(5usize, 80usize),
            ControlSetting::InspiratoryDuration => core::ops::RangeInclusive::new(200usize, 3000usize),
            ControlSetting::Locale => Locale::bounds(),
            ControlSetting::PatientHeight => core::ops::RangeInclusive::new(100usize, 250usize),
            ControlSetting::PatientGender => core::ops::RangeInclusive::new(0usize, 1usize),
            ControlSetting::PeakPressureAlarmThreshold => core::ops::RangeInclusive::new(50usize, 700usize),
        }
    }

    /// Wire value of the setting
    pub fn as_u8(&self) -> (r: u8)
        ensures
            r == setting_code(*self),
    {
        match self {
            ControlSetting::Heartbeat => 0,
            ControlSetting::VentilationMode => 1,
            ControlSetting::PlateauPressure => 2,
            ControlSetting::PEEP => 3,
            ControlSetting::CyclesPerMinute => 4,
            ControlSetting::ExpiratoryTerm => 5,
            ControlSetting::TriggerEnabled => 6,
            ControlSetting::TriggerOffset => 7,
            ControlSetting::RespirationEnabled => 8,
            ControlSetting::AlarmSnooze => 9,
            ControlSetting::InspiratoryTriggerFlow => 10,
            ControlSetting::ExpiratoryTriggerFlow => 11,
            ControlSetting::TiMin => 12,
            ControlSetting::TiMax => 13,
            ControlSetting::LowInspiratoryMinuteVolumeAlarmThreshold => 14,
            ControlSetting::HighInspiratoryMinuteVolumeAlarmThreshold => 15,
            ControlSetting::LowExpiratoryMinuteVolumeAlarmThreshold => 16,
            ControlSetting::HighExpiratoryMinuteVolumeAlarmThreshold => 17,
            ControlSetting::LowRespiratoryRateAlarmThreshold => 18,
            ControlSetting::HighRespiratoryRateAlarmThreshold => 19,
            ControlSetting::TargetTidalVolume => 20,
            ControlSetting::LowTidalVolumeAlarmThreshold => 21,
            ControlSetting::HighTidalVolumeAlarmThreshold => 22,
            ControlSetting::PlateauDuration => 23,
            ControlSetting::LeakAlarmThreshold => 24,
            ControlSetting::TargetInspiratoryFlow => 25,
            ControlSetting::InspiratoryDuration => 26,
            ControlSetting::Locale => 27,
            ControlSetting::PatientHeight => 28,
            ControlSetting::PatientGender => 29,
            ControlSetting::PeakPressureAlarmThreshold => 30,
        }
    }

    /// Setting of a wire value; values above 30 are rejected
    pub fn try_from_u8(value: u8) -> (r: Option<ControlSetting>)
        ensures
            r == setting_of(value),
    {
        if value == 0 {
            Some(ControlSetting::Heartbeat)
        } else if value == 1 {
            Some(ControlSetting::VentilationMode)
        } else if value == 2 {
            Some(ControlSetting::PlateauPressure)
        } else if value == 3 {
            Some(ControlSetting::PEEP)
        } else if value == 4 {
            Some(ControlSetting::CyclesPerMinute)
        } else if value == 5 {
            Some(ControlSetting::ExpiratoryTerm)
        } else if value == 6 {
            Some(ControlSetting::TriggerEnabled)
        } else if value == 7 {
            Some(ControlSetting::TriggerOffset)
        } else if value == 8 {
            Some(ControlSetting::RespirationEnabled)
        } else if value == 9 {
            Some(ControlSetting::AlarmSnooze)
        } else if value == 10 {
            Some(ControlSetting::InspiratoryTriggerFlow)
        } else if value == 11 {
            Some(ControlSetting::ExpiratoryTriggerFlow)
        } else if value == 12 {
            Some(ControlSetting::TiMin)
        } else if value == 13 {
            Some(ControlSetting::TiMax)
        } else if value == 14 {
            Some(ControlSetting::LowInspiratoryMinuteVolumeAlarmThreshold)
        } else if value == 15 {
            Some(ControlSetting::HighInspiratoryMinuteVolumeAlarmThreshold)
        } else if value == 16 {
            Some(ControlSetting::LowExpiratoryMinuteVolumeAlarmThreshold)
        } else if value == 17 {
            Some(ControlSetting::HighExpiratoryMinuteVolumeAlarmThreshold)
        } else if value == 18 {
            Some(ControlSetting::LowRespiratoryRateAlarmThreshold)
        } else if value == 19 {
            Some(ControlSetting::HighRespiratoryRateAlarmThreshold)
        } else if value == 20 {
            Some(ControlSetting::TargetTidalVolume)
        } else if value == 21 {
            Some(ControlSetting::LowTidalVolumeAlarmThreshold)
        } else if value == 22 {
            Some(ControlSetting::HighTidalVolumeAlarmThreshold)
        } else if value == 23 {
            Some(ControlSetting::PlateauDuration)
        } else if value == 24 {
            Some(ControlSetting::LeakAlarmThreshold)
        } else if value == 25 {
            Some(ControlSetting::TargetInspiratoryFlow)
        } else if value == 26 {
            Some(ControlSetting::InspiratoryDuration)
        } else if value == 27 {
            Some(ControlSetting::Locale)
        } else if value == 28 {
            Some(ControlSetting::PatientHeight)
        } else if value == 29 {
            Some(ControlSetting::PatientGender)
        } else if value == 30 {
            Some(ControlSetting::PeakPressureAlarmThreshold)
        } else {
            None
        }
    }
}
/// A control message
#[derive(Debug, Clone, Copy, PartialEq, Eq, Structural)]
pub struct ControlMessage {
    /// The setting to change
    pub setting: ControlSetting,
    /// The new value of the setting
    pub value: u16,
}

/// Header of control frames
pub open spec fn control_header() -> Seq<u8> {
    seq![0x05, 0x0a]
}

/// Footer of control frames
pub open spec fn control_footer() -> Seq<u8> {
    seq![0x50, 0xa0]
}

/// Body of a control frame: the setting's wire value, then the value in big-endian order
pub open spec fn control_body(m: ControlMessage) -> Seq<u8> {
    seq![setting_code(m.setting)] + be16(m.value)
}

/// A control frame: header, body, CRC in big-endian order, footer
pub open spec fn control_frame(m: ControlMessage, crc: u32) -> Seq<u8> {
    control_header() + control_body(m) + be32(crc) + control_footer()
}

/// What each byte of a control frame must be
pub open spec fn control_frame_rules() -> Seq<ByteRule> {
    seq![
        ByteRule::Is(0x05),
        ByteRule::Is(0x0a),
        ByteRule::Setting,
        ByteRule::Any,
        ByteRule::Any,
        ByteRule::Any,
        ByteRule::Any,
        ByteRule::Any,
        ByteRule::Any,
        ByteRule::Is(0x50),
        ByteRule::Is(0xa0),
    ]
}

/// Outcome of parsing a control frame at the start of `b`
pub open spec fn parse_control_spec(b: Seq<u8>) -> ParseResult<ControlMessage> {
    match scan_fixed(b, 0, control_frame_rules()) {
        Scan::Next(_) => {
            let m = ControlMessage { setting: setting_of(b[2]).unwrap(), value: u16_at(b, 3) };
            let expected = u32_at(b, 5);
            let computed = crate::framing::crc32_of(b.subrange(2, 5));
            if expected == computed {
                ParseResult::Done(m, 11)
            } else {
                ParseResult::Failed(
                    TelemetryError(11, TelemetryErrorKind::CrcError { expected, computed }),
                )
            }
        },
        Scan::More => ParseResult::Incomplete,
        Scan::Bad => ParseResult::Failed(TelemetryError(1, TelemetryErrorKind::ParserError)),
    }
}

impl ControlMessage {
    /// Binary body of the message
    pub fn to_bytes(&self) -> (r: Vec<u8>)
        ensures
            r@ == control_body(*self),
    {
        let mut v: Vec<u8> = Vec::new();
        v.push(self.setting.as_u8());
        push_u16(&mut v, self.value);
        proof {
            assert(v@ =~= control_body(*self));
        }
        v
    }

    /// CRC of the binary body of the message
    pub fn crc(&self) -> (r: u32)
        ensures
            r == crate::framing::crc32_of(control_body(*self)),
    {
        let body = self.to_bytes();
        crate::framing::crc32(body.as_slice())
    }

    /// Create a frame to be sent trough serial port: header, body, CRC and footer
    ///
    /// * `force_crc` - CRC value to be used; will be computed if not specified.
    pub fn to_control_frame_with(&self, force_crc: Option<u32>) -> (r: Vec<u8>)
        ensures
            r@ == control_frame(
                *self,
                match force_crc {
                    Some(c) => c,
                    None => crate::framing::crc32_of(control_body(*self)),
                },
            ),
    {
        let crc = match force_crc {
            Some(c) => c,
            None => self.crc(),
        };
        let mut v: Vec<u8> = Vec::new();
        v.push(0x05);
        v.push(0x0a);
        v.push(self.setting.as_u8());
        push_u16(&mut v, self.value);
        push_u32(&mut v, crc);
        v.push(0x50);
        v.push(0xa0);
        proof {
            assert(v@ =~= control_frame(*self, crc));
        }
        v
    }

    /// Create a frame to be sent trough serial port: header, body, computed CRC and footer
    pub fn to_control_frame(&self) -> (r: Vec<u8>)
        ensures
            r@ == control_frame(*self, crate::framing::crc32_of(control_body(*self))),
    {
        self.to_control_frame_with(None)
    }
}

/// Rules of the bytes of a control frame
fn control_frame_rules_exec() -> (r: Vec<ByteRule>)
    ensures
        r@ == control_frame_rules(),
{
    let r = vec![
        ByteRule::Is(0x05),
        ByteRule::Is(0x0a),
        ByteRule::Setting,
        ByteRule::Any,
        ByteRule::Any,
        ByteRule::Any,
        ByteRule::Any,
        ByteRule::Any,
        ByteRule::Any,
        ByteRule::Is(0x50),
        ByteRule::Is(0xa0),
    ];
    assert(r@ =~= control_frame_rules());
    r
}

/// Transform the bytes of a control frame into a structured control message, checking its CRC
///
/// * `input` - Bytes to parse.
pub fn parse_control_message(input: &[u8]) -> (r: ParseResult<ControlMessage>)
    ensures
        r == parse_control_spec(input@),
{
    let rules = control_frame_rules_exec();
    match scan_fixed_exec(input, 0, rules.as_slice()) {
        Scan::Next(_) => {
            proof {
                lemma_fixed_byte(input@, 0, control_frame_rules(), 2);
            }
            let m = ControlMessage { setting: setting_from(input[2]), value: read_u16(input, 3) };
            let expected = read_u32(input, 5);
            let computed = crate::framing::crc32(&input[2..5]);
            proof {
                assert(input@.subrange(2, 5) =~= input@.subrange(2, 5));
            }
            if expected == computed {
                ParseResult::Done(m, 11)
            } else {
                ParseResult::Failed(
                    TelemetryError(11, TelemetryErrorKind::CrcError { expected, computed }),
                )
            }
        },
        Scan::More => ParseResult::Incomplete,
        Scan::Bad => ParseResult::Failed(TelemetryError(1, TelemetryErrorKind::ParserError)),
    }
}

} // verus!
