use vstd::prelude::*;

verus! {

/// Error code of RMC SW 1
pub const RMC_SW_1: u8 = 12;
/// Error code of RMC SW 2
pub const RMC_SW_2: u8 = 11;
/// Error code of RMC SW 3
pub const RMC_SW_3: u8 = 14;
/// Error code of RMC SW 4
pub const RMC_SW_4: u8 = 40;
/// Error code of RMC SW 5
pub const RMC_SW_5: u8 = 41;
/// Error code of RMC SW 6
pub const RMC_SW_6: u8 = 42;
/// Error code of RMC SW 7
pub const RMC_SW_7: u8 = 43;
/// Error code of RMC SW 8
pub const RMC_SW_8: u8 = 44;
/// Error code of RMC SW 9
pub const RMC_SW_9: u8 = 45;
/// Error code of RMC SW 10
pub const RMC_SW_10: u8 = 46;
/// Error code of RMC SW 11
pub const RMC_SW_11: u8 = 21;
/// Error code of RMC SW 12
pub const RMC_SW_12: u8 = 13;
/// Error code of RMC SW 14
pub const RMC_SW_14: u8 = 22;
/// Error code of RMC SW 15
pub const RMC_SW_15: u8 = 23;
/// Error code of RMC SW 16
pub const RMC_SW_16: u8 = 31;
/// Error code of RMC SW 18
pub const RMC_SW_18: u8 = 17;
/// Error code of RMC SW 19
pub const RMC_SW_19: u8 = 24;
/// Error code of RMC SW 20
pub const RMC_SW_20: u8 = 47;
/// Error code of RMC SW 21
pub const RMC_SW_21: u8 = 48;
/// Error code of RMC SW 22
pub const RMC_SW_22: u8 = 49;

/// Wrapper arround an alarm code
#[derive(Debug, Clone, Copy, PartialEq, Eq, Structural, Hash, PartialOrd, Ord)]
pub struct AlarmCode {
    code: u8,
}

/// Possible alarms causes
#[allow(clippy::upper_case_acronyms)]
#[derive(Debug, Clone, Copy, PartialEq, Eq, Structural)]
pub enum AlarmCodeDescription {
    /// Plateau pressure was not reached
    PlateauPressureNotReached,
    /// Patient is unplugged
    PatientUnplugged,
    /// PEEP was not reached
    PEEPPressureNotReached,
    /// Battery level is low
    BatteryLow,
    /// Battery level is very low
    BatteryVeryLow,
    /// Power outlet is unplugged
    PowerCableUnplugged,
    /// Pressure is too high
    PressureTooHigh,
    /// Inspiratory minute volume is too low
    InspiratoryMinuteVolumeLow,
    /// Inspiratory minute volume is too high
    InspiratoryMinuteVolumeHigh,
    /// Expiratory minute volume is too low
    ExpiratoryMinuteVolumeLow,
    /// Expiratory minute volume is too high
    ExpiratoryMinuteVolumeHigh,
    /// Respiratory rate is too low
    RespiratoryRateLow,
    /// Respiratory rate is too high
    RespiratoryRateHigh,
    /// Leak is too high
    LeakHigh,
    /// Tidal Volume is too low
    TidalVolumeLow,
    /// Tidal Volume is too high
    TidalVolumeHigh,
    /// Peak pressure is too high
    PeakPressureHigh,
    /// Unknown cause
    Unknown(u8),
}

/// Cause of the alarm of a code
pub open spec fn description_of(code: u8) -> AlarmCodeDescription {
    if code == RMC_SW_1 || code == RMC_SW_14 {
        AlarmCodeDescription::PlateauPressureNotReached
    } else if code == RMC_SW_2 || code == RMC_SW_19 {
        AlarmCodeDescription::PatientUnplugged
    } else if code == RMC_SW_3 || code == RMC_SW_15 {
        AlarmCodeDescription::PEEPPressureNotReached
    } else if code == RMC_SW_4 {
        AlarmCodeDescription::InspiratoryMinuteVolumeLow
    } else if code == RMC_SW_5 {
        AlarmCodeDescription::InspiratoryMinuteVolumeHigh
    } else if code == RMC_SW_6 {
        AlarmCodeDescription::ExpiratoryMinuteVolumeLow
    } else if code == RMC_SW_7 {
        AlarmCodeDescription::ExpiratoryMinuteVolumeHigh
    } else if code == RMC_SW_8 {
        AlarmCodeDescription::RespiratoryRateLow
    } else if code == RMC_SW_9 {
        AlarmCodeDescription::RespiratoryRateHigh
    } else if code == RMC_SW_10 {
        AlarmCodeDescription::LeakHigh
    } else if code == RMC_SW_11 {
        AlarmCodeDescription::BatteryLow
    } else if code == RMC_SW_12 {
        AlarmCodeDescription::BatteryVeryLow
    } else if code == RMC_SW_16 {
        AlarmCodeDescription::PowerCableUnplugged
    } else if code == RMC_SW_18 {
        AlarmCodeDescription::PressureTooHigh
    } else if code == RMC_SW_20 {
        AlarmCodeDescription::TidalVolumeLow
    } else if code == RMC_SW_21 {
        AlarmCodeDescription::TidalVolumeHigh
    } else if code == RMC_SW_22 {
        AlarmCodeDescription::PeakPressureHigh
    } else {
        AlarmCodeDescription::Unknown(code)
    }
}

/// Medium-priority counterpart of a high-priority alarm code, if it has one
pub open spec fn adjacent_of(code: u8) -> Option<u8> {
    if code == RMC_SW_12 {
        Some(RMC_SW_11)
    } else if code == RMC_SW_2 {
        Some(RMC_SW_19)
    } else if code == RMC_SW_1 {
        Some(RMC_SW_14)
    } else if code == RMC_SW_3 {
        Some(RMC_SW_15)
    } else {
        None
    }
}

impl AlarmCode {
    /// The wrapped code
    pub closed spec fn spec_code(self) -> u8 {
        self.code
    }

    /// Wrap a raw alarm code
    pub fn from_u8(code: u8) -> (r: AlarmCode)
        ensures
            r.spec_code() == code,
    {
        AlarmCode { code }
    }

    /// Get a textual description of the inner alarm code
    pub fn description(self) -> (r: AlarmCodeDescription)
        ensures
            r == description_of(self.spec_code()),
    {
        let c = self.code;
        if c == RMC_SW_1 || c == RMC_SW_14 {
            AlarmCodeDescription::PlateauPressureNotReached
        } else if c == RMC_SW_2 || c == RMC_SW_19 {
            AlarmCodeDescription::PatientUnplugged
        } else if c == RMC_SW_3 || c == RMC_SW_15 {
            AlarmCodeDescription::PEEPPressureNotReached
        } else if c == RMC_SW_4 {
            AlarmCodeDescription::InspiratoryMinuteVolumeLow
        } else if c == RMC_SW_5 {
            AlarmCodeDescription::InspiratoryMinuteVolumeHigh
        } else if c == RMC_SW_6 {
            AlarmCodeDescription::ExpiratoryMinuteVolumeLow
        } else if c == RMC_SW_7 {
            AlarmCodeDescription::ExpiratoryMinuteVolumeHigh
        } else if c == RMC_SW_8 {
            AlarmCodeDescription::RespiratoryRateLow
        } else if c == RMC_SW_9 {
            AlarmCodeDescription::RespiratoryRateHigh
        } else if c == RMC_SW_10 {
            AlarmCodeDescription::LeakHigh
        } else if c == RMC_SW_11 {
            AlarmCodeDescription::BatteryLow
        } else if c == RMC_SW_12 {
            AlarmCodeDescription::BatteryVeryLow
        } else if c == RMC_SW_16 {
            AlarmCodeDescription::PowerCableUnplugged
        } else if c == RMC_SW_18 {
            AlarmCodeDescription::PressureTooHigh
        } else if c == RMC_SW_20 {
            AlarmCodeDescription::TidalVolumeLow
        } else if c == RMC_SW_21 {
            AlarmCodeDescription::TidalVolumeHigh
        } else if c == RMC_SW_22 {
            AlarmCodeDescription::PeakPressureHigh
        } else {
            AlarmCodeDescription::Unknown(c)
        }
    }

    /// Adjacent (similar) alarm of lower priority, if any: a consumer can drop it when the
    /// higher-priority alarm is shown
    pub fn adjacent(self) -> (r: Option<AlarmCode>)
        ensures
            r matches Some(a) ==> adjacent_of(self.spec_code()) == Some(a.spec_code()),
            r is None ==> adjacent_of(self.spec_code()) is None,
    {
        let c = self.code;
        if c == RMC_SW_12 {
            Some(AlarmCode::from_u8(RMC_SW_11))
        } else if c == RMC_SW_2 {
            Some(AlarmCode::from_u8(RMC_SW_19))
        } else if c == RMC_SW_1 {
            Some(AlarmCode::from_u8(RMC_SW_14))
        } else if c == RMC_SW_3 {
            Some(AlarmCode::from_u8(RMC_SW_15))
        } else {
            None
        }
    }

    /// Unwrap the inner alarm code
    pub fn code(self) -> (r: u8)
        ensures
            r == self.spec_code(),
    {
        self.code
    }
}

impl From<u8> for AlarmCode {
    /// Wrap a raw alarm code
    fn from(code: u8) -> (r: AlarmCode)
        ensures
            r.spec_code() == code,
    {
        AlarmCode { code }
    }
}

impl vstd::std_specs::convert::FromSpecImpl<u8> for AlarmCode {
    open spec fn obeys_from_spec() -> bool {
        true
    }

    closed spec fn from_spec(code: u8) -> AlarmCode {
        AlarmCode { code }
    }
}

/// Each high-priority alarm with a medium-priority counterpart points to it, and the
/// medium-priority alarm points to nothing: battery very low (13) to battery low (21), patient
/// unplugged (11) to 24, plateau pressure not reached (12) to 22, PEEP not reached (14) to 23.
pub proof fn lemma_alarm_adjacency()
    ensures
        adjacent_of(13) == Some(21u8) && adjacent_of(21) is None,
        adjacent_of(11) == Some(24u8) && adjacent_of(24) is None,
        adjacent_of(12) == Some(22u8) && adjacent_of(22) is None,
        adjacent_of(14) == Some(23u8) && adjacent_of(23) is None,
        forall|c: u8| #[trigger] adjacent_of(c) matches Some(d) ==> adjacent_of(d) is None,
{
}

} // verus!
