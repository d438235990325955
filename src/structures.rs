use vstd::prelude::*;

use crate::control::ControlSetting;
use crate::locale::Locale;
use vstd::std_specs::cmp::PartialOrdSpec;

verus! {

/// Variants of the MakAir firmware
#[derive(Debug, Clone, Copy, PartialEq, Eq, Structural)]
pub enum Mode {
    /// Production mode
    Production,
    /// (obsolete) Qualification mode
    Qualification,
    /// (obsolete) Integration test mode
    IntegrationTest,
}

/// Phases of the respiratory cycle
#[derive(Debug, Clone, Copy, PartialEq, Eq, Structural)]
pub enum Phase {
    /// Inhalation
    Inhalation,
    /// Exhalation
    Exhalation,
}

/// Sub-phases of the respiratory cycle (protocol v1 only)
#[derive(Debug, Clone, Copy, PartialEq, Eq, Structural)]
pub enum SubPhase {
    /// Inspiration
    Inspiration,
    /// HoldInspiration
    HoldInspiration,
    /// Exhale
    Exhale,
}

/// Supported alarm priorities, declared from the lowest to the highest
#[derive(Debug, Clone, Copy, PartialEq, Eq, Structural, Ord)]
pub enum AlarmPriority {
    /// Low
    Low,
    /// Medium
    Medium,
    /// High
    High,
}

/// Rank of a priority in the total order of priorities
pub open spec fn priority_rank(p: AlarmPriority) -> int {
    match p {
        AlarmPriority::Low => 1,
        AlarmPriority::Medium => 2,
        AlarmPriority::High => 3,
    }
}

/// Ordering of two integers
pub open spec fn compare_ints(a: int, b: int) -> core::cmp::Ordering {
    if a < b {
        core::cmp::Ordering::Less
    } else if a == b {
        core::cmp::Ordering::Equal
    } else {
        core::cmp::Ordering::Greater
    }
}

impl AlarmPriority {
    /// Rank of the priority: 3 for high, 2 for medium, 1 for low
    pub fn rank(&self) -> (r: u8)
        ensures
            r as int == priority_rank(*self),
    {
        match self {
            AlarmPriority::Low => 1,
            AlarmPriority::Medium => 2,
            AlarmPriority::High => 3,
        }
    }
}

impl PartialOrd for AlarmPriority {
    fn partial_cmp(&self, other: &AlarmPriority) -> (r: Option<core::cmp::Ordering>)
        ensures
            r == Some(compare_ints(priority_rank(*self), priority_rank(*other))),
    {
        let a = self.rank();
        let b = other.rank();
        if a < b {
            Some(core::cmp::Ordering::Less)
        } else if a == b {
            Some(core::cmp::Ordering::Equal)
        } else {
            Some(core::cmp::Ordering::Greater)
        }
    }
}

impl vstd::std_specs::cmp::PartialOrdSpecImpl for AlarmPriority {
    open spec fn obeys_partial_cmp_spec() -> bool {
        true
    }

    open spec fn partial_cmp_spec(&self, other: &AlarmPriority) -> Option<core::cmp::Ordering> {
        Some(compare_ints(priority_rank(*self), priority_rank(*other)))
    }
}

/// Alarm priorities are totally ordered: high above medium above low, and each equal to itself.
pub proof fn lemma_alarm_priority_order(p: AlarmPriority, q: AlarmPriority)
    ensures
        p.partial_cmp_spec(&p) == Some(core::cmp::Ordering::Equal),
        AlarmPriority::High.partial_cmp_spec(&AlarmPriority::Medium) == Some(
            core::cmp::Ordering::Greater,
        ),
        AlarmPriority::Medium.partial_cmp_spec(&AlarmPriority::Low) == Some(
            core::cmp::Ordering::Greater,
        ),
        AlarmPriority::High.partial_cmp_spec(&AlarmPriority::Low) == Some(
            core::cmp::Ordering::Greater,
        ),
        (p.partial_cmp_spec(&q) == Some(core::cmp::Ordering::Less)) <==> (q.partial_cmp_spec(&p)
            == Some(core::cmp::Ordering::Greater)),
        (p.partial_cmp_spec(&q) == Some(core::cmp::Ordering::Equal)) <==> p == q,
{
}

/// Supported ventilation modes
#[allow(non_camel_case_types)]
#[derive(Debug, Clone, Copy, PartialEq, Eq, Structural)]
pub enum VentilationMode {
    /// PC-CMV
    PC_CMV,
    /// PC-AC (default)
    PC_AC,
    /// VC-CMV
    VC_CMV,
    /// PC-VSAI
    PC_VSAI,
    /// VC-AC
    VC_AC,
}

/// Ventilation mode class
#[derive(Debug, Clone, Copy, PartialEq, Eq, Structural)]
pub enum VentilationModeClass {
    /// PC
    Pressure,
    /// VC
    Volume,
}

/// Ventilation mode kind
#[derive(Debug, Clone, Copy, PartialEq, Eq, Structural)]
pub enum VentilationModeKind {
    /// CMV
    Cmv,
    /// AC
    Ac,
    /// VSAI
    Vsai,
}

/// Wire value of a ventilation mode
pub open spec fn ventilation_mode_code(m: VentilationMode) -> u8 {
    match m {
        VentilationMode::PC_CMV => 1,
        VentilationMode::PC_AC => 2,
        VentilationMode::VC_CMV => 3,
        VentilationMode::PC_VSAI => 4,
        VentilationMode::VC_AC => 5,
    }
}

/// Ventilation mode that a wire value stands for, if any
pub open spec fn ventilation_mode_of(b: u8) -> Option<VentilationMode> {
    if b == 1 {
        Some(VentilationMode::PC_CMV)
    } else if b == 2 {
        Some(VentilationMode::PC_AC)
    } else if b == 3 {
        Some(VentilationMode::VC_CMV)
    } else if b == 4 {
        Some(VentilationMode::PC_VSAI)
    } else if b == 5 {
        Some(VentilationMode::VC_AC)
    } else {
        None
    }
}

impl VentilationMode {
    /// Get the class of the ventilation mode
    pub fn class(&self) -> (r: VentilationModeClass)
        ensures
            r == (match *self {
                VentilationMode::PC_CMV | VentilationMode::PC_AC | VentilationMode::PC_VSAI =>
                    VentilationModeClass::Pressure,
                VentilationMode::VC_CMV | VentilationMode::VC_AC => VentilationModeClass::Volume,
            }),
    {
        match self {
            VentilationMode::PC_CMV | VentilationMode::PC_AC | VentilationMode::PC_VSAI =>
                VentilationModeClass::Pressure,
            VentilationMode::VC_CMV | VentilationMode::VC_AC => VentilationModeClass::Volume,
        }
    }

    /// Get the kind of the ventilation mode
    pub fn kind(&self) -> (r: VentilationModeKind)
        ensures
            r == (match *self {
                VentilationMode::PC_CMV | VentilationMode::VC_CMV => VentilationModeKind::Cmv,
                VentilationMode::PC_AC | VentilationMode::VC_AC => VentilationModeKind::Ac,
                VentilationMode::PC_VSAI => VentilationModeKind::Vsai,
            }),
    {
        match self {
            VentilationMode::PC_CMV | VentilationMode::VC_CMV => VentilationModeKind::Cmv,
            VentilationMode::PC_AC | VentilationMode::VC_AC => VentilationModeKind::Ac,
            VentilationMode::PC_VSAI => VentilationModeKind::Vsai,
        }
    }

    /// Wire value of the ventilation mode (1 to 5)
    pub fn as_u8(&self) -> (r: u8)
        ensures
            r == ventilation_mode_code(*self),
    {
        match self {
            VentilationMode::PC_CMV => 1,
            VentilationMode::PC_AC => 2,
            VentilationMode::VC_CMV => 3,
            VentilationMode::PC_VSAI => 4,
            VentilationMode::VC_AC => 5,
        }
    }

    /// Ventilation mode of a wire value; values other than 1 to 5 are rejected
    pub fn try_from_u8(b: u8) -> (r: Option<VentilationMode>)
        ensures
            r == ventilation_mode_of(b),
    {
        if b == 1 {
            Some(VentilationMode::PC_CMV)
        } else if b == 2 {
            Some(VentilationMode::PC_AC)
        } else if b == 3 {
            Some(VentilationMode::VC_CMV)
        } else if b == 4 {
            Some(VentilationMode::PC_VSAI)
        } else if b == 5 {
            Some(VentilationMode::VC_AC)
        } else {
            None
        }
    }
}

impl Default for VentilationMode {
    fn default() -> (r: VentilationMode)
        ensures
            r == VentilationMode::PC_AC,
    {
        VentilationMode::PC_AC
    }
}

/// Patient's gender
#[derive(Debug, Clone, Copy, PartialEq, Eq, Structural)]
pub enum PatientGender {
    /// Male (wire value 0)
    Male,
    /// Female (wire value 1)
    Female,
}

impl Default for PatientGender {
    fn default() -> (r: PatientGender)
        ensures
            r == PatientGender::Male,
    {
        PatientGender::Male
    }
}

/// Details of fatal errors
#[derive(Debug, Clone, Copy, PartialEq, Eq, Structural)]
pub enum FatalErrorDetails {
    /// MCU was restarted by watchdog
    WatchdogRestart,
    /// Calibration failed
    CalibrationError {
        /// Measured pressure offset in mmH2O
        pressure_offset: i16,
        /// Minimum presure measured during calibration in mmH2O
        min_pressure: i16,
        /// Maximum presure measured during calibration in mmH2O
        max_pressure: i16,
        /// Air flow measured at starting in cL/min (SLM * 100)
        flow_at_starting: Option<i16>,
        /// Air flow measured with blower ON in cL/min (SLM * 100)
        flow_with_blower_on: Option<i16>,
    },
    /// Battery is too discharged
    BatteryDeeplyDischarged {
        /// Battery level in centivolts
        battery_level: u16,
    },
    /// Could not read mass flow meter
    MassFlowMeterError,
    /// Read an inconsistent pressure
    InconsistentPressure {
        /// Measured pressure in mmH2O
        pressure: u16,
    },
}

/// Step of the end of line test
#[allow(non_camel_case_types)]
#[derive(Debug, Clone, Copy, PartialEq, Eq, Structural)]
pub enum EolTestStep {
    START,
    SUPPLY_TO_EXPANDER_NOT_CONNECTED,
    CHECK_FAN,
    TEST_BAT_DEAD,
    BATTERY_DEEP_DISCHARGE,
    DISCONNECT_MAINS,
    CONNECT_MAINS,
    CHECK_BUZZER,
    CHECK_ALL_BUTTONS,
    CHECK_UI_SCREEN,
    PLUG_AIR_TEST_SYTEM,
    REACH_MAX_PRESSURE,
    MAX_PRESSURE_REACHED_OK,
    MAX_PRESSURE_NOT_REACHED,
    START_LEAK_MESURE,
    LEAK_IS_TOO_HIGH,
    REACH_NULL_PRESSURE,
    MIN_PRESSURE_NOT_REACHED,
    USER_CONFIRMATION_BEFORE_O2_TEST,
    START_O2_TEST,
    O2_PRESSURE_NOT_REACH,
    WAIT_USER_BEFORE_LONG_RUN,
    START_LONG_RUN_BLOWER,
    PRESSURE_NOT_STABLE,
    FLOW_NOT_STABLE,
    END_SUCCESS,
    DISPLAY_PRESSURE,
    DISPLAY_FLOW,
}

/// End of line test step of a wire value (0 to 27, in the order of declaration)
pub open spec fn eol_step_of(b: u8) -> Option<EolTestStep> {
    if b == 0 {
        Some(EolTestStep::START)
    } else if b == 1 {
        Some(EolTestStep::SUPPLY_TO_EXPANDER_NOT_CONNECTED)
    } else if b == 2 {
        Some(EolTestStep::CHECK_FAN)
    } else if b == 3 {
        Some(EolTestStep::TEST_BAT_DEAD)
    } else if b == 4 {
        Some(EolTestStep::BATTERY_DEEP_DISCHARGE)
    } else if b == 5 {
        Some(EolTestStep::DISCONNECT_MAINS)
    } else if b == 6 {
        Some(EolTestStep::CONNECT_MAINS)
    } else if b == 7 {
        Some(EolTestStep::CHECK_BUZZER)
    } else if b == 8 {
        Some(EolTestStep::CHECK_ALL_BUTTONS)
    } else if b == 9 {
        Some(EolTestStep::CHECK_UI_SCREEN)
    } else if b == 10 {
        Some(EolTestStep::PLUG_AIR_TEST_SYTEM)
    } else if b == 11 {
        Some(EolTestStep::REACH_MAX_PRESSURE)
    } else if b == 12 {
        Some(EolTestStep::MAX_PRESSURE_REACHED_OK)
    } else if b == 13 {
        Some(EolTestStep::MAX_PRESSURE_NOT_REACHED)
    } else if b == 14 {
        Some(EolTestStep::START_LEAK_MESURE)
    } else if b == 15 {
        Some(EolTestStep::LEAK_IS_TOO_HIGH)
    } else if b == 16 {
        Some(EolTestStep::REACH_NULL_PRESSURE)
    } else if b == 17 {
        Some(EolTestStep::MIN_PRESSURE_NOT_REACHED)
    } else if b == 18 {
        Some(EolTestStep::USER_CONFIRMATION_BEFORE_O2_TEST)
    } else if b == 19 {
        Some(EolTestStep::START_O2_TEST)
    } else if b == 20 {
        Some(EolTestStep::O2_PRESSURE_NOT_REACH)
    } else if b == 21 {
        Some(EolTestStep::WAIT_USER_BEFORE_LONG_RUN)
    } else if b == 22 {
        Some(EolTestStep::START_LONG_RUN_BLOWER)
    } else if b == 23 {
        Some(EolTestStep::PRESSURE_NOT_STABLE)
    } else if b == 24 {
        Some(EolTestStep::FLOW_NOT_STABLE)
    } else if b == 25 {
        Some(EolTestStep::END_SUCCESS)
    } else if b == 26 {
        Some(EolTestStep::DISPLAY_PRESSURE)
    } else if b == 27 {
        Some(EolTestStep::DISPLAY_FLOW)
    } else {
        None
    }
}

/// Wire value of an end of line test step
pub open spec fn eol_step_code(s: EolTestStep) -> u8 {
    match s {
        EolTestStep::START => 0,
        EolTestStep::SUPPLY_TO_EXPANDER_NOT_CONNECTED => 1,
        EolTestStep::CHECK_FAN => 2,
        EolTestStep::TEST_BAT_DEAD => 3,
        EolTestStep::BATTERY_DEEP_DISCHARGE => 4,
        EolTestStep::DISCONNECT_MAINS => 5,
        EolTestStep::CONNECT_MAINS => 6,
        EolTestStep::CHECK_BUZZER => 7,
        EolTestStep::CHECK_ALL_BUTTONS => 8,
        EolTestStep::CHECK_UI_SCREEN => 9,
        EolTestStep::PLUG_AIR_TEST_SYTEM => 10,
        EolTestStep::REACH_MAX_PRESSURE => 11,
        EolTestStep::MAX_PRESSURE_REACHED_OK => 12,
        EolTestStep::MAX_PRESSURE_NOT_REACHED => 13,
        EolTestStep::START_LEAK_MESURE => 14,
        EolTestStep::LEAK_IS_TOO_HIGH => 15,
        EolTestStep::REACH_NULL_PRESSURE => 16,
        EolTestStep::MIN_PRESSURE_NOT_REACHED => 17,
        EolTestStep::USER_CONFIRMATION_BEFORE_O2_TEST => 18,
        EolTestStep::START_O2_TEST => 19,
        EolTestStep::O2_PRESSURE_NOT_REACH => 20,
        EolTestStep::WAIT_USER_BEFORE_LONG_RUN => 21,
        EolTestStep::START_LONG_RUN_BLOWER => 22,
        EolTestStep::PRESSURE_NOT_STABLE => 23,
        EolTestStep::FLOW_NOT_STABLE => 24,
        EolTestStep::END_SUCCESS => 25,
        EolTestStep::DISPLAY_PRESSURE => 26,
        EolTestStep::DISPLAY_FLOW => 27,
    }
}

impl EolTestStep {
    /// Step of a wire value; values above 27 are rejected
    pub fn try_from_u8(value: u8) -> (r: Option<EolTestStep>)
        ensures
            r == eol_step_of(value),
    {
        if value == 0 {
            Some(EolTestStep::START)
        } else if value == 1 {
            Some(EolTestStep::SUPPLY_TO_EXPANDER_NOT_CONNECTED)
        } else if value == 2 {
            Some(EolTestStep::CHECK_FAN)
        } else if value == 3 {
            Some(EolTestStep::TEST_BAT_DEAD)
        } else if value == 4 {
            Some(EolTestStep::BATTERY_DEEP_DISCHARGE)
        } else if value == 5 {
            Some(EolTestStep::DISCONNECT_MAINS)
        } else if value == 6 {
            Some(EolTestStep::CONNECT_MAINS)
        } else if value == 7 {
            Some(EolTestStep::CHECK_BUZZER)
        } else if value == 8 {
            Some(EolTestStep::CHECK_ALL_BUTTONS)
        } else if value == 9 {
            Some(EolTestStep::CHECK_UI_SCREEN)
        } else if value == 10 {
            Some(EolTestStep::PLUG_AIR_TEST_SYTEM)
        } else if value == 11 {
            Some(EolTestStep::REACH_MAX_PRESSURE)
        } else if value == 12 {
            Some(EolTestStep::MAX_PRESSURE_REACHED_OK)
        } else if value == 13 {
            Some(EolTestStep::MAX_PRESSURE_NOT_REACHED)
        } else if value == 14 {
            Some(EolTestStep::START_LEAK_MESURE)
        } else if value == 15 {
            Some(EolTestStep::LEAK_IS_TOO_HIGH)
        } else if value == 16 {
            Some(EolTestStep::REACH_NULL_PRESSURE)
        } else if value == 17 {
            Some(EolTestStep::MIN_PRESSURE_NOT_REACHED)
        } else if value == 18 {
            Some(EolTestStep::USER_CONFIRMATION_BEFORE_O2_TEST)
        } else if value == 19 {
            Some(EolTestStep::START_O2_TEST)
        } else if value == 20 {
            Some(EolTestStep::O2_PRESSURE_NOT_REACH)
        } else if value == 21 {
            Some(EolTestStep::WAIT_USER_BEFORE_LONG_RUN)
        } else if value == 22 {
            Some(EolTestStep::START_LONG_RUN_BLOWER)
        } else if value == 23 {
            Some(EolTestStep::PRESSURE_NOT_STABLE)
        } else if value == 24 {
            Some(EolTestStep::FLOW_NOT_STABLE)
        } else if value == 25 {
            Some(EolTestStep::END_SUCCESS)
        } else if value == 26 {
            Some(EolTestStep::DISPLAY_PRESSURE)
        } else if value == 27 {
            Some(EolTestStep::DISPLAY_FLOW)
        } else {
            None
        }
    }

    /// Wire value of the step
    pub fn as_u8(&self) -> (r: u8)
        ensures
            r == eol_step_code(*self),
    {
        match self {
            EolTestStep::START => 0,
            EolTestStep::SUPPLY_TO_EXPANDER_NOT_CONNECTED => 1,
            EolTestStep::CHECK_FAN => 2,
            EolTestStep::TEST_BAT_DEAD => 3,
            EolTestStep::BATTERY_DEEP_DISCHARGE => 4,
            EolTestStep::DISCONNECT_MAINS => 5,
            EolTestStep::CONNECT_MAINS => 6,
            EolTestStep::CHECK_BUZZER => 7,
            EolTestStep::CHECK_ALL_BUTTONS => 8,
            EolTestStep::CHECK_UI_SCREEN => 9,
            EolTestStep::PLUG_AIR_TEST_SYTEM => 10,
            EolTestStep::REACH_MAX_PRESSURE => 11,
            EolTestStep::MAX_PRESSURE_REACHED_OK => 12,
            EolTestStep::MAX_PRESSURE_NOT_REACHED => 13,
            EolTestStep::START_LEAK_MESURE => 14,
            EolTestStep::LEAK_IS_TOO_HIGH => 15,
            EolTestStep::REACH_NULL_PRESSURE => 16,
            EolTestStep::MIN_PRESSURE_NOT_REACHED => 17,
            EolTestStep::USER_CONFIRMATION_BEFORE_O2_TEST => 18,
            EolTestStep::START_O2_TEST => 19,
            EolTestStep::O2_PRESSURE_NOT_REACH => 20,
            EolTestStep::WAIT_USER_BEFORE_LONG_RUN => 21,
            EolTestStep::START_LONG_RUN_BLOWER => 22,
            EolTestStep::PRESSURE_NOT_STABLE => 23,
            EolTestStep::FLOW_NOT_STABLE => 24,
            EolTestStep::END_SUCCESS => 25,
            EolTestStep::DISPLAY_PRESSURE => 26,
            EolTestStep::DISPLAY_FLOW => 27,
        }
    }
}


/// Content of end of line test snapshots
#[derive(Debug, Clone, PartialEq, Eq)]
pub enum EolTestSnapshotContent {
    /// Test is in progress
    InProgress(String),
    /// There was an error during test
    Error(String),
    /// End of line test succeeded
    Success(String),
}

/// A telemetry message that is sent once every time the MCU boots
#[derive(Debug, Clone, PartialEq, Eq)]
pub struct BootMessage {
    /// Version of the telemetry protocol
    pub telemetry_version: u8,
    /// Version of the MCU firmware
    pub version: String,
    /// Internal ID of the MCU
    pub device_id: String,
    /// Number of microseconds since the MCU booted
    pub systick: u64,
    /// Firmware variant currently flashed
    pub mode: Mode,
    /// The number "128", used to detect a badly configured serial port
    pub value128: u8,
}

/// A telemetry message that is sent every 100 ms when the MCU is in "stop" mode
#[derive(Debug, Clone, PartialEq, Eq)]
pub struct StoppedMessage {
    /// Version of the telemetry protocol
    pub telemetry_version: u8,
    /// Version of the MCU firmware
    pub version: String,
    /// Internal ID of the MCU
    pub device_id: String,
    /// Number of microseconds since the MCU booted
    pub systick: u64,
    /// [protocol v2] Requested peak command in cmH2O
    pub peak_command: Option<u8>,
    /// [protocol v2] Requested plateau command in cmH2O
    pub plateau_command: Option<u8>,
    /// [protocol v2] Requested PEEP command in cmH2O
    pub peep_command: Option<u8>,
    /// [protocol v2] Requested number of cycles per minute
    pub cpm_command: Option<u8>,
    /// [protocol v2] Expiration term in the "Inspiration/Expiration" ratio given that Inspiration = 10
    pub expiratory_term: Option<u8>,
    /// [protocol v2] State of the trigger
    pub trigger_enabled: Option<bool>,
    /// [protocol v2] Trigger offset in mmH2O
    pub trigger_offset: Option<u8>,
    /// [protocol v2] State of the alarm snooze
    pub alarm_snoozed: Option<bool>,
    /// [protocol v2] CPU load in percent
    pub cpu_load: Option<u8>,
    /// Ventilation mode
    pub ventilation_mode: VentilationMode,
    /// [protocol v2] Inspiratory trigger flow in percent
    pub inspiratory_trigger_flow: Option<u8>,
    /// [protocol v2] Expiratory trigger flow in percent
    pub expiratory_trigger_flow: Option<u8>,
    /// [protocol v2] Minimum duration of inhalation in ms
    pub ti_min: Option<u16>,
    /// [protocol v2] Maximum duration of inhalation in ms
    pub ti_max: Option<u16>,
    /// [protocol v2] Threshold for low inspiratory minute volume alarm in L/min
    pub low_inspiratory_minute_volume_alarm_threshold: Option<u8>,
    /// [protocol v2] Threshold for high inspiratory minute volume alarm in L/min
    pub high_inspiratory_minute_volume_alarm_threshold: Option<u8>,
    /// [protocol v2] Threshold for low expiratory minute volume alarm in L/min
    pub low_expiratory_minute_volume_alarm_threshold: Option<u8>,
    /// [protocol v2] Threshold for high expiratory minute volume alarm in L/min
    pub high_expiratory_minute_volume_alarm_threshold: Option<u8>,
    /// [protocol v2] Threshold for low respiratory rate alarm in cycle per minute
    pub low_respiratory_rate_alarm_threshold: Option<u8>,
    /// [protocol v2] Threshold for high respiratory rate alarm in cycle per minute
    pub high_respiratory_rate_alarm_threshold: Option<u8>,
    /// [protocol v2] Target tidal volume in mL
    pub target_tidal_volume: Option<u16>,
    /// [protocol v2] Threshold for low tidal volume in mL
    pub low_tidal_volume_alarm_threshold: Option<u16>,
    /// [protocol v2] Threshold for high tidal volume in mL
    pub high_tidal_volume_alarm_threshold: Option<u16>,
    /// [protocol v2] Duration in ms of closing both valves to measure plateau pressure in volume control modes
    pub plateau_duration: Option<u16>,
    /// [protocol v2] Threshold for leak alarm in cL/min
    pub leak_alarm_threshold: Option<u16>,
    /// [protocol v2] Target flow during inspiration in L/min
    pub target_inspiratory_flow: Option<u8>,
    /// [protocol v2] Requested duration of inspiration in ms
    pub inspiratory_duration_command: Option<u16>,
    /// [protocol v2] Measured battery level value in centivolts (precise value)
    pub battery_level: Option<u16>,
    /// [protocol v2] Codes of the alarms that are currently triggered
    pub current_alarm_codes: Option<Vec<u8>>,
    /// [protocol v2] Language of the system
    pub locale: Option<Locale>,
    /// [protocol v2] Patient's height in centimeters
    pub patient_height: Option<u8>,
    /// [protocol v2] Patient's gender
    pub patient_gender: Option<PatientGender>,
    /// [protocol v2] Threshold for peak pressure alarm in mmH2O
    pub peak_pressure_alarm_threshold: Option<u16>,
}

/// A telemetry message that is sent every time the firmware does a control iteration (every 10 ms)
#[derive(Debug, Clone, PartialEq, Eq)]
pub struct DataSnapshot {
    /// Version of the telemetry protocol
    pub telemetry_version: u8,
    /// Version of the MCU firmware
    pub version: String,
    /// Internal ID of the MCU
    pub device_id: String,
    /// Number of microseconds since the MCU booted
    pub systick: u64,
    /// Number of hundredth of seconds since the begining of the current breathing cycle
    pub centile: u16,
    /// Current pressure in mmH2O (can be negative; a protocol v1 value above i16::MAX reads as i16::MAX)
    pub pressure: i16,
    /// Current phase
    pub phase: Phase,
    /// [protocol v1 only] Current sub-phase
    pub subphase: Option<SubPhase>,
    /// Current angle of the blower valve
    pub blower_valve_position: u8,
    /// Current angle of the patient valve
    pub patient_valve_position: u8,
    /// Current blower speed (no unit)
    pub blower_rpm: u8,
    /// Current battery level in volts (imprecise value)
    pub battery_level: u8,
    /// [protocol v2] Inspiratory flow in cL/min (SLM * 100)
    pub inspiratory_flow: Option<i16>,
    /// [protocol v2] Expiratory flow in cL/min (SLM * 100)
    pub expiratory_flow: Option<i16>,
}

/// A telemetry message that is sent at the end of every respiratory cycle
#[derive(Debug, Clone, PartialEq, Eq)]
pub struct MachineStateSnapshot {
    /// Version of the telemetry protocol
    pub telemetry_version: u8,
    /// Version of the MCU firmware
    pub version: String,
    /// Internal ID of the MCU
    pub device_id: String,
    /// Number of microseconds since the MCU booted
    pub systick: u64,
    /// Number of the current breathing cycle since MCU booted
    pub cycle: u32,
    /// Requested peak command in cmH2O
    pub peak_command: u8,
    /// Requested plateau command in cmH2O
    pub plateau_command: u8,
    /// Requested PEEP command in cmH2O
    pub peep_command: u8,
    /// Requested number of cycles per minute
    pub cpm_command: u8,
    /// Measured peak pressure in mmH2O
    pub previous_peak_pressure: u16,
    /// Measured pleateau pressure in mmH2O
    pub previous_plateau_pressure: u16,
    /// Measured PEEP in mmH2O
    pub previous_peep_pressure: u16,
    /// Codes of the alarms that are currently triggered
    pub current_alarm_codes: Vec<u8>,
    /// Measured volume in mL (absent when the sensor is not enabled; 0xFFFF on the wire)
    pub previous_volume: Option<u16>,
    /// Expiration term in the "Inspiration/Expiration" ratio given that Inspiration = 10
    pub expiratory_term: u8,
    /// State of the trigger
    pub trigger_enabled: bool,
    /// Trigger offset in mmH2O
    pub trigger_offset: u8,
    /// [protocol v2] Measured number of cycles per minute
    pub previous_cpm: Option<u8>,
    /// [protocol v2] State of the alarm snooze
    pub alarm_snoozed: Option<bool>,
    /// [protocol v2] CPU load in percent
    pub cpu_load: Option<u8>,
    /// Ventilation mode
    pub ventilation_mode: VentilationMode,
    /// [protocol v2] Inspiratory trigger flow in percent
    pub inspiratory_trigger_flow: Option<u8>,
    /// [protocol v2] Expiratory trigger flow in percent
    pub expiratory_trigger_flow: Option<u8>,
    /// [protocol v2] Minimum duration of inhalation in ms
    pub ti_min: Option<u16>,
    /// [protocol v2] Maximum duration of inhalation in ms
    pub ti_max: Option<u16>,
    /// [protocol v2] Threshold for low inspiratory minute volume alarm in L/min
    pub low_inspiratory_minute_volume_alarm_threshold: Option<u8>,
    /// [protocol v2] Threshold for high inspiratory minute volume alarm in L/min
    pub high_inspiratory_minute_volume_alarm_threshold: Option<u8>,
    /// [protocol v2] Threshold for low expiratory minute volume alarm in L/min
    pub low_expiratory_minute_volume_alarm_threshold: Option<u8>,
    /// [protocol v2] Threshold for high expiratory minute volume alarm in L/min
    pub high_expiratory_minute_volume_alarm_threshold: Option<u8>,
    /// [protocol v2] Threshold for low respiratory rate alarm in cycle per minute
    pub low_respiratory_rate_alarm_threshold: Option<u8>,
    /// [protocol v2] Threshold for high respiratory rate alarm in cycle per minute
    pub high_respiratory_rate_alarm_threshold: Option<u8>,
    /// [protocol v2] Target tidal volume in mL
    pub target_tidal_volume: Option<u16>,
    /// [protocol v2] Threshold for low tidal volume in mL
    pub low_tidal_volume_alarm_threshold: Option<u16>,
    /// [protocol v2] Threshold for high tidal volume in mL
    pub high_tidal_volume_alarm_threshold: Option<u16>,
    /// [protocol v2] Duration in ms of closing both valves to measure plateau pressure in volume control modes
    pub plateau_duration: Option<u16>,
    /// [protocol v2] Threshold for leak alarm in cL/min
    pub leak_alarm_threshold: Option<u16>,
    /// [protocol v2] Target flow during inspiration in L/min
    pub target_inspiratory_flow: Option<u8>,
    /// [protocol v2] Requested duration of inspiration in ms
    pub inspiratory_duration_command: Option<u16>,
    /// [protocol v2] Measured duration of inspiration in ms
    pub previous_inspiratory_duration: Option<u16>,
    /// [protocol v2] Measured battery level value in centivolts (precise value)
    pub battery_level: Option<u16>,
    /// [protocol v2] Language of the system
    pub locale: Option<Locale>,
    /// [protocol v2] Patient's height in centimeters
    pub patient_height: Option<u8>,
    /// [protocol v2] Patient's gender
    pub patient_gender: Option<PatientGender>,
    /// [protocol v2] Threshold for peak pressure alarm in mmH2O
    pub peak_pressure_alarm_threshold: Option<u16>,
}

/// A telemetry message that is sent every time an alarm is triggered or stopped
#[derive(Debug, Clone, PartialEq, Eq)]
pub struct AlarmTrap {
    /// Version of the telemetry protocol
    pub telemetry_version: u8,
    /// Version of the MCU firmware
    pub version: String,
    /// Internal ID of the MCU
    pub device_id: String,
    /// Number of microseconds since the MCU booted
    pub systick: u64,
    /// Number of hundredth of seconds since the begining of the current breathing cycle
    pub centile: u16,
    /// Current pressure in mmH2O (can be negative; a protocol v1 value above i16::MAX reads as i16::MAX)
    pub pressure: i16,
    /// Current phase
    pub phase: Phase,
    /// [protocol v1 only] Current sub-phase
    pub subphase: Option<SubPhase>,
    /// Number of the current breathing cycle since MCU booted
    pub cycle: u32,
    /// Code of the alarm
    pub alarm_code: u8,
    /// Priority level of the alarm
    pub alarm_priority: AlarmPriority,
    /// `true` if alarm was triggered, `false` if it was stopped
    pub triggered: bool,
    /// Expected value (unit depends on the alarm)
    pub expected: u32,
    /// Measured value (unit depends on the alarm)
    pub measured: u32,
    /// Number of cycle for which this alarm has been triggered
    pub cycles_since_trigger: u32,
}

/// An ACK message that is sent every time a setting is changed on the MCU side
#[derive(Debug, Clone, PartialEq, Eq)]
pub struct ControlAck {
    /// Version of the telemetry protocol
    pub telemetry_version: u8,
    /// Version of the MCU firmware
    pub version: String,
    /// Internal ID of the MCU
    pub device_id: String,
    /// Number of microseconds since the MCU booted
    pub systick: u64,
    /// Setting that was changed
    pub setting: ControlSetting,
    /// New value
    pub value: u16,
}

/// [protocol v2] A message sent when a fatal error occurs
#[derive(Debug, Clone, PartialEq, Eq)]
pub struct FatalError {
    /// Version of the telemetry protocol
    pub telemetry_version: u8,
    /// Version of the MCU firmware
    pub version: String,
    /// Internal ID of the MCU
    pub device_id: String,
    /// Number of microseconds since the MCU booted
    pub systick: u64,
    /// Details of the error
    pub error: FatalErrorDetails,
}

/// [protocol v2] A message sent during end of line tests
#[derive(Debug, Clone, PartialEq, Eq)]
pub struct EolTestSnapshot {
    /// Version of the telemetry protocol
    pub telemetry_version: u8,
    /// Version of the MCU firmware
    pub version: String,
    /// Internal ID of the MCU
    pub device_id: String,
    /// Number of microseconds since the MCU booted
    pub systick: u64,
    /// Current step
    pub current_step: EolTestStep,
    /// Content of the snapshot
    pub content: EolTestSnapshotContent,
}

/// Supported telemetry messages
#[derive(Debug, Clone, PartialEq, Eq)]
pub enum TelemetryMessage {
    /// A telemetry message that is sent once every time the MCU boots
    BootMessage(BootMessage),
    /// A telemetry message that is sent every 100 ms when the MCU is in "stop" mode
    StoppedMessage(StoppedMessage),
    /// A telemetry message that is sent every time the firmware does a control iteration (every 10 ms)
    DataSnapshot(DataSnapshot),
    /// A telemetry message that is sent at the end of every respiratory cycle
    MachineStateSnapshot(MachineStateSnapshot),
    /// A telemetry message that is sent every time an alarm is triggered or stopped
    AlarmTrap(AlarmTrap),
    /// An ACK message that is sent every time a setting is changed using the control protocol
    ControlAck(ControlAck),
    /// [protocol v2] A message sent when a fatal error occurs
    FatalError(FatalError),
    /// [protocol v2] A message sent during end of line tests
    EolTestSnapshot(EolTestSnapshot),
}

/// Common envelope of a telemetry message: protocol version, firmware version, device ID, systick
pub open spec fn envelope_of(m: TelemetryMessage) -> (u8, Seq<char>, Seq<char>, u64) {
    match m {
        TelemetryMessage::BootMessage(x) => (x.telemetry_version, x.version@, x.device_id@, x.systick),
        TelemetryMessage::StoppedMessage(x) => (x.telemetry_version, x.version@, x.device_id@, x.systick),
        TelemetryMessage::DataSnapshot(x) => (x.telemetry_version, x.version@, x.device_id@, x.systick),
        TelemetryMessage::MachineStateSnapshot(x) => (
            x.telemetry_version,
            x.version@,
            x.device_id@,
            x.systick,
        ),
        TelemetryMessage::AlarmTrap(x) => (x.telemetry_version, x.version@, x.device_id@, x.systick),
        TelemetryMessage::ControlAck(x) => (x.telemetry_version, x.version@, x.device_id@, x.systick),
        TelemetryMessage::FatalError(x) => (x.telemetry_version, x.version@, x.device_id@, x.systick),
        TelemetryMessage::EolTestSnapshot(x) => (
            x.telemetry_version,
            x.version@,
            x.device_id@,
            x.systick,
        ),
    }
}

impl TelemetryMessage {
    /// Version of the telemetry protocol
    pub fn telemetry_version(&self) -> (r: u8)
        ensures
            r == envelope_of(*self).0,
    {
        match self {
            TelemetryMessage::BootMessage(x) => x.telemetry_version,
            TelemetryMessage::StoppedMessage(x) => x.telemetry_version,
            TelemetryMessage::DataSnapshot(x) => x.telemetry_version,
            TelemetryMessage::MachineStateSnapshot(x) => x.telemetry_version,
            TelemetryMessage::AlarmTrap(x) => x.telemetry_version,
            TelemetryMessage::ControlAck(x) => x.telemetry_version,
            TelemetryMessage::FatalError(x) => x.telemetry_version,
            TelemetryMessage::EolTestSnapshot(x) => x.telemetry_version,
        }
    }

    /// Version of the MCU firmware
    pub fn version(&self) -> (r: String)
        ensures
            r@ == envelope_of(*self).1,
    {
        let s = match self {
            TelemetryMessage::BootMessage(x) => x.version.as_str(),
            TelemetryMessage::StoppedMessage(x) => x.version.as_str(),
            TelemetryMessage::DataSnapshot(x) => x.version.as_str(),
            TelemetryMessage::MachineStateSnapshot(x) => x.version.as_str(),
            TelemetryMessage::AlarmTrap(x) => x.version.as_str(),
            TelemetryMessage::ControlAck(x) => x.version.as_str(),
            TelemetryMessage::FatalError(x) => x.version.as_str(),
            TelemetryMessage::EolTestSnapshot(x) => x.version.as_str(),
        };
        s.to_owned()
    }

    /// Internal ID of the MCU
    pub fn device_id(&self) -> (r: String)
        ensures
            r@ == envelope_of(*self).2,
    {
        let s = match self {
            TelemetryMessage::BootMessage(x) => x.device_id.as_str(),
            TelemetryMessage::StoppedMessage(x) => x.device_id.as_str(),
            TelemetryMessage::DataSnapshot(x) => x.device_id.as_str(),
            TelemetryMessage::MachineStateSnapshot(x) => x.device_id.as_str(),
            TelemetryMessage::AlarmTrap(x) => x.device_id.as_str(),
            TelemetryMessage::ControlAck(x) => x.device_id.as_str(),
            TelemetryMessage::FatalError(x) => x.device_id.as_str(),
            TelemetryMessage::EolTestSnapshot(x) => x.device_id.as_str(),
        };
        s.to_owned()
    }

    /// Number of microseconds since the MCU booted
    pub fn systick(&self) -> (r: u64)
        ensures
            r == envelope_of(*self).3,
    {
        match self {
            TelemetryMessage::BootMessage(x) => x.systick,
            TelemetryMessage::StoppedMessage(x) => x.systick,
            TelemetryMessage::DataSnapshot(x) => x.systick,
            TelemetryMessage::MachineStateSnapshot(x) => x.systick,
            TelemetryMessage::AlarmTrap(x) => x.systick,
            TelemetryMessage::ControlAck(x) => x.systick,
            TelemetryMessage::FatalError(x) => x.systick,
            TelemetryMessage::EolTestSnapshot(x) => x.systick,
        }
    }
}

/// Kinds of errors that the telemetry parser reports
#[derive(Debug, Clone, Copy, PartialEq, Eq, Structural)]
pub enum TelemetryErrorKind {
    /// The bytes do not follow the grammar of any telemetry message
    ParserError,
    /// CRC error
    CrcError {
        /// Expected CRC (included in the message)
        expected: u32,
        /// Computed CRC (from the actual message)
        computed: u32,
    },
    /// Unsupported protocol (message header contains an unsupported protocol version)
    UnsupportedProtocolVersion {
        /// Maximum supported version of the telemetry protocol
        maximum_supported: u8,
        /// Found version of the telemetry protocol
        found: u8,
    },
}

/// A parser error: the number of bytes to skip to resynchronize, and the kind of error
#[derive(Debug, Clone, Copy, PartialEq, Eq, Structural)]
pub struct TelemetryError(pub usize, pub TelemetryErrorKind);

/// Outcome of a streaming parser
#[derive(Debug, Clone, PartialEq, Eq)]
pub enum ParseResult<T> {
    /// A value was parsed from the given number of leading bytes
    Done(T, usize),
    /// The input ends before the value does: more bytes are needed
    Incomplete,
    /// The input was rejected
    Failed(TelemetryError),
}

/// Errors that need to be reported to the UI
#[derive(Debug, Clone, Copy, PartialEq, Eq, Structural)]
pub enum HighLevelError {
    /// CRC error
    CrcError {
        /// Expected CRC (included in the message)
        expected: u32,
        /// Computed CRC (from the actual message)
        computed: u32,
    },
    /// Unsupported protocol (message header contains an unsupported protocol version)
    UnsupportedProtocolVersion {
        /// Maximum supported version of the telemetry protocol
        maximum_supported: u8,
        /// Found version of the telemetry protocol
        found: u8,
    },
}

/// A telemetry message or a high-level error
#[derive(Debug, Clone, PartialEq, Eq)]
pub enum TelemetryMessageOrError {
    /// A telemetry message
    Message(TelemetryMessage),
    /// A high-level error
    Error(HighLevelError),
}

impl From<TelemetryMessage> for TelemetryMessageOrError {
    fn from(message: TelemetryMessage) -> (r: TelemetryMessageOrError)
        ensures
            r == TelemetryMessageOrError::Message(message),
    {
        TelemetryMessageOrError::Message(message)
    }
}

impl vstd::std_specs::convert::FromSpecImpl<TelemetryMessage> for TelemetryMessageOrError {
    open spec fn obeys_from_spec() -> bool {
        true
    }

    open spec fn from_spec(message: TelemetryMessage) -> TelemetryMessageOrError {
        TelemetryMessageOrError::Message(message)
    }
}

impl TelemetryMessageOrError {
    /// Wrap a telemetry message
    pub fn from_message(message: TelemetryMessage) -> (r: TelemetryMessageOrError)
        ensures
            r == TelemetryMessageOrError::Message(message),
    {
        TelemetryMessageOrError::Message(message)
    }
}

} // verus!
