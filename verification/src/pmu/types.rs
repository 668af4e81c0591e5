//! Public data types for the AXP2101 PMU driver.
//!
//! Status snapshots, configuration structs, and enums for charger, input
//! limits, power key timing, and other PMU subsystems. Each register
//! layout is a pair of spec functions: `code`, the register value of a
//! configuration, and `decoded`, what a register value stands for.

use vstd::prelude::*;

verus! {

/// The bit of weight `weight` is set.
pub open spec fn bit(v: u8, weight: int) -> bool {
    v as int / weight % 2 == 1
}

/// The weight of a flag that is on, nothing for one that is off.
pub open spec fn flag(on: bool, weight: int) -> int {
    if on { weight } else { 0 }
}

fn has(v: u8, weight: u8) -> (r: bool)
    requires
        weight > 0,
    ensures
        r == bit(v, weight as int),
{
    (v / weight) % 2 == 1
}

fn flagged(on: bool, weight: u8) -> (r: u8)
    ensures
        r == flag(on, weight as int),
{
    if on { weight } else { 0 }
}

// ---- Status registers (REG 00h-01h) ----------------------------------------

/// Snapshot of PMU Status 1 (REG 00h) - power-path and battery state.
///
/// Bit layout (AXP2101 datasheet):
///   7:6  unused
///   5    VBUS good (present and above threshold)
///   4    BATFET state (on/off)
///   3    Battery present (detected by charger)
///   2    Battery in active mode
///   1    Thermal regulation active
///   0    Input current limit active
#[derive(Debug, Clone, Copy, PartialEq, Eq, Structural, Default)]
pub struct PmuStatus1 {
    /// VBUS is present and above the VBUS good threshold (bit 5).
    pub vbus_good: bool,
    /// BATFET is on (bit 4).
    pub batfet_active: bool,
    /// Battery is present (detected by the charger) (bit 3).
    pub battery_present: bool,
    /// Battery is in active mode (bit 2).
    pub battery_active: bool,
    /// Thermal regulation is active (die at limit) (bit 1).
    pub thermal_active: bool,
    /// Input current limit is active (bit 0).
    pub current_limit_active: bool,
}

impl PmuStatus1 {
    /// What a register value stands for.
    pub open spec fn decoded(r: u8) -> PmuStatus1 {
        PmuStatus1 {
            vbus_good: bit(r, 32),
            batfet_active: bit(r, 16),
            battery_present: bit(r, 8),
            battery_active: bit(r, 4),
            thermal_active: bit(r, 2),
            current_limit_active: bit(r, 1),
        }
    }

    /// What a register value stands for.
    pub fn from_bits(r: u8) -> (s: PmuStatus1)
        ensures
            s == PmuStatus1::decoded(r),
    {
        PmuStatus1 {
            vbus_good: has(r, 32),
            batfet_active: has(r, 16),
            battery_present: has(r, 8),
            battery_active: has(r, 4),
            thermal_active: has(r, 2),
            current_limit_active: has(r, 1),
        }
    }
}

/// Snapshot of PMU Status 2 (REG 01h) - charging state and system status.
///
/// Bit layout (from AXP2101 datasheet):
///   7      reserved (RO, 0)
///   6:5    Battery current direction
///            00=standby, 01=charge, 10=discharge, 11=reserved
///   4      System status: 0=power off, 1=power on
///   3      VINDPM status: 0=not in VINDPM, 1=VINDPM active
///   2:0    Charging status
///            000=tri_charge, 001=pre_charge, 010=CC, 011=CV,
///            100=charge done, 101=not charging, 11X=reserved
#[derive(Debug, Clone, Copy, PartialEq, Eq, Structural, Default)]
pub struct PmuStatus2 {
    /// Battery current direction from bits 6:5.
    pub current_direction: CurrentDirection,
    /// System is powered on (bit 4).
    pub system_on: bool,
    /// VINDPM regulation is active (bit 3).
    pub vindpm_active: bool,
    /// Detailed charger phase from bits 2:0.
    pub charger_phase: ChargerPhase,
}

impl PmuStatus2 {
    /// What a register value stands for.
    pub open spec fn decoded(r: u8) -> PmuStatus2 {
        PmuStatus2 {
            current_direction: CurrentDirection::decoded(r as int / 32 % 4),
            system_on: bit(r, 16),
            vindpm_active: bit(r, 8),
            charger_phase: ChargerPhase::decoded(r as int % 8),
        }
    }

    /// What a register value stands for.
    pub fn from_bits(r: u8) -> (s: PmuStatus2)
        ensures
            s == PmuStatus2::decoded(r),
    {
        PmuStatus2 {
            current_direction: CurrentDirection::from_bits((r / 32) % 4),
            system_on: has(r, 16),
            vindpm_active: has(r, 8),
            charger_phase: ChargerPhase::from_bits(r % 8),
        }
    }
}

/// Battery current direction, from REG 01h bits 6:5.
#[derive(Debug, Clone, Copy, PartialEq, Eq, Structural, Default)]
pub enum CurrentDirection {
    /// No current flow (standby).
    #[default]
    Standby,
    /// Battery is being charged.
    Charging,
    /// Battery is discharging.
    Discharging,
}

impl CurrentDirection {
    /// The value of the register field.
    pub open spec fn code(self) -> u8 {
        match self {
            CurrentDirection::Standby => 0,
            CurrentDirection::Charging => 1,
            CurrentDirection::Discharging => 2,
        }
    }

    /// What a value of the register field stands for.
    pub open spec fn decoded(field: int) -> CurrentDirection {
        if field == 1 {
            CurrentDirection::Charging
        } else if field == 2 {
            CurrentDirection::Discharging
        } else {
            CurrentDirection::Standby
        }
    }

    /// The value of the register field.
    pub fn bits(self) -> (r: u8)
        ensures
            r == self.code(),
    {
        match self {
            CurrentDirection::Standby => 0,
            CurrentDirection::Charging => 1,
            CurrentDirection::Discharging => 2,
        }
    }

    /// What a value of the register field stands for.
    pub fn from_bits(bits: u8) -> (r: CurrentDirection)
        ensures
            r == CurrentDirection::decoded(bits as int),
    {
        match bits {
            1 => CurrentDirection::Charging,
            2 => CurrentDirection::Discharging,
            _ => CurrentDirection::Standby,
        }
    }

    /// Every setting is told from its field value.
    pub proof fn round_trip(self)
        ensures
            CurrentDirection::decoded(self.code() as int) == self,
    {
    }
}

/// Detailed charger phase, from REG 01h bits 2:0.
#[derive(Debug, Clone, Copy, PartialEq, Eq, Structural, Default)]
pub enum ChargerPhase {
    /// Tri-charge (pre-charge below threshold).
    TriCharge,
    /// Pre-charge phase.
    PreCharge,
    /// Constant-current (CC) phase.
    ConstantCurrent,
    /// Constant-voltage (CV) phase.
    ConstantVoltage,
    /// Charge done.
    Done,
    /// Not charging.
    #[default]
    NotCharging,
}

impl ChargerPhase {
    /// The value of the register field.
    pub open spec fn code(self) -> u8 {
        match self {
            ChargerPhase::TriCharge => 0,
            ChargerPhase::PreCharge => 1,
            ChargerPhase::ConstantCurrent => 2,
            ChargerPhase::ConstantVoltage => 3,
            ChargerPhase::Done => 4,
            ChargerPhase::NotCharging => 5,
        }
    }

    /// What a value of the register field stands for.
    pub open spec fn decoded(field: int) -> ChargerPhase {
        if field == 0 {
            ChargerPhase::TriCharge
        } else if field == 1 {
            ChargerPhase::PreCharge
        } else if field == 2 {
            ChargerPhase::ConstantCurrent
        } else if field == 3 {
            ChargerPhase::ConstantVoltage
        } else if field == 4 {
            ChargerPhase::Done
        } else {
            ChargerPhase::NotCharging
        }
    }

    /// The value of the register field.
    pub fn bits(self) -> (r: u8)
        ensures
            r == self.code(),
    {
        match self {
            ChargerPhase::TriCharge => 0,
            ChargerPhase::PreCharge => 1,
            ChargerPhase::ConstantCurrent => 2,
            ChargerPhase::ConstantVoltage => 3,
            ChargerPhase::Done => 4,
            ChargerPhase::NotCharging => 5,
        }
    }

    /// What a value of the register field stands for.
    pub fn from_bits(bits: u8) -> (r: ChargerPhase)
        ensures
            r == ChargerPhase::decoded(bits as int),
    {
        match bits {
            0 => ChargerPhase::TriCharge,
            1 => ChargerPhase::PreCharge,
            2 => ChargerPhase::ConstantCurrent,
            3 => ChargerPhase::ConstantVoltage,
            4 => ChargerPhase::Done,
            _ => ChargerPhase::NotCharging,
        }
    }

    /// Every setting is told from its field value.
    pub proof fn round_trip(self)
        ensures
            ChargerPhase::decoded(self.code() as int) == self,
    {
    }
}

// ---- Input limits ----------------------------------------------------------

/// Input current limit (REG 16h bits 2:0).
///
/// Limits the maximum current drawn from VBUS. Higher values allow faster
/// charging but require a capable USB source.
#[derive(Debug, Clone, Copy, PartialEq, Eq, Structural)]
pub enum InputCurrentLimit {
    Ma100,
    Ma500,
    Ma900,
    Ma1000,
    Ma1500,
    Ma2000,
}

impl InputCurrentLimit {
    /// The value of the register field.
    pub open spec fn code(self) -> u8 {
        match self {
            InputCurrentLimit::Ma100 => 0,
            InputCurrentLimit::Ma500 => 1,
            InputCurrentLimit::Ma900 => 2,
            InputCurrentLimit::Ma1000 => 3,
            InputCurrentLimit::Ma1500 => 4,
            InputCurrentLimit::Ma2000 => 5,
        }
    }

    /// What a value of the register field stands for.
    pub open spec fn decoded(field: int) -> InputCurrentLimit {
        if field == 0 {
            InputCurrentLimit::Ma100
        } else if field == 1 {
            InputCurrentLimit::Ma500
        } else if field == 2 {
            InputCurrentLimit::Ma900
        } else if field == 3 {
            InputCurrentLimit::Ma1000
        } else if field == 4 {
            InputCurrentLimit::Ma1500
        } else {
            InputCurrentLimit::Ma2000
        }
    }

    /// The value of the register field.
    pub fn bits(self) -> (r: u8)
        ensures
            r == self.code(),
    {
        match self {
            InputCurrentLimit::Ma100 => 0,
            InputCurrentLimit::Ma500 => 1,
            InputCurrentLimit::Ma900 => 2,
            InputCurrentLimit::Ma1000 => 3,
            InputCurrentLimit::Ma1500 => 4,
            InputCurrentLimit::Ma2000 => 5,
        }
    }

    /// What a value of the register field stands for; higher bits are ignored.
    pub fn from_bits(bits: u8) -> (r: InputCurrentLimit)
        ensures
            r == InputCurrentLimit::decoded(bits as int % 8),
    {
        match bits % 8 {
            0 => InputCurrentLimit::Ma100,
            1 => InputCurrentLimit::Ma500,
            2 => InputCurrentLimit::Ma900,
            3 => InputCurrentLimit::Ma1000,
            4 => InputCurrentLimit::Ma1500,
            _ => InputCurrentLimit::Ma2000,
        }
    }

    /// Every setting is told from its field value.
    pub proof fn round_trip(self)
        ensures
            InputCurrentLimit::decoded(self.code() as int) == self,
    {
    }
}

// ---- Charger configuration -------------------------------------------------

/// Pre-charge current (REG 61h bits 3:0). Value in mA = 25 * N, where N =
/// register value (0-15). Range: 0 mA (disabled) to 375 mA in 25 mA
/// steps. Default after reset: 0 (disabled).
#[derive(Debug, Clone, Copy, PartialEq, Eq, Structural)]
pub struct PreChargeCurrent(pub u8);

impl PreChargeCurrent {
    /// The current in milliamps.
    pub open spec fn ma(self) -> int {
        self.0 * 25
    }

    /// Create from milliamps (clamped to 0-375, rounded down to 25 mA
    /// steps).
    pub fn from_ma(ma: u16) -> (r: PreChargeCurrent)
        ensures
            r.0 == (if ma < 375 { ma as int } else { 375 }) / 25,
    {
        let held: u16 = if ma < 375 { ma } else { 375 };
        PreChargeCurrent((held / 25) as u8)
    }

    /// Return the current in milliamps.
    pub fn as_ma(self) -> (r: u16)
        ensures
            r == self.ma(),
    {
        self.0 as u16 * 25
    }
}

/// Constant-current charge current (REG 62h bits 4:0).
///
/// Datasheet V1.4 (6.13.2.60) mapping:
///   N <= 8:  25 * N mA          (0, 25, 50 ... 200)
///   N > 8:   200 + (N-8) * 100  (300, 400 ... 1000 at N = 16)
///   N > 16:  reserved
///
/// Use [`ChargeCurrent::from_ma`] to find the closest register value.
#[derive(Debug, Clone, Copy, PartialEq, Eq, Structural)]
pub struct ChargeCurrent(pub u8);

impl ChargeCurrent {
    /// The current in milliamps.
    pub open spec fn ma(self) -> int {
        if self.0 <= 8 { 25 * self.0 } else { 200 + (self.0 - 8) * 100 }
    }

    /// The setting for a current in milliamps.
    pub open spec fn of_ma(ma: int) -> ChargeCurrent {
        ChargeCurrent(
            (if ma >= 1000 {
                16
            } else if ma >= 300 {
                8 + (ma - 200) / 100
            } else if ma >= 200 {
                8
            } else {
                ma / 25
            }) as u8,
        )
    }

    /// Create from milliamps. Picks the closest value that does not
    /// exceed the requested current. Clamped to 1000 mA (codes above it
    /// are reserved); 201-299 mA has no code and clamps to 200.
    pub fn from_ma(ma: u16) -> (r: ChargeCurrent)
        ensures
            r == ChargeCurrent::of_ma(ma as int),
    {
        let held: u16 = if ma < 1000 { ma } else { 1000 };
        if held < 300 {
            let low: u16 = if held < 200 { held } else { 200 };
            ChargeCurrent((low / 25) as u8)
        } else {
            // 100 mA steps starting at code 9 = 300 mA
            ChargeCurrent((8 + (held - 200) / 100) as u8)
        }
    }

    /// Return the current in milliamps.
    pub fn as_ma(self) -> (r: u16)
        ensures
            r == self.ma(),
    {
        let n: u16 = self.0 as u16;
        if n <= 8 {
            25 * n
        } else {
            200 + (n - 8) * 100  // code 9 = 300, 10 = 400, ...
        }
    }

    /// A code that is not reserved survives the way over milliamps.
    pub proof fn round_trip(self)
        requires
            self.0 <= 16,
        ensures
            ChargeCurrent::of_ma(self.ma()) == self,
    {
    }

    /// The setting picked never exceeds the request, and no code that
    /// does not either is closer to it.
    pub proof fn closest_from_below(ma: int, code: u8)
        requires
            0 <= ma,
            code <= 16,
            ChargeCurrent(code).ma() <= ma,
        ensures
            ChargeCurrent::of_ma(ma).ma() <= ma,
            ChargeCurrent(code).ma() <= ChargeCurrent::of_ma(ma).ma(),
    {
    }
}

/// Termination current (REG 63h bits 3:0). Value in mA = 25 * N. Codes 0-8
/// (0-200 mA) are valid; 9-15 are reserved per datasheet V1.4
/// (6.13.2.61), so requests clamp to 200 mA.
#[derive(Debug, Clone, Copy, PartialEq, Eq, Structural)]
pub struct TerminationCurrent(pub u8);

impl TerminationCurrent {
    /// The current in milliamps.
    pub open spec fn ma(self) -> int {
        self.0 * 25
    }

    /// Create from milliamps (clamped to 0-200, rounded down to 25 mA
    /// steps).
    pub fn from_ma(ma: u16) -> (r: TerminationCurrent)
        ensures
            r.0 == (if ma < 200 { ma as int } else { 200 }) / 25,
    {
        let held: u16 = if ma < 200 { ma } else { 200 };
        TerminationCurrent((held / 25) as u8)
    }

    /// Return the current in milliamps.
    pub fn as_ma(self) -> (r: u16)
        ensures
            r == self.ma(),
    {
        self.0 as u16 * 25
    }
}

/// Constant-voltage charge target (REG 64h bits 2:0).
#[derive(Debug, Clone, Copy, PartialEq, Eq, Structural)]
pub enum ChargeVoltage {
    /// 4.0 V
    V4_0,
    /// 4.1 V
    V4_1,
    /// 4.2 V (default, standard Li-ion)
    V4_2,
    /// 4.35 V
    V4_35,
    /// 4.4 V
    V4_4,
}

impl ChargeVoltage {
    /// The value of the register field.
    pub open spec fn code(self) -> u8 {
        match self {
            ChargeVoltage::V4_0 => 1,
            ChargeVoltage::V4_1 => 2,
            ChargeVoltage::V4_2 => 3,
            ChargeVoltage::V4_35 => 4,
            ChargeVoltage::V4_4 => 5,
        }
    }

    /// What a value of the register field stands for.
    pub open spec fn decoded(field: int) -> Option<ChargeVoltage> {
        if field == 1 {
            Some(ChargeVoltage::V4_0)
        } else if field == 2 {
            Some(ChargeVoltage::V4_1)
        } else if field == 3 {
            Some(ChargeVoltage::V4_2)
        } else if field == 4 {
            Some(ChargeVoltage::V4_35)
        } else if field == 5 {
            Some(ChargeVoltage::V4_4)
        } else {
            None
        }
    }

    /// The value of the register field.
    pub fn bits(self) -> (r: u8)
        ensures
            r == self.code(),
    {
        match self {
            ChargeVoltage::V4_0 => 1,
            ChargeVoltage::V4_1 => 2,
            ChargeVoltage::V4_2 => 3,
            ChargeVoltage::V4_35 => 4,
            ChargeVoltage::V4_4 => 5,
        }
    }

    /// What a value of the register field stands for; higher bits are ignored.
    pub fn from_bits(bits: u8) -> (r: Option<ChargeVoltage>)
        ensures
            r == ChargeVoltage::decoded(bits as int % 8),
    {
        match bits % 8 {
            1 => Some(ChargeVoltage::V4_0),
            2 => Some(ChargeVoltage::V4_1),
            3 => Some(ChargeVoltage::V4_2),
            4 => Some(ChargeVoltage::V4_35),
            5 => Some(ChargeVoltage::V4_4),
            _ => None,
        }
    }

    /// Every setting is told from its field value.
    pub proof fn round_trip(self)
        ensures
            ChargeVoltage::decoded(self.code() as int) == Some(self),
    {
    }
}

/// Battery voltage for power-off (VOFF, REG 24h bits 2:0). 2.6-3.3 V in
/// 0.1 V steps (0b000 = 2.6 V ... 0b111 = 3.3 V).
///
/// The power-on default is 2.6 V - deep-discharge territory for a Li-ion
/// cell, and every collapse there wipes the fuel gauge's learned state.
/// Daily-driver firmware raises this at init.
#[derive(Debug, Clone, Copy, PartialEq, Eq, Structural)]
pub struct PowerOffVoltage(pub u8);

impl PowerOffVoltage {
    /// The threshold in millivolts.
    pub open spec fn mv(self) -> int {
        2600 + self.0 * 100
    }

    /// Create from millivolts (clamped to 2600-3300, rounded down to 100
    /// mV steps).
    pub fn from_mv(mv: u16) -> (r: PowerOffVoltage)
        ensures
            r.0 == (if mv < 2600 {
                0
            } else if mv > 3300 {
                7
            } else {
                (mv - 2600) / 100
            }),
    {
        let held: u16 = if mv < 2600 {
            2600
        } else if mv > 3300 {
            3300
        } else {
            mv
        };
        PowerOffVoltage(((held - 2600) / 100) as u8)
    }

    /// Return the threshold in millivolts.
    pub fn as_mv(self) -> (r: u16)
        ensures
            r == self.mv(),
    {
        2600 + self.0 as u16 * 100
    }
}

/// Thermal regulation threshold (REG 65h bits 1:0).
#[derive(Debug, Clone, Copy, PartialEq, Eq, Structural)]
pub enum ThermalThreshold {
    C60,
    C80,
    C100,
    C120,
}

impl ThermalThreshold {
    /// The value of the register field.
    pub open spec fn code(self) -> u8 {
        match self {
            ThermalThreshold::C60 => 0,
            ThermalThreshold::C80 => 1,
            ThermalThreshold::C100 => 2,
            ThermalThreshold::C120 => 3,
        }
    }

    /// What a value of the register field stands for.
    pub open spec fn decoded(field: int) -> ThermalThreshold {
        if field == 0 {
            ThermalThreshold::C60
        } else if field == 1 {
            ThermalThreshold::C80
        } else if field == 2 {
            ThermalThreshold::C100
        } else {
            ThermalThreshold::C120
        }
    }

    /// The value of the register field.
    pub fn bits(self) -> (r: u8)
        ensures
            r == self.code(),
    {
        match self {
            ThermalThreshold::C60 => 0,
            ThermalThreshold::C80 => 1,
            ThermalThreshold::C100 => 2,
            ThermalThreshold::C120 => 3,
        }
    }

    /// What a value of the register field stands for; higher bits are ignored.
    pub fn from_bits(bits: u8) -> (r: ThermalThreshold)
        ensures
            r == ThermalThreshold::decoded(bits as int % 4),
    {
        match bits % 4 {
            0 => ThermalThreshold::C60,
            1 => ThermalThreshold::C80,
            2 => ThermalThreshold::C100,
            _ => ThermalThreshold::C120,
        }
    }

    /// Every setting is told from its field value.
    pub proof fn round_trip(self)
        ensures
            ThermalThreshold::decoded(self.code() as int) == self,
    {
    }
}

// ---- Power key timing (REG 27h) --------------------------------------------

/// POWERON key press duration for IRQ (REG 27h bits 5:4).
#[derive(Debug, Clone, Copy, PartialEq, Eq, Structural)]
pub enum PowerKeyIrqTime {
    Ms1000,
    Ms1500,
    Ms2000,
    Ms2500,
}

impl PowerKeyIrqTime {
    /// The value of the register field.
    pub open spec fn code(self) -> u8 {
        match self {
            PowerKeyIrqTime::Ms1000 => 0,
            PowerKeyIrqTime::Ms1500 => 1,
            PowerKeyIrqTime::Ms2000 => 2,
            PowerKeyIrqTime::Ms2500 => 3,
        }
    }

    /// What a value of the register field stands for.
    pub open spec fn decoded(field: int) -> PowerKeyIrqTime {
        if field == 0 {
            PowerKeyIrqTime::Ms1000
        } else if field == 1 {
            PowerKeyIrqTime::Ms1500
        } else if field == 2 {
            PowerKeyIrqTime::Ms2000
        } else {
            PowerKeyIrqTime::Ms2500
        }
    }

    /// The value of the register field.
    pub fn bits(self) -> (r: u8)
        ensures
            r == self.code(),
    {
        match self {
            PowerKeyIrqTime::Ms1000 => 0,
            PowerKeyIrqTime::Ms1500 => 1,
            PowerKeyIrqTime::Ms2000 => 2,
            PowerKeyIrqTime::Ms2500 => 3,
        }
    }

    /// What a value of the register field stands for.
    pub fn from_bits(bits: u8) -> (r: PowerKeyIrqTime)
        ensures
            r == PowerKeyIrqTime::decoded(bits as int),
    {
        match bits {
            0 => PowerKeyIrqTime::Ms1000,
            1 => PowerKeyIrqTime::Ms1500,
            2 => PowerKeyIrqTime::Ms2000,
            _ => PowerKeyIrqTime::Ms2500,
        }
    }

    /// Every setting is told from its field value.
    pub proof fn round_trip(self)
        ensures
            PowerKeyIrqTime::decoded(self.code() as int) == self,
    {
    }
}

/// POWERON key press duration for power-off (REG 27h bits 3:2).
#[derive(Debug, Clone, Copy, PartialEq, Eq, Structural)]
pub enum PowerKeyOffTime {
    S4,
    S6,
    S8,
    S10,
}

impl PowerKeyOffTime {
    /// The value of the register field.
    pub open spec fn code(self) -> u8 {
        match self {
            PowerKeyOffTime::S4 => 0,
            PowerKeyOffTime::S6 => 1,
            PowerKeyOffTime::S8 => 2,
            PowerKeyOffTime::S10 => 3,
        }
    }

    /// What a value of the register field stands for.
    pub open spec fn decoded(field: int) -> PowerKeyOffTime {
        if field == 0 {
            PowerKeyOffTime::S4
        } else if field == 1 {
            PowerKeyOffTime::S6
        } else if field == 2 {
            PowerKeyOffTime::S8
        } else {
            PowerKeyOffTime::S10
        }
    }

    /// The value of the register field.
    pub fn bits(self) -> (r: u8)
        ensures
            r == self.code(),
    {
        match self {
            PowerKeyOffTime::S4 => 0,
            PowerKeyOffTime::S6 => 1,
            PowerKeyOffTime::S8 => 2,
            PowerKeyOffTime::S10 => 3,
        }
    }

    /// What a value of the register field stands for.
    pub fn from_bits(bits: u8) -> (r: PowerKeyOffTime)
        ensures
            r == PowerKeyOffTime::decoded(bits as int),
    {
        match bits {
            0 => PowerKeyOffTime::S4,
            1 => PowerKeyOffTime::S6,
            2 => PowerKeyOffTime::S8,
            _ => PowerKeyOffTime::S10,
        }
    }

    /// Every setting is told from its field value.
    pub proof fn round_trip(self)
        ensures
            PowerKeyOffTime::decoded(self.code() as int) == self,
    {
    }
}

/// POWERON key press duration for power-on (REG 27h bits 1:0).
#[derive(Debug, Clone, Copy, PartialEq, Eq, Structural)]
pub enum PowerKeyOnTime {
    Ms128,
    Ms512,
    Ms1000,
    Ms2000,
}

impl PowerKeyOnTime {
    /// The value of the register field.
    pub open spec fn code(self) -> u8 {
        match self {
            PowerKeyOnTime::Ms128 => 0,
            PowerKeyOnTime::Ms512 => 1,
            PowerKeyOnTime::Ms1000 => 2,
            PowerKeyOnTime::Ms2000 => 3,
        }
    }

    /// What a value of the register field stands for.
    pub open spec fn decoded(field: int) -> PowerKeyOnTime {
        if field == 0 {
            PowerKeyOnTime::Ms128
        } else if field == 1 {
            PowerKeyOnTime::Ms512
        } else if field == 2 {
            PowerKeyOnTime::Ms1000
        } else {
            PowerKeyOnTime::Ms2000
        }
    }

    /// The value of the register field.
    pub fn bits(self) -> (r: u8)
        ensures
            r == self.code(),
    {
        match self {
            PowerKeyOnTime::Ms128 => 0,
            PowerKeyOnTime::Ms512 => 1,
            PowerKeyOnTime::Ms1000 => 2,
            PowerKeyOnTime::Ms2000 => 3,
        }
    }

    /// What a value of the register field stands for.
    pub fn from_bits(bits: u8) -> (r: PowerKeyOnTime)
        ensures
            r == PowerKeyOnTime::decoded(bits as int),
    {
        match bits {
            0 => PowerKeyOnTime::Ms128,
            1 => PowerKeyOnTime::Ms512,
            2 => PowerKeyOnTime::Ms1000,
            _ => PowerKeyOnTime::Ms2000,
        }
    }

    /// Every setting is told from its field value.
    pub proof fn round_trip(self)
        ensures
            PowerKeyOnTime::decoded(self.code() as int) == self,
    {
    }
}

/// Power key timing configuration (REG 27h).
#[derive(Debug, Clone, Copy, PartialEq, Eq, Structural)]
pub struct PowerKeyConfig {
    /// Duration of POWERON press to generate the long-press IRQ.
    pub irq_time: PowerKeyIrqTime,
    /// Duration of POWERON press to trigger power-off.
    pub off_time: PowerKeyOffTime,
    /// Duration of POWERON press to trigger power-on (from off state).
    pub on_time: PowerKeyOnTime,
}

impl PowerKeyConfig {
    /// What a register value stands for.
    pub open spec fn decoded(r: u8) -> PowerKeyConfig {
        PowerKeyConfig {
            irq_time: PowerKeyIrqTime::decoded(r as int / 16 % 4),
            off_time: PowerKeyOffTime::decoded(r as int / 4 % 4),
            on_time: PowerKeyOnTime::decoded(r as int % 4),
        }
    }

    /// What a register value stands for.
    pub fn from_bits(r: u8) -> (s: PowerKeyConfig)
        ensures
            s == PowerKeyConfig::decoded(r),
    {
        PowerKeyConfig {
            irq_time: PowerKeyIrqTime::from_bits((r / 16) % 4),
            off_time: PowerKeyOffTime::from_bits((r / 4) % 4),
            on_time: PowerKeyOnTime::from_bits(r % 4),
        }
    }

    /// The register value of the configuration.
    pub open spec fn code(self) -> u8 {
        (16 * self.irq_time.code()
            + 4 * self.off_time.code()
            + self.on_time.code()) as u8
    }

    /// The register value of the configuration.
    pub fn bits(&self) -> (r: u8)
        ensures
            r == self.code(),
    {
        16 * self.irq_time.bits()
            + 4 * self.off_time.bits()
            + self.on_time.bits()
    }

    /// What was written is read back.
    pub proof fn round_trip(self)
        ensures
            PowerKeyConfig::decoded(self.code()) == self,
    {
    }
}

// ---- Watchdog (REG 19h) ----------------------------------------------------

/// Watchdog timeout (REG 19h bits 2:0).
#[derive(Debug, Clone, Copy, PartialEq, Eq, Structural)]
pub enum WatchdogTimeout {
    S1,
    S2,
    S4,
    S8,
    S16,
    S32,
    S64,
    S128,
}

impl WatchdogTimeout {
    /// The value of the register field.
    pub open spec fn code(self) -> u8 {
        match self {
            WatchdogTimeout::S1 => 0,
            WatchdogTimeout::S2 => 1,
            WatchdogTimeout::S4 => 2,
            WatchdogTimeout::S8 => 3,
            WatchdogTimeout::S16 => 4,
            WatchdogTimeout::S32 => 5,
            WatchdogTimeout::S64 => 6,
            WatchdogTimeout::S128 => 7,
        }
    }

    /// What a value of the register field stands for.
    pub open spec fn decoded(field: int) -> WatchdogTimeout {
        if field == 0 {
            WatchdogTimeout::S1
        } else if field == 1 {
            WatchdogTimeout::S2
        } else if field == 2 {
            WatchdogTimeout::S4
        } else if field == 3 {
            WatchdogTimeout::S8
        } else if field == 4 {
            WatchdogTimeout::S16
        } else if field == 5 {
            WatchdogTimeout::S32
        } else if field == 6 {
            WatchdogTimeout::S64
        } else {
            WatchdogTimeout::S128
        }
    }

    /// The value of the register field.
    pub fn bits(self) -> (r: u8)
        ensures
            r == self.code(),
    {
        match self {
            WatchdogTimeout::S1 => 0,
            WatchdogTimeout::S2 => 1,
            WatchdogTimeout::S4 => 2,
            WatchdogTimeout::S8 => 3,
            WatchdogTimeout::S16 => 4,
            WatchdogTimeout::S32 => 5,
            WatchdogTimeout::S64 => 6,
            WatchdogTimeout::S128 => 7,
        }
    }

    /// What a value of the register field stands for; higher bits are ignored.
    pub fn from_bits(bits: u8) -> (r: WatchdogTimeout)
        ensures
            r == WatchdogTimeout::decoded(bits as int % 8),
    {
        match bits % 8 {
            0 => WatchdogTimeout::S1,
            1 => WatchdogTimeout::S2,
            2 => WatchdogTimeout::S4,
            3 => WatchdogTimeout::S8,
            4 => WatchdogTimeout::S16,
            5 => WatchdogTimeout::S32,
            6 => WatchdogTimeout::S64,
            _ => WatchdogTimeout::S128,
        }
    }

    /// Every setting is told from its field value.
    pub proof fn round_trip(self)
        ensures
            WatchdogTimeout::decoded(self.code() as int) == self,
    {
    }
}

/// Watchdog reset action (REG 19h bits 5:4).
#[derive(Debug, Clone, Copy, PartialEq, Eq, Structural)]
pub enum WatchdogAction {
    /// Generate IRQ only.
    Irq,
    /// Generate IRQ then reset system after another timeout.
    IrqThenReset,
    /// Reset system immediately.
    Reset,
    /// Reset system and pull PWROK low.
    ResetPwrok,
}

impl WatchdogAction {
    /// The value of the register field.
    pub open spec fn code(self) -> u8 {
        match self {
            WatchdogAction::Irq => 0,
            WatchdogAction::IrqThenReset => 1,
            WatchdogAction::Reset => 2,
            WatchdogAction::ResetPwrok => 3,
        }
    }

    /// What a value of the register field stands for.
    pub open spec fn decoded(field: int) -> WatchdogAction {
        if field == 0 {
            WatchdogAction::Irq
        } else if field == 1 {
            WatchdogAction::IrqThenReset
        } else if field == 2 {
            WatchdogAction::Reset
        } else {
            WatchdogAction::ResetPwrok
        }
    }

    /// The value of the register field.
    pub fn bits(self) -> (r: u8)
        ensures
            r == self.code(),
    {
        match self {
            WatchdogAction::Irq => 0,
            WatchdogAction::IrqThenReset => 1,
            WatchdogAction::Reset => 2,
            WatchdogAction::ResetPwrok => 3,
        }
    }

    /// What a value of the register field stands for.
    pub fn from_bits(bits: u8) -> (r: WatchdogAction)
        ensures
            r == WatchdogAction::decoded(bits as int),
    {
        match bits {
            0 => WatchdogAction::Irq,
            1 => WatchdogAction::IrqThenReset,
            2 => WatchdogAction::Reset,
            _ => WatchdogAction::ResetPwrok,
        }
    }

    /// Every setting is told from its field value.
    pub proof fn round_trip(self)
        ensures
            WatchdogAction::decoded(self.code() as int) == self,
    {
    }
}

/// Watchdog configuration (REG 19h).
#[derive(Debug, Clone, Copy, PartialEq, Eq, Structural)]
pub struct WatchdogConfig {
    pub timeout: WatchdogTimeout,
    pub action: WatchdogAction,
}

impl WatchdogConfig {
    /// What a register value stands for.
    pub open spec fn decoded(r: u8) -> WatchdogConfig {
        WatchdogConfig {
            timeout: WatchdogTimeout::decoded(r as int % 8),
            action: WatchdogAction::decoded(r as int / 16 % 4),
        }
    }

    /// What a register value stands for.
    pub fn from_bits(r: u8) -> (s: WatchdogConfig)
        ensures
            s == WatchdogConfig::decoded(r),
    {
        WatchdogConfig {
            timeout: WatchdogTimeout::from_bits(r % 8),
            action: WatchdogAction::from_bits((r / 16) % 4),
        }
    }

    /// The register value of the configuration.
    pub open spec fn code(self) -> u8 {
        (self.timeout.code()
            + 16 * self.action.code()) as u8
    }

    /// The register value of the configuration.
    pub fn bits(&self) -> (r: u8)
        ensures
            r == self.code(),
    {
        self.timeout.bits()
            + 16 * self.action.bits()
    }

    /// What was written is read back.
    pub proof fn round_trip(self)
        ensures
            WatchdogConfig::decoded(self.code()) == self,
    {
    }
}

// ---- Low battery warning (REG 1Ah) -----------------------------------------

/// Low battery warning thresholds.
///
/// The AXP2101 generates SocWarningLevel1 and SocWarningLevel2 interrupts
/// when battery SOC drops below these thresholds.
///
/// Level 1 range: 0-15% (bits 3:0). Level 2 range: 5-20% (bits 7:4, value
/// = 5 + N).
#[derive(Debug, Clone, Copy, PartialEq, Eq, Structural)]
pub struct LowBatteryWarning {
    /// SOC threshold for warning level 1 (0-15%).
    pub level1_percent: u8,
    /// SOC threshold for warning level 2 (5-20%).
    pub level2_percent: u8,
}

impl LowBatteryWarning {
    /// The register value of the thresholds, each held within its range.
    pub open spec fn code(self) -> u8 {
        let l1 = if self.level1_percent < 15 { self.level1_percent as int } else { 15 };
        let l2 = if self.level2_percent < 5 {
            5
        } else if self.level2_percent < 20 {
            self.level2_percent as int
        } else {
            20
        };
        (16 * (l2 - 5) + l1) as u8
    }

    /// What a register value stands for.
    pub open spec fn decoded(r: u8) -> LowBatteryWarning {
        LowBatteryWarning {
            level1_percent: (r as int % 16) as u8,
            level2_percent: (r as int / 16 + 5) as u8,
        }
    }

    /// The register value of the thresholds, each held within its range.
    pub fn bits(&self) -> (r: u8)
        ensures
            r == self.code(),
    {
        let l1: u8 = if self.level1_percent < 15 { self.level1_percent } else { 15 };
        let l2: u8 = if self.level2_percent < 5 {
            5
        } else if self.level2_percent < 20 {
            self.level2_percent
        } else {
            20
        };
        16 * (l2 - 5) + l1
    }

    /// What a register value stands for.
    pub fn from_bits(r: u8) -> (s: LowBatteryWarning)
        ensures
            s == LowBatteryWarning::decoded(r),
    {
        LowBatteryWarning { level1_percent: r % 16, level2_percent: r / 16 + 5 }
    }

    /// Thresholds within range are read back as they were written.
    pub proof fn round_trip(self)
        requires
            self.level1_percent <= 15,
            5 <= self.level2_percent <= 20,
        ensures
            LowBatteryWarning::decoded(self.code()) == self,
    {
    }
}

// ---- Die temperature protection (REG 13h) ----------------------------------

/// Die over-temperature protection level (REG 13h bits 2:1).
#[derive(Debug, Clone, Copy, PartialEq, Eq, Structural)]
pub enum DieOtpLevel {
    C115,
    C125,
    C135,
}

impl DieOtpLevel {
    /// The value of the register field.
    pub open spec fn code(self) -> u8 {
        match self {
            DieOtpLevel::C115 => 0,
            DieOtpLevel::C125 => 1,
            DieOtpLevel::C135 => 2,
        }
    }

    /// What a value of the register field stands for.
    pub open spec fn decoded(field: int) -> DieOtpLevel {
        if field == 0 {
            DieOtpLevel::C115
        } else if field == 1 {
            DieOtpLevel::C125
        } else {
            DieOtpLevel::C135
        }
    }

    /// The value of the register field.
    pub fn bits(self) -> (r: u8)
        ensures
            r == self.code(),
    {
        match self {
            DieOtpLevel::C115 => 0,
            DieOtpLevel::C125 => 1,
            DieOtpLevel::C135 => 2,
        }
    }

    /// What a value of the register field stands for.
    pub fn from_bits(bits: u8) -> (r: DieOtpLevel)
        ensures
            r == DieOtpLevel::decoded(bits as int),
    {
        match bits {
            0 => DieOtpLevel::C115,
            1 => DieOtpLevel::C125,
            _ => DieOtpLevel::C135,
        }
    }

    /// Every setting is told from its field value.
    pub proof fn round_trip(self)
        ensures
            DieOtpLevel::decoded(self.code() as int) == self,
    {
    }
}

// ---- Power-on / power-off status (REG 20h-21h) -----------------------------

/// Sources that caused the last power-on (REG 20h).
///
/// Bit layout:
///   7:6  reserved
///   5    POWERON always high when EN mode
///   4    Battery insert and good
///   3    Battery voltage > 3.3V when charged
///   2    VBUS insert and good
///   1    IRQ pin pull-down
///   0    POWERON low for on-level (button press)
#[derive(Debug, Clone, Copy, PartialEq, Eq, Structural, Default)]
pub struct PowerOnStatus {
    /// POWERON always high when EN mode (bit 5).
    pub en_mode: bool,
    /// Battery insert and good as power-on source (bit 4).
    pub battery_insert: bool,
    /// Battery voltage > 3.3V when charged as source (bit 3).
    pub battery_charged: bool,
    /// VBUS insert and good as power-on source (bit 2).
    pub vbus: bool,
    /// IRQ pin pull-down as power-on source (bit 1).
    pub irq_pin: bool,
    /// POWERON button press (low for on-level) (bit 0).
    pub button: bool,
}

impl PowerOnStatus {
    /// What a register value stands for.
    pub open spec fn decoded(r: u8) -> PowerOnStatus {
        PowerOnStatus {
            en_mode: bit(r, 32),
            battery_insert: bit(r, 16),
            battery_charged: bit(r, 8),
            vbus: bit(r, 4),
            irq_pin: bit(r, 2),
            button: bit(r, 1),
        }
    }

    /// What a register value stands for.
    pub fn from_bits(r: u8) -> (s: PowerOnStatus)
        ensures
            s == PowerOnStatus::decoded(r),
    {
        PowerOnStatus {
            en_mode: has(r, 32),
            battery_insert: has(r, 16),
            battery_charged: has(r, 8),
            vbus: has(r, 4),
            irq_pin: has(r, 2),
            button: has(r, 1),
        }
    }
}

/// Sources that caused the last power-off (REG 21h).
///
/// Bit layout:
///   7    Die over-temperature
///   6    DCDC over-voltage
///   5    DCDC under-voltage
///   4    VBUS over-voltage
///   3    Vsys under-voltage
///   2    POWERON always low when EN mode
///   1    Software configuration (soft power-off)
///   0    POWERON pull-down for off-level (long press)
#[derive(Debug, Clone, Copy, PartialEq, Eq, Structural, Default)]
pub struct PowerOffStatus {
    /// Die over-temperature as power-off source (bit 7).
    pub die_overtemp: bool,
    /// DCDC over-voltage as power-off source (bit 6).
    pub dcdc_overvolt: bool,
    /// DCDC under-voltage as power-off source (bit 5).
    pub dcdc_undervolt: bool,
    /// VBUS over-voltage as power-off source (bit 4).
    pub vbus_overvolt: bool,
    /// Vsys under-voltage as power-off source (bit 3).
    pub vsys_undervolt: bool,
    /// POWERON always low when EN mode (bit 2).
    pub en_mode: bool,
    /// Software configuration as power-off source (bit 1).
    pub software: bool,
    /// POWERON button long press (off-level) (bit 0).
    pub button_long_press: bool,
}

impl PowerOffStatus {
    /// What a register value stands for.
    pub open spec fn decoded(r: u8) -> PowerOffStatus {
        PowerOffStatus {
            die_overtemp: bit(r, 128),
            dcdc_overvolt: bit(r, 64),
            dcdc_undervolt: bit(r, 32),
            vbus_overvolt: bit(r, 16),
            vsys_undervolt: bit(r, 8),
            en_mode: bit(r, 4),
            software: bit(r, 2),
            button_long_press: bit(r, 1),
        }
    }

    /// What a register value stands for.
    pub fn from_bits(r: u8) -> (s: PowerOffStatus)
        ensures
            s == PowerOffStatus::decoded(r),
    {
        PowerOffStatus {
            die_overtemp: has(r, 128),
            dcdc_overvolt: has(r, 64),
            dcdc_undervolt: has(r, 32),
            vbus_overvolt: has(r, 16),
            vsys_undervolt: has(r, 8),
            en_mode: has(r, 4),
            software: has(r, 2),
            button_long_press: has(r, 1),
        }
    }
}

// ---- GPIO1 output (REG 1Bh) ------------------------------------------------

/// GPIO1 output mode (REG 1Bh bits 3:2).
#[derive(Debug, Clone, Copy, PartialEq, Eq, Structural)]
pub enum Gpio1Output {
    /// High-impedance (floating).
    HiZ,
    /// Drive low.
    Low,
}

impl Gpio1Output {
    /// The value of the register field.
    pub open spec fn code(self) -> u8 {
        match self {
            Gpio1Output::HiZ => 0,
            Gpio1Output::Low => 1,
        }
    }

    /// What a value of the register field stands for.
    pub open spec fn decoded(field: int) -> Gpio1Output {
        if field == 1 {
            Gpio1Output::Low
        } else {
            Gpio1Output::HiZ
        }
    }

    /// The value of the register field.
    pub fn bits(self) -> (r: u8)
        ensures
            r == self.code(),
    {
        match self {
            Gpio1Output::HiZ => 0,
            Gpio1Output::Low => 1,
        }
    }

    /// What a value of the register field stands for.
    pub fn from_bits(bits: u8) -> (r: Gpio1Output)
        ensures
            r == Gpio1Output::decoded(bits as int),
    {
        match bits {
            1 => Gpio1Output::Low,
            _ => Gpio1Output::HiZ,
        }
    }

    /// Every setting is told from its field value.
    pub proof fn round_trip(self)
        ensures
            Gpio1Output::decoded(self.code() as int) == self,
    {
    }
}

// ---- PWROFF enable (REG 22h) -----------------------------------------------

/// Power-off source enable configuration (REG 22h).
///
/// Bit layout:
///   7:3  reserved
///   2    Die over-temp level 2 as power-off source enable
///   1    POWERON > OFFLEVEL as power-off source enable
///   0    Function select when button power-off occurs:
///        0=power-off, 1=restart
#[derive(Debug, Clone, Copy, PartialEq, Eq, Structural)]
pub struct PowerOffEnable {
    /// Die over-temperature level 2 triggers power-off (bit 2).
    pub die_overtemp_en: bool,
    /// POWERON long press triggers power-off (bit 1).
    pub button_off_en: bool,
    /// When button power-off occurs: false=power-off, true=restart (bit
    /// 0).
    pub button_off_restart: bool,
}

impl PowerOffEnable {
    /// What a register value stands for.
    pub open spec fn decoded(r: u8) -> PowerOffEnable {
        PowerOffEnable {
            die_overtemp_en: bit(r, 4),
            button_off_en: bit(r, 2),
            button_off_restart: bit(r, 1),
        }
    }

    /// What a register value stands for.
    pub fn from_bits(r: u8) -> (s: PowerOffEnable)
        ensures
            s == PowerOffEnable::decoded(r),
    {
        PowerOffEnable {
            die_overtemp_en: has(r, 4),
            button_off_en: has(r, 2),
            button_off_restart: has(r, 1),
        }
    }

    /// The register value of the configuration.
    pub open spec fn code(self) -> u8 {
        (flag(self.die_overtemp_en, 4)
            + flag(self.button_off_en, 2)
            + flag(self.button_off_restart, 1)) as u8
    }

    /// The register value of the configuration.
    pub fn bits(&self) -> (r: u8)
        ensures
            r == self.code(),
    {
        flagged(self.die_overtemp_en, 4)
            + flagged(self.button_off_en, 2)
            + flagged(self.button_off_restart, 1)
    }

    /// What was written is read back.
    pub proof fn round_trip(self)
        ensures
            PowerOffEnable::decoded(self.code()) == self,
    {
    }
}

// ---- DCDC OVP/UVP (REG 23h) ------------------------------------------------

/// DCDC over/under-voltage power-off control (REG 23h).
///
/// Bit layout:
///   7:6  reserved
///   5    DCDC 120%(130%) over-voltage turn off PMIC
///   4    reserved
///   3    DCDC4 85% under-voltage turn off PMIC
///   2    DCDC3 85% under-voltage turn off PMIC
///   1    DCDC2 85% under-voltage turn off PMIC
///   0    DCDC1 85% under-voltage turn off PMIC
#[derive(Debug, Clone, Copy, PartialEq, Eq, Structural)]
pub struct DcdcProtection {
    /// DCDC over-voltage (120%/130%) triggers power-off (bit 5).
    pub overvolt_off_en: bool,
    /// DCDC4 under-voltage (85%) triggers power-off (bit 3).
    pub dcdc4_undervolt_en: bool,
    /// DCDC3 under-voltage (85%) triggers power-off (bit 2).
    pub dcdc3_undervolt_en: bool,
    /// DCDC2 under-voltage (85%) triggers power-off (bit 1).
    pub dcdc2_undervolt_en: bool,
    /// DCDC1 under-voltage (85%) triggers power-off (bit 0).
    pub dcdc1_undervolt_en: bool,
}

impl DcdcProtection {
    /// What a register value stands for.
    pub open spec fn decoded(r: u8) -> DcdcProtection {
        DcdcProtection {
            overvolt_off_en: bit(r, 32),
            dcdc4_undervolt_en: bit(r, 8),
            dcdc3_undervolt_en: bit(r, 4),
            dcdc2_undervolt_en: bit(r, 2),
            dcdc1_undervolt_en: bit(r, 1),
        }
    }

    /// What a register value stands for.
    pub fn from_bits(r: u8) -> (s: DcdcProtection)
        ensures
            s == DcdcProtection::decoded(r),
    {
        DcdcProtection {
            overvolt_off_en: has(r, 32),
            dcdc4_undervolt_en: has(r, 8),
            dcdc3_undervolt_en: has(r, 4),
            dcdc2_undervolt_en: has(r, 2),
            dcdc1_undervolt_en: has(r, 1),
        }
    }

    /// The register value of the configuration.
    pub open spec fn code(self) -> u8 {
        (16
            + flag(self.overvolt_off_en, 32)
            + flag(self.dcdc4_undervolt_en, 8)
            + flag(self.dcdc3_undervolt_en, 4)
            + flag(self.dcdc2_undervolt_en, 2)
            + flag(self.dcdc1_undervolt_en, 1)) as u8
    }

    /// The register value of the configuration.
    pub fn bits(&self) -> (r: u8)
        ensures
            r == self.code(),
    {
        16
            + flagged(self.overvolt_off_en, 32)
            + flagged(self.dcdc4_undervolt_en, 8)
            + flagged(self.dcdc3_undervolt_en, 4)
            + flagged(self.dcdc2_undervolt_en, 2)
            + flagged(self.dcdc1_undervolt_en, 1)
    }

    /// What was written is read back.
    pub proof fn round_trip(self)
        ensures
            DcdcProtection::decoded(self.code()) == self,
    {
    }
}

// ---- PWROK settings (REG 25h) ----------------------------------------------

/// PWROK delay after all outputs good (REG 25h bits 1:0).
#[derive(Debug, Clone, Copy, PartialEq, Eq, Structural)]
pub enum PwrokDelay {
    Ms8,
    Ms16,
    Ms32,
    Ms64,
}

impl PwrokDelay {
    /// The value of the register field.
    pub open spec fn code(self) -> u8 {
        match self {
            PwrokDelay::Ms8 => 0,
            PwrokDelay::Ms16 => 1,
            PwrokDelay::Ms32 => 2,
            PwrokDelay::Ms64 => 3,
        }
    }

    /// What a value of the register field stands for.
    pub open spec fn decoded(field: int) -> PwrokDelay {
        if field == 0 {
            PwrokDelay::Ms8
        } else if field == 1 {
            PwrokDelay::Ms16
        } else if field == 2 {
            PwrokDelay::Ms32
        } else {
            PwrokDelay::Ms64
        }
    }

    /// The value of the register field.
    pub fn bits(self) -> (r: u8)
        ensures
            r == self.code(),
    {
        match self {
            PwrokDelay::Ms8 => 0,
            PwrokDelay::Ms16 => 1,
            PwrokDelay::Ms32 => 2,
            PwrokDelay::Ms64 => 3,
        }
    }

    /// What a value of the register field stands for; higher bits are ignored.
    pub fn from_bits(bits: u8) -> (r: PwrokDelay)
        ensures
            r == PwrokDelay::decoded(bits as int % 4),
    {
        match bits % 4 {
            0 => PwrokDelay::Ms8,
            1 => PwrokDelay::Ms16,
            2 => PwrokDelay::Ms32,
            _ => PwrokDelay::Ms64,
        }
    }

    /// Every setting is told from its field value.
    pub proof fn round_trip(self)
        ensures
            PwrokDelay::decoded(self.code() as int) == self,
    {
    }
}

/// PWROK and power-off sequence control (REG 25h).
///
/// Bit layout:
///   7:5  reserved
///   4    Check PWROK pin 128ms after all outputs valid
///   3    Power-off delay 4ms after PWROK disable
///   2    Power-off sequence: 0=simultaneous, 1=reverse of startup
///   1:0  PWROK delay after all outputs good
#[derive(Debug, Clone, Copy, PartialEq, Eq, Structural)]
pub struct PwrokConfig {
    /// Check PWROK pin 128ms after outputs valid (bit 4).
    pub check_pwrok_en: bool,
    /// 4ms power-off delay after PWROK disable (bit 3).
    pub pwroff_delay_en: bool,
    /// Power-off in reverse sequence of startup (bit 2).
    pub reverse_sequence: bool,
    /// PWROK delay after all outputs good (bits 1:0).
    pub delay: PwrokDelay,
}

impl PwrokConfig {
    /// What a register value stands for.
    pub open spec fn decoded(r: u8) -> PwrokConfig {
        PwrokConfig {
            check_pwrok_en: bit(r, 16),
            pwroff_delay_en: bit(r, 8),
            reverse_sequence: bit(r, 4),
            delay: PwrokDelay::decoded(r as int % 4),
        }
    }

    /// What a register value stands for.
    pub fn from_bits(r: u8) -> (s: PwrokConfig)
        ensures
            s == PwrokConfig::decoded(r),
    {
        PwrokConfig {
            check_pwrok_en: has(r, 16),
            pwroff_delay_en: has(r, 8),
            reverse_sequence: has(r, 4),
            delay: PwrokDelay::from_bits(r % 4),
        }
    }

    /// The register value of the configuration.
    pub open spec fn code(self) -> u8 {
        (flag(self.check_pwrok_en, 16)
            + flag(self.pwroff_delay_en, 8)
            + flag(self.reverse_sequence, 4)
            + self.delay.code()) as u8
    }

    /// The register value of the configuration.
    pub fn bits(&self) -> (r: u8)
        ensures
            r == self.code(),
    {
        flagged(self.check_pwrok_en, 16)
            + flagged(self.pwroff_delay_en, 8)
            + flagged(self.reverse_sequence, 4)
            + self.delay.bits()
    }

    /// What was written is read back.
    pub proof fn round_trip(self)
        ensures
            PwrokConfig::decoded(self.code()) == self,
    {
    }
}

// ---- Sleep/wakeup (REG 26h) ------------------------------------------------

/// Sleep and wakeup control (REG 26h).
///
/// Bit layout:
///   7:5  reserved
///   4    IRQ pin low to wakeup enable
///   3    PWROK low-level enable when wakeup
///   2    DCDC/LDO voltage select on wakeup:
///        0=default, 1=voltage before sleep
///   1    Wakeup enable (RWLC - read/write, latch on clear)
///   0    Sleep enable (RWLC)
#[derive(Debug, Clone, Copy, PartialEq, Eq, Structural)]
pub struct SleepWakeConfig {
    /// IRQ pin pull-down triggers wakeup (bit 4).
    pub irq_wakeup_en: bool,
    /// PWROK goes low during wakeup (bit 3).
    pub pwrok_low_on_wake: bool,
    /// Restore pre-sleep voltage on wakeup (bit 2).
    pub restore_voltage: bool,
    /// Wakeup enable (bit 1).
    pub wakeup_en: bool,
    /// Sleep enable (bit 0).
    pub sleep_en: bool,
}

impl SleepWakeConfig {
    /// What a register value stands for.
    pub open spec fn decoded(r: u8) -> SleepWakeConfig {
        SleepWakeConfig {
            irq_wakeup_en: bit(r, 16),
            pwrok_low_on_wake: bit(r, 8),
            restore_voltage: bit(r, 4),
            wakeup_en: bit(r, 2),
            sleep_en: bit(r, 1),
        }
    }

    /// What a register value stands for.
    pub fn from_bits(r: u8) -> (s: SleepWakeConfig)
        ensures
            s == SleepWakeConfig::decoded(r),
    {
        SleepWakeConfig {
            irq_wakeup_en: has(r, 16),
            pwrok_low_on_wake: has(r, 8),
            restore_voltage: has(r, 4),
            wakeup_en: has(r, 2),
            sleep_en: has(r, 1),
        }
    }

    /// The register value of the configuration.
    pub open spec fn code(self) -> u8 {
        (flag(self.irq_wakeup_en, 16)
            + flag(self.pwrok_low_on_wake, 8)
            + flag(self.restore_voltage, 4)
            + flag(self.wakeup_en, 2)
            + flag(self.sleep_en, 1)) as u8
    }

    /// The register value of the configuration.
    pub fn bits(&self) -> (r: u8)
        ensures
            r == self.code(),
    {
        flagged(self.irq_wakeup_en, 16)
            + flagged(self.pwrok_low_on_wake, 8)
            + flagged(self.restore_voltage, 4)
            + flagged(self.wakeup_en, 2)
            + flagged(self.sleep_en, 1)
    }

    /// What was written is read back.
    pub proof fn round_trip(self)
        ensures
            SleepWakeConfig::decoded(self.code()) == self,
    {
    }
}

// ---- TS pin control (REG 50h) ----------------------------------------------

/// TS pin function select (REG 50h bit 4).
#[derive(Debug, Clone, Copy, PartialEq, Eq, Structural)]
pub enum TsPinFunction {
    /// Battery temperature sensor input (affects charger).
    BatteryTemp,
    /// External fixed input (does not affect charger).
    ExternalInput,
}

impl TsPinFunction {
    /// The value of the register field.
    pub open spec fn code(self) -> u8 {
        match self {
            TsPinFunction::BatteryTemp => 0,
            TsPinFunction::ExternalInput => 1,
        }
    }

    /// What a value of the register field stands for.
    pub open spec fn decoded(field: int) -> TsPinFunction {
        if field == 0 {
            TsPinFunction::BatteryTemp
        } else {
            TsPinFunction::ExternalInput
        }
    }

    /// The value of the register field.
    pub fn bits(self) -> (r: u8)
        ensures
            r == self.code(),
    {
        match self {
            TsPinFunction::BatteryTemp => 0,
            TsPinFunction::ExternalInput => 1,
        }
    }

    /// What a value of the register field stands for.
    pub fn from_bits(bits: u8) -> (r: TsPinFunction)
        ensures
            r == TsPinFunction::decoded(bits as int),
    {
        match bits {
            0 => TsPinFunction::BatteryTemp,
            _ => TsPinFunction::ExternalInput,
        }
    }

    /// Every setting is told from its field value.
    pub proof fn round_trip(self)
        ensures
            TsPinFunction::decoded(self.code() as int) == self,
    {
    }
}

/// TS current source mode (REG 50h bits 3:2).
#[derive(Debug, Clone, Copy, PartialEq, Eq, Structural)]
pub enum TsCurrentMode {
    /// Current source off.
    Off,
    /// On when TS ADC channel is enabled.
    OnWhenAdcEnabled,
    /// On only when TS channel is working, off for other channels.
    OnDuringTsSample,
    /// Always on.
    AlwaysOn,
}

impl TsCurrentMode {
    /// The value of the register field.
    pub open spec fn code(self) -> u8 {
        match self {
            TsCurrentMode::Off => 0,
            TsCurrentMode::OnWhenAdcEnabled => 1,
            TsCurrentMode::OnDuringTsSample => 2,
            TsCurrentMode::AlwaysOn => 3,
        }
    }

    /// What a value of the register field stands for.
    pub open spec fn decoded(field: int) -> TsCurrentMode {
        if field == 0 {
            TsCurrentMode::Off
        } else if field == 1 {
            TsCurrentMode::OnWhenAdcEnabled
        } else if field == 2 {
            TsCurrentMode::OnDuringTsSample
        } else {
            TsCurrentMode::AlwaysOn
        }
    }

    /// The value of the register field.
    pub fn bits(self) -> (r: u8)
        ensures
            r == self.code(),
    {
        match self {
            TsCurrentMode::Off => 0,
            TsCurrentMode::OnWhenAdcEnabled => 1,
            TsCurrentMode::OnDuringTsSample => 2,
            TsCurrentMode::AlwaysOn => 3,
        }
    }

    /// What a value of the register field stands for; higher bits are ignored.
    pub fn from_bits(bits: u8) -> (r: TsCurrentMode)
        ensures
            r == TsCurrentMode::decoded(bits as int % 4),
    {
        match bits % 4 {
            0 => TsCurrentMode::Off,
            1 => TsCurrentMode::OnWhenAdcEnabled,
            2 => TsCurrentMode::OnDuringTsSample,
            _ => TsCurrentMode::AlwaysOn,
        }
    }

    /// Every setting is told from its field value.
    pub proof fn round_trip(self)
        ensures
            TsCurrentMode::decoded(self.code() as int) == self,
    {
    }
}

/// TS pin current source value (REG 50h bits 1:0).
#[derive(Debug, Clone, Copy, PartialEq, Eq, Structural)]
pub enum TsCurrentValue {
    Ua20,
    Ua40,
    Ua50,
    Ua60,
}

impl TsCurrentValue {
    /// The value of the register field.
    pub open spec fn code(self) -> u8 {
        match self {
            TsCurrentValue::Ua20 => 0,
            TsCurrentValue::Ua40 => 1,
            TsCurrentValue::Ua50 => 2,
            TsCurrentValue::Ua60 => 3,
        }
    }

    /// What a value of the register field stands for.
    pub open spec fn decoded(field: int) -> TsCurrentValue {
        if field == 0 {
            TsCurrentValue::Ua20
        } else if field == 1 {
            TsCurrentValue::Ua40
        } else if field == 2 {
            TsCurrentValue::Ua50
        } else {
            TsCurrentValue::Ua60
        }
    }

    /// The value of the register field.
    pub fn bits(self) -> (r: u8)
        ensures
            r == self.code(),
    {
        match self {
            TsCurrentValue::Ua20 => 0,
            TsCurrentValue::Ua40 => 1,
            TsCurrentValue::Ua50 => 2,
            TsCurrentValue::Ua60 => 3,
        }
    }

    /// What a value of the register field stands for; higher bits are ignored.
    pub fn from_bits(bits: u8) -> (r: TsCurrentValue)
        ensures
            r == TsCurrentValue::decoded(bits as int % 4),
    {
        match bits % 4 {
            0 => TsCurrentValue::Ua20,
            1 => TsCurrentValue::Ua40,
            2 => TsCurrentValue::Ua50,
            _ => TsCurrentValue::Ua60,
        }
    }

    /// Every setting is told from its field value.
    pub proof fn round_trip(self)
        ensures
            TsCurrentValue::decoded(self.code() as int) == self,
    {
    }
}

/// TS pin configuration (REG 50h).
#[derive(Debug, Clone, Copy, PartialEq, Eq, Structural)]
pub struct TsPinConfig {
    /// TS pin function: battery temp sensor or external input (bit 4).
    pub function: TsPinFunction,
    /// Current source on/off mode (bits 3:2).
    pub current_mode: TsCurrentMode,
    /// Current source value (bits 1:0).
    pub current_value: TsCurrentValue,
}

impl TsPinConfig {
    /// What a register value stands for.
    pub open spec fn decoded(r: u8) -> TsPinConfig {
        TsPinConfig {
            function: TsPinFunction::decoded(r as int / 16 % 2),
            current_mode: TsCurrentMode::decoded(r as int / 4 % 4),
            current_value: TsCurrentValue::decoded(r as int % 4),
        }
    }

    /// What a register value stands for.
    pub fn from_bits(r: u8) -> (s: TsPinConfig)
        ensures
            s == TsPinConfig::decoded(r),
    {
        TsPinConfig {
            function: TsPinFunction::from_bits((r / 16) % 2),
            current_mode: TsCurrentMode::from_bits((r / 4) % 4),
            current_value: TsCurrentValue::from_bits(r % 4),
        }
    }

    /// The register value of the configuration.
    pub open spec fn code(self) -> u8 {
        (16 * self.function.code()
            + 4 * self.current_mode.code()
            + self.current_value.code()) as u8
    }

    /// The register value of the configuration.
    pub fn bits(&self) -> (r: u8)
        ensures
            r == self.code(),
    {
        16 * self.function.bits()
            + 4 * self.current_mode.bits()
            + self.current_value.bits()
    }

    /// What was written is read back.
    pub proof fn round_trip(self)
        ensures
            TsPinConfig::decoded(self.code()) == self,
    {
    }
}

// ---- JEITA CV configuration (REG 59h) --------------------------------------

/// JEITA current reduction factor.
#[derive(Debug, Clone, Copy, PartialEq, Eq, Structural)]
pub enum JeitaCurrentFall {
    /// 100% - no reduction.
    Full,
    /// 50% of normal charge current.
    Half,
}

impl JeitaCurrentFall {
    /// The value of the register field.
    pub open spec fn code(self) -> u8 {
        match self {
            JeitaCurrentFall::Full => 0,
            JeitaCurrentFall::Half => 1,
        }
    }

    /// What a value of the register field stands for.
    pub open spec fn decoded(field: int) -> JeitaCurrentFall {
        if field == 0 {
            JeitaCurrentFall::Full
        } else {
            JeitaCurrentFall::Half
        }
    }

    /// The value of the register field.
    pub fn bits(self) -> (r: u8)
        ensures
            r == self.code(),
    {
        match self {
            JeitaCurrentFall::Full => 0,
            JeitaCurrentFall::Half => 1,
        }
    }

    /// What a value of the register field stands for.
    pub fn from_bits(bits: u8) -> (r: JeitaCurrentFall)
        ensures
            r == JeitaCurrentFall::decoded(bits as int),
    {
        match bits {
            0 => JeitaCurrentFall::Full,
            _ => JeitaCurrentFall::Half,
        }
    }

    /// Every setting is told from its field value.
    pub proof fn round_trip(self)
        ensures
            JeitaCurrentFall::decoded(self.code() as int) == self,
    {
    }
}

/// JEITA voltage reduction (gear steps below CV setting).
#[derive(Debug, Clone, Copy, PartialEq, Eq, Structural)]
pub enum JeitaVoltageFall {
    /// 0 mV - no reduction.
    Unchanged,
    /// One gear lower than CV setting.
    OneGear,
    /// Two gears lower than CV setting.
    TwoGears,
}

impl JeitaVoltageFall {
    /// The value of the register field.
    pub open spec fn code(self) -> u8 {
        match self {
            JeitaVoltageFall::Unchanged => 0,
            JeitaVoltageFall::OneGear => 1,
            JeitaVoltageFall::TwoGears => 2,
        }
    }

    /// What a value of the register field stands for.
    pub open spec fn decoded(field: int) -> JeitaVoltageFall {
        if field == 0 {
            JeitaVoltageFall::Unchanged
        } else if field == 1 {
            JeitaVoltageFall::OneGear
        } else if field == 2 {
            JeitaVoltageFall::TwoGears
        } else {
            JeitaVoltageFall::Unchanged
        }
    }

    /// The value of the register field.
    pub fn bits(self) -> (r: u8)
        ensures
            r == self.code(),
    {
        match self {
            JeitaVoltageFall::Unchanged => 0,
            JeitaVoltageFall::OneGear => 1,
            JeitaVoltageFall::TwoGears => 2,
        }
    }

    /// What a value of the register field stands for; higher bits are ignored.
    pub fn from_bits(bits: u8) -> (r: JeitaVoltageFall)
        ensures
            r == JeitaVoltageFall::decoded(bits as int % 4),
    {
        match bits % 4 {
            0 => JeitaVoltageFall::Unchanged,
            1 => JeitaVoltageFall::OneGear,
            2 => JeitaVoltageFall::TwoGears,
            _ => JeitaVoltageFall::Unchanged,
        }
    }

    /// Every setting is told from its field value.
    pub proof fn round_trip(self)
        ensures
            JeitaVoltageFall::decoded(self.code() as int) == self,
    {
    }
}

/// JEITA CV configuration (REG 59h).
#[derive(Debug, Clone, Copy, PartialEq, Eq, Structural)]
pub struct JeitaCvConfig {
    /// Current reduction in warm zone (bit 6).
    pub warm_current: JeitaCurrentFall,
    /// Current reduction in cool zone (bit 4).
    pub cool_current: JeitaCurrentFall,
    /// Voltage reduction in warm zone (bits 3:2).
    pub warm_voltage: JeitaVoltageFall,
    /// Voltage reduction in cool zone (bits 1:0).
    pub cool_voltage: JeitaVoltageFall,
}

impl JeitaCvConfig {
    /// What a register value stands for.
    pub open spec fn decoded(r: u8) -> JeitaCvConfig {
        JeitaCvConfig {
            warm_current: JeitaCurrentFall::decoded(r as int / 64 % 2),
            cool_current: JeitaCurrentFall::decoded(r as int / 16 % 2),
            warm_voltage: JeitaVoltageFall::decoded(r as int / 4 % 4),
            cool_voltage: JeitaVoltageFall::decoded(r as int % 4),
        }
    }

    /// What a register value stands for.
    pub fn from_bits(r: u8) -> (s: JeitaCvConfig)
        ensures
            s == JeitaCvConfig::decoded(r),
    {
        JeitaCvConfig {
            warm_current: JeitaCurrentFall::from_bits((r / 64) % 2),
            cool_current: JeitaCurrentFall::from_bits((r / 16) % 2),
            warm_voltage: JeitaVoltageFall::from_bits((r / 4) % 4),
            cool_voltage: JeitaVoltageFall::from_bits(r % 4),
        }
    }

    /// The register value of the configuration.
    pub open spec fn code(self) -> u8 {
        (64 * self.warm_current.code()
            + 16 * self.cool_current.code()
            + 4 * self.warm_voltage.code()
            + self.cool_voltage.code()) as u8
    }

    /// The register value of the configuration.
    pub fn bits(&self) -> (r: u8)
        ensures
            r == self.code(),
    {
        64 * self.warm_current.bits()
            + 16 * self.cool_current.bits()
            + 4 * self.warm_voltage.bits()
            + self.cool_voltage.bits()
    }

    /// What was written is read back.
    pub proof fn round_trip(self)
        ensures
            JeitaCvConfig::decoded(self.code()) == self,
    {
    }
}

// ---- Charger timeout (REG 67h) ---------------------------------------------

/// Charge done safety timer duration (REG 67h bits 5:4).
#[derive(Debug, Clone, Copy, PartialEq, Eq, Structural)]
pub enum ChargeDoneTimeout {
    Hours5,
    Hours8,
    Hours12,
    Hours20,
}

impl ChargeDoneTimeout {
    /// The value of the register field.
    pub open spec fn code(self) -> u8 {
        match self {
            ChargeDoneTimeout::Hours5 => 0,
            ChargeDoneTimeout::Hours8 => 1,
            ChargeDoneTimeout::Hours12 => 2,
            ChargeDoneTimeout::Hours20 => 3,
        }
    }

    /// What a value of the register field stands for.
    pub open spec fn decoded(field: int) -> ChargeDoneTimeout {
        if field == 0 {
            ChargeDoneTimeout::Hours5
        } else if field == 1 {
            ChargeDoneTimeout::Hours8
        } else if field == 2 {
            ChargeDoneTimeout::Hours12
        } else {
            ChargeDoneTimeout::Hours20
        }
    }

    /// The value of the register field.
    pub fn bits(self) -> (r: u8)
        ensures
            r == self.code(),
    {
        match self {
            ChargeDoneTimeout::Hours5 => 0,
            ChargeDoneTimeout::Hours8 => 1,
            ChargeDoneTimeout::Hours12 => 2,
            ChargeDoneTimeout::Hours20 => 3,
        }
    }

    /// What a value of the register field stands for; higher bits are ignored.
    pub fn from_bits(bits: u8) -> (r: ChargeDoneTimeout)
        ensures
            r == ChargeDoneTimeout::decoded(bits as int % 4),
    {
        match bits % 4 {
            0 => ChargeDoneTimeout::Hours5,
            1 => ChargeDoneTimeout::Hours8,
            2 => ChargeDoneTimeout::Hours12,
            _ => ChargeDoneTimeout::Hours20,
        }
    }

    /// Every setting is told from its field value.
    pub proof fn round_trip(self)
        ensures
            ChargeDoneTimeout::decoded(self.code() as int) == self,
    {
    }
}

/// Pre-charge safety timer duration (REG 67h bits 1:0).
#[derive(Debug, Clone, Copy, PartialEq, Eq, Structural)]
pub enum PreChargeTimeout {
    Mins40,
    Mins50,
    Mins60,
    Mins70,
}

impl PreChargeTimeout {
    /// The value of the register field.
    pub open spec fn code(self) -> u8 {
        match self {
            PreChargeTimeout::Mins40 => 0,
            PreChargeTimeout::Mins50 => 1,
            PreChargeTimeout::Mins60 => 2,
            PreChargeTimeout::Mins70 => 3,
        }
    }

    /// What a value of the register field stands for.
    pub open spec fn decoded(field: int) -> PreChargeTimeout {
        if field == 0 {
            PreChargeTimeout::Mins40
        } else if field == 1 {
            PreChargeTimeout::Mins50
        } else if field == 2 {
            PreChargeTimeout::Mins60
        } else {
            PreChargeTimeout::Mins70
        }
    }

    /// The value of the register field.
    pub fn bits(self) -> (r: u8)
        ensures
            r == self.code(),
    {
        match self {
            PreChargeTimeout::Mins40 => 0,
            PreChargeTimeout::Mins50 => 1,
            PreChargeTimeout::Mins60 => 2,
            PreChargeTimeout::Mins70 => 3,
        }
    }

    /// What a value of the register field stands for; higher bits are ignored.
    pub fn from_bits(bits: u8) -> (r: PreChargeTimeout)
        ensures
            r == PreChargeTimeout::decoded(bits as int % 4),
    {
        match bits % 4 {
            0 => PreChargeTimeout::Mins40,
            1 => PreChargeTimeout::Mins50,
            2 => PreChargeTimeout::Mins60,
            _ => PreChargeTimeout::Mins70,
        }
    }

    /// Every setting is told from its field value.
    pub proof fn round_trip(self)
        ensures
            PreChargeTimeout::decoded(self.code() as int) == self,
    {
    }
}

/// Charger timeout configuration (REG 67h).
///
/// Bit layout:
///   7    Safety timer slowed during DPM/thermal regulation
///   6    Charge done safety timer enable
///   5:4  Charge done safety timer duration
///   3    reserved
///   2    Pre-charge safety timer enable
///   1:0  Pre-charge safety timer duration
#[derive(Debug, Clone, Copy, PartialEq, Eq, Structural)]
pub struct ChargerTimeout {
    /// Slow safety timer during input DPM or thermal regulation (bit 7).
    pub slow_during_dpm: bool,
    /// Charge done safety timer enable (bit 6).
    pub done_timer_en: bool,
    /// Charge done safety timer duration (bits 5:4).
    pub done_timeout: ChargeDoneTimeout,
    /// Pre-charge safety timer enable (bit 2).
    pub precharge_timer_en: bool,
    /// Pre-charge safety timer duration (bits 1:0).
    pub precharge_timeout: PreChargeTimeout,
}

impl ChargerTimeout {
    /// What a register value stands for.
    pub open spec fn decoded(r: u8) -> ChargerTimeout {
        ChargerTimeout {
            slow_during_dpm: bit(r, 128),
            done_timer_en: bit(r, 64),
            done_timeout: ChargeDoneTimeout::decoded(r as int / 16 % 4),
            precharge_timer_en: bit(r, 4),
            precharge_timeout: PreChargeTimeout::decoded(r as int % 4),
        }
    }

    /// What a register value stands for.
    pub fn from_bits(r: u8) -> (s: ChargerTimeout)
        ensures
            s == ChargerTimeout::decoded(r),
    {
        ChargerTimeout {
            slow_during_dpm: has(r, 128),
            done_timer_en: has(r, 64),
            done_timeout: ChargeDoneTimeout::from_bits((r / 16) % 4),
            precharge_timer_en: has(r, 4),
            precharge_timeout: PreChargeTimeout::from_bits(r % 4),
        }
    }

    /// The register value of the configuration.
    pub open spec fn code(self) -> u8 {
        (flag(self.slow_during_dpm, 128)
            + flag(self.done_timer_en, 64)
            + 16 * self.done_timeout.code()
            + flag(self.precharge_timer_en, 4)
            + self.precharge_timeout.code()) as u8
    }

    /// The register value of the configuration.
    pub fn bits(&self) -> (r: u8)
        ensures
            r == self.code(),
    {
        flagged(self.slow_during_dpm, 128)
            + flagged(self.done_timer_en, 64)
            + 16 * self.done_timeout.bits()
            + flagged(self.precharge_timer_en, 4)
            + self.precharge_timeout.bits()
    }

    /// What was written is read back.
    pub proof fn round_trip(self)
        ensures
            ChargerTimeout::decoded(self.code()) == self,
    {
    }
}

// ---- CHGLED (REG 69h) ------------------------------------------------------

/// CHGLED output mode when controlled by register (REG 69h bits 5:4).
#[derive(Debug, Clone, Copy, PartialEq, Eq, Structural)]
pub enum ChgLedOutput {
    /// High-impedance.
    HiZ,
    /// Low/HiZ 25%/75% duty, 1 Hz.
    Blink1Hz,
    /// Low/HiZ 25%/75% duty, 4 Hz.
    Blink4Hz,
    /// Drive low.
    Low,
}

impl ChgLedOutput {
    /// The value of the register field.
    pub open spec fn code(self) -> u8 {
        match self {
            ChgLedOutput::HiZ => 0,
            ChgLedOutput::Blink1Hz => 1,
            ChgLedOutput::Blink4Hz => 2,
            ChgLedOutput::Low => 3,
        }
    }

    /// What a value of the register field stands for.
    pub open spec fn decoded(field: int) -> ChgLedOutput {
        if field == 0 {
            ChgLedOutput::HiZ
        } else if field == 1 {
            ChgLedOutput::Blink1Hz
        } else if field == 2 {
            ChgLedOutput::Blink4Hz
        } else {
            ChgLedOutput::Low
        }
    }

    /// The value of the register field.
    pub fn bits(self) -> (r: u8)
        ensures
            r == self.code(),
    {
        match self {
            ChgLedOutput::HiZ => 0,
            ChgLedOutput::Blink1Hz => 1,
            ChgLedOutput::Blink4Hz => 2,
            ChgLedOutput::Low => 3,
        }
    }

    /// What a value of the register field stands for; higher bits are ignored.
    pub fn from_bits(bits: u8) -> (r: ChgLedOutput)
        ensures
            r == ChgLedOutput::decoded(bits as int % 4),
    {
        match bits % 4 {
            0 => ChgLedOutput::HiZ,
            1 => ChgLedOutput::Blink1Hz,
            2 => ChgLedOutput::Blink4Hz,
            _ => ChgLedOutput::Low,
        }
    }

    /// Every setting is told from its field value.
    pub proof fn round_trip(self)
        ensures
            ChgLedOutput::decoded(self.code() as int) == self,
    {
    }
}

/// CHGLED display function (REG 69h bits 2:1).
#[derive(Debug, Clone, Copy, PartialEq, Eq, Structural)]
pub enum ChgLedFunction {
    /// Type A display function.
    TypeA,
    /// Type B display function.
    TypeB,
    /// Output controlled by register (chgled_out_ctrl).
    Manual,
}

impl ChgLedFunction {
    /// The value of the register field.
    pub open spec fn code(self) -> u8 {
        match self {
            ChgLedFunction::TypeA => 0,
            ChgLedFunction::TypeB => 1,
            ChgLedFunction::Manual => 2,
        }
    }

    /// What a value of the register field stands for.
    pub open spec fn decoded(field: int) -> ChgLedFunction {
        if field == 0 {
            ChgLedFunction::TypeA
        } else if field == 1 {
            ChgLedFunction::TypeB
        } else {
            ChgLedFunction::Manual
        }
    }

    /// The value of the register field.
    pub fn bits(self) -> (r: u8)
        ensures
            r == self.code(),
    {
        match self {
            ChgLedFunction::TypeA => 0,
            ChgLedFunction::TypeB => 1,
            ChgLedFunction::Manual => 2,
        }
    }

    /// What a value of the register field stands for; higher bits are ignored.
    pub fn from_bits(bits: u8) -> (r: ChgLedFunction)
        ensures
            r == ChgLedFunction::decoded(bits as int % 4),
    {
        match bits % 4 {
            0 => ChgLedFunction::TypeA,
            1 => ChgLedFunction::TypeB,
            _ => ChgLedFunction::Manual,
        }
    }

    /// Every setting is told from its field value.
    pub proof fn round_trip(self)
        ensures
            ChgLedFunction::decoded(self.code() as int) == self,
    {
    }
}

/// CHGLED configuration (REG 69h).
#[derive(Debug, Clone, Copy, PartialEq, Eq, Structural)]
pub struct ChgLedConfig {
    /// Manual output mode when function is Manual (bits 5:4).
    pub output: ChgLedOutput,
    /// Display function selection (bits 2:1).
    pub function: ChgLedFunction,
    /// CHGLED pin enable (bit 0).
    pub enabled: bool,
}

impl ChgLedConfig {
    /// What a register value stands for.
    pub open spec fn decoded(r: u8) -> ChgLedConfig {
        ChgLedConfig {
            output: ChgLedOutput::decoded(r as int / 16 % 4),
            function: ChgLedFunction::decoded(r as int / 2 % 4),
            enabled: bit(r, 1),
        }
    }

    /// What a register value stands for.
    pub fn from_bits(r: u8) -> (s: ChgLedConfig)
        ensures
            s == ChgLedConfig::decoded(r),
    {
        ChgLedConfig {
            output: ChgLedOutput::from_bits((r / 16) % 4),
            function: ChgLedFunction::from_bits((r / 2) % 4),
            enabled: has(r, 1),
        }
    }

    /// The register value of the configuration.
    pub open spec fn code(self) -> u8 {
        (16 * self.output.code()
            + 2 * self.function.code()
            + flag(self.enabled, 1)) as u8
    }

    /// The register value of the configuration.
    pub fn bits(&self) -> (r: u8)
        ensures
            r == self.code(),
    {
        16 * self.output.bits()
            + 2 * self.function.bits()
            + flagged(self.enabled, 1)
    }

    /// What was written is read back.
    pub proof fn round_trip(self)
        ensures
            ChgLedConfig::decoded(self.code()) == self,
    {
    }
}

// ---- DCDC force PWM (REG 81h) ----------------------------------------------

/// DCDC UVP debounce time (REG 81h bits 1:0).
#[derive(Debug, Clone, Copy, PartialEq, Eq, Structural)]
pub enum DcdcUvpDebounce {
    Us60,
    Us120,
    Us180,
    Us240,
}

impl DcdcUvpDebounce {
    /// The value of the register field.
    pub open spec fn code(self) -> u8 {
        match self {
            DcdcUvpDebounce::Us60 => 0,
            DcdcUvpDebounce::Us120 => 1,
            DcdcUvpDebounce::Us180 => 2,
            DcdcUvpDebounce::Us240 => 3,
        }
    }

    /// What a value of the register field stands for.
    pub open spec fn decoded(field: int) -> DcdcUvpDebounce {
        if field == 0 {
            DcdcUvpDebounce::Us60
        } else if field == 1 {
            DcdcUvpDebounce::Us120
        } else if field == 2 {
            DcdcUvpDebounce::Us180
        } else {
            DcdcUvpDebounce::Us240
        }
    }

    /// The value of the register field.
    pub fn bits(self) -> (r: u8)
        ensures
            r == self.code(),
    {
        match self {
            DcdcUvpDebounce::Us60 => 0,
            DcdcUvpDebounce::Us120 => 1,
            DcdcUvpDebounce::Us180 => 2,
            DcdcUvpDebounce::Us240 => 3,
        }
    }

    /// What a value of the register field stands for; higher bits are ignored.
    pub fn from_bits(bits: u8) -> (r: DcdcUvpDebounce)
        ensures
            r == DcdcUvpDebounce::decoded(bits as int % 4),
    {
        match bits % 4 {
            0 => DcdcUvpDebounce::Us60,
            1 => DcdcUvpDebounce::Us120,
            2 => DcdcUvpDebounce::Us180,
            _ => DcdcUvpDebounce::Us240,
        }
    }

    /// Every setting is told from its field value.
    pub proof fn round_trip(self)
        ensures
            DcdcUvpDebounce::decoded(self.code() as int) == self,
    {
    }
}

/// DCDC PWM/PFM and frequency spread configuration (REG 81h).
///
/// Bit layout:
///   7    Frequency spread enable
///   6    Frequency spread range: 0=50kHz, 1=100kHz
///   5    DCDC4 force PWM (0=auto, 1=always PWM)
///   4    DCDC3 force PWM
///   3    DCDC2 force PWM
///   2    DCDC1 force PWM
///   1:0  UVP debounce time
#[derive(Debug, Clone, Copy, PartialEq, Eq, Structural)]
pub struct DcdcPwmConfig {
    /// Frequency spread spectrum enable (bit 7).
    pub freq_spread_en: bool,
    /// Frequency spread range: false=50kHz, true=100kHz (bit 6).
    pub freq_spread_100k: bool,
    /// Force DCDC4 to always-PWM mode (bit 5).
    pub dcdc4_force_pwm: bool,
    /// Force DCDC3 to always-PWM mode (bit 4).
    pub dcdc3_force_pwm: bool,
    /// Force DCDC2 to always-PWM mode (bit 3).
    pub dcdc2_force_pwm: bool,
    /// Force DCDC1 to always-PWM mode (bit 2).
    pub dcdc1_force_pwm: bool,
    /// UVP debounce time (bits 1:0).
    pub uvp_debounce: DcdcUvpDebounce,
}

impl DcdcPwmConfig {
    /// What a register value stands for.
    pub open spec fn decoded(r: u8) -> DcdcPwmConfig {
        DcdcPwmConfig {
            freq_spread_en: bit(r, 128),
            freq_spread_100k: bit(r, 64),
            dcdc4_force_pwm: bit(r, 32),
            dcdc3_force_pwm: bit(r, 16),
            dcdc2_force_pwm: bit(r, 8),
            dcdc1_force_pwm: bit(r, 4),
            uvp_debounce: DcdcUvpDebounce::decoded(r as int % 4),
        }
    }

    /// What a register value stands for.
    pub fn from_bits(r: u8) -> (s: DcdcPwmConfig)
        ensures
            s == DcdcPwmConfig::decoded(r),
    {
        DcdcPwmConfig {
            freq_spread_en: has(r, 128),
            freq_spread_100k: has(r, 64),
            dcdc4_force_pwm: has(r, 32),
            dcdc3_force_pwm: has(r, 16),
            dcdc2_force_pwm: has(r, 8),
            dcdc1_force_pwm: has(r, 4),
            uvp_debounce: DcdcUvpDebounce::from_bits(r % 4),
        }
    }

    /// The register value of the configuration.
    pub open spec fn code(self) -> u8 {
        (flag(self.freq_spread_en, 128)
            + flag(self.freq_spread_100k, 64)
            + flag(self.dcdc4_force_pwm, 32)
            + flag(self.dcdc3_force_pwm, 16)
            + flag(self.dcdc2_force_pwm, 8)
            + flag(self.dcdc1_force_pwm, 4)
            + self.uvp_debounce.code()) as u8
    }

    /// The register value of the configuration.
    pub fn bits(&self) -> (r: u8)
        ensures
            r == self.code(),
    {
        flagged(self.freq_spread_en, 128)
            + flagged(self.freq_spread_100k, 64)
            + flagged(self.dcdc4_force_pwm, 32)
            + flagged(self.dcdc3_force_pwm, 16)
            + flagged(self.dcdc2_force_pwm, 8)
            + flagged(self.dcdc1_force_pwm, 4)
            + self.uvp_debounce.bits()
    }

    /// What was written is read back.
    pub proof fn round_trip(self)
        ensures
            DcdcPwmConfig::decoded(self.code()) == self,
    {
    }
}

// ---- Fast power-on sequence (REG 28h-2Bh) ----------------------------------

/// Fast power-on start sequence code for a single rail. 00-10 = sequence
/// step, 11 = disabled.
#[derive(Debug, Clone, Copy, PartialEq, Eq, Structural)]
pub enum FastPwronSeq {
    Step0,
    Step1,
    Step2,
    Disabled,
}

impl FastPwronSeq {
    /// The value of the register field.
    pub open spec fn code(self) -> u8 {
        match self {
            FastPwronSeq::Step0 => 0,
            FastPwronSeq::Step1 => 1,
            FastPwronSeq::Step2 => 2,
            FastPwronSeq::Disabled => 3,
        }
    }

    /// What a value of the register field stands for.
    pub open spec fn decoded(field: int) -> FastPwronSeq {
        if field == 0 {
            FastPwronSeq::Step0
        } else if field == 1 {
            FastPwronSeq::Step1
        } else if field == 2 {
            FastPwronSeq::Step2
        } else {
            FastPwronSeq::Disabled
        }
    }

    /// The value of the register field.
    pub fn bits(self) -> (r: u8)
        ensures
            r == self.code(),
    {
        match self {
            FastPwronSeq::Step0 => 0,
            FastPwronSeq::Step1 => 1,
            FastPwronSeq::Step2 => 2,
            FastPwronSeq::Disabled => 3,
        }
    }

    /// What a value of the register field stands for; higher bits are ignored.
    pub fn from_bits(bits: u8) -> (r: FastPwronSeq)
        ensures
            r == FastPwronSeq::decoded(bits as int % 4),
    {
        match bits % 4 {
            0 => FastPwronSeq::Step0,
            1 => FastPwronSeq::Step1,
            2 => FastPwronSeq::Step2,
            _ => FastPwronSeq::Disabled,
        }
    }

    /// Every setting is told from its field value.
    pub proof fn round_trip(self)
        ensures
            FastPwronSeq::decoded(self.code() as int) == self,
    {
    }
}

} // verus!
