//! The power chip's settings and states, by the numbers of its registers.

use vstd::prelude::*;
use crate::pmu::types::{
    ChargeCurrent, ChargeDoneTimeout, ChargeVoltage, ChargerPhase, ChargerTimeout, ChgLedConfig,
    ChgLedFunction, ChgLedOutput, CurrentDirection, DcdcProtection, DcdcPwmConfig, DcdcUvpDebounce,
    DieOtpLevel, FastPwronSeq, Gpio1Output, InputCurrentLimit, JeitaCurrentFall, JeitaCvConfig,
    JeitaVoltageFall, LowBatteryWarning, PmuStatus1, PmuStatus2, PowerKeyConfig, PowerKeyIrqTime,
    PowerKeyOffTime, PowerKeyOnTime, PowerOffEnable, PowerOffStatus, PowerOffVoltage, PowerOnStatus,
    PreChargeCurrent, PreChargeTimeout, PwrokConfig, PwrokDelay, SleepWakeConfig,
    TerminationCurrent, ThermalThreshold, TsCurrentMode, TsCurrentValue, TsPinConfig, TsPinFunction,
    WatchdogAction, WatchdogConfig, WatchdogTimeout,
};

verus! {

/// The bits of a byte put together from them.
proof fn eight_bits(b7: int, b6: int, b5: int, b4: int, b3: int, b2: int, low: int)
    requires
        0 <= b7 <= 1 && 0 <= b6 <= 1 && 0 <= b5 <= 1 && 0 <= b4 <= 1 && 0 <= b3 <= 1 && 0 <= b2 <= 1,
        0 <= low < 4,
    ensures
        ({
            let c = 128 * b7 + 64 * b6 + 32 * b5 + 16 * b4 + 8 * b3 + 4 * b2 + low;
            &&& 0 <= c < 256
            &&& c / 128 % 2 == b7
            &&& c / 64 % 2 == b6
            &&& c / 32 % 2 == b5
            &&& c / 16 % 2 == b4
            &&& c / 16 % 4 == 2 * b5 + b4
            &&& c / 8 % 2 == b3
            &&& c / 4 % 2 == b2
            &&& c % 4 == low
        }),
{
    let c = 128 * b7 + 64 * b6 + 32 * b5 + 16 * b4 + 8 * b3 + 4 * b2 + low;
    assert(c / 128 == b7);
    assert(c / 64 == 2 * b7 + b6);
    assert(c / 32 == 4 * b7 + 2 * b6 + b5);
    assert(c / 16 == 8 * b7 + 4 * b6 + 2 * b5 + b4);
    assert(c / 8 == 16 * b7 + 8 * b6 + 4 * b5 + 2 * b4 + b3);
    assert(c / 4 == 32 * b7 + 16 * b6 + 8 * b5 + 4 * b4 + 2 * b3 + b2);
}

/// The field values of a [`CurrentDirection`].
pub proof fn current_direction_by_number(x: CurrentDirection, field: int)
    ensures
        (x is Standby) == (x.code() == 0),
        (x is Charging) == (x.code() == 1),
        (x is Discharging) == (x.code() == 2),
        (CurrentDirection::decoded(field) is Standby) == !(field == 1 || field == 2),
        (CurrentDirection::decoded(field) is Charging) == (field == 1),
        (CurrentDirection::decoded(field) is Discharging) == (field == 2),
{
}

/// The field values of a [`ChargerPhase`].
pub proof fn charger_phase_by_number(x: ChargerPhase, field: int)
    ensures
        (x is TriCharge) == (x.code() == 0),
        (x is PreCharge) == (x.code() == 1),
        (x is ConstantCurrent) == (x.code() == 2),
        (x is ConstantVoltage) == (x.code() == 3),
        (x is Done) == (x.code() == 4),
        (x is NotCharging) == (x.code() == 5),
        (ChargerPhase::decoded(field) is TriCharge) == (field == 0),
        (ChargerPhase::decoded(field) is PreCharge) == (field == 1),
        (ChargerPhase::decoded(field) is ConstantCurrent) == (field == 2),
        (ChargerPhase::decoded(field) is ConstantVoltage) == (field == 3),
        (ChargerPhase::decoded(field) is Done) == (field == 4),
        (ChargerPhase::decoded(field) is NotCharging) == !(field == 0 || field == 1 || field == 2 || field == 3 || field == 4),
{
}

/// The setting in mA.
pub open spec fn input_current_limit_ma(x: InputCurrentLimit) -> int {
    match x {
        InputCurrentLimit::Ma100 => 100,
        InputCurrentLimit::Ma500 => 500,
        InputCurrentLimit::Ma900 => 900,
        InputCurrentLimit::Ma1000 => 1000,
        InputCurrentLimit::Ma1500 => 1500,
        InputCurrentLimit::Ma2000 => 2000,
    }
}

/// What a field value stands for, in mA.
pub open spec fn input_current_limit_field(field: int) -> int {
    if field == 0 {
        100
    } else if field == 1 {
        500
    } else if field == 2 {
        900
    } else if field == 3 {
        1000
    } else if field == 4 {
        1500
    } else if field == 5 {
        2000
    } else {
        2000
    }
}

/// Each [`InputCurrentLimit`] is written as the field value that stands for its mA, and read from it.
pub proof fn input_current_limit_by_number(x: InputCurrentLimit, y: InputCurrentLimit, field: int)
    ensures
        0 <= x.code() <= 5,
        input_current_limit_ma(x) < input_current_limit_ma(y) ==> x.code() < y.code(),
        input_current_limit_field(x.code() as int) == input_current_limit_ma(x),
        field >= 0 ==> input_current_limit_ma(InputCurrentLimit::decoded(field)) == input_current_limit_field(field),
{
}

/// The setting in mV.
pub open spec fn charge_voltage_mv(x: ChargeVoltage) -> int {
    match x {
        ChargeVoltage::V4_0 => 4000,
        ChargeVoltage::V4_1 => 4100,
        ChargeVoltage::V4_2 => 4200,
        ChargeVoltage::V4_35 => 4350,
        ChargeVoltage::V4_4 => 4400,
    }
}

/// What a field value stands for, in mV; -1 for a reserved one.
pub open spec fn charge_voltage_field(field: int) -> int {
    if field == 1 {
        4000
    } else if field == 2 {
        4100
    } else if field == 3 {
        4200
    } else if field == 4 {
        4350
    } else if field == 5 {
        4400
    } else {
        -1
    }
}

/// Each [`ChargeVoltage`] is written as the field value that stands for its mV, and read from it.
pub proof fn charge_voltage_by_number(x: ChargeVoltage, y: ChargeVoltage, field: int)
    ensures
        1 <= x.code() <= 5,
        charge_voltage_mv(x) < charge_voltage_mv(y) ==> x.code() < y.code(),
        charge_voltage_field(x.code() as int) == charge_voltage_mv(x),
        ChargeVoltage::decoded(field) matches Some(z) ==> charge_voltage_mv(z) == charge_voltage_field(field),
        ChargeVoltage::decoded(field) is None <==> charge_voltage_field(field) == -1,
{
}

/// The setting in degrees Celsius.
pub open spec fn thermal_threshold_degrees(x: ThermalThreshold) -> int {
    match x {
        ThermalThreshold::C60 => 60,
        ThermalThreshold::C80 => 80,
        ThermalThreshold::C100 => 100,
        ThermalThreshold::C120 => 120,
    }
}

/// Field value `n` of a [`ThermalThreshold`] is 60 + 20 n degrees.
pub proof fn thermal_threshold_by_number(x: ThermalThreshold, field: int)
    ensures
        x.code() <= 3,
        thermal_threshold_degrees(x) == 60 + 20 * x.code(),
        0 <= field <= 3 ==> thermal_threshold_degrees(ThermalThreshold::decoded(field)) == 60 + 20 * field,
{
}

/// The setting in ms.
pub open spec fn power_key_irq_time_ms(x: PowerKeyIrqTime) -> int {
    match x {
        PowerKeyIrqTime::Ms1000 => 1000,
        PowerKeyIrqTime::Ms1500 => 1500,
        PowerKeyIrqTime::Ms2000 => 2000,
        PowerKeyIrqTime::Ms2500 => 2500,
    }
}

/// Field value `n` of a [`PowerKeyIrqTime`] is 1000 + 500 n ms.
pub proof fn power_key_irq_time_by_number(x: PowerKeyIrqTime, field: int)
    ensures
        x.code() <= 3,
        power_key_irq_time_ms(x) == 1000 + 500 * x.code(),
        0 <= field <= 3 ==> power_key_irq_time_ms(PowerKeyIrqTime::decoded(field)) == 1000 + 500 * field,
{
}

/// The setting in seconds.
pub open spec fn power_key_off_time_s(x: PowerKeyOffTime) -> int {
    match x {
        PowerKeyOffTime::S4 => 4,
        PowerKeyOffTime::S6 => 6,
        PowerKeyOffTime::S8 => 8,
        PowerKeyOffTime::S10 => 10,
    }
}

/// Field value `n` of a [`PowerKeyOffTime`] is 4 + 2 n s.
pub proof fn power_key_off_time_by_number(x: PowerKeyOffTime, field: int)
    ensures
        x.code() <= 3,
        power_key_off_time_s(x) == 4 + 2 * x.code(),
        0 <= field <= 3 ==> power_key_off_time_s(PowerKeyOffTime::decoded(field)) == 4 + 2 * field,
{
}

/// The setting in ms.
pub open spec fn power_key_on_time_ms(x: PowerKeyOnTime) -> int {
    match x {
        PowerKeyOnTime::Ms128 => 128,
        PowerKeyOnTime::Ms512 => 512,
        PowerKeyOnTime::Ms1000 => 1000,
        PowerKeyOnTime::Ms2000 => 2000,
    }
}

/// What a field value stands for, in ms.
pub open spec fn power_key_on_time_field(field: int) -> int {
    if field == 0 {
        128
    } else if field == 1 {
        512
    } else if field == 2 {
        1000
    } else if field == 3 {
        2000
    } else {
        2000
    }
}

/// Each [`PowerKeyOnTime`] is written as the field value that stands for its ms, and read from it.
pub proof fn power_key_on_time_by_number(x: PowerKeyOnTime, y: PowerKeyOnTime, field: int)
    ensures
        0 <= x.code() <= 3,
        power_key_on_time_ms(x) < power_key_on_time_ms(y) ==> x.code() < y.code(),
        power_key_on_time_field(x.code() as int) == power_key_on_time_ms(x),
        field >= 0 ==> power_key_on_time_ms(PowerKeyOnTime::decoded(field)) == power_key_on_time_field(field),
{
}

/// The setting in seconds.
pub open spec fn watchdog_timeout_s(x: WatchdogTimeout) -> int {
    match x {
        WatchdogTimeout::S1 => 1,
        WatchdogTimeout::S2 => 2,
        WatchdogTimeout::S4 => 4,
        WatchdogTimeout::S8 => 8,
        WatchdogTimeout::S16 => 16,
        WatchdogTimeout::S32 => 32,
        WatchdogTimeout::S64 => 64,
        WatchdogTimeout::S128 => 128,
    }
}

/// Field value 0 of a [`WatchdogTimeout`] is 1 s, and each one further twice as long.
pub proof fn watchdog_timeout_by_number(x: WatchdogTimeout, field: int)
    ensures
        x.code() <= 7,
        x.code() == 0 <==> watchdog_timeout_s(x) == 1,
        WatchdogTimeout::decoded(0) == WatchdogTimeout::S1,
        0 <= field < 7 ==> watchdog_timeout_s(WatchdogTimeout::decoded(field + 1)) == 2 * watchdog_timeout_s(WatchdogTimeout::decoded(field)),
        WatchdogTimeout::decoded(x.code() as int) == x,
{
}

/// The field values of a [`WatchdogAction`].
pub proof fn watchdog_action_by_number(x: WatchdogAction, field: int)
    ensures
        (x is Irq) == (x.code() == 0),
        (x is IrqThenReset) == (x.code() == 1),
        (x is Reset) == (x.code() == 2),
        (x is ResetPwrok) == (x.code() == 3),
        (WatchdogAction::decoded(field) is Irq) == (field == 0),
        (WatchdogAction::decoded(field) is IrqThenReset) == (field == 1),
        (WatchdogAction::decoded(field) is Reset) == (field == 2),
        (WatchdogAction::decoded(field) is ResetPwrok) == !(field == 0 || field == 1 || field == 2),
{
}

/// The setting in degrees Celsius.
pub open spec fn die_otp_level_degrees(x: DieOtpLevel) -> int {
    match x {
        DieOtpLevel::C115 => 115,
        DieOtpLevel::C125 => 125,
        DieOtpLevel::C135 => 135,
    }
}

/// Field value `n` of a [`DieOtpLevel`] is 115 + 10 n degrees.
pub proof fn die_otp_level_by_number(x: DieOtpLevel, field: int)
    ensures
        x.code() <= 2,
        die_otp_level_degrees(x) == 115 + 10 * x.code(),
        0 <= field <= 2 ==> die_otp_level_degrees(DieOtpLevel::decoded(field)) == 115 + 10 * field,
{
}

/// The field values of a [`Gpio1Output`].
pub proof fn gpio1_output_by_number(x: Gpio1Output, field: int)
    ensures
        (x is HiZ) == (x.code() == 0),
        (x is Low) == (x.code() == 1),
        (Gpio1Output::decoded(field) is HiZ) == !(field == 1),
        (Gpio1Output::decoded(field) is Low) == (field == 1),
{
}

/// The setting in ms.
pub open spec fn pwrok_delay_ms(x: PwrokDelay) -> int {
    match x {
        PwrokDelay::Ms8 => 8,
        PwrokDelay::Ms16 => 16,
        PwrokDelay::Ms32 => 32,
        PwrokDelay::Ms64 => 64,
    }
}

/// Field value 0 of a [`PwrokDelay`] is 8 ms, and each one further twice as long.
pub proof fn pwrok_delay_by_number(x: PwrokDelay, field: int)
    ensures
        x.code() <= 3,
        x.code() == 0 <==> pwrok_delay_ms(x) == 8,
        PwrokDelay::decoded(0) == PwrokDelay::Ms8,
        0 <= field < 3 ==> pwrok_delay_ms(PwrokDelay::decoded(field + 1)) == 2 * pwrok_delay_ms(PwrokDelay::decoded(field)),
        PwrokDelay::decoded(x.code() as int) == x,
{
}

/// The field values of a [`TsPinFunction`].
pub proof fn ts_pin_function_by_number(x: TsPinFunction, field: int)
    ensures
        (x is BatteryTemp) == (x.code() == 0),
        (x is ExternalInput) == (x.code() == 1),
        (TsPinFunction::decoded(field) is BatteryTemp) == (field == 0),
        (TsPinFunction::decoded(field) is ExternalInput) == !(field == 0),
{
}

/// The field values of a [`TsCurrentMode`].
pub proof fn ts_current_mode_by_number(x: TsCurrentMode, field: int)
    ensures
        (x is Off) == (x.code() == 0),
        (x is OnWhenAdcEnabled) == (x.code() == 1),
        (x is OnDuringTsSample) == (x.code() == 2),
        (x is AlwaysOn) == (x.code() == 3),
        (TsCurrentMode::decoded(field) is Off) == (field == 0),
        (TsCurrentMode::decoded(field) is OnWhenAdcEnabled) == (field == 1),
        (TsCurrentMode::decoded(field) is OnDuringTsSample) == (field == 2),
        (TsCurrentMode::decoded(field) is AlwaysOn) == !(field == 0 || field == 1 || field == 2),
{
}

/// The setting in uA.
pub open spec fn ts_current_value_ua(x: TsCurrentValue) -> int {
    match x {
        TsCurrentValue::Ua20 => 20,
        TsCurrentValue::Ua40 => 40,
        TsCurrentValue::Ua50 => 50,
        TsCurrentValue::Ua60 => 60,
    }
}

/// What a field value stands for, in uA.
pub open spec fn ts_current_value_field(field: int) -> int {
    if field == 0 {
        20
    } else if field == 1 {
        40
    } else if field == 2 {
        50
    } else if field == 3 {
        60
    } else {
        60
    }
}

/// Each [`TsCurrentValue`] is written as the field value that stands for its uA, and read from it.
pub proof fn ts_current_value_by_number(x: TsCurrentValue, y: TsCurrentValue, field: int)
    ensures
        0 <= x.code() <= 3,
        ts_current_value_ua(x) < ts_current_value_ua(y) ==> x.code() < y.code(),
        ts_current_value_field(x.code() as int) == ts_current_value_ua(x),
        field >= 0 ==> ts_current_value_ua(TsCurrentValue::decoded(field)) == ts_current_value_field(field),
{
}

/// The field values of a [`JeitaCurrentFall`].
pub proof fn jeita_current_fall_by_number(x: JeitaCurrentFall, field: int)
    ensures
        (x is Full) == (x.code() == 0),
        (x is Half) == (x.code() == 1),
        (JeitaCurrentFall::decoded(field) is Full) == (field == 0),
        (JeitaCurrentFall::decoded(field) is Half) == !(field == 0),
{
}

/// The field values of a [`JeitaVoltageFall`].
pub proof fn jeita_voltage_fall_by_number(x: JeitaVoltageFall, field: int)
    ensures
        (x is Unchanged) == (x.code() == 0),
        (x is OneGear) == (x.code() == 1),
        (x is TwoGears) == (x.code() == 2),
        (JeitaVoltageFall::decoded(field) is Unchanged) == !(field == 1 || field == 2),
        (JeitaVoltageFall::decoded(field) is OneGear) == (field == 1),
        (JeitaVoltageFall::decoded(field) is TwoGears) == (field == 2),
{
}

/// The setting in hours.
pub open spec fn charge_done_timeout_hours(x: ChargeDoneTimeout) -> int {
    match x {
        ChargeDoneTimeout::Hours5 => 5,
        ChargeDoneTimeout::Hours8 => 8,
        ChargeDoneTimeout::Hours12 => 12,
        ChargeDoneTimeout::Hours20 => 20,
    }
}

/// What a field value stands for, in hours.
pub open spec fn charge_done_timeout_field(field: int) -> int {
    if field == 0 {
        5
    } else if field == 1 {
        8
    } else if field == 2 {
        12
    } else if field == 3 {
        20
    } else {
        20
    }
}

/// Each [`ChargeDoneTimeout`] is written as the field value that stands for its hours, and read from it.
pub proof fn charge_done_timeout_by_number(x: ChargeDoneTimeout, y: ChargeDoneTimeout, field: int)
    ensures
        0 <= x.code() <= 3,
        charge_done_timeout_hours(x) < charge_done_timeout_hours(y) ==> x.code() < y.code(),
        charge_done_timeout_field(x.code() as int) == charge_done_timeout_hours(x),
        field >= 0 ==> charge_done_timeout_hours(ChargeDoneTimeout::decoded(field)) == charge_done_timeout_field(field),
{
}

/// The setting in minutes.
pub open spec fn pre_charge_timeout_min(x: PreChargeTimeout) -> int {
    match x {
        PreChargeTimeout::Mins40 => 40,
        PreChargeTimeout::Mins50 => 50,
        PreChargeTimeout::Mins60 => 60,
        PreChargeTimeout::Mins70 => 70,
    }
}

/// Field value `n` of a [`PreChargeTimeout`] is 40 + 10 n min.
pub proof fn pre_charge_timeout_by_number(x: PreChargeTimeout, field: int)
    ensures
        x.code() <= 3,
        pre_charge_timeout_min(x) == 40 + 10 * x.code(),
        0 <= field <= 3 ==> pre_charge_timeout_min(PreChargeTimeout::decoded(field)) == 40 + 10 * field,
{
}

/// The field values of a [`ChgLedOutput`].
pub proof fn chg_led_output_by_number(x: ChgLedOutput, field: int)
    ensures
        (x is HiZ) == (x.code() == 0),
        (x is Blink1Hz) == (x.code() == 1),
        (x is Blink4Hz) == (x.code() == 2),
        (x is Low) == (x.code() == 3),
        (ChgLedOutput::decoded(field) is HiZ) == (field == 0),
        (ChgLedOutput::decoded(field) is Blink1Hz) == (field == 1),
        (ChgLedOutput::decoded(field) is Blink4Hz) == (field == 2),
        (ChgLedOutput::decoded(field) is Low) == !(field == 0 || field == 1 || field == 2),
{
}

/// The field values of a [`ChgLedFunction`].
pub proof fn chg_led_function_by_number(x: ChgLedFunction, field: int)
    ensures
        (x is TypeA) == (x.code() == 0),
        (x is TypeB) == (x.code() == 1),
        (x is Manual) == (x.code() == 2),
        (ChgLedFunction::decoded(field) is TypeA) == (field == 0),
        (ChgLedFunction::decoded(field) is TypeB) == (field == 1),
        (ChgLedFunction::decoded(field) is Manual) == !(field == 0 || field == 1),
{
}

/// The setting in us.
pub open spec fn dcdc_uvp_debounce_us(x: DcdcUvpDebounce) -> int {
    match x {
        DcdcUvpDebounce::Us60 => 60,
        DcdcUvpDebounce::Us120 => 120,
        DcdcUvpDebounce::Us180 => 180,
        DcdcUvpDebounce::Us240 => 240,
    }
}

/// Field value `n` of a [`DcdcUvpDebounce`] is 60 + 60 n us.
pub proof fn dcdc_uvp_debounce_by_number(x: DcdcUvpDebounce, field: int)
    ensures
        x.code() <= 3,
        dcdc_uvp_debounce_us(x) == 60 + 60 * x.code(),
        0 <= field <= 3 ==> dcdc_uvp_debounce_us(DcdcUvpDebounce::decoded(field)) == 60 + 60 * field,
{
}

/// The field values of a [`FastPwronSeq`].
pub proof fn fast_pwron_seq_by_number(x: FastPwronSeq, field: int)
    ensures
        (x is Step0) == (x.code() == 0),
        (x is Step1) == (x.code() == 1),
        (x is Step2) == (x.code() == 2),
        (x is Disabled) == (x.code() == 3),
        (FastPwronSeq::decoded(field) is Step0) == (field == 0),
        (FastPwronSeq::decoded(field) is Step1) == (field == 1),
        (FastPwronSeq::decoded(field) is Step2) == (field == 2),
        (FastPwronSeq::decoded(field) is Disabled) == !(field == 0 || field == 1 || field == 2),
{
}

/// Which bit of the register is which field of a [`PmuStatus1`].
pub proof fn pmu_status1_by_bit(r: u8)
    ensures
        PmuStatus1::decoded(r).vbus_good == (r as int / 32 % 2 == 1),
        PmuStatus1::decoded(r).batfet_active == (r as int / 16 % 2 == 1),
        PmuStatus1::decoded(r).battery_present == (r as int / 8 % 2 == 1),
        PmuStatus1::decoded(r).battery_active == (r as int / 4 % 2 == 1),
        PmuStatus1::decoded(r).thermal_active == (r as int / 2 % 2 == 1),
        PmuStatus1::decoded(r).current_limit_active == (r as int / 1 % 2 == 1),
{
}

/// Which bit of the register is which field of a [`PmuStatus2`].
pub proof fn pmu_status2_by_bit(r: u8)
    ensures
        PmuStatus2::decoded(r).system_on == (r as int / 16 % 2 == 1),
        PmuStatus2::decoded(r).vindpm_active == (r as int / 8 % 2 == 1),
        r as int / 32 % 4 < 3 ==> PmuStatus2::decoded(r).current_direction.code() == r as int / 32 % 4,
        r as int % 8 < 6 ==> PmuStatus2::decoded(r).charger_phase.code() == r as int % 8,
{
}

/// Which bit of the register is which field of a [`PowerKeyConfig`], read and written.
pub proof fn power_key_config_by_bit(x: PowerKeyConfig, r: u8)
    ensures
        PowerKeyConfig::decoded(r).irq_time.code() == r as int / 16 % 4,
        PowerKeyConfig::decoded(r).off_time.code() == r as int / 4 % 4,
        PowerKeyConfig::decoded(r).on_time.code() == r as int % 4,
        x.code() as int / 16 % 4 == x.irq_time.code(),
        x.code() as int / 4 % 4 == x.off_time.code(),
        x.code() as int % 4 == x.on_time.code(),
{
}

/// Which bit of the register is which field of a [`WatchdogConfig`], read and written.
pub proof fn watchdog_config_by_bit(x: WatchdogConfig, r: u8)
    ensures
        WatchdogConfig::decoded(r).timeout.code() == r as int % 8,
        WatchdogConfig::decoded(r).action.code() == r as int / 16 % 4,
        x.code() as int % 8 == x.timeout.code(),
        x.code() as int / 16 % 4 == x.action.code(),
{
}

/// Which bit of the register is which field of a [`PowerOnStatus`].
pub proof fn power_on_status_by_bit(r: u8)
    ensures
        PowerOnStatus::decoded(r).en_mode == (r as int / 32 % 2 == 1),
        PowerOnStatus::decoded(r).battery_insert == (r as int / 16 % 2 == 1),
        PowerOnStatus::decoded(r).battery_charged == (r as int / 8 % 2 == 1),
        PowerOnStatus::decoded(r).vbus == (r as int / 4 % 2 == 1),
        PowerOnStatus::decoded(r).irq_pin == (r as int / 2 % 2 == 1),
        PowerOnStatus::decoded(r).button == (r as int / 1 % 2 == 1),
{
}

/// Which bit of the register is which field of a [`PowerOffStatus`].
pub proof fn power_off_status_by_bit(r: u8)
    ensures
        PowerOffStatus::decoded(r).die_overtemp == (r as int / 128 % 2 == 1),
        PowerOffStatus::decoded(r).dcdc_overvolt == (r as int / 64 % 2 == 1),
        PowerOffStatus::decoded(r).dcdc_undervolt == (r as int / 32 % 2 == 1),
        PowerOffStatus::decoded(r).vbus_overvolt == (r as int / 16 % 2 == 1),
        PowerOffStatus::decoded(r).vsys_undervolt == (r as int / 8 % 2 == 1),
        PowerOffStatus::decoded(r).en_mode == (r as int / 4 % 2 == 1),
        PowerOffStatus::decoded(r).software == (r as int / 2 % 2 == 1),
        PowerOffStatus::decoded(r).button_long_press == (r as int / 1 % 2 == 1),
{
}

/// Which bit of the register is which field of a [`PowerOffEnable`], read and written.
pub proof fn power_off_enable_by_bit(x: PowerOffEnable, r: u8)
    ensures
        PowerOffEnable::decoded(r).die_overtemp_en == (r as int / 4 % 2 == 1),
        PowerOffEnable::decoded(r).button_off_en == (r as int / 2 % 2 == 1),
        PowerOffEnable::decoded(r).button_off_restart == (r as int / 1 % 2 == 1),
        x.code() as int / 4 % 2 == (if x.die_overtemp_en { 1int } else { 0 }),
        x.code() as int / 2 % 2 == (if x.button_off_en { 1int } else { 0 }),
        x.code() as int / 1 % 2 == (if x.button_off_restart { 1int } else { 0 }),
{
}

/// Which bit of the register is which field of a [`DcdcProtection`], read and written.
pub proof fn dcdc_protection_by_bit(x: DcdcProtection, r: u8)
    ensures
        DcdcProtection::decoded(r).overvolt_off_en == (r as int / 32 % 2 == 1),
        DcdcProtection::decoded(r).dcdc4_undervolt_en == (r as int / 8 % 2 == 1),
        DcdcProtection::decoded(r).dcdc3_undervolt_en == (r as int / 4 % 2 == 1),
        DcdcProtection::decoded(r).dcdc2_undervolt_en == (r as int / 2 % 2 == 1),
        DcdcProtection::decoded(r).dcdc1_undervolt_en == (r as int / 1 % 2 == 1),
        x.code() as int / 32 % 2 == (if x.overvolt_off_en { 1int } else { 0 }),
        x.code() as int / 8 % 2 == (if x.dcdc4_undervolt_en { 1int } else { 0 }),
        x.code() as int / 4 % 2 == (if x.dcdc3_undervolt_en { 1int } else { 0 }),
        x.code() as int / 2 % 2 == (if x.dcdc2_undervolt_en { 1int } else { 0 }),
        x.code() as int / 1 % 2 == (if x.dcdc1_undervolt_en { 1int } else { 0 }),
{
}

/// Which bit of the register is which field of a [`PwrokConfig`], read and written.
pub proof fn pwrok_config_by_bit(x: PwrokConfig, r: u8)
    ensures
        PwrokConfig::decoded(r).check_pwrok_en == (r as int / 16 % 2 == 1),
        PwrokConfig::decoded(r).pwroff_delay_en == (r as int / 8 % 2 == 1),
        PwrokConfig::decoded(r).reverse_sequence == (r as int / 4 % 2 == 1),
        PwrokConfig::decoded(r).delay.code() == r as int % 4,
        x.code() as int / 16 % 2 == (if x.check_pwrok_en { 1int } else { 0 }),
        x.code() as int / 8 % 2 == (if x.pwroff_delay_en { 1int } else { 0 }),
        x.code() as int / 4 % 2 == (if x.reverse_sequence { 1int } else { 0 }),
        x.code() as int % 4 == x.delay.code(),
{
}

/// Which bit of the register is which field of a [`SleepWakeConfig`], read and written.
pub proof fn sleep_wake_config_by_bit(x: SleepWakeConfig, r: u8)
    ensures
        SleepWakeConfig::decoded(r).irq_wakeup_en == (r as int / 16 % 2 == 1),
        SleepWakeConfig::decoded(r).pwrok_low_on_wake == (r as int / 8 % 2 == 1),
        SleepWakeConfig::decoded(r).restore_voltage == (r as int / 4 % 2 == 1),
        SleepWakeConfig::decoded(r).wakeup_en == (r as int / 2 % 2 == 1),
        SleepWakeConfig::decoded(r).sleep_en == (r as int / 1 % 2 == 1),
        x.code() as int / 16 % 2 == (if x.irq_wakeup_en { 1int } else { 0 }),
        x.code() as int / 8 % 2 == (if x.pwrok_low_on_wake { 1int } else { 0 }),
        x.code() as int / 4 % 2 == (if x.restore_voltage { 1int } else { 0 }),
        x.code() as int / 2 % 2 == (if x.wakeup_en { 1int } else { 0 }),
        x.code() as int / 1 % 2 == (if x.sleep_en { 1int } else { 0 }),
{
}

/// Which bit of the register is which field of a [`TsPinConfig`], read and written.
pub proof fn ts_pin_config_by_bit(x: TsPinConfig, r: u8)
    ensures
        TsPinConfig::decoded(r).function.code() == r as int / 16 % 2,
        TsPinConfig::decoded(r).current_mode.code() == r as int / 4 % 4,
        TsPinConfig::decoded(r).current_value.code() == r as int % 4,
        x.code() as int / 16 % 2 == x.function.code(),
        x.code() as int / 4 % 4 == x.current_mode.code(),
        x.code() as int % 4 == x.current_value.code(),
{
}

/// Which bit of the register is which field of a [`JeitaCvConfig`], read and written.
pub proof fn jeita_cv_config_by_bit(x: JeitaCvConfig, r: u8)
    ensures
        JeitaCvConfig::decoded(r).warm_current.code() == r as int / 64 % 2,
        JeitaCvConfig::decoded(r).cool_current.code() == r as int / 16 % 2,
        r as int / 4 % 4 < 3 ==> JeitaCvConfig::decoded(r).warm_voltage.code() == r as int / 4 % 4,
        r as int % 4 < 3 ==> JeitaCvConfig::decoded(r).cool_voltage.code() == r as int % 4,
        x.code() as int / 64 % 2 == x.warm_current.code(),
        x.code() as int / 16 % 2 == x.cool_current.code(),
        x.code() as int / 4 % 4 == x.warm_voltage.code(),
        x.code() as int % 4 == x.cool_voltage.code(),
{
}

/// Which bit of the register is which field of a [`ChargerTimeout`].
pub proof fn charger_timeout_by_bit(r: u8)
    ensures
        ChargerTimeout::decoded(r).slow_during_dpm == (r as int / 128 % 2 == 1),
        ChargerTimeout::decoded(r).done_timer_en == (r as int / 64 % 2 == 1),
        ChargerTimeout::decoded(r).precharge_timer_en == (r as int / 4 % 2 == 1),
        ChargerTimeout::decoded(r).done_timeout.code() == r as int / 16 % 4,
        ChargerTimeout::decoded(r).precharge_timeout.code() == r as int % 4,
{
}

/// Which bit a [`ChargerTimeout`] sets in the register.
pub proof fn charger_timeout_sets_bits(x: ChargerTimeout)
    ensures
        x.code() as int / 128 % 2 == (if x.slow_during_dpm { 1int } else { 0 }),
        x.code() as int / 64 % 2 == (if x.done_timer_en { 1int } else { 0 }),
        x.code() as int / 4 % 2 == (if x.precharge_timer_en { 1int } else { 0 }),
        x.code() as int / 16 % 4 == x.done_timeout.code(),
        x.code() as int % 4 == x.precharge_timeout.code(),
{
    let one = |b: bool| if b { 1int } else { 0 };
    let (hi, lo) = (x.done_timeout.code() as int, x.precharge_timeout.code() as int);
    eight_bits(
        one(x.slow_during_dpm),
        one(x.done_timer_en),
        hi / 2,
        hi % 2,
        0,
        one(x.precharge_timer_en),
        lo,
    );
    assert(x.code() == 128 * one(x.slow_during_dpm) + 64 * one(x.done_timer_en) + 32 * (hi / 2) + 16 * (hi % 2) + 4
        * one(x.precharge_timer_en) + lo);
}

/// Which bit of the register is which field of a [`ChgLedConfig`], read and written.
pub proof fn chg_led_config_by_bit(x: ChgLedConfig, r: u8)
    ensures
        ChgLedConfig::decoded(r).enabled == (r as int / 1 % 2 == 1),
        ChgLedConfig::decoded(r).output.code() == r as int / 16 % 4,
        r as int / 2 % 4 < 3 ==> ChgLedConfig::decoded(r).function.code() == r as int / 2 % 4,
        x.code() as int / 1 % 2 == (if x.enabled { 1int } else { 0 }),
        x.code() as int / 16 % 4 == x.output.code(),
        x.code() as int / 2 % 4 == x.function.code(),
{
}

/// Which bit of the register is which field of a [`DcdcPwmConfig`].
pub proof fn dcdc_pwm_config_by_bit(r: u8)
    ensures
        DcdcPwmConfig::decoded(r).freq_spread_en == (r as int / 128 % 2 == 1),
        DcdcPwmConfig::decoded(r).freq_spread_100k == (r as int / 64 % 2 == 1),
        DcdcPwmConfig::decoded(r).dcdc4_force_pwm == (r as int / 32 % 2 == 1),
        DcdcPwmConfig::decoded(r).dcdc3_force_pwm == (r as int / 16 % 2 == 1),
        DcdcPwmConfig::decoded(r).dcdc2_force_pwm == (r as int / 8 % 2 == 1),
        DcdcPwmConfig::decoded(r).dcdc1_force_pwm == (r as int / 4 % 2 == 1),
        DcdcPwmConfig::decoded(r).uvp_debounce.code() == r as int % 4,
{
}

/// Which bit a [`DcdcPwmConfig`] sets in the register.
pub proof fn dcdc_pwm_config_sets_bits(x: DcdcPwmConfig)
    ensures
        x.code() as int / 128 % 2 == (if x.freq_spread_en { 1int } else { 0 }),
        x.code() as int / 64 % 2 == (if x.freq_spread_100k { 1int } else { 0 }),
        x.code() as int / 32 % 2 == (if x.dcdc4_force_pwm { 1int } else { 0 }),
        x.code() as int / 16 % 2 == (if x.dcdc3_force_pwm { 1int } else { 0 }),
        x.code() as int / 8 % 2 == (if x.dcdc2_force_pwm { 1int } else { 0 }),
        x.code() as int / 4 % 2 == (if x.dcdc1_force_pwm { 1int } else { 0 }),
        x.code() as int % 4 == x.uvp_debounce.code(),
{
    let one = |b: bool| if b { 1int } else { 0 };
    eight_bits(
        one(x.freq_spread_en),
        one(x.freq_spread_100k),
        one(x.dcdc4_force_pwm),
        one(x.dcdc3_force_pwm),
        one(x.dcdc2_force_pwm),
        one(x.dcdc1_force_pwm),
        x.uvp_debounce.code() as int,
    );
}

/// The thresholds of the low-battery warning: level 1 in the low half,
/// level 2, less 5, in the high half, each held to its range.
pub proof fn low_battery_warning_by_number(x: LowBatteryWarning, r: u8)
    ensures
        LowBatteryWarning::decoded(r).level1_percent == r as int % 16,
        LowBatteryWarning::decoded(r).level2_percent == 5 + r as int / 16,
        x.level1_percent <= 15 ==> x.code() as int % 16 == x.level1_percent,
        x.level1_percent > 15 ==> x.code() as int % 16 == 15,
        5 <= x.level2_percent <= 20 ==> 5 + x.code() as int / 16 == x.level2_percent,
        x.level2_percent < 5 ==> x.code() as int / 16 == 0,
        x.level2_percent > 20 ==> x.code() as int / 16 == 15,
{
}

/// What the currents and voltages that are counted in steps stand for:
/// 25 mA a step, for the charge current 100 mA from 200 mA on; 100 mV a
/// step from 2.6 V on.
pub proof fn steps_by_number(n: u8)
    ensures
        PreChargeCurrent(n).ma() == 25 * n,
        TerminationCurrent(n).ma() == 25 * n,
        n <= 8 ==> ChargeCurrent(n).ma() == 25 * n,
        8 <= n <= 16 ==> ChargeCurrent(n).ma() == 100 * n - 600,
        PowerOffVoltage(n).mv() == 2600 + 100 * n,
{
}

} // verus!
