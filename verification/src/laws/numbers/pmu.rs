//! The numbers of the power chip.

use vstd::prelude::*;
use crate::pmu::registers::adc_en;
use crate::pmu::registers::ldo_en0;
use crate::pmu::registers;
use crate::pmu;

verus! {

/// The values in `pmu`.
pub proof fn numbers()
    ensures
        pmu::DEFAULT_ADDRESS == 0x34 && pmu::WATCHDOG_EN == 0x01 && pmu::CELL_CHARGE_EN == 0x02,
        pmu::BUTTON_CHARGE_EN == 0x04 && pmu::GAUGE_EN == 0x08,
{
}

/// The values in `pmu::registers::adc_en`.
pub proof fn adc_en_numbers()
    ensures
        adc_en::BAT_VOLT == 0x01 && adc_en::TS_PIN == 0x02 && adc_en::VBUS_VOLT == 0x04,
        adc_en::VSYS_VOLT == 0x08 && adc_en::DIE_TEMP == 0x10,
{
}

/// The values in `pmu::registers::ldo_en0`.
pub proof fn ldo_en0_numbers()
    ensures
        ldo_en0::ALDO1 == 0x01 && ldo_en0::ALDO2 == 0x02 && ldo_en0::ALDO3 == 0x04 && ldo_en0::ALDO4 == 0x08,
        ldo_en0::BLDO1 == 0x10 && ldo_en0::BLDO2 == 0x20 && ldo_en0::CPUSLDO == 0x40 && ldo_en0::DLDO1 == 0x80,
{
}

/// Register numbers.
pub proof fn registers_numbers()
    ensures
        registers::REG_PMU_STATUS1 == 0x00 && registers::REG_PMU_STATUS2 == 0x01 && registers::CHIP_ID == 0x03,
        registers::CHIP_ID_MASK == 0xCF && registers::CHIP_ID_VALUE == 0x4A && registers::REG_DATA_BUF0 == 0x04,
        registers::REG_PMU_CFG == 0x10 && registers::REG_BATFET_CFG == 0x12,
        registers::REG_DIE_TEMP_CFG == 0x13 && registers::REG_SYS_VMIN == 0x14 && registers::REG_VINDPM == 0x15,
        registers::REG_ILIM == 0x16 && registers::REG_GAUGE_RESET == 0x17,
        registers::REG_CHARGER_GAUGE_WDT_EN == 0x18 && registers::REG_WDT_CFG == 0x19,
        registers::REG_LOWBAT_WARN == 0x1A && registers::REG_GPIO1_CFG == 0x1B,
        registers::REG_PWRON_STATUS == 0x20 && registers::REG_PWROFF_STATUS == 0x21,
        registers::REG_PWROFF_EN == 0x22 && registers::REG_DCDC_OVP_UVP == 0x23,
        registers::REG_VSYS_PWROFF == 0x24 && registers::REG_PWROK_CFG == 0x25,
        registers::REG_SLEEP_WAKEUP == 0x26 && registers::REG_LEVEL_CFG == 0x27,
        registers::REG_FAST_PWRON0 == 0x28 && registers::REG_ADC_EN == 0x30 && registers::REG_VBAT_H == 0x34,
        registers::REG_VBAT_L == 0x35 && registers::REG_TS_H == 0x36 && registers::REG_TS_L == 0x37,
        registers::REG_VBUS_H == 0x38 && registers::REG_VBUS_L == 0x39 && registers::REG_VSYS_H == 0x3A,
        registers::REG_VSYS_L == 0x3B && registers::REG_TDIE_H == 0x3C && registers::REG_TDIE_L == 0x3D,
        registers::REG_IRQ_EN0 == 0x40 && registers::REG_IRQ_EN1 == 0x41 && registers::REG_IRQ_EN2 == 0x42,
        registers::REG_IRQ_STATUS0 == 0x48 && registers::REG_IRQ_STATUS1 == 0x49,
        registers::REG_IRQ_STATUS2 == 0x4A && registers::REG_TS_CFG == 0x50 && registers::REG_TS_HYSL2H == 0x52,
        registers::REG_TS_HYSH2L == 0x53 && registers::REG_VLTF_CHG == 0x54 && registers::REG_VHTF_CHG == 0x55,
        registers::REG_VLTF_WORK == 0x56 && registers::REG_VHTF_WORK == 0x57 && registers::REG_JEITA_EN == 0x58,
        registers::REG_JEITA_CV_CFG == 0x59 && registers::REG_JEITA_COOL == 0x5A,
        registers::REG_JEITA_WARM == 0x5B && registers::REG_TS_CFG_H == 0x5C && registers::REG_TS_CFG_L == 0x5D,
        registers::REG_IPRECHG == 0x61 && registers::REG_ICC == 0x62 && registers::REG_ITERM == 0x63,
        registers::REG_CV_VOLT == 0x64 && registers::REG_THERMAL_REG == 0x65 && registers::REG_CHG_TIMER == 0x67,
        registers::REG_BAT_DET == 0x68 && registers::REG_CHGLED == 0x69 && registers::REG_BTN_BAT_VTERM == 0x6A,
        registers::REG_DCDC_EN == 0x80 && registers::REG_DCDC_PWM == 0x81 && registers::REG_DCDC1_VOLT == 0x82,
        registers::REG_DCDC2_VOLT == 0x83 && registers::REG_DCDC3_VOLT == 0x84,
        registers::REG_DCDC4_VOLT == 0x85 && registers::REG_LDO_EN0 == 0x90 && registers::REG_LDO_EN1 == 0x91,
        registers::REG_ALDO1_VOLT == 0x92 && registers::REG_ALDO2_VOLT == 0x93,
        registers::REG_ALDO3_VOLT == 0x94 && registers::REG_ALDO4_VOLT == 0x95,
        registers::REG_BLDO1_VOLT == 0x96 && registers::REG_BLDO2_VOLT == 0x97,
        registers::REG_CPUSLDO_VOLT == 0x98 && registers::REG_DLDO1_VOLT == 0x99,
        registers::REG_DLDO2_VOLT == 0x9A && registers::REG_BAT_PARAM == 0xA1,
        registers::REG_GAUGE_CFG == 0xA2 && registers::REG_BAT_PERCENT == 0xA4,
{
}

} // verus!
