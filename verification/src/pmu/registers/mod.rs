//! AXP2101 register map.

use vstd::prelude::*;

pub mod adc_en;
pub mod ldo_en0;

verus! {

pub const REG_PMU_STATUS1: u8 = 0x00;
pub const REG_PMU_STATUS2: u8 = 0x01;
pub const CHIP_ID: u8 = 0x03;

/// The bits of REG 03h that identify the chip: all but the version bits
/// 5:4.
pub const CHIP_ID_MASK: u8 = 0xCF;

/// What they hold on an AXP2101.
pub const CHIP_ID_VALUE: u8 = 0x4A;

pub const REG_DATA_BUF0: u8 = 0x04; // Data buffers 0-3: 04h-07h
pub const REG_PMU_CFG: u8 = 0x10;
pub const REG_BATFET_CFG: u8 = 0x12;
pub const REG_DIE_TEMP_CFG: u8 = 0x13;
pub const REG_SYS_VMIN: u8 = 0x14;
pub const REG_VINDPM: u8 = 0x15;
pub const REG_ILIM: u8 = 0x16;
pub const REG_GAUGE_RESET: u8 = 0x17;
pub const REG_CHARGER_GAUGE_WDT_EN: u8 = 0x18;
pub const REG_WDT_CFG: u8 = 0x19;
pub const REG_LOWBAT_WARN: u8 = 0x1A;
pub const REG_GPIO1_CFG: u8 = 0x1B;
pub const REG_PWRON_STATUS: u8 = 0x20;
pub const REG_PWROFF_STATUS: u8 = 0x21;
pub const REG_PWROFF_EN: u8 = 0x22;
pub const REG_DCDC_OVP_UVP: u8 = 0x23;
pub const REG_VSYS_PWROFF: u8 = 0x24;
pub const REG_PWROK_CFG: u8 = 0x25;
pub const REG_SLEEP_WAKEUP: u8 = 0x26;
pub const REG_LEVEL_CFG: u8 = 0x27;
pub const REG_FAST_PWRON0: u8 = 0x28; // Fast power-on 0-3: 28h-2Bh
pub const REG_ADC_EN: u8 = 0x30;
pub const REG_VBAT_H: u8 = 0x34;
pub const REG_VBAT_L: u8 = 0x35;
pub const REG_TS_H: u8 = 0x36;
pub const REG_TS_L: u8 = 0x37;
pub const REG_VBUS_H: u8 = 0x38;
pub const REG_VBUS_L: u8 = 0x39;
pub const REG_VSYS_H: u8 = 0x3A;
pub const REG_VSYS_L: u8 = 0x3B;
pub const REG_TDIE_H: u8 = 0x3C;
pub const REG_TDIE_L: u8 = 0x3D;
pub const REG_IRQ_EN0: u8 = 0x40;
pub const REG_IRQ_EN1: u8 = 0x41;
pub const REG_IRQ_EN2: u8 = 0x42;
pub const REG_IRQ_STATUS0: u8 = 0x48;
pub const REG_IRQ_STATUS1: u8 = 0x49;
pub const REG_IRQ_STATUS2: u8 = 0x4A;
pub const REG_TS_CFG: u8 = 0x50;
pub const REG_TS_HYSL2H: u8 = 0x52;
pub const REG_TS_HYSH2L: u8 = 0x53;
pub const REG_VLTF_CHG: u8 = 0x54;
pub const REG_VHTF_CHG: u8 = 0x55;
pub const REG_VLTF_WORK: u8 = 0x56;
pub const REG_VHTF_WORK: u8 = 0x57;
pub const REG_JEITA_EN: u8 = 0x58;
pub const REG_JEITA_CV_CFG: u8 = 0x59;
pub const REG_JEITA_COOL: u8 = 0x5A;
pub const REG_JEITA_WARM: u8 = 0x5B;
pub const REG_TS_CFG_H: u8 = 0x5C;
pub const REG_TS_CFG_L: u8 = 0x5D;
pub const REG_IPRECHG: u8 = 0x61;
pub const REG_ICC: u8 = 0x62;
pub const REG_ITERM: u8 = 0x63;
pub const REG_CV_VOLT: u8 = 0x64;
pub const REG_THERMAL_REG: u8 = 0x65;
pub const REG_CHG_TIMER: u8 = 0x67;
pub const REG_BAT_DET: u8 = 0x68;
pub const REG_CHGLED: u8 = 0x69;
pub const REG_BTN_BAT_VTERM: u8 = 0x6A;
pub const REG_DCDC_EN: u8 = 0x80;
pub const REG_DCDC_PWM: u8 = 0x81;
pub const REG_DCDC1_VOLT: u8 = 0x82;
pub const REG_DCDC2_VOLT: u8 = 0x83;
pub const REG_DCDC3_VOLT: u8 = 0x84;
pub const REG_DCDC4_VOLT: u8 = 0x85;
pub const REG_LDO_EN0: u8 = 0x90;
pub const REG_LDO_EN1: u8 = 0x91;
pub const REG_ALDO1_VOLT: u8 = 0x92;
pub const REG_ALDO2_VOLT: u8 = 0x93;
pub const REG_ALDO3_VOLT: u8 = 0x94;
pub const REG_ALDO4_VOLT: u8 = 0x95;
pub const REG_BLDO1_VOLT: u8 = 0x96;
pub const REG_BLDO2_VOLT: u8 = 0x97;
pub const REG_CPUSLDO_VOLT: u8 = 0x98;
pub const REG_DLDO1_VOLT: u8 = 0x99;
pub const REG_DLDO2_VOLT: u8 = 0x9A;
pub const REG_BAT_PARAM: u8 = 0xA1;
pub const REG_GAUGE_CFG: u8 = 0xA2;
pub const REG_BAT_PERCENT: u8 = 0xA4;

} // verus!
