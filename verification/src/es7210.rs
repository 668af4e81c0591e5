//! ES7210 4-channel microphone ADC driver.
//!
//! Communicates over I2C (address 0x40, A0=A1=0). The SoC is the I2S
//! master; this chip is I2S slave. MCLK is supplied externally.
//!
//! On this board only MIC1 and MIC2 are populated: MIC3/4 stay powered
//! down. Configured for: 16 kHz, 16-bit, standard I2S (Philips), slave
//! mode.

use vstd::prelude::*;
use crate::bus::{chain, Bus, Fault, Session};

verus! {

pub const ADDR: u8 = 0x40;

// ---- Register map -----------------------------------------------------------

pub const REG_RESET: u8 = 0x00;
pub const REG_MAINCLK: u8 = 0x02;
pub const REG_LRCK_DIVH: u8 = 0x04;
pub const REG_LRCK_DIVL: u8 = 0x05;
pub const REG_DLL_PWR: u8 = 0x06;
pub const REG_OSR: u8 = 0x07;
pub const REG_TIME_CTRL0: u8 = 0x09;
pub const REG_TIME_CTRL1: u8 = 0x0A;
pub const REG_SDP_IF1: u8 = 0x11;
pub const REG_SDP_IF2: u8 = 0x12;
pub const REG_ADC_VOL1: u8 = 0x1B;
pub const REG_ADC_VOL2: u8 = 0x1C;
pub const REG_ADC_VOL3: u8 = 0x1D;
pub const REG_ADC_VOL4: u8 = 0x1E;
pub const REG_ADC34_HPF2: u8 = 0x20;
pub const REG_ADC34_HPF1: u8 = 0x21;
pub const REG_ADC12_HPF1: u8 = 0x22;
pub const REG_ADC12_HPF2: u8 = 0x23;
pub const REG_ANALOG: u8 = 0x40;
pub const REG_MIC12_BIAS: u8 = 0x41;
pub const REG_MIC34_BIAS: u8 = 0x42;
pub const REG_MIC1_GAIN: u8 = 0x43;
pub const REG_MIC2_GAIN: u8 = 0x44;
pub const REG_MIC3_GAIN: u8 = 0x45;
pub const REG_MIC4_GAIN: u8 = 0x46;
pub const REG_MIC1_POWER: u8 = 0x47;
pub const REG_MIC2_POWER: u8 = 0x48;
pub const REG_MIC3_POWER: u8 = 0x49;
pub const REG_MIC4_POWER: u8 = 0x4A;
pub const REG_MIC12_POWER: u8 = 0x4B;
pub const REG_MIC34_POWER: u8 = 0x4C;

/// Bring-up after the post-reset delay.
pub const CONFIGURE: [(u8, u8); 31] = [
    (REG_RESET, 0x32),
    // Power-up timing.
    (REG_TIME_CTRL0, 0x30),
    (REG_TIME_CTRL1, 0x30),
    // High-pass filter for all channels.
    (REG_ADC12_HPF2, 0x2A),
    (REG_ADC12_HPF1, 0x0A),
    (REG_ADC34_HPF1, 0x2A),
    (REG_ADC34_HPF2, 0x0A),
    (REG_SDP_IF1, 0x60),  // standard I2S, 16-bit
    (REG_SDP_IF2, 0x00),  // TDM disabled (stereo I2S)
    (REG_ANALOG, 0xC3),  // analog power on, VMID
    // MIC1/2 bias = 2.87V; MIC3/4 bias disabled.
    (REG_MIC12_BIAS, 0x70),
    (REG_MIC34_BIAS, 0x00),
    // MIC1/2 gain = 30 dB; MIC3/4 off.
    (REG_MIC1_GAIN, 0x1A),
    (REG_MIC2_GAIN, 0x1A),
    (REG_MIC3_GAIN, 0x00),
    (REG_MIC4_GAIN, 0x00),
    // Per-channel analog power: MIC1/2 on, MIC3/4 powered down.
    (REG_MIC1_POWER, 0x08),
    (REG_MIC2_POWER, 0x08),
    (REG_MIC3_POWER, 0xFF),
    (REG_MIC4_POWER, 0xFF),
    (REG_OSR, 0x20),  // OSR = 32
    // Clock config for MCLK=4.096 MHz, Fs=16 kHz: adc_div=1, doubler=1,
    // dll_bypass=1. The doubler is essential: the delta-sigma modulator
    // needs MCLK*2/1 = 8.192 MHz.
    (REG_MAINCLK, 0xC1),
    // LRCK divider = MCLK/Fs = 256 (0x0100).
    (REG_LRCK_DIVH, 0x01),
    (REG_LRCK_DIVL, 0x00),
    (REG_DLL_PWR, 0x04),  // DLL power control
    // ADC/PGA power on for MIC1+MIC2; MIC3+MIC4 down.
    (REG_MIC12_POWER, 0x0F),
    (REG_MIC34_POWER, 0xFF),
    // ADC digital volume: 0xBF = 0 dB.
    (REG_ADC_VOL1, 0xBF),
    (REG_ADC_VOL2, 0xBF),
    (REG_ADC_VOL3, 0xBF),
    (REG_ADC_VOL4, 0xBF),
];

/// The datasheet's power-down state.
pub const POWER_DOWN: [(u8, u8); 5] = [
    (REG_MIC12_POWER, 0xFF),  // bias/ref/PGA/ADC 1+2 down
    (REG_MIC34_POWER, 0xFF),  // 3+4 down (defensive)
    (REG_MIC12_BIAS, 0x00),  // bias level off
    (REG_MIC34_BIAS, 0x00),
    (REG_ANALOG, 0x80),  // PDN_ANA = 1
];

/// Microphone gain (3 dB per step).
#[derive(Debug, Clone, Copy, PartialEq, Eq, Structural)]
pub enum MicGain {
    Db0,
    Db3,
    Db6,
    Db9,
    Db12,
    Db15,
    Db18,
    Db21,
    Db24,
    Db27,
    Db30,
    Db33,
}

impl MicGain {
    /// The number of 3 dB steps.
    pub open spec fn code(self) -> u8 {
        match self {
            MicGain::Db0 => 0x00,
            MicGain::Db3 => 0x01,
            MicGain::Db6 => 0x02,
            MicGain::Db9 => 0x03,
            MicGain::Db12 => 0x04,
            MicGain::Db15 => 0x05,
            MicGain::Db18 => 0x06,
            MicGain::Db21 => 0x07,
            MicGain::Db24 => 0x08,
            MicGain::Db27 => 0x09,
            MicGain::Db30 => 0x0A,
            MicGain::Db33 => 0x0B,
        }
    }

    /// The number of 3 dB steps.
    pub fn bits(self) -> (r: u8)
        ensures
            r == self.code(),
    {
        match self {
            MicGain::Db0 => 0x00,
            MicGain::Db3 => 0x01,
            MicGain::Db6 => 0x02,
            MicGain::Db9 => 0x03,
            MicGain::Db12 => 0x04,
            MicGain::Db15 => 0x05,
            MicGain::Db18 => 0x06,
            MicGain::Db21 => 0x07,
            MicGain::Db24 => 0x08,
            MicGain::Db27 => 0x09,
            MicGain::Db30 => 0x0A,
            MicGain::Db33 => 0x0B,
        }
    }
}

/// ES7210 driver.
#[derive(Debug, Clone, Copy)]
pub struct Es7210;

impl Es7210 {
    pub fn new() -> (r: Es7210)
        ensures
            r == Es7210,
    {
        Es7210
    }

    /// Initialise the ADC (step 1: reset).
    ///
    /// Call once after power-up with MCLK already running. Assumes MCLK =
    /// 256 * 16 000 Hz = 4.096 MHz from the I2S peripheral.
    ///
    /// The caller must provide a ~10ms delay after this call, then call
    /// [`Self::init_after_delay`], another ~10ms delay, then
    /// [`Self::finalize`].
    pub fn init(&self, i2c: &mut Bus) -> (e: Result<(), Fault>)
        ensures
            (final(i2c)@, e) == old(i2c)@.write_reg(ADDR, REG_RESET, 0xFF),
    {
        i2c.write_reg(ADDR, REG_RESET, 0xFF)
    }

    /// Continue init after the post-reset delay (step 2: configure, then
    /// the first step of enabling).
    pub fn init_after_delay(&self, i2c: &mut Bus) -> (e: Result<(), Fault>)
        ensures
            (final(i2c)@, e) == chain(
                old(i2c)@.write_regs(ADDR, CONFIGURE@),
                |s: Session, u: ()| s.write_reg(ADDR, REG_RESET, 0x71),
            ),
    {
        let ops: [(u8, u8); 31] = CONFIGURE;
        i2c.write_regs(ADDR, &ops)?;
        i2c.write_reg(ADDR, REG_RESET, 0x71)
    }

    /// Final enable step after the second delay (step 3).
    pub fn finalize(&self, i2c: &mut Bus) -> (e: Result<(), Fault>)
        ensures
            (final(i2c)@, e) == old(i2c)@.write_reg(ADDR, REG_RESET, 0x41),
    {
        i2c.write_reg(ADDR, REG_RESET, 0x41)
    }

    /// Power the ADC down to its datasheet power-down state (datasheet
    /// "Power Down Mode": ~10 uA). REG4B/4C set every per-channel block
    /// to its documented power-down bit (MICBIAS, mic reference, PGA,
    /// ADC, state machines), bias levels zero, and REG40 sets PDN_ANA.
    ///
    /// The chip is external: SoC light sleep cannot gate it, and left
    /// configured it holds mic bias + four ADC channels live from the
    /// always-on rail indefinitely. Recovery is the full three-step init.
    pub fn power_down(&self, i2c: &mut Bus) -> (e: Result<(), Fault>)
        ensures
            (final(i2c)@, e) == old(i2c)@.write_regs(ADDR, POWER_DOWN@),
    {
        let ops: [(u8, u8); 5] = POWER_DOWN;
        i2c.write_regs(ADDR, &ops)
    }

    /// Set microphone gain for MIC1 and MIC2; bit 4 is the enable bit.
    pub fn set_gain(&self, i2c: &mut Bus, gain: MicGain) -> (e: Result<(), Fault>)
        ensures
            (final(i2c)@, e) == chain(
                old(i2c)@.write_reg(ADDR, REG_MIC1_GAIN, (0x10 + gain.code()) as u8),
                |s: Session, u: ()| s.write_reg(ADDR, REG_MIC2_GAIN, (0x10 + gain.code()) as u8),
            ),
    {
        let val: u8 = 0x10 + gain.bits();
        i2c.write_reg(ADDR, REG_MIC1_GAIN, val)?;
        i2c.write_reg(ADDR, REG_MIC2_GAIN, val)
    }

    /// Read a single register.
    pub fn read_reg(&self, i2c: &mut Bus, reg: u8) -> (e: Result<u8, Fault>)
        ensures
            (final(i2c)@, e) == old(i2c)@.read_reg(ADDR, reg),
    {
        i2c.read_reg(ADDR, reg)
    }
}

} // verus!
