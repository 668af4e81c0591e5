//! ES8311 mono codec / DAC driver.
//!
//! Communicates over I2C (address 0x18, CE pin pulled HIGH). The SoC is
//! the I2S master; this chip is I2S slave. MCLK is supplied externally on
//! the MCLK pin.
//!
//! Configured for: 16 kHz, 16-bit, standard I2S (Philips), slave mode.

use vstd::prelude::*;
use crate::bus::{chain, Bus, Fault, Session};

verus! {

pub const ADDR: u8 = 0x18;

// ---- Register map -----------------------------------------------------------

pub const REG_RESET: u8 = 0x00;
pub const REG_CLK1: u8 = 0x01; // clock manager
pub const REG_CLK2: u8 = 0x02; // pre-divider / pre-multiplier
pub const REG_CLK3: u8 = 0x03; // ADC fs mode / osr
pub const REG_CLK4: u8 = 0x04; // DAC osr
pub const REG_CLK5: u8 = 0x05; // ADC/DAC clock dividers
pub const REG_CLK6: u8 = 0x06; // BCLK divider
pub const REG_CLK7: u8 = 0x07; // LRCK divider high
pub const REG_CLK8: u8 = 0x08; // LRCK divider low
pub const REG_SDPIN: u8 = 0x09; // serial data port in (DAC)
pub const REG_SDPOUT: u8 = 0x0A; // serial data port out (ADC)
pub const REG_SYS0D: u8 = 0x0D; // analog power / bias / VMID
pub const REG_SYS0E: u8 = 0x0E; // PGA / ADC modulator power
pub const REG_SYS12: u8 = 0x12; // DAC power
pub const REG_SYS13: u8 = 0x13; // HP driver select
pub const REG_SYS14: u8 = 0x14; // mic input / PGA gain
pub const REG_ADC15: u8 = 0x15; // ADC ramp rate / auto-mute
pub const REG_ADC17: u8 = 0x17; // ADC volume
pub const REG_ADC1C: u8 = 0x1C; // ADC EQ bypass / HPF
pub const REG_DAC_VOL: u8 = 0x32; // DAC volume
pub const REG_DAC_EQ: u8 = 0x37; // DAC EQ bypass / ramp rate
pub const REG_GP45: u8 = 0x45; // GP control
pub const REG_ID1: u8 = 0xFD; // chip ID, high
pub const REG_ID2: u8 = 0xFE; // chip ID, low
pub const REG_VERSION: u8 = 0xFF; // chip version

/// Release reset and configure.
pub const CONFIGURE: [(u8, u8); 19] = [
    (REG_RESET, 0x00),  // release resets
    (REG_RESET, 0x80),  // state machine on (CSM_ON=1), slave mode (MSC=0)
    // All clocks on, MCLK from MCLK pin (not BCLK).
    (REG_CLK1, 0x3F),
    // Clock coefficients for MCLK=4.096 MHz, Fs=16 kHz: pre_div=1,
    // pre_multi=0(1x), adc_div=1, dac_div=1, fs_mode=0(single speed),
    // lrck_h=0, lrck_l=0xFF, bclk_div=4, adc_osr=0x10, dac_osr=0x10.
    (REG_CLK2, 0x00),  // ((pre_div-1)<<5) | (pre_multi<<3)
    (REG_CLK3, 0x10),  // (fs_mode<<6) | adc_osr
    (REG_CLK4, 0x10),  // dac_osr
    (REG_CLK5, 0x00),  // ((adc_div-1)<<4) | (dac_div-1)
    (REG_CLK6, 0x03),  // bclk_div-1
    (REG_CLK7, 0x00),  // lrck_h
    (REG_CLK8, 0xFF),  // lrck_l: 4096000/256 = 16000 Hz
    // I2S format: SDP_IN_WL[4:2]=3(16-bit), SDP_IN_FMT[1:0]=0(I2S).
    (REG_SDPIN, 0x0C),
    (REG_SDPOUT, 0x0C),
    // Analog circuits, bias, ADC/DAC voltage references, VMID on.
    (REG_SYS0D, 0x01),
    (REG_SYS0E, 0x02),  // analog PGA and ADC modulator on
    (REG_SYS12, 0x00),  // DAC on
    (REG_SYS13, 0x10),  // output to HP driver (HPSW=1)
    // Mic1p-Mic1n analog input (LINSEL=1), PGA gain = 30 dB.
    (REG_SYS14, 0x1A),
    // ADC EQ bypass, dynamic HPF, cancel DC offset in digital domain.
    (REG_ADC1C, 0x6A),
    (REG_DAC_EQ, 0x08),  // DAC EQ bypass
];

/// Output volume 0 dB.
pub const VOLUME_0_DB: u8 = 0xBF;

/// Power down to the suspend state.
pub const POWER_DOWN: [(u8, u8); 9] = [
    (REG_DAC_VOL, 0x00),  // mute DAC (-95.5 dB)
    (REG_ADC17, 0x00),  // mute ADC
    (REG_SYS0E, 0xFF),  // PGA + ADC modulator down
    (REG_SYS12, 0x02),  // DAC down
    (REG_SYS14, 0x00),  // mic input off
    (REG_SYS0D, 0xFA),  // analog + bias + refs down
    (REG_ADC15, 0x00),  // ADC ramp reset
    (REG_DAC_EQ, 0x08),  // DAC ramp default
    (REG_GP45, 0x01),  // GP low-power state
];

/// The registers that [`Es8311::dump_regs`] reads, in order.
pub const DUMPED: [u8; 16] = [
    0x00,
    0x01,
    0x02,
    0x03,
    0x04,
    0x05,
    0x06,
    0x07,
    0x08,
    0x09,
    0x0A,
    0x0D,
    0x0E,
    0x12,
    0x13,
    0x32,
];

/// The three identity registers read.
pub open spec fn ids_reading(s: Session) -> (Session, Result<Seq<u8>, Fault>) {
    chain(
        s.read_reg(ADDR, REG_ID1),
        |s1: Session, a: u8|
            chain(
                s1.read_reg(ADDR, REG_ID2),
                |s2: Session, b: u8|
                    chain(s2.read_reg(ADDR, REG_VERSION), |s3: Session, c: u8| (s3, Ok(seq![a, b, c]))),
            ),
    )
}

/// The registers `regs` from the `i`-th on read and added to `seen`, each
/// with its address.
pub open spec fn dumping(s: Session, regs: Seq<u8>, i: int, seen: Seq<(u8, u8)>) -> (
    Session,
    Result<Seq<(u8, u8)>, Fault>,
)
    decreases crate::bhi260::remaining(regs.len() as int, i),
{
    if i >= regs.len() {
        (s, Ok(seen))
    } else {
        let (s1, r) = s.read_reg(ADDR, regs[i]);
        match r {
            Ok(v) => dumping(s1, regs, i + 1, seen.push((regs[i], v))),
            Err(f) => (s1, Err(f)),
        }
    }
}

/// ES8311 driver.
#[derive(Debug, Clone, Copy)]
pub struct Es8311;

impl Es8311 {
    pub fn new() -> (r: Es8311)
        ensures
            r == Es8311,
    {
        Es8311
    }

    /// Initialise the codec (step 1: assert reset).
    ///
    /// The caller MUST wait ~20 ms after this call, then call
    /// [`Self::init_after_reset`] to release reset and configure.
    /// Releasing reset in the next I2C transaction (no hold) leaves the
    /// chip in a random half-reset state on some re-inits: misclocked DAC
    /// ("warbling" playback), muted output, or a hot/garbage ADC path.
    pub fn init(&self, i2c: &mut Bus) -> (e: Result<(), Fault>)
        ensures
            (final(i2c)@, e) == old(i2c)@.write_reg(ADDR, REG_RESET, 0x1F),
    {
        i2c.write_reg(ADDR, REG_RESET, 0x1F)  // assert all reset bits
    }

    /// Release reset and configure (step 2, after the ~20 ms hold).
    ///
    /// Assumes MCLK = 256 * 16 000 Hz = 4.096 MHz from the I2S
    /// peripheral.
    pub fn init_after_reset(&self, i2c: &mut Bus) -> (e: Result<(), Fault>)
        ensures
            (final(i2c)@, e) == chain(
                old(i2c)@.write_regs(ADDR, CONFIGURE@),
                |s: Session, u: ()| s.write_reg(ADDR, REG_DAC_VOL, VOLUME_0_DB),
            ),
    {
        let ops: [(u8, u8); 19] = CONFIGURE;
        i2c.write_regs(ADDR, &ops)?;
        self.set_volume(i2c, VOLUME_0_DB)
    }

    /// Power the codec down to its suspend state: DAC/ADC muted, PGA +
    /// ADC modulator down (REG0E all PDN bits), DAC down (REG12), mic
    /// input off, and REG0D = 0xFA - per the datasheet bit map that is
    /// PDN_ANA, PDN_IBIASGEN, PDN_ADCBIASGEN, PDN_ADCVREFGEN,
    /// PDN_DACVREFGEN set and the internal reference disabled.
    ///
    /// The chip is external: SoC light sleep cannot gate it, and left
    /// configured it holds its analog blocks biased from the always-on
    /// rail indefinitely. Recovery is a full [`Self::init`] cycle.
    pub fn power_down(&self, i2c: &mut Bus) -> (e: Result<(), Fault>)
        ensures
            (final(i2c)@, e) == old(i2c)@.write_regs(ADDR, POWER_DOWN@),
    {
        let ops: [(u8, u8); 9] = POWER_DOWN;
        i2c.write_regs(ADDR, &ops)
    }

    /// Set DAC output volume.
    ///
    /// `volume`: 0xBF = 0 dB, 0x00 = -95.5 dB (muted), 0xFF = +32 dB.
    /// Each step is 0.5 dB.
    pub fn set_volume(&self, i2c: &mut Bus, volume: u8) -> (e: Result<(), Fault>)
        ensures
            (final(i2c)@, e) == old(i2c)@.write_reg(ADDR, REG_DAC_VOL, volume),
    {
        i2c.write_reg(ADDR, REG_DAC_VOL, volume)
    }

    /// Read chip ID registers (0xFD, 0xFE, 0xFF) for verification.
    /// Expected: [0x83, 0x11, 0x00].
    pub fn read_ids(&self, i2c: &mut Bus) -> (e: Result<[u8; 3], Fault>)
        ensures
            final(i2c)@ == ids_reading(old(i2c)@).0,
            match ids_reading(old(i2c)@).1 {
                Ok(ids) => e matches Ok(r) && r@ == ids,
                Err(f) => e == Err::<[u8; 3], Fault>(f),
            },
    {
        let a: u8 = i2c.read_reg(ADDR, REG_ID1)?;
        let b: u8 = i2c.read_reg(ADDR, REG_ID2)?;
        let c: u8 = i2c.read_reg(ADDR, REG_VERSION)?;
        let ids: [u8; 3] = [a, b, c];
        assert(ids@ =~= seq![a, b, c]);
        Ok(ids)
    }

    /// Read a single register.
    pub fn read_reg(&self, i2c: &mut Bus, reg: u8) -> (e: Result<u8, Fault>)
        ensures
            (final(i2c)@, e) == old(i2c)@.read_reg(ADDR, reg),
    {
        i2c.read_reg(ADDR, reg)
    }

    /// Dump key registers for debugging. Returns (register, value) pairs.
    pub fn dump_regs(&self, i2c: &mut Bus) -> (e: Result<[(u8, u8); 16], Fault>)
        ensures
            final(i2c)@ == dumping(old(i2c)@, DUMPED@, 0, Seq::empty()).0,
            match dumping(old(i2c)@, DUMPED@, 0, Seq::empty()).1 {
                Ok(pairs) => e matches Ok(r) && r@ == pairs,
                Err(f) => e == Err::<[(u8, u8); 16], Fault>(f),
            },
    {
        let regs: [u8; 16] = DUMPED;
        let mut seen: [(u8, u8); 16] = [(0, 0); 16];
        let mut i: usize = 0;
        assert(seen@.take(0) =~= Seq::empty());
        while i < 16
            invariant
                i <= 16,
                regs@ == DUMPED@,
                regs@.len() == 16,
                dumping(old(i2c)@, DUMPED@, 0, Seq::empty()) == dumping(i2c@, DUMPED@, i as int, seen@.take(i as int)),
            decreases 16 - i,
        {
            let v: u8 = self.read_reg(i2c, regs[i])?;
            let ghost before = seen@;
            seen[i] = (regs[i], v);
            assert(seen@.take(i + 1) =~= before.take(i as int).push((regs[i as int], v)));
            i = i + 1;
        }
        assert(seen@.take(16) =~= seen@);
        Ok(seen)
    }
}

} // verus!
