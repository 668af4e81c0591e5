//! The numbers of the microphone converter.

use vstd::prelude::*;
use crate::es7210;

verus! {

/// The values in `es7210`.
pub proof fn numbers()
    ensures
        es7210::ADDR == 0x40 && es7210::REG_RESET == 0x00 && es7210::REG_MAINCLK == 0x02,
        es7210::REG_LRCK_DIVH == 0x04 && es7210::REG_LRCK_DIVL == 0x05 && es7210::REG_DLL_PWR == 0x06,
        es7210::REG_OSR == 0x07 && es7210::REG_TIME_CTRL0 == 0x09 && es7210::REG_TIME_CTRL1 == 0x0A,
        es7210::REG_SDP_IF1 == 0x11 && es7210::REG_SDP_IF2 == 0x12 && es7210::REG_ADC_VOL1 == 0x1B,
        es7210::REG_ADC_VOL2 == 0x1C && es7210::REG_ADC_VOL3 == 0x1D && es7210::REG_ADC_VOL4 == 0x1E,
        es7210::REG_ADC34_HPF2 == 0x20 && es7210::REG_ADC34_HPF1 == 0x21 && es7210::REG_ADC12_HPF1 == 0x22,
        es7210::REG_ADC12_HPF2 == 0x23 && es7210::REG_ANALOG == 0x40 && es7210::REG_MIC12_BIAS == 0x41,
        es7210::REG_MIC34_BIAS == 0x42 && es7210::REG_MIC1_GAIN == 0x43 && es7210::REG_MIC2_GAIN == 0x44,
        es7210::REG_MIC3_GAIN == 0x45 && es7210::REG_MIC4_GAIN == 0x46 && es7210::REG_MIC1_POWER == 0x47,
        es7210::REG_MIC2_POWER == 0x48 && es7210::REG_MIC3_POWER == 0x49 && es7210::REG_MIC4_POWER == 0x4A,
        es7210::REG_MIC12_POWER == 0x4B && es7210::REG_MIC34_POWER == 0x4C,
{
}

} // verus!
