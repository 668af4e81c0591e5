//! The numbers of the codec.

use vstd::prelude::*;
use crate::es8311;

verus! {

/// The values in `es8311`.
pub proof fn numbers()
    ensures
        es8311::ADDR == 0x18 && es8311::REG_RESET == 0x00 && es8311::REG_CLK1 == 0x01,
        es8311::REG_CLK2 == 0x02 && es8311::REG_CLK3 == 0x03 && es8311::REG_CLK4 == 0x04,
        es8311::REG_CLK5 == 0x05 && es8311::REG_CLK6 == 0x06 && es8311::REG_CLK7 == 0x07,
        es8311::REG_CLK8 == 0x08 && es8311::REG_SDPIN == 0x09 && es8311::REG_SDPOUT == 0x0A,
        es8311::REG_SYS0D == 0x0D && es8311::REG_SYS0E == 0x0E && es8311::REG_SYS12 == 0x12,
        es8311::REG_SYS13 == 0x13 && es8311::REG_SYS14 == 0x14 && es8311::REG_ADC15 == 0x15,
        es8311::REG_ADC17 == 0x17 && es8311::REG_ADC1C == 0x1C && es8311::REG_DAC_VOL == 0x32,
        es8311::REG_DAC_EQ == 0x37 && es8311::REG_GP45 == 0x45 && es8311::REG_ID1 == 0xFD,
        es8311::REG_ID2 == 0xFE && es8311::REG_VERSION == 0xFF && es8311::VOLUME_0_DB == 0xBF,
{
}

} // verus!
