//! Regulator control register bits (Table 90).

use vstd::prelude::*;

verus! {

/// 0: voltages from Adjust Regulators; 1: from rege_<3:0>.
pub const REG_S: u8 = 0x80;

} // verus!
