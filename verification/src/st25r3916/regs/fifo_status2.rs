//! FIFO status register 2 bits (Table 67; bits 7:6 are the byte
//! count MSBs).

use vstd::prelude::*;

verus! {

pub const UNDERFLOW: u8 = 0x20;
pub const OVERFLOW: u8 = 0x10;

} // verus!
