//! STATUS1 bit masks and field values.

use vstd::prelude::*;

verus! {

/// CTRL9 command execution complete on early silicon (bit 0; from rev
/// 0x7C on STATUSINT.bit7 instead).
pub const CMD_DONE: u8 = 0x01;
/// Wake-on-Motion event detected (bit 2). From WoM section 9 of
/// the C datasheet. Reading STATUS1 clears this bit.
pub const WOM: u8 = 0x04;

} // verus!
