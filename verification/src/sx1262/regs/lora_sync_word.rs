//! LoRa sync word values for the 0x0740/0x0741 register pair.

use vstd::prelude::*;

verus! {

pub const PUBLIC: u16 = 0x3444;
pub const PRIVATE: u16 = 0x1424;

} // verus!
