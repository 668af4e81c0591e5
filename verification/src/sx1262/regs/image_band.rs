//! CalibrateImage() ISM band presets (Table 9-2) as (freq1, freq2).

use vstd::prelude::*;

verus! {

pub const MHZ_430_440: (u8, u8) = (0x6B, 0x6F);
pub const MHZ_470_510: (u8, u8) = (0x75, 0x81);
pub const MHZ_779_787: (u8, u8) = (0xC1, 0xC5);
pub const MHZ_863_870: (u8, u8) = (0xD7, 0xDB);
pub const MHZ_902_928: (u8, u8) = (0xE1, 0xE9);

} // verus!
