//! The numbers of the boards.

use vstd::prelude::*;
use crate::firmware::audio;
use crate::firmware::display;
use crate::firmware::power;

verus! {

/// The values in `firmware::audio`.
pub proof fn audio_numbers()
    ensures
        audio::SPEAKER_VOLUME == 0xAF,
{
}

/// The values in `firmware::display`.
pub proof fn display_numbers()
    ensures
        display::TILE_H == 50 && display::NUM_TILES == 11 && display::TX_BUF_SIZE == 32736,
        display::OPCODE_CTRL == 0x02 && display::OPCODE_PIXEL == 0x32 && display::FB_BYTES_PER_TILE == 41000,
{
}

/// The values in `firmware::power`.
pub proof fn power_numbers()
    ensures
        power::WAKE_INT_TYPE == 4 && power::TOUCH_TIMEOUT_MS == 5000 && power::TOUCH_POLL_MS == 500,
{
}

} // verus!
