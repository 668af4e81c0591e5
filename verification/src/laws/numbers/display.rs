//! The numbers of the display.

use vstd::prelude::*;
use crate::display::cmd;
use crate::display::co5300;
use crate::display::color;

verus! {

/// Command numbers.
pub proof fn cmd_numbers()
    ensures
        cmd::SLPIN == 0x10 && cmd::SLPOUT == 0x11 && cmd::DISPOFF == 0x28 && cmd::DISPON == 0x29,
        cmd::CASET == 0x2A && cmd::RASET == 0x2B && cmd::RAMWR == 0x2C && cmd::RAMWRC == 0x3C,
        cmd::MADCTL == 0x36 && cmd::PIXFMT == 0x3A && cmd::BRIGHTNESS == 0x51,
{
}

/// The values in `display::co5300`.
pub proof fn co5300_numbers()
    ensures
        co5300::WIDTH == 410 && co5300::HEIGHT == 502 && co5300::FB_BYTES == 411640,
{
}

/// The values in `display::color`.
pub proof fn color_numbers()
    ensures
        color::BLACK == 0x0000 && color::WHITE == 0xFFFF && color::RED == 0xF800 && color::GREEN == 0x07E0,
        color::BLUE == 0x001F,
{
}

} // verus!
