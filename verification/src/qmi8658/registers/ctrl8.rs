//! CTRL8 bit masks and field values.

use vstd::prelude::*;

verus! {

/// Route CTRL9 command handshake through STATUSINT.bit7 instead
/// of INT1. Required when INT1 is used for WoM (or any other
/// purpose) so the handshake protocol doesn't clobber the line.
pub const CTRL9_HANDSHAKE_STATUSINT: u8 = 0x80;

/// Route motion-detection event interrupts to INT1 instead of INT2.
pub const MOTION_INT_ON_INT1: u8 = 0x40;

} // verus!
