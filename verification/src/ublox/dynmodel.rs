//! CFG-NAVSPG-DYNMODEL constants. `WRIST` is not available in all
//! products: treat an ACK-NAK on it as non-fatal and fall back to
//! `PORTABLE`.

use vstd::prelude::*;

verus! {

/// Portable - the general-purpose default.
pub const PORTABLE: u8 = 0;
/// Pedestrian.
pub const PEDESTRIAN: u8 = 3;
/// Wrist-worn watch: filters wrist-swing motion.
pub const WRIST: u8 = 9;

} // verus!
