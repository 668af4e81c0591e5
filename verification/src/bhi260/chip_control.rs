//! Chip Control (0x05) bits, Table 18.

use vstd::prelude::*;

verus! {

/// Cap the core at 20 MHz during upload/verify (lower peak current;
/// default is full speed with up to ~3 mA draw).
pub const CPU_TURBO_DISABLE: u8 = 0x01;
/// Clear the error and debug registers (0x2E-0x31).
pub const CLEAR_ERROR_REGS: u8 = 0x02;

} // verus!
