//! SX1261/2 opcodes, registers, and bit definitions.

use vstd::prelude::*;

pub mod calibrate;
pub mod image_band;
pub mod irq;
pub mod lora_sync_word;
pub mod op_error;
pub mod opcode;
pub mod reg;

verus! {

/// Crystal/TCXO reference frequency the frequency and timing
/// formulas are built on.
pub const F_XTAL_HZ: u32 = 32_000_000;

/// One step of every 24-bit chip timer (TX/RX timeout, TCXO delay,
/// duty-cycle periods): 15.625 us, i.e. 64 steps per millisecond.
pub const TIMER_STEPS_PER_MS: u32 = 64;

} // verus!
