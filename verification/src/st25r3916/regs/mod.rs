//! ST25R3916/7 SPI framing, direct commands, and register map.

use vstd::prelude::*;

pub mod aux_display;
pub mod cmd;
pub mod fifo_status2;
pub mod io_conf1;
pub mod io_conf2;
pub mod irq_error_wup;
pub mod irq_main;
pub mod irq_timer_nfc;
pub mod op_control;
pub mod reg_a;
pub mod reg_b;
pub mod regulator_control;
pub mod spi_mode;

verus! {

/// IC type code in the identity register's upper five bits
/// (Table 117).
pub const IC_TYPE_ST25R3916: u8 = 0b00101;

/// FIFO depth in bytes.
pub const FIFO_SIZE: usize = 512;

} // verus!
