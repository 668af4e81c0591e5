//! Host interface register map (datasheet Table 17).

use vstd::prelude::*;

verus! {

// DMA channels (Table 6/7). Not auto-incrementing - a burst on one
// of these streams the channel's data.
pub const CHANNEL_CMD: u8 = 0x00; // write-only: command packets in
pub const CHANNEL_WAKE_FIFO: u8 = 0x01; // read-only: wake-up FIFO out
pub const CHANNEL_NONWAKE_FIFO: u8 = 0x02; // read-only: non-wake-up FIFO out
// Read-only: status/debug out. NOTE: in synchronous mode (the
// reset default) this channel carries raw status packets with NO
// transfer-length prefix - the FIFO framing of channels 1/2 only
// applies here in asynchronous mode (Section 14.2).
pub const CHANNEL_STATUS_FIFO: u8 = 0x03;

pub const CHIP_CONTROL: u8 = 0x05; // Table 18
pub const HOST_INTERFACE_CTRL: u8 = 0x06; // Table 19
pub const HOST_INTERRUPT_CTRL: u8 = 0x07; // Table 20
// 0x08-0x13: WGP1-WGP3 general purpose host-writeable (unused here)
pub const RESET_REQUEST: u8 = 0x14; // Table 21, bit 0 self-clearing
pub const TIMESTAMP_EVENT_REQUEST: u8 = 0x15; // Table 22
pub const HOST_CONTROL: u8 = 0x16; // Table 24 (SPI wires / I2C watchdog)
pub const HOST_STATUS: u8 = 0x17; // Table 25
// 0x18-0x1B: Host Channel CRC (ISO-3309, of the last channel used)
pub const HOST_CRC: u8 = 0x18;
pub const PRODUCT_ID: u8 = 0x1C; // reads 0x89 (Fuser2)
pub const REVISION_ID: u8 = 0x1D; // reads 0x02 or 0x03
pub const ROM_VERSION: u8 = 0x1E; // u16 LSB first, reads 0x142E
pub const KERNEL_VERSION: u8 = 0x20; // u16, 0 before firmware boot
pub const USER_VERSION: u8 = 0x22; // u16, 0 before firmware boot
pub const FEATURE_STATUS: u8 = 0x24; // Table 26
pub const BOOT_STATUS: u8 = 0x25; // Table 27
pub const HOST_INTERRUPT_TIMESTAMP: u8 = 0x26; // 40 bit, 0x26-0x2A
pub const CHIP_ID: u8 = 0x2B; // reads 0x70 or 0xF0
pub const INTERRUPT_STATUS: u8 = 0x2D; // Table 28
pub const ERROR_VALUE: u8 = 0x2E; // Table 29
pub const ERROR_AUX: u8 = 0x2F;
pub const DEBUG_VALUE: u8 = 0x30;
pub const DEBUG_STATE: u8 = 0x31; // Table 30
// 0x32-0x3D: RGP5-RGP7 general purpose host-readable (unused here)

} // verus!
