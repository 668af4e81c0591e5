//! What the board firmwares decide on top of the drivers: the display
//! bring-up and its wire transfers, the power bring-up of each board, and
//! the audio dispatch.
//!
//! Pins, clocks and DMA belong to the firmwares themselves; the functions
//! here take and give plain values.

pub mod audio;
pub mod display;
pub mod power;
