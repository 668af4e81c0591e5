//! Interrupt status and enable words of the AXP2101.

use vstd::prelude::*;

verus! {

/// The interrupts that were pending when the status registers (REG
/// 48h-4Ah) were read.
#[derive(Debug, Clone, Copy, PartialEq, Eq, Structural)]
pub struct InterruptStatus {
    pub reg48: u8,
    pub reg49: u8,
    pub reg4a: u8,
}

impl InterruptStatus {
    pub fn new(reg48: u8, reg49: u8, reg4a: u8) -> (r: InterruptStatus)
        ensures
            r == (InterruptStatus { reg48, reg49, reg4a }),
    {
        InterruptStatus { reg48, reg49, reg4a }
    }

    pub fn reg48_byte(&self) -> (r: u8)
        ensures
            r == self.reg48,
    {
        self.reg48
    }

    pub fn reg49_byte(&self) -> (r: u8)
        ensures
            r == self.reg49,
    {
        self.reg49
    }

    pub fn reg4a_byte(&self) -> (r: u8)
        ensures
            r == self.reg4a,
    {
        self.reg4a
    }
}

/// Which interrupts drive the IRQ pin (REG 40h-42h).
#[derive(Debug, Clone, Copy, PartialEq, Eq, Structural)]
pub struct InterruptConfig {
    pub reg40: u8,
    pub reg41: u8,
    pub reg42: u8,
}

impl InterruptConfig {
    /// No interrupt at all.
    pub fn none() -> (r: InterruptConfig)
        ensures
            r == (InterruptConfig { reg40: 0, reg41: 0, reg42: 0 }),
    {
        InterruptConfig { reg40: 0, reg41: 0, reg42: 0 }
    }

    pub fn reg40_byte(&self) -> (r: u8)
        ensures
            r == self.reg40,
    {
        self.reg40
    }

    pub fn reg41_byte(&self) -> (r: u8)
        ensures
            r == self.reg41,
    {
        self.reg41
    }

    pub fn reg42_byte(&self) -> (r: u8)
        ensures
            r == self.reg42,
    {
        self.reg42
    }
}

} // verus!
