//! Firmware error codes.

use vstd::prelude::*;

verus! {

/// What a code of the Error Value register means.
pub open spec fn meaning(code: u8) -> Seq<char> {
    match code {
        0x00 => "no error"@,
        0x10 => "firmware expected version mismatch (fatal)"@,
        0x11 => "firmware upload: bad header CRC (fatal)"@,
        0x12 => "firmware upload: SHA hash mismatch (fatal)"@,
        0x13 => "firmware upload: bad image CRC (fatal)"@,
        0x14 => "firmware upload: ECDSA signature verification failed (fatal)"@,
        0x15 => "firmware upload: bad public key CRC (fatal)"@,
        0x16 => "firmware upload: signed firmware required (fatal)"@,
        0x17 => "firmware upload: FW header missing (fatal)"@,
        0x19 => "unexpected watchdog reset (fatal)"@,
        0x1A => "ROM version mismatch (fatal)"@,
        0x1B => "fatal firmware error"@,
        0x1C => "chained fw: next payload not found (fatal)"@,
        0x1D => "chained fw: payload not valid (fatal)"@,
        0x1E => "chained fw: payload entries invalid (fatal)"@,
        0x1F => "bootloader: OTP CRC invalid (fatal)"@,
        0x20 => "firmware init failed (hardware)"@,
        0x21 => "sensor init: unexpected device ID (hardware)"@,
        0x22 => "sensor init: no response from device"@,
        0x23 => "sensor init: unknown"@,
        0x24 => "sensor error: no valid data"@,
        0x25 => "slow sample rate (temporary)"@,
        0x26 => "data overflow / saturated sensor data (fatal)"@,
        0x27 => "stack overflow (fatal)"@,
        0x28 => "insufficient free RAM (fatal)"@,
        0x29 => "sensor init: driver parsing error (fatal)"@,
        0x2A => "too many RAM banks required"@,
        0x2B => "invalid event specified"@,
        0x2C => "more than 32 on-change"@,
        0x2D => "firmware too large (fatal)"@,
        0x2F => "invalid RAM banks (fatal)"@,
        0x30 => "math error (fatal)"@,
        0x40 => "memory error (fatal)"@,
        0x41 => "SWI3 error (fatal)"@,
        0x42 => "SWI4 error (fatal)"@,
        0x43 => "illegal instruction (fatal)"@,
        0x44 => "unhandled interrupt / exception / postmortem available (fatal)"@,
        0x45 => "invalid memory access (fatal)"@,
        0x50 => "algorithm error: BSX init"@,
        0x51 => "algorithm error: BSX do step"@,
        0x52 => "algorithm error: update sub"@,
        0x53 => "algorithm error: get sub"@,
        0x54 => "algorithm error: get phys"@,
        0x55 => "algorithm error: unsupported phys rate"@,
        0x56 => "algorithm error: cannot find BSX driver"@,
        0x60 => "sensor self-test failure (hardware)"@,
        0x61 => "sensor self-test X axis failure (hardware)"@,
        0x62 => "sensor self-test Y axis failure (hardware)"@,
        0x64 => "sensor self-test Z axis failure (hardware)"@,
        0x65 => "FOC failure (hardware)"@,
        0x66 => "sensor busy (hardware)"@,
        0x6F => "self-test or FOC unsupported"@,
        0x72 => "no host interrupt set (fatal)"@,
        0x73 => "event ID has no known size"@,
        0x75 => "host download channel underflow (temporary)"@,
        0x76 => "host upload channel overflow (temporary)"@,
        0x77 => "host download channel empty (temporary)"@,
        0x78 => "DMA error (hardware)"@,
        0x79 => "corrupted input block chain"@,
        0x7A => "corrupted output block chain"@,
        0x7B => "buffer block manager error"@,
        0x7C => "input channel not word aligned (temporary)"@,
        0x7D => "too many flush events (temporary)"@,
        0x7E => "unknown host channel error (hardware)"@,
        0x81 => "decimation too large"@,
        0x90 => "master SPI/I2C queue overflow (fatal)"@,
        0x91 => "SPI/I2C callback error (fatal)"@,
        0xA0 => "timer scheduling error (fatal)"@,
        0xB0 => "invalid GPIO for host IRQ (fatal)"@,
        0xB1 => "error sending initialized meta events (fatal)"@,
        0xC0 => "command error (temporary)"@,
        0xC1 => "command too long (temporary)"@,
        0xC2 => "command buffer overflow (temporary)"@,
        0xD0 => "user mode: sys call invalid (fatal)"@,
        0xD1 => "user mode: trap invalid (fatal)"@,
        0xE1 => "firmware upload failed: header corrupt (fatal)"@,
        0xE2 => "sensor data injection: invalid input stream"@,
        _ => "unknown error code"@,
    }
}

/// Decode a firmware error code from the Error Value register (0x2E). The
/// categories drive the recovery: fatal and hardware errors ask for a
/// reset and a new upload, temporary ones are logged.
pub fn error_description(code: u8) -> (r: &'static str)
    ensures
        r@ == meaning(code),
{
    match code {
        0x00 => "no error",
        0x10 => "firmware expected version mismatch (fatal)",
        0x11 => "firmware upload: bad header CRC (fatal)",
        0x12 => "firmware upload: SHA hash mismatch (fatal)",
        0x13 => "firmware upload: bad image CRC (fatal)",
        0x14 => "firmware upload: ECDSA signature verification failed (fatal)",
        0x15 => "firmware upload: bad public key CRC (fatal)",
        0x16 => "firmware upload: signed firmware required (fatal)",
        0x17 => "firmware upload: FW header missing (fatal)",
        0x19 => "unexpected watchdog reset (fatal)",
        0x1A => "ROM version mismatch (fatal)",
        0x1B => "fatal firmware error",
        0x1C => "chained fw: next payload not found (fatal)",
        0x1D => "chained fw: payload not valid (fatal)",
        0x1E => "chained fw: payload entries invalid (fatal)",
        0x1F => "bootloader: OTP CRC invalid (fatal)",
        0x20 => "firmware init failed (hardware)",
        0x21 => "sensor init: unexpected device ID (hardware)",
        0x22 => "sensor init: no response from device",
        0x23 => "sensor init: unknown",
        0x24 => "sensor error: no valid data",
        0x25 => "slow sample rate (temporary)",
        0x26 => "data overflow / saturated sensor data (fatal)",
        0x27 => "stack overflow (fatal)",
        0x28 => "insufficient free RAM (fatal)",
        0x29 => "sensor init: driver parsing error (fatal)",
        0x2A => "too many RAM banks required",
        0x2B => "invalid event specified",
        0x2C => "more than 32 on-change",
        0x2D => "firmware too large (fatal)",
        0x2F => "invalid RAM banks (fatal)",
        0x30 => "math error (fatal)",
        0x40 => "memory error (fatal)",
        0x41 => "SWI3 error (fatal)",
        0x42 => "SWI4 error (fatal)",
        0x43 => "illegal instruction (fatal)",
        0x44 => "unhandled interrupt / exception / postmortem available (fatal)",
        0x45 => "invalid memory access (fatal)",
        0x50 => "algorithm error: BSX init",
        0x51 => "algorithm error: BSX do step",
        0x52 => "algorithm error: update sub",
        0x53 => "algorithm error: get sub",
        0x54 => "algorithm error: get phys",
        0x55 => "algorithm error: unsupported phys rate",
        0x56 => "algorithm error: cannot find BSX driver",
        0x60 => "sensor self-test failure (hardware)",
        0x61 => "sensor self-test X axis failure (hardware)",
        0x62 => "sensor self-test Y axis failure (hardware)",
        0x64 => "sensor self-test Z axis failure (hardware)",
        0x65 => "FOC failure (hardware)",
        0x66 => "sensor busy (hardware)",
        0x6F => "self-test or FOC unsupported",
        0x72 => "no host interrupt set (fatal)",
        0x73 => "event ID has no known size",
        0x75 => "host download channel underflow (temporary)",
        0x76 => "host upload channel overflow (temporary)",
        0x77 => "host download channel empty (temporary)",
        0x78 => "DMA error (hardware)",
        0x79 => "corrupted input block chain",
        0x7A => "corrupted output block chain",
        0x7B => "buffer block manager error",
        0x7C => "input channel not word aligned (temporary)",
        0x7D => "too many flush events (temporary)",
        0x7E => "unknown host channel error (hardware)",
        0x81 => "decimation too large",
        0x90 => "master SPI/I2C queue overflow (fatal)",
        0x91 => "SPI/I2C callback error (fatal)",
        0xA0 => "timer scheduling error (fatal)",
        0xB0 => "invalid GPIO for host IRQ (fatal)",
        0xB1 => "error sending initialized meta events (fatal)",
        0xC0 => "command error (temporary)",
        0xC1 => "command too long (temporary)",
        0xC2 => "command buffer overflow (temporary)",
        0xD0 => "user mode: sys call invalid (fatal)",
        0xD1 => "user mode: trap invalid (fatal)",
        0xE1 => "firmware upload failed: header corrupt (fatal)",
        0xE2 => "sensor data injection: invalid input stream",
        _ => "unknown error code",
    }
}

} // verus!
