//! Configuration key ids.

use vstd::prelude::*;

verus! {

/// CFG-UART1-BAUDRATE (U4) - the data sheet default is 38400.
pub const UART1_BAUDRATE: u32 = 0x4052_0001;
/// CFG-UART1-ENABLED (L).
pub const UART1_ENABLED: u32 = 0x1052_0005;
/// CFG-UART1INPROT-UBX (L) - UBX accepted as input (default on).
pub const UART1INPROT_UBX: u32 = 0x1073_0001;
/// CFG-UART1INPROT-NMEA (L) - NMEA accepted as input.
pub const UART1INPROT_NMEA: u32 = 0x1073_0002;
/// CFG-UART1OUTPROT-UBX (L) - UBX emitted (default on).
pub const UART1OUTPROT_UBX: u32 = 0x1074_0001;
/// CFG-UART1OUTPROT-NMEA (L) - NMEA emitted (default on).
pub const UART1OUTPROT_NMEA: u32 = 0x1074_0002;
/// CFG-MSGOUT-UBX_NAV_PVT_UART1 (U1) - NAV-PVT per how many navigation
/// epochs on UART1 (0 = off, 1 = every epoch).
pub const MSGOUT_NAV_PVT_UART1: u32 = 0x2091_0007;
/// CFG-RATE-MEAS (U2, ms) - time between GNSS measurements.
pub const RATE_MEAS: u32 = 0x3021_0001;
/// CFG-RATE-NAV (U2) - measurements per navigation solution.
pub const RATE_NAV: u32 = 0x3021_0002;
/// CFG-NAVSPG-DYNMODEL (E1) - dynamic platform model.
pub const NAVSPG_DYNMODEL: u32 = 0x2011_0021;
/// CFG-PM-OPERATEMODE (E1) - 0 FULL, 1 PSMOO, 2 PSMCT.
pub const PM_OPERATEMODE: u32 = 0x20d0_0001;

} // verus!
