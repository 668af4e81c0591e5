//! The numbers of the receiver.

use vstd::prelude::*;
use crate::ublox::cfg;
use crate::ublox::class;
use crate::ublox::dynmodel;
use crate::ublox::frame;
use crate::ublox::key;
use crate::ublox::msg;
use crate::ublox::nav;

verus! {

/// The values in `ublox::cfg`.
pub proof fn cfg_numbers()
    ensures
        cfg::LAYER_RAM == 0x01 && cfg::LAYER_BBR == 0x02,
{
}

/// Message classes.
pub proof fn class_numbers()
    ensures
        class::NAV == 0x01 && class::RXM == 0x02 && class::ACK == 0x05 && class::CFG == 0x06,
        class::MON == 0x0a,
{
}

/// The values in `ublox::dynmodel`.
pub proof fn dynmodel_numbers()
    ensures
        dynmodel::PORTABLE == 0 && dynmodel::PEDESTRIAN == 3 && dynmodel::WRIST == 9,
{
}

/// The values in `ublox::frame`.
pub proof fn frame_numbers()
    ensures
        frame::SYNC1 == 0xb5 && frame::SYNC2 == 0x62 && frame::MAX_PAYLOAD == 256 && frame::DRAIN_CAP == 1024,
{
}

/// Configuration keys.
pub proof fn key_numbers()
    ensures
        key::UART1_BAUDRATE == 0x4052_0001 && key::UART1_ENABLED == 0x1052_0005,
        key::UART1INPROT_UBX == 0x1073_0001 && key::UART1INPROT_NMEA == 0x1073_0002,
        key::UART1OUTPROT_UBX == 0x1074_0001 && key::UART1OUTPROT_NMEA == 0x1074_0002,
        key::MSGOUT_NAV_PVT_UART1 == 0x2091_0007 && key::RATE_MEAS == 0x3021_0001,
        key::RATE_NAV == 0x3021_0002 && key::NAVSPG_DYNMODEL == 0x2011_0021,
        key::PM_OPERATEMODE == 0x20d0_0001,
{
}

/// Message numbers.
pub proof fn msg_numbers()
    ensures
        msg::NAV_PVT == 0x07 && msg::RXM_PMREQ == 0x41 && msg::ACK_NAK == 0x00 && msg::ACK_ACK == 0x01,
        msg::CFG_VALSET == 0x8a && msg::CFG_VALGET == 0x8b && msg::MON_VER == 0x04,
{
}

/// The values in `ublox::nav`.
pub proof fn nav_numbers()
    ensures
        nav::VALID_DATE == 0x01 && nav::VALID_TIME == 0x02 && nav::VALID_FULLY_RESOLVED == 0x04,
        nav::FLAGS_GNSS_FIX_OK == 0x01 && nav::FLAGS2_CONFIRMED_DATE == 0x40,
        nav::FLAGS2_CONFIRMED_TIME == 0x80 && nav::FLAGS3_INVALID_LLH == 0x0001,
{
}

} // verus!
