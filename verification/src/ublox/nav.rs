//! UBX-NAV-PVT - the one-message position/velocity/time solution
//! (92-byte payload).

use vstd::prelude::*;
use crate::bytes::{le16, le32, signed, to_i32, u16_le, u32_le};

verus! {

/// GNSSfix type (payload byte 20).
#[derive(Debug, Clone, Copy, PartialEq, Eq, Structural, Default)]
pub enum FixType {
    #[default]
    NoFix,
    DeadReckoning,
    Fix2D,
    Fix3D,
    GnssDeadReckoning,
    TimeOnly,
    /// A value the interface description doesn't define.
    Unknown(u8),
}

impl FixType {
    /// The fix type with number `v`.
    pub open spec fn numbered(v: u8) -> FixType {
        if v == 0 {
            FixType::NoFix
        } else if v == 1 {
            FixType::DeadReckoning
        } else if v == 2 {
            FixType::Fix2D
        } else if v == 3 {
            FixType::Fix3D
        } else if v == 4 {
            FixType::GnssDeadReckoning
        } else if v == 5 {
            FixType::TimeOnly
        } else {
            FixType::Unknown(v)
        }
    }
}

impl From<u8> for FixType {
    fn from(v: u8) -> (r: FixType) {
        match v {
            0 => FixType::NoFix,
            1 => FixType::DeadReckoning,
            2 => FixType::Fix2D,
            3 => FixType::Fix3D,
            4 => FixType::GnssDeadReckoning,
            5 => FixType::TimeOnly,
            other => FixType::Unknown(other),
        }
    }
}

impl vstd::std_specs::convert::FromSpecImpl<u8> for FixType {
    open spec fn obeys_from_spec() -> bool {
        true
    }

    open spec fn from_spec(v: u8) -> FixType {
        FixType::numbered(v)
    }
}

/// Parsed NAV-PVT. Raw units are kept exactly as the wire defines them -
/// scaling to UI units is the caller's business.
#[derive(Debug, Clone, Copy, Default)]
pub struct NavPvt {
    /// GPS time of week, ms.
    pub itow_ms: u32,
    /// UTC calendar date/time.
    pub year: u16,
    pub month: u8,
    pub day: u8,
    pub hour: u8,
    pub min: u8,
    pub sec: u8,
    /// Validity flags (payload byte 11): see `VALID_*`.
    pub valid: u8,
    /// Time accuracy estimate, ns.
    pub t_acc_ns: u32,
    /// Sub-second UTC fraction, ns; can be negative.
    pub nano_ns: i32,
    /// Fix type (payload byte 20).
    pub fix_type: FixType,
    /// Fix status flags (payload byte 21): see `FLAGS_GNSS_FIX_OK`.
    pub flags: u8,
    /// Additional flags (payload byte 22): see `FLAGS2_CONFIRMED_*`.
    pub flags2: u8,
    /// Satellites used in the navigation solution.
    pub num_sv: u8,
    /// Longitude / latitude, 1e-7 degrees.
    pub lon_1e7: i32,
    pub lat_1e7: i32,
    /// Height above ellipsoid / above mean sea level, mm.
    pub height_mm: i32,
    pub hmsl_mm: i32,
    /// Horizontal / vertical accuracy estimate, mm.
    pub h_acc_mm: u32,
    pub v_acc_mm: u32,
    /// NED velocities, mm/s.
    pub vel_n_mms: i32,
    pub vel_e_mms: i32,
    pub vel_d_mms: i32,
    /// Ground speed (2-D), mm/s.
    pub gspeed_mms: i32,
    /// Heading of motion (2-D), 1e-5 degrees.
    pub head_motion_1e5: i32,
    /// Speed accuracy estimate, mm/s.
    pub s_acc_mms: u32,
    /// Heading accuracy estimate, 1e-5 degrees.
    pub head_acc_1e5: u32,
    /// Position DOP, 0.01.
    pub pdop_1e2: u16,
    /// Additional flags (payload bytes 78-79): bit 0 = the position
    /// fields are invalid.
    pub flags3: u16,
}

/// `valid` bit 0: UTC date is valid.
pub const VALID_DATE: u8 = 0x01;
/// `valid` bit 1: UTC time of day is valid.
pub const VALID_TIME: u8 = 0x02;
/// `valid` bit 2: time of day fully resolved.
pub const VALID_FULLY_RESOLVED: u8 = 0x04;
/// `flags` bit 0: fix is valid (within DOP and accuracy masks).
pub const FLAGS_GNSS_FIX_OK: u8 = 0x01;
/// `flags2` bit 6: UTC date validity could be confirmed.
pub const FLAGS2_CONFIRMED_DATE: u8 = 0x40;
/// `flags2` bit 7: UTC time-of-day validity could be confirmed.
pub const FLAGS2_CONFIRMED_TIME: u8 = 0x80;
/// `flags3` bit 0: the position fields are invalid.
pub const FLAGS3_INVALID_LLH: u16 = 0x0001;

/// The unsigned 16-bit field at offset `o` of a payload.
pub open spec fn u16_field(p: Seq<u8>, o: int) -> int {
    le16(p[o], p[o + 1])
}

/// The unsigned 32-bit field at offset `o` of a payload.
pub open spec fn u32_field(p: Seq<u8>, o: int) -> int {
    le32(p[o], p[o + 1], p[o + 2], p[o + 3])
}

/// The signed 32-bit field at offset `o` of a payload.
pub open spec fn i32_field(p: Seq<u8>, o: int) -> int {
    signed(u32_field(p, o), 0x8000_0000)
}

fn u16_at(p: &[u8], o: usize) -> (r: u16)
    requires
        o + 2 <= p@.len(),
    ensures
        r == u16_field(p@, o as int),
{
    let n: usize = p.len();
    u16_le(p[o], p[o + 1])
}

fn u32_at(p: &[u8], o: usize) -> (r: u32)
    requires
        o + 4 <= p@.len(),
    ensures
        r == u32_field(p@, o as int),
{
    let n: usize = p.len();
    u32_le(p[o], p[o + 1], p[o + 2], p[o + 3])
}

fn i32_at(p: &[u8], o: usize) -> (r: i32)
    requires
        o + 4 <= p@.len(),
    ensures
        r == i32_field(p@, o as int),
{
    to_i32(u32_at(p, o))
}

impl NavPvt {
    /// Wire payload length.
    pub const LEN: usize = 92;

    /// `self` holds what the payload `p` says, field by field.
    pub open spec fn reads(self, p: Seq<u8>) -> bool {
        &&& self.itow_ms == u32_field(p, 0)
        &&& self.year == u16_field(p, 4)
        &&& self.month == p[6]
        &&& self.day == p[7]
        &&& self.hour == p[8]
        &&& self.min == p[9]
        &&& self.sec == p[10]
        &&& self.valid == p[11]
        &&& self.t_acc_ns == u32_field(p, 12)
        &&& self.nano_ns == i32_field(p, 16)
        &&& self.fix_type == FixType::numbered(p[20])
        &&& self.flags == p[21]
        &&& self.flags2 == p[22]
        &&& self.num_sv == p[23]
        &&& self.lon_1e7 == i32_field(p, 24)
        &&& self.lat_1e7 == i32_field(p, 28)
        &&& self.height_mm == i32_field(p, 32)
        &&& self.hmsl_mm == i32_field(p, 36)
        &&& self.h_acc_mm == u32_field(p, 40)
        &&& self.v_acc_mm == u32_field(p, 44)
        &&& self.vel_n_mms == i32_field(p, 48)
        &&& self.vel_e_mms == i32_field(p, 52)
        &&& self.vel_d_mms == i32_field(p, 56)
        &&& self.gspeed_mms == i32_field(p, 60)
        &&& self.head_motion_1e5 == i32_field(p, 64)
        &&& self.s_acc_mms == u32_field(p, 68)
        &&& self.head_acc_1e5 == u32_field(p, 72)
        &&& self.pdop_1e2 == u16_field(p, 76)
        &&& self.flags3 == u16_field(p, 78)
    }

    /// Parse a NAV-PVT payload. `None` if it is too short.
    pub fn parse(p: &[u8]) -> (r: Option<NavPvt>)
        ensures
            r is Some <==> p@.len() >= 92,
            r matches Some(pvt) ==> pvt.reads(p@),
    {
        if p.len() < 92 {
            return None;
        }
        Some(NavPvt {
            itow_ms: u32_at(p, 0),
            year: u16_at(p, 4),
            month: p[6],
            day: p[7],
            hour: p[8],
            min: p[9],
            sec: p[10],
            valid: p[11],
            t_acc_ns: u32_at(p, 12),
            nano_ns: i32_at(p, 16),
            fix_type: FixType::from(p[20]),
            flags: p[21],
            flags2: p[22],
            num_sv: p[23],
            lon_1e7: i32_at(p, 24),
            lat_1e7: i32_at(p, 28),
            height_mm: i32_at(p, 32),
            hmsl_mm: i32_at(p, 36),
            h_acc_mm: u32_at(p, 40),
            v_acc_mm: u32_at(p, 44),
            vel_n_mms: i32_at(p, 48),
            vel_e_mms: i32_at(p, 52),
            vel_d_mms: i32_at(p, 56),
            gspeed_mms: i32_at(p, 60),
            head_motion_1e5: i32_at(p, 64),
            s_acc_mms: u32_at(p, 68),
            head_acc_1e5: u32_at(p, 72),
            pdop_1e2: u16_at(p, 76),
            flags3: u16_at(p, 78),
        })
    }

    /// The UTC date and time fields can be trusted: date and time are
    /// valid and the seconds ambiguity is resolved. A real-time clock is
    /// set from the receiver only when this holds.
    pub fn time_trustworthy(&self) -> (r: bool)
        ensures
            r == (self.valid & VALID_DATE != 0 && self.valid & VALID_TIME != 0 && self.valid
                & VALID_FULLY_RESOLVED != 0),
            r == (self.valid as int % 8 == 7),
    {
        let mask: u8 = VALID_DATE | VALID_TIME | VALID_FULLY_RESOLVED;
        let v: u8 = self.valid;
        assert((v & (0x01u8 | 0x02u8 | 0x04u8) == (0x01u8 | 0x02u8 | 0x04u8)) == (v & 0x01u8 != 0 && v & 0x02u8 != 0 && v
            & 0x04u8 != 0)) by (bit_vector);
        assert((v & (0x01u8 | 0x02u8 | 0x04u8) == (0x01u8 | 0x02u8 | 0x04u8)) == (v % 8 == 7)) by (bit_vector);
        v & mask == mask
    }

    /// A usable position: 2-D/3-D fix, flagged OK, coordinates not
    /// marked invalid.
    pub fn position_usable(&self) -> (r: bool)
        ensures
            r == ((self.fix_type is Fix2D || self.fix_type is Fix3D) && self.flags & FLAGS_GNSS_FIX_OK != 0
                && self.flags3 & FLAGS3_INVALID_LLH == 0),
            r == ((self.fix_type is Fix2D || self.fix_type is Fix3D) && self.flags as int % 2 == 1 && self.flags3 as int
                % 2 == 0),
    {
        let (f, g): (u8, u16) = (self.flags, self.flags3);
        assert((f & 0x01u8 != 0) == (f % 2 == 1) && (g & 0x0001u16 == 0) == (g % 2 == 0)) by (bit_vector);
        let fixed: bool = match self.fix_type {
            FixType::Fix2D => true,
            FixType::Fix3D => true,
            _ => false,
        };
        fixed && self.flags & FLAGS_GNSS_FIX_OK != 0 && self.flags3 & FLAGS3_INVALID_LLH == 0
    }
}

} // verus!
