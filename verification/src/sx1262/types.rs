//! Parameter and status types of the SX1261/2 driver.

use vstd::prelude::*;

verus! {

// ---- Parameter types -------------------------------------------------------

/// SetStandby clock source (Table 13-4).
#[derive(Debug, Clone, Copy, PartialEq, Eq, Structural)]
pub enum StandbyClk {
    /// 13 MHz RC oscillator - the reset-default configuration mode.
    Rc,
    /// 32 MHz crystal/TCXO running.
    Xosc,
}

impl StandbyClk {
    /// The value that the chip knows the setting by.
    pub open spec fn code(self) -> u8 {
        match self {
            StandbyClk::Rc => 0x00,
            StandbyClk::Xosc => 0x01,
        }
    }

    /// The value that the chip knows the setting by.
    pub fn bits(self) -> (r: u8)
        ensures
            r == self.code(),
    {
        match self {
            StandbyClk::Rc => 0x00,
            StandbyClk::Xosc => 0x01,
        }
    }
}

/// SetSleep configuration (Table 13-2).
#[derive(Debug, Clone, Copy, PartialEq, Eq, Structural)]
pub struct SleepConfig {
    /// Warm start: retain the active modem's configuration in the
    /// retention registers (wake in 340 us instead of 3.5 ms, no
    /// reconfiguration needed).
    pub warm_start: bool,
    /// Keep the RTC running on RC64k and allow it to wake the chip
    /// (listen-mode plumbing).
    pub rtc_wake: bool,
}

/// SetRegulatorMode parameter (Table 13-16).
#[derive(Debug, Clone, Copy, PartialEq, Eq, Structural)]
pub enum RegulatorMode {
    /// LDO only (reset default; roughly doubles RX/TX current).
    Ldo,
    /// DC-DC + LDO for STDBY_XOSC, FS, RX and TX.
    DcDcLdo,
}

impl RegulatorMode {
    /// The value that the chip knows the setting by.
    pub open spec fn code(self) -> u8 {
        match self {
            RegulatorMode::Ldo => 0x00,
            RegulatorMode::DcDcLdo => 0x01,
        }
    }

    /// The value that the chip knows the setting by.
    pub fn bits(self) -> (r: u8)
        ensures
            r == self.code(),
    {
        match self {
            RegulatorMode::Ldo => 0x00,
            RegulatorMode::DcDcLdo => 0x01,
        }
    }
}

/// SetRxTxFallbackMode parameter (Table 13-23).
#[derive(Debug, Clone, Copy, PartialEq, Eq, Structural)]
pub enum FallbackMode {
    Fs,
    StandbyXosc,
    /// Reset default.
    StandbyRc,
}

impl FallbackMode {
    /// The value that the chip knows the setting by.
    pub open spec fn code(self) -> u8 {
        match self {
            FallbackMode::Fs => 0x40,
            FallbackMode::StandbyXosc => 0x30,
            FallbackMode::StandbyRc => 0x20,
        }
    }

    /// The value that the chip knows the setting by.
    pub fn bits(self) -> (r: u8)
        ensures
            r == self.code(),
    {
        match self {
            FallbackMode::Fs => 0x40,
            FallbackMode::StandbyXosc => 0x30,
            FallbackMode::StandbyRc => 0x20,
        }
    }
}

/// SetPacketType parameter (Table 13-38).
#[derive(Debug, Clone, Copy, PartialEq, Eq, Structural)]
pub enum PacketType {
    Gfsk,
    LoRa,
    LrFhss,
}

impl PacketType {
    /// The value that the chip knows the setting by.
    pub open spec fn code(self) -> u8 {
        match self {
            PacketType::Gfsk => 0x00,
            PacketType::LoRa => 0x01,
            PacketType::LrFhss => 0x03,
        }
    }

    /// The value that the chip knows the setting by.
    pub fn bits(self) -> (r: u8)
        ensures
            r == self.code(),
    {
        match self {
            PacketType::Gfsk => 0x00,
            PacketType::LoRa => 0x01,
            PacketType::LrFhss => 0x03,
        }
    }
}

/// PA ramp times (Table 13-41).
#[derive(Debug, Clone, Copy, PartialEq, Eq, Structural)]
pub enum RampTime {
    Us10,
    Us20,
    Us40,
    Us80,
    Us200,
    Us800,
    Us1700,
    Us3400,
}

impl RampTime {
    /// The value that the chip knows the setting by.
    pub open spec fn code(self) -> u8 {
        match self {
            RampTime::Us10 => 0x00,
            RampTime::Us20 => 0x01,
            RampTime::Us40 => 0x02,
            RampTime::Us80 => 0x03,
            RampTime::Us200 => 0x04,
            RampTime::Us800 => 0x05,
            RampTime::Us1700 => 0x06,
            RampTime::Us3400 => 0x07,
        }
    }

    /// The value that the chip knows the setting by.
    pub fn bits(self) -> (r: u8)
        ensures
            r == self.code(),
    {
        match self {
            RampTime::Us10 => 0x00,
            RampTime::Us20 => 0x01,
            RampTime::Us40 => 0x02,
            RampTime::Us80 => 0x03,
            RampTime::Us200 => 0x04,
            RampTime::Us800 => 0x05,
            RampTime::Us1700 => 0x06,
            RampTime::Us3400 => 0x07,
        }
    }
}

/// SX1262 PA operating points from the optimal-settings table (Table
/// 13-21): (paDutyCycle, hpMax) with deviceSel=0, paLut=1. Each preset
/// expects the matching `SetTxParams` power of +22 dBm; lower nominal
/// powers with these presets are reached by lowering the SetTxParams value
/// instead. The table's caution stands: paDutyCycle above 0x04 risks PA
/// overstress on the SX1262.
#[derive(Debug, Clone, Copy, PartialEq, Eq, Structural)]
pub enum PaPreset {
    Dbm22,
    Dbm20,
    Dbm17,
    Dbm14,
}

impl PaPreset {
    /// The duty cycle and hpMax of the operating point.
    pub open spec fn point(self) -> (u8, u8) {
        match self {
            PaPreset::Dbm22 => (0x04, 0x07),
            PaPreset::Dbm20 => (0x03, 0x05),
            PaPreset::Dbm17 => (0x02, 0x03),
            PaPreset::Dbm14 => (0x02, 0x02),
        }
    }

    /// The duty cycle and hpMax of the operating point.
    pub fn duty_hpmax(self) -> (r: (u8, u8))
        ensures
            r == self.point(),
            r.0 <= 0x04,
    {
        match self {
            PaPreset::Dbm22 => (0x04, 0x07),
            PaPreset::Dbm20 => (0x03, 0x05),
            PaPreset::Dbm17 => (0x02, 0x03),
            PaPreset::Dbm14 => (0x02, 0x02),
        }
    }
}

/// TCXO supply voltage on DIO3 (Table 13-35). The regulator needs VDD at
/// least 200 mV above the chosen voltage.
#[derive(Debug, Clone, Copy, PartialEq, Eq, Structural)]
pub enum TcxoVoltage {
    V1_6,
    V1_7,
    V1_8,
    V2_2,
    V2_4,
    V2_7,
    V3_0,
    V3_3,
}

impl TcxoVoltage {
    /// The value that the chip knows the setting by.
    pub open spec fn code(self) -> u8 {
        match self {
            TcxoVoltage::V1_6 => 0x00,
            TcxoVoltage::V1_7 => 0x01,
            TcxoVoltage::V1_8 => 0x02,
            TcxoVoltage::V2_2 => 0x03,
            TcxoVoltage::V2_4 => 0x04,
            TcxoVoltage::V2_7 => 0x05,
            TcxoVoltage::V3_0 => 0x06,
            TcxoVoltage::V3_3 => 0x07,
        }
    }

    /// The value that the chip knows the setting by.
    pub fn bits(self) -> (r: u8)
        ensures
            r == self.code(),
    {
        match self {
            TcxoVoltage::V1_6 => 0x00,
            TcxoVoltage::V1_7 => 0x01,
            TcxoVoltage::V1_8 => 0x02,
            TcxoVoltage::V2_2 => 0x03,
            TcxoVoltage::V2_4 => 0x04,
            TcxoVoltage::V2_7 => 0x05,
            TcxoVoltage::V3_0 => 0x06,
            TcxoVoltage::V3_3 => 0x07,
        }
    }
}

/// LoRa spreading factor (Table 13-47).
#[derive(Debug, Clone, Copy, PartialEq, Eq, Structural)]
pub enum LoRaSf {
    Sf5,
    Sf6,
    Sf7,
    Sf8,
    Sf9,
    Sf10,
    Sf11,
    Sf12,
}

impl LoRaSf {
    /// The value that the chip knows the setting by.
    pub open spec fn code(self) -> u8 {
        match self {
            LoRaSf::Sf5 => 0x05,
            LoRaSf::Sf6 => 0x06,
            LoRaSf::Sf7 => 0x07,
            LoRaSf::Sf8 => 0x08,
            LoRaSf::Sf9 => 0x09,
            LoRaSf::Sf10 => 0x0A,
            LoRaSf::Sf11 => 0x0B,
            LoRaSf::Sf12 => 0x0C,
        }
    }

    /// The value that the chip knows the setting by.
    pub fn bits(self) -> (r: u8)
        ensures
            r == self.code(),
    {
        match self {
            LoRaSf::Sf5 => 0x05,
            LoRaSf::Sf6 => 0x06,
            LoRaSf::Sf7 => 0x07,
            LoRaSf::Sf8 => 0x08,
            LoRaSf::Sf9 => 0x09,
            LoRaSf::Sf10 => 0x0A,
            LoRaSf::Sf11 => 0x0B,
            LoRaSf::Sf12 => 0x0C,
        }
    }
}

/// LoRa bandwidth (Table 13-48).
#[derive(Debug, Clone, Copy, PartialEq, Eq, Structural)]
pub enum LoRaBw {
    Khz7,
    Khz10,
    Khz15,
    Khz20,
    Khz31,
    Khz41,
    Khz62,
    Khz125,
    Khz250,
    Khz500,
}

impl LoRaBw {
    /// The value that the chip knows the setting by.
    pub open spec fn code(self) -> u8 {
        match self {
            LoRaBw::Khz7 => 0x00,
            LoRaBw::Khz10 => 0x08,
            LoRaBw::Khz15 => 0x01,
            LoRaBw::Khz20 => 0x09,
            LoRaBw::Khz31 => 0x02,
            LoRaBw::Khz41 => 0x0A,
            LoRaBw::Khz62 => 0x03,
            LoRaBw::Khz125 => 0x04,
            LoRaBw::Khz250 => 0x05,
            LoRaBw::Khz500 => 0x06,
        }
    }

    /// The value that the chip knows the setting by.
    pub fn bits(self) -> (r: u8)
        ensures
            r == self.code(),
    {
        match self {
            LoRaBw::Khz7 => 0x00,
            LoRaBw::Khz10 => 0x08,
            LoRaBw::Khz15 => 0x01,
            LoRaBw::Khz20 => 0x09,
            LoRaBw::Khz31 => 0x02,
            LoRaBw::Khz41 => 0x0A,
            LoRaBw::Khz62 => 0x03,
            LoRaBw::Khz125 => 0x04,
            LoRaBw::Khz250 => 0x05,
            LoRaBw::Khz500 => 0x06,
        }
    }
}

/// LoRa coding rate (Table 13-49); the `Li` variants use the long
/// interleaver for extra interference robustness.
#[derive(Debug, Clone, Copy, PartialEq, Eq, Structural)]
pub enum LoRaCr {
    Cr4_5,
    Cr4_6,
    Cr4_7,
    Cr4_8,
    Cr4_5Li,
    Cr4_6Li,
    Cr4_8Li,
}

impl LoRaCr {
    /// The value that the chip knows the setting by.
    pub open spec fn code(self) -> u8 {
        match self {
            LoRaCr::Cr4_5 => 0x01,
            LoRaCr::Cr4_6 => 0x02,
            LoRaCr::Cr4_7 => 0x03,
            LoRaCr::Cr4_8 => 0x04,
            LoRaCr::Cr4_5Li => 0x05,
            LoRaCr::Cr4_6Li => 0x06,
            LoRaCr::Cr4_8Li => 0x07,
        }
    }

    /// The value that the chip knows the setting by.
    pub fn bits(self) -> (r: u8)
        ensures
            r == self.code(),
    {
        match self {
            LoRaCr::Cr4_5 => 0x01,
            LoRaCr::Cr4_6 => 0x02,
            LoRaCr::Cr4_7 => 0x03,
            LoRaCr::Cr4_8 => 0x04,
            LoRaCr::Cr4_5Li => 0x05,
            LoRaCr::Cr4_6Li => 0x06,
            LoRaCr::Cr4_8Li => 0x07,
        }
    }
}

/// LoRa modulation parameters (section 13.4.5.2). Low data rate
/// optimization is required once the symbol time reaches 16.38 ms -
/// typically SF11/SF12 at BW125 and SF12 at BW250.
#[derive(Debug, Clone, Copy, PartialEq, Eq, Structural)]
pub struct LoRaModParams {
    pub sf: LoRaSf,
    pub bw: LoRaBw,
    pub cr: LoRaCr,
    pub low_data_rate_opt: bool,
}

/// LoRa packet parameters (section 13.4.6.2).
#[derive(Debug, Clone, Copy, PartialEq, Eq, Structural)]
pub struct LoRaPacketParams {
    /// Preamble length in symbols (>= 1).
    pub preamble_symbols: u16,
    /// `true` = implicit (fixed-length) header, `false` = explicit
    /// (variable-length) header carrying length/CR/CRC to the peer.
    pub implicit_header: bool,
    /// Payload length to send, or the maximum accepted in RX.
    pub payload_len: u8,
    pub crc_on: bool,
    pub invert_iq: bool,
}

/// GFSK pulse shaping (Table 13-44).
#[derive(Debug, Clone, Copy, PartialEq, Eq, Structural)]
pub enum GfskPulseShape {
    Unshaped,
    GaussianBt0_3,
    GaussianBt0_5,
    GaussianBt0_7,
    GaussianBt1,
}

impl GfskPulseShape {
    /// The value that the chip knows the setting by.
    pub open spec fn code(self) -> u8 {
        match self {
            GfskPulseShape::Unshaped => 0x00,
            GfskPulseShape::GaussianBt0_3 => 0x08,
            GfskPulseShape::GaussianBt0_5 => 0x09,
            GfskPulseShape::GaussianBt0_7 => 0x0A,
            GfskPulseShape::GaussianBt1 => 0x0B,
        }
    }

    /// The value that the chip knows the setting by.
    pub fn bits(self) -> (r: u8)
        ensures
            r == self.code(),
    {
        match self {
            GfskPulseShape::Unshaped => 0x00,
            GfskPulseShape::GaussianBt0_3 => 0x08,
            GfskPulseShape::GaussianBt0_5 => 0x09,
            GfskPulseShape::GaussianBt0_7 => 0x0A,
            GfskPulseShape::GaussianBt1 => 0x0B,
        }
    }
}

/// GFSK RX bandwidth, double-sideband (Table 13-45).
#[derive(Debug, Clone, Copy, PartialEq, Eq, Structural)]
pub enum GfskBw {
    Khz4_8,
    Khz5_8,
    Khz7_3,
    Khz9_7,
    Khz11_7,
    Khz14_6,
    Khz19_5,
    Khz23_4,
    Khz29_3,
    Khz39_0,
    Khz46_9,
    Khz58_6,
    Khz78_2,
    Khz93_8,
    Khz117_3,
    Khz156_2,
    Khz187_2,
    Khz234_3,
    Khz312_0,
    Khz373_6,
    Khz467_0,
}

impl GfskBw {
    /// The value that the chip knows the setting by.
    pub open spec fn code(self) -> u8 {
        match self {
            GfskBw::Khz4_8 => 0x1F,
            GfskBw::Khz5_8 => 0x17,
            GfskBw::Khz7_3 => 0x0F,
            GfskBw::Khz9_7 => 0x1E,
            GfskBw::Khz11_7 => 0x16,
            GfskBw::Khz14_6 => 0x0E,
            GfskBw::Khz19_5 => 0x1D,
            GfskBw::Khz23_4 => 0x15,
            GfskBw::Khz29_3 => 0x0D,
            GfskBw::Khz39_0 => 0x1C,
            GfskBw::Khz46_9 => 0x14,
            GfskBw::Khz58_6 => 0x0C,
            GfskBw::Khz78_2 => 0x1B,
            GfskBw::Khz93_8 => 0x13,
            GfskBw::Khz117_3 => 0x0B,
            GfskBw::Khz156_2 => 0x1A,
            GfskBw::Khz187_2 => 0x12,
            GfskBw::Khz234_3 => 0x0A,
            GfskBw::Khz312_0 => 0x19,
            GfskBw::Khz373_6 => 0x11,
            GfskBw::Khz467_0 => 0x09,
        }
    }

    /// The value that the chip knows the setting by.
    pub fn bits(self) -> (r: u8)
        ensures
            r == self.code(),
    {
        match self {
            GfskBw::Khz4_8 => 0x1F,
            GfskBw::Khz5_8 => 0x17,
            GfskBw::Khz7_3 => 0x0F,
            GfskBw::Khz9_7 => 0x1E,
            GfskBw::Khz11_7 => 0x16,
            GfskBw::Khz14_6 => 0x0E,
            GfskBw::Khz19_5 => 0x1D,
            GfskBw::Khz23_4 => 0x15,
            GfskBw::Khz29_3 => 0x0D,
            GfskBw::Khz39_0 => 0x1C,
            GfskBw::Khz46_9 => 0x14,
            GfskBw::Khz58_6 => 0x0C,
            GfskBw::Khz78_2 => 0x1B,
            GfskBw::Khz93_8 => 0x13,
            GfskBw::Khz117_3 => 0x0B,
            GfskBw::Khz156_2 => 0x1A,
            GfskBw::Khz187_2 => 0x12,
            GfskBw::Khz234_3 => 0x0A,
            GfskBw::Khz312_0 => 0x19,
            GfskBw::Khz373_6 => 0x11,
            GfskBw::Khz467_0 => 0x09,
        }
    }
}

/// GFSK modulation parameters (section 13.4.5.1). Bit rate range 600 b/s
/// .. 500 kb/s; the RX bandwidth must cover twice the deviation plus the
/// bit rate.
#[derive(Debug, Clone, Copy, PartialEq, Eq, Structural)]
pub struct GfskModParams {
    pub bitrate_bps: u32,
    pub pulse_shape: GfskPulseShape,
    pub rx_bw: GfskBw,
    pub fdev_hz: u32,
}

/// GFSK preamble detector gate length (Table 13-53).
#[derive(Debug, Clone, Copy, PartialEq, Eq, Structural)]
pub enum PreambleDetector {
    Off,
    Bits8,
    Bits16,
    Bits24,
    Bits32,
}

impl PreambleDetector {
    /// The value that the chip knows the setting by.
    pub open spec fn code(self) -> u8 {
        match self {
            PreambleDetector::Off => 0x00,
            PreambleDetector::Bits8 => 0x04,
            PreambleDetector::Bits16 => 0x05,
            PreambleDetector::Bits24 => 0x06,
            PreambleDetector::Bits32 => 0x07,
        }
    }

    /// The value that the chip knows the setting by.
    pub fn bits(self) -> (r: u8)
        ensures
            r == self.code(),
    {
        match self {
            PreambleDetector::Off => 0x00,
            PreambleDetector::Bits8 => 0x04,
            PreambleDetector::Bits16 => 0x05,
            PreambleDetector::Bits24 => 0x06,
            PreambleDetector::Bits32 => 0x07,
        }
    }
}

/// GFSK address filtering (Table 13-56).
#[derive(Debug, Clone, Copy, PartialEq, Eq, Structural)]
pub enum AddrComp {
    Off,
    Node,
    NodeAndBroadcast,
}

impl AddrComp {
    /// The value that the chip knows the setting by.
    pub open spec fn code(self) -> u8 {
        match self {
            AddrComp::Off => 0x00,
            AddrComp::Node => 0x01,
            AddrComp::NodeAndBroadcast => 0x02,
        }
    }

    /// The value that the chip knows the setting by.
    pub fn bits(self) -> (r: u8)
        ensures
            r == self.code(),
    {
        match self {
            AddrComp::Off => 0x00,
            AddrComp::Node => 0x01,
            AddrComp::NodeAndBroadcast => 0x02,
        }
    }
}

/// GFSK CRC handling (Table 13-61). Note the counter-intuitive encoding:
/// `Off` is 0x01, the 1-byte CRC is 0x00.
#[derive(Debug, Clone, Copy, PartialEq, Eq, Structural)]
pub enum GfskCrc {
    Off,
    OneByte,
    TwoByte,
    OneByteInverted,
    TwoByteInverted,
}

impl GfskCrc {
    /// The value that the chip knows the setting by.
    pub open spec fn code(self) -> u8 {
        match self {
            GfskCrc::Off => 0x01,
            GfskCrc::OneByte => 0x00,
            GfskCrc::TwoByte => 0x02,
            GfskCrc::OneByteInverted => 0x04,
            GfskCrc::TwoByteInverted => 0x06,
        }
    }

    /// The value that the chip knows the setting by.
    pub fn bits(self) -> (r: u8)
        ensures
            r == self.code(),
    {
        match self {
            GfskCrc::Off => 0x01,
            GfskCrc::OneByte => 0x00,
            GfskCrc::TwoByte => 0x02,
            GfskCrc::OneByteInverted => 0x04,
            GfskCrc::TwoByteInverted => 0x06,
        }
    }
}

/// GFSK packet parameters (section 13.4.6.1).
#[derive(Debug, Clone, Copy, PartialEq, Eq, Structural)]
pub struct GfskPacketParams {
    /// Transmitted preamble length in bits (Table 13-52).
    pub preamble_bits: u16,
    pub detector: PreambleDetector,
    /// Sync word length in bits (0..=64); the sync word bytes themselves
    /// live in registers - see [`super::Sx1262::set_fsk_sync_word`].
    pub sync_word_bits: u8,
    pub addr_comp: AddrComp,
    /// `true` = variable length (first payload byte is the length).
    pub variable_len: bool,
    pub payload_len: u8,
    pub crc: GfskCrc,
    pub whitening: bool,
}

/// CAD symbol count (Table 13-72).
#[derive(Debug, Clone, Copy, PartialEq, Eq, Structural)]
pub enum CadSymbols {
    S1,
    S2,
    S4,
    S8,
    S16,
}

impl CadSymbols {
    /// The value that the chip knows the setting by.
    pub open spec fn code(self) -> u8 {
        match self {
            CadSymbols::S1 => 0x00,
            CadSymbols::S2 => 0x01,
            CadSymbols::S4 => 0x02,
            CadSymbols::S8 => 0x03,
            CadSymbols::S16 => 0x04,
        }
    }

    /// The value that the chip knows the setting by.
    pub fn bits(self) -> (r: u8)
        ensures
            r == self.code(),
    {
        match self {
            CadSymbols::S1 => 0x00,
            CadSymbols::S2 => 0x01,
            CadSymbols::S4 => 0x02,
            CadSymbols::S8 => 0x03,
            CadSymbols::S16 => 0x04,
        }
    }
}

/// CAD exit behavior (Table 13-73).
#[derive(Debug, Clone, Copy, PartialEq, Eq, Structural)]
pub enum CadExitMode {
    /// Back to STDBY_RC after the detection window, whatever the outcome.
    CadOnly,
    /// On detected activity stay in RX until a packet or `timeout_steps`
    /// expires.
    CadRx,
}

impl CadExitMode {
    /// The value that the chip knows the setting by.
    pub open spec fn code(self) -> u8 {
        match self {
            CadExitMode::CadOnly => 0x00,
            CadExitMode::CadRx => 0x01,
        }
    }

    /// The value that the chip knows the setting by.
    pub fn bits(self) -> (r: u8)
        ensures
            r == self.code(),
    {
        match self {
            CadExitMode::CadOnly => 0x00,
            CadExitMode::CadRx => 0x01,
        }
    }
}

/// SetCadParams arguments (section 13.4.7). Peak/min detection thresholds
/// are SF/BW-dependent; AN1200.48 carries the tuning tables.
#[derive(Debug, Clone, Copy, PartialEq, Eq, Structural)]
pub struct CadParams {
    pub symbols: CadSymbols,
    pub det_peak: u8,
    pub det_min: u8,
    pub exit_mode: CadExitMode,
    /// 15.625 us steps; only used with [`CadExitMode::CadRx`].
    pub timeout_steps: u32,
}

// ---- Decoded status types --------------------------------------------------

/// Chip mode from the status byte (Table 13-76, bits 6:4).
#[derive(Debug, Clone, Copy, PartialEq, Eq, Structural)]
pub enum ChipMode {
    StandbyRc,
    StandbyXosc,
    Fs,
    Rx,
    Tx,
    Unknown(u8),
}

/// Command status from the status byte (Table 13-76, bits 3:1).
#[derive(Debug, Clone, Copy, PartialEq, Eq, Structural)]
pub enum CmdStatus {
    /// A packet was received and data can be retrieved.
    DataAvailable,
    /// SPI transaction tripped the internal watchdog.
    CmdTimeout,
    /// Invalid opcode or malformed parameters.
    ProcessingError,
    /// Command understood but could not be executed (wrong mode).
    ExecutionFailure,
    /// Current packet transmission finished.
    TxDone,
    Other(u8),
}

/// Decoded GetStatus byte.
#[derive(Debug, Clone, Copy, PartialEq, Eq, Structural)]
pub struct Status {
    pub chip_mode: ChipMode,
    pub cmd: CmdStatus,
}

impl Status {
    /// What a status byte stands for: bits 6:4 are the chip mode, bits 3:1
    /// the command status.
    pub open spec fn decoded(b: u8) -> Status {
        let mode = b as int / 16 % 8;
        let code = b as int / 2 % 8;
        Status {
            chip_mode: if mode == 2 {
                ChipMode::StandbyRc
            } else if mode == 3 {
                ChipMode::StandbyXosc
            } else if mode == 4 {
                ChipMode::Fs
            } else if mode == 5 {
                ChipMode::Rx
            } else if mode == 6 {
                ChipMode::Tx
            } else {
                ChipMode::Unknown(mode as u8)
            },
            cmd: if code == 2 {
                CmdStatus::DataAvailable
            } else if code == 3 {
                CmdStatus::CmdTimeout
            } else if code == 4 {
                CmdStatus::ProcessingError
            } else if code == 5 {
                CmdStatus::ExecutionFailure
            } else if code == 6 {
                CmdStatus::TxDone
            } else {
                CmdStatus::Other(code as u8)
            },
        }
    }

    /// What a status byte stands for.
    pub fn from_byte(b: u8) -> (r: Status)
        ensures
            r == Status::decoded(b),
    {
        let chip_mode: ChipMode = match (b / 16) % 8 {
            2 => ChipMode::StandbyRc,
            3 => ChipMode::StandbyXosc,
            4 => ChipMode::Fs,
            5 => ChipMode::Rx,
            6 => ChipMode::Tx,
            m => ChipMode::Unknown(m),
        };
        let cmd: CmdStatus = match (b / 2) % 8 {
            2 => CmdStatus::DataAvailable,
            3 => CmdStatus::CmdTimeout,
            4 => CmdStatus::ProcessingError,
            5 => CmdStatus::ExecutionFailure,
            6 => CmdStatus::TxDone,
            c => CmdStatus::Other(c),
        };
        Status { chip_mode, cmd }
    }
}

/// LoRa packet metrics from GetPacketStatus (Table 13-80).
#[derive(Debug, Clone, Copy, PartialEq, Eq, Structural)]
pub struct LoRaPacketStatus {
    /// Average RSSI over the packet, dBm.
    pub rssi_pkt_dbm: i16,
    /// SNR of the packet in quarter-dB (two's complement * 4).
    pub snr_pkt_db_x4: i8,
    /// RSSI of the despread LoRa signal, dBm.
    pub signal_rssi_dbm: i16,
}

/// GFSK packet metrics from GetPacketStatus (Table 13-80).
#[derive(Debug, Clone, Copy, PartialEq, Eq, Structural)]
pub struct GfskPacketStatus {
    /// Raw RxStatus flag byte (bit 0 pkt sent .. bit 7 preamble err - see
    /// Table 13-80).
    pub rx_status: u8,
    /// RSSI latched at sync-address detection, dBm.
    pub rssi_sync_dbm: i16,
    /// Average RSSI over the payload, dBm.
    pub rssi_avg_dbm: i16,
}

/// GetStats counters (Table 13-83). The third counter is length errors in
/// GFSK and header errors in LoRa.
#[derive(Debug, Clone, Copy, PartialEq, Eq, Structural)]
pub struct Stats {
    pub packets_received: u16,
    pub crc_errors: u16,
    pub length_or_header_errors: u16,
}

} // verus!
