//! FLRC mode parameters.

use vstd::prelude::*;
use crate::device::common::{
    ModShaping, PacketLength, PreambleLength, SyncWordRxMatch, WhiteningModes,
};

verus! {

/// Whether FLRC packets carry a sync word
#[derive(Clone, Copy, PartialEq, Debug)]
pub enum FlrcSyncWordLength {
    NoSync,
    Length4,
}

impl FlrcSyncWordLength {
    /// The byte the chip knows this sync word length by.
    pub open spec fn code(self) -> u8 {
        match self {
            FlrcSyncWordLength::NoSync => 0x00,
            FlrcSyncWordLength::Length4 => 0x04,
        }
    }

    pub fn to_byte(self) -> (b: u8)
        ensures
            b == self.code(),
    {
        match self {
            FlrcSyncWordLength::NoSync => 0x00,
            FlrcSyncWordLength::Length4 => 0x04,
        }
    }
}

/// CRC appended to FLRC packets
#[derive(Clone, Copy, PartialEq, Debug)]
pub enum FlrcCrcModes {
    CrcOff,
    Crc2Bytes,
    Crc3Bytes,
    Crc4Bytes,
}

impl FlrcCrcModes {
    /// The byte the chip knows this CRC mode by.
    pub open spec fn code(self) -> u8 {
        match self {
            FlrcCrcModes::CrcOff => 0x00,
            FlrcCrcModes::Crc2Bytes => 0x10,
            FlrcCrcModes::Crc3Bytes => 0x20,
            FlrcCrcModes::Crc4Bytes => 0x30,
        }
    }

    pub fn to_byte(self) -> (b: u8)
        ensures
            b == self.code(),
    {
        match self {
            FlrcCrcModes::CrcOff => 0x00,
            FlrcCrcModes::Crc2Bytes => 0x10,
            FlrcCrcModes::Crc3Bytes => 0x20,
            FlrcCrcModes::Crc4Bytes => 0x30,
        }
    }
}

/// Bit rate and double-sideband bandwidth for FLRC mode
#[allow(non_camel_case_types)]
#[derive(Clone, Copy, PartialEq, Debug)]
pub enum FlrcBitrate {
    /// 1.3 Mb/s, 1.2 MHz
    BR_1_300_BW_1_2,
    /// 1.04 Mb/s, 1.2 MHz
    BR_1_040_BW_1_2,
    /// 0.65 Mb/s, 0.6 MHz
    BR_0_650_BW_0_6,
    /// 0.52 Mb/s, 0.6 MHz
    BR_0_520_BW_0_6,
    /// 0.325 Mb/s, 0.3 MHz
    BR_0_325_BW_0_3,
    /// 0.26 Mb/s, 0.3 MHz
    BR_0_260_BW_0_3,
}

impl FlrcBitrate {
    /// The byte the chip knows this rate and bandwidth by.
    pub open spec fn code(self) -> u8 {
        match self {
            FlrcBitrate::BR_1_300_BW_1_2 => 0x45,
            FlrcBitrate::BR_1_040_BW_1_2 => 0x69,
            FlrcBitrate::BR_0_650_BW_0_6 => 0x86,
            FlrcBitrate::BR_0_520_BW_0_6 => 0xAA,
            FlrcBitrate::BR_0_325_BW_0_3 => 0xC5,
            FlrcBitrate::BR_0_260_BW_0_3 => 0xEB,
        }
    }

    pub fn to_byte(self) -> (b: u8)
        ensures
            b == self.code(),
    {
        match self {
            FlrcBitrate::BR_1_300_BW_1_2 => 0x45,
            FlrcBitrate::BR_1_040_BW_1_2 => 0x69,
            FlrcBitrate::BR_0_650_BW_0_6 => 0x86,
            FlrcBitrate::BR_0_520_BW_0_6 => 0xAA,
            FlrcBitrate::BR_0_325_BW_0_3 => 0xC5,
            FlrcBitrate::BR_0_260_BW_0_3 => 0xEB,
        }
    }
}

/// Coding rate for FLRC mode
#[allow(non_camel_case_types)]
#[derive(Clone, Copy, PartialEq, Debug)]
pub enum FlrcCodingRate {
    Cr1_2,
    Cr3_4,
    Cr1_0,
}

impl FlrcCodingRate {
    /// The byte the chip knows this coding rate by.
    pub open spec fn code(self) -> u8 {
        match self {
            FlrcCodingRate::Cr1_2 => 0x00,
            FlrcCodingRate::Cr3_4 => 0x02,
            FlrcCodingRate::Cr1_0 => 0x04,
        }
    }

    pub fn to_byte(self) -> (b: u8)
        ensures
            b == self.code(),
    {
        match self {
            FlrcCodingRate::Cr1_2 => 0x00,
            FlrcCodingRate::Cr3_4 => 0x02,
            FlrcCodingRate::Cr1_0 => 0x04,
        }
    }
}

/// Packet framing for FLRC mode
#[derive(Clone, Copy, PartialEq, Debug)]
pub struct FlrcConfig {
    pub preamble_length: PreambleLength,
    pub sync_word_length: FlrcSyncWordLength,
    pub sync_word_match: SyncWordRxMatch,
    pub header_type: PacketLength,
    /// Payload length in bytes
    pub payload_length: u8,
    pub crc_mode: FlrcCrcModes,
    pub whitening: WhiteningModes,
    /// Value of the first sync word, programmed with the packet parameters when present
    pub sync_word_value: Option<[u8; 4]>,
}

impl Default for FlrcConfig {
    fn default() -> (r: Self)
        ensures
            r == (FlrcConfig {
                preamble_length: PreambleLength::PreambleLength32,
                sync_word_length: FlrcSyncWordLength::Length4,
                sync_word_match: SyncWordRxMatch::SyncWord1,
                header_type: PacketLength::Variable,
                payload_length: 0x40,
                crc_mode: FlrcCrcModes::Crc2Bytes,
                whitening: WhiteningModes::Disabled,
                sync_word_value: Option::<[u8; 4]>::None,
            }),
    {
        FlrcConfig {
            preamble_length: PreambleLength::PreambleLength32,
            sync_word_length: FlrcSyncWordLength::Length4,
            sync_word_match: SyncWordRxMatch::SyncWord1,
            header_type: PacketLength::Variable,
            payload_length: 0x40,
            crc_mode: FlrcCrcModes::Crc2Bytes,
            whitening: WhiteningModes::Disabled,
            sync_word_value: None,
        }
    }
}

/// Operating channel for FLRC mode
#[derive(Clone, Copy, PartialEq, Debug)]
pub struct FlrcChannel {
    /// Operating frequency in Hz
    pub freq: u32,
    /// Bit rate and bandwidth
    pub br_bw: FlrcBitrate,
    /// Coding rate
    pub cr: FlrcCodingRate,
    /// Modulation shaping
    pub ms: ModShaping,
}

impl Default for FlrcChannel {
    fn default() -> (r: Self)
        ensures
            r == (FlrcChannel {
                freq: 2_400_000_000,
                br_bw: FlrcBitrate::BR_0_260_BW_0_3,
                cr: FlrcCodingRate::Cr3_4,
                ms: ModShaping::BtOff,
            }),
    {
        FlrcChannel {
            freq: 2_400_000_000,
            br_bw: FlrcBitrate::BR_0_260_BW_0_3,
            cr: FlrcCodingRate::Cr3_4,
            ms: ModShaping::BtOff,
        }
    }
}

} // verus!
