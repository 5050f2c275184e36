//! GFSK mode parameters.

use vstd::prelude::*;
use crate::device::common::{
    GfskBleBitrateBandwidth, GfskBleModIndex, ModShaping, PacketLength, PreambleLength,
    SyncWordRxMatch, WhiteningModes,
};

verus! {

/// Length of the GFSK sync word in bytes
#[derive(Clone, Copy, PartialEq, Debug)]
pub enum GfskSyncWordLength {
    GfskSyncWordLength1,
    GfskSyncWordLength2,
    GfskSyncWordLength3,
    GfskSyncWordLength4,
    GfskSyncWordLength5,
}

impl GfskSyncWordLength {
    /// The byte the chip knows this sync word length by.
    pub open spec fn code(self) -> u8 {
        match self {
            GfskSyncWordLength::GfskSyncWordLength1 => 0x00,
            GfskSyncWordLength::GfskSyncWordLength2 => 0x02,
            GfskSyncWordLength::GfskSyncWordLength3 => 0x04,
            GfskSyncWordLength::GfskSyncWordLength4 => 0x06,
            GfskSyncWordLength::GfskSyncWordLength5 => 0x08,
        }
    }

    pub fn to_byte(self) -> (b: u8)
        ensures
            b == self.code(),
    {
        match self {
            GfskSyncWordLength::GfskSyncWordLength1 => 0x00,
            GfskSyncWordLength::GfskSyncWordLength2 => 0x02,
            GfskSyncWordLength::GfskSyncWordLength3 => 0x04,
            GfskSyncWordLength::GfskSyncWordLength4 => 0x06,
            GfskSyncWordLength::GfskSyncWordLength5 => 0x08,
        }
    }
}

/// CRC appended to GFSK packets
#[derive(Clone, Copy, PartialEq, Debug)]
pub enum GfskCrcModes {
    RadioCrcOff,
    RadioCrc1Byte,
    RadioCrc2Bytes,
}

impl GfskCrcModes {
    /// The byte the chip knows this CRC mode by.
    pub open spec fn code(self) -> u8 {
        match self {
            GfskCrcModes::RadioCrcOff => 0x00,
            GfskCrcModes::RadioCrc1Byte => 0x10,
            GfskCrcModes::RadioCrc2Bytes => 0x20,
        }
    }

    pub fn to_byte(self) -> (b: u8)
        ensures
            b == self.code(),
    {
        match self {
            GfskCrcModes::RadioCrcOff => 0x00,
            GfskCrcModes::RadioCrc1Byte => 0x10,
            GfskCrcModes::RadioCrc2Bytes => 0x20,
        }
    }
}

/// Packet framing for GFSK mode
#[derive(Clone, Copy, PartialEq, Debug)]
pub struct GfskConfig {
    pub preamble_length: PreambleLength,
    pub sync_word_length: GfskSyncWordLength,
    pub sync_word_match: SyncWordRxMatch,
    pub header_type: PacketLength,
    /// Payload length in bytes
    pub payload_length: u8,
    pub crc_mode: GfskCrcModes,
    pub whitening: WhiteningModes,
}

impl Default for GfskConfig {
    fn default() -> (r: Self)
        ensures
            r == (GfskConfig {
                preamble_length: PreambleLength::PreambleLength32,
                sync_word_length: GfskSyncWordLength::GfskSyncWordLength5,
                sync_word_match: SyncWordRxMatch::SyncWord1,
                header_type: PacketLength::Variable,
                payload_length: 0x40,
                crc_mode: GfskCrcModes::RadioCrc2Bytes,
                whitening: WhiteningModes::Enabled,
            }),
    {
        GfskConfig {
            preamble_length: PreambleLength::PreambleLength32,
            sync_word_length: GfskSyncWordLength::GfskSyncWordLength5,
            sync_word_match: SyncWordRxMatch::SyncWord1,
            header_type: PacketLength::Variable,
            payload_length: 0x40,
            crc_mode: GfskCrcModes::RadioCrc2Bytes,
            whitening: WhiteningModes::Enabled,
        }
    }
}

/// Operating channel for GFSK mode
#[derive(Clone, Copy, PartialEq, Debug)]
pub struct GfskChannel {
    /// Operating frequency in Hz
    pub freq: u32,
    /// Bit rate and bandwidth
    pub br_bw: GfskBleBitrateBandwidth,
    /// Modulation index
    pub mi: GfskBleModIndex,
    /// Modulation shaping
    pub ms: ModShaping,
}

impl Default for GfskChannel {
    fn default() -> (r: Self)
        ensures
            r == (GfskChannel {
                freq: 2_400_000_000,
                br_bw: GfskBleBitrateBandwidth::BR_0_250_BW_0_3,
                mi: GfskBleModIndex::MOD_IND_0_50,
                ms: ModShaping::Bt0_5,
            }),
    {
        GfskChannel {
            freq: 2_400_000_000,
            br_bw: GfskBleBitrateBandwidth::BR_0_250_BW_0_3,
            mi: GfskBleModIndex::MOD_IND_0_50,
            ms: ModShaping::Bt0_5,
        }
    }
}

} // verus!
