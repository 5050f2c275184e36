//! BLE mode parameters.

use vstd::prelude::*;
use crate::device::common::{
    GfskBleBitrateBandwidth, GfskBleModIndex, ModShaping, WhiteningModes,
};

verus! {

/// BLE connection state, which bounds the payload length
#[derive(Clone, Copy, PartialEq, Debug)]
pub enum BleConnectionStates {
    PayloadLengthMax31Bytes,
    PayloadLengthMax37Bytes,
    TxTestMode,
    PayloadLengthMax255Bytes,
}

impl BleConnectionStates {
    /// The byte the chip knows this connection state by.
    pub open spec fn code(self) -> u8 {
        match self {
            BleConnectionStates::PayloadLengthMax31Bytes => 0x00,
            BleConnectionStates::PayloadLengthMax37Bytes => 0x20,
            BleConnectionStates::TxTestMode => 0x40,
            BleConnectionStates::PayloadLengthMax255Bytes => 0x80,
        }
    }

    pub fn to_byte(self) -> (b: u8)
        ensures
            b == self.code(),
    {
        match self {
            BleConnectionStates::PayloadLengthMax31Bytes => 0x00,
            BleConnectionStates::PayloadLengthMax37Bytes => 0x20,
            BleConnectionStates::TxTestMode => 0x40,
            BleConnectionStates::PayloadLengthMax255Bytes => 0x80,
        }
    }
}

/// CRC field of BLE packets
#[derive(Clone, Copy, PartialEq, Debug)]
pub enum BleCrcFields {
    CrcOff,
    Crc3Bytes,
}

impl BleCrcFields {
    /// The byte the chip knows this CRC field by.
    pub open spec fn code(self) -> u8 {
        match self {
            BleCrcFields::CrcOff => 0x00,
            BleCrcFields::Crc3Bytes => 0x10,
        }
    }

    pub fn to_byte(self) -> (b: u8)
        ensures
            b == self.code(),
    {
        match self {
            BleCrcFields::CrcOff => 0x00,
            BleCrcFields::Crc3Bytes => 0x10,
        }
    }
}

/// BLE test payloads
#[derive(Clone, Copy, PartialEq, Debug)]
pub enum BlePacketTypes {
    /// Pseudo random binary sequence, 9th degree polynomial
    Prbs9,
    /// Pseudo random binary sequence, 15th degree polynomial
    Prbs15,
    /// Repeated 11110000
    Eyelong10,
    /// Repeated 00001111
    Eyelong01,
    /// Repeated 10101010
    Eyeshort10,
    /// Repeated 01010101
    Eyeshort01,
    /// Repeated 11111111
    All1,
    /// Repeated 00000000
    All0,
}

impl BlePacketTypes {
    /// The byte the chip knows this test payload by.
    pub open spec fn code(self) -> u8 {
        match self {
            BlePacketTypes::Prbs9 => 0x00,
            BlePacketTypes::Prbs15 => 0x0C,
            BlePacketTypes::Eyelong10 => 0x04,
            BlePacketTypes::Eyelong01 => 0x18,
            BlePacketTypes::Eyeshort10 => 0x08,
            BlePacketTypes::Eyeshort01 => 0x1C,
            BlePacketTypes::All1 => 0x10,
            BlePacketTypes::All0 => 0x14,
        }
    }

    pub fn to_byte(self) -> (b: u8)
        ensures
            b == self.code(),
    {
        match self {
            BlePacketTypes::Prbs9 => 0x00,
            BlePacketTypes::Prbs15 => 0x0C,
            BlePacketTypes::Eyelong10 => 0x04,
            BlePacketTypes::Eyelong01 => 0x18,
            BlePacketTypes::Eyeshort10 => 0x08,
            BlePacketTypes::Eyeshort01 => 0x1C,
            BlePacketTypes::All1 => 0x10,
            BlePacketTypes::All0 => 0x14,
        }
    }
}

/// Packet framing for BLE mode
#[derive(Clone, Copy, PartialEq, Debug)]
pub struct BleConfig {
    pub connection_state: BleConnectionStates,
    pub crc_field: BleCrcFields,
    pub packet_type: BlePacketTypes,
    pub whitening: WhiteningModes,
}

impl Default for BleConfig {
    fn default() -> (r: Self)
        ensures
            r == (BleConfig {
                connection_state: BleConnectionStates::TxTestMode,
                crc_field: BleCrcFields::CrcOff,
                packet_type: BlePacketTypes::Prbs9,
                whitening: WhiteningModes::Disabled,
            }),
    {
        BleConfig {
            connection_state: BleConnectionStates::TxTestMode,
            crc_field: BleCrcFields::CrcOff,
            packet_type: BlePacketTypes::Prbs9,
            whitening: WhiteningModes::Disabled,
        }
    }
}

/// Operating channel for BLE mode
#[derive(Clone, Copy, PartialEq, Debug)]
pub struct BleChannel {
    /// Operating frequency in Hz
    pub freq: u32,
    /// Bit rate and bandwidth
    pub br_bw: GfskBleBitrateBandwidth,
    /// Modulation index
    pub mi: GfskBleModIndex,
    /// Modulation shaping
    pub ms: ModShaping,
}

impl Default for BleChannel {
    fn default() -> (r: Self)
        ensures
            r == (BleChannel {
                freq: 2_400_000_000,
                br_bw: GfskBleBitrateBandwidth::BR_0_250_BW_0_3,
                mi: GfskBleModIndex::MOD_IND_0_50,
                ms: ModShaping::Bt0_5,
            }),
    {
        BleChannel {
            freq: 2_400_000_000,
            br_bw: GfskBleBitrateBandwidth::BR_0_250_BW_0_3,
            mi: GfskBleModIndex::MOD_IND_0_50,
            ms: ModShaping::Bt0_5,
        }
    }
}

} // verus!
