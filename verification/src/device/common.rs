//! Parameters shared by the GFSK, FLRC and BLE packet families.

use vstd::prelude::*;

verus! {

/// Preamble length in bits
#[derive(Clone, Copy, PartialEq, Debug)]
pub enum PreambleLength {
    PreambleLength04,
    PreambleLength08,
    PreambleLength12,
    PreambleLength16,
    PreambleLength20,
    PreambleLength24,
    PreambleLength28,
    PreambleLength32,
}

impl PreambleLength {
    /// The byte the chip knows this preamble length by.
    pub open spec fn code(self) -> u8 {
        match self {
            PreambleLength::PreambleLength04 => 0x00,
            PreambleLength::PreambleLength08 => 0x10,
            PreambleLength::PreambleLength12 => 0x20,
            PreambleLength::PreambleLength16 => 0x30,
            PreambleLength::PreambleLength20 => 0x40,
            PreambleLength::PreambleLength24 => 0x50,
            PreambleLength::PreambleLength28 => 0x60,
            PreambleLength::PreambleLength32 => 0x70,
        }
    }

    pub fn to_byte(self) -> (b: u8)
        ensures
            b == self.code(),
    {
        match self {
            PreambleLength::PreambleLength04 => 0x00,
            PreambleLength::PreambleLength08 => 0x10,
            PreambleLength::PreambleLength12 => 0x20,
            PreambleLength::PreambleLength16 => 0x30,
            PreambleLength::PreambleLength20 => 0x40,
            PreambleLength::PreambleLength24 => 0x50,
            PreambleLength::PreambleLength28 => 0x60,
            PreambleLength::PreambleLength32 => 0x70,
        }
    }
}

/// Which of the three programmed sync words a received packet may match
#[derive(Clone, Copy, PartialEq, Debug)]
pub enum SyncWordRxMatch {
    SyncWordOff,
    SyncWord1,
    SyncWord2,
    SyncWord1or2,
    SyncWord3,
    SyncWord1or3,
    SyncWord2or3,
    SyncWord1or2or3,
}

impl SyncWordRxMatch {
    /// The byte the chip knows this match policy by.
    pub open spec fn code(self) -> u8 {
        match self {
            SyncWordRxMatch::SyncWordOff => 0x00,
            SyncWordRxMatch::SyncWord1 => 0x10,
            SyncWordRxMatch::SyncWord2 => 0x20,
            SyncWordRxMatch::SyncWord1or2 => 0x30,
            SyncWordRxMatch::SyncWord3 => 0x40,
            SyncWordRxMatch::SyncWord1or3 => 0x50,
            SyncWordRxMatch::SyncWord2or3 => 0x60,
            SyncWordRxMatch::SyncWord1or2or3 => 0x70,
        }
    }

    pub fn to_byte(self) -> (b: u8)
        ensures
            b == self.code(),
    {
        match self {
            SyncWordRxMatch::SyncWordOff => 0x00,
            SyncWordRxMatch::SyncWord1 => 0x10,
            SyncWordRxMatch::SyncWord2 => 0x20,
            SyncWordRxMatch::SyncWord1or2 => 0x30,
            SyncWordRxMatch::SyncWord3 => 0x40,
            SyncWordRxMatch::SyncWord1or3 => 0x50,
            SyncWordRxMatch::SyncWord2or3 => 0x60,
            SyncWordRxMatch::SyncWord1or2or3 => 0x70,
        }
    }
}

/// Whether packets have a fixed length or carry their length in a header
#[derive(Clone, Copy, PartialEq, Debug)]
pub enum PacketLength {
    Fixed,
    Variable,
}

impl PacketLength {
    /// The byte the chip knows this header type by.
    pub open spec fn code(self) -> u8 {
        match self {
            PacketLength::Fixed => 0x00,
            PacketLength::Variable => 0x20,
        }
    }

    pub fn to_byte(self) -> (b: u8)
        ensures
            b == self.code(),
    {
        match self {
            PacketLength::Fixed => 0x00,
            PacketLength::Variable => 0x20,
        }
    }
}

/// Data whitening
#[derive(Clone, Copy, PartialEq, Debug)]
pub enum WhiteningModes {
    Enabled,
    Disabled,
}

impl WhiteningModes {
    /// The byte the chip knows this whitening mode by.
    pub open spec fn code(self) -> u8 {
        match self {
            WhiteningModes::Enabled => 0x00,
            WhiteningModes::Disabled => 0x08,
        }
    }

    pub fn to_byte(self) -> (b: u8)
        ensures
            b == self.code(),
    {
        match self {
            WhiteningModes::Enabled => 0x00,
            WhiteningModes::Disabled => 0x08,
        }
    }
}

/// Gaussian filter applied to the modulated signal
#[allow(non_camel_case_types)]
#[derive(Clone, Copy, PartialEq, Debug)]
pub enum ModShaping {
    BtOff,
    Bt1_0,
    Bt0_5,
}

impl ModShaping {
    /// The byte the chip knows this shaping by.
    pub open spec fn code(self) -> u8 {
        match self {
            ModShaping::BtOff => 0x00,
            ModShaping::Bt1_0 => 0x10,
            ModShaping::Bt0_5 => 0x20,
        }
    }

    pub fn to_byte(self) -> (b: u8)
        ensures
            b == self.code(),
    {
        match self {
            ModShaping::BtOff => 0x00,
            ModShaping::Bt1_0 => 0x10,
            ModShaping::Bt0_5 => 0x20,
        }
    }
}

/// Bit rate and double-sideband bandwidth for GFSK and BLE modes
#[allow(non_camel_case_types)]
#[derive(Clone, Copy, PartialEq, Debug)]
pub enum GfskBleBitrateBandwidth {
    /// 2.0 Mb/s, 2.4 MHz
    BR_2_000_BW_2_4,
    /// 1.6 Mb/s, 2.4 MHz
    BR_1_600_BW_2_4,
    /// 1.0 Mb/s, 2.4 MHz
    BR_1_000_BW_2_4,
    /// 1.0 Mb/s, 1.2 MHz
    BR_1_000_BW_1_2,
    /// 0.8 Mb/s, 2.4 MHz
    BR_0_800_BW_2_4,
    /// 0.8 Mb/s, 1.2 MHz
    BR_0_800_BW_1_2,
    /// 0.5 Mb/s, 1.2 MHz
    BR_0_500_BW_1_2,
    /// 0.5 Mb/s, 0.6 MHz
    BR_0_500_BW_0_6,
    /// 0.4 Mb/s, 1.2 MHz
    BR_0_400_BW_1_2,
    /// 0.4 Mb/s, 0.6 MHz
    BR_0_400_BW_0_6,
    /// 0.25 Mb/s, 0.6 MHz
    BR_0_250_BW_0_6,
    /// 0.25 Mb/s, 0.3 MHz
    BR_0_250_BW_0_3,
    /// 0.125 Mb/s, 0.3 MHz
    BR_0_125_BW_0_3,
}

impl GfskBleBitrateBandwidth {
    /// The byte the chip knows this rate and bandwidth by.
    pub open spec fn code(self) -> u8 {
        match self {
            GfskBleBitrateBandwidth::BR_2_000_BW_2_4 => 0x04,
            GfskBleBitrateBandwidth::BR_1_600_BW_2_4 => 0x28,
            GfskBleBitrateBandwidth::BR_1_000_BW_2_4 => 0x4C,
            GfskBleBitrateBandwidth::BR_1_000_BW_1_2 => 0x45,
            GfskBleBitrateBandwidth::BR_0_800_BW_2_4 => 0x70,
            GfskBleBitrateBandwidth::BR_0_800_BW_1_2 => 0x69,
            GfskBleBitrateBandwidth::BR_0_500_BW_1_2 => 0x8F,
            GfskBleBitrateBandwidth::BR_0_500_BW_0_6 => 0x86,
            GfskBleBitrateBandwidth::BR_0_400_BW_1_2 => 0xB3,
            GfskBleBitrateBandwidth::BR_0_400_BW_0_6 => 0xAA,
            GfskBleBitrateBandwidth::BR_0_250_BW_0_6 => 0xCE,
            GfskBleBitrateBandwidth::BR_0_250_BW_0_3 => 0xC5,
            GfskBleBitrateBandwidth::BR_0_125_BW_0_3 => 0xEF,
        }
    }

    pub fn to_byte(self) -> (b: u8)
        ensures
            b == self.code(),
    {
        match self {
            GfskBleBitrateBandwidth::BR_2_000_BW_2_4 => 0x04,
            GfskBleBitrateBandwidth::BR_1_600_BW_2_4 => 0x28,
            GfskBleBitrateBandwidth::BR_1_000_BW_2_4 => 0x4C,
            GfskBleBitrateBandwidth::BR_1_000_BW_1_2 => 0x45,
            GfskBleBitrateBandwidth::BR_0_800_BW_2_4 => 0x70,
            GfskBleBitrateBandwidth::BR_0_800_BW_1_2 => 0x69,
            GfskBleBitrateBandwidth::BR_0_500_BW_1_2 => 0x8F,
            GfskBleBitrateBandwidth::BR_0_500_BW_0_6 => 0x86,
            GfskBleBitrateBandwidth::BR_0_400_BW_1_2 => 0xB3,
            GfskBleBitrateBandwidth::BR_0_400_BW_0_6 => 0xAA,
            GfskBleBitrateBandwidth::BR_0_250_BW_0_6 => 0xCE,
            GfskBleBitrateBandwidth::BR_0_250_BW_0_3 => 0xC5,
            GfskBleBitrateBandwidth::BR_0_125_BW_0_3 => 0xEF,
        }
    }
}

/// Modulation index for GFSK and BLE modes
#[allow(non_camel_case_types)]
#[derive(Clone, Copy, PartialEq, Debug)]
pub enum GfskBleModIndex {
    MOD_IND_0_35,
    MOD_IND_0_50,
    MOD_IND_0_75,
    MOD_IND_1_00,
    MOD_IND_1_25,
    MOD_IND_1_50,
    MOD_IND_1_75,
    MOD_IND_2_00,
    MOD_IND_2_25,
    MOD_IND_2_50,
    MOD_IND_2_75,
    MOD_IND_3_00,
    MOD_IND_3_25,
    MOD_IND_3_50,
    MOD_IND_3_75,
    MOD_IND_4_00,
}

impl GfskBleModIndex {
    /// The byte the chip knows this modulation index by.
    pub open spec fn code(self) -> u8 {
        match self {
            GfskBleModIndex::MOD_IND_0_35 => 0,
            GfskBleModIndex::MOD_IND_0_50 => 1,
            GfskBleModIndex::MOD_IND_0_75 => 2,
            GfskBleModIndex::MOD_IND_1_00 => 3,
            GfskBleModIndex::MOD_IND_1_25 => 4,
            GfskBleModIndex::MOD_IND_1_50 => 5,
            GfskBleModIndex::MOD_IND_1_75 => 6,
            GfskBleModIndex::MOD_IND_2_00 => 7,
            GfskBleModIndex::MOD_IND_2_25 => 8,
            GfskBleModIndex::MOD_IND_2_50 => 9,
            GfskBleModIndex::MOD_IND_2_75 => 10,
            GfskBleModIndex::MOD_IND_3_00 => 11,
            GfskBleModIndex::MOD_IND_3_25 => 12,
            GfskBleModIndex::MOD_IND_3_50 => 13,
            GfskBleModIndex::MOD_IND_3_75 => 14,
            GfskBleModIndex::MOD_IND_4_00 => 15,
        }
    }

    pub fn to_byte(self) -> (b: u8)
        ensures
            b == self.code(),
    {
        match self {
            GfskBleModIndex::MOD_IND_0_35 => 0,
            GfskBleModIndex::MOD_IND_0_50 => 1,
            GfskBleModIndex::MOD_IND_0_75 => 2,
            GfskBleModIndex::MOD_IND_1_00 => 3,
            GfskBleModIndex::MOD_IND_1_25 => 4,
            GfskBleModIndex::MOD_IND_1_50 => 5,
            GfskBleModIndex::MOD_IND_1_75 => 6,
            GfskBleModIndex::MOD_IND_2_00 => 7,
            GfskBleModIndex::MOD_IND_2_25 => 8,
            GfskBleModIndex::MOD_IND_2_50 => 9,
            GfskBleModIndex::MOD_IND_2_75 => 10,
            GfskBleModIndex::MOD_IND_3_00 => 11,
            GfskBleModIndex::MOD_IND_3_25 => 12,
            GfskBleModIndex::MOD_IND_3_50 => 13,
            GfskBleModIndex::MOD_IND_3_75 => 14,
            GfskBleModIndex::MOD_IND_4_00 => 15,
        }
    }
}

} // verus!
