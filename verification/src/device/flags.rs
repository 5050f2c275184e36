//! Flag sets reported by and sent to the chip.

use vstd::prelude::*;

verus! {

/// Interrupt flags. Every bit of the word is a flag.
#[derive(Clone, Copy, PartialEq, Eq, Structural, Debug)]
pub struct Irq {
    /// One bit per flag
    pub bits: u16,
}

impl Irq {
    pub const TX_DONE: u16 = 0x0001;

    pub const RX_DONE: u16 = 0x0002;

    pub const SYNCWORD_VALID: u16 = 0x0004;

    pub const SYNCWORD_ERROR: u16 = 0x0008;

    pub const HEADER_VALID: u16 = 0x0010;

    pub const HEADER_ERROR: u16 = 0x0020;

    pub const CRC_ERROR: u16 = 0x0040;

    pub const RANGING_SLAVE_RESPONSE_DONE: u16 = 0x0080;

    pub const RANGING_SLAVE_REQUEST_DISCARDED: u16 = 0x0100;

    pub const RANGING_MASTER_RESULT_VALID: u16 = 0x0200;

    pub const RANGING_MASTER_RESULT_TIMEOUT: u16 = 0x0400;

    pub const RANGING_SLAVE_REQUEST_VALID: u16 = 0x0800;

    pub const CAD_DONE: u16 = 0x1000;

    pub const CAD_ACTIVITY_DETECTED: u16 = 0x2000;

    pub const RX_TX_TIMEOUT: u16 = 0x4000;

    pub const PREAMBLE_DETECTED: u16 = 0x8000;

    /// The flags armed for a transmission.
    pub const TRANSMIT: u16 = 0x4041;

    /// The flags armed for a reception.
    pub const RECEIVE: u16 = 0xC07E;

    /// The flag set with exactly the flags of `bits`.
    pub fn from_bits(bits: u16) -> (irq: Irq)
        ensures
            irq.bits == bits,
    {
        Irq { bits }
    }

    /// The flags as one word.
    pub fn bits(&self) -> (bits: u16)
        ensures
            bits == self.bits,
    {
        self.bits
    }

    /// Whether no flag is set.
    pub fn is_empty(&self) -> (b: bool)
        ensures
            b == (self.bits == 0),
    {
        self.bits == 0
    }

    /// Every flag of `flags` is set.
    pub open spec fn has(self, flags: u16) -> bool {
        self.bits & flags == flags
    }

    /// Whether every flag of `flags` is set.
    pub fn contains(&self, flags: u16) -> (b: bool)
        ensures
            b == self.has(flags),
    {
        self.bits & flags == flags
    }
}

/// The armed flag sets are the unions their names stand for.
pub proof fn lemma_armed_flags()
    ensures
        Irq::TRANSMIT == Irq::TX_DONE | Irq::CRC_ERROR | Irq::RX_TX_TIMEOUT,
        Irq::RECEIVE == Irq::RX_DONE | Irq::CRC_ERROR | Irq::RX_TX_TIMEOUT | Irq::SYNCWORD_VALID
            | Irq::SYNCWORD_ERROR | Irq::HEADER_VALID | Irq::HEADER_ERROR | Irq::PREAMBLE_DETECTED,
{
    assert(0x4041u16 == 0x0001u16 | 0x0040u16 | 0x4000u16) by (bit_vector);
    assert(0xC07Eu16 == 0x0002u16 | 0x0040u16 | 0x4000u16 | 0x0004u16 | 0x0008u16 | 0x0010u16
        | 0x0020u16 | 0x8000u16) by (bit_vector);
}

/// Errors and progress of the last packet, as the chip reports them for the
/// GFSK, FLRC and BLE packet families
#[derive(Clone, Copy, PartialEq, Eq, Structural, Debug)]
pub struct PacketStatus {
    /// One bit per flag
    pub bits: u8,
}

impl PacketStatus {
    pub const SYNC_ERROR: u8 = 0x40;

    pub const LENGTH_ERROR: u8 = 0x20;

    pub const CRC_ERROR: u8 = 0x10;

    pub const ABORT_ERROR: u8 = 0x08;

    pub const HEADER_RECEIVED: u8 = 0x04;

    pub const PACKET_RECEIVED: u8 = 0x02;

    pub const PACKET_CONTROLLER_BUSY: u8 = 0x01;

    /// Every bit that is a flag.
    pub const ALL: u8 = 0x7F;

    /// The flag set with the flags of `bits`; bits that are no flag are dropped.
    pub fn from_bits_truncate(bits: u8) -> (s: PacketStatus)
        ensures
            s.bits == bits & PacketStatus::ALL,
    {
        PacketStatus { bits: bits & PacketStatus::ALL }
    }

    /// The flags as one byte.
    pub fn bits(&self) -> (bits: u8)
        ensures
            bits == self.bits,
    {
        self.bits
    }

    /// Every flag of `flags` is set.
    pub open spec fn has(self, flags: u8) -> bool {
        self.bits & flags == flags
    }

    /// Whether every flag of `flags` is set.
    pub fn contains(&self, flags: u8) -> (b: bool)
        ensures
            b == self.has(flags),
    {
        self.bits & flags == flags
    }
}

/// Transmit and receive status of the last packet
#[derive(Clone, Copy, PartialEq, Eq, Structural, Debug)]
pub struct TxRxStatus {
    /// One bit per flag
    pub bits: u8,
}

impl TxRxStatus {
    pub const RX_NO_ACK: u8 = 0x20;

    pub const PACKET_SENT: u8 = 0x01;

    /// Every bit that is a flag.
    pub const ALL: u8 = 0x21;

    /// The flag set with the flags of `bits`; bits that are no flag are dropped.
    pub fn from_bits_truncate(bits: u8) -> (s: TxRxStatus)
        ensures
            s.bits == bits & TxRxStatus::ALL,
    {
        TxRxStatus { bits: bits & TxRxStatus::ALL }
    }

    /// The flags as one byte.
    pub fn bits(&self) -> (bits: u8)
        ensures
            bits == self.bits,
    {
        self.bits
    }

    /// Every flag of `flags` is set.
    pub open spec fn has(self, flags: u8) -> bool {
        self.bits & flags == flags
    }

    /// Whether every flag of `flags` is set.
    pub fn contains(&self, flags: u8) -> (b: bool)
        ensures
            b == self.has(flags),
    {
        self.bits & flags == flags
    }
}

/// Blocks of the chip that a calibration covers
#[derive(Clone, Copy, PartialEq, Eq, Structural, Debug)]
pub struct CalibrationParams {
    /// One bit per block
    pub bits: u8,
}

impl CalibrationParams {
    pub const ADC_BULK_P: u8 = 0x20;

    pub const ADC_BULK_N: u8 = 0x10;

    pub const ADC_PULSE: u8 = 0x08;

    pub const PLL: u8 = 0x04;

    pub const RC13M: u8 = 0x02;

    pub const RC64K: u8 = 0x01;

    /// Every bit that is a flag.
    pub const ALL: u8 = 0x3F;

    /// The flag set with the flags of `bits`; bits that are no flag are dropped.
    pub fn from_bits_truncate(bits: u8) -> (s: CalibrationParams)
        ensures
            s.bits == bits & CalibrationParams::ALL,
    {
        CalibrationParams { bits: bits & CalibrationParams::ALL }
    }

    /// The flags as one byte.
    pub fn bits(&self) -> (bits: u8)
        ensures
            bits == self.bits,
    {
        self.bits
    }

    /// Every flag of `flags` is set.
    pub open spec fn has(self, flags: u8) -> bool {
        self.bits & flags == flags
    }

    /// Whether every flag of `flags` is set.
    pub fn contains(&self, flags: u8) -> (b: bool)
        ensures
            b == self.has(flags),
    {
        self.bits & flags == flags
    }
}

/// What the chip reports of a received packet
#[derive(Clone, Copy, PartialEq, Debug)]
pub struct PacketInfo {
    /// Received signal strength in dBm
    pub rssi: i16,
    /// Signal to noise ratio in dB, for the LoRa and ranging packet families
    pub snr: Option<i16>,
    pub packet_status: PacketStatus,
    pub tx_rx_status: TxRxStatus,
    /// Which sync word the packet matched
    pub sync_addr_status: u8,
}

impl Default for PacketInfo {
    fn default() -> (r: Self)
        ensures
            r == (PacketInfo {
                rssi: -100i16,
                snr: Option::<i16>::None,
                packet_status: PacketStatus { bits: 0 },
                tx_rx_status: TxRxStatus { bits: 0 },
                sync_addr_status: 0,
            }),
    {
        PacketInfo {
            rssi: -100,
            snr: None,
            packet_status: PacketStatus { bits: 0 },
            tx_rx_status: TxRxStatus { bits: 0 },
            sync_addr_status: 0,
        }
    }
}

} // verus!
