//! The chip's numeric encodings: from configuration values to the bytes of a
//! command, and from the bytes of a reply to typed values.

use vstd::prelude::*;
use vstd::arithmetic::div_mod::lemma_div_is_ordered;
use vstd::arithmetic::div_mod::lemma_fundamental_div_mod;

use crate::device::flags::{Irq, PacketInfo, PacketStatus, TxRxStatus};
use crate::device::lora::LoRaHeader;
use crate::device::{
    AutoTx, Channel, CommandStatus, Modem, PacketType, RampTime, State, Timeout,
    AUTO_RX_TX_OFFSET, POWER_MAX, POWER_MIN,
};
use crate::{Error, FIRMWARE_VERSION};

verus! {

/// Frequency of the crystal that clocks the chip, in Hz.
pub const XTAL_FREQ: u64 = 52_000_000;

/// The synthesizer divides the crystal frequency into this many steps.
pub const FREQ_DIVIDER: u64 = 262_144;

/// The number of whole synthesizer steps in a frequency of `hz` Hz: the
/// quotient is rounded down.
pub open spec fn steps_at(hz: int) -> int {
    (hz * FREQ_DIVIDER as int) / (XTAL_FREQ as int)
}

/// The number of whole synthesizer steps in `freq_hz`.
pub open spec fn steps_of(freq_hz: u32) -> int {
    steps_at(freq_hz as int)
}

/// The frequency in Hz that the synthesizer gives at `steps`, rounded down.
pub open spec fn frequency_of(steps: int) -> int {
    (steps * XTAL_FREQ as int) / (FREQ_DIVIDER as int)
}

/// Converts a frequency in Hz to synthesizer steps, rounding down.
pub fn frequency_to_steps(freq_hz: u32) -> (steps: u32)
    ensures
        steps == steps_of(freq_hz),
        steps * XTAL_FREQ <= freq_hz * FREQ_DIVIDER < (steps + 1) * XTAL_FREQ,
{
    let scaled: u64 = (freq_hz as u64) * FREQ_DIVIDER;
    let steps: u64 = scaled / XTAL_FREQ;
    proof {
        lemma_fundamental_div_mod(scaled as int, XTAL_FREQ as int);
    }
    steps as u32
}

/// A higher frequency never takes fewer steps.
pub proof fn lemma_steps_monotonic(f1: u32, f2: u32)
    requires
        f1 <= f2,
    ensures
        steps_of(f1) <= steps_of(f2),
{
    lemma_div_is_ordered(
        f1 as int * FREQ_DIVIDER as int,
        f2 as int * FREQ_DIVIDER as int,
        XTAL_FREQ as int,
    );
}

/// Steps and frequency round-trip within one step. The frequency that the
/// steps of `freq_hz` stand for lies at or below `freq_hz`, by less than one
/// step and the rounding to a whole number of Hz, which is at most 199 Hz; and
/// its steps are those of `freq_hz` or one less.
pub proof fn lemma_steps_round_trip(freq_hz: u32)
    ensures
        frequency_of(steps_of(freq_hz)) <= freq_hz,
        freq_hz - frequency_of(steps_of(freq_hz)) <= 199,
        steps_of(freq_hz) - 1 <= steps_at(frequency_of(steps_of(freq_hz))) <= steps_of(freq_hz),
{
    let x = XTAL_FREQ as int;
    let k = FREQ_DIVIDER as int;
    let s = steps_of(freq_hz);
    let back = frequency_of(s);
    lemma_fundamental_div_mod(freq_hz as int * k, x);
    lemma_fundamental_div_mod(s * x, k);
    assert(x * s == s * x) by (nonlinear_arith);
    assert(k * back == back * k) by (nonlinear_arith);
    assert(back * k <= freq_hz * k);
    assert(back <= freq_hz) by (nonlinear_arith)
        requires
            back * k <= freq_hz * k,
            k == 262_144,
    ;
    assert((freq_hz - back) * k == freq_hz * k - back * k) by (nonlinear_arith);
    assert((freq_hz - back) * k < x + k);
    assert(freq_hz - back <= 199) by (nonlinear_arith)
        requires
            (freq_hz - back) * k < x + k,
            k == 262_144,
            x == 52_000_000,
    ;
    let again = (back * k) / x;
    lemma_fundamental_div_mod(back * k, x);
    assert(x * again == again * x) by (nonlinear_arith);
    assert(back * k > (s - 1) * x) by (nonlinear_arith)
        requires
            back * k > s * x - k,
            k == 262_144,
            x == 52_000_000,
    ;
    assert(again >= s - 1) by (nonlinear_arith)
        requires
            again * x + x > back * k,
            back * k > (s - 1) * x,
            x == 52_000_000,
    ;
    assert(again <= s) by (nonlinear_arith)
        requires
            again * x <= back * k,
            back * k <= s * x,
            x == 52_000_000,
    ;
}

/// The three bytes that carry `steps` to the chip, most significant first.
/// Steps beyond 24 bits do not fit and lose their upper bits.
pub open spec fn frequency_bytes(steps: u32) -> Seq<u8> {
    seq![
        ((steps as int / 0x1_0000) % 0x100) as u8,
        ((steps as int / 0x100) % 0x100) as u8,
        (steps as int % 0x100) as u8,
    ]
}

/// Lays out synthesizer steps as the parameters of the frequency command.
pub fn encode_frequency(steps: u32) -> (data: [u8; 3])
    ensures
        data@ == frequency_bytes(steps),
{
    let data: [u8; 3] = [
        ((steps / 0x1_0000) % 0x100) as u8,
        ((steps / 0x100) % 0x100) as u8,
        (steps % 0x100) as u8,
    ];
    assert(data@ =~= frequency_bytes(steps));
    data
}

/// `power` brought into the range that the chip accepts.
pub open spec fn clamp_power(power: i8) -> i8 {
    if power < POWER_MIN {
        POWER_MIN
    } else if power > POWER_MAX {
        POWER_MAX
    } else {
        power
    }
}

/// Clamps a transmit power in dBm to the range that the chip accepts.
pub fn limit_power(power: i8) -> (p: i8)
    ensures
        p == clamp_power(power),
        POWER_MIN <= p <= POWER_MAX,
        POWER_MIN <= power <= POWER_MAX ==> p == power,
{
    if power < POWER_MIN {
        POWER_MIN
    } else if power > POWER_MAX {
        POWER_MAX
    } else {
        power
    }
}

/// The two parameters of the transmit power command.
pub open spec fn power_bytes(power: i8, ramp: RampTime) -> Seq<u8> {
    seq![(clamp_power(power) + 18) as u8, ramp.code()]
}

/// Encodes a transmit power in dBm and a ramp time: the power is clamped to
/// the accepted range and offset by 18, so that the register holds 0 to 31.
pub fn encode_power(power: i8, ramp: RampTime) -> (r: (u8, u8))
    ensures
        r.0 == clamp_power(power) + 18,
        r.0 - 18 == clamp_power(power),
        r.0 <= 31,
        r.1 == ramp.code(),
        seq![r.0, r.1] == power_bytes(power, ramp),
{
    let p: i8 = limit_power(power);
    let reg: u8 = (p + 18) as u8;
    assert(seq![reg, ramp.code()] =~= power_bytes(power, ramp));
    (reg, ramp.to_byte())
}

/// The seven parameters of the packet parameter command. The layout depends on
/// the packet family; bytes that a family does not use are zero.
pub open spec fn packet_params(modem: Modem) -> Seq<u8> {
    match modem {
        Modem::Gfsk(c) => seq![
            c.preamble_length.code(),
            c.sync_word_length.code(),
            c.sync_word_match.code(),
            c.header_type.code(),
            c.payload_length,
            c.crc_mode.code(),
            c.whitening.code(),
        ],
        Modem::LoRa(c) => seq![
            c.preamble_length,
            c.header_type.code(),
            c.payload_length,
            c.crc_mode.code(),
            c.invert_iq.code(),
            0u8,
            0u8,
        ],
        Modem::Ranging(c) => seq![
            c.preamble_length,
            c.header_type.code(),
            c.payload_length,
            c.crc_mode.code(),
            c.invert_iq.code(),
            0u8,
            0u8,
        ],
        Modem::Flrc(c) => seq![
            c.preamble_length.code(),
            c.sync_word_length.code(),
            c.sync_word_match.code(),
            c.header_type.code(),
            c.payload_length,
            c.crc_mode.code(),
            c.whitening.code(),
        ],
        Modem::Ble(c) => seq![
            c.connection_state.code(),
            c.crc_field.code(),
            c.packet_type.code(),
            c.whitening.code(),
            0u8,
            0u8,
            0u8,
        ],
    }
}

/// Lays out packet framing as the parameters of the packet parameter command.
pub fn encode_packet_params(modem: &Modem) -> (data: [u8; 7])
    ensures
        data@ == packet_params(*modem),
{
    let data: [u8; 7] = match modem {
        Modem::Gfsk(c) => [
            c.preamble_length.to_byte(),
            c.sync_word_length.to_byte(),
            c.sync_word_match.to_byte(),
            c.header_type.to_byte(),
            c.payload_length,
            c.crc_mode.to_byte(),
            c.whitening.to_byte(),
        ],
        Modem::LoRa(c) => [
            c.preamble_length,
            c.header_type.to_byte(),
            c.payload_length,
            c.crc_mode.to_byte(),
            c.invert_iq.to_byte(),
            0u8,
            0u8,
        ],
        Modem::Ranging(c) => [
            c.preamble_length,
            c.header_type.to_byte(),
            c.payload_length,
            c.crc_mode.to_byte(),
            c.invert_iq.to_byte(),
            0u8,
            0u8,
        ],
        Modem::Flrc(c) => [
            c.preamble_length.to_byte(),
            c.sync_word_length.to_byte(),
            c.sync_word_match.to_byte(),
            c.header_type.to_byte(),
            c.payload_length,
            c.crc_mode.to_byte(),
            c.whitening.to_byte(),
        ],
        Modem::Ble(c) => [
            c.connection_state.to_byte(),
            c.crc_field.to_byte(),
            c.packet_type.to_byte(),
            c.whitening.to_byte(),
            0u8,
            0u8,
            0u8,
        ],
    };
    assert(data@ =~= packet_params(*modem));
    data
}

/// The three parameters of the modulation command, by packet family.
pub open spec fn modulation_params(channel: Channel) -> Seq<u8> {
    match channel {
        Channel::Gfsk(c) => seq![c.br_bw.code(), c.mi.code(), c.ms.code()],
        Channel::LoRa(c) => seq![
            c.mode.spreading_factor.code(),
            c.mode.bandwidth.code(),
            c.mode.coding_rate.code(),
        ],
        Channel::Ranging(c) => seq![
            c.mode.spreading_factor.code(),
            c.mode.bandwidth.code(),
            c.mode.coding_rate.code(),
        ],
        Channel::Flrc(c) => seq![c.br_bw.code(), c.cr.code(), c.ms.code()],
        Channel::Ble(c) => seq![c.br_bw.code(), c.mi.code(), c.ms.code()],
    }
}

/// Lays out a channel's modulation as the parameters of the modulation command.
pub fn encode_modulation_params(channel: &Channel) -> (data: [u8; 3])
    ensures
        data@ == modulation_params(*channel),
{
    let data: [u8; 3] = match channel {
        Channel::Gfsk(c) => [c.br_bw.to_byte(), c.mi.to_byte(), c.ms.to_byte()],
        Channel::LoRa(c) => [
            c.mode.spreading_factor.to_byte(),
            c.mode.bandwidth.to_byte(),
            c.mode.coding_rate.to_byte(),
        ],
        Channel::Ranging(c) => [
            c.mode.spreading_factor.to_byte(),
            c.mode.bandwidth.to_byte(),
            c.mode.coding_rate.to_byte(),
        ],
        Channel::Flrc(c) => [c.br_bw.to_byte(), c.cr.to_byte(), c.ms.to_byte()],
        Channel::Ble(c) => [c.br_bw.to_byte(), c.mi.to_byte(), c.ms.to_byte()],
    };
    assert(data@ =~= modulation_params(*channel));
    data
}

/// A 16-bit word as two bytes, most significant first.
pub open spec fn word_bytes(word: u16) -> Seq<u8> {
    seq![(word / 0x100) as u8, (word % 0x100) as u8]
}

/// Splits a 16-bit word into two bytes, most significant first.
pub fn encode_word(word: u16) -> (data: [u8; 2])
    ensures
        data@ == word_bytes(word),
{
    let data: [u8; 2] = [(word / 0x100) as u8, (word % 0x100) as u8];
    assert(data@ =~= word_bytes(word));
    data
}

/// The 16-bit word that two bytes carry, most significant first.
pub open spec fn word_of(data: Seq<u8>) -> u16 {
    (data[0] as int * 0x100 + data[1] as int) as u16
}

/// Joins two bytes into a 16-bit word, most significant first.
pub fn decode_word(data: &[u8; 2]) -> (word: u16)
    ensures
        word == word_of(data@),
        word == data@[0] * 0x100 + data@[1],
{
    (data[0] as u16) * 0x100 + (data[1] as u16)
}

/// The three parameters that carry a timeout to the chip: the tick size, then
/// the tick count, most significant byte first.
pub open spec fn timeout_bytes(timeout: Timeout) -> Seq<u8> {
    seq![
        timeout.tick().code(),
        (timeout.ticks() / 0x100) as u8,
        (timeout.ticks() % 0x100) as u8,
    ]
}

/// Lays out a timeout as the parameters of a transmit or receive command.
pub fn encode_timeout(timeout: &Timeout) -> (data: [u8; 3])
    ensures
        data@ == timeout_bytes(*timeout),
{
    let count: u16 = timeout.count();
    let data: [u8; 3] = [timeout.step().to_byte(), (count / 0x100) as u8, (count % 0x100) as u8];
    assert(data@ =~= timeout_bytes(*timeout));
    data
}

/// The two parameters of the automatic transmit command: the delay less what
/// the chip takes by itself, most significant byte first, or zero when disabled.
pub open spec fn auto_tx_bytes(auto_tx: AutoTx) -> Seq<u8> {
    match auto_tx {
        AutoTx::Enabled(timeout_us) => word_bytes((timeout_us - AUTO_RX_TX_OFFSET) as u16),
        AutoTx::Disabled => seq![0u8, 0u8],
    }
}

/// Lays out an automatic transmit setting as the parameters of its command.
pub fn encode_auto_tx(auto_tx: AutoTx) -> (data: [u8; 2])
    requires
        auto_tx matches AutoTx::Enabled(timeout_us) ==> timeout_us >= AUTO_RX_TX_OFFSET,
    ensures
        data@ == auto_tx_bytes(auto_tx),
{
    match auto_tx {
        AutoTx::Enabled(timeout_us) => encode_word(timeout_us - AUTO_RX_TX_OFFSET),
        AutoTx::Disabled => {
            let data: [u8; 2] = [0u8, 0u8];
            assert(data@ =~= auto_tx_bytes(auto_tx));
            data
        },
    }
}

/// Where sync word `index` lives for a packet family, and how many bytes it
/// has. GFSK and FLRC have three sync words, numbered from 1; BLE has one
/// access address, whatever the index; the other families have none.
pub open spec fn sync_word_slot(packet_type: PacketType, index: u8) -> Option<(u16, nat)> {
    match packet_type {
        PacketType::Gfsk => if index == 1 {
            Some((0x09CEu16, 5nat))
        } else if index == 2 {
            Some((0x09D3u16, 5nat))
        } else if index == 3 {
            Some((0x09D8u16, 5nat))
        } else {
            None
        },
        PacketType::Flrc => if index == 1 {
            Some((0x09CFu16, 4nat))
        } else if index == 2 {
            Some((0x09D4u16, 4nat))
        } else if index == 3 {
            Some((0x09D9u16, 4nat))
        } else {
            None
        },
        PacketType::Ble => Some((0x09CFu16, 4nat)),
        _ => None,
    }
}

/// Looks up the register address and the length of sync word `index`.
pub fn sync_word_location(packet_type: PacketType, index: u8) -> (slot: Option<(u16, usize)>)
    ensures
        slot matches Some(s) ==> sync_word_slot(packet_type, index) == Some((s.0, s.1 as nat)),
        slot is None ==> sync_word_slot(packet_type, index) is None,
{
    match packet_type {
        PacketType::Gfsk => match index {
            1 => Some((0x09CE, 5)),
            2 => Some((0x09D3, 5)),
            3 => Some((0x09D8, 5)),
            _ => None,
        },
        PacketType::Flrc => match index {
            1 => Some((0x09CF, 4)),
            2 => Some((0x09D4, 4)),
            3 => Some((0x09D9, 4)),
            _ => None,
        },
        PacketType::Ble => Some((0x09CF, 4)),
        _ => None,
    }
}

/// Signal strength in dBm that the chip reports as `raw`: half-dB steps below zero.
pub open spec fn rssi_of(raw: u8) -> int {
    -(raw as int / 2)
}

/// Decodes a signal strength byte.
pub fn decode_rssi(raw: u8) -> (rssi: i16)
    ensures
        rssi == rssi_of(raw),
        -127 <= rssi <= 0,
{
    let half: i16 = (raw / 2) as i16;
    -half
}

/// Signal to noise ratio in dB that the chip reports as `raw`: a signed byte
/// in quarter-dB steps, rounded toward zero.
pub open spec fn snr_of(raw: u8) -> int {
    if raw < 128 {
        raw as int / 4
    } else {
        -((256 - raw as int) / 4)
    }
}

/// Decodes a signal to noise ratio byte.
pub fn decode_snr(raw: u8) -> (snr: i16)
    ensures
        snr == snr_of(raw),
        -32 <= snr <= 31,
{
    if raw < 128 {
        (raw / 4) as i16
    } else {
        let below: i16 = (256 - (raw as i16)) / 4;
        -below
    }
}

/// What a status byte says: the chip's state, or `InvalidResponse` with the
/// byte where the circuit mode or the command status is none that the chip has.
pub open spec fn status_state<C, P>(status: u8) -> Result<State, Error<C, P>> {
    match (State::of_mode(status / 32), CommandStatus::of_status((status / 4) % 8)) {
        (Some(state), Some(_)) => Ok(state),
        _ => Err(Error::InvalidResponse(status)),
    }
}

/// Decodes a status byte: the circuit mode is in the upper three bits, the
/// command status in the three bits below them.
pub fn decode_status<C, P>(status: u8) -> (r: Result<State, Error<C, P>>)
    ensures
        r == status_state::<C, P>(status),
{
    let mode = State::from_mode(status / 32);
    let command_status = CommandStatus::from_status((status / 4) % 8);
    match (mode, command_status) {
        (Some(state), Some(_)) => Ok(state),
        _ => Err(Error::InvalidResponse(status)),
    }
}

/// Whether a chip that reports firmware `version` may be driven: all zeros
/// or all ones mean that nothing answers; any version but the known one is
/// refused unless the check is skipped.
pub open spec fn version_verdict<C, P>(version: u16, skip_version_check: bool) -> Result<
    (),
    Error<C, P>,
> {
    if version == 0xFFFF || version == 0x0000 {
        Err(Error::NoComms)
    } else if version != FIRMWARE_VERSION && !skip_version_check {
        Err(Error::InvalidDevice(version))
    } else {
        Ok(())
    }
}

/// Decides whether a chip that reports firmware `version` may be driven.
pub fn check_firmware_version<C, P>(version: u16, skip_version_check: bool) -> (r: Result<
    (),
    Error<C, P>,
>)
    ensures
        r == version_verdict::<C, P>(version, skip_version_check),
{
    if version == 0xFFFF || version == 0x0000 {
        Err(Error::NoComms)
    } else if version != FIRMWARE_VERSION && !skip_version_check {
        Err(Error::InvalidDevice(version))
    } else {
        Ok(())
    }
}

/// What the interrupt flags say of a transmission: done, timed out, or still
/// under way. Done wins over a timeout.
pub open spec fn transmit_verdict<C, P>(irq: Irq) -> Result<bool, Error<C, P>> {
    if irq.has(Irq::TX_DONE) {
        Ok(true)
    } else if irq.has(Irq::RX_TX_TIMEOUT) {
        Err(Error::Timeout)
    } else {
        Ok(false)
    }
}

/// Reads the interrupt flags after a transmission was started.
pub fn check_transmit_flags<C, P>(irq: Irq) -> (r: Result<bool, Error<C, P>>)
    ensures
        r == transmit_verdict::<C, P>(irq),
{
    if irq.contains(Irq::TX_DONE) {
        Ok(true)
    } else if irq.contains(Irq::RX_TX_TIMEOUT) {
        Err(Error::Timeout)
    } else {
        Ok(false)
    }
}

/// What the interrupt flags say of a reception. Where several flags are set
/// a CRC error wins over a timeout, and a timeout over a received packet.
pub open spec fn receive_verdict<C, P>(irq: Irq) -> Result<bool, Error<C, P>> {
    if irq.has(Irq::CRC_ERROR) {
        Err(Error::InvalidCrc)
    } else if irq.has(Irq::RX_TX_TIMEOUT) {
        Err(Error::Timeout)
    } else if irq.has(Irq::RX_DONE) {
        Ok(true)
    } else {
        Ok(false)
    }
}

/// Reads the interrupt flags after a reception was started.
pub fn check_receive_flags<C, P>(irq: Irq) -> (r: Result<bool, Error<C, P>>)
    ensures
        r == receive_verdict::<C, P>(irq),
{
    if irq.contains(Irq::CRC_ERROR) {
        Err(Error::InvalidCrc)
    } else if irq.contains(Irq::RX_TX_TIMEOUT) {
        Err(Error::Timeout)
    } else if irq.contains(Irq::RX_DONE) {
        Ok(true)
    } else {
        Ok(false)
    }
}

/// Whether the received length is to be taken from the payload length
/// register: with an implicit header a LoRa packet does not carry its length.
pub open spec fn length_in_register(modem: Modem) -> bool {
    modem matches Modem::LoRa(c) && c.header_type == LoRaHeader::Implicit
}

/// Whether the received length is to be taken from the payload length register.
pub fn reads_length_register(modem: &Modem) -> (b: bool)
    ensures
        b == length_in_register(*modem),
{
    match modem {
        Modem::LoRa(c) => c.header_type == LoRaHeader::Implicit,
        _ => false,
    }
}

/// The length of a received packet, of the length that the buffer status
/// reports: BLE leaves out the two bytes of the PDU header, which are added
/// here; the other families report the length as it is.
pub open spec fn received_length(modem: Modem, reported: u8) -> int {
    match modem {
        Modem::Ble(_) => reported + 2,
        _ => reported as int,
    }
}

/// Corrects the length that the buffer status reports for the packet family.
pub fn rx_length(modem: &Modem, reported: u8) -> (len: usize)
    ensures
        len == received_length(*modem, reported),
        len <= 257,
{
    match modem {
        Modem::Ble(_) => (reported as usize) + 2,
        _ => reported as usize,
    }
}

/// What a packet status block says, by packet family. The block has five
/// bytes. The status flags and the sync address are read alike for every
/// family. GFSK, FLRC and BLE report the signal strength in the second byte
/// and no signal to noise ratio; LoRa and ranging report the signal strength
/// in the first byte and the ratio in the second.
pub open spec fn packet_info(packet_type: PacketType, data: Seq<u8>) -> PacketInfo {
    let packet_status = PacketStatus { bits: data[2] & PacketStatus::ALL };
    let tx_rx_status = TxRxStatus { bits: data[3] & TxRxStatus::ALL };
    let sync_addr_status = data[4] % 8;
    match packet_type {
        PacketType::LoRa | PacketType::Ranging => PacketInfo {
            rssi: rssi_of(data[0]) as i16,
            snr: Some(snr_of(data[1]) as i16),
            packet_status,
            tx_rx_status,
            sync_addr_status,
        },
        _ => PacketInfo {
            rssi: rssi_of(data[1]) as i16,
            snr: None,
            packet_status,
            tx_rx_status,
            sync_addr_status,
        },
    }
}

/// Decodes a packet status block into `info`. Nothing of what `info` held
/// is left: where the packet family reports no signal to noise ratio, it
/// holds none.
pub fn decode_packet_info(packet_type: PacketType, data: &[u8; 5], info: &mut PacketInfo)
    requires
        packet_type != PacketType::Unselected,
    ensures
        *final(info) == packet_info(packet_type, data@),
        !(packet_type is LoRa || packet_type is Ranging) ==> final(info).snr is None,
{
    info.packet_status = PacketStatus::from_bits_truncate(data[2]);
    info.tx_rx_status = TxRxStatus::from_bits_truncate(data[3]);
    info.sync_addr_status = data[4] % 8;
    match packet_type {
        PacketType::LoRa | PacketType::Ranging => {
            info.rssi = decode_rssi(data[0]);
            info.snr = Some(decode_snr(data[1]));
        },
        _ => {
            info.rssi = decode_rssi(data[1]);
            info.snr = None;
        },
    }
}

} // verus!
