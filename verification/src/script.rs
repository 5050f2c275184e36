//! What each operation of the driver asks of the bus, step by step.
//!
//! A script is the list of steps that an operation takes where the bus fails
//! none of them. Where the steps depend on what an earlier one read, the
//! script takes the exchanges of the operation and looks the answer up.

use vstd::prelude::*;

use crate::base::{
    acked, answer, carried, failure, follows, lemma_follows_at, lemma_follows_len, ran, since,
    starts_plain, Exchange, Request, Step,
};
use crate::codec::{
    auto_tx_bytes, clamp_power, frequency_bytes, length_in_register, modulation_params,
    packet_params, power_bytes, receive_verdict, received_length, status_state, steps_of,
    sync_word_slot, timeout_bytes, transmit_verdict, version_verdict, word_bytes, word_of,
};
use crate::device::flags::{CalibrationParams, Irq};
use crate::device::{
    AutoTx, Channel, Commands, Config, Modem, PaConfig, PacketType, RampTime, RangingRole,
    Registers, RegulatorMode, State,
};
use crate::{Error, FREQ_MAX, FREQ_MIN};

verus! {

/// Reading the firmware version: two registers.
pub open spec fn firmware_version_request() -> Step {
    Step::Ask(Request::ReadRegs(Registers::LrFirmwareVersionMsb.address(), 2))
}

/// Whether the chip can be tuned to `freq_hz`.
pub open spec fn frequency_in_range(freq_hz: u32) -> bool {
    FREQ_MIN <= freq_hz <= FREQ_MAX
}

/// The command that tunes the chip to `freq_hz`.
pub open spec fn frequency_request(freq_hz: u32) -> Step {
    Step::Ask(
        Request::WriteCmd(
            Commands::SetRfFrequency.code(),
            frequency_bytes(steps_of(freq_hz) as u32),
        ),
    )
}

/// Tuning the chip: one command, and none for a frequency out of range.
pub open spec fn frequency_script(freq_hz: u32) -> Seq<Step> {
    if frequency_in_range(freq_hz) {
        seq![frequency_request(freq_hz)]
    } else {
        Seq::empty()
    }
}

/// What tuning the chip returns where the bus does not fail.
pub open spec fn frequency_verdict<C, P>(freq_hz: u32) -> Result<(), Error<C, P>> {
    if frequency_in_range(freq_hz) {
        Ok(())
    } else {
        Err(Error::InvalidFrequency)
    }
}

/// The command that sets the transmit power and the ramp time.
pub open spec fn power_request(power: i8, ramp: RampTime) -> Step {
    Step::Ask(Request::WriteCmd(Commands::SetTxParams.code(), power_bytes(power, ramp)))
}

/// The command that arms the interrupts of `mask`.
pub open spec fn irq_mask_request(mask: Irq) -> Step {
    Step::Ask(Request::WriteCmd(Commands::SetDioIrqParams.code(), word_bytes(mask.bits)))
}

/// The command that calibrates the blocks of `params`.
pub open spec fn calibrate_request(params: CalibrationParams) -> Step {
    Step::Ask(Request::WriteCmd(Commands::Calibrate.code(), seq![params.bits]))
}

/// The command that selects the regulator.
pub open spec fn regulator_request(mode: RegulatorMode) -> Step {
    Step::Ask(Request::WriteCmd(Commands::SetRegulatorMode.code(), seq![mode.code()]))
}

/// The command that sets up automatic transmission.
pub open spec fn auto_tx_request(auto_tx: AutoTx) -> Step {
    Step::Ask(Request::WriteCmd(Commands::SetAutoTx.code(), auto_tx_bytes(auto_tx)))
}

/// The command that places the transmit and the receive area in the data buffer.
pub open spec fn buffer_base_request(tx: u8, rx: u8) -> Step {
    Step::Ask(Request::WriteCmd(Commands::SetBufferBaseAddress.code(), seq![tx, rx]))
}

/// The command that requests `state` of the chip.
pub open spec fn state_request(state: State) -> Step {
    Step::Ask(Request::WriteCmd(state.command().code(), seq![0u8]))
}

/// Reading the status byte.
pub open spec fn status_request() -> Step {
    Step::Ask(Request::ReadCmd(Commands::GetStatus.code(), 1))
}

/// The state of the chip by the status byte that exchange `i` of `said` read.
pub open spec fn state_verdict<C, P>(said: Seq<Exchange<C, P>>, i: int) -> Result<
    State,
    Error<C, P>,
> {
    status_state(answer(said, i)[0])
}

/// What an operation returns that ends by reading the state of the chip:
/// the error of a status byte that cannot be read, and else nothing.
pub open spec fn settled<C, P>(said: Seq<Exchange<C, P>>) -> Result<(), Error<C, P>> {
    match state_verdict(said, said.len() - 1) {
        Ok(_) => Ok(()),
        Err(e) => Err(e),
    }
}

/// Reading the signal strength.
pub open spec fn rssi_request() -> Step {
    Step::Ask(Request::ReadCmd(Commands::GetRssiInst.code(), 1))
}

/// Reading the packet status block.
pub open spec fn packet_status_request() -> Step {
    Step::Ask(Request::ReadCmd(Commands::GetPacketStatus.code(), 5))
}

/// Reading the interrupt flags.
pub open spec fn irq_status_request() -> Step {
    Step::Ask(Request::ReadCmd(Commands::GetIrqStatus.code(), 2))
}

/// The flags that the exchange `i` of `said` read.
pub open spec fn flags_read<C, P>(said: Seq<Exchange<C, P>>, i: int) -> Irq {
    Irq { bits: word_of(answer(said, i)) }
}

/// Reading the interrupt flags: they are read, and where they are to be
/// cleared and any is set, the flags read are written back to clear them.
pub open spec fn interrupts_script<C, P>(clear: bool, said: Seq<Exchange<C, P>>) -> Seq<Step> {
    if clear && acked(said, 0) && flags_read(said, 0).bits != 0 {
        seq![
            irq_status_request(),
            Step::Ask(Request::WriteCmd(Commands::ClearIrqStatus.code(), answer(said, 0))),
        ]
    } else {
        seq![irq_status_request()]
    }
}

/// The command that selects packet type `wanted`, unless the chip is in it already.
pub open spec fn type_switch(current: PacketType, wanted: PacketType) -> Seq<Step> {
    if current == wanted {
        Seq::empty()
    } else {
        seq![Step::Ask(Request::WriteCmd(Commands::SetPacketType.code(), seq![wanted.code()]))]
    }
}

/// The packet type that the driver records after asking for a switch to
/// `wanted` in step `i`, counted from 0, of an operation that went as `said`:
/// the new one once the switch is acknowledged.
pub open spec fn switched<C, P>(
    current: PacketType,
    wanted: PacketType,
    said: Seq<Exchange<C, P>>,
    i: int,
) -> PacketType {
    if current != wanted && carried(said) > i {
        wanted
    } else {
        current
    }
}

/// Whether sync word `index` can be set to `value` in packet type `packet_type`.
pub open spec fn sync_word_fits(packet_type: PacketType, index: u8, value: Seq<u8>) -> bool {
    sync_word_slot(packet_type, index) matches Some(slot) && value.len() == slot.1
}

/// Setting a sync word: where the packet type has such a sync word and the
/// value has its length, the value is written to its registers. In FLRC the
/// sync word tolerance is then read and written back with its lower four bits
/// cleared, so that only an exact match is accepted. Else nothing is asked.
pub open spec fn sync_word_script(packet_type: PacketType, index: u8, value: Seq<u8>) -> Seq<Step> {
    if !sync_word_fits(packet_type, index, value) {
        Seq::empty()
    } else if packet_type == PacketType::Flrc {
        seq![
            Step::Ask(Request::WriteRegs(sync_word_slot(packet_type, index)->Some_0.0, value)),
            Step::Ask(Request::ReadRegs(Registers::LrSyncWordTolerance.address(), 1)),
            Step::WriteBack(Registers::LrSyncWordTolerance.address(), 0xF0),
        ]
    } else {
        seq![Step::Ask(Request::WriteRegs(sync_word_slot(packet_type, index)->Some_0.0, value))]
    }
}

/// What setting a sync word returns where the bus does not fail.
pub open spec fn sync_word_verdict<C, P>(packet_type: PacketType, index: u8, value: Seq<u8>) -> Result<
    (),
    Error<C, P>,
> {
    if sync_word_fits(packet_type, index, value) {
        Ok(())
    } else {
        Err(Error::InvalidConfiguration)
    }
}

/// The steps that configuring the modem starts with: the packet type is
/// switched where it differs, then the packet parameters are written.
pub open spec fn framing_script(packet_type: PacketType, modem: Modem) -> Seq<Step> {
    type_switch(packet_type, modem.packet_type()) + seq![
        Step::Ask(Request::WriteCmd(Commands::SetPacketParams.code(), packet_params(modem))),
    ]
}

/// Configuring the modem: the packet type is switched where it differs, then
/// the packet parameters are written. FLRC framing that names a sync word
/// value has it set as sync word 1 after that.
#[verifier::opaque]
pub open spec fn modem_script(packet_type: PacketType, modem: Modem) -> Seq<Step> {
    match modem {
        Modem::Flrc(c) => match c.sync_word_value {
            Some(v) => framing_script(packet_type, modem) + sync_word_script(
                PacketType::Flrc,
                1,
                v@,
            ),
            None => framing_script(packet_type, modem),
        },
        _ => framing_script(packet_type, modem),
    }
}

/// Setting the channel: the frequency is set, the packet type is switched
/// where it differs, then the modulation parameters are written. For a
/// frequency out of range nothing is asked.
#[verifier::opaque]
pub open spec fn channel_script(packet_type: PacketType, channel: Channel) -> Seq<Step> {
    if frequency_in_range(channel.freq()) {
        seq![frequency_request(channel.freq())] + type_switch(
            packet_type,
            channel.packet_type(),
        ) + seq![
            Step::Ask(
                Request::WriteCmd(Commands::SetModulationParams.code(), modulation_params(channel)),
            ),
        ]
    } else {
        Seq::empty()
    }
}

/// Reading where a received packet lies in the data buffer: the buffer status
/// is read, and then the payload length register where the packet does not
/// carry its length.
pub open spec fn buffer_status_script(modem: Modem) -> Seq<Step> {
    if length_in_register(modem) {
        seq![
            Step::Ask(Request::ReadCmd(Commands::GetRxBufferStatus.code(), 2)),
            Step::Ask(Request::ReadRegs(Registers::LrPayloadLength.address(), 1)),
        ]
    } else {
        seq![Step::Ask(Request::ReadCmd(Commands::GetRxBufferStatus.code(), 2))]
    }
}

/// The offset in the data buffer at which the received packet starts: the
/// second byte of the buffer status.
pub open spec fn received_offset<C, P>(said: Seq<Exchange<C, P>>) -> u8 {
    answer(said, 0)[1]
}

/// The length of the received packet: the payload length register where it
/// was read, else the first byte of the buffer status, corrected for the
/// packet family.
pub open spec fn received_len<C, P>(modem: Modem, said: Seq<Exchange<C, P>>) -> int {
    if length_in_register(modem) {
        answer(said, 1)[0] as int
    } else {
        received_length(modem, answer(said, 0)[0])
    }
}

/// The longest packet that the chip can report for a packet family.
pub open spec fn longest_packet(modem: Modem) -> int {
    match modem {
        Modem::Ble(_) => 257,
        _ => 255,
    }
}

/// Fetching a packet of `len` bytes that lies at `offset` in the data buffer:
/// the packet is read in one read of `len` bytes, then the packet status.
pub open spec fn fetch_script(offset: u8, len: nat) -> Seq<Step> {
    seq![Step::Ask(Request::ReadBuff(offset, len)), packet_status_request()]
}

/// Fetching a received packet: where it lies is read, then the packet is
/// fetched from there.
pub open spec fn received_script<C, P>(modem: Modem, said: Seq<Exchange<C, P>>) -> Seq<Step> {
    buffer_status_script(modem) + fetch_script(
        received_offset(said),
        received_len(modem, said) as nat,
    )
}

/// The command that sets the role in a ranging exchange, for the ranging
/// packet type only.
pub open spec fn ranging_script(packet_type: PacketType, role: RangingRole) -> Seq<Step> {
    if packet_type == PacketType::Ranging {
        seq![Step::Ask(Request::WriteCmd(Commands::SetRangingRole.code(), seq![role.code()]))]
    } else {
        Seq::empty()
    }
}

/// The framing with which `len` bytes are sent: the modem's, with the payload
/// length set to `len`.
pub open spec fn transmit_framing(config: Config, len: nat) -> Modem {
    config.modem.with_payload_len(len as u8)
}

/// Starting a transmission of `data`: the framing is written with the payload
/// length of the data, the areas of the data buffer are set to its start, the
/// data are written to it, a ranging exchange is entered as initiator, the
/// interrupts of a transmission are armed, the chip is put in transmit mode
/// with the timeout, and its state is read back.
#[verifier::opaque]
pub open spec fn transmit_script(packet_type: PacketType, config: Config, data: Seq<u8>) -> Seq<
    Step,
> {
    modem_script(packet_type, transmit_framing(config, data.len())) + seq![
        buffer_base_request(0, 0),
        Step::Ask(Request::WriteBuff(0, data)),
    ] + ranging_script(config.modem.packet_type(), RangingRole::Initiator) + seq![
        irq_mask_request(Irq { bits: Irq::TRANSMIT }),
        Step::Ask(Request::WriteCmd(Commands::SetTx.code(), timeout_bytes(config.rf_timeout))),
        status_request(),
    ]
}

/// Starting a reception: the areas of the data buffer are set to its start,
/// the framing is written, a ranging exchange is entered as responder, the
/// interrupts of a reception are armed, the chip is put in receive mode with
/// the timeout, and its state is read back.
#[verifier::opaque]
pub open spec fn receive_script(packet_type: PacketType, config: Config) -> Seq<Step> {
    seq![buffer_base_request(0, 0)] + modem_script(packet_type, config.modem) + ranging_script(
        config.modem.packet_type(),
        RangingRole::Responder,
    ) + seq![
        irq_mask_request(Irq { bits: Irq::RECEIVE }),
        Step::Ask(Request::WriteCmd(Commands::SetRx.code(), timeout_bytes(config.rf_timeout))),
        status_request(),
    ]
}

/// The parts that starting a transmission is made of make up its script
/// from the start.
pub proof fn lemma_transmit_parts(packet_type: PacketType, config: Config, data: Seq<u8>)
    ensures
        ({
            let full = transmit_script(packet_type, config, data);
            let modem = modem_script(packet_type, transmit_framing(config, data.len()));
            let base = seq![buffer_base_request(0, 0)];
            let buffer = seq![Step::Ask(Request::WriteBuff(0, data))];
            let ranging = ranging_script(config.modem.packet_type(), RangingRole::Initiator);
            let irq = seq![irq_mask_request(Irq { bits: Irq::TRANSMIT })];
            let tx = seq![
                Step::Ask(
                    Request::WriteCmd(Commands::SetTx.code(), timeout_bytes(config.rf_timeout)),
                ),
            ];
            let status = seq![status_request()];
            &&& (Seq::<Step>::empty() + modem).is_prefix_of(full)
            &&& (modem + base).is_prefix_of(full)
            &&& (modem + base + buffer).is_prefix_of(full)
            &&& (modem + base + buffer + ranging).is_prefix_of(full)
            &&& (modem + base + buffer + ranging + irq).is_prefix_of(full)
            &&& (modem + base + buffer + ranging + irq + tx).is_prefix_of(full)
            &&& (modem + base + buffer + ranging + irq + tx + status).is_prefix_of(full)
            &&& full.len() == modem.len() + ranging.len() + 5
        }),
{
    reveal(transmit_script);
}

/// The parts that starting a reception is made of make up its script from
/// the start.
pub proof fn lemma_receive_parts(packet_type: PacketType, config: Config)
    ensures
        ({
            let full = receive_script(packet_type, config);
            let base = seq![buffer_base_request(0, 0)];
            let modem = modem_script(packet_type, config.modem);
            let ranging = ranging_script(config.modem.packet_type(), RangingRole::Responder);
            let irq = seq![irq_mask_request(Irq { bits: Irq::RECEIVE })];
            let rx = seq![
                Step::Ask(
                    Request::WriteCmd(Commands::SetRx.code(), timeout_bytes(config.rf_timeout)),
                ),
            ];
            let status = seq![status_request()];
            &&& (Seq::<Step>::empty() + base).is_prefix_of(full)
            &&& (base + modem).is_prefix_of(full)
            &&& (base + modem + ranging).is_prefix_of(full)
            &&& (base + modem + ranging + irq).is_prefix_of(full)
            &&& (base + modem + ranging + irq + rx).is_prefix_of(full)
            &&& (base + modem + ranging + irq + rx + status).is_prefix_of(full)
            &&& full.len() == modem.len() + ranging.len() + 4
        }),
{
    reveal(receive_script);
}

/// Checking on a transmission: the interrupt flags are read and cleared,
/// then the state of the chip is read.
pub open spec fn check_transmit_script<C, P>(said: Seq<Exchange<C, P>>) -> Seq<Step> {
    interrupts_script(true, said) + seq![status_request()]
}

/// What checking on a transmission returns where the bus does not fail: the
/// error of a status byte that cannot be read, and else what the flags say.
pub open spec fn check_transmit_verdict<C, P>(said: Seq<Exchange<C, P>>) -> Result<
    bool,
    Error<C, P>,
> {
    match state_verdict(said, said.len() - 1) {
        Ok(_) => transmit_verdict(flags_read(said, 0)),
        Err(e) => Err(e),
    }
}

/// Whether a check on a reception starts the reception again: it is asked
/// to, and the flags read report an error.
pub open spec fn restarts<C, P>(restart: bool, said: Seq<Exchange<C, P>>) -> bool {
    restart && acked(said, 0) && receive_verdict::<C, P>(flags_read(said, 0)) is Err
}

/// Checking on a reception: the interrupt flags are read and cleared. Where
/// they report an error and the reception is to be started again, it is.
pub open spec fn check_receive_script<C, P>(
    restart: bool,
    packet_type: PacketType,
    config: Config,
    said: Seq<Exchange<C, P>>,
) -> Seq<Step> {
    if restarts(restart, said) {
        interrupts_script(true, said) + receive_script(packet_type, config)
    } else {
        interrupts_script(true, said)
    }
}

/// What checking on a reception returns where the bus does not fail: what
/// the flags say, or, where the reception was started again, that nothing
/// was received, unless the status byte read at its end cannot be read.
pub open spec fn check_receive_verdict<C, P>(restart: bool, said: Seq<Exchange<C, P>>) -> Result<
    bool,
    Error<C, P>,
> {
    if restarts(restart, said) {
        match settled(said) {
            Ok(()) => Ok(false),
            Err(e) => Err(e),
        }
    } else {
        receive_verdict(flags_read(said, 0))
    }
}

/// Configuring the chip: it is put in standby. A configuration whose channel
/// and modem belong to different packet families ends there. Else the
/// regulator is selected, the channel is set, which a frequency out of range
/// ends, the framing is written, and the transmit power is set. The channel
/// has switched the packet type by then, so the framing does not.
#[verifier::opaque]
pub open spec fn configure_script(packet_type: PacketType, config: Config) -> Seq<Step> {
    if !config.families_match() {
        seq![state_request(State::StandbyRc)]
    } else if !frequency_in_range(config.channel.freq()) {
        seq![state_request(State::StandbyRc), regulator_request(config.regulator_mode)]
    } else {
        seq![state_request(State::StandbyRc), regulator_request(config.regulator_mode)]
            + channel_script(packet_type, config.channel) + modem_script(
            config.channel.packet_type(),
            config.modem,
        ) + seq![power_request(config.pa_config.power, config.pa_config.ramp_time)]
    }
}

/// The parts that configuring the chip is made of, each as far as the
/// operation gets to it, make up its script from the start.
pub proof fn lemma_configure_parts(packet_type: PacketType, config: Config)
    ensures
        ({
            let full = configure_script(packet_type, config);
            let standby = seq![state_request(State::StandbyRc)];
            let regulator = seq![regulator_request(config.regulator_mode)];
            let channel = channel_script(packet_type, config.channel);
            let modem = modem_script(config.channel.packet_type(), config.modem);
            let power = seq![power_request(config.pa_config.power, config.pa_config.ramp_time)];
            let tuned = frequency_in_range(config.channel.freq());
            &&& (Seq::<Step>::empty() + standby).is_prefix_of(full)
            &&& !config.families_match() ==> full.len() == 1
            &&& config.families_match() ==> (standby + regulator).is_prefix_of(full)
            &&& config.families_match() && !tuned ==> full.len() == 2
            &&& config.families_match() && tuned ==> {
                &&& (standby + regulator + channel).is_prefix_of(full)
                &&& (standby + regulator + channel + modem).is_prefix_of(full)
                &&& (standby + regulator + channel + modem + power).is_prefix_of(full)
                &&& full.len() == channel.len() + modem.len() + 3
            }
        }),
{
    reveal(configure_script);
}

/// What configuring the chip returns where the bus does not fail.
pub open spec fn configure_verdict<C, P>(config: Config) -> Result<(), Error<C, P>> {
    if !config.families_match() {
        Err(Error::InvalidConfiguration)
    } else if !frequency_in_range(config.channel.freq()) {
        Err(Error::InvalidFrequency)
    } else {
        Ok(())
    }
}

/// The configuration that the driver holds after configuring the chip with
/// `config`, having held `held`: each part is taken over once the bus has
/// carried out the steps up to the last write that carries it, the power as
/// the chip holds it, and the parts that nothing is written for at the end.
pub open spec fn configured<C, P>(
    held: Config,
    packet_type: PacketType,
    config: Config,
    said: Seq<Exchange<C, P>>,
) -> Config {
    let channel_end = 2 + channel_script(packet_type, config.channel).len();
    let modem_end = channel_end + modem_script(config.channel.packet_type(), config.modem).len();
    if !config.families_match() || carried(said) < 2 {
        held
    } else if !frequency_in_range(config.channel.freq()) || carried(said) < channel_end {
        Config { regulator_mode: config.regulator_mode, ..held }
    } else if carried(said) < modem_end {
        Config { regulator_mode: config.regulator_mode, channel: config.channel, ..held }
    } else if carried(said) < modem_end + 1 {
        Config {
            regulator_mode: config.regulator_mode,
            channel: config.channel,
            modem: config.modem,
            ..held
        }
    } else {
        Config {
            pa_config: PaConfig {
                power: clamp_power(config.pa_config.power),
                ramp_time: config.pa_config.ramp_time,
            },
            ..config
        }
    }
}

/// The packet type that the driver records after configuring the chip: that
/// of the channel once the switch to it, the fourth step, is acknowledged.
pub open spec fn configured_packet_type<C, P>(
    packet_type: PacketType,
    config: Config,
    said: Seq<Exchange<C, P>>,
) -> PacketType {
    if config.families_match() && frequency_in_range(config.channel.freq()) {
        switched(packet_type, config.channel.packet_type(), said, 3)
    } else {
        packet_type
    }
}

/// Whether the chip that answered in `said` may be driven: the firmware
/// version that its second exchange read passes the check.
pub open spec fn version_passes<C, P>(config: Config, said: Seq<Exchange<C, P>>) -> bool {
    acked(said, 1) && version_verdict::<C, P>(
        firmware_read(said),
        config.skip_version_check,
    ) is Ok
}

/// Taking a chip into service: it is reset and its firmware version is read.
/// A chip that may be driven is then configured and, where that went well,
/// put in standby.
pub open spec fn startup_script<C, P>(
    packet_type: PacketType,
    config: Config,
    said: Seq<Exchange<C, P>>,
) -> Seq<Step> {
    if !version_passes(config, said) {
        seq![Step::Ask(Request::Reset)] + seq![firmware_version_request()]
    } else if configure_verdict::<C, P>(config) is Err {
        seq![Step::Ask(Request::Reset)] + seq![firmware_version_request()] + configure_script(
            packet_type,
            config,
        )
    } else {
        seq![Step::Ask(Request::Reset)] + seq![firmware_version_request()] + configure_script(
            packet_type,
            config,
        ) + seq![state_request(State::StandbyRc)]
    }
}

/// The configuration that the driver holds after taking a chip into
/// service, having held `held`: what it held where the chip is not found fit
/// to be driven, and else what configuring the chip, which starts with the
/// third exchange, leaves it with.
pub open spec fn startup_config<C, P>(
    held: Config,
    packet_type: PacketType,
    config: Config,
    said: Seq<Exchange<C, P>>,
) -> Config {
    if version_passes(config, said) {
        configured(held, packet_type, config, said.skip(2))
    } else {
        held
    }
}

/// The packet type that the driver records after taking a chip into service:
/// the one it recorded where the chip is not found fit to be driven, and
/// else what configuring the chip, which starts with the third exchange,
/// leaves it with.
pub open spec fn startup_packet_type<C, P>(
    packet_type: PacketType,
    config: Config,
    said: Seq<Exchange<C, P>>,
) -> PacketType {
    if version_passes(config, said) {
        configured_packet_type(packet_type, config, said.skip(2))
    } else {
        packet_type
    }
}

/// The firmware version that the second exchange of taking a chip into
/// service read.
pub open spec fn firmware_read<C, P>(said: Seq<Exchange<C, P>>) -> u16 {
    word_of(answer(said, 1))
}

/// What taking a chip into service returns where the bus does not fail: the
/// error of the version check, else that of the configuration, else the
/// firmware version read.
pub open spec fn startup_verdict<C, P>(config: Config, said: Seq<Exchange<C, P>>) -> Result<
    u16,
    Error<C, P>,
> {
    match version_verdict::<C, P>(firmware_read(said), config.skip_version_check) {
        Ok(()) => match configure_verdict::<C, P>(config) {
            Ok(()) => Ok(firmware_read(said)),
            Err(e) => Err(e),
        },
        Err(e) => Err(e),
    }
}

/// A chip that had no packet type selected was taken into service between
/// the histories `before` and `after`, and that went well.
pub open spec fn started<C, P>(
    before: Seq<Exchange<C, P>>,
    after: Seq<Exchange<C, P>>,
    config: Config,
) -> bool {
    ran(
        before,
        after,
        startup_script(PacketType::Unselected, config, since(before, after)),
        startup_verdict(config, since(before, after)),
        Ok::<u16, Error<C, P>>(firmware_read(since(before, after))),
    )
}

/// An operation that asks nothing leaves the bus alone: what is refused
/// before the first step has made no exchange, and returns its verdict.
pub proof fn lemma_nothing_asked<T, C, P>(
    before: Seq<Exchange<C, P>>,
    after: Seq<Exchange<C, P>>,
    verdict: Result<T, Error<C, P>>,
    r: Result<T, Error<C, P>>,
)
    requires
        ran(before, after, Seq::empty(), verdict, r),
    ensures
        after == before,
        r == verdict,
{
    lemma_follows_len(since(before, after), Seq::empty());
    assert(after =~= before);
}

/// A sync word that the packet type does not have, or a value of another
/// length, is refused with `InvalidConfiguration`, and nothing goes over
/// the bus.
pub proof fn lemma_sync_word_refused<C, P>(
    before: Seq<Exchange<C, P>>,
    after: Seq<Exchange<C, P>>,
    packet_type: PacketType,
    index: u8,
    value: Seq<u8>,
    r: Result<(), Error<C, P>>,
)
    requires
        !sync_word_fits(packet_type, index, value),
        ran(
            before,
            after,
            sync_word_script(packet_type, index, value),
            sync_word_verdict(packet_type, index, value),
            r,
        ),
    ensures
        after == before,
        r == Err::<(), Error<C, P>>(Error::InvalidConfiguration),
{
    lemma_nothing_asked(before, after, sync_word_verdict::<C, P>(packet_type, index, value), r);
}

/// Reading and clearing the interrupt flags writes back the two bytes that
/// were read, and no others.
pub proof fn lemma_clear_carries_the_flags<C, P>(said: Seq<Exchange<C, P>>)
    requires
        follows(said, interrupts_script(true, said)),
        said.len() == 2,
    ensures
        answer(said, 0).len() == 2,
        said[1].request == Request::WriteCmd(Commands::ClearIrqStatus.code(), answer(said, 0)),
{
    let script = interrupts_script(true, said);
    lemma_follows_len(said, script);
    lemma_follows_at(said, script, 0);
    lemma_follows_at(said, script, 1);
}

/// A packet status that was read has the five bytes that it is decoded from.
pub proof fn lemma_packet_status_block<C, P>(said: Seq<Exchange<C, P>>)
    requires
        follows(said, seq![packet_status_request()]),
        failure(said) is None,
    ensures
        said.len() == 1,
        answer(said, 0).len() == 5,
{
    let script = seq![packet_status_request()];
    lemma_follows_len(said, script);
    lemma_follows_at(said, script, 0);
}

/// A check on a reception that finds a CRC error starts the reception again
/// where it is to restart, exactly once, and then reports that nothing was
/// received; where it is not to restart, it asks nothing more and reports the
/// CRC error.
pub proof fn lemma_crc_error_restarts<C, P>(
    packet_type: PacketType,
    config: Config,
    said: Seq<Exchange<C, P>>,
)
    requires
        acked(said, 0),
        flags_read(said, 0).has(Irq::CRC_ERROR),
    ensures
        check_receive_script(true, packet_type, config, said) == interrupts_script(true, said)
            + receive_script(packet_type, config),
        settled(said) is Ok ==> check_receive_verdict(true, said) == Ok::<bool, Error<C, P>>(
            false,
        ),
        check_receive_script(false, packet_type, config, said) == interrupts_script(true, said),
        check_receive_verdict(false, said) == Err::<bool, Error<C, P>>(Error::InvalidCrc),
{
}

/// A configuration whose channel and modem belong to different packet
/// families is refused: all that the chip is asked is to go to standby, no
/// part of the configuration is written, and the driver holds what it held.
pub proof fn lemma_family_mismatch<C, P>(
    held: Config,
    packet_type: PacketType,
    config: Config,
    said: Seq<Exchange<C, P>>,
)
    requires
        !config.families_match(),
    ensures
        configure_script(packet_type, config) == seq![state_request(State::StandbyRc)],
        configure_verdict::<C, P>(config) == Err::<(), Error<C, P>>(Error::InvalidConfiguration),
        configured(held, packet_type, config, said) == held,
        configured_packet_type(packet_type, config, said) == packet_type,
{
    reveal(configure_script);
}

/// Configuring the chip with a configuration whose channel and modem belong
/// to different packet families makes one exchange, the request to go to
/// standby, and no other: no register or buffer is written and no part of
/// the configuration goes to the chip. It returns `InvalidConfiguration`
/// where the chip takes the request, and the error of the bus where it
/// does not.
pub proof fn lemma_family_mismatch_run<C, P>(
    before: Seq<Exchange<C, P>>,
    after: Seq<Exchange<C, P>>,
    packet_type: PacketType,
    config: Config,
    r: Result<(), Error<C, P>>,
)
    requires
        !config.families_match(),
        ran(
            before,
            after,
            configure_script(packet_type, config),
            configure_verdict(config),
            r,
        ),
    ensures
        since(before, after).len() == 1,
        since(before, after)[0].request == Request::WriteCmd(
            Commands::SetStandby.code(),
            seq![0u8],
        ),
        r == (match since(before, after)[0].reply {
            Ok(_) => Err::<(), Error<C, P>>(Error::InvalidConfiguration),
            Err(e) => Err(e),
        }),
{
    let said = since(before, after);
    let script = configure_script(packet_type, config);
    lemma_family_mismatch(config, packet_type, config, said);
    lemma_follows_len(said, script);
    lemma_follows_at(said, script, 0);
}

/// Configuring the chip starts by putting it in standby, whatever the
/// configuration: nothing of a configuration goes to a chip that was not
/// asked to go to standby first.
pub proof fn lemma_configure_starts_in_standby(packet_type: PacketType, config: Config)
    ensures
        configure_script(packet_type, config).len() >= 1,
        configure_script(packet_type, config)[0] == state_request(State::StandbyRc),
{
    reveal(configure_script);
}

/// Configuring the chip switches the packet type at most once: setting the
/// channel switches it where it differs, and channel and modem of a
/// configuration that is accepted belong to one packet family, so after the
/// channel is set the framing finds the chip in its packet type.
pub proof fn lemma_one_type_switch(packet_type: PacketType, config: Config)
    requires
        config.families_match(),
    ensures
        type_switch(packet_type, config.channel.packet_type()).len() <= 1,
        type_switch(config.channel.packet_type(), config.modem.packet_type()).len() == 0,
        framing_script(config.channel.packet_type(), config.modem) == seq![
            Step::Ask(
                Request::WriteCmd(Commands::SetPacketParams.code(), packet_params(config.modem)),
            ),
        ],
{
    assert(framing_script(config.channel.packet_type(), config.modem) =~= seq![
        Step::Ask(
            Request::WriteCmd(Commands::SetPacketParams.code(), packet_params(config.modem)),
        ),
    ]);
}

/// How long a received packet is taken to be, by packet family: BLE adds the
/// two bytes of the PDU header to the length that the chip reports; LoRa with
/// an implicit header takes the payload length register, which it reads, and
/// not the length that the chip reports; every other framing takes the length
/// that the chip reports.
pub proof fn lemma_received_length<C, P>(modem: Modem, said: Seq<Exchange<C, P>>)
    ensures
        modem is Ble ==> received_len(modem, said) == answer(said, 0)[0] + 2,
        length_in_register(modem) ==> {
            &&& buffer_status_script(modem).len() == 2
            &&& buffer_status_script(modem)[1] == Step::Ask(
                Request::ReadRegs(Registers::LrPayloadLength.address(), 1),
            )
            &&& received_len(modem, said) == answer(said, 1)[0]
        },
        !(modem is Ble) && !length_in_register(modem) ==> {
            &&& buffer_status_script(modem).len() == 1
            &&& received_len(modem, said) == answer(said, 0)[0]
        },
        received_len(modem, said) <= longest_packet(modem),
{
}

/// No script of an operation starts by writing back what an operation before
/// it read, so each can follow any other.
pub proof fn lemma_scripts_start_plain(
    packet_type: PacketType,
    config: Config,
    channel: Channel,
    modem: Modem,
    data: Seq<u8>,
)
    ensures
        starts_plain(channel_script(packet_type, channel)),
        !frequency_in_range(channel.freq()) ==> channel_script(packet_type, channel).len() == 0,
        starts_plain(modem_script(packet_type, modem)),
        starts_plain(configure_script(packet_type, config)),
        starts_plain(transmit_script(packet_type, config, data)),
        starts_plain(receive_script(packet_type, config)),
{
    reveal(channel_script);
    reveal(modem_script);
    reveal(configure_script);
    reveal(transmit_script);
    reveal(receive_script);
}

} // verus!
