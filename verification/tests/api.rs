use radio_sx128x::device::{RampTime, State};
use radio_sx128x::mock::{Mock, Transaction};
use radio_sx128x::Sx128x;

fn asked(radio: &Sx128x<Mock<(), ()>, (), ()>) -> Vec<Transaction> {
    radio.hal().log().iter().map(|record| record.transaction.clone()).collect()
}

#[test]
fn test_api_reset() {
    let mut radio = Sx128x::<Mock<(), ()>, (), ()>::build(Mock::new());

    radio.reset().unwrap();

    assert_eq!(asked(&radio), vec![Transaction::Reset]);
}

#[test]
fn test_api_status() {
    let mut mock = Mock::<(), ()>::new();
    mock.answer(vec![0x00]);
    let mut radio = Sx128x::build(mock);

    radio.get_state().unwrap();

    assert_eq!(asked(&radio), vec![Transaction::ReadCmd(0xC0, 1)]);
}

#[test]
fn test_api_firmware_version() {
    let mut mock = Mock::<(), ()>::new();
    mock.answer(vec![0x00, 0x10]);
    let mut radio = Sx128x::build(mock);

    let version = radio.firmware_version().unwrap();

    assert_eq!(asked(&radio), vec![Transaction::ReadRegs(0x0153, 2)]);
    assert_eq!(version, 16);
}

#[test]
fn test_api_power_ramp() {
    let mut radio = Sx128x::<Mock<(), ()>, (), ()>::build(Mock::new());

    radio.set_power_ramp(13, RampTime::Ramp20Us).unwrap();

    assert_eq!(asked(&radio), vec![Transaction::WriteCmd(0x8E, vec![0x1f, 0xe0])]);
}

#[test]
fn status_byte_is_split_into_mode_and_command_status() {
    // standby (mode 2) with command status 1
    let mut mock = Mock::<(), ()>::new();
    mock.answer(vec![0x44]);
    let mut radio = Sx128x::build(mock);
    assert_eq!(radio.get_state(), Ok(State::StandbyRc));

    // transmit (mode 6) with command status 6
    let mut mock = Mock::<(), ()>::new();
    mock.answer(vec![0xD8]);
    let mut radio = Sx128x::build(mock);
    assert_eq!(radio.get_state(), Ok(State::Tx));
}
