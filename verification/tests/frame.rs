use zstack::znp::command::Subsystem;
use zstack::znp::command::Type;
use zstack::znp::Command;
use zstack::znp::Frame;
use zstack::znp::SRSPErrorCode;
use zstack::znp::MAX_LENGTH;
use zstack::Address;
use zstack::Error;

fn header() -> Command {
    Command::new(Type::SREQ, Subsystem::SYSInterface, 0x02)
}

#[test]
fn a_frame_carries_the_first_bytes_of_its_buffer() {
    let frame: Frame<4> = Frame::new(3, header(), [1, 2, 3, 4]).unwrap();
    assert_eq!(frame.length(), 3);
    assert_eq!(frame.command(), header());
    assert_eq!(frame.payload(), &[1u8, 2, 3][..]);
}

#[test]
fn a_frame_may_be_empty() {
    let frame: Frame<4> = Frame::new(0, header(), [9, 9, 9, 9]).unwrap();
    assert_eq!(frame.length(), 0);
    assert!(frame.payload().is_empty());
    let none: Frame<0> = Frame::new(0, header(), []).unwrap();
    assert_eq!(none.length(), 0);
    assert!(none.payload().is_empty());
}

#[test]
fn a_frame_may_fill_its_buffer() {
    let frame: Frame<4> = Frame::new(4, header(), [1, 2, 3, 4]).unwrap();
    assert_eq!(frame.length(), 4);
    assert_eq!(frame.payload(), &[1u8, 2, 3, 4][..]);
}

#[test]
fn a_frame_carries_at_most_250_bytes() {
    assert_eq!(MAX_LENGTH, 250);
    let frame: Frame<250> = Frame::new(250, header(), [7; 250]).unwrap();
    assert_eq!(frame.length(), 250);
    assert_eq!(frame.payload().len(), 250);
    let roomy: Frame<300> = Frame::new(250, header(), [7; 300]).unwrap();
    assert_eq!(roomy.payload().len(), 250);
}

#[test]
fn a_length_of_251_is_refused_whatever_the_capacity() {
    assert_eq!(Frame::<0>::new(251, header(), []).err(), Some(Error::OutOfRangeConstruction));
    assert_eq!(Frame::<250>::new(251, header(), [0; 250]).err(), Some(Error::OutOfRangeConstruction));
    assert_eq!(Frame::<251>::new(251, header(), [0; 251]).err(), Some(Error::OutOfRangeConstruction));
    assert_eq!(Frame::<300>::new(251, header(), [0; 300]).err(), Some(Error::OutOfRangeConstruction));
    assert_eq!(Frame::<300>::new(255, header(), [0; 300]).err(), Some(Error::OutOfRangeConstruction));
}

#[test]
fn a_length_above_the_capacity_is_refused() {
    assert_eq!(Frame::<4>::new(5, header(), [0; 4]).err(), Some(Error::OutOfRangeConstruction));
    assert_eq!(Frame::<0>::new(1, header(), []).err(), Some(Error::OutOfRangeConstruction));
    assert_eq!(Frame::<249>::new(250, header(), [0; 249]).err(), Some(Error::OutOfRangeConstruction));
}

#[test]
fn response_codes_stand_for_the_bytes_0_to_4() {
    assert_eq!(SRSPErrorCode::from_raw(0), Ok(SRSPErrorCode::Success));
    assert_eq!(SRSPErrorCode::from_raw(1), Ok(SRSPErrorCode::InvalidSubsystem));
    assert_eq!(SRSPErrorCode::from_raw(2), Ok(SRSPErrorCode::InvalidCommandID));
    assert_eq!(SRSPErrorCode::from_raw(3), Ok(SRSPErrorCode::InvalidParameter));
    assert_eq!(SRSPErrorCode::from_raw(4), Ok(SRSPErrorCode::InvalidLength));
    assert_eq!(SRSPErrorCode::Success.inner_raw(), 0);
    assert_eq!(SRSPErrorCode::InvalidSubsystem.inner_raw(), 1);
    assert_eq!(SRSPErrorCode::InvalidCommandID.inner_raw(), 2);
    assert_eq!(SRSPErrorCode::InvalidParameter.inner_raw(), 3);
    assert_eq!(SRSPErrorCode::InvalidLength.inner_raw(), 4);
}

#[test]
fn any_other_byte_is_no_response_code() {
    assert_eq!(SRSPErrorCode::from_raw(5), Err(Error::ProtocolDecode));
    assert_eq!(SRSPErrorCode::from_raw(6), Err(Error::ProtocolDecode));
    assert_eq!(SRSPErrorCode::from_raw(255), Err(Error::ProtocolDecode));
}

#[test]
fn response_codes_round_trip_through_their_byte() {
    let mut n: u8 = 0;
    while n < 5 {
        assert_eq!(SRSPErrorCode::from_raw(n).unwrap().inner_raw(), n);
        n += 1;
    }
}

#[test]
fn an_address_is_short_or_long() {
    let short: Address = Address::Bit16(0xFFFE);
    let long: Address = Address::Bit64(0x0012_4B00_1234_5678);
    assert_eq!(short, Address::Bit16(0xFFFE));
    assert_eq!(long, Address::Bit64(0x0012_4B00_1234_5678));
    assert_ne!(short, Address::Bit64(0xFFFE));
}
