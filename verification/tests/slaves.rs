use std::str::FromStr;

use tokio_modbus::device::DeviceId;
use tokio_modbus::slave::ParseSlaveError;
use tokio_modbus::Slave;

#[test]
fn parse_dec() {
    assert_eq!(Slave(0), Slave::from_str("0").unwrap());
    assert_eq!(Slave(123), Slave::from_str("123").unwrap());
    assert_eq!(Slave(255), Slave::from_str("255").unwrap());
    assert!(Slave::from_str("-1").is_err());
    assert!(Slave::from_str("256").is_err());
}

#[test]
fn parse_hex() {
    assert_eq!(Slave(0), Slave::from_str("0x00").unwrap());
    assert_eq!(Slave(123), Slave::from_str("0x7b").unwrap());
    assert_eq!(Slave(123), Slave::from_str("0x7B").unwrap());
    assert_eq!(Slave(255), Slave::from_str("0xff").unwrap());
    assert_eq!(Slave(255), Slave::from_str("0xFF").unwrap());
    assert!(Slave::from_str("0X00").is_err());
    assert!(Slave::from_str("0x100").is_err());
    assert!(Slave::from_str("0xfff").is_err());
    assert!(Slave::from_str("0xFFF").is_err());
}

#[test]
fn format() {
    assert!(Slave(123).to_string().contains("123"));
    assert!(Slave(0x7B).to_string().contains("0x7B"));
    assert!(!Slave(0x7B).to_string().contains("0x7b"));
}

// Further cases of the slave and device contracts.

#[test]
fn slave_text_is_exact() {
    assert_eq!(Slave(0).to_string(), "0 (0x00)");
    assert_eq!(Slave(10).to_string(), "10 (0x0A)");
    assert_eq!(Slave(255).to_string(), "255 (0xFF)");
}

#[test]
fn parse_errors() {
    assert_eq!(Slave::parse_str(""), Err(ParseSlaveError::Empty));
    assert_eq!(Slave::parse_str("+"), Err(ParseSlaveError::InvalidDigit));
    assert_eq!(Slave::parse_str("+12"), Ok(Slave(12)));
    assert_eq!(Slave::parse_str("300"), Err(ParseSlaveError::PosOverflow));
    assert_eq!(Slave::parse_str("0x"), Err(ParseSlaveError::Empty));
    assert_eq!(Slave::parse_str("12a"), Err(ParseSlaveError::InvalidDigit));
}

#[test]
fn parse_of_text_gives_the_slave_back() {
    for id in 0..=255u8 {
        let text = Slave(id).to_string();
        let decimal = text.split(' ').next().unwrap();
        assert_eq!(Slave::parse_str(decimal), Ok(Slave(id)));
    }
}

#[test]
fn slave_classes() {
    assert!(Slave::broadcast().is_broadcast());
    assert!(Slave::min_device().is_single_device());
    assert!(Slave::max_device().is_single_device());
    assert!(Slave(248).is_reserved());
    assert!(Slave::tcp_device().is_reserved());
    assert!(!Slave(247).is_reserved());
    assert_eq!(Slave::tcp_device(), Slave(255));
}

#[test]
fn device_classes() {
    assert!(DeviceId::broadcast().is_broadcast());
    assert!(DeviceId::min_slave().is_slave());
    assert!(DeviceId::max_slave().is_slave());
    assert!(!DeviceId(0).is_slave());
    assert!(DeviceId(248).is_reserved());
    assert!(!DeviceId(247).is_reserved());
}

#[test]
fn device_id_text() {
    assert_eq!(DeviceId(0x7B).to_string(), "0x7B");
    assert_eq!(DeviceId(5).to_string(), "0x05");
    assert_eq!(u8::from(DeviceId::from(9u8)), 9);
}
