use tftp::bytes::{FromBytes, IntoBytes};
use tftp::failure::ErrorKind;
use tftp::packet::Mode;

#[test]
fn mode_test_mode_conversions() {
    assert_eq!(Mode::from_str("mail").unwrap(), Mode::Mail);
    assert_eq!(Mode::from_str("netascii").unwrap(), Mode::NetAscii);
    assert_eq!(Mode::from_str("octet").unwrap(), Mode::Octet);
    assert_eq!(Mode::from_bytes(b"mail\0").unwrap(), Mode::Mail);
    assert_eq!(Mode::from_bytes(b"netascii\0").unwrap(), Mode::NetAscii);
    assert_eq!(Mode::from_bytes(b"octet\0").unwrap(), Mode::Octet);
    assert_eq!(Mode::from_str("NeTasCiI").unwrap(), Mode::NetAscii);
}

#[test]
fn mode_names_in_any_case() {
    assert_eq!("mail", &Mode::Mail.into_string());
    assert_eq!("netascii", &Mode::NetAscii.into_string());
    assert_eq!("octet", &Mode::Octet.into_string());
    assert_eq!(Mode::Mail, Mode::from_str("MaIL").unwrap());
    assert_eq!(Mode::NetAscii, Mode::from_str("NETASCII").unwrap());
    assert_eq!(Mode::Octet, Mode::from_str("OCtet").unwrap());
    assert_eq!(Mode::from_str("PotAtOO").err(), Some(ErrorKind::InvalidInput));
}

#[test]
fn mode_decoding_ignores_case() {
    assert_eq!(Mode::from_bytes(b"NetAscii\0").unwrap(), Mode::NetAscii);
    assert_eq!(Mode::from_bytes(b"OCTET\0").unwrap(), Mode::Octet);
    assert_eq!(Mode::from_bytes(b"mAIl\0").unwrap(), Mode::Mail);
}

#[test]
fn mode_bytes() {
    assert_eq!(Mode::Mail.into_bytes(), b"mail\0");
    assert_eq!(Mode::NetAscii.into_bytes(), b"netascii\0");
    assert_eq!(Mode::Octet.into_bytes(), b"octet\0");
    for mode in [Mode::Mail, Mode::NetAscii, Mode::Octet] {
        assert_eq!(Mode::from_bytes(&mode.into_bytes()).unwrap(), mode);
    }
}

#[test]
fn mode_rejects_what_is_no_mode() {
    assert_eq!(Mode::from_bytes(b"octet").err(), Some(ErrorKind::InvalidInput));
    assert_eq!(Mode::from_bytes(b"").err(), Some(ErrorKind::InvalidInput));
    assert_eq!(Mode::from_bytes(b"\0").err(), Some(ErrorKind::InvalidInput));
    assert_eq!(Mode::from_bytes(b"octet\0\0").err(), Some(ErrorKind::InvalidInput));
    assert_eq!(Mode::from_bytes(b"oct\0et\0").err(), Some(ErrorKind::InvalidInput));
    assert_eq!(Mode::from_bytes(b"octets\0").err(), Some(ErrorKind::InvalidInput));
    assert_eq!(Mode::from_bytes(b"octe\0").err(), Some(ErrorKind::InvalidInput));
    assert_eq!(Mode::from_bytes(b"binary\0").err(), Some(ErrorKind::InvalidInput));
    assert_eq!(Mode::from_bytes(&[0xff, 0]).err(), Some(ErrorKind::InvalidInput));
    // '@' and '[' stand next to the capital letters and are none.
    assert_eq!(Mode::from_bytes(b"m@il\0").err(), Some(ErrorKind::InvalidInput));
    assert_eq!(Mode::from_str("").err(), Some(ErrorKind::InvalidInput));
    assert_eq!(Mode::from_str("mail ").err(), Some(ErrorKind::InvalidInput));
}
