use ymmp::packet::{Error, Packet, MAX_MESSAGE_LENGTH, MIN_ENCODED_LENGTH, RECEIVE_BUFFER_LENGTH};
use ymmp::Header;

#[test]
fn packet_default() {
    let packet = Packet::default();
    let header_bytes = packet.header.to_octets_vec();
    let header_len = header_bytes.len();
    let bytes = packet.to_octets_vec();

    assert_eq!(header_len + 8, bytes.len());
    assert_eq!(&header_bytes, &bytes[..header_len])
}

#[test]
fn with_message() {
    let message = vec![b'f', b'o', b'o'];
    let packet = Packet::new(message.clone());
    let header_bytes = packet.header.to_octets_vec();
    let header_len = header_bytes.len();
    let bytes = packet.to_octets_vec();

    assert_eq!(header_len + 8 + message.len(), bytes.len());
    assert_eq!(&header_bytes, &bytes[..header_len]);
    assert_eq!(&message, &bytes[header_len + 8..]);
}

#[test]
fn try_from_header_only() {
    let octets = vec![
        b'Y', b'M', b'M', b'P', b'v', b'0', b'.', b'1', 0, 0, 0, 0, 0, 0, 0, 0,
    ];

    let packet = Packet::try_from(octets.as_slice()).expect("failed");

    assert_eq!(0, packet.message.len())
}

#[test]
fn round_trip_foo() {
    let packet = Packet::new(vec![b'f', b'o', b'o']);
    let bytes = packet.to_octets_vec();
    let decoded = Packet::try_from(bytes.as_slice()).expect("decode failed");

    assert_eq!(packet, decoded);
}

#[test]
fn round_trip_largest_supported_message() {
    let message = vec![0xABu8; MAX_MESSAGE_LENGTH];
    let packet = Packet::new(message);
    let bytes = packet.to_octets_vec();

    assert_eq!(RECEIVE_BUFFER_LENGTH, bytes.len());

    let decoded = Packet::try_from(bytes.as_slice()).expect("decode failed");
    assert_eq!(packet, decoded);
}

#[test]
fn encode_foo_exact_bytes() {
    let packet = Packet::new(vec![b'f', b'o', b'o']);
    let bytes = packet.to_octets_vec();

    assert_eq!(19, bytes.len());
    assert_eq!(&[0x03u8, 0, 0, 0, 0, 0, 0, 0], &bytes[8..16]);
    assert_eq!(&[0x66u8, 0x6F, 0x6F], &bytes[16..19]);
}

#[test]
fn encode_default_exact_bytes() {
    let bytes = Packet::default().to_octets_vec();

    assert_eq!(16, bytes.len());
    assert_eq!(&[0u8; 8], &bytes[8..16]);
}

#[test]
fn length_field_little_endian() {
    for n in [0usize, 1, 255, 65536] {
        let packet = Packet::new(vec![0u8; n]);
        let bytes = packet.to_octets_vec();

        assert_eq!(MIN_ENCODED_LENGTH + n, bytes.len());
        assert_eq!(&(n as u64).to_le_bytes(), &bytes[8..16]);
    }
}

#[test]
fn too_short_rejected() {
    for n in [0usize, 1, 8, 15] {
        let buffer = vec![0u8; n];
        let result = Packet::try_from(buffer.as_slice());

        assert_eq!(Err(Error::PacketTooShort), result.map(|_| ()));
    }
}

#[test]
fn arbitrary_header_accepted() {
    let mut buffer = vec![0xDEu8, 0xAD, 0xBE, 0xEF, 0x01, 0x02, 0x03, 0x04];
    buffer.extend_from_slice(&2u64.to_le_bytes());
    buffer.extend_from_slice(&[0x10, 0x20]);

    let packet = Packet::try_from(buffer.as_slice()).expect("decode failed");

    assert_eq!(&buffer[..8], packet.header.to_octets_vec().as_slice());
    assert_eq!(&[0x10u8, 0x20], packet.message());
    assert!(!packet.header.validate());
}

#[test]
fn length_mismatch_rejected() {
    for extra in [1usize, 2, 5] {
        // declares 5 octets, supplies 5 + extra
        let mut long = Header::default().to_octets_vec();
        long.extend_from_slice(&5u64.to_le_bytes());
        long.extend_from_slice(&vec![7u8; 5 + extra]);
        let result = Packet::try_from(long.as_slice());
        assert_eq!(Err(Error::LengthMismatch), result.map(|_| ()));

        // declares 5 octets, supplies 5 - extra
        let mut short = Header::default().to_octets_vec();
        short.extend_from_slice(&5u64.to_le_bytes());
        short.extend_from_slice(&vec![7u8; 5 - extra]);
        let result = Packet::try_from(short.as_slice());
        assert_eq!(Err(Error::LengthMismatch), result.map(|_| ()));
    }
}

#[test]
fn message_borrows_payload() {
    let packet = Packet::new(vec![1u8, 2, 3]);

    assert_eq!(&[1u8, 2, 3], packet.message());
}

#[test]
fn packet_equality_by_contents() {
    let a = Packet::new(vec![1u8, 2]);
    let b = Packet::new(vec![1u8, 2]);
    let c = Packet::new(vec![1u8, 3]);
    let d = Packet::from_raw_parts(&[0u8; 8], &[1u8, 2]);

    assert_eq!(a, b);
    assert_ne!(a, c);
    assert_ne!(a, d);
}
