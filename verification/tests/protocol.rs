use heli_link::protocol::{decode, encode, DecodeError, JoystickInput, ENCODED_LEN};

#[test]
fn new_and_get_pitch() {
    let cmd = JoystickInput::new(4711);
    assert_eq!(cmd.get_pitch(), 4711);
}

#[test]
fn encode_is_fixed_two_byte_little_endian() {
    assert_eq!(ENCODED_LEN, 2);
    assert_eq!(encode(&JoystickInput::new(0)), [0, 0]);
    assert_eq!(encode(&JoystickInput::new(513)), [1, 2]);
    assert_eq!(encode(&JoystickInput::new(65535)), [255, 255]);
}

#[test]
fn round_trip_zero() {
    let frame = encode(&JoystickInput::new(0));
    let (cmd, rest) = decode(&frame).unwrap();
    assert_eq!(cmd.get_pitch(), 0);
    assert!(rest.is_empty());
}

#[test]
fn round_trip_mid() {
    let frame = encode(&JoystickInput::new(32768));
    let (cmd, rest) = decode(&frame).unwrap();
    assert_eq!(cmd.get_pitch(), 32768);
    assert!(rest.is_empty());
}

#[test]
fn round_trip_max() {
    let frame = encode(&JoystickInput::new(65535));
    let (cmd, rest) = decode(&frame).unwrap();
    assert_eq!(cmd.get_pitch(), 65535);
    assert!(rest.is_empty());
}

#[test]
fn round_trip_every_low_byte_boundary() {
    for pitch in [1u16, 255, 256, 257, 65279, 65280] {
        let frame = encode(&JoystickInput::new(pitch));
        let (cmd, rest) = decode(&frame).unwrap();
        assert_eq!(cmd.get_pitch(), pitch);
        assert!(rest.is_empty());
    }
}

#[test]
fn decode_rejects_empty_input() {
    assert_eq!(decode(&[]), Err(DecodeError::TruncatedInput));
}

#[test]
fn decode_rejects_one_byte_input() {
    assert_eq!(decode(&[7]), Err(DecodeError::TruncatedInput));
}

#[test]
fn decode_returns_trailing_bytes() {
    let padded = [1u8, 2, 9, 8, 7];
    let (cmd, rest) = decode(&padded).unwrap();
    assert_eq!(cmd.get_pitch(), 513);
    assert_eq!(rest, [9, 8, 7].as_slice());
}
