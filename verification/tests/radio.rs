use heli_link::radio::{
    remote_radio_config, validate, vehicle_radio_config, CrcMode, RadioConfigError, RadioRole,
};

#[test]
fn vehicle_config_is_valid() {
    let c = vehicle_radio_config();
    assert_eq!(validate(&c), Ok(()));
    assert_eq!(c.role, RadioRole::Receiver);
    assert_eq!(c.frequency_channel, 8);
    assert_eq!(c.data_rate_kbps, 2000);
    assert_eq!(c.crc, CrcMode::OneByte);
    assert_eq!(c.address, b"heli".to_vec());
    assert_eq!(c.auto_ack, [true; 6]);
    assert_eq!(c.pipes_rx_enable, [true, false, false, false, false, false]);
    assert_eq!(c.pipes_rx_lengths, [None; 6]);
}

#[test]
fn remote_config_is_valid() {
    let c = remote_radio_config();
    assert_eq!(validate(&c), Ok(()));
    assert_eq!(c.role, RadioRole::Transmitter);
    assert_eq!(c.frequency_channel, 8);
    assert_eq!(c.data_rate_kbps, 250);
    assert_eq!(c.power_level, 0);
    assert_eq!(c.crc, CrcMode::Disabled);
    assert_eq!(c.address, b"fnord".to_vec());
    assert_eq!(c.auto_ack, [false; 6]);
}

#[test]
fn unsupported_data_rate_is_rejected() {
    let mut c = vehicle_radio_config();
    c.data_rate_kbps = 500;
    assert_eq!(validate(&c), Err(RadioConfigError::UnsupportedDataRate));
}

#[test]
fn out_of_range_channel_is_rejected() {
    let mut c = vehicle_radio_config();
    c.frequency_channel = 126;
    assert_eq!(validate(&c), Err(RadioConfigError::InvalidChannel));
}

#[test]
fn out_of_range_power_level_is_rejected() {
    let mut c = remote_radio_config();
    c.power_level = 4;
    assert_eq!(validate(&c), Err(RadioConfigError::InvalidPowerLevel));
}

#[test]
fn short_address_is_rejected() {
    let mut c = vehicle_radio_config();
    c.address = b"hi".to_vec();
    assert_eq!(validate(&c), Err(RadioConfigError::InvalidAddressLength));
}

#[test]
fn long_address_is_rejected() {
    let mut c = vehicle_radio_config();
    c.address = b"toolong".to_vec();
    assert_eq!(validate(&c), Err(RadioConfigError::InvalidAddressLength));
}

#[test]
fn out_of_range_retransmit_policy_is_rejected() {
    let mut c = remote_radio_config();
    c.retransmit_count = 16;
    assert_eq!(validate(&c), Err(RadioConfigError::InvalidRetransmitPolicy));
}

#[test]
fn out_of_range_pipe_length_is_rejected() {
    let mut c = vehicle_radio_config();
    c.pipes_rx_lengths[3] = Some(33);
    assert_eq!(validate(&c), Err(RadioConfigError::InvalidPayloadLength));
    c.pipes_rx_lengths[3] = Some(0);
    assert_eq!(validate(&c), Err(RadioConfigError::InvalidPayloadLength));
    c.pipes_rx_lengths[3] = Some(32);
    assert_eq!(validate(&c), Ok(()));
}

#[test]
fn first_rejected_parameter_is_reported() {
    let mut c = vehicle_radio_config();
    c.data_rate_kbps = 123;
    c.frequency_channel = 200;
    assert_eq!(validate(&c), Err(RadioConfigError::UnsupportedDataRate));
}
