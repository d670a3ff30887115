//! Radio configuration rules of the packet-radio link.
//!
//! A configuration is a set of immutable parameters applied once at
//! startup: channel, air data rate, CRC mode, address, auto-retransmit
//! and auto-acknowledge policy, and the per-pipe payload-length policy.
//! Validation is the startup gate: a unit whose configuration is rejected
//! (an unsupported data rate, an out-of-range channel) must not proceed
//! past initialization, since it cannot operate without a configured
//! radio.  The two concrete configurations of this link — the vehicle's
//! receiver and the remote's transmitter — are constructed here and
//! proved valid.

use vstd::prelude::*;

verus! {

/// Number of logical receive pipes the packet radio offers.
pub const PIPE_COUNT: usize = 6;

/// Largest radio-frequency channel index the transceiver accepts.
pub const MAX_CHANNEL: u8 = 125;

/// Largest fixed per-pipe payload length, in bytes.
pub const MAX_PAYLOAD_LEN: u8 = 32;

/// CRC mode of the radio frames.
#[derive(Clone, Copy, Debug, PartialEq, Eq, Structural)]
pub enum CrcMode {
    Disabled,
    OneByte,
    TwoBytes,
}

/// The fixed role a radio instance keeps for its operating lifetime:
/// each unit is either a transmitter or a receiver, never both.
#[derive(Clone, Copy, Debug, PartialEq, Eq, Structural)]
pub enum RadioRole {
    Transmitter,
    Receiver,
}

/// Why a radio configuration was rejected at startup.
#[derive(Clone, Copy, Debug, PartialEq, Eq, Structural)]
pub enum RadioConfigError {
    UnsupportedDataRate,
    InvalidChannel,
    InvalidPowerLevel,
    InvalidAddressLength,
    InvalidRetransmitPolicy,
    InvalidPayloadLength,
}

/// Immutable radio parameters, applied once at startup and never mutated
/// during the control loop.
pub struct RadioConfig {
    /// Fixed transmit or receive role of this instance.
    pub role: RadioRole,
    /// Radio-frequency channel index, `0 ..= MAX_CHANNEL`.
    pub frequency_channel: u8,
    /// Requested air data rate in kilobits per second; only the rates the
    /// transceiver supports pass validation.
    pub data_rate_kbps: u32,
    /// Output power level, `0 ..= 3`.
    pub power_level: u8,
    /// CRC mode of the frames.
    pub crc: CrcMode,
    /// Transmit address, or the receive address of the expected pipe;
    /// 3 to 5 bytes.
    pub address: Vec<u8>,
    /// Auto-retransmit delay step, `0 ..= 15`.
    pub retransmit_delay: u8,
    /// Auto-retransmit count, `0 ..= 15`.
    pub retransmit_count: u8,
    /// Auto-acknowledge policy, one flag per pipe.
    pub auto_ack: [bool; 6],
    /// Which receive pipes are enabled.
    pub pipes_rx_enable: [bool; 6],
    /// Per-pipe payload-length policy: a fixed length of
    /// `1 ..= MAX_PAYLOAD_LEN` bytes, or `None` for dynamic length.
    pub pipes_rx_lengths: [Option<u8>; 6],
}

/// Which air data rates the transceiver supports.
pub open spec fn data_rate_supported(kbps: u32) -> bool {
    kbps == 250 || kbps == 1000 || kbps == 2000
}

/// A per-pipe payload-length policy is valid when every fixed length is
/// between one byte and the radio's frame capacity.
pub open spec fn pipe_lengths_valid(lengths: Seq<Option<u8>>) -> bool {
    forall|i: int|
        0 <= i < lengths.len() ==> (#[trigger] lengths[i] matches Some(n) ==> 1 <= n <= MAX_PAYLOAD_LEN)
}

/// A configuration the radio accepts: every parameter in range.
pub open spec fn config_valid(c: RadioConfig) -> bool {
    &&& data_rate_supported(c.data_rate_kbps)
    &&& c.frequency_channel <= MAX_CHANNEL
    &&& c.power_level <= 3
    &&& 3 <= c.address@.len() <= 5
    &&& c.retransmit_delay <= 15
    &&& c.retransmit_count <= 15
    &&& pipe_lengths_valid(c.pipes_rx_lengths@)
}

/// What validation returns: `Ok` exactly on a valid configuration, and
/// otherwise the first rejected parameter, checked in a fixed order.
pub open spec fn spec_validate(c: RadioConfig) -> Result<(), RadioConfigError> {
    if !data_rate_supported(c.data_rate_kbps) {
        Err(RadioConfigError::UnsupportedDataRate)
    } else if !(c.frequency_channel <= MAX_CHANNEL) {
        Err(RadioConfigError::InvalidChannel)
    } else if !(c.power_level <= 3) {
        Err(RadioConfigError::InvalidPowerLevel)
    } else if !(3 <= c.address@.len() && c.address@.len() <= 5) {
        Err(RadioConfigError::InvalidAddressLength)
    } else if !(c.retransmit_delay <= 15 && c.retransmit_count <= 15) {
        Err(RadioConfigError::InvalidRetransmitPolicy)
    } else if !pipe_lengths_valid(c.pipes_rx_lengths@) {
        Err(RadioConfigError::InvalidPayloadLength)
    } else {
        Ok(())
    }
}

/// Checks every parameter of a configuration, returning `Ok` exactly when
/// the radio accepts all of them and otherwise the first rejected one.
/// A unit must not proceed past initialization on an `Err`.
pub fn validate(c: &RadioConfig) -> (r: Result<(), RadioConfigError>)
    ensures
        r == spec_validate(*c),
        r is Ok <==> config_valid(*c),
{
    if !(c.data_rate_kbps == 250 || c.data_rate_kbps == 1000 || c.data_rate_kbps == 2000) {
        return Err(RadioConfigError::UnsupportedDataRate);
    }
    if c.frequency_channel > MAX_CHANNEL {
        return Err(RadioConfigError::InvalidChannel);
    }
    if c.power_level > 3 {
        return Err(RadioConfigError::InvalidPowerLevel);
    }
    if c.address.len() < 3 || c.address.len() > 5 {
        return Err(RadioConfigError::InvalidAddressLength);
    }
    if c.retransmit_delay > 15 || c.retransmit_count > 15 {
        return Err(RadioConfigError::InvalidRetransmitPolicy);
    }
    let mut i: usize = 0;
    while i < PIPE_COUNT
        invariant
            i <= PIPE_COUNT,
            PIPE_COUNT == c.pipes_rx_lengths@.len(),
            data_rate_supported(c.data_rate_kbps),
            c.frequency_channel <= MAX_CHANNEL,
            c.power_level <= 3,
            3 <= c.address@.len() <= 5,
            c.retransmit_delay <= 15,
            c.retransmit_count <= 15,
            forall|j: int|
                0 <= j < i ==> (#[trigger] c.pipes_rx_lengths@[j] matches Some(n) ==> 1 <= n <= MAX_PAYLOAD_LEN),
        decreases PIPE_COUNT - i,
    {
        match c.pipes_rx_lengths[i] {
            Some(n) => {
                if n < 1 || n > MAX_PAYLOAD_LEN {
                    proof {
                        assert(!(c.pipes_rx_lengths@[i as int] matches Some(m)
                            ==> 1 <= m <= MAX_PAYLOAD_LEN));
                    }
                    return Err(RadioConfigError::InvalidPayloadLength);
                }
            },
            None => {},
        }
        i = i + 1;
    }
    Ok(())
}

/// The vehicle unit's configuration: a receiver on channel 8 at
/// 2 Mbps with one-byte CRC, listening for the remote's address on
/// pipe 0 with dynamic payload lengths, acknowledging on every pipe,
/// and with auto-retransmit off.
pub fn vehicle_radio_config() -> (c: RadioConfig)
    ensures
        c.role == RadioRole::Receiver,
        c.frequency_channel == 8,
        c.data_rate_kbps == 2000,
        c.power_level == 3,
        c.crc == CrcMode::OneByte,
        c.address@ == seq![104u8, 101u8, 108u8, 105u8],
        c.retransmit_delay == 0,
        c.retransmit_count == 0,
        forall|i: int| 0 <= i < 6 ==> c.auto_ack@[i] == true,
        c.pipes_rx_enable@[0] == true,
        forall|i: int| 1 <= i < 6 ==> c.pipes_rx_enable@[i] == false,
        forall|i: int| 0 <= i < 6 ==> c.pipes_rx_lengths@[i] is None,
        config_valid(c),
{
    let mut address: Vec<u8> = Vec::new();
    address.push(104);
    address.push(101);
    address.push(108);
    address.push(105);
    proof {
        assert(address@ =~= seq![104u8, 101u8, 108u8, 105u8]);
    }
    RadioConfig {
        role: RadioRole::Receiver,
        frequency_channel: 8,
        data_rate_kbps: 2000,
        power_level: 3,
        crc: CrcMode::OneByte,
        address,
        retransmit_delay: 0,
        retransmit_count: 0,
        auto_ack: [true, true, true, true, true, true],
        pipes_rx_enable: [true, false, false, false, false, false],
        pipes_rx_lengths: [None, None, None, None, None, None],
    }
}

/// The remote unit's configuration: a transmitter on channel 8 at
/// 250 kbps with CRC disabled, sending to the vehicle's address with
/// dynamic payload lengths, no acknowledgements and auto-retransmit off.
pub fn remote_radio_config() -> (c: RadioConfig)
    ensures
        c.role == RadioRole::Transmitter,
        c.frequency_channel == 8,
        c.data_rate_kbps == 250,
        c.power_level == 0,
        c.crc == CrcMode::Disabled,
        c.address@ == seq![102u8, 110u8, 111u8, 114u8, 100u8],
        c.retransmit_delay == 0,
        c.retransmit_count == 0,
        forall|i: int| 0 <= i < 6 ==> c.auto_ack@[i] == false,
        c.pipes_rx_enable@[0] == true,
        forall|i: int| 1 <= i < 6 ==> c.pipes_rx_enable@[i] == false,
        forall|i: int| 0 <= i < 6 ==> c.pipes_rx_lengths@[i] is None,
        config_valid(c),
{
    let mut address: Vec<u8> = Vec::new();
    address.push(102);
    address.push(110);
    address.push(111);
    address.push(114);
    address.push(100);
    proof {
        assert(address@ =~= seq![102u8, 110u8, 111u8, 114u8, 100u8]);
    }
    RadioConfig {
        role: RadioRole::Transmitter,
        frequency_channel: 8,
        data_rate_kbps: 250,
        power_level: 0,
        crc: CrcMode::Disabled,
        address,
        retransmit_delay: 0,
        retransmit_count: 0,
        auto_ack: [false, false, false, false, false, false],
        pipes_rx_enable: [true, false, false, false, false, false],
        pipes_rx_lengths: [None, None, None, None, None, None],
    }
}

} // verus!
