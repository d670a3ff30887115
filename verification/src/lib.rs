//! Verified core of a two-node wireless remote-control link.
//!
//! A remote unit samples an operator input, packs it into a fixed-size
//! command record and transmits it over a packet radio; a vehicle unit
//! polls the radio, decodes the record and maps it to a bounded actuator
//! duty.  This crate holds the logic of that link — the wire protocol,
//! the command mappers, the radio configuration rules and the per-tick
//! loop decisions — with machine-checked contracts.  Peripheral bring-up
//! and the transceiver and sensor hardware stay outside, at the
//! interfaces this crate specifies.

pub mod control;
pub mod mapper;
pub mod protocol;
pub mod radio;

pub use protocol::JoystickInput;
