//! Wire protocol of the control link.
//!
//! A command record carries one unsigned 16-bit pitch magnitude.  Its
//! encoded form is a fixed two-byte little-endian layout, so a fixed-size
//! radio frame can hold it without allocation.  Decoding rejects inputs
//! shorter than the encoded length and hands back the unconsumed trailing
//! bytes, so a frame padded beyond the record is tolerated.

use vstd::prelude::*;
use vstd::slice::{slice_index_get, slice_subrange};

verus! {

/// Number of bytes of one encoded command record, independent of its value.
pub const ENCODED_LEN: usize = 2;

/// Error returned by [`decode`] when the input holds fewer bytes than one
/// encoded command record.
#[derive(Clone, Copy, Debug, PartialEq, Eq, Structural)]
pub enum DecodeError {
    TruncatedInput,
}

/// The single unit of control data sent from the remote to the vehicle:
/// one unsigned 16-bit pitch magnitude.
#[derive(Clone, Copy, Debug, PartialEq, Eq, Structural)]
pub struct JoystickInput {
    pitch: u16,
}

impl JoystickInput {
    /// The pitch magnitude this record carries.
    pub closed spec fn pitch(self) -> u16 {
        self.pitch
    }

    pub fn new(pitch: u16) -> (r: JoystickInput)
        ensures
            r.pitch() == pitch,
    {
        JoystickInput { pitch }
    }

    pub fn get_pitch(&self) -> (r: u16)
        ensures
            r == self.pitch(),
    {
        self.pitch
    }
}

/// The encoded form of a pitch value: low byte first, high byte second.
pub open spec fn spec_encode(pitch: u16) -> Seq<u8> {
    seq![(pitch % 256) as u8, (pitch / 256) as u8]
}

/// What decoding a byte sequence yields: the carried pitch and the
/// unconsumed trailing bytes, or `TruncatedInput` exactly when the input
/// is shorter than one encoded record.
pub open spec fn spec_decode(bytes: Seq<u8>) -> Result<(u16, Seq<u8>), DecodeError> {
    if bytes.len() < ENCODED_LEN {
        Err(DecodeError::TruncatedInput)
    } else {
        Ok(((bytes[0] + 256 * bytes[1]) as u16, bytes.subrange(ENCODED_LEN as int, bytes.len() as int)))
    }
}

/// Encodes a command record into its fixed two-byte form.
pub fn encode(cmd: &JoystickInput) -> (r: [u8; 2])
    ensures
        r@ == spec_encode(cmd.pitch()),
{
    let r = [(cmd.pitch % 256) as u8, (cmd.pitch / 256) as u8];
    proof {
        assert(r@ =~= spec_encode(cmd.pitch()));
    }
    r
}

/// Decodes a command record from the front of `bytes`, returning the
/// record and the unconsumed trailing bytes.  Inputs shorter than one
/// encoded record are rejected with `TruncatedInput`; no input panics.
pub fn decode<'a>(bytes: &'a [u8]) -> (r: Result<(JoystickInput, &'a [u8]), DecodeError>)
    ensures
        match r {
            Ok((cmd, rest)) => {
                &&& spec_decode(bytes@) matches Ok(d)
                &&& cmd.pitch() == d.0
                &&& rest@ == d.1
            },
            Err(e) => spec_decode(bytes@) == Err::<(u16, Seq<u8>), DecodeError>(e),
        },
{
    if bytes.len() < ENCODED_LEN {
        Err(DecodeError::TruncatedInput)
    } else {
        let lo = *slice_index_get(bytes, 0);
        let hi = *slice_index_get(bytes, 1);
        let pitch: u16 = lo as u16 + 256 * hi as u16;
        let rest = slice_subrange(bytes, ENCODED_LEN, bytes.len());
        Ok((JoystickInput::new(pitch), rest))
    }
}

/// Round-trip law: decoding an encoded record yields the same pitch and
/// leaves no trailing bytes.
pub proof fn lemma_round_trip(pitch: u16)
    ensures
        spec_decode(spec_encode(pitch)) == Ok::<(u16, Seq<u8>), DecodeError>((pitch, Seq::<u8>::empty())),
{
    let enc = spec_encode(pitch);
    assert(enc[0] + 256 * enc[1] == pitch);
    assert(enc.subrange(ENCODED_LEN as int, enc.len() as int) =~= Seq::<u8>::empty());
}

} // verus!
