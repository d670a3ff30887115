//! Per-iteration decisions of the two control loops.
//!
//! The remote loop runs at a fixed cadence: each tick samples the
//! operator input, packs it into a command record and pads it to the
//! fixed radio frame; a failed transmit is dropped, since the next tick's
//! fresh sample supersedes it.  The vehicle loop busy-polls: each
//! iteration either finds a frame and decodes and maps it, or finds
//! nothing and moves on — no iteration blocks, so a silent radio or
//! sensor can never stall the loop.  The functions here are those
//! decisions, from plain values to plain values; the caller performs the
//! radio, sensor and actuator work around them.

use vstd::prelude::*;
use crate::mapper::{angle_to_duty, raw_to_duty, spec_angle_to_duty, spec_raw_to_duty, PI_URAD};
use crate::protocol::{encode, spec_decode, spec_encode, JoystickInput, ENCODED_LEN};

verus! {

/// Size in bytes of one radio frame: large enough for an encoded command
/// record, padded with zeros past it.
pub const FRAME_LEN: usize = 32;

/// Bytes the attitude sensor buffers for one fused sample; a sample is
/// read only once this many are available, so the read never blocks.
pub const FIFO_FRAME_LEN: usize = 28;

/// One attitude reading, already converted to fixed-point microradians:
/// two angular axes, each in `(-pi, pi]`.
#[derive(Clone, Copy, Debug, PartialEq, Eq, Structural)]
pub struct OrientationSample {
    /// Roll-equivalent axis, microradians.
    pub phi_urad: i32,
    /// Yaw-equivalent axis, microradians.
    pub psi_urad: i32,
}

impl OrientationSample {
    /// Both axes lie in the half-open angular range `(-pi, pi]`.
    pub open spec fn wf(self) -> bool {
        &&& -PI_URAD < self.phi_urad <= PI_URAD
        &&& -PI_URAD < self.psi_urad <= PI_URAD
    }
}

/// One remote-side tick: builds the fixed-size radio frame for a freshly
/// sampled pitch value — the encoded command record first, zero padding
/// after it.
pub fn remote_tick(pitch_sample: u16) -> (frame: Vec<u8>)
    ensures
        frame@.len() == FRAME_LEN,
        frame@.subrange(0, ENCODED_LEN as int) == spec_encode(pitch_sample),
        forall|i: int| ENCODED_LEN <= i < FRAME_LEN ==> frame@[i] == 0,
{
    let cmd = JoystickInput::new(pitch_sample);
    let enc = encode(&cmd);
    let mut frame: Vec<u8> = Vec::new();
    frame.push(enc[0]);
    frame.push(enc[1]);
    while frame.len() < FRAME_LEN
        invariant
            ENCODED_LEN <= frame@.len() <= FRAME_LEN,
            frame@.subrange(0, ENCODED_LEN as int) =~= spec_encode(pitch_sample),
            forall|i: int| ENCODED_LEN <= i < frame@.len() ==> frame@[i] == 0,
        decreases FRAME_LEN - frame@.len(),
    {
        frame.push(0);
    }
    frame
}

/// The one receive pipe the vehicle listens on.
pub const EXPECTED_PIPE: u8 = 0;

/// Whether a receive poll signals a readable frame: data must be waiting,
/// and it must be on the pipe the vehicle listens on.  Data on any other
/// pipe is left alone, like no data at all.
pub fn frame_on_expected_pipe(poll: Option<u8>) -> (r: bool)
    ensures
        r <==> poll == Some(EXPECTED_PIPE),
{
    match poll {
        Some(pipe) => pipe == EXPECTED_PIPE,
        None => false,
    }
}

/// What one vehicle iteration decides, given what the radio poll
/// returned: no frame or an undecodable frame yields no new duty, a
/// decodable frame yields its pitch mapped onto `[0, max_duty]`.
pub open spec fn spec_vehicle_step(poll: Option<Seq<u8>>, max_duty: u16) -> Option<int> {
    match poll {
        None => None,
        Some(bytes) => match spec_decode(bytes) {
            Ok(d) => Some(spec_raw_to_duty(d.0, max_duty)),
            Err(_) => None,
        },
    }
}

/// One vehicle-side iteration of the radio-driven path: decodes the
/// polled frame, if any, and maps its pitch to an actuator duty.  A poll
/// without data and a frame that fails to decode are both dropped without
/// blocking or failing; the duty, when produced, never exceeds
/// `max_duty`.
pub fn vehicle_step(poll: Option<&[u8]>, max_duty: u16) -> (duty: Option<u16>)
    ensures
        match poll {
            None => duty is None,
            Some(bytes) => match duty {
                Some(d) => spec_vehicle_step(Some(bytes@), max_duty) == Some(d as int) && d <= max_duty,
                None => spec_vehicle_step(Some(bytes@), max_duty) is None,
            },
        },
{
    match poll {
        None => None,
        Some(bytes) => match crate::protocol::decode(bytes) {
            Ok((cmd, _rest)) => Some(raw_to_duty(cmd.get_pitch(), max_duty)),
            Err(_) => None,
        },
    }
}

/// Relates one recorded radio poll to the duty the vehicle loop produced
/// for it.
pub open spec fn step_result_matches(poll: Option<Vec<u8>>, duty: Option<u16>, max_duty: u16) -> bool {
    match poll {
        None => duty is None,
        Some(bytes) => match duty {
            Some(d) => spec_vehicle_step(Some(bytes@), max_duty) == Some(d as int),
            None => spec_vehicle_step(Some(bytes@), max_duty) is None,
        },
    }
}

/// Runs the vehicle decision over a whole recorded sequence of radio
/// polls.  Resilience law: whatever the polls hold — gaps, undecodable
/// frames — every iteration terminates with a decision, and every
/// decodable frame is processed correctly, in order.
pub fn run_vehicle(polls: &Vec<Option<Vec<u8>>>, max_duty: u16) -> (duties: Vec<Option<u16>>)
    ensures
        duties@.len() == polls@.len(),
        forall|i: int| 0 <= i < polls@.len()
            ==> #[trigger] step_result_matches(polls@[i], duties@[i], max_duty),
{
    let mut duties: Vec<Option<u16>> = Vec::new();
    let mut i: usize = 0;
    while i < polls.len()
        invariant
            i <= polls@.len(),
            duties@.len() == i,
            forall|j: int| 0 <= j < i
                ==> #[trigger] step_result_matches(polls@[j], duties@[j], max_duty),
        decreases polls@.len() - i,
    {
        let poll: Option<&[u8]> = match &polls[i] {
            Some(bytes) => Some(bytes.as_slice()),
            None => None,
        };
        let duty = vehicle_step(poll, max_duty);
        duties.push(duty);
        i = i + 1;
    }
    duties
}

/// Whether the sensor has buffered a whole sample frame; until it has,
/// the loop skips the read instead of blocking on it.
pub fn sample_ready(fifo_count: usize) -> (r: bool)
    ensures
        r <==> fifo_count >= FIFO_FRAME_LEN,
{
    fifo_count >= FIFO_FRAME_LEN
}

/// One vehicle-side iteration of the sensor-driven path: maps each
/// angular axis of a fresh orientation sample independently to a bounded
/// actuator duty, one per channel.
pub fn vehicle_sensor_step(sample: &OrientationSample, max_duty: u16) -> (duties: (u16, u16))
    requires
        sample.wf(),
    ensures
        duties.0 == spec_angle_to_duty(sample.phi_urad, max_duty),
        duties.1 == spec_angle_to_duty(sample.psi_urad, max_duty),
        duties.0 <= max_duty,
        duties.1 <= max_duty,
{
    (angle_to_duty(sample.phi_urad, max_duty), angle_to_duty(sample.psi_urad, max_duty))
}

} // verus!
