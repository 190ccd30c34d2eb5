//! Reading the outcomes of platform backend calls: worker round trips, the
//! bounded retry while no audio session exists, sink lookups and
//! acknowledgements, sink volume conversion, and device discovery.

use vstd::prelude::*;
use crate::volume_control::{VolumeError, VolumeOp, SESSION_ATTEMPTS, SESSION_BACKOFF_MS};

verus! {

/// What one attempt of a backend operation came to.
#[derive(Clone, Copy, Debug, PartialEq, Eq, Structural)]
pub enum AttemptOutcome {
    /// The operation succeeded.
    Done,
    /// The platform has not yet associated an audio session with the process.
    NoSessionYet,
    /// The platform failed the operation with this status.
    Failed(i32),
}

/// What to do after an attempt.
#[derive(Clone, Copy, Debug, PartialEq, Eq, Structural)]
pub enum RetryStep {
    /// The operation is complete.
    Finished,
    /// Try again after this many milliseconds.
    RetryAfterMs(u64),
    /// Give up with this error.
    GiveUp(VolumeError),
}

/// The step after the attempt numbered `attempt` (counted from zero) of
/// operation `op` ended in `outcome`: a missing session is retried until
/// three attempts are used up, any other failure surfaces at once with its
/// status.
pub open spec fn retry_step(op: VolumeOp, attempt: u32, outcome: AttemptOutcome) -> RetryStep {
    match outcome {
        AttemptOutcome::Done => RetryStep::Finished,
        AttemptOutcome::NoSessionYet => if attempt + 1 < 3 {
            RetryStep::RetryAfterMs(100)
        } else {
            RetryStep::GiveUp(VolumeError::NoActiveSession)
        },
        AttemptOutcome::Failed(status) => RetryStep::GiveUp(VolumeError::Os { op, status }),
    }
}

/// Decides what follows one attempt of a backend operation.
pub fn after_attempt(op: VolumeOp, attempt: u32, outcome: AttemptOutcome) -> (step: RetryStep)
    ensures
        step == retry_step(op, attempt, outcome),
{
    match outcome {
        AttemptOutcome::Done => RetryStep::Finished,
        AttemptOutcome::NoSessionYet => {
            if attempt < SESSION_ATTEMPTS - 1 {
                RetryStep::RetryAfterMs(SESSION_BACKOFF_MS)
            } else {
                RetryStep::GiveUp(VolumeError::NoActiveSession)
            }
        },
        AttemptOutcome::Failed(status) => RetryStep::GiveUp(VolumeError::Os { op, status }),
    }
}

/// The result of running an operation whose attempts end in `outcomes`, in
/// this order, from attempt `attempt` on: the first step that is not a retry
/// decides; with no outcome left the operation is still pending.
pub open spec fn run_attempts(op: VolumeOp, attempt: u32, outcomes: Seq<AttemptOutcome>) -> Option<Result<(), VolumeError>>
    decreases outcomes.len(),
{
    if outcomes.len() == 0 {
        None
    } else {
        match retry_step(op, attempt, outcomes[0]) {
            RetryStep::Finished => Some(Ok(())),
            RetryStep::GiveUp(e) => Some(Err(e)),
            RetryStep::RetryAfterMs(_) => if attempt < u32::MAX {
                run_attempts(op, (attempt + 1) as u32, outcomes.subrange(1, outcomes.len() as int))
            } else {
                None
            },
        }
    }
}

/// No operation is attempted more than three times: whatever the platform
/// answers, the third answer decides.
pub proof fn lemma_retry_bounded(op: VolumeOp, outcomes: Seq<AttemptOutcome>)
    requires
        outcomes.len() >= 3,
    ensures
        run_attempts(op, 0, outcomes) is Some,
        run_attempts(op, 0, outcomes) == run_attempts(op, 0, outcomes.subrange(0, 3)),
{
    let s1 = outcomes.subrange(1, outcomes.len() as int);
    let s2 = s1.subrange(1, s1.len() as int);
    let t0 = outcomes.subrange(0, 3);
    let t1 = t0.subrange(1, t0.len() as int);
    let t2 = t1.subrange(1, t1.len() as int);
    assert(t0[0] == outcomes[0]);
    assert(t1[0] == s1[0]);
    assert(t2[0] == s2[0]);
    reveal_with_fuel(run_attempts, 4);
}

/// Reads a round trip to the worker that owns the platform handle: a request
/// that could not be queued means the worker is gone, no answer within the
/// response timeout is a timeout, and an answer is passed on as it is.
pub fn worker_reply<T>(queued: bool, reply: Option<Result<T, VolumeError>>) -> (r: Result<T, VolumeError>)
    ensures
        r == (if !queued {
            Err::<T, VolumeError>(VolumeError::WorkerGone)
        } else {
            match reply {
                None => Err::<T, VolumeError>(VolumeError::WorkerTimeout),
                Some(answer) => answer,
            }
        }),
{
    if !queued {
        return Err(VolumeError::WorkerGone);
    }
    match reply {
        None => Err(VolumeError::WorkerTimeout),
        Some(answer) => answer,
    }
}

/// Reads the worker's answer to an availability probe: anything but a
/// positive answer in time means not available.
pub fn worker_available(queued: bool, reply: Option<bool>) -> (b: bool)
    ensures
        b == (queued && reply == Some(true)),
{
    if !queued {
        return false;
    }
    match reply {
        Some(answer) => answer,
        None => false,
    }
}

/// The sink to operate on, or the error where none was found.
pub fn require_sink(sink: Option<u32>) -> (r: Result<u32, VolumeError>)
    ensures
        r == (match sink {
            Some(index) => Ok::<u32, VolumeError>(index),
            None => Err::<u32, VolumeError>(VolumeError::SinkNotFound),
        }),
{
    match sink {
        Some(index) => Ok(index),
        None => Err(VolumeError::SinkNotFound),
    }
}

/// Reads the platform's acknowledgement of operation `op`: none in time is a
/// timeout, a negative one a refusal.
pub fn acknowledged(op: VolumeOp, ack: Option<bool>) -> (r: Result<(), VolumeError>)
    ensures
        r == (match ack {
            None => Err::<(), VolumeError>(VolumeError::Timeout(op)),
            Some(false) => Err::<(), VolumeError>(VolumeError::Rejected(op)),
            Some(true) => Ok::<(), VolumeError>(()),
        }),
{
    match ack {
        None => Err(VolumeError::Timeout(op)),
        Some(false) => Err(VolumeError::Rejected(op)),
        Some(true) => Ok(()),
    }
}

/// Reads a value that the platform was asked for by operation `op`: none in
/// time is a timeout.
pub fn answered<T>(op: VolumeOp, answer: Option<T>) -> (r: Result<T, VolumeError>)
    ensures
        r == (match answer {
            None => Err::<T, VolumeError>(VolumeError::Timeout(op)),
            Some(value) => Ok::<T, VolumeError>(value),
        }),
{
    match answer {
        None => Err(VolumeError::Timeout(op)),
        Some(value) => Ok(value),
    }
}

/// Reads a platform status code for operation `op`: zero is success.
pub fn status_outcome(op: VolumeOp, status: i32) -> (r: Result<(), VolumeError>)
    ensures
        r == (if status == 0 {
            Ok::<(), VolumeError>(())
        } else {
            Err::<(), VolumeError>(VolumeError::Os { op, status })
        }),
{
    if status == 0 {
        Ok(())
    } else {
        Err(VolumeError::Os { op, status })
    }
}

/// The sink volume for a logical volume: the share `volume / 100` of the
/// normal sink volume, rounded down.
pub open spec fn sink_volume_of(volume: u8) -> u32 {
    (0x10000 * volume as int / 100) as u32
}

/// The logical volume for a sink volume: its percentage of the normal sink
/// volume, rounded down and limited to 100.
pub open spec fn percent_of_sink_volume(raw: u32) -> u8 {
    if raw as int * 100 / 0x10000 > 100 {
        100u8
    } else {
        (raw as int * 100 / 0x10000) as u8
    }
}

/// Converts a logical volume to a sink volume.
pub fn percent_to_sink_volume(volume: u8) -> (raw: u32)
    ensures
        raw == sink_volume_of(volume),
{
    let scaled: u32 = 0x10000u32 * (volume as u32);
    scaled / 100
}

/// Converts a sink volume, such as the average over a sink's channels, to a
/// logical volume.
pub fn sink_volume_to_percent(raw: u32) -> (volume: u8)
    ensures
        volume == percent_of_sink_volume(raw),
        volume <= 100,
{
    let percent: u64 = (raw as u64) * 100 / 0x10000u64;
    if percent > 100 {
        100
    } else {
        percent as u8
    }
}

/// Every logical volume survives the way to the sink and back to within one
/// step, and the ends of the range survive exactly.
pub proof fn lemma_sink_volume_round_trip(volume: u8)
    requires
        volume <= 100,
    ensures
        percent_of_sink_volume(sink_volume_of(volume)) <= volume,
        volume - percent_of_sink_volume(sink_volume_of(volume)) <= 1,
        percent_of_sink_volume(sink_volume_of(0)) == 0,
        percent_of_sink_volume(sink_volume_of(100)) == 100,
{
    let raw = 0x10000 * volume as int / 100;
    assert(0 <= raw <= 0x10000);
    assert(raw * 100 <= 0x10000 * volume as int);
    assert(raw * 100 > 0x10000 * volume as int - 100);
    let back = raw * 100 / 0x10000;
    assert(back <= volume as int);
    assert(back >= volume as int - 1);
}

/// The kind of object a sink event is about.
#[derive(Clone, Copy, Debug, PartialEq, Eq, Structural)]
pub enum Facility {
    Sink,
    Other,
}

/// What happened to the object of a sink event.
#[derive(Clone, Copy, Debug, PartialEq, Eq, Structural)]
pub enum Operation {
    New,
    Changed,
    Removed,
}

/// Whether a subscription event is a change of the sink that is mirrored.
pub fn is_own_sink_change(facility: Option<Facility>, operation: Option<Operation>, index: u32, own_sink: Option<u32>) -> (b: bool)
    ensures
        b == (facility == Some(Facility::Sink) && own_sink == Some(index) && operation == Some(
            Operation::Changed,
        )),
{
    let is_sink = match facility {
        Some(Facility::Sink) => true,
        _ => false,
    };
    let is_own = match own_sink {
        Some(own) => own == index,
        None => false,
    };
    let is_change = match operation {
        Some(Operation::Changed) => true,
        _ => false,
    };
    is_sink && is_own && is_change
}

/// State of the connection to the sound server.
#[derive(Clone, Copy, Debug, PartialEq, Eq, Structural)]
pub enum ContextState {
    Unconnected,
    Connecting,
    Authorizing,
    SettingName,
    Ready,
    Failed,
    Terminated,
}

/// What to do while waiting for the connection to the sound server.
#[derive(Clone, Copy, Debug, PartialEq, Eq, Structural)]
pub enum WaitStep {
    /// The connection is ready.
    Proceed,
    /// The connection will not become ready.
    Abort,
    /// Look again after this many milliseconds.
    SleepMs(u64),
}

/// Decides what to do on seeing the connection in `state`.
pub fn context_wait_step(state: ContextState) -> (step: WaitStep)
    ensures
        step == (match state {
            ContextState::Ready => WaitStep::Proceed,
            ContextState::Failed => WaitStep::Abort,
            ContextState::Terminated => WaitStep::Abort,
            _ => WaitStep::SleepMs(10),
        }),
{
    match state {
        ContextState::Ready => WaitStep::Proceed,
        ContextState::Failed | ContextState::Terminated => WaitStep::Abort,
        _ => WaitStep::SleepMs(10),
    }
}

/// Reads the discovery of the default output device: a failure status
/// surfaces with the status, the unknown device (zero) means that there is no
/// default output, and a device without a volume property cannot be
/// mirrored. Otherwise the device is the one to control.
pub fn default_device_outcome(status: i32, device: u32, has_volume: bool) -> (r: Result<u32, VolumeError>)
    ensures
        r == (if status != 0 {
            Err::<u32, VolumeError>(VolumeError::Os { op: VolumeOp::FindDevice, status })
        } else if device == 0 {
            Err::<u32, VolumeError>(VolumeError::NoOutputDevice)
        } else if !has_volume {
            Err::<u32, VolumeError>(VolumeError::NoVolumeControl)
        } else {
            Ok::<u32, VolumeError>(device)
        }),
{
    if status != 0 {
        Err(VolumeError::Os { op: VolumeOp::FindDevice, status })
    } else if device == 0 {
        Err(VolumeError::NoOutputDevice)
    } else if !has_volume {
        Err(VolumeError::NoVolumeControl)
    } else {
        Ok(device)
    }
}

} // verus!
