//! Mirroring of the logical volume onto the operating system's output volume:
//! which request a local change sends to the platform backend, which observed
//! changes are reported as external ones, and how the outcomes of backend
//! calls are read.
//!
//! The platform handles themselves are confined to a worker outside this
//! crate; it executes the requests decided here and feeds back what it saw.

use vstd::prelude::*;

verus! {

/// The platforms with a volume backend.
#[derive(Clone, Copy, Debug, PartialEq, Eq, Structural)]
pub enum Platform {
    /// Endpoint volume, observed by polling.
    Windows,
    /// Default output device volume, observed through property listeners.
    MacOs,
    /// Default sink volume, observed through sink events.
    Linux,
    /// No controllable output.
    Unsupported,
}

/// How external changes are detected.
#[derive(Clone, Copy, Debug, PartialEq, Eq, Structural)]
pub enum DetectionMode {
    EventDriven,
    Polling,
}

/// Operating-system volume as mirrored: a level from 0 to 100 and a mute flag.
#[derive(Clone, Copy, Debug, PartialEq, Eq, Structural)]
pub struct HardwareVolumeState {
    pub volume: u8,
    pub muted: bool,
}

/// A backend operation, for naming what failed.
#[derive(Clone, Copy, Debug, PartialEq, Eq, Structural)]
pub enum VolumeOp {
    SetVolume,
    SetMute,
    GetVolume,
    GetMute,
    Subscribe,
    FindDevice,
}

/// Why a volume operation failed.
#[derive(Clone, Copy, Debug, PartialEq, Eq, Structural)]
pub enum VolumeError {
    /// The backend is gone or was never ready.
    Unavailable,
    /// The worker no longer takes requests.
    WorkerGone,
    /// The worker did not answer within the response timeout.
    WorkerTimeout,
    /// The output to control is not known.
    SinkNotFound,
    /// The platform did not complete the operation in time.
    Timeout(VolumeOp),
    /// The platform refused the operation.
    Rejected(VolumeOp),
    /// The platform reported a failure status.
    Os { op: VolumeOp, status: i32 },
    /// No audio session was associated with the process after all attempts.
    NoActiveSession,
    /// There is no default output device.
    NoOutputDevice,
    /// The default output device has no volume control.
    NoVolumeControl,
    /// The device has no mute control.
    MuteUnsupported,
}

/// A request for the platform backend.
#[derive(Clone, Copy, Debug, PartialEq, Eq, Structural)]
pub enum BackendCommand {
    SetVolume(u8),
    SetMute(bool),
}

/// How the backend is to watch for external changes.
#[derive(Clone, Copy, Debug, PartialEq, Eq, Structural)]
pub struct WatchPlan {
    pub mode: DetectionMode,
    /// Time between two polls, in milliseconds; zero when event-driven.
    pub poll_interval_ms: u64,
}

/// Highest logical volume.
pub const MAX_VOLUME: u8 = 100;

/// Grace window after a local change on event-driven platforms, in milliseconds.
pub const EVENT_GRACE_MS: u64 = 200;

/// Grace window after a local change on polling platforms, in milliseconds.
pub const POLLING_GRACE_MS: u64 = 1000;

/// Time between two polls, in milliseconds.
pub const POLL_INTERVAL_MS: u64 = 2000;

/// Shortest time between two notifications from property listeners, in milliseconds.
pub const LISTENER_MIN_INTERVAL_MS: u64 = 50;

/// How long a caller waits for the worker's answer, in milliseconds.
pub const RESPONSE_TIMEOUT_MS: u64 = 2000;

/// How often an operation is tried while no audio session exists yet.
pub const SESSION_ATTEMPTS: u32 = 3;

/// Pause between two such attempts, in milliseconds.
pub const SESSION_BACKOFF_MS: u64 = 100;

/// The sink volume that stands for 100 percent.
pub const SINK_VOLUME_NORMAL: u32 = 0x10000;

/// A volume limited to the logical range.
pub open spec fn clamped_volume(volume: u8) -> u8 {
    if volume > 100 {
        100
    } else {
        volume
    }
}

/// How a platform detects changes; none where it has no backend.
pub open spec fn platform_mode(platform: Platform) -> Option<DetectionMode> {
    match platform {
        Platform::Windows => Some(DetectionMode::Polling),
        Platform::MacOs => Some(DetectionMode::EventDriven),
        Platform::Linux => Some(DetectionMode::EventDriven),
        Platform::Unsupported => None,
    }
}

/// The grace window of a detection mode.
pub open spec fn mode_grace_ms(mode: DetectionMode) -> u64 {
    match mode {
        DetectionMode::EventDriven => 200,
        DetectionMode::Polling => 1000,
    }
}

/// The grace window of a platform; zero where it has no backend.
pub open spec fn platform_grace_ms(platform: Platform) -> u64 {
    match platform_mode(platform) {
        Some(mode) => mode_grace_ms(mode),
        None => 0,
    }
}

/// The shortest time between two notifications on a platform.
pub open spec fn platform_min_interval_ms(platform: Platform) -> u64 {
    match platform {
        Platform::MacOs => 50,
        _ => 0,
    }
}

/// Milliseconds from `earlier` to `now`, zero where `earlier` is not in the past.
pub open spec fn elapsed_ms(now: u64, earlier: u64) -> u64 {
    if now >= earlier {
        (now - earlier) as u64
    } else {
        0
    }
}

/// Whether an observation at `now` falls into the grace window that a local
/// change at `last_self_change` opened: such an observation is taken for an
/// echo of that change.
pub open spec fn within_grace(now: u64, last_self_change: u64, grace: u64) -> bool {
    elapsed_ms(now, last_self_change) < grace
}

/// Limits a volume to the logical range.
pub fn clamp_volume(volume: u8) -> (v: u8)
    ensures
        v == clamped_volume(volume),
        v <= 100,
{
    if volume > MAX_VOLUME {
        MAX_VOLUME
    } else {
        volume
    }
}

/// How a platform detects external changes.
pub fn detection_mode(platform: Platform) -> (mode: Option<DetectionMode>)
    ensures
        mode == platform_mode(platform),
{
    match platform {
        Platform::Windows => Some(DetectionMode::Polling),
        Platform::MacOs => Some(DetectionMode::EventDriven),
        Platform::Linux => Some(DetectionMode::EventDriven),
        Platform::Unsupported => None,
    }
}

/// The grace window of a detection mode, in milliseconds.
pub fn grace_period_ms(mode: DetectionMode) -> (grace: u64)
    ensures
        grace == mode_grace_ms(mode),
{
    match mode {
        DetectionMode::EventDriven => EVENT_GRACE_MS,
        DetectionMode::Polling => POLLING_GRACE_MS,
    }
}

/// Whether an observation at `now_ms` is an echo of the local change stamped
/// `last_self_change_ms`.
pub fn is_self_change(now_ms: u64, last_self_change_ms: u64, grace_ms: u64) -> (echo: bool)
    ensures
        echo == within_grace(now_ms, last_self_change_ms, grace_ms),
{
    let elapsed: u64 = if now_ms >= last_self_change_ms {
        now_ms - last_self_change_ms
    } else {
        0
    };
    elapsed < grace_ms
}

/// The logical mirror of the operating system's volume.
#[derive(Clone, Copy, Debug, PartialEq, Eq)]
pub struct VolumeController {
    pub platform: Platform,
    /// Whether the backend is still usable.
    pub available: bool,
    /// When this process last changed the volume or the mute flag itself.
    pub last_self_change_ms: u64,
    /// The last state reported as an external change.
    pub last_delivered: Option<HardwareVolumeState>,
    /// When a change was last reported, or when watching began.
    pub last_notification_ms: u64,
    /// Whether change detection is installed.
    pub watching: bool,
}

/// What an observation of `observed` at `now` is reported as by a controller
/// in state `before`: nothing while no detection is installed, while within
/// the grace window of a local change, while within the platform's minimum
/// notification interval, or when the state equals the last one reported;
/// else the observed state, with its volume limited to the logical range.
pub open spec fn reported_change(before: VolumeController, now: u64, observed: HardwareVolumeState) -> Option<HardwareVolumeState> {
    let seen = HardwareVolumeState { volume: clamped_volume(observed.volume), muted: observed.muted };
    if !before.watching {
        None
    } else if within_grace(now, before.last_self_change_ms, platform_grace_ms(before.platform)) {
        None
    } else if elapsed_ms(now, before.last_notification_ms) < platform_min_interval_ms(before.platform) {
        None
    } else if before.last_delivered == Some(seen) {
        None
    } else {
        Some(seen)
    }
}

impl VolumeController {
    /// The states that the constructor and the methods produce.
    pub open spec fn wf(&self) -> bool {
        &&& platform_mode(self.platform) is Some
        &&& match self.last_delivered {
            Some(s) => s.volume <= 100,
            None => true,
        }
    }

    /// Whether the state is one that the constructor and the methods
    /// produce.
    pub fn is_valid(&self) -> (ok: bool)
        ensures
            ok == self.wf(),
    {
        let delivered_in_range = match self.last_delivered {
            Some(s) => s.volume <= MAX_VOLUME,
            None => true,
        };
        detection_mode(self.platform).is_some() && delivered_in_range
    }

    /// Creates the mirror for `platform`. There is none where the platform has
    /// no backend or its backend could not be made ready; the caller then
    /// falls back to software gain.
    pub fn new(platform: Platform, backend_ready: bool) -> (r: Option<Self>)
        ensures
            r is Some <==> (platform_mode(platform) is Some && backend_ready),
            r matches Some(c) ==> c.wf() && c.platform == platform && c.available
                && c.last_self_change_ms == 0 && c.last_delivered is None && !c.watching
                && c.last_notification_ms == 0,
    {
        if !backend_ready {
            return None;
        }
        match platform {
            Platform::Unsupported => None,
            _ => Some(
                VolumeController {
                    platform,
                    available: true,
                    last_self_change_ms: 0,
                    last_delivered: None,
                    last_notification_ms: 0,
                    watching: false,
                },
            ),
        }
    }

    /// Whether the backend is usable.
    pub fn is_available(&self) -> (b: bool)
        ensures
            b == self.available,
    {
        self.available
    }

    /// Records that the backend has gone away.
    pub fn mark_unavailable(&mut self)
        ensures
            *final(self) == (VolumeController { available: false, ..*old(self) }),
    {
        self.available = false;
    }

    /// Sets the volume at local time `now_ms`: stamps the time of this local
    /// change and yields the request for the backend, with the volume limited
    /// to the logical range. The stamp is made whether or not a backend is
    /// left to take the request.
    pub fn set_volume(&mut self, volume: u8, now_ms: u64) -> (r: Result<BackendCommand, VolumeError>)
        requires
            old(self).wf(),
        ensures
            final(self).wf(),
            *final(self) == (VolumeController { last_self_change_ms: now_ms, ..*old(self) }),
            r == (if old(self).available {
                Ok::<BackendCommand, VolumeError>(BackendCommand::SetVolume(clamped_volume(volume)))
            } else {
                Err::<BackendCommand, VolumeError>(VolumeError::Unavailable)
            }),
    {
        self.last_self_change_ms = now_ms;
        if self.available {
            Ok(BackendCommand::SetVolume(clamp_volume(volume)))
        } else {
            Err(VolumeError::Unavailable)
        }
    }

    /// Sets the mute flag at local time `now_ms`: stamps the time of this
    /// local change and yields the request for the backend.
    pub fn set_mute(&mut self, muted: bool, now_ms: u64) -> (r: Result<BackendCommand, VolumeError>)
        requires
            old(self).wf(),
        ensures
            final(self).wf(),
            *final(self) == (VolumeController { last_self_change_ms: now_ms, ..*old(self) }),
            r == (if old(self).available {
                Ok::<BackendCommand, VolumeError>(BackendCommand::SetMute(muted))
            } else {
                Err::<BackendCommand, VolumeError>(VolumeError::Unavailable)
            }),
    {
        self.last_self_change_ms = now_ms;
        if self.available {
            Ok(BackendCommand::SetMute(muted))
        } else {
            Err(VolumeError::Unavailable)
        }
    }

    /// Reads a volume that the backend returned: an error stays an error, a
    /// level is limited to the logical range, and without a backend the
    /// reading is not used at all.
    pub fn get_volume(&self, reading: Result<u8, VolumeError>) -> (r: Result<u8, VolumeError>)
        ensures
            r == (if !self.available {
                Err::<u8, VolumeError>(VolumeError::Unavailable)
            } else {
                match reading {
                    Ok(v) => Ok::<u8, VolumeError>(clamped_volume(v)),
                    Err(e) => Err::<u8, VolumeError>(e),
                }
            }),
    {
        if !self.available {
            return Err(VolumeError::Unavailable);
        }
        match reading {
            Ok(v) => Ok(clamp_volume(v)),
            Err(e) => Err(e),
        }
    }

    /// Reads a mute flag that the backend returned. A device without a mute
    /// control counts as not muted.
    pub fn get_mute(&self, reading: Result<bool, VolumeError>) -> (r: Result<bool, VolumeError>)
        ensures
            r == (if !self.available {
                Err::<bool, VolumeError>(VolumeError::Unavailable)
            } else {
                match reading {
                    Err(VolumeError::MuteUnsupported) => Ok::<bool, VolumeError>(false),
                    other => other,
                }
            }),
    {
        if !self.available {
            return Err(VolumeError::Unavailable);
        }
        match reading {
            Err(VolumeError::MuteUnsupported) => Ok(false),
            other => other,
        }
    }

    /// Installs change detection at local time `now_ms` and says how the
    /// backend is to watch. Nothing has been reported yet afterwards.
    pub fn set_change_callback(&mut self, now_ms: u64) -> (r: Result<WatchPlan, VolumeError>)
        requires
            old(self).wf(),
        ensures
            final(self).wf(),
            old(self).available ==> *final(self) == (VolumeController {
                watching: true,
                last_delivered: None,
                last_notification_ms: now_ms,
                ..*old(self)
            }) && r == Ok::<WatchPlan, VolumeError>(
                WatchPlan {
                    mode: platform_mode(old(self).platform).unwrap(),
                    poll_interval_ms: if platform_mode(old(self).platform) == Some(
                        DetectionMode::Polling,
                    ) {
                        2000u64
                    } else {
                        0u64
                    },
                },
            ),
            !old(self).available ==> *final(self) == *old(self) && r == Err::<
                WatchPlan,
                VolumeError,
            >(VolumeError::Unavailable),
    {
        if !self.available {
            return Err(VolumeError::Unavailable);
        }
        let mode = match detection_mode(self.platform) {
            Some(m) => m,
            None => {
                return Err(VolumeError::Unavailable);
            },
        };
        self.watching = true;
        self.last_delivered = None;
        self.last_notification_ms = now_ms;
        let poll_interval_ms: u64 = match mode {
            DetectionMode::Polling => POLL_INTERVAL_MS,
            DetectionMode::EventDriven => 0,
        };
        Ok(WatchPlan { mode, poll_interval_ms })
    }

    /// Takes a state observed on the operating system at local time `now_ms`
    /// and decides whether it is reported as an external change. A report
    /// becomes the last delivered state and restarts the notification
    /// interval; an observation that is not reported changes nothing.
    pub fn observe(&mut self, now_ms: u64, observed: HardwareVolumeState) -> (r: Option<HardwareVolumeState>)
        requires
            old(self).wf(),
        ensures
            final(self).wf(),
            r == reported_change(*old(self), now_ms, observed),
            r is None ==> *final(self) == *old(self),
            r is Some ==> *final(self) == (VolumeController {
                last_delivered: r,
                last_notification_ms: now_ms,
                ..*old(self)
            }),
    {
        if !self.watching {
            return None;
        }
        let mode = match detection_mode(self.platform) {
            Some(m) => m,
            None => {
                return None;
            },
        };
        if is_self_change(now_ms, self.last_self_change_ms, grace_period_ms(mode)) {
            return None;
        }
        let min_interval: u64 = match self.platform {
            Platform::MacOs => LISTENER_MIN_INTERVAL_MS,
            _ => 0,
        };
        if is_self_change(now_ms, self.last_notification_ms, min_interval) {
            return None;
        }
        let seen = HardwareVolumeState { volume: clamp_volume(observed.volume), muted: observed.muted };
        match self.last_delivered {
            Some(last) => {
                if last == seen {
                    return None;
                }
            },
            None => {},
        }
        self.last_delivered = Some(seen);
        self.last_notification_ms = now_ms;
        Some(seen)
    }
}

/// Whatever is observed within the grace window of a local change is not
/// reported, equal to the value just set or not.
pub proof fn lemma_echo_suppressed(c: VolumeController, set_at: u64, now: u64, observed: HardwareVolumeState)
    requires
        c.wf(),
        set_at <= now,
        now - set_at < platform_grace_ms(c.platform),
    ensures
        reported_change(
            VolumeController { last_self_change_ms: set_at, ..c },
            now,
            observed,
        ) is None,
{
}

/// A state observed after the grace window and after the minimum
/// notification interval, and different from the last one reported, is
/// reported as it was observed.
pub proof fn lemma_external_change_delivered(c: VolumeController, now: u64, observed: HardwareVolumeState)
    requires
        c.wf(),
        c.watching,
        observed.volume <= 100,
        now >= c.last_self_change_ms,
        now - c.last_self_change_ms >= platform_grace_ms(c.platform),
        now >= c.last_notification_ms,
        now - c.last_notification_ms >= platform_min_interval_ms(c.platform),
        c.last_delivered != Some(observed),
    ensures
        reported_change(c, now, observed) == Some(observed),
{
}

/// The same state is never reported twice in a row.
pub proof fn lemma_no_repeated_report(c: VolumeController, first_at: u64, second_at: u64, observed: HardwareVolumeState)
    requires
        c.wf(),
        reported_change(c, first_at, observed) is Some,
    ensures
        reported_change(
            VolumeController {
                last_delivered: reported_change(c, first_at, observed),
                last_notification_ms: first_at,
                ..c
            },
            second_at,
            observed,
        ) is None,
{
}

} // verus!
