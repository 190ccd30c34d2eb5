use sendspin_client::backend::{
    acknowledged, after_attempt, answered, context_wait_step, default_device_outcome,
    is_own_sink_change, percent_to_sink_volume, require_sink, sink_volume_to_percent,
    status_outcome, worker_available, worker_reply, AttemptOutcome, ContextState, Facility,
    Operation, RetryStep, WaitStep,
};
use sendspin_client::control::{active_route, VolumeRoute};
use sendspin_client::volume_control::{
    clamp_volume, detection_mode, grace_period_ms, is_self_change, BackendCommand, DetectionMode,
    HardwareVolumeState, Platform, VolumeController, VolumeError, VolumeOp, WatchPlan,
};

fn state(volume: u8, muted: bool) -> HardwareVolumeState {
    HardwareVolumeState { volume, muted }
}

fn watching(platform: Platform) -> VolumeController {
    let mut c = VolumeController::new(platform, true).unwrap();
    c.set_change_callback(0).unwrap();
    c
}

#[test]
fn own_change_is_suppressed_and_external_change_delivered() {
    let mut c = watching(Platform::Linux);
    let t0 = 10_000;
    assert_eq!(c.set_volume(40, t0), Ok(BackendCommand::SetVolume(40)));
    assert_eq!(c.observe(t0 + 50, state(40, false)), None);
    assert_eq!(c.observe(t0 + 199, state(40, false)), None);
    assert_eq!(c.observe(t0 + 250, state(55, false)), Some(state(55, false)));
}

#[test]
fn polling_platform_has_longer_grace_window() {
    let mut c = watching(Platform::Windows);
    let t0 = 10_000;
    c.set_volume(40, t0).unwrap();
    assert_eq!(c.observe(t0 + 250, state(55, false)), None);
    assert_eq!(c.observe(t0 + 999, state(55, false)), None);
    assert_eq!(c.observe(t0 + 1000, state(55, false)), Some(state(55, false)));
}

#[test]
fn any_change_within_grace_is_suppressed() {
    let mut c = watching(Platform::Linux);
    c.set_mute(true, 5_000).unwrap();
    assert_eq!(c.observe(5_100, state(90, false)), None);
    assert_eq!(c.last_delivered, None);
}

#[test]
fn equal_state_is_reported_once() {
    let mut c = watching(Platform::Linux);
    assert_eq!(c.observe(1_000, state(30, false)), Some(state(30, false)));
    assert_eq!(c.observe(2_000, state(30, false)), None);
    assert_eq!(c.observe(3_000, state(30, true)), Some(state(30, true)));
    assert_eq!(c.observe(4_000, state(31, true)), Some(state(31, true)));
    assert_eq!(c.last_delivered, Some(state(31, true)));
    assert_eq!(c.last_notification_ms, 4_000);
}

#[test]
fn nothing_is_reported_before_watching() {
    let mut c = VolumeController::new(Platform::Linux, true).unwrap();
    assert_eq!(c.observe(9_000, state(30, false)), None);
}

#[test]
fn listener_notifications_are_rate_limited() {
    let mut c = VolumeController::new(Platform::MacOs, true).unwrap();
    assert_eq!(
        c.set_change_callback(1_000),
        Ok(WatchPlan { mode: DetectionMode::EventDriven, poll_interval_ms: 0 })
    );
    assert_eq!(c.observe(1_049, state(30, false)), None);
    assert_eq!(c.observe(1_050, state(30, false)), Some(state(30, false)));
    assert_eq!(c.observe(1_099, state(31, false)), None);
    assert_eq!(c.observe(1_100, state(31, false)), Some(state(31, false)));
}

#[test]
fn clock_going_backwards_counts_as_within_grace() {
    let mut c = watching(Platform::Linux);
    c.set_volume(10, 50_000).unwrap();
    assert_eq!(c.observe(40_000, state(70, false)), None);
    assert!(is_self_change(40_000, 50_000, 200));
    assert!(!is_self_change(50_200, 50_000, 200));
    assert!(is_self_change(50_199, 50_000, 200));
    assert!(!is_self_change(7, 7, 0));
}

#[test]
fn observed_volume_is_limited_to_range() {
    let mut c = watching(Platform::Linux);
    assert_eq!(c.observe(1_000, state(150, false)), Some(state(100, false)));
    assert_eq!(c.observe(2_000, state(120, false)), None);
}

#[test]
fn controller_exists_only_with_a_backend() {
    assert!(VolumeController::new(Platform::Unsupported, true).is_none());
    assert!(VolumeController::new(Platform::Linux, false).is_none());
    assert!(VolumeController::new(Platform::Windows, false).is_none());
    for platform in [Platform::Windows, Platform::MacOs, Platform::Linux] {
        let c = VolumeController::new(platform, true).unwrap();
        assert!(c.is_available());
        assert_eq!(c.platform, platform);
        assert!(!c.watching);
        assert_eq!(c.last_self_change_ms, 0);
    }
}

#[test]
fn set_volume_clamps_and_stamps() {
    let mut c = VolumeController::new(Platform::Windows, true).unwrap();
    assert_eq!(c.set_volume(250, 777), Ok(BackendCommand::SetVolume(100)));
    assert_eq!(c.last_self_change_ms, 777);
    assert_eq!(c.set_mute(true, 888), Ok(BackendCommand::SetMute(true)));
    assert_eq!(c.last_self_change_ms, 888);
    assert_eq!(c.set_volume(0, 999), Ok(BackendCommand::SetVolume(0)));
}

#[test]
fn unavailable_backend_surfaces_errors() {
    let mut c = VolumeController::new(Platform::Windows, true).unwrap();
    c.mark_unavailable();
    assert!(!c.is_available());
    assert_eq!(c.set_volume(10, 5), Err(VolumeError::Unavailable));
    assert_eq!(c.last_self_change_ms, 5);
    assert_eq!(c.set_mute(false, 6), Err(VolumeError::Unavailable));
    assert_eq!(c.get_volume(Ok(10)), Err(VolumeError::Unavailable));
    assert_eq!(c.get_mute(Ok(true)), Err(VolumeError::Unavailable));
    assert_eq!(c.set_change_callback(7), Err(VolumeError::Unavailable));
    assert!(!c.watching);
}

#[test]
fn readings_pass_through() {
    let c = VolumeController::new(Platform::MacOs, true).unwrap();
    assert_eq!(c.get_volume(Ok(42)), Ok(42));
    assert_eq!(c.get_volume(Ok(142)), Ok(100));
    let failed = VolumeError::Os { op: VolumeOp::GetVolume, status: -50 };
    assert_eq!(c.get_volume(Err(failed)), Err(failed));
    assert_eq!(c.get_mute(Ok(true)), Ok(true));
    assert_eq!(c.get_mute(Err(VolumeError::MuteUnsupported)), Ok(false));
    assert_eq!(c.get_mute(Err(VolumeError::WorkerTimeout)), Err(VolumeError::WorkerTimeout));
}

#[test]
fn watch_plan_per_platform() {
    let mut c = VolumeController::new(Platform::Windows, true).unwrap();
    assert_eq!(
        c.set_change_callback(3),
        Ok(WatchPlan { mode: DetectionMode::Polling, poll_interval_ms: 2000 })
    );
    assert!(c.watching);
    assert_eq!(c.last_notification_ms, 3);
    assert_eq!(detection_mode(Platform::Linux), Some(DetectionMode::EventDriven));
    assert_eq!(detection_mode(Platform::MacOs), Some(DetectionMode::EventDriven));
    assert_eq!(detection_mode(Platform::Windows), Some(DetectionMode::Polling));
    assert_eq!(detection_mode(Platform::Unsupported), None);
    assert_eq!(grace_period_ms(DetectionMode::EventDriven), 200);
    assert_eq!(grace_period_ms(DetectionMode::Polling), 1000);
}

#[test]
fn clamp_volume_values() {
    assert_eq!(clamp_volume(0), 0);
    assert_eq!(clamp_volume(100), 100);
    assert_eq!(clamp_volume(101), 100);
    assert_eq!(clamp_volume(255), 100);
}

#[test]
fn missing_session_is_retried_three_times() {
    let op = VolumeOp::SetVolume;
    assert_eq!(after_attempt(op, 0, AttemptOutcome::NoSessionYet), RetryStep::RetryAfterMs(100));
    assert_eq!(after_attempt(op, 1, AttemptOutcome::NoSessionYet), RetryStep::RetryAfterMs(100));
    assert_eq!(
        after_attempt(op, 2, AttemptOutcome::NoSessionYet),
        RetryStep::GiveUp(VolumeError::NoActiveSession)
    );
    assert_eq!(
        after_attempt(op, u32::MAX, AttemptOutcome::NoSessionYet),
        RetryStep::GiveUp(VolumeError::NoActiveSession)
    );
    assert_eq!(after_attempt(op, 1, AttemptOutcome::Done), RetryStep::Finished);
    assert_eq!(
        after_attempt(op, 0, AttemptOutcome::Failed(-2147024891)),
        RetryStep::GiveUp(VolumeError::Os { op, status: -2147024891 })
    );
}

#[test]
fn worker_round_trip_outcomes() {
    assert_eq!(worker_reply::<u8>(false, Some(Ok(5))), Err(VolumeError::WorkerGone));
    assert_eq!(worker_reply::<u8>(true, None), Err(VolumeError::WorkerTimeout));
    assert_eq!(worker_reply(true, Some(Ok(5u8))), Ok(5));
    assert_eq!(
        worker_reply::<bool>(true, Some(Err(VolumeError::SinkNotFound))),
        Err(VolumeError::SinkNotFound)
    );
    assert!(worker_available(true, Some(true)));
    assert!(!worker_available(true, Some(false)));
    assert!(!worker_available(true, None));
    assert!(!worker_available(false, Some(true)));
}

#[test]
fn sink_outcomes() {
    assert_eq!(require_sink(Some(3)), Ok(3));
    assert_eq!(require_sink(None), Err(VolumeError::SinkNotFound));
    assert_eq!(acknowledged(VolumeOp::SetVolume, Some(true)), Ok(()));
    assert_eq!(
        acknowledged(VolumeOp::SetVolume, Some(false)),
        Err(VolumeError::Rejected(VolumeOp::SetVolume))
    );
    assert_eq!(acknowledged(VolumeOp::SetMute, None), Err(VolumeError::Timeout(VolumeOp::SetMute)));
    assert_eq!(answered(VolumeOp::GetVolume, Some(9u8)), Ok(9));
    assert_eq!(
        answered::<bool>(VolumeOp::GetMute, None),
        Err(VolumeError::Timeout(VolumeOp::GetMute))
    );
    assert_eq!(status_outcome(VolumeOp::SetMute, 0), Ok(()));
    assert_eq!(
        status_outcome(VolumeOp::SetMute, 560947818),
        Err(VolumeError::Os { op: VolumeOp::SetMute, status: 560947818 })
    );
}

#[test]
fn sink_volume_conversion() {
    assert_eq!(percent_to_sink_volume(0), 0);
    assert_eq!(percent_to_sink_volume(1), 655);
    assert_eq!(percent_to_sink_volume(40), 26214);
    assert_eq!(percent_to_sink_volume(50), 32768);
    assert_eq!(percent_to_sink_volume(100), 65536);
    assert_eq!(sink_volume_to_percent(0), 0);
    assert_eq!(sink_volume_to_percent(655), 0);
    assert_eq!(sink_volume_to_percent(656), 1);
    assert_eq!(sink_volume_to_percent(32768), 50);
    assert_eq!(sink_volume_to_percent(65535), 99);
    assert_eq!(sink_volume_to_percent(65536), 100);
    assert_eq!(sink_volume_to_percent(98304), 100);
    assert_eq!(sink_volume_to_percent(u32::MAX), 100);
    for v in 0..=100u8 {
        let back = sink_volume_to_percent(percent_to_sink_volume(v));
        assert!(back == v || back + 1 == v);
    }
}

#[test]
fn sink_events_are_filtered() {
    let sink = Some(Facility::Sink);
    let changed = Some(Operation::Changed);
    assert!(is_own_sink_change(sink, changed, 3, Some(3)));
    assert!(!is_own_sink_change(sink, changed, 4, Some(3)));
    assert!(!is_own_sink_change(sink, changed, 3, None));
    assert!(!is_own_sink_change(Some(Facility::Other), changed, 3, Some(3)));
    assert!(!is_own_sink_change(None, changed, 3, Some(3)));
    assert!(!is_own_sink_change(sink, Some(Operation::New), 3, Some(3)));
    assert!(!is_own_sink_change(sink, Some(Operation::Removed), 3, Some(3)));
    assert!(!is_own_sink_change(sink, None, 3, Some(3)));
}

#[test]
fn context_wait_steps() {
    assert_eq!(context_wait_step(ContextState::Ready), WaitStep::Proceed);
    assert_eq!(context_wait_step(ContextState::Failed), WaitStep::Abort);
    assert_eq!(context_wait_step(ContextState::Terminated), WaitStep::Abort);
    for waiting in [
        ContextState::Unconnected,
        ContextState::Connecting,
        ContextState::Authorizing,
        ContextState::SettingName,
    ] {
        assert_eq!(context_wait_step(waiting), WaitStep::SleepMs(10));
    }
}

#[test]
fn default_device_discovery() {
    assert_eq!(default_device_outcome(0, 71, true), Ok(71));
    assert_eq!(
        default_device_outcome(-1, 71, true),
        Err(VolumeError::Os { op: VolumeOp::FindDevice, status: -1 })
    );
    assert_eq!(default_device_outcome(0, 0, true), Err(VolumeError::NoOutputDevice));
    assert_eq!(default_device_outcome(0, 71, false), Err(VolumeError::NoVolumeControl));
}

#[test]
fn route_degrades_to_software() {
    let ready = VolumeController::new(Platform::Linux, true);
    assert_eq!(active_route(true, &ready), VolumeRoute::Hardware);
    assert_eq!(active_route(false, &ready), VolumeRoute::Software);
    assert_eq!(active_route(true, &None), VolumeRoute::Software);
    assert_eq!(active_route(false, &None), VolumeRoute::Software);
    let mut lost = ready.unwrap();
    lost.mark_unavailable();
    assert_eq!(active_route(true, &Some(lost)), VolumeRoute::Software);
}

#[test]
fn validity_of_controller_states() {
    let mut c = VolumeController::new(Platform::Linux, true).unwrap();
    assert!(c.is_valid());
    c.last_delivered = Some(state(101, false));
    assert!(!c.is_valid());
    c.last_delivered = Some(state(100, true));
    assert!(c.is_valid());
    c.platform = Platform::Unsupported;
    assert!(!c.is_valid());
}
