use nuthatch::hotplug::device_added;
use nuthatch::input::{
    keyboard_key, loop_verdict, route_hotplug, session_action, HotplugAction, HotplugEvent,
    KeyAction, LoopVerdict, SessionAction, SessionEvent, KEY_BACKSPACE, KEY_Q, TICK_MS,
};
use nuthatch::node::DeviceNode;
use nuthatch::pointer::PointerElement;
use nuthatch::registry::UdevData;
use nuthatch::setup::StepReport;
use nuthatch::setup::DeviceAddError;
use nuthatch::startup::{
    discovery_check, forced_device_error, init_drm, select_primary_gpu, GpuDiscovery,
    StartupError,
};
use nuthatch::state::DrmCompositorState;

fn gpu() -> DeviceNode {
    DeviceNode { major: 226, minor: 0 }
}

fn state() -> DrmCompositorState {
    DrmCompositorState::new(UdevData::new(gpu()))
}

fn discovery(
    forced: Option<Option<DeviceNode>>,
    primary_query_ok: bool,
    primary_render: Option<DeviceNode>,
    candidates: Vec<Option<DeviceNode>>,
) -> GpuDiscovery {
    GpuDiscovery { forced, primary_query_ok, primary_render, candidates }
}

#[test]
fn exit_combination_stops_the_reactor() {
    assert_eq!((KEY_Q, KEY_BACKSPACE), (24, 22));
    let mut s = state();
    assert_eq!(keyboard_key(&mut s, true, 24, true, true), KeyAction::Exit);
    assert!(!s.running);
    let mut s = state();
    assert_eq!(keyboard_key(&mut s, true, 22, true, true), KeyAction::Exit);
    assert!(!s.running);
}

#[test]
fn other_keys_are_forwarded() {
    let mut s = state();
    let cases = vec![
        (false, 24, true, true),
        (true, 24, false, true),
        (true, 24, true, false),
        (true, 22, false, false),
        (true, 23, true, true),
        (true, 38, true, true),
        (false, 22, true, true),
    ];
    for (pressed, code, ctrl, alt) in cases {
        assert_eq!(keyboard_key(&mut s, pressed, code, ctrl, alt), KeyAction::Forward);
        assert!(s.running);
    }
}

#[test]
fn stopped_reactor_stays_stopped() {
    let mut s = state();
    keyboard_key(&mut s, true, 24, true, true);
    assert_eq!(keyboard_key(&mut s, true, 38, false, false), KeyAction::Forward);
    assert!(!s.running);
}

#[test]
fn session_switch_suspends_and_resumes_input() {
    assert_eq!(session_action(SessionEvent::PauseSession), SessionAction::SuspendInput);
    assert_eq!(session_action(SessionEvent::ActivateSession), SessionAction::ResumeInput);
}

#[test]
fn hotplug_events_are_routed_by_registration() {
    let mut s = state();
    let other = DeviceNode { major: 226, minor: 1 };
    let done = vec![StepReport { ok: true, render_node: None }; 7];
    device_added(&mut s, gpu(), &done).unwrap();
    assert_eq!(route_hotplug(&s, HotplugEvent::Added(Some(other))), HotplugAction::SetUp(other));
    assert_eq!(route_hotplug(&s, HotplugEvent::Added(Some(gpu()))), HotplugAction::Scan(gpu()));
    assert_eq!(route_hotplug(&s, HotplugEvent::Changed(Some(gpu()))), HotplugAction::Scan(gpu()));
    assert_eq!(route_hotplug(&s, HotplugEvent::Changed(Some(other))), HotplugAction::Ignore);
    assert_eq!(
        route_hotplug(&s, HotplugEvent::Removed(Some(gpu()))),
        HotplugAction::TearDown(gpu())
    );
    assert_eq!(route_hotplug(&s, HotplugEvent::Removed(Some(other))), HotplugAction::Ignore);
    assert_eq!(route_hotplug(&s, HotplugEvent::Added(None)), HotplugAction::Ignore);
    assert_eq!(route_hotplug(&s, HotplugEvent::Changed(None)), HotplugAction::Ignore);
    assert_eq!(route_hotplug(&s, HotplugEvent::Removed(None)), HotplugAction::Ignore);
}

#[test]
fn reactor_runs_until_exit_or_time_limit() {
    assert_eq!(TICK_MS, 16);
    let mut s = state();
    assert_eq!(loop_verdict(&s, 0, None), LoopVerdict::Continue);
    assert_eq!(loop_verdict(&s, u64::MAX, None), LoopVerdict::Continue);
    assert_eq!(loop_verdict(&s, 10_000, Some(10_000)), LoopVerdict::Continue);
    assert_eq!(loop_verdict(&s, 10_001, Some(10_000)), LoopVerdict::TimedOut);
    keyboard_key(&mut s, true, 24, true, true);
    assert_eq!(loop_verdict(&s, 0, None), LoopVerdict::ExitRequested);
    assert_eq!(loop_verdict(&s, 10_001, Some(10_000)), LoopVerdict::ExitRequested);
}

#[test]
fn forced_device_path_decides_the_primary_gpu() {
    let forced = DeviceNode { major: 226, minor: 2 };
    let d = discovery(Some(Some(forced)), false, Some(gpu()), vec![Some(gpu())]);
    assert_eq!(select_primary_gpu(&d), Ok(forced));
    assert_eq!(forced_device_error(&d), None);
    let d = discovery(Some(Some(forced)), true, None, vec![]);
    assert_eq!(select_primary_gpu(&d), Ok(forced));
}

#[test]
fn forced_device_path_that_cannot_be_opened_is_passed_over() {
    let render = DeviceNode { major: 226, minor: 128 };
    let second = DeviceNode { major: 226, minor: 1 };
    let d = discovery(Some(None), true, Some(render), vec![Some(gpu())]);
    assert_eq!(forced_device_error(&d), Some(DeviceAddError::DeviceOpen));
    assert_eq!(select_primary_gpu(&d), Ok(render));
    let d = discovery(Some(None), true, None, vec![None, Some(second)]);
    assert_eq!(select_primary_gpu(&d), Ok(second));
    let d = discovery(Some(None), false, Some(render), vec![Some(gpu())]);
    assert_eq!(select_primary_gpu(&d), Ok(gpu()));
    let d = discovery(Some(None), true, None, vec![None]);
    assert_eq!(select_primary_gpu(&d), Err(StartupError::NoGpuFound));
    let d = discovery(None, true, Some(render), vec![]);
    assert_eq!(forced_device_error(&d), None);
}

#[test]
fn primary_gpu_prefers_the_render_node_of_the_seat_primary() {
    let render = DeviceNode { major: 226, minor: 128 };
    let d = discovery(None, true, Some(render), vec![Some(gpu())]);
    assert_eq!(select_primary_gpu(&d), Ok(render));
}

#[test]
fn primary_gpu_falls_back_to_the_first_gpu_that_resolves() {
    let second = DeviceNode { major: 226, minor: 1 };
    let d = discovery(None, true, None, vec![None, None, Some(second), Some(gpu())]);
    assert_eq!(select_primary_gpu(&d), Ok(second));
    let d = discovery(None, true, None, vec![Some(gpu()), Some(second)]);
    assert_eq!(select_primary_gpu(&d), Ok(gpu()));
}

#[test]
fn failed_primary_query_falls_back_to_the_listed_gpus() {
    let second = DeviceNode { major: 226, minor: 1 };
    let d = discovery(None, false, Some(gpu()), vec![None, Some(second)]);
    assert_eq!(select_primary_gpu(&d), Ok(second));
}

#[test]
fn startup_fails_without_a_primary_gpu() {
    let d = discovery(None, false, Some(gpu()), vec![]);
    assert_eq!(select_primary_gpu(&d), Err(StartupError::NoGpuFound));
    let d = discovery(None, true, None, vec![]);
    assert_eq!(select_primary_gpu(&d), Err(StartupError::NoGpuFound));
    let d = discovery(None, true, None, vec![None, None]);
    assert_eq!(select_primary_gpu(&d), Err(StartupError::NoGpuFound));
    assert!(matches!(init_drm(&d), Err(StartupError::NoGpuFound)));
}

#[test]
fn backend_starts_empty_and_running() {
    let d = discovery(None, true, Some(gpu()), vec![]);
    let s = match init_drm(&d) {
        Ok(s) => s,
        Err(error) => panic!("start-up failed: {:?}", error),
    };
    assert_eq!(s.udev_data.primary_gpu, gpu());
    assert!(s.udev_data.is_empty());
    assert!(s.space.is_empty());
    assert!(s.running);
}

#[test]
fn discovery_run_needs_a_device() {
    let d = discovery(None, true, Some(gpu()), vec![]);
    assert_eq!(discovery_check(&d, 0), Err(StartupError::NoUsableDevice));
    assert_eq!(discovery_check(&d, 1), Ok(gpu()));
    assert_eq!(discovery_check(&d, 3), Ok(gpu()));
    let d = discovery(None, true, None, vec![]);
    assert_eq!(discovery_check(&d, 2), Err(StartupError::NoGpuFound));
    assert_eq!(discovery_check(&d, 0), Err(StartupError::NoGpuFound));
}

#[test]
fn pointer_element_draws_once_its_image_is_cached() {
    let mut pointer: PointerElement<Vec<u8>> = PointerElement::new();
    assert!(pointer.needs_image());
    assert_eq!(pointer.element_count(), 0);
    pointer.set_buffer(vec![1, 2, 3, 4]);
    assert!(!pointer.needs_image());
    assert_eq!(pointer.element_count(), 1);
    assert_eq!(pointer.buffer, Some(vec![1, 2, 3, 4]));
    pointer.set_buffer(vec![9]);
    assert_eq!(pointer.buffer, Some(vec![9]));
    assert_eq!(pointer.element_count(), 1);
}
