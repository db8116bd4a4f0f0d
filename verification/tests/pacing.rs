use nuthatch::mode::Mode;
use nuthatch::node::DeviceNode;
use nuthatch::output::{Output, Subpixel};
use nuthatch::surface::{
    Phase, Rejection, RenderAction, RenderOutcome, Surface, SurfaceEvent,
};

fn mode() -> Mode {
    Mode { width: 1920, height: 1080, refresh: 60_000, type_bits: 0x40 }
}

fn render_node() -> DeviceNode {
    DeviceNode { major: 226, minor: 128 }
}

fn surface() -> Surface {
    let output = Output {
        name: String::from("HDMI-A-1"),
        physical_size: (600, 340),
        subpixel: Subpixel::Unknown,
        mode: mode(),
        x: 0,
        y: 0,
    };
    Surface::new(50, 31, render_node(), mode(), output)
}

fn draw(frame: u64) -> RenderAction {
    RenderAction::Draw { render_node: render_node(), frame }
}

#[test]
fn new_surface_is_configured_with_no_frame_counted() {
    let s = surface();
    assert_eq!(s.phase, Phase::Configured);
    assert_eq!(s.frames, 0);
    assert_eq!(s.crtc, 50);
    assert_eq!(s.connector, 31);
}

#[test]
fn first_render_request_asks_for_initialisation() {
    let mut s = surface();
    let action = s.on_event(SurfaceEvent::RenderRequest);
    assert_eq!(action, RenderAction::Initialize { crtc: 50, connector: 31, mode: mode() });
    assert_eq!(s.phase, Phase::Configured);
}

#[test]
fn failed_initialisation_leaves_the_surface_configured() {
    let mut s = surface();
    assert_eq!(
        s.on_event(SurfaceEvent::Initialized(false)),
        RenderAction::Rejected(Rejection::InitFailed)
    );
    assert_eq!(s.phase, Phase::Configured);
    assert_eq!(
        s.on_event(SurfaceEvent::RenderRequest),
        RenderAction::Initialize { crtc: 50, connector: 31, mode: mode() }
    );
    assert_eq!(s.on_event(SurfaceEvent::Initialized(true)), draw(1));
    assert_eq!(s.phase, Phase::Rendering);
}

#[test]
fn frame_counter_grows_by_one_per_completed_render() {
    let mut s = surface();
    assert_eq!(s.on_event(SurfaceEvent::Initialized(true)), draw(1));
    assert_eq!(s.frames, 0);
    assert_eq!(s.on_event(SurfaceEvent::Finished(RenderOutcome::Queued)), RenderAction::Wait);
    assert_eq!(s.frames, 1);
    for n in 2..=100u64 {
        assert_eq!(s.on_event(SurfaceEvent::VBlank), draw(n));
        assert_eq!(s.frames, n - 1);
        assert_eq!(s.on_event(SurfaceEvent::Finished(RenderOutcome::Queued)), RenderAction::Wait);
        assert_eq!(s.frames, n);
    }
}

#[test]
fn failed_render_counts_no_frame() {
    let mut s = surface();
    s.on_event(SurfaceEvent::Initialized(true));
    assert_eq!(
        s.on_event(SurfaceEvent::Finished(RenderOutcome::RenderFailed)),
        RenderAction::Stalled
    );
    assert_eq!(s.frames, 0);
    assert_eq!(s.phase, Phase::Idle);
    assert_eq!(s.on_event(SurfaceEvent::RenderRequest), draw(1));
}

#[test]
fn failed_queue_counts_the_frame_and_leaves_nothing_in_flight() {
    let mut s = surface();
    s.on_event(SurfaceEvent::Initialized(true));
    assert_eq!(
        s.on_event(SurfaceEvent::Finished(RenderOutcome::QueueFailed)),
        RenderAction::Stalled
    );
    assert_eq!(s.frames, 1);
    assert_eq!(s.phase, Phase::Idle);
    assert_eq!(s.on_event(SurfaceEvent::RenderRequest), draw(2));
}

#[test]
fn render_request_is_rejected_while_a_frame_is_in_flight() {
    let mut s = surface();
    s.on_event(SurfaceEvent::Initialized(true));
    s.on_event(SurfaceEvent::Finished(RenderOutcome::Queued));
    assert_eq!(s.phase, Phase::InFlight);
    for _ in 0..3 {
        assert_eq!(
            s.on_event(SurfaceEvent::RenderRequest),
            RenderAction::Rejected(Rejection::Busy)
        );
        assert_eq!(s.phase, Phase::InFlight);
        assert_eq!(s.frames, 1);
    }
    assert_eq!(
        s.on_event(SurfaceEvent::Finished(RenderOutcome::Queued)),
        RenderAction::Rejected(Rejection::OutOfTurn)
    );
    assert_eq!(
        s.on_event(SurfaceEvent::Initialized(true)),
        RenderAction::Rejected(Rejection::OutOfTurn)
    );
    assert_eq!(s.phase, Phase::InFlight);
    assert_eq!(s.frames, 1);
    assert_eq!(s.on_event(SurfaceEvent::VBlank), draw(2));
}

#[test]
fn render_request_is_rejected_while_a_render_is_under_way() {
    let mut s = surface();
    s.on_event(SurfaceEvent::Initialized(true));
    assert_eq!(s.phase, Phase::Rendering);
    assert_eq!(s.on_event(SurfaceEvent::RenderRequest), RenderAction::Rejected(Rejection::Busy));
    assert_eq!(s.on_event(SurfaceEvent::VBlank), RenderAction::Rejected(Rejection::Busy));
    assert_eq!(s.phase, Phase::Rendering);
}

#[test]
fn report_without_a_render_is_out_of_turn() {
    let mut s = surface();
    assert_eq!(
        s.on_event(SurfaceEvent::Finished(RenderOutcome::Queued)),
        RenderAction::Rejected(Rejection::OutOfTurn)
    );
    assert_eq!(s.phase, Phase::Configured);
    assert_eq!(s.frames, 0);
}

#[test]
fn vblank_on_a_configured_surface_asks_for_initialisation() {
    let mut s = surface();
    assert_eq!(
        s.on_event(SurfaceEvent::VBlank),
        RenderAction::Initialize { crtc: 50, connector: 31, mode: mode() }
    );
}

#[test]
fn exhausted_frame_counter_stops_the_surface() {
    let mut s = surface();
    s.phase = Phase::Idle;
    s.frames = u64::MAX - 1;
    assert_eq!(s.on_event(SurfaceEvent::RenderRequest), draw(u64::MAX));
    assert_eq!(s.on_event(SurfaceEvent::Finished(RenderOutcome::Queued)), RenderAction::Wait);
    assert_eq!(s.frames, u64::MAX);
    assert_eq!(
        s.on_event(SurfaceEvent::VBlank),
        RenderAction::Rejected(Rejection::CounterExhausted)
    );
    assert_eq!(s.phase, Phase::Idle);
    assert_eq!(s.frames, u64::MAX);
}
