use nuthatch::node::DeviceNode;
use nuthatch::setup::{
    after_step, error_for, failed_stage, first_stage, resolve_render_node, rollback_for,
    setup_outcome, setup_rollback, DeviceAddError, Rollback, SetupStage, StepReport, StepVerdict,
    STAGE_COUNT,
};

fn node() -> DeviceNode {
    DeviceNode { major: 226, minor: 0 }
}

fn reports(failing: Option<usize>) -> Vec<StepReport> {
    let mut reports = vec![StepReport { ok: true, render_node: None }; 7];
    if let Some(i) = failing {
        reports[i].ok = false;
    }
    reports
}

#[test]
fn steps_follow_each_other_in_order() {
    assert_eq!(STAGE_COUNT, 7);
    let order = vec![
        SetupStage::Open,
        SetupStage::ModeSetting,
        SetupStage::EventSource,
        SetupStage::Allocator,
        SetupStage::Acceleration,
        SetupStage::RenderPool,
        SetupStage::Presentation,
    ];
    assert_eq!(first_stage(), order[0]);
    for i in 0..6 {
        assert_eq!(after_step(order[i], true), StepVerdict::Next(order[i + 1]));
    }
    assert_eq!(after_step(SetupStage::Presentation, true), StepVerdict::Complete);
}

#[test]
fn each_failing_step_has_its_error() {
    let expected = vec![
        (SetupStage::Open, DeviceAddError::DeviceOpen),
        (SetupStage::ModeSetting, DeviceAddError::DrmDevice),
        (SetupStage::EventSource, DeviceAddError::EventLoop),
        (SetupStage::Allocator, DeviceAddError::GbmDevice),
        (SetupStage::Acceleration, DeviceAddError::AddNode),
        (SetupStage::RenderPool, DeviceAddError::AddNode),
        (SetupStage::Presentation, DeviceAddError::AddNode),
    ];
    for (i, (stage, error)) in expected.into_iter().enumerate() {
        assert_eq!(error_for(stage), error);
        assert_eq!(after_step(stage, false), StepVerdict::Abort(error));
        assert_eq!(setup_outcome(node(), &reports(Some(i))), Err(error));
    }
}

#[test]
fn first_failure_decides_the_error() {
    let mut r = reports(Some(3));
    r[1].ok = false;
    r[6].ok = false;
    assert_eq!(setup_outcome(node(), &r), Err(DeviceAddError::DrmDevice));
}

#[test]
fn missing_report_counts_as_failure_of_its_step() {
    assert_eq!(setup_outcome(node(), &vec![]), Err(DeviceAddError::DeviceOpen));
    let mut r = reports(None);
    r.truncate(3);
    assert_eq!(setup_outcome(node(), &r), Err(DeviceAddError::GbmDevice));
    let mut r = reports(None);
    r.truncate(6);
    assert_eq!(setup_outcome(node(), &r), Err(DeviceAddError::AddNode));
}

#[test]
fn complete_setup_yields_the_render_node() {
    assert_eq!(setup_outcome(node(), &reports(None)), Ok(node()));
    let render = DeviceNode { major: 226, minor: 128 };
    let mut r = reports(None);
    r[4].render_node = Some(render);
    assert_eq!(setup_outcome(node(), &r), Ok(render));
    r[2].render_node = Some(DeviceNode { major: 1, minor: 2 });
    r.push(StepReport { ok: false, render_node: None });
    assert_eq!(setup_outcome(node(), &r), Ok(render));
}

#[test]
fn render_node_falls_back_to_the_device_itself() {
    let render = DeviceNode { major: 226, minor: 128 };
    assert_eq!(resolve_render_node(node(), Some(render)), render);
    assert_eq!(resolve_render_node(node(), None), node());
}

#[test]
fn failed_step_is_found_in_order() {
    assert_eq!(failed_stage(&reports(None)), None);
    assert_eq!(failed_stage(&reports(Some(0))), Some(SetupStage::Open));
    assert_eq!(failed_stage(&reports(Some(5))), Some(SetupStage::RenderPool));
    assert_eq!(failed_stage(&vec![]), Some(SetupStage::Open));
    let mut r = reports(Some(6));
    r[3].ok = false;
    assert_eq!(failed_stage(&r), Some(SetupStage::Allocator));
}

#[test]
fn rollback_takes_back_what_earlier_steps_registered() {
    let nothing = Rollback { event_source: false, pool_node: false };
    let source = Rollback { event_source: true, pool_node: false };
    let both = Rollback { event_source: true, pool_node: true };
    assert_eq!(rollback_for(SetupStage::Open), nothing);
    assert_eq!(rollback_for(SetupStage::ModeSetting), nothing);
    assert_eq!(rollback_for(SetupStage::EventSource), nothing);
    assert_eq!(rollback_for(SetupStage::Allocator), source);
    assert_eq!(rollback_for(SetupStage::Acceleration), source);
    assert_eq!(rollback_for(SetupStage::RenderPool), source);
    assert_eq!(rollback_for(SetupStage::Presentation), both);
}

#[test]
fn rollback_follows_the_first_failed_step() {
    let nothing = Rollback { event_source: false, pool_node: false };
    assert_eq!(setup_rollback(&reports(None)), nothing);
    assert_eq!(setup_rollback(&reports(Some(2))), nothing);
    assert_eq!(setup_rollback(&vec![]), nothing);
    assert_eq!(
        setup_rollback(&reports(Some(4))),
        Rollback { event_source: true, pool_node: false }
    );
    assert_eq!(
        setup_rollback(&reports(Some(6))),
        Rollback { event_source: true, pool_node: true }
    );
    let mut r = reports(None);
    r.truncate(6);
    assert_eq!(setup_rollback(&r), Rollback { event_source: true, pool_node: true });
}
