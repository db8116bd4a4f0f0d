//! The steps that bring a GPU into service, in their order, and what the
//! failure of each one means.

use crate::node::DeviceNode;
use vstd::prelude::*;

verus! {

/// Why a device could not be brought into service.
#[derive(Clone, Copy, Debug, PartialEq, Eq, Structural)]
pub enum DeviceAddError {
    /// The device file could not be opened through the session.
    DeviceOpen,
    /// The mode-setting device could not be created.
    DrmDevice,
    /// The buffer-allocation device could not be created.
    GbmDevice,
    /// The render node could not be added to the acceleration pool.
    AddNode,
    /// The device's event source could not be registered with the reactor.
    EventLoop,
}

/// One step of bringing a device into service.
#[derive(Clone, Copy, Debug, PartialEq, Eq, Structural)]
pub enum SetupStage {
    /// Open the device file: read-write, non-blocking, close-on-exec.
    Open,
    /// Create the mode-setting device and its event notifier.
    ModeSetting,
    /// Register the notifier with the reactor.
    EventSource,
    /// Create the buffer-allocation device on the same handle.
    Allocator,
    /// Initialise the acceleration context and ask it for its render node.
    Acceleration,
    /// Add the render node to the acceleration pool.
    RenderPool,
    /// Build allocator, framebuffer exporter and presentation manager.
    Presentation,
}

/// How one step went. `render_node` is read after the acceleration step only:
/// the render-only node that the context reports, if it has one.
#[derive(Clone, Copy, Debug, PartialEq, Eq, Structural)]
pub struct StepReport {
    pub ok: bool,
    pub render_node: Option<DeviceNode>,
}

/// What follows a step.
#[derive(Clone, Copy, Debug, PartialEq, Eq, Structural)]
pub enum StepVerdict {
    /// Go on with this step.
    Next(SetupStage),
    /// Every step is done: the device can be registered.
    Complete,
    /// Give the device up with this error.
    Abort(DeviceAddError),
}

/// Number of steps.
pub const STAGE_COUNT: usize = 7;

/// The step at a position in the order of steps.
pub open spec fn stage_at(i: int) -> SetupStage {
    if i <= 0 {
        SetupStage::Open
    } else if i == 1 {
        SetupStage::ModeSetting
    } else if i == 2 {
        SetupStage::EventSource
    } else if i == 3 {
        SetupStage::Allocator
    } else if i == 4 {
        SetupStage::Acceleration
    } else if i == 5 {
        SetupStage::RenderPool
    } else {
        SetupStage::Presentation
    }
}

/// The position of a step in the order of steps.
pub open spec fn stage_index(stage: SetupStage) -> int {
    match stage {
        SetupStage::Open => 0,
        SetupStage::ModeSetting => 1,
        SetupStage::EventSource => 2,
        SetupStage::Allocator => 3,
        SetupStage::Acceleration => 4,
        SetupStage::RenderPool => 5,
        SetupStage::Presentation => 6,
    }
}

/// The error that the failure of a step is reported as.
pub open spec fn stage_error(stage: SetupStage) -> DeviceAddError {
    match stage {
        SetupStage::Open => DeviceAddError::DeviceOpen,
        SetupStage::ModeSetting => DeviceAddError::DrmDevice,
        SetupStage::EventSource => DeviceAddError::EventLoop,
        SetupStage::Allocator => DeviceAddError::GbmDevice,
        SetupStage::Acceleration => DeviceAddError::AddNode,
        SetupStage::RenderPool => DeviceAddError::AddNode,
        SetupStage::Presentation => DeviceAddError::AddNode,
    }
}

/// What follows a step that went as reported.
pub open spec fn verdict(stage: SetupStage, ok: bool) -> StepVerdict {
    if !ok {
        StepVerdict::Abort(stage_error(stage))
    } else if stage == SetupStage::Presentation {
        StepVerdict::Complete
    } else {
        StepVerdict::Next(stage_at(stage_index(stage) + 1))
    }
}

/// Whether the first `n` steps are all reported, and reported as done.
pub open spec fn all_ok(reports: Seq<StepReport>, n: int) -> bool {
    forall|i: int| 0 <= i < n ==> i < reports.len() && (#[trigger] reports[i]).ok
}

/// Whether step `i` is the first that is not reported as done. A step without
/// a report counts as not done.
pub open spec fn first_failure(reports: Seq<StepReport>, i: int) -> bool {
    &&& 0 <= i < STAGE_COUNT
    &&& all_ok(reports, i)
    &&& (i >= reports.len() || !reports[i].ok)
}

/// The node to draw on: the render-only node that the acceleration context
/// reported, or the device's own node where it reported none.
pub open spec fn render_node_of(node: DeviceNode, reported: Option<DeviceNode>) -> DeviceNode {
    match reported {
        Some(render) => render,
        None => node,
    }
}

/// The first step.
pub fn first_stage() -> (stage: SetupStage)
    ensures
        stage == stage_at(0),
{
    SetupStage::Open
}

/// The error that the failure of a step is reported as.
pub fn error_for(stage: SetupStage) -> (error: DeviceAddError)
    ensures
        error == stage_error(stage),
{
    match stage {
        SetupStage::Open => DeviceAddError::DeviceOpen,
        SetupStage::ModeSetting => DeviceAddError::DrmDevice,
        SetupStage::EventSource => DeviceAddError::EventLoop,
        SetupStage::Allocator => DeviceAddError::GbmDevice,
        SetupStage::Acceleration => DeviceAddError::AddNode,
        SetupStage::RenderPool => DeviceAddError::AddNode,
        SetupStage::Presentation => DeviceAddError::AddNode,
    }
}

/// Decides what follows a step: the next step in order after a success, the
/// step's error after a failure, completion after the last step.
pub fn after_step(stage: SetupStage, ok: bool) -> (next: StepVerdict)
    ensures
        next == verdict(stage, ok),
{
    if !ok {
        return StepVerdict::Abort(error_for(stage));
    }
    match stage {
        SetupStage::Open => StepVerdict::Next(SetupStage::ModeSetting),
        SetupStage::ModeSetting => StepVerdict::Next(SetupStage::EventSource),
        SetupStage::EventSource => StepVerdict::Next(SetupStage::Allocator),
        SetupStage::Allocator => StepVerdict::Next(SetupStage::Acceleration),
        SetupStage::Acceleration => StepVerdict::Next(SetupStage::RenderPool),
        SetupStage::RenderPool => StepVerdict::Next(SetupStage::Presentation),
        SetupStage::Presentation => StepVerdict::Complete,
    }
}

/// Picks the node to draw on.
pub fn resolve_render_node(node: DeviceNode, reported: Option<DeviceNode>) -> (render: DeviceNode)
    ensures
        render == render_node_of(node, reported),
{
    match reported {
        Some(render) => render,
        None => node,
    }
}

/// Goes through the reports of a device's steps in order and finds the
/// first step that is not reported as done; `None` when all seven are.
pub fn failed_stage(reports: &Vec<StepReport>) -> (failed: Option<SetupStage>)
    ensures
        failed.is_none() <==> all_ok(reports@, STAGE_COUNT as int),
        forall|i: int| first_failure(reports@, i) ==> failed == Some(stage_at(i)),
        failed.is_some() ==> exists|i: int| first_failure(reports@, i),
{
    let mut stage = first_stage();
    let mut i: usize = 0;
    loop
        invariant
            0 <= i < STAGE_COUNT,
            stage == stage_at(i as int),
            all_ok(reports@, i as int),
        decreases STAGE_COUNT - i,
    {
        let ok = i < reports.len() && reports[i].ok;
        match after_step(stage, ok) {
            StepVerdict::Next(next) => {
                stage = next;
                i += 1;
            },
            StepVerdict::Complete => {
                assert(all_ok(reports@, STAGE_COUNT as int));
                assert forall|k: int| first_failure(reports@, k) implies false by {
                    assert(reports@[k].ok);
                }
                return None;
            },
            StepVerdict::Abort(_) => {
                assert(first_failure(reports@, i as int));
                assert(!all_ok(reports@, STAGE_COUNT as int)) by {
                    if all_ok(reports@, STAGE_COUNT as int) {
                        assert(reports@[i as int].ok);
                    }
                }
                assert forall|k: int| first_failure(reports@, k) implies k == i by {
                    if k < i {
                        assert(reports@[k].ok);
                    }
                    if i < k {
                        assert(reports@[i as int].ok);
                    }
                }
                return Some(stage);
            },
        }
    }
}

/// Judges a device's set-up by the reports of its steps. The result is the
/// render node when all seven steps are reported as done, and else the error
/// of the first step that is not.
pub fn setup_outcome(node: DeviceNode, reports: &Vec<StepReport>) -> (result: Result<
    DeviceNode,
    DeviceAddError,
>)
    ensures
        result.is_ok() <==> all_ok(reports@, STAGE_COUNT as int),
        result.is_ok() ==> result.unwrap() == render_node_of(node, reports@[4].render_node),
        forall|i: int|
            first_failure(reports@, i) ==> result == Err::<DeviceNode, DeviceAddError>(
                stage_error(stage_at(i)),
            ),
        result.is_err() ==> exists|i: int| first_failure(reports@, i),
{
    match failed_stage(reports) {
        Some(stage) => Err(error_for(stage)),
        None => {
            assert(reports@[4].ok);
            Ok(resolve_render_node(node, reports[4].render_node))
        },
    }
}

/// What a set-up has registered outside the device's own values.
#[derive(Clone, Copy, Debug, PartialEq, Eq, Structural)]
pub struct Rollback {
    /// The device's event source is registered with the reactor.
    pub event_source: bool,
    /// The device's render node is in the acceleration pool.
    pub pool_node: bool,
}

/// What a single step leaves registered when it is done. Every other step
/// yields values that go away with the set-up itself.
pub open spec fn registers(stage: SetupStage) -> Rollback {
    Rollback {
        event_source: stage == SetupStage::EventSource,
        pool_node: stage == SetupStage::RenderPool,
    }
}

/// What the first `n` steps have left registered between them.
pub open spec fn registered_by(n: int) -> Rollback
    decreases n,
{
    if n <= 0 {
        Rollback { event_source: false, pool_node: false }
    } else {
        Rollback {
            event_source: registered_by(n - 1).event_source || registers(
                stage_at(n - 1),
            ).event_source,
            pool_node: registered_by(n - 1).pool_node || registers(stage_at(n - 1)).pool_node,
        }
    }
}

/// What has to be taken back when a step fails: the event source when the
/// step comes after its registration, the render node in the pool when the
/// step comes after the node was added.
pub open spec fn rollback_of(failed: SetupStage) -> Rollback {
    Rollback {
        event_source: stage_index(failed) > stage_index(SetupStage::EventSource),
        pool_node: stage_index(failed) > stage_index(SetupStage::RenderPool),
    }
}

/// Says what has to be taken back after a step has failed, so that nothing
/// of the device stays registered.
pub fn rollback_for(failed: SetupStage) -> (undo: Rollback)
    ensures
        undo == rollback_of(failed),
{
    match failed {
        SetupStage::Open => Rollback { event_source: false, pool_node: false },
        SetupStage::ModeSetting => Rollback { event_source: false, pool_node: false },
        SetupStage::EventSource => Rollback { event_source: false, pool_node: false },
        SetupStage::Allocator => Rollback { event_source: true, pool_node: false },
        SetupStage::Acceleration => Rollback { event_source: true, pool_node: false },
        SetupStage::RenderPool => Rollback { event_source: true, pool_node: false },
        SetupStage::Presentation => Rollback { event_source: true, pool_node: true },
    }
}

/// Says what has to be taken back after a set-up with the given reports:
/// nothing when every step is done, and else what the steps before the first
/// one that is not done have registered.
pub fn setup_rollback(reports: &Vec<StepReport>) -> (undo: Rollback)
    ensures
        all_ok(reports@, STAGE_COUNT as int) ==> undo == (Rollback {
            event_source: false,
            pool_node: false,
        }),
        forall|i: int| first_failure(reports@, i) ==> undo == rollback_of(stage_at(i)),
{
    match failed_stage(reports) {
        Some(stage) => rollback_for(stage),
        None => Rollback { event_source: false, pool_node: false },
    }
}

/// A failed set-up is taken back whole: what is to be undone after a step
/// has failed is exactly what the steps before it have registered.
pub proof fn lemma_rollback_is_complete(failed: SetupStage)
    ensures
        rollback_of(failed) == registered_by(stage_index(failed)),
{
    reveal_with_fuel(registered_by, 8);
}

} // verus!
