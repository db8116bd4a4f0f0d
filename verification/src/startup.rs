//! Start-up: which GPU becomes the primary render GPU, and when the lack of
//! devices is fatal. A device that cannot be opened, forced or not, is
//! passed over; only the lack of any usable GPU stops the backend.

use crate::node::DeviceNode;
use crate::registry::{BackendModel, UdevData};
use crate::setup::DeviceAddError;
use crate::state::{DrmCompositorState, StateModel};
use vstd::prelude::*;

verus! {

/// Why the backend cannot start.
#[derive(Clone, Copy, Debug, PartialEq, Eq, Structural)]
pub enum StartupError {
    /// The seat has no GPU that resolves to a node.
    NoGpuFound,
    /// No DRM device is present, or none could be put into service.
    NoUsableDevice,
}

/// What was found out about the seat's GPUs before the backend starts.
pub struct GpuDiscovery {
    /// Set where a device path was forced: the node that the path resolves
    /// to, or `None` where it cannot be opened as a GPU node.
    pub forced: Option<Option<DeviceNode>>,
    /// Whether the query for the seat's primary GPU succeeded.
    pub primary_query_ok: bool,
    /// The render node of the seat's primary GPU, where it has one. Read
    /// only where the query succeeded.
    pub primary_render: Option<DeviceNode>,
    /// The seat's GPUs in the order they were listed, each with the node it
    /// resolves to, if any. Empty where the listing failed.
    pub candidates: Vec<Option<DeviceNode>>,
}

/// The first candidate that resolves to a node.
pub open spec fn first_resolved(candidates: Seq<Option<DeviceNode>>) -> Option<DeviceNode>
    decreases candidates.len(),
{
    if candidates.len() == 0 {
        None
    } else if candidates[0].is_some() {
        candidates[0]
    } else {
        first_resolved(candidates.drop_first())
    }
}

/// The primary render GPU that a discovery yields. A forced path that
/// resolves to a node decides alone. One that resolves to none is passed
/// over, and so is a query for the seat's primary GPU that failed: then, as
/// without a forced path, the render node of the seat's primary GPU is
/// taken, and where there is none, the first listed GPU that resolves. Only
/// the lack of any such GPU is an error.
pub open spec fn primary_of(discovery: GpuDiscovery) -> Result<DeviceNode, StartupError> {
    match discovery.forced {
        Some(Some(node)) => Ok(node),
        _ => if discovery.primary_query_ok && discovery.primary_render.is_some() {
            Ok(discovery.primary_render.unwrap())
        } else {
            match first_resolved(discovery.candidates@) {
                Some(node) => Ok(node),
                None => Err(StartupError::NoGpuFound),
            }
        },
    }
}

/// The error that a forced device is passed over with: its path could not
/// be opened as a GPU node. `None` where no path was forced or the forced
/// path resolves.
pub open spec fn forced_error_of(discovery: GpuDiscovery) -> Option<DeviceAddError> {
    if discovery.forced == Some(None::<DeviceNode>) {
        Some(DeviceAddError::DeviceOpen)
    } else {
        None
    }
}

fn find_resolved(candidates: &Vec<Option<DeviceNode>>) -> (found: Option<DeviceNode>)
    ensures
        found == first_resolved(candidates@),
{
    let mut i: usize = 0;
    assert(candidates@.skip(0) =~= candidates@);
    while i < candidates.len()
        invariant
            0 <= i <= candidates@.len(),
            first_resolved(candidates@) == first_resolved(candidates@.skip(i as int)),
        decreases candidates@.len() - i,
    {
        let rest = Ghost(candidates@.skip(i as int));
        assert(rest@[0] == candidates@[i as int]);
        assert(rest@.drop_first() =~= candidates@.skip(i + 1));
        match candidates[i] {
            Some(node) => {
                return Some(node);
            },
            None => {},
        }
        i += 1;
    }
    assert(candidates@.skip(i as int).len() == 0);
    None
}

/// A forced device that cannot be opened does not stop the start-up: the
/// primary GPU is picked as if no path had been forced, the device is passed
/// over with a device-open error, and the only failure left is that the seat
/// has no GPU at all.
pub proof fn lemma_unopened_forced_device_is_passed_over(discovery: GpuDiscovery)
    requires
        discovery.forced == Some(None::<DeviceNode>),
    ensures
        primary_of(discovery) == primary_of(GpuDiscovery { forced: None, ..discovery }),
        forced_error_of(discovery) == Some(DeviceAddError::DeviceOpen),
        primary_of(discovery) matches Err(reason) ==> reason == StartupError::NoGpuFound,
        primary_of(discovery).is_err() <==> {
            &&& first_resolved(discovery.candidates@).is_none()
            &&& !(discovery.primary_query_ok && discovery.primary_render.is_some())
        },
{
}

/// Says whether the forced device has to be passed over, and with which
/// error: a forced path that resolves to no node counts as a device that
/// could not be opened. Start-up goes on without it.
pub fn forced_device_error(discovery: &GpuDiscovery) -> (skipped: Option<DeviceAddError>)
    ensures
        skipped == forced_error_of(*discovery),
{
    match discovery.forced {
        Some(None) => Some(DeviceAddError::DeviceOpen),
        _ => None,
    }
}

/// Picks the primary render GPU. It fails exactly when no forced path
/// resolves, the seat's primary GPU has no render node to offer and none of
/// the listed GPUs resolves.
pub fn select_primary_gpu(discovery: &GpuDiscovery) -> (chosen: Result<DeviceNode, StartupError>)
    ensures
        chosen == primary_of(*discovery),
{
    if let Some(Some(node)) = discovery.forced {
        return Ok(node);
    }
    if discovery.primary_query_ok {
        if let Some(node) = discovery.primary_render {
            return Ok(node);
        }
    }
    match find_resolved(&discovery.candidates) {
        Some(node) => Ok(node),
        None => Err(StartupError::NoGpuFound),
    }
}

/// The state in which the backend starts for a primary GPU: nothing in
/// service, nothing mapped, the reactor set to run.
pub open spec fn initial_state(primary_gpu: DeviceNode) -> StateModel {
    StateModel {
        space: Seq::empty(),
        devices: Map::<DeviceNode, BackendModel>::empty(),
        primary_gpu,
        running: true,
    }
}

/// The state in which the backend starts is in order.
pub proof fn lemma_initial_state_in_order(primary_gpu: DeviceNode)
    ensures
        initial_state(primary_gpu).wf(),
{
}

/// Initialises the DRM backend from what was discovered about the seat's
/// GPUs: picks the primary render GPU and sets up empty bookkeeping around
/// it, which is in order. Fails exactly when no primary GPU can be picked.
pub fn init_drm(discovery: &GpuDiscovery) -> (result: Result<DrmCompositorState, StartupError>)
    ensures
        match primary_of(*discovery) {
            Ok(node) => result matches Ok(state) && state@ == initial_state(node) && state@.wf(),
            Err(error) => result matches Err(reason) && reason == error,
        },
{
    match select_primary_gpu(discovery) {
        Ok(node) => Ok(DrmCompositorState::new(UdevData::new(node))),
        Err(error) => Err(error),
    }
}

/// Checks, once the devices present at start-up have been gone through, that
/// the backend can run: it cannot exactly when no device is in service.
pub fn check_devices(state: &DrmCompositorState) -> (result: Result<(), StartupError>)
    ensures
        result == (if state@.devices == Map::<DeviceNode, BackendModel>::empty() {
            Err::<(), StartupError>(StartupError::NoUsableDevice)
        } else {
            Ok::<(), StartupError>(())
        }),
{
    if state.udev_data.is_empty() {
        Err(StartupError::NoUsableDevice)
    } else {
        Ok(())
    }
}

/// The verdict of a discovery-only run: the primary GPU that would be used,
/// or why the backend could not start. Without any DRM device present the
/// run fails even where a primary GPU can be picked.
pub fn discovery_check(discovery: &GpuDiscovery, device_count: usize) -> (result: Result<
    DeviceNode,
    StartupError,
>)
    ensures
        result == (match primary_of(*discovery) {
            Ok(node) => if device_count == 0 {
                Err::<DeviceNode, StartupError>(StartupError::NoUsableDevice)
            } else {
                Ok::<DeviceNode, StartupError>(node)
            },
            Err(error) => Err::<DeviceNode, StartupError>(error),
        }),
{
    match select_primary_gpu(discovery) {
        Ok(node) => {
            if device_count == 0 {
                Err(StartupError::NoUsableDevice)
            } else {
                Ok(node)
            }
        },
        Err(error) => Err(error),
    }
}

} // verus!
