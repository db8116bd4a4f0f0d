//! Device and connector hot-plug: bringing GPUs into and out of service,
//! scanning their connectors, and configuring an output for each connector
//! that gets a CRTC.

use crate::connector::{Connection, ConnectorInfo};
use crate::node::DeviceNode;
use crate::order::{lemma_add_keeps_order, lemma_remove_keeps_order, lemma_scan_keeps_order};
use crate::registry::{fresh_backend, BackendData, BackendModel};
use crate::scanner::{consistent, lemma_scan_idempotent, positions, seen_after, Change};
use crate::setup::{
    all_ok, first_failure, render_node_of, setup_outcome, stage_at, stage_error, DeviceAddError,
    StepReport, STAGE_COUNT,
};
use crate::state::{unmapped, without_outputs, DrmCompositorState, StateModel};
use vstd::prelude::*;

verus! {

/// How a device-add request ended for a device whose steps all succeeded or
/// that was in service already.
#[derive(Clone, Copy, Debug, PartialEq, Eq, Structural)]
pub enum Registration {
    /// The device has been put into service; its connectors are to be scanned.
    Registered,
    /// The device was in service already and was left as it is; its
    /// connectors are to be scanned again.
    AlreadyRegistered,
}

/// Puts a device into service after its set-up steps have been carried out.
///
/// A device is registered whole or not at all: where every step is reported
/// as done it gets a fresh entry with its render node, and where one is not,
/// the state stays as it was and the first such step's error is returned;
/// what the steps before it have registered elsewhere is named by
/// `setup_rollback` and is to be taken back. A device that is in service
/// already is left untouched.
pub fn device_added(
    state: &mut DrmCompositorState,
    node: DeviceNode,
    reports: &Vec<StepReport>,
) -> (result: Result<Registration, DeviceAddError>)
    ensures
        old(state)@.devices.contains_key(node) ==> {
            &&& result == Ok::<Registration, DeviceAddError>(Registration::AlreadyRegistered)
            &&& final(state)@ == old(state)@
        },
        !old(state)@.devices.contains_key(node) && all_ok(reports@, STAGE_COUNT as int) ==> {
            &&& result == Ok::<Registration, DeviceAddError>(Registration::Registered)
            &&& final(state)@ == (StateModel {
                devices: old(state)@.devices.insert(
                    node,
                    fresh_backend(render_node_of(node, reports@[4].render_node)),
                ),
                ..old(state)@
            })
        },
        !old(state)@.devices.contains_key(node) && !all_ok(reports@, STAGE_COUNT as int) ==> {
            &&& result.is_err()
            &&& final(state)@ == old(state)@
            &&& exists|i: int| first_failure(reports@, i)
            &&& forall|i: int|
                first_failure(reports@, i) ==> result == Err::<Registration, DeviceAddError>(
                    stage_error(stage_at(i)),
                )
        },
        old(state)@.wf() ==> final(state)@.wf(),
{
    if state.udev_data.contains(node) {
        return Ok(Registration::AlreadyRegistered);
    }
    match setup_outcome(node, reports) {
        Ok(render_node) => {
            state.udev_data.put(node, BackendData::new(render_node));
            proof {
                if old(state)@.wf() {
                    lemma_add_keeps_order(old(state)@, node, fresh_backend(render_node));
                }
            }
            Ok(Registration::Registered)
        },
        Err(error) => Err(error),
    }
}

/// Takes a device out of service: its entry and with it all its surfaces are
/// dropped, and its outputs leave the display space. Returns the render node
/// that is to be dropped from the acceleration pool, or `None` where the
/// device was not in service.
pub fn device_removed(state: &mut DrmCompositorState, node: DeviceNode) -> (render_node: Option<
    DeviceNode,
>)
    ensures
        final(state)@ == (StateModel {
            devices: old(state)@.devices.remove(node),
            space: unmapped(old(state)@.space, node, None),
            ..old(state)@
        }),
        render_node == (if old(state)@.devices.contains_key(node) {
            Some(old(state)@.devices[node].render_node)
        } else {
            None
        }),
        old(state)@.wf() ==> final(state)@.wf(),
{
    proof {
        if old(state)@.wf() {
            lemma_remove_keeps_order(old(state)@, node);
        }
    }
    let taken = state.udev_data.take(node);
    state.space = without_outputs(&state.space, node, None);
    match taken {
        Some(device) => Some(device.render_node),
        None => None,
    }
}

/// A connector event that names a CRTC.
#[derive(Clone, Copy, Debug, PartialEq, Eq, Structural)]
pub struct ScanEvent {
    /// `Plugged` or `Unplugged`.
    pub change: Change,
    /// Position of the connector in the enumeration that was scanned.
    pub position: usize,
    /// The CRTC that drove the connector, for one that was unplugged; the
    /// CRTC assigned to it, for one that was plugged.
    pub crtc: u32,
}

/// The CRTC that an event for a connector names: a connector that was
/// unplugged is reported with the CRTC it had, every other with the CRTC it
/// has now.
pub open spec fn reported_crtc(connector: ConnectorInfo, which: Change) -> Option<u32> {
    if which == Change::Unplugged {
        connector.crtc_before
    } else {
        connector.crtc_after
    }
}

/// The events for the connectors at the given positions, without those that
/// have no CRTC to name.
pub open spec fn assigned_events(probes: Seq<ConnectorInfo>, at: Seq<usize>, which: Change) -> Seq<
    ScanEvent,
>
    decreases at.len(),
{
    if at.len() == 0 {
        Seq::empty()
    } else {
        let rest = assigned_events(probes, at.drop_last(), which);
        match reported_crtc(probes[at.last() as int], which) {
            Some(crtc) => rest.push(ScanEvent { change: which, position: at.last(), crtc }),
            None => rest,
        }
    }
}

/// The events that a scan yields: the unplugged connectors first, then the
/// plugged ones, each group in the order of the enumeration.
pub open spec fn scan_events(seen: Map<u32, Connection>, probes: Seq<ConnectorInfo>) -> Seq<
    ScanEvent,
> {
    assigned_events(
        probes,
        positions(seen, probes, Change::Unplugged, probes.len() as int),
        Change::Unplugged,
    ) + assigned_events(
        probes,
        positions(seen, probes, Change::Plugged, probes.len() as int),
        Change::Plugged,
    )
}

/// Every position that a scan reports lies in the enumeration.
pub proof fn lemma_positions_in_range(
    seen: Map<u32, Connection>,
    probes: Seq<ConnectorInfo>,
    which: Change,
    n: int,
)
    requires
        0 <= n <= probes.len(),
        probes.len() <= usize::MAX,
    ensures
        forall|k: int|
            0 <= k < positions(seen, probes, which, n).len() ==> (#[trigger] positions(
                seen,
                probes,
                which,
                n,
            )[k]) < n,
    decreases n,
{
    if n > 0 {
        lemma_positions_in_range(seen, probes, which, n - 1);
        let shorter = positions(seen, probes, which, n - 1);
        let all = positions(seen, probes, which, n);
        assert forall|k: int| 0 <= k < all.len() implies (#[trigger] all[k]) < n by {
            if k < shorter.len() {
                assert(all[k] == shorter[k]);
            }
        }
    }
}

/// Picks the CRTC that an event for a connector names.
pub fn crtc_to_report(connector: &ConnectorInfo, which: Change) -> (crtc: Option<u32>)
    ensures
        crtc == reported_crtc(*connector, which),
{
    match which {
        Change::Unplugged => connector.crtc_before,
        _ => connector.crtc_after,
    }
}

fn push_assigned(
    events: &mut Vec<ScanEvent>,
    probes: &Vec<ConnectorInfo>,
    at: &Vec<usize>,
    which: Change,
)
    requires
        forall|k: int| 0 <= k < at@.len() ==> (#[trigger] at@[k]) < probes@.len(),
    ensures
        final(events)@ == old(events)@ + assigned_events(probes@, at@, which),
{
    let mut k: usize = 0;
    assert(at@.take(0) =~= Seq::<usize>::empty());
    assert(events@ =~= old(events)@ + Seq::<ScanEvent>::empty());
    while k < at.len()
        invariant
            0 <= k <= at@.len(),
            forall|j: int| 0 <= j < at@.len() ==> (#[trigger] at@[j]) < probes@.len(),
            events@ == old(events)@ + assigned_events(probes@, at@.take(k as int), which),
        decreases at@.len() - k,
    {
        let position: usize = at[k];
        proof {
            let longer = at@.take(k + 1);
            assert(longer.drop_last() =~= at@.take(k as int));
            assert(longer.last() == position);
        }
        let ghost before = events@;
        match crtc_to_report(&probes[position], which) {
            Some(crtc) => {
                events.push(ScanEvent { change: which, position, crtc });
                assert(events@ =~= old(events)@ + assigned_events(
                    probes@,
                    at@.take(k + 1),
                    which,
                ));
            },
            None => {},
        }
        k += 1;
    }
    assert(at@.take(at@.len() as int) =~= at@);
}

/// Scans a device's connectors after a change and returns the events to act
/// on, in order: connectors that were unplugged, each with the CRTC it had,
/// then connectors that were plugged, each with the CRTC it has now. An
/// event for a connector that has no such CRTC is left out.
/// The device's scanner remembers the enumeration; nothing else changes. For
/// a device that is not in service nothing is scanned.
pub fn device_changed(
    state: &mut DrmCompositorState,
    node: DeviceNode,
    probes: &Vec<ConnectorInfo>,
) -> (events: Vec<ScanEvent>)
    ensures
        !old(state)@.devices.contains_key(node) ==> {
            &&& events@ == Seq::<ScanEvent>::empty()
            &&& final(state)@ == old(state)@
        },
        old(state)@.devices.contains_key(node) ==> {
            &&& events@ == scan_events(old(state)@.devices[node].seen, probes@)
            &&& final(state)@ == (StateModel {
                devices: old(state)@.devices.insert(
                    node,
                    BackendModel {
                        seen: seen_after(old(state)@.devices[node].seen, probes@),
                        ..old(state)@.devices[node]
                    },
                ),
                ..old(state)@
            })
        },
        old(state)@.wf() ==> final(state)@.wf(),
{
    proof {
        if old(state)@.wf() && old(state)@.devices.contains_key(node) {
            lemma_scan_keeps_order(
                old(state)@,
                node,
                seen_after(old(state)@.devices[node].seen, probes@),
            );
        }
    }
    let mut events: Vec<ScanEvent> = Vec::new();
    let count = probes.len();
    let taken = state.udev_data.take(node);
    match taken {
        None => {
            assert(state@.devices =~= old(state)@.devices);
        },
        Some(device) => {
            let mut device: BackendData = device;
            let found = device.drm_scanner.scan(probes);
            proof {
                let seen = old(state)@.devices[node].seen;
                lemma_positions_in_range(seen, probes@, Change::Unplugged, probes@.len() as int);
                lemma_positions_in_range(seen, probes@, Change::Plugged, probes@.len() as int);
            }
            push_assigned(&mut events, probes, &found.disconnected, Change::Unplugged);
            push_assigned(&mut events, probes, &found.connected, Change::Plugged);
            state.udev_data.put(node, device);
            proof {
                let seen = old(state)@.devices[node].seen;
                assert(events@ =~= scan_events(seen, probes@));
                assert(state@.devices =~= old(state)@.devices.insert(
                    node,
                    BackendModel { seen: seen_after(seen, probes@), ..old(state)@.devices[node] },
                ));
            }
        },
    }
    events
}

/// Scanning a device again with nothing changed is quiet: once an
/// enumeration has been scanned, a scan of the same enumeration yields no
/// event and leaves the scanner's memory as it is, however often it is
/// repeated.
pub proof fn lemma_rescan_is_quiet(seen: Map<u32, Connection>, probes: Seq<ConnectorInfo>)
    requires
        consistent(probes),
    ensures
        scan_events(seen_after(seen, probes), probes) == Seq::<ScanEvent>::empty(),
        seen_after(seen_after(seen, probes), probes) == seen_after(seen, probes),
{
    lemma_scan_idempotent(seen, probes);
    let settled = seen_after(seen, probes);
    assert(scan_events(settled, probes) =~= Seq::<ScanEvent>::empty());
}

} // verus!
