//! Every change to the compositor's bookkeeping leaves it in order: surfaces
//! under their own CRTCs, and one mapped output for each of them.

use crate::connector::Connection;
use crate::node::DeviceNode;
use crate::registry::BackendModel;
use crate::state::{
    distinct_keys, has_key, lemma_unmapped_distinct, lemma_unmapped_keys, unmapped, PlacedOutput,
    StateModel,
};
use crate::surface::Surface;
use vstd::prelude::*;

verus! {

/// Asking the reactor to stop or to go on leaves the bookkeeping in order.
pub proof fn lemma_running_keeps_order(state: StateModel, running: bool)
    requires
        state.wf(),
    ensures
        (StateModel { running, ..state }).wf(),
{
    let next = StateModel { running, ..state };
    assert forall|other: DeviceNode, at: u32| #[trigger] next.holds_well(other, at) by {
        assert(state.holds_well(other, at));
        assert(next.surface(other, at) == state.surface(other, at));
    }
    assert forall|other: DeviceNode, at: u32| #[trigger]
        has_key(next.space, other, at) <==> next.surface(other, at).is_some() by {
        assert(next.surface(other, at) == state.surface(other, at));
    }
}

/// A device that comes into service without surfaces leaves the bookkeeping
/// in order.
pub proof fn lemma_add_keeps_order(state: StateModel, node: DeviceNode, backend: BackendModel)
    requires
        state.wf(),
        !state.devices.contains_key(node),
        backend.surfaces == Map::<u32, Surface>::empty(),
    ensures
        (StateModel { devices: state.devices.insert(node, backend), ..state }).wf(),
{
    let next = StateModel { devices: state.devices.insert(node, backend), ..state };
    assert forall|other: DeviceNode, at: u32| #[trigger] next.holds_well(other, at) by {
        assert(state.holds_well(other, at));
        if other != node {
            assert(next.surface(other, at) == state.surface(other, at));
        }
    }
    assert forall|other: DeviceNode, at: u32| #[trigger]
        has_key(next.space, other, at) <==> next.surface(other, at).is_some() by {
        if other == node {
            assert(state.surface(other, at).is_none());
        } else {
            assert(next.surface(other, at) == state.surface(other, at));
        }
    }
}

/// A device that goes out of service, its outputs with it, leaves the
/// bookkeeping in order.
pub proof fn lemma_remove_keeps_order(state: StateModel, node: DeviceNode)
    requires
        state.wf(),
    ensures
        (StateModel {
            devices: state.devices.remove(node),
            space: unmapped(state.space, node, None),
            ..state
        }).wf(),
{
    let next = StateModel {
        devices: state.devices.remove(node),
        space: unmapped(state.space, node, None),
        ..state
    };
    assert forall|other: DeviceNode, at: u32| #[trigger] next.holds_well(other, at) by {
        assert(state.holds_well(other, at));
        if other != node {
            assert(next.surface(other, at) == state.surface(other, at));
        }
    }
    assert forall|other: DeviceNode, at: u32| #[trigger]
        has_key(next.space, other, at) <==> next.surface(other, at).is_some() by {
        lemma_unmapped_keys(state.space, node, None, other, at);
        if other != node {
            assert(next.surface(other, at) == state.surface(other, at));
        }
    }
    lemma_unmapped_distinct(state.space, node, None);
}

/// A scan, which touches the scanner's memory only, leaves the bookkeeping
/// in order.
pub proof fn lemma_scan_keeps_order(state: StateModel, node: DeviceNode, seen: Map<u32, Connection>)
    requires
        state.wf(),
        state.devices.contains_key(node),
    ensures
        (StateModel {
            devices: state.devices.insert(node, BackendModel { seen, ..state.devices[node] }),
            ..state
        }).wf(),
{
    let next = StateModel {
        devices: state.devices.insert(node, BackendModel { seen, ..state.devices[node] }),
        ..state
    };
    assert forall|other: DeviceNode, at: u32| #[trigger] next.holds_well(other, at) by {
        assert(state.holds_well(other, at));
        assert(next.surface(other, at) == state.surface(other, at));
    }
    assert forall|other: DeviceNode, at: u32| #[trigger]
        has_key(next.space, other, at) <==> next.surface(other, at).is_some() by {
        assert(next.surface(other, at) == state.surface(other, at));
    }
}

/// An output that is configured for a CRTC, in place of the one the CRTC
/// had, leaves the bookkeeping in order.
pub proof fn lemma_connect_keeps_order(
    state: StateModel,
    node: DeviceNode,
    crtc: u32,
    surface: Surface,
    placed: PlacedOutput,
)
    requires
        state.wf(),
        state.devices.contains_key(node),
        surface.crtc == crtc,
        surface.wf(),
        placed.node == node,
        placed.crtc == crtc,
    ensures
        (StateModel {
            space: unmapped(state.space, node, Some(crtc)).push(placed),
            ..state.with_surface(node, crtc, surface)
        }).wf(),
{
    let base = unmapped(state.space, node, Some(crtc));
    let next = StateModel { space: base.push(placed), ..state.with_surface(node, crtc, surface) };
    assert(next.space.drop_last() =~= base);
    assert(next.space.last() == placed);
    assert forall|other: DeviceNode, at: u32| #[trigger] next.holds_well(other, at) by {
        assert(state.holds_well(other, at));
        if !(other == node && at == crtc) {
            assert(next.surface(other, at) == state.surface(other, at));
        }
    }
    assert forall|other: DeviceNode, at: u32| #[trigger]
        has_key(next.space, other, at) <==> next.surface(other, at).is_some() by {
        lemma_unmapped_keys(state.space, node, Some(crtc), other, at);
        if !(other == node && at == crtc) {
            assert(next.surface(other, at) == state.surface(other, at));
        }
    }
    lemma_unmapped_distinct(state.space, node, Some(crtc));
    lemma_unmapped_keys(state.space, node, Some(crtc), node, crtc);
}

/// An output that is dropped with its surface leaves the bookkeeping in
/// order.
pub proof fn lemma_disconnect_keeps_order(state: StateModel, node: DeviceNode, crtc: u32)
    requires
        state.wf(),
    ensures
        !state.devices.contains_key(node) ==> (StateModel {
            space: unmapped(state.space, node, Some(crtc)),
            ..state
        }).wf(),
        state.devices.contains_key(node) ==> (StateModel {
            space: unmapped(state.space, node, Some(crtc)),
            ..state.with_surfaces(node, state.devices[node].surfaces.remove(crtc))
        }).wf(),
{
    lemma_unmapped_distinct(state.space, node, Some(crtc));
    if state.devices.contains_key(node) {
        let next = StateModel {
            space: unmapped(state.space, node, Some(crtc)),
            ..state.with_surfaces(node, state.devices[node].surfaces.remove(crtc))
        };
        assert forall|other: DeviceNode, at: u32| #[trigger] next.holds_well(other, at) by {
            assert(state.holds_well(other, at));
            if !(other == node && at == crtc) {
                assert(next.surface(other, at) == state.surface(other, at));
            }
        }
        assert forall|other: DeviceNode, at: u32| #[trigger]
            has_key(next.space, other, at) <==> next.surface(other, at).is_some() by {
            lemma_unmapped_keys(state.space, node, Some(crtc), other, at);
            if !(other == node && at == crtc) {
                assert(next.surface(other, at) == state.surface(other, at));
            }
        }
    } else {
        let next = StateModel { space: unmapped(state.space, node, Some(crtc)), ..state };
        assert forall|other: DeviceNode, at: u32| #[trigger] next.holds_well(other, at) by {
            assert(state.holds_well(other, at));
            assert(next.surface(other, at) == state.surface(other, at));
        }
        assert forall|other: DeviceNode, at: u32| #[trigger]
            has_key(next.space, other, at) <==> next.surface(other, at).is_some() by {
            lemma_unmapped_keys(state.space, node, Some(crtc), other, at);
            assert(next.surface(other, at) == state.surface(other, at));
            assert(state.surface(node, crtc).is_none());
        }
    }
}

} // verus!
