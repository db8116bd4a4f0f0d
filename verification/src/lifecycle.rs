//! The life of an output: configured when its connector is plugged, dropped
//! when it is unplugged.

use crate::connector::ConnectorInfo;
use crate::mode::{
    any_preferred_before, bits_preferred, lemma_first_preferred_exists,
    lemma_first_preferred_is_selected, select_mode, selected_index, Mode,
};
use crate::node::DeviceNode;
use crate::order::{lemma_connect_keeps_order, lemma_disconnect_keeps_order};
use crate::output::{interface_name, output_name, output_name_of, Output};
use crate::placement::{fits, next_offset, next_output_x};
use crate::registry::BackendData;
use crate::state::{
    space_widths, unmapped, widths_of, without_outputs, DrmCompositorState, PlacedOutput,
    StateModel,
};
use crate::surface::{Phase, RenderAction, Surface, SurfaceEvent};
use vstd::prelude::*;

verus! {

/// How the configuration of an output for a plugged connector ended.
pub enum ConnectOutcome {
    /// The device is not in service; nothing was done.
    UnknownDevice,
    /// The connector lists no mode; nothing was done.
    NoModes,
    /// The display space has no room left to the right; nothing was done.
    OutOfSpace,
    /// The output is configured and mapped and its surface is stored.
    /// `output` is what to publish to clients, `action` the first step of its
    /// first render.
    Configured { output: Output, action: RenderAction },
}

/// The physical size to publish: what the connector reports, or zero by zero.
pub open spec fn physical_size_of(size: Option<(u32, u32)>) -> (u32, u32) {
    match size {
        Some(reported) => reported,
        None => (0u32, 0u32),
    }
}

/// Whether an output description is the one that a connector gets at the
/// horizontal position `x`: named after the connector's interface and
/// interface id, with the connector's physical size and subpixel layout,
/// running the first mode flagged preferred or else the first mode, on the
/// top row.
pub open spec fn describes(output: Output, connector: ConnectorInfo, x: int) -> bool {
    &&& output.name@ == output_name_of(interface_name(connector.interface), connector.interface_id)
    &&& output.physical_size == physical_size_of(connector.size)
    &&& output.subpixel == connector.subpixel
    &&& output.mode == connector.modes@[selected_index(connector.modes@)]
    &&& output.x == x
    &&& output.y == 0
}

/// Whether a mode is the one to run out of a list: the first one flagged
/// preferred, or the first of the list where none is flagged.
pub open spec fn is_selected_mode(mode: Mode, modes: Seq<Mode>) -> bool {
    if any_preferred_before(modes, modes.len() as int) {
        exists|k: int|
            0 <= k < modes.len() && mode == #[trigger] modes[k] && bits_preferred(
                modes[k].type_bits,
            ) && !any_preferred_before(modes, k)
    } else {
        modes.len() > 0 && mode == modes[0]
    }
}

/// An output that is described for a connector runs the connector's first
/// mode flagged preferred, or its first mode where none is flagged, wherever
/// the output is placed.
pub proof fn lemma_output_runs_selected_mode(output: Output, connector: ConnectorInfo, x: int)
    requires
        describes(output, connector, x),
        connector.modes@.len() > 0,
    ensures
        is_selected_mode(output.mode, connector.modes@),
{
    let modes = connector.modes@;
    if any_preferred_before(modes, modes.len() as int) {
        let k = lemma_first_preferred_exists(modes, modes.len() as int);
        lemma_first_preferred_is_selected(modes, k);
        assert(output.mode == modes[k]);
    }
}

/// The surface that is stored for a newly configured output.
pub open spec fn configured_surface(
    crtc: u32,
    connector: ConnectorInfo,
    render_node: DeviceNode,
    output: Output,
) -> Surface {
    Surface {
        crtc,
        connector: connector.handle,
        render_node,
        mode: output.mode,
        output,
        phase: Phase::Configured,
        frames: 0,
    }
}

/// The entry that an output gets in the display space.
pub open spec fn placement_of(node: DeviceNode, crtc: u32, output: Output) -> PlacedOutput {
    PlacedOutput { node, crtc, x: output.x, y: output.y, width: output.mode.width as i32 }
}

/// Configures an output for a connector that was plugged and has a CRTC.
///
/// The mode is the first one flagged preferred, else the first of the
/// connector's list. The output is placed to the right of all outputs that
/// are mapped when the connector is plugged, on the top row: its horizontal
/// position is the sum of their widths. Its surface is stored in the
/// configured phase, with no frame counted, in place of any surface the CRTC
/// had, whose output then leaves the display space. The action returned is
/// the answer to the surface's first render request.
pub fn connector_connected(
    state: &mut DrmCompositorState,
    node: DeviceNode,
    connector: &ConnectorInfo,
    crtc: u32,
) -> (outcome: ConnectOutcome)
    ensures
        !old(state)@.devices.contains_key(node) ==> outcome is UnknownDevice,
        old(state)@.devices.contains_key(node) && connector.modes@.len() == 0 ==> outcome
            is NoModes,
        old(state)@.devices.contains_key(node) && connector.modes@.len() > 0 && !fits(
            widths_of(old(state)@.space),
        ) ==> outcome is OutOfSpace,
        old(state)@.devices.contains_key(node) && connector.modes@.len() > 0 && fits(
            widths_of(old(state)@.space),
        ) ==> outcome is Configured,
        !(outcome is Configured) ==> final(state)@ == old(state)@,
        outcome is Configured ==> {
            let base = unmapped(old(state)@.space, node, Some(crtc));
            let output = outcome->output;
            &&& describes(output, *connector, next_offset(widths_of(old(state)@.space)))
            &&& is_selected_mode(output.mode, connector.modes@)
            &&& outcome->action == (RenderAction::Initialize {
                crtc,
                connector: connector.handle,
                mode: output.mode,
            })
            &&& final(state)@ == (StateModel {
                space: base.push(placement_of(node, crtc, output)),
                ..old(state)@.with_surface(
                    node,
                    crtc,
                    configured_surface(
                        crtc,
                        *connector,
                        old(state)@.devices[node].render_node,
                        output,
                    ),
                )
            })
        },
        old(state)@.wf() ==> final(state)@.wf(),
{
    if !state.udev_data.contains(node) {
        return ConnectOutcome::UnknownDevice;
    }
    let index = match select_mode(&connector.modes) {
        Some(index) => index,
        None => {
            return ConnectOutcome::NoModes;
        },
    };
    let widths = space_widths(&state.space);
    let x = match next_output_x(&widths) {
        Some(x) => x,
        None => {
            return ConnectOutcome::OutOfSpace;
        },
    };
    let mode = connector.modes[index];
    proof {
        let modes = connector.modes@;
        if any_preferred_before(modes, modes.len() as int) {
            assert(mode == modes[index as int]);
        }
    }
    let physical_size = match connector.size {
        Some(reported) => reported,
        None => (0u32, 0u32),
    };
    let output = Output {
        name: output_name(connector.interface, connector.interface_id),
        physical_size,
        subpixel: connector.subpixel,
        mode,
        x,
        y: 0,
    };
    let taken = state.udev_data.take(node);
    let mut device: BackendData = taken.unwrap();
    let mut surface =
        Surface::new(crtc, connector.handle, device.render_node, mode, output.duplicate());
    let action = surface.on_event(SurfaceEvent::RenderRequest);
    device.put_surface(crtc, surface);
    state.udev_data.put(node, device);
    let mut space = without_outputs(&state.space, node, Some(crtc));
    space.push(PlacedOutput { node, crtc, x, y: 0, width: mode.width as i32 });
    state.space = space;
    proof {
        let before = old(state)@.devices;
        assert(state@.devices =~= before.insert(node, device@));
        assert(device@.surfaces =~= before[node].surfaces.insert(crtc, surface));
        if old(state)@.wf() {
            lemma_connect_keeps_order(
                old(state)@,
                node,
                crtc,
                surface,
                placement_of(node, crtc, output),
            );
        }
    }
    ConnectOutcome::Configured { output, action }
}

/// Drops the output of a connector that was unplugged: the surface of its
/// CRTC is released and its output leaves the display space. Returns whether
/// a surface was stored for the CRTC.
pub fn connector_disconnected(
    state: &mut DrmCompositorState,
    node: DeviceNode,
    crtc: u32,
) -> (dropped: bool)
    ensures
        dropped == old(state)@.surface(node, crtc).is_some(),
        !old(state)@.devices.contains_key(node) ==> final(state)@ == (StateModel {
            space: unmapped(old(state)@.space, node, Some(crtc)),
            ..old(state)@
        }),
        old(state)@.devices.contains_key(node) ==> final(state)@ == (StateModel {
            space: unmapped(old(state)@.space, node, Some(crtc)),
            ..old(state)@.with_surfaces(node, old(state)@.devices[node].surfaces.remove(crtc))
        }),
        old(state)@.wf() ==> final(state)@.wf(),
{
    proof {
        if old(state)@.wf() {
            lemma_disconnect_keeps_order(old(state)@, node, crtc);
        }
    }
    state.space = without_outputs(&state.space, node, Some(crtc));
    let taken = state.udev_data.take(node);
    match taken {
        None => {
            assert(state@.devices =~= old(state)@.devices);
            false
        },
        Some(device) => {
            let mut device: BackendData = device;
            let held = device.take_surface(crtc);
            state.udev_data.put(node, device);
            assert(state@.devices =~= old(state)@.devices.insert(node, device@));
            held.is_some()
        },
    }
}

} // verus!
