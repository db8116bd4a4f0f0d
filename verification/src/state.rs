//! The compositor's bookkeeping for the display backend: the GPUs in
//! service, their surfaces, and the outputs mapped into the display space.

use crate::node::DeviceNode;
use crate::registry::{BackendData, BackendModel, UdevData};
use crate::surface::{Rejection, RenderAction, Surface, SurfaceEvent};
use vstd::prelude::*;

verus! {

/// An output mapped into the display space.
#[derive(Clone, Copy, Debug, PartialEq, Eq, Structural)]
pub struct PlacedOutput {
    pub node: DeviceNode,
    pub crtc: u32,
    pub x: i32,
    pub y: i32,
    pub width: i32,
}

/// The state that every callback of the reactor is handed.
pub struct DrmCompositorState {
    pub space: Vec<PlacedOutput>,
    pub udev_data: UdevData,
    pub running: bool,
}

/// The compositor state as mathematical values.
pub struct StateModel {
    pub space: Seq<PlacedOutput>,
    pub devices: Map<DeviceNode, BackendModel>,
    pub primary_gpu: DeviceNode,
    pub running: bool,
}

impl View for DrmCompositorState {
    type V = StateModel;

    open spec fn view(&self) -> StateModel {
        StateModel {
            space: self.space@,
            devices: self.udev_data@.devices,
            primary_gpu: self.udev_data@.primary_gpu,
            running: self.running,
        }
    }
}

impl StateModel {
    /// The surface stored for a device's CRTC, if there is one.
    pub open spec fn surface(self, node: DeviceNode, crtc: u32) -> Option<Surface> {
        if self.devices.contains_key(node) {
            self.devices[node].surfaces.get(crtc)
        } else {
            None
        }
    }

    /// Whether the surface of a device's CRTC, if there is one, is stored
    /// under its own CRTC and has room for the render under way.
    pub open spec fn holds_well(self, node: DeviceNode, crtc: u32) -> bool {
        self.surface(node, crtc) matches Some(surface) ==> surface.crtc == crtc && surface.wf()
    }

    /// The bookkeeping is in order: every surface is stored under its own
    /// CRTC with room for the render under way, the display space holds an
    /// output for exactly the CRTCs that have a surface, and none of them
    /// twice.
    pub open spec fn wf(self) -> bool {
        &&& forall|node: DeviceNode, crtc: u32| #[trigger] self.holds_well(node, crtc)
        &&& forall|node: DeviceNode, crtc: u32|
            #[trigger] has_key(self.space, node, crtc) <==> self.surface(node, crtc).is_some()
        &&& distinct_keys(self.space)
    }

    /// This state with a device's surfaces replaced.
    pub open spec fn with_surfaces(
        self,
        node: DeviceNode,
        surfaces: Map<u32, Surface>,
    ) -> StateModel {
        StateModel {
            devices: self.devices.insert(
                node,
                BackendModel { surfaces, ..self.devices[node] },
            ),
            ..self
        }
    }

    /// This state with one surface stored for a device's CRTC.
    pub open spec fn with_surface(
        self,
        node: DeviceNode,
        crtc: u32,
        surface: Surface,
    ) -> StateModel {
        self.with_surfaces(node, self.devices[node].surfaces.insert(crtc, surface))
    }
}

/// Whether a mapped output belongs to the given device and, where a CRTC is
/// named, to that CRTC.
pub open spec fn belongs(placed: PlacedOutput, node: DeviceNode, crtc: Option<u32>) -> bool {
    placed.node == node && (crtc.is_none() || crtc == Some(placed.crtc))
}

/// The display space without the outputs of a device, or of one CRTC of it;
/// the others keep their order.
pub open spec fn unmapped(space: Seq<PlacedOutput>, node: DeviceNode, crtc: Option<u32>) -> Seq<
    PlacedOutput,
>
    decreases space.len(),
{
    if space.len() == 0 {
        Seq::empty()
    } else if belongs(space.last(), node, crtc) {
        unmapped(space.drop_last(), node, crtc)
    } else {
        unmapped(space.drop_last(), node, crtc).push(space.last())
    }
}

/// Whether the display space holds an output of a device's CRTC.
pub open spec fn has_key(space: Seq<PlacedOutput>, node: DeviceNode, crtc: u32) -> bool
    decreases space.len(),
{
    space.len() > 0 && ((space.last().node == node && space.last().crtc == crtc) || has_key(
        space.drop_last(),
        node,
        crtc,
    ))
}

/// Whether no CRTC of a device has two outputs in the display space.
pub open spec fn distinct_keys(space: Seq<PlacedOutput>) -> bool
    decreases space.len(),
{
    space.len() == 0 || (distinct_keys(space.drop_last()) && !has_key(
        space.drop_last(),
        space.last().node,
        space.last().crtc,
    ))
}

/// Unmapping takes away the outputs that were named and no others.
pub proof fn lemma_unmapped_keys(
    space: Seq<PlacedOutput>,
    node: DeviceNode,
    crtc: Option<u32>,
    other: DeviceNode,
    at: u32,
)
    ensures
        has_key(unmapped(space, node, crtc), other, at) == (has_key(space, other, at) && !(other
            == node && (crtc.is_none() || crtc == Some(at)))),
    decreases space.len(),
{
    if space.len() > 0 {
        lemma_unmapped_keys(space.drop_last(), node, crtc, other, at);
        if !belongs(space.last(), node, crtc) {
            let kept = unmapped(space.drop_last(), node, crtc);
            assert(kept.push(space.last()).drop_last() =~= kept);
        }
    }
}

/// Unmapping leaves no CRTC with two outputs where none had two before.
pub proof fn lemma_unmapped_distinct(space: Seq<PlacedOutput>, node: DeviceNode, crtc: Option<u32>)
    requires
        distinct_keys(space),
    ensures
        distinct_keys(unmapped(space, node, crtc)),
    decreases space.len(),
{
    if space.len() > 0 {
        lemma_unmapped_distinct(space.drop_last(), node, crtc);
        if !belongs(space.last(), node, crtc) {
            let kept = unmapped(space.drop_last(), node, crtc);
            assert(kept.push(space.last()).drop_last() =~= kept);
            lemma_unmapped_keys(
                space.drop_last(),
                node,
                crtc,
                space.last().node,
                space.last().crtc,
            );
        }
    }
}

/// The widths of the mapped outputs, in mapping order.
pub open spec fn widths_of(space: Seq<PlacedOutput>) -> Seq<i32> {
    space.map_values(|placed: PlacedOutput| placed.width)
}

/// The display space without the outputs of a device, or of one CRTC of it.
pub fn without_outputs(
    space: &Vec<PlacedOutput>,
    node: DeviceNode,
    crtc: Option<u32>,
) -> (kept: Vec<PlacedOutput>)
    ensures
        kept@ == unmapped(space@, node, crtc),
{
    let mut kept: Vec<PlacedOutput> = Vec::new();
    let mut i: usize = 0;
    assert(space@.take(0) =~= Seq::<PlacedOutput>::empty());
    while i < space.len()
        invariant
            0 <= i <= space@.len(),
            kept@ == unmapped(space@.take(i as int), node, crtc),
        decreases space@.len() - i,
    {
        let placed = space[i];
        let same_crtc = match crtc {
            Some(c) => c == placed.crtc,
            None => true,
        };
        proof {
            let longer = space@.take(i + 1);
            assert(longer.drop_last() =~= space@.take(i as int));
            assert(longer.last() == placed);
        }
        if !(placed.node == node && same_crtc) {
            kept.push(placed);
        }
        i += 1;
    }
    assert(space@.take(space@.len() as int) =~= space@);
    kept
}

/// The widths of the mapped outputs, in mapping order.
pub fn space_widths(space: &Vec<PlacedOutput>) -> (widths: Vec<i32>)
    ensures
        widths@ == widths_of(space@),
{
    let mut widths: Vec<i32> = Vec::new();
    let mut i: usize = 0;
    while i < space.len()
        invariant
            0 <= i <= space@.len(),
            widths@.len() == i,
            forall|j: int| 0 <= j < i ==> widths@[j] == space@[j].width,
        decreases space@.len() - i,
    {
        widths.push(space[i].width);
        i += 1;
    }
    assert(widths@ =~= widths_of(space@));
    widths
}

impl DrmCompositorState {
    /// The state at start-up: an empty display space, the given registry, and
    /// the reactor set to keep running.
    pub fn new(udev_data: UdevData) -> (state: DrmCompositorState)
        ensures
            state@ == (StateModel {
                space: Seq::empty(),
                devices: udev_data@.devices,
                primary_gpu: udev_data@.primary_gpu,
                running: true,
            }),
    {
        DrmCompositorState { space: Vec::new(), udev_data, running: true }
    }
}

/// An event for a surface leaves the bookkeeping in order.
pub proof fn lemma_event_keeps_order(
    state: StateModel,
    node: DeviceNode,
    crtc: u32,
    event: SurfaceEvent,
)
    requires
        state.wf(),
        state.surface(node, crtc).is_some(),
    ensures
        state.with_surface(node, crtc, state.surface(node, crtc).unwrap().after(event)).wf(),
{
    let surface = state.surface(node, crtc).unwrap();
    let next = state.with_surface(node, crtc, surface.after(event));
    assert(state.holds_well(node, crtc));
    assert forall|other: DeviceNode, at: u32| #[trigger] next.holds_well(other, at) by {
        assert(state.holds_well(other, at));
        if other == node && at == crtc {
        } else {
            assert(next.surface(other, at) == state.surface(other, at));
        }
    }
    assert forall|other: DeviceNode, at: u32| #[trigger]
        has_key(next.space, other, at) <==> next.surface(other, at).is_some() by {
        assert(next.surface(other, at).is_some() == state.surface(other, at).is_some());
    }
}

/// Hands an event to the surface of a device's CRTC and says what to do
/// next. Where no such surface is stored the event is rejected and nothing
/// changes; else the surface moves as its state machine says and everything
/// else stays as it is.
pub fn surface_event(
    state: &mut DrmCompositorState,
    node: DeviceNode,
    crtc: u32,
    event: SurfaceEvent,
) -> (action: RenderAction)
    ensures
        match old(state)@.surface(node, crtc) {
            Some(surface) => {
                &&& action == surface.action(event)
                &&& final(state)@ == old(state)@.with_surface(node, crtc, surface.after(event))
            },
            None => {
                &&& action == RenderAction::Rejected(Rejection::UnknownSurface)
                &&& final(state)@ == old(state)@
            },
        },
        old(state)@.wf() ==> final(state)@.wf(),
{
    proof {
        if old(state)@.wf() && old(state)@.surface(node, crtc).is_some() {
            lemma_event_keeps_order(old(state)@, node, crtc, event);
        }
    }
    let taken = state.udev_data.take(node);
    match taken {
        None => {
            assert(state@.devices =~= old(state)@.devices);
            RenderAction::Rejected(Rejection::UnknownSurface)
        },
        Some(device) => {
            let mut device: BackendData = device;
            let held = device.take_surface(crtc);
            let action = match held {
                None => {
                    assert(device@.surfaces =~= old(state)@.devices[node].surfaces);
                    RenderAction::Rejected(Rejection::UnknownSurface)
                },
                Some(surface) => {
                    let mut surface: Surface = surface;
                    let action = surface.on_event(event);
                    device.put_surface(crtc, surface);
                    assert(device@.surfaces =~= old(state)@.devices[node].surfaces.insert(
                        crtc,
                        surface,
                    ));
                    action
                },
            };
            state.udev_data.put(node, device);
            proof {
                let before = old(state)@.devices;
                assert(state@.devices =~= before.insert(node, device@));
                if held.is_none() {
                    assert(device@ == before[node]);
                    assert(before.insert(node, before[node]) =~= before);
                }
            }
            action
        },
    }
}

/// Asks for a render of the surface of a device's CRTC: once to prime a
/// newly configured surface, and whenever one is wanted after that.
pub fn render_surface(state: &mut DrmCompositorState, node: DeviceNode, crtc: u32) -> (action:
    RenderAction)
    ensures
        match old(state)@.surface(node, crtc) {
            Some(surface) => {
                &&& action == surface.action(SurfaceEvent::RenderRequest)
                &&& final(state)@ == old(state)@.with_surface(
                    node,
                    crtc,
                    surface.after(SurfaceEvent::RenderRequest),
                )
            },
            None => {
                &&& action == RenderAction::Rejected(Rejection::UnknownSurface)
                &&& final(state)@ == old(state)@
            },
        },
        old(state)@.wf() ==> final(state)@.wf(),
{
    surface_event(state, node, crtc, SurfaceEvent::RenderRequest)
}

/// Takes note of a vertical blank on a device's CRTC: the queued frame is
/// acknowledged, and the next render is asked for.
pub fn vblank(state: &mut DrmCompositorState, node: DeviceNode, crtc: u32) -> (action: RenderAction)
    ensures
        match old(state)@.surface(node, crtc) {
            Some(surface) => {
                &&& action == surface.action(SurfaceEvent::VBlank)
                &&& final(state)@ == old(state)@.with_surface(
                    node,
                    crtc,
                    surface.after(SurfaceEvent::VBlank),
                )
            },
            None => {
                &&& action == RenderAction::Rejected(Rejection::UnknownSurface)
                &&& final(state)@ == old(state)@
            },
        },
        old(state)@.wf() ==> final(state)@.wf(),
{
    surface_event(state, node, crtc, SurfaceEvent::VBlank)
}

} // verus!
