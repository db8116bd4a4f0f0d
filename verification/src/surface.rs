//! One display output driven by one CRTC, and the state machine that paces
//! its frames: configured, then presenting with at most one frame queued.

use crate::mode::Mode;
use crate::node::DeviceNode;
use crate::output::Output;
use vstd::prelude::*;

verus! {

/// Where a surface stands in its life.
#[derive(Clone, Copy, Debug, PartialEq, Eq, Structural)]
pub enum Phase {
    /// Stored, but its presentation handle has not been created yet.
    Configured,
    /// Presenting; the handle rests in its slot and no frame is queued.
    Idle,
    /// Presenting; the handle has been taken out of its slot for a render.
    Rendering,
    /// Presenting; one frame is queued and the vertical blank has not come.
    InFlight,
}

/// How a render cycle ended on the device.
#[derive(Clone, Copy, Debug, PartialEq, Eq, Structural)]
pub enum RenderOutcome {
    /// The render pass failed; no backbuffer was produced.
    RenderFailed,
    /// The render pass completed, but the frame could not be queued.
    QueueFailed,
    /// The render pass completed and the frame is queued for display.
    Queued,
}

/// What can happen to a surface.
#[derive(Clone, Copy, Debug, PartialEq, Eq, Structural)]
pub enum SurfaceEvent {
    /// A render is asked for.
    RenderRequest,
    /// Creating the presentation handle ended, with success or not.
    Initialized(bool),
    /// The render cycle that was handed out has ended.
    Finished(RenderOutcome),
    /// The device reports the vertical blank that ends the queued frame.
    VBlank,
}

/// Why an event led to no work.
#[derive(Clone, Copy, Debug, PartialEq, Eq, Structural)]
pub enum Rejection {
    /// A render is under way or a frame is still queued.
    Busy,
    /// The frame counter cannot count another frame.
    CounterExhausted,
    /// The presentation handle could not be created.
    InitFailed,
    /// The event does not belong to the phase the surface is in.
    OutOfTurn,
    /// No surface is stored for the device and CRTC that were named.
    UnknownSurface,
}

/// What the caller is to do next for a surface.
#[derive(Clone, Copy, Debug, PartialEq, Eq, Structural)]
pub enum RenderAction {
    /// Create the presentation handle for this CRTC, connector and mode, with
    /// an empty set of render elements, and report how it went.
    Initialize { crtc: u32, connector: u32, mode: Mode },
    /// Take the handle, draw frame number `frame` on `render_node`, queue it
    /// and report how it went.
    Draw { render_node: DeviceNode, frame: u64 },
    /// A frame is queued: wait for the vertical blank.
    Wait,
    /// The cycle was skipped and nothing is queued.
    Stalled,
    /// Nothing was done.
    Rejected(Rejection),
}

/// One active display output.
pub struct Surface {
    pub crtc: u32,
    pub connector: u32,
    pub render_node: DeviceNode,
    pub mode: Mode,
    pub output: Output,
    pub phase: Phase,
    pub frames: u64,
}

impl Surface {
    /// A render is only ever under way with room left in the frame counter.
    pub open spec fn wf(self) -> bool {
        self.phase == Phase::Rendering ==> self.frames < u64::MAX
    }

    /// This surface in another phase.
    pub open spec fn in_phase(self, phase: Phase) -> Surface {
        Surface { phase, ..self }
    }

    /// This surface with one more frame counted, as far as the counter goes.
    pub open spec fn counted(self) -> Surface {
        Surface {
            frames: if self.frames < u64::MAX {
                (self.frames + 1) as u64
            } else {
                self.frames
            },
            ..self
        }
    }

    /// Whether a render request is answered with a frame to draw.
    pub open spec fn can_draw(self) -> bool {
        self.phase == Phase::Idle && self.frames < u64::MAX
    }

    /// The surface after a render request.
    pub open spec fn after_request(self) -> Surface {
        if self.can_draw() {
            self.in_phase(Phase::Rendering)
        } else {
            self
        }
    }

    /// The answer to a render request.
    pub open spec fn on_request(self) -> RenderAction {
        match self.phase {
            Phase::Configured => RenderAction::Initialize {
                crtc: self.crtc,
                connector: self.connector,
                mode: self.mode,
            },
            Phase::Idle => if self.frames < u64::MAX {
                RenderAction::Draw {
                    render_node: self.render_node,
                    frame: (self.frames + 1) as u64,
                }
            } else {
                RenderAction::Rejected(Rejection::CounterExhausted)
            },
            Phase::Rendering => RenderAction::Rejected(Rejection::Busy),
            Phase::InFlight => RenderAction::Rejected(Rejection::Busy),
        }
    }

    /// The surface after an event.
    pub open spec fn after(self, event: SurfaceEvent) -> Surface {
        match event {
            SurfaceEvent::RenderRequest => self.after_request(),
            SurfaceEvent::Initialized(success) => if self.phase == Phase::Configured && success {
                self.in_phase(Phase::Idle).after_request()
            } else {
                self
            },
            SurfaceEvent::Finished(outcome) => if self.phase == Phase::Rendering {
                match outcome {
                    RenderOutcome::RenderFailed => self.in_phase(Phase::Idle),
                    RenderOutcome::QueueFailed => self.counted().in_phase(Phase::Idle),
                    RenderOutcome::Queued => self.counted().in_phase(Phase::InFlight),
                }
            } else {
                self
            },
            SurfaceEvent::VBlank => if self.phase == Phase::InFlight {
                self.in_phase(Phase::Idle).after_request()
            } else {
                self.after_request()
            },
        }
    }

    /// What the caller is told to do after an event.
    pub open spec fn action(self, event: SurfaceEvent) -> RenderAction {
        match event {
            SurfaceEvent::RenderRequest => self.on_request(),
            SurfaceEvent::Initialized(success) => if self.phase == Phase::Configured {
                if success {
                    self.in_phase(Phase::Idle).on_request()
                } else {
                    RenderAction::Rejected(Rejection::InitFailed)
                }
            } else {
                RenderAction::Rejected(Rejection::OutOfTurn)
            },
            SurfaceEvent::Finished(outcome) => if self.phase == Phase::Rendering {
                match outcome {
                    RenderOutcome::RenderFailed => RenderAction::Stalled,
                    RenderOutcome::QueueFailed => RenderAction::Stalled,
                    RenderOutcome::Queued => RenderAction::Wait,
                }
            } else {
                RenderAction::Rejected(Rejection::OutOfTurn)
            },
            SurfaceEvent::VBlank => if self.phase == Phase::InFlight {
                self.in_phase(Phase::Idle).on_request()
            } else {
                self.on_request()
            },
        }
    }

    /// A surface for a newly connected connector: configured, with no
    /// presentation handle and no frame counted.
    pub fn new(
        crtc: u32,
        connector: u32,
        render_node: DeviceNode,
        mode: Mode,
        output: Output,
    ) -> (surface: Surface)
        ensures
            surface == (Surface {
                crtc,
                connector,
                render_node,
                mode,
                output,
                phase: Phase::Configured,
                frames: 0,
            }),
            surface.wf(),
    {
        Surface { crtc, connector, render_node, mode, output, phase: Phase::Configured, frames: 0 }
    }

    fn request(&mut self) -> (action: RenderAction)
        ensures
            *final(self) == old(self).after_request(),
            action == old(self).on_request(),
    {
        match self.phase {
            Phase::Configured => RenderAction::Initialize {
                crtc: self.crtc,
                connector: self.connector,
                mode: self.mode,
            },
            Phase::Idle => {
                if self.frames < u64::MAX {
                    self.phase = Phase::Rendering;
                    RenderAction::Draw { render_node: self.render_node, frame: self.frames + 1 }
                } else {
                    RenderAction::Rejected(Rejection::CounterExhausted)
                }
            },
            Phase::Rendering => RenderAction::Rejected(Rejection::Busy),
            Phase::InFlight => RenderAction::Rejected(Rejection::Busy),
        }
    }

    fn count_frame(&mut self)
        ensures
            *final(self) == old(self).counted(),
    {
        if self.frames < u64::MAX {
            self.frames = self.frames + 1;
        }
    }

    /// Moves the surface through one event and says what to do next.
    ///
    /// A frame is handed out for drawing only from `Idle`; while one is queued
    /// every event but the vertical blank leaves the surface as it is. The
    /// frame counter never goes down, and goes up by one exactly when a render
    /// pass that was under way is reported as completed. A surface that has
    /// left the configured phase never returns to it.
    pub fn on_event(&mut self, event: SurfaceEvent) -> (action: RenderAction)
        ensures
            *final(self) == old(self).after(event),
            action == old(self).action(event),
            old(self).wf() ==> final(self).wf(),
            final(self).frames >= old(self).frames,
            old(self).phase != Phase::Configured ==> final(self).phase != Phase::Configured,
            old(self).phase == Phase::InFlight && event != SurfaceEvent::VBlank ==> *final(self)
                == *old(self) && action is Rejected,
            action is Draw ==> final(self).phase == Phase::Rendering && old(self).phase
                != Phase::Rendering && (old(self).phase == Phase::InFlight ==> event
                == SurfaceEvent::VBlank),
    {
        match event {
            SurfaceEvent::RenderRequest => self.request(),
            SurfaceEvent::Initialized(success) => {
                match self.phase {
                    Phase::Configured => {
                        if success {
                            self.phase = Phase::Idle;
                            self.request()
                        } else {
                            RenderAction::Rejected(Rejection::InitFailed)
                        }
                    },
                    _ => RenderAction::Rejected(Rejection::OutOfTurn),
                }
            },
            SurfaceEvent::Finished(outcome) => {
                match self.phase {
                    Phase::Rendering => {
                        match outcome {
                            RenderOutcome::RenderFailed => {
                                self.phase = Phase::Idle;
                                RenderAction::Stalled
                            },
                            RenderOutcome::QueueFailed => {
                                self.count_frame();
                                self.phase = Phase::Idle;
                                RenderAction::Stalled
                            },
                            RenderOutcome::Queued => {
                                self.count_frame();
                                self.phase = Phase::InFlight;
                                RenderAction::Wait
                            },
                        }
                    },
                    _ => RenderAction::Rejected(Rejection::OutOfTurn),
                }
            },
            SurfaceEvent::VBlank => {
                match self.phase {
                    Phase::InFlight => {
                        self.phase = Phase::Idle;
                    },
                    _ => {},
                }
                self.request()
            },
        }
    }
}

} // verus!
