//! What holds of a surface over any sequence of events: frames are submitted
//! one at a time, and the frame counter counts completed renders.

use crate::surface::{Phase, RenderOutcome, Surface, SurfaceEvent};
use vstd::prelude::*;

verus! {

/// The surface after a sequence of events, taken in order.
pub open spec fn run(s: Surface, events: Seq<SurfaceEvent>) -> Surface
    decreases events.len(),
{
    if events.len() == 0 {
        s
    } else {
        run(s, events.drop_last()).after(events.last())
    }
}

/// The surface as event number `i` finds it.
pub open spec fn state_before(s: Surface, events: Seq<SurfaceEvent>, i: int) -> Surface {
    run(s, events.take(i))
}

/// Whether this event queues a frame for display on a surface in this state.
pub open spec fn submits(s: Surface, event: SurfaceEvent) -> bool {
    s.phase == Phase::Rendering && event == SurfaceEvent::Finished(RenderOutcome::Queued)
}

/// Whether this event completes a render pass on a surface in this state.
pub open spec fn completes(s: Surface, event: SurfaceEvent) -> bool {
    s.phase == Phase::Rendering && (event == SurfaceEvent::Finished(RenderOutcome::Queued)
        || event == SurfaceEvent::Finished(RenderOutcome::QueueFailed))
}

/// How many render passes a sequence of events completes.
pub open spec fn completed_renders(s: Surface, events: Seq<SurfaceEvent>) -> nat
    decreases events.len(),
{
    if events.len() == 0 {
        0
    } else {
        completed_renders(s, events.drop_last()) + if completes(
            run(s, events.drop_last()),
            events.last(),
        ) {
            1nat
        } else {
            0nat
        }
    }
}

/// Running one event more is running the events before it and then that one.
pub proof fn lemma_run_step(s: Surface, events: Seq<SurfaceEvent>, i: int)
    requires
        0 <= i < events.len(),
    ensures
        state_before(s, events, i + 1) == state_before(s, events, i).after(events[i]),
{
    let longer = events.take(i + 1);
    assert(longer.drop_last() =~= events.take(i));
    assert(longer.last() == events[i]);
}

/// A queued frame stays queued until a vertical blank arrives.
pub proof fn lemma_stays_in_flight(s: Surface, events: Seq<SurfaceEvent>, from: int, to: int)
    requires
        0 <= from <= to <= events.len(),
        state_before(s, events, from).phase == Phase::InFlight,
        forall|k: int| from <= k < to ==> events[k] != SurfaceEvent::VBlank,
    ensures
        state_before(s, events, to).phase == Phase::InFlight,
    decreases to - from,
{
    if from < to {
        lemma_stays_in_flight(s, events, from, to - 1);
        lemma_run_step(s, events, to - 1);
    }
}

/// At most one frame is in flight: between any two events that queue a frame
/// for a surface lies a vertical blank for it.
pub proof fn lemma_vblank_between_submissions(
    s: Surface,
    events: Seq<SurfaceEvent>,
    i: int,
    j: int,
)
    requires
        0 <= i < j < events.len(),
        submits(state_before(s, events, i), events[i]),
        submits(state_before(s, events, j), events[j]),
    ensures
        exists|k: int| i < k < j && events[k] == SurfaceEvent::VBlank,
{
    lemma_run_step(s, events, i);
    assert(state_before(s, events, i + 1).phase == Phase::InFlight);
    if !(exists|k: int| i < k < j && events[k] == SurfaceEvent::VBlank) {
        lemma_stays_in_flight(s, events, i + 1, j);
    }
}

/// While a frame is queued no frame is handed out for drawing: an event that
/// yields a `Draw` finds the surface outside `InFlight`, or is the vertical
/// blank itself.
pub proof fn lemma_no_draw_while_in_flight(s: Surface, event: SurfaceEvent)
    requires
        s.phase == Phase::InFlight,
        s.action(event) is Draw,
    ensures
        event == SurfaceEvent::VBlank,
{
}

/// Once a surface has its presentation handle it keeps it: after the
/// configured phase has been left, no sequence of events leads back to it.
pub proof fn lemma_handle_is_kept(s: Surface, events: Seq<SurfaceEvent>)
    requires
        s.phase != Phase::Configured,
    ensures
        run(s, events).phase != Phase::Configured,
    decreases events.len(),
{
    if events.len() > 0 {
        lemma_handle_is_kept(s, events.drop_last());
    }
}

/// The frame counter never decreases, and over any sequence of events it
/// grows by exactly the number of render passes completed.
pub proof fn lemma_frame_counter(s: Surface, events: Seq<SurfaceEvent>)
    requires
        s.wf(),
    ensures
        run(s, events).wf(),
        run(s, events).frames == s.frames + completed_renders(s, events),
        run(s, events).frames >= s.frames,
    decreases events.len(),
{
    if events.len() > 0 {
        lemma_frame_counter(s, events.drop_last());
    }
}

/// One completed render pass adds exactly one to the frame counter; any other
/// event leaves it as it is.
pub proof fn lemma_frame_counter_step(s: Surface, event: SurfaceEvent)
    requires
        s.wf(),
    ensures
        s.after(event).wf(),
        completes(s, event) ==> s.after(event).frames == s.frames + 1,
        !completes(s, event) ==> s.after(event).frames == s.frames,
{
}

} // verus!
