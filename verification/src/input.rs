//! What the reactor decides for input, session and hot-plug events, and when
//! its loop ends.

use crate::node::DeviceNode;
use crate::order::lemma_running_keeps_order;
use crate::state::{DrmCompositorState, StateModel};
use vstd::prelude::*;

verus! {

/// Key code of the Q key.
pub const KEY_Q: u32 = 24;

/// Key code of the backspace key.
pub const KEY_BACKSPACE: u32 = 22;

/// Longest wait of one reactor iteration, in milliseconds: one tick of a
/// 60 Hz display.
pub const TICK_MS: u64 = 16;

/// What becomes of a key event.
#[derive(Clone, Copy, Debug, PartialEq, Eq, Structural)]
pub enum KeyAction {
    /// The exit combination: intercept the key and shut the reactor down.
    Exit,
    /// Any other key: forward it to the focused client.
    Forward,
}

/// Whether a key event is the exit combination: Q or backspace pressed while
/// control and alt are held.
pub open spec fn is_exit_combination(pressed: bool, code: u32, ctrl: bool, alt: bool) -> bool {
    pressed && ctrl && alt && (code == KEY_Q || code == KEY_BACKSPACE)
}

/// Handles a key event: the exit combination asks the reactor to stop,
/// every other key is forwarded and changes nothing.
pub fn keyboard_key(
    state: &mut DrmCompositorState,
    pressed: bool,
    code: u32,
    ctrl: bool,
    alt: bool,
) -> (action: KeyAction)
    ensures
        action == (if is_exit_combination(pressed, code, ctrl, alt) {
            KeyAction::Exit
        } else {
            KeyAction::Forward
        }),
        final(state)@ == (StateModel {
            running: old(state)@.running && !is_exit_combination(pressed, code, ctrl, alt),
            ..old(state)@
        }),
        old(state)@.wf() ==> final(state)@.wf(),
{
    if pressed && ctrl && alt && (code == KEY_Q || code == KEY_BACKSPACE) {
        state.running = false;
        proof {
            if old(state)@.wf() {
                lemma_running_keeps_order(old(state)@, false);
            }
        }
        KeyAction::Exit
    } else {
        KeyAction::Forward
    }
}

/// A notification from the session: the virtual terminal was switched away
/// or back.
#[derive(Clone, Copy, Debug, PartialEq, Eq, Structural)]
pub enum SessionEvent {
    PauseSession,
    ActivateSession,
}

/// What to do with the input subsystem on a session notification.
#[derive(Clone, Copy, Debug, PartialEq, Eq, Structural)]
pub enum SessionAction {
    SuspendInput,
    ResumeInput,
}

/// Decides what a session notification means for the input subsystem:
/// suspended while the session is paused, resumed when it is active again.
pub fn session_action(event: SessionEvent) -> (action: SessionAction)
    ensures
        action == (match event {
            SessionEvent::PauseSession => SessionAction::SuspendInput,
            SessionEvent::ActivateSession => SessionAction::ResumeInput,
        }),
{
    match event {
        SessionEvent::PauseSession => SessionAction::SuspendInput,
        SessionEvent::ActivateSession => SessionAction::ResumeInput,
    }
}

/// A device hot-plug notification. The node is `None` where the device
/// number that came with it names no GPU node.
#[derive(Clone, Copy, Debug, PartialEq, Eq, Structural)]
pub enum HotplugEvent {
    Added(Option<DeviceNode>),
    Changed(Option<DeviceNode>),
    Removed(Option<DeviceNode>),
}

/// What to do on a hot-plug notification.
#[derive(Clone, Copy, Debug, PartialEq, Eq, Structural)]
pub enum HotplugAction {
    /// Carry out the set-up steps for the device and register it.
    SetUp(DeviceNode),
    /// Scan the device's connectors.
    Scan(DeviceNode),
    /// Take the device out of service.
    TearDown(DeviceNode),
    /// Nothing to do.
    Ignore,
}

/// The action that a hot-plug notification calls for in a given state.
pub open spec fn hotplug_action(state: StateModel, event: HotplugEvent) -> HotplugAction {
    match event {
        HotplugEvent::Added(Some(node)) => if state.devices.contains_key(node) {
            HotplugAction::Scan(node)
        } else {
            HotplugAction::SetUp(node)
        },
        HotplugEvent::Changed(Some(node)) => if state.devices.contains_key(node) {
            HotplugAction::Scan(node)
        } else {
            HotplugAction::Ignore
        },
        HotplugEvent::Removed(Some(node)) => if state.devices.contains_key(node) {
            HotplugAction::TearDown(node)
        } else {
            HotplugAction::Ignore
        },
        _ => HotplugAction::Ignore,
    }
}

/// Routes a hot-plug notification: a new device is set up, a device in
/// service is scanned when it changed or was announced again and torn down
/// when it was removed; a notification for an unknown device or with an
/// invalid device number is ignored.
pub fn route_hotplug(state: &DrmCompositorState, event: HotplugEvent) -> (action: HotplugAction)
    ensures
        action == hotplug_action(state@, event),
{
    match event {
        HotplugEvent::Added(Some(node)) => {
            if state.udev_data.contains(node) {
                HotplugAction::Scan(node)
            } else {
                HotplugAction::SetUp(node)
            }
        },
        HotplugEvent::Changed(Some(node)) => {
            if state.udev_data.contains(node) {
                HotplugAction::Scan(node)
            } else {
                HotplugAction::Ignore
            }
        },
        HotplugEvent::Removed(Some(node)) => {
            if state.udev_data.contains(node) {
                HotplugAction::TearDown(node)
            } else {
                HotplugAction::Ignore
            }
        },
        _ => HotplugAction::Ignore,
    }
}

/// Whether the reactor goes round once more.
#[derive(Clone, Copy, Debug, PartialEq, Eq, Structural)]
pub enum LoopVerdict {
    /// Dispatch the next iteration.
    Continue,
    /// A graceful shutdown was asked for.
    ExitRequested,
    /// The wall-clock limit has passed.
    TimedOut,
}

/// Decides, once per iteration, whether the reactor goes on: it stops when
/// shutdown was asked for, and else when a time limit is set and more time
/// than that has passed since start.
pub fn loop_verdict(
    state: &DrmCompositorState,
    elapsed_ms: u64,
    limit_ms: Option<u64>,
) -> (verdict: LoopVerdict)
    ensures
        verdict == (if !state@.running {
            LoopVerdict::ExitRequested
        } else if limit_ms.is_some() && elapsed_ms > limit_ms.unwrap() {
            LoopVerdict::TimedOut
        } else {
            LoopVerdict::Continue
        }),
{
    if !state.running {
        return LoopVerdict::ExitRequested;
    }
    match limit_ms {
        Some(limit) => {
            if elapsed_ms > limit {
                LoopVerdict::TimedOut
            } else {
                LoopVerdict::Continue
            }
        },
        None => LoopVerdict::Continue,
    }
}

} // verus!
