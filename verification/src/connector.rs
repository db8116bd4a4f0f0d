//! What one enumeration of a device reports of a display connector.

use crate::mode::Mode;
use crate::output::Subpixel;
use vstd::prelude::*;

verus! {

/// Whether a display is attached to a connector.
#[derive(Clone, Copy, Debug, PartialEq, Eq, Structural)]
pub enum Connection {
    Connected,
    Disconnected,
    Unknown,
}

/// One connector as the device reports it, with the CRTC that drove it
/// before the assignment of CRTCs was brought up to date, and the CRTC that
/// is assigned to it now.
pub struct ConnectorInfo {
    pub handle: u32,
    pub connection: Connection,
    pub interface: u32,
    pub interface_id: u32,
    pub size: Option<(u32, u32)>,
    pub subpixel: Subpixel,
    pub modes: Vec<Mode>,
    pub crtc_before: Option<u32>,
    pub crtc_after: Option<u32>,
}

} // verus!
