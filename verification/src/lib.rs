//! Decision logic of a display-server backend: which mode a connector gets,
//! where an output is placed, how a surface moves between its states and how
//! frames are paced against vertical blanks.

pub mod connector;
pub mod hotplug;
pub mod input;
pub mod lifecycle;
pub mod mode;
pub mod node;
pub mod order;
pub mod output;
pub mod pacing;
pub mod placement;
pub mod pointer;
pub mod registry;
pub mod scanner;
pub mod setup;
pub mod startup;
pub mod state;
pub mod surface;
