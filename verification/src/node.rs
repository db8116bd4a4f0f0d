//! Identity of a GPU device node.

use vstd::prelude::*;

verus! {

/// A GPU device node, identified by its kernel device number.
#[derive(Clone, Copy, Debug, PartialEq, Eq, Structural)]
pub struct DeviceNode {
    pub major: u32,
    pub minor: u32,
}

impl DeviceNode {
    /// The node's device number as one integer: the major number above the
    /// minor number.
    pub open spec fn spec_key(self) -> u64 {
        (self.major * 0x1_0000_0000 + self.minor) as u64
    }

    /// The node's device number as one integer.
    pub fn key(&self) -> (k: u64)
        ensures
            k == self.spec_key(),
    {
        let high: u64 = self.major as u64;
        let low: u64 = self.minor as u64;
        high * 0x1_0000_0000 + low
    }
}

/// Two nodes with one device number are one node.
pub proof fn lemma_key_injective(a: DeviceNode, b: DeviceNode)
    requires
        a.spec_key() == b.spec_key(),
    ensures
        a == b,
{
}

} // verus!
