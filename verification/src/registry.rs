//! The registry of GPUs in service: one entry per device node, each owning
//! the surfaces of its CRTCs.

use crate::connector::Connection;
use crate::node::{lemma_key_injective, DeviceNode};
use crate::scanner::ConnectorScanner;
use crate::surface::Surface;
use std::collections::HashMap;
use vstd::prelude::*;

verus! {

broadcast use vstd::std_specs::hash::group_hash_axioms;

/// Everything kept for one GPU in service.
pub struct BackendData {
    pub render_node: DeviceNode,
    pub drm_scanner: ConnectorScanner,
    pub surfaces: HashMap<u32, Surface>,
}

/// What a device's entry holds, as mathematical values.
pub struct BackendModel {
    pub render_node: DeviceNode,
    pub seen: Map<u32, Connection>,
    pub surfaces: Map<u32, Surface>,
}

impl View for BackendData {
    type V = BackendModel;

    open spec fn view(&self) -> BackendModel {
        BackendModel {
            render_node: self.render_node,
            seen: self.drm_scanner@,
            surfaces: self.surfaces@,
        }
    }
}

/// The entry of a device that has just come into service: nothing scanned,
/// no surface.
pub open spec fn fresh_backend(render_node: DeviceNode) -> BackendModel {
    BackendModel { render_node, seen: Map::empty(), surfaces: Map::empty() }
}

impl BackendData {
    /// The entry of a device that has just come into service.
    pub fn new(render_node: DeviceNode) -> (data: BackendData)
        ensures
            data@ == fresh_backend(render_node),
    {
        BackendData { render_node, drm_scanner: ConnectorScanner::new(), surfaces: HashMap::new() }
    }

    /// Takes the surface of a CRTC out of the entry.
    pub fn take_surface(&mut self, crtc: u32) -> (taken: Option<Surface>)
        ensures
            final(self)@.render_node == old(self)@.render_node,
            final(self)@.seen == old(self)@.seen,
            final(self)@.surfaces == old(self)@.surfaces.remove(crtc),
            taken == old(self)@.surfaces.get(crtc),
    {
        let taken = self.surfaces.remove(&crtc);
        taken
    }

    /// Stores a surface for a CRTC, in place of the one stored before.
    pub fn put_surface(&mut self, crtc: u32, surface: Surface)
        ensures
            final(self)@.render_node == old(self)@.render_node,
            final(self)@.seen == old(self)@.seen,
            final(self)@.surfaces == old(self)@.surfaces.insert(crtc, surface),
    {
        self.surfaces.insert(crtc, surface);
    }
}

/// The GPUs in service, and which of them is the primary render GPU.
pub struct UdevData {
    pub primary_gpu: DeviceNode,
    pub backends: HashMap<u64, BackendData>,
}

/// The registry as mathematical values: the primary render GPU, and the
/// entry of each device in service.
pub struct RegistryModel {
    pub primary_gpu: DeviceNode,
    pub devices: Map<DeviceNode, BackendModel>,
}

impl View for UdevData {
    type V = RegistryModel;

    open spec fn view(&self) -> RegistryModel {
        RegistryModel {
            primary_gpu: self.primary_gpu,
            devices: Map::new(
                |node: DeviceNode| self.backends@.contains_key(node.spec_key()),
                |node: DeviceNode| self.backends@[node.spec_key()]@,
            ),
        }
    }
}

/// The node that has a given device number.
pub open spec fn node_of_key(key: u64) -> DeviceNode {
    DeviceNode { major: (key / 0x1_0000_0000) as u32, minor: (key % 0x1_0000_0000) as u32 }
}

impl UdevData {
    /// A registry with no device in service.
    pub fn new(primary_gpu: DeviceNode) -> (data: UdevData)
        ensures
            data@ == (RegistryModel {
                primary_gpu,
                devices: Map::<DeviceNode, BackendModel>::empty(),
            }),
    {
        let data = UdevData { primary_gpu, backends: HashMap::new() };
        assert(data@.devices =~= Map::<DeviceNode, BackendModel>::empty());
        data
    }

    /// Whether a device is in service.
    pub fn contains(&self, node: DeviceNode) -> (has: bool)
        ensures
            has == self@.devices.contains_key(node),
    {
        let key = node.key();
        self.backends.contains_key(&key)
    }

    /// Whether no device is in service.
    pub fn is_empty(&self) -> (empty: bool)
        ensures
            empty == (self@.devices == Map::<DeviceNode, BackendModel>::empty()),
    {
        let empty = self.backends.is_empty();
        proof {
            if empty {
                assert(self.backends@.len() == 0);
                assert(self.backends@.dom().finite());
                assert(self.backends@.dom().len() == 0);
                assert(self.backends@.dom() =~= Set::<u64>::empty());
                assert(self@.devices =~= Map::<DeviceNode, BackendModel>::empty());
            } else {
                assert(self.backends@.dom().len() != 0);
                assert(self.backends@.dom() != Set::<u64>::empty());
                let key = choose|key: u64| self.backends@.dom().contains(key);
                assert(self.backends@.dom().contains(key)) by {
                    if forall|k: u64| !self.backends@.dom().contains(k) {
                        assert(self.backends@.dom() =~= Set::<u64>::empty());
                    }
                }
                let node = node_of_key(key);
                assert(node.spec_key() == key);
                assert(self@.devices.contains_key(node));
            }
        }
        empty
    }

    /// The render node of a device in service.
    pub fn render_node_of(&self, node: DeviceNode) -> (render: Option<DeviceNode>)
        ensures
            render == (if self@.devices.contains_key(node) {
                Some(self@.devices[node].render_node)
            } else {
                None
            }),
    {
        let key = node.key();
        match self.backends.get(&key) {
            Some(data) => Some(data.render_node),
            None => None,
        }
    }

    /// Takes a device's entry out of the registry.
    pub fn take(&mut self, node: DeviceNode) -> (taken: Option<BackendData>)
        ensures
            final(self)@ == (RegistryModel {
                devices: old(self)@.devices.remove(node),
                ..old(self)@
            }),
            taken.is_some() == old(self)@.devices.contains_key(node),
            taken.is_some() ==> taken.unwrap()@ == old(self)@.devices[node],
    {
        let key = node.key();
        let taken = self.backends.remove(&key);
        proof {
            assert forall|other: DeviceNode| other.spec_key() == key implies other == node by {
                lemma_key_injective(other, node);
            }
            assert(self@.devices =~= old(self)@.devices.remove(node));
        }
        taken
    }

    /// Puts a device's entry into the registry, in place of the one it had.
    pub fn put(&mut self, node: DeviceNode, data: BackendData)
        ensures
            final(self)@ == (RegistryModel {
                devices: old(self)@.devices.insert(node, data@),
                ..old(self)@
            }),
    {
        let key = node.key();
        self.backends.insert(key, data);
        proof {
            assert forall|other: DeviceNode| other.spec_key() == key implies other == node by {
                lemma_key_injective(other, node);
            }
            assert(self@.devices =~= old(self)@.devices.insert(node, data@));
        }
    }
}

} // verus!
