//! The instances of the plug-in in this process.

use vstd::prelude::*;

verus! {

/// Counts the instances and gives each its identifier.
#[derive(Debug)]
pub struct InstanceRegistry {
    active: u32,
    next_id: u64,
}

impl InstanceRegistry {
    /// Instances that are alive.
    pub closed spec fn active(&self) -> u32 {
        self.active
    }

    /// Identifier of the next instance.
    pub closed spec fn next_id(&self) -> u64 {
        self.next_id
    }

    pub fn new() -> (registry: Self)
        ensures
            registry.active() == 0,
            registry.next_id() == 1,
    {
        InstanceRegistry { active: 0, next_id: 1 }
    }

    /// Counts a new instance. Returns whether it is the only one, so that a shutdown that was
    /// announced is off.
    pub fn bump_active_instances(&mut self) -> (first: bool)
        ensures
            first == (old(self).active() == 0),
            final(self).active() == ((old(self).active() + 1) % 0x1_0000_0000) as u32,
            final(self).next_id() == old(self).next_id(),
    {
        let first: bool = self.active == 0;
        self.active = self.active.wrapping_add(1);
        first
    }

    /// Gives an instance its identifier.
    pub fn next_instance_id(&mut self) -> (id: u64)
        ensures
            id == old(self).next_id(),
            final(self).next_id() == ((old(self).next_id() + 1) % 0x1_0000_0000_0000_0000) as u64,
            final(self).active() == old(self).active(),
    {
        let id: u64 = self.next_id;
        self.next_id = self.next_id.wrapping_add(1);
        id
    }

    /// Counts an instance that goes away. Returns whether it was the last one, so that the
    /// shutdown is to be announced.
    pub fn drop_instance(&mut self) -> (last: bool)
        ensures
            last == (old(self).active() == 1),
            final(self).active() == (if old(self).active() == 0 {
                0
            } else {
                old(self).active() - 1
            }),
            final(self).next_id() == old(self).next_id(),
    {
        let last: bool = self.active == 1;
        if self.active > 0 {
            self.active = self.active - 1;
        }
        last
    }
}

} // verus!
