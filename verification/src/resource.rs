//! A handle→value cache for loaded, process-lifetime data, independent of the
//! entity system. One manager owns one table of values of a single payload
//! type; an index minted by `create_resource` addresses that value forever.

use vstd::prelude::*;

verus! {

/// Addresses one value inside one `ResourceManager`'s table.
pub type ResourceIndex = usize;

/// Owns a growing table of resource values. Values are created once and then
/// only read; indices handed out by `create_resource` stay valid for the life
/// of the manager.
pub struct ResourceManager<V> {
    resource_store: Vec<V>,
}

impl<V> ResourceManager<V> {
    /// The mathematical content of the manager: the sequence of stored values,
    /// in creation order.
    pub closed spec fn view(&self) -> Seq<V> {
        self.resource_store@
    }

    /// An empty cache.
    pub fn new() -> (rm: ResourceManager<V>)
        ensures
            rm@ == Seq::<V>::empty(),
    {
        ResourceManager { resource_store: Vec::new() }
    }

    /// Stores a value and mints the index that addresses it: the next free
    /// slot of the table. Existing entries are untouched, so every index
    /// minted earlier still addresses the same value.
    pub fn create_resource(&mut self, resource: V) -> (index: ResourceIndex)
        ensures
            final(self)@ == old(self)@.push(resource),
            index == old(self)@.len(),
    {
        let index = self.resource_store.len();
        self.resource_store.push(resource);
        index
    }

    /// Reads the value addressed by `index`. Looking up an index that was
    /// never minted by this manager is a contract violation, ruled out by the
    /// precondition.
    pub fn get_resource(&self, index: ResourceIndex) -> (resource: &V)
        requires
            index < self@.len(),
        ensures
            *resource == self@[index as int],
    {
        &self.resource_store[index]
    }

    /// How many resources were created so far.
    pub fn len(&self) -> (n: usize)
        ensures
            n == self@.len(),
    {
        self.resource_store.len()
    }
}

} // verus!
