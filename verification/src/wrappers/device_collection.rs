use vstd::prelude::*;

use crate::wrappers::audio_session_collection::index_step;

verus! {

/// The count of items as a mathematical integer.
pub open spec fn count_u32(count: Option<u32>) -> Option<int> {
    match count {
        Some(n) => Some(n as int),
        None => None,
    }
}

/// The active playback devices, as the device collection `C` lists them,
/// together with the configuration `G` each device is created with.
pub struct DeviceCollection<C, G> {
    collection: C,
    config: G,
}

/// Walks the devices of a collection by position.
pub struct DeviceCollectionIterator<'a, C, G> {
    collection: &'a DeviceCollection<C, G>,
    index: u32,
}

impl<C, G> DeviceCollection<C, G> {
    /// The device collection read.
    pub closed spec fn spec_collection(&self) -> C {
        self.collection
    }

    /// The configuration given to each device.
    pub closed spec fn spec_config(&self) -> G {
        self.config
    }

    /// A collection over the devices that `collection` lists.
    pub fn new(collection: C, config: G) -> (result: Self)
        ensures
            result.spec_collection() == collection,
            result.spec_config() == config,
    {
        Self { collection, config }
    }

    /// The device collection read.
    pub fn collection(&self) -> (result: &C)
        ensures
            *result == self.spec_collection(),
    {
        &self.collection
    }

    /// The configuration given to each device.
    pub fn config(&self) -> (result: &G)
        ensures
            *result == self.spec_config(),
    {
        &self.config
    }

    /// An iterator that starts at the first device.
    pub fn iter(&self) -> (result: DeviceCollectionIterator<'_, C, G>)
        ensures
            result.spec_index() == 0,
            *result.spec_owner() == *self,
    {
        DeviceCollectionIterator { collection: self, index: 0 }
    }
}

impl<'a, C, G> DeviceCollectionIterator<'a, C, G> {
    /// Position of the next device to read.
    pub closed spec fn spec_index(&self) -> int {
        self.index as int
    }

    /// The collection walked.
    pub closed spec fn spec_owner(&self) -> &'a DeviceCollection<C, G> {
        self.collection
    }

    /// The collection walked.
    pub fn owner(&self) -> (result: &'a DeviceCollection<C, G>)
        ensures
            result == self.spec_owner(),
    {
        self.collection
    }

    /// Given the number of devices, or `None` when it could not be read, the
    /// position of the device to read next, after which the iterator moves
    /// on; `None`, with the iterator left where it is, once every device was
    /// read or when the number is unknown.
    pub fn next_index(&mut self, count: Option<u32>) -> (result: Option<u32>)
        ensures
            final(self).spec_owner() == old(self).spec_owner(),
            index_step(old(self).spec_index(), count_u32(count)) == (count_u32(result), final(self).spec_index()),
            match count {
                Some(n) => if old(self).spec_index() < n {
                    result matches Some(i) && i as int == old(self).spec_index() && final(self).spec_index()
                        == old(self).spec_index() + 1
                } else {
                    result is None && final(self).spec_index() == old(self).spec_index()
                },
                None => result is None && final(self).spec_index() == old(self).spec_index(),
            },
    {
        match count {
            Some(n) => if self.index < n {
                let current: u32 = self.index;
                self.index = current + 1;
                Some(current)
            } else {
                None
            },
            None => None,
        }
    }
}

} // verus!
