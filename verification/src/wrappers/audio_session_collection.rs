use vstd::prelude::*;

verus! {

/// One step of walking a collection by position: with `count` items known,
/// the item at `index` is read and the walk moves on, until `index` reaches
/// `count`; when the count is unknown, nothing is read.  The result is the
/// position read, if any, and the position after the step.
pub open spec fn index_step(index: int, count: Option<int>) -> (Option<int>, int) {
    match count {
        Some(n) => if index < n {
            (Some(index), index + 1)
        } else {
            (None, index)
        },
        None => (None, index),
    }
}

/// The position reached after `k` steps from the start over `count` items.
pub open spec fn walk(count: int, k: nat) -> int
    decreases k,
{
    if k == 0 {
        0
    } else {
        index_step(walk(count, (k - 1) as nat), Some(count)).1
    }
}

/// Walking a collection of `count` items from the start reads positions 0, 1,
/// 2, ... in order, each once: step `k` reads position `k` while `k < count`,
/// and every later step reads nothing.
pub proof fn law_positions_in_order(count: int, k: nat)
    ensures
        walk(count, k) == (if k <= count {
            k as int
        } else if count >= 0 {
            count
        } else {
            0
        }),
        index_step(walk(count, k), Some(count)).0 == (if k < count {
            Some(k as int)
        } else {
            None::<int>
        }),
    decreases k,
{
    if k > 0 {
        law_positions_in_order(count, (k - 1) as nat);
    }
}

/// The count of items as a mathematical integer.
pub open spec fn count_i32(count: Option<i32>) -> Option<int> {
    match count {
        Some(n) => Some(n as int),
        None => None,
    }
}

/// The audio sessions of a device, as the session enumerator `E` of that
/// device lists them.
pub struct AudioSessionCollection<E> {
    enumerator: E,
}

/// Walks the sessions of a collection by position.
pub struct AudioSessionCollectionIterator<'a, E> {
    collection: &'a AudioSessionCollection<E>,
    index: i32,
}

impl<E> AudioSessionCollection<E> {
    /// The session enumerator the collection reads.
    pub closed spec fn spec_enumerator(&self) -> E {
        self.enumerator
    }

    /// A collection over the sessions that `enumerator` lists.
    pub fn new(enumerator: E) -> (result: Self)
        ensures
            result.spec_enumerator() == enumerator,
    {
        Self { enumerator }
    }

    /// The session enumerator the collection reads.
    pub fn enumerator(&self) -> (result: &E)
        ensures
            *result == self.spec_enumerator(),
    {
        &self.enumerator
    }

    /// An iterator that starts at the first session.
    pub fn iter(&self) -> (result: AudioSessionCollectionIterator<'_, E>)
        ensures
            result.spec_index() == 0,
            *result.spec_collection() == *self,
    {
        AudioSessionCollectionIterator { collection: self, index: 0 }
    }
}

impl<'a, E> AudioSessionCollectionIterator<'a, E> {
    /// Position of the next session to read.
    pub closed spec fn spec_index(&self) -> int {
        self.index as int
    }

    /// The collection walked.
    pub closed spec fn spec_collection(&self) -> &'a AudioSessionCollection<E> {
        self.collection
    }

    /// The collection walked.
    pub fn collection(&self) -> (result: &'a AudioSessionCollection<E>)
        ensures
            result == self.spec_collection(),
    {
        self.collection
    }

    /// Position of the next session to read.
    pub fn index(&self) -> (result: i32)
        ensures
            result as int == self.spec_index(),
    {
        self.index
    }

    /// Given the number of sessions, or `None` when it could not be read,
    /// the position of the session to read next, after which the iterator
    /// moves on; `None`, with the iterator left where it is, once every
    /// session was read or when the number is unknown.
    pub fn next_index(&mut self, count: Option<i32>) -> (result: Option<i32>)
        ensures
            final(self).spec_collection() == old(self).spec_collection(),
            index_step(old(self).spec_index(), count_i32(count)) == (count_i32(result), final(self).spec_index()),
            match count {
                Some(n) => if old(self).spec_index() < n {
                    result matches Some(i) && i as int == old(self).spec_index() && final(self).spec_index() == old(self).spec_index() + 1
                } else {
                    result is None && final(self).spec_index() == old(self).spec_index()
                },
                None => result is None && final(self).spec_index() == old(self).spec_index(),
            },
    {
        match count {
            Some(n) => if self.index < n {
                let current: i32 = self.index;
                self.index = current + 1;
                Some(current)
            } else {
                None
            },
            None => None,
        }
    }
}

} // verus!
