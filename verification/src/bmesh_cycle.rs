//! A fixed-size circular sequence: traversal around a face's boundary
//! without a true circular linked structure.

use vstd::prelude::*;

verus! {

/// Representation of a circular linked list: a fixed vector and a cursor
/// that wraps around at the end.
pub struct BMeshCycle<T> {
    /// The items of the cycle, in order.
    pub data: Vec<T>,
    /// The cursor: the position of the current item.
    pub current_index: usize,
}

impl<T> BMeshCycle<T> {
    /// The cursor position one step ahead, wrapping at the end.
    pub fn increment_current_index(&self) -> (r: usize)
        requires
            self.current_index < self.data@.len(),
        ensures
            r as int == (self.current_index as int + 1) % (self.data@.len() as int),
    {
        let len = self.data.len();
        (self.current_index + 1) % len
    }

    /// A reference to the current item, as the item one is on in a
    /// circular list.
    pub fn get(&self) -> (r: &T)
        requires
            self.current_index < self.data@.len(),
        ensures
            *r == self.data@[self.current_index as int],
    {
        &self.data[self.current_index]
    }

    /// A reference to the next item, looping back to the start at the
    /// end; the cycle itself does not advance, so `get` is unchanged by
    /// this call.
    pub fn next(&self) -> (r: &T)
        requires
            self.current_index < self.data@.len(),
        ensures
            *r == self.data@[(self.current_index as int + 1) % (self.data@.len() as int)],
    {
        &self.data[self.increment_current_index()]
    }

    /// The cycle with its cursor advanced one step, wrapping at the end.
    pub fn advance(self) -> (r: Self)
        requires
            self.current_index < self.data@.len(),
        ensures
            r.data@ == self.data@,
            r.current_index as int == (self.current_index as int + 1) % (self.data@.len() as int),
    {
        let next_index = self.increment_current_index();
        BMeshCycle { data: self.data, current_index: next_index }
    }
}

impl<T> From<Vec<T>> for BMeshCycle<T> {
    /// Builds a cycle over the vector's items with the cursor at the
    /// start.
    fn from(v: Vec<T>) -> (r: Self) {
        BMeshCycle { data: v, current_index: 0 }
    }
}

impl<T> vstd::std_specs::convert::FromSpecImpl<Vec<T>> for BMeshCycle<T> {
    open spec fn obeys_from_spec() -> bool {
        true
    }

    open spec fn from_spec(v: Vec<T>) -> Self {
        BMeshCycle { data: v, current_index: 0 }
    }
}

/// Bookkeeping attached to mesh elements during tesselation to set up an
/// index buffer.
pub struct BMeshMetadata {
    /// The element's slot in the index buffer being built.
    pub index: usize,
}

} // verus!
