//! Handle for the external shared-memory transport that moves snapshot
//! records between processes.
//!
//! The transport itself is an external collaborator reached over a narrow
//! interface; this core only keys it by name and records the configured
//! capacity. The calls that physically move records live at the unverified
//! boundary.

use vstd::prelude::*;

verus! {

/// Names one shared-memory ring and remembers its configured capacity.
pub struct SharedMemoryQueue {
    name: String,
    capacity: usize,
}

impl SharedMemoryQueue {
    pub closed spec fn name_spec(self) -> Seq<char> {
        self.name@
    }

    pub closed spec fn capacity_spec(self) -> int {
        self.capacity as int
    }

    pub fn new(name: &str, capacity: usize) -> (r: Self)
        ensures
            r.name_spec() == name@,
            r.capacity_spec() == capacity,
    {
        SharedMemoryQueue { name: name.to_owned(), capacity }
    }

    /// The transport name this handle was opened with.
    pub fn name(&self) -> (r: &str)
        ensures
            r@ == self.name_spec(),
    {
        self.name.as_str()
    }

    /// The capacity this handle was configured with.
    pub fn capacity(&self) -> (r: usize)
        ensures
            r == self.capacity_spec(),
    {
        self.capacity
    }
}

} // verus!
