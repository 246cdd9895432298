//! The key under which a window record is stored in the world.

use vstd::prelude::*;

verus! {

/// Identifies one record in the shared world.  The entity-component
/// substrate allocates these; the library only compares and stores them.
#[derive(Clone, Copy, Debug, PartialEq, Eq, Hash, Structural)]
pub struct Entity {
    pub id: u64,
}

impl Entity {
    pub open spec fn spec_id(self) -> u64 {
        self.id
    }

    pub fn new(id: u64) -> (e: Entity)
        ensures
            e.spec_id() == id,
    {
        Entity { id }
    }

    pub fn id(&self) -> (r: u64)
        ensures
            r == self.spec_id(),
    {
        self.id
    }
}

} // verus!
