use vstd::prelude::*;

verus! {

/// An entity identifier: the index of the entity's slot in its world.
#[derive(Clone, Copy, Debug, PartialEq, Eq, Structural)]
pub struct Entity(pub usize);

impl Entity {
    /// The slot index of this entity.
    pub open spec fn index(self) -> int {
        self.0 as int
    }
}

} // verus!
