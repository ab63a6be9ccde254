use vstd::prelude::*;

verus! {

/// A component of this type is already a part of the entity (or of the
/// builder) that it was added to.
#[derive(Debug, Clone, Copy, PartialEq, Eq, Structural)]
pub struct AlreadyExists;

impl AlreadyExists {
    /// A human-readable description of the error.
    pub fn message(&self) -> (r: &'static str)
        ensures
            r@ == "component already exists"@,
    {
        "component already exists"
    }
}

} // verus!
