//! The level backdrop: a fixed image tiled behind the play field.

use vstd::prelude::*;

verus! {

/// A backdrop drawn from a single fixed surface.  The library only records
/// which surface to use; loading and blitting it belongs to the rendering
/// collaborator.
#[derive(Debug)]
pub struct FixedBackdrop {
    pub surface_id: String,
}

impl FixedBackdrop {
    pub fn new(path: &str) -> (b: FixedBackdrop)
        ensures
            b.surface_id@ == path@,
    {
        FixedBackdrop { surface_id: String::from_str(path) }
    }
}

} // verus!
