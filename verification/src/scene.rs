//! The unit of content that the registry stores.

use vstd::prelude::*;

verus! {

/// A scene. The registry stores scenes and hands them to listeners; it never
/// looks inside one. The identifier only tells one scene from another.
#[derive(Debug, PartialEq, Eq)]
pub struct Scene {
    id: u64,
}

impl View for Scene {
    type V = u64;

    closed spec fn view(&self) -> u64 {
        self.id
    }
}

impl Scene {
    /// A scene with the given identifier.
    pub fn new(id: u64) -> (scene: Self)
        ensures
            scene@ == id,
    {
        Scene { id }
    }

    /// The identifier that the scene was made with.
    pub fn id(&self) -> (id: u64)
        ensures
            id == self@,
    {
        self.id
    }
}

} // verus!
