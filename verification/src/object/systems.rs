//! Systems: what is done to the entities of a scene in every frame.

use crate::object::components::{COMPONENT_ID_STATIC_MODEL, COMPONENT_ID_TRANSFORM};
use vstd::prelude::*;

verus! {

/// Turns every drawn entity a little further in each frame.
pub struct HRotatingSystem {
    counter: i64,
}

impl View for HRotatingSystem {
    type V = int;

    /// The number of frames begun so far.
    closed spec fn view(&self) -> int {
        self.counter as int
    }
}

impl HRotatingSystem {
    /// A system that has seen no frame yet.
    pub fn new() -> (system: Self)
        ensures
            system@ == 0,
    {
        Self { counter: 0 }
    }

    /// Counts a frame.
    pub fn begin_frame(&mut self)
        requires
            old(self)@ < i64::MAX,
        ensures
            final(self)@ == old(self)@ + 1,
    {
        self.counter += 1;
    }

    /// The number of frames begun so far; the angle of the turn grows with
    /// it.
    pub fn counter(&self) -> (frames: i64)
        ensures
            frames == self@,
    {
        self.counter
    }

    /// The components that an entity must have for this system to turn it:
    /// a transform and a static model.
    pub fn get_interested_components(&self) -> (group: [u32; 2])
        ensures
            group@ == seq![COMPONENT_ID_TRANSFORM, COMPONENT_ID_STATIC_MODEL],
    {
        [COMPONENT_ID_TRANSFORM, COMPONENT_ID_STATIC_MODEL]
    }
}

} // verus!
