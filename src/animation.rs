//! Frame stepping for sprite-sheet animations.
use vstd::prelude::*;

verus! {

/// The frames an animation cycles through, from `first` to `last`.
#[derive(Clone, Copy, Debug, PartialEq, Eq, Structural)]
pub struct AnimationIndices {
    pub first: usize,
    pub last: usize,
}

impl AnimationIndices {
    /// The frame after `index`: the next one within the range, or back to
    /// `first` from the last frame or from outside the range.
    pub fn next_index(&self, index: usize) -> (r: usize)
        ensures
            r == if index >= self.last || index < self.first {
                self.first as int
            } else {
                index + 1
            },
    {
        if index >= self.last {
            self.first
        } else if index < self.first {
            self.first
        } else {
            index + 1
        }
    }
}

} // verus!
