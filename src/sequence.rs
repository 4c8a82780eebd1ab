use vstd::prelude::*;

verus! {

/// An immutable, ordered list of sprite-atlas offsets `(x, y)`.
///
/// Each frame stores its own position, so frames can be packed in the atlas
/// in any order.
pub struct RandomAccessAnimation {
    positions: Vec<(i32, i32)>,
}

impl View for RandomAccessAnimation {
    type V = Seq<(i32, i32)>;

    closed spec fn view(&self) -> Seq<(i32, i32)> {
        self.positions@
    }
}

impl RandomAccessAnimation {
    /// Builds a sequence from its frame positions, in playback order.
    pub fn new(positions: Vec<(i32, i32)>) -> (r: Self)
        ensures
            r@ == positions@,
    {
        RandomAccessAnimation { positions }
    }

    /// The number of frames.
    pub fn len(&self) -> (r: usize)
        ensures
            r == self@.len(),
    {
        self.positions.len()
    }

    /// The position of frame `i`.
    pub fn frame_at(&self, i: usize) -> (r: (i32, i32))
        requires
            i < self@.len(),
        ensures
            r == self@[i as int],
    {
        self.positions[i]
    }
}

} // verus!
