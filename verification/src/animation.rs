use vstd::prelude::*;

verus! {

/// The first and last frame of a looping sprite animation.
#[derive(Clone, Copy, Debug, PartialEq, Eq)]
pub struct AnimationIndices {
    pub first: usize,
    pub last: usize,
}

/// The frame shown after `index`: the one after it, or `first` once `last`
/// has been shown.
pub open spec fn next_frame_spec(first: int, last: int, index: int) -> int {
    if index == last {
        first
    } else {
        index + 1
    }
}

/// The frame shown `steps` advances after `index`.
pub open spec fn frame_after(first: int, last: int, index: int, steps: nat) -> int
    decreases steps,
{
    if steps == 0 {
        index
    } else {
        next_frame_spec(first, last, frame_after(first, last, index, (steps - 1) as nat))
    }
}

impl AnimationIndices {
    /// The frame that follows `index` when the animation timer fires.
    pub fn next_frame(&self, index: usize) -> (next: usize)
        requires
            index == self.last || index < usize::MAX,
        ensures
            next == next_frame_spec(self.first as int, self.last as int, index as int),
    {
        if index == self.last {
            self.first
        } else {
            index + 1
        }
    }
}

/// A frame between `first` and `last` is followed by a frame between them.
pub proof fn lemma_next_frame_in_range(first: int, last: int, index: int)
    requires
        first <= index <= last,
    ensures
        first <= next_frame_spec(first, last, index) <= last,
{
}

proof fn lemma_frame_after_climbs(first: int, last: int, index: int, steps: nat)
    requires
        first <= index <= last,
        index + steps <= last,
    ensures
        frame_after(first, last, index, steps) == index + steps,
    decreases steps,
{
    if steps > 0 {
        lemma_frame_after_climbs(first, last, index, (steps - 1) as nat);
    }
}

proof fn lemma_frame_after_adds(first: int, last: int, index: int, a: nat, b: nat)
    ensures
        frame_after(first, last, index, a + b) == frame_after(
            first,
            last,
            frame_after(first, last, index, a),
            b,
        ),
    decreases b,
{
    if b > 0 {
        lemma_frame_after_adds(first, last, index, a, (b - 1) as nat);
        assert((a + b - 1) as nat == a + (b - 1) as nat);
    }
}

/// Started on any frame between `first` and `last`, the animation stays
/// between them and shows that frame again after exactly `last - first + 1`
/// advances.
pub proof fn lemma_animation_cycles(first: int, last: int, index: int, steps: nat)
    requires
        first <= index <= last,
    ensures
        first <= frame_after(first, last, index, steps) <= last,
        frame_after(first, last, index, (last - first + 1) as nat) == index,
    decreases steps,
{
    if steps > 0 {
        lemma_animation_cycles(first, last, index, (steps - 1) as nat);
        lemma_next_frame_in_range(first, last, frame_after(first, last, index, (steps - 1) as nat));
    }
    let up = (last - index) as nat;
    let down = (index - first) as nat;
    lemma_frame_after_climbs(first, last, index, up);
    assert(frame_after(first, last, index, up + 1) == first);
    lemma_frame_after_climbs(first, last, first, down);
    lemma_frame_after_adds(first, last, index, up + 1, down);
    assert((up + 1 + down) as nat == (last - first + 1) as nat);
}

} // verus!
