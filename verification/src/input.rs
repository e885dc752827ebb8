//! What a frame is given: the time that has passed and the state of the
//! keys. Also the detector that turns a held key into the single frame in
//! which it went down.

use vstd::prelude::*;

verus! {

/// The input of one frame.
#[derive(Clone, Copy, Debug, PartialEq, Eq, Structural)]
pub struct FrameInput {
    /// Microseconds since the frame before.
    pub micros: u32,
    /// The key for moving left is down.
    pub left_held: bool,
    /// The key for moving right is down.
    pub right_held: bool,
    /// The jump key went down in this frame.
    pub jump_pressed: bool,
}

/// Remembers whether a key was down in the frame before.
#[derive(Clone, Copy, Debug, PartialEq, Eq, Structural)]
pub struct EdgeTrigger {
    /// The key was down when the trigger was last updated.
    pub was_held: bool,
}

/// Whether a key that is `held` now, and was or was not held before, went
/// down just now.
pub open spec fn rising(was_held: bool, held: bool) -> bool {
    held && !was_held
}

/// For each frame of `holds`, whether the key went down in it, given
/// whether it was down before the first one.
pub open spec fn edges(was_held: bool, holds: Seq<bool>) -> Seq<bool> {
    Seq::new(
        holds.len(),
        |i: int|
            rising(
                if i == 0 {
                    was_held
                } else {
                    holds[i - 1]
                },
                holds[i],
            ),
    )
}

impl EdgeTrigger {
    /// A trigger for a key that is up.
    pub fn new() -> (trigger: EdgeTrigger)
        ensures
            !trigger.was_held,
    {
        EdgeTrigger { was_held: false }
    }

    /// Takes the key's state in this frame and says whether the key went
    /// down in it.
    pub fn update(&mut self, held: bool) -> (pressed: bool)
        ensures
            pressed == rising(old(self).was_held, held),
            final(self).was_held == held,
    {
        let pressed = held && !self.was_held;
        self.was_held = held;
        pressed
    }
}

/// A key that is held without release goes down in the first frame, if it
/// was up before, and in no later one.
pub proof fn lemma_held_key_fires_once(was_held: bool, holds: Seq<bool>)
    requires
        forall|i: int| 0 <= i < holds.len() ==> holds[i],
    ensures
        forall|i: int| 0 < i < holds.len() ==> !(#[trigger] edges(was_held, holds)[i]),
        holds.len() > 0 ==> edges(was_held, holds)[0] == !was_held,
{
}

} // verus!
