//! What the player asks for on a frame, and the jump button's edge.
use vstd::prelude::*;

verus! {

/// What the player asks for on one frame.
#[derive(Clone, Copy, Debug, PartialEq, Eq, Structural)]
pub struct FrameInput {
    pub right: bool,
    pub left: bool,
    /// The jump button went down on this frame.
    pub jump: bool,
}

/// Turns the jump button's held state, sampled once per frame, into a
/// press that counts only on the frame where the button goes down.
#[derive(Clone, Copy, Debug, PartialEq, Eq, Structural)]
pub struct JumpButton {
    /// Whether the button was down on the previous frame.
    pub held: bool,
}

/// The presses seen over consecutive frames on which the button was down or
/// up as `downs` says, starting with the button held or not.
pub open spec fn presses(held: bool, downs: Seq<bool>) -> Seq<bool>
    decreases downs.len(),
{
    if downs.len() == 0 {
        Seq::empty()
    } else {
        seq![downs[0] && !held] + presses(downs[0], downs.drop_first())
    }
}

impl JumpButton {
    /// A button that is up.
    pub fn new() -> (r: JumpButton)
        ensures
            !r.held,
    {
        JumpButton { held: false }
    }

    /// Records this frame's state of the button; true when it has just gone
    /// down.
    pub fn press(&mut self, down: bool) -> (r: bool)
        ensures
            r == (down && !old(self).held),
            final(self).held == down,
    {
        let r = down && !self.held;
        self.held = down;
        r
    }
}

/// Holding the jump button over several frames presses it once: on the first
/// frame if it was up before, never if it was already held.
pub proof fn lemma_held_button_presses_once(held: bool, downs: Seq<bool>)
    requires
        forall|i: int| 0 <= i < downs.len() ==> #[trigger] downs[i],
    ensures
        presses(held, downs).len() == downs.len(),
        forall|i: int| 0 <= i < downs.len() ==> #[trigger] presses(held, downs)[i] == (i == 0 && !held),
    decreases downs.len(),
{
    if downs.len() > 0 {
        let rest = downs.drop_first();
        assert forall|i: int| 0 <= i < rest.len() implies #[trigger] rest[i] by {
            assert(rest[i] == downs[i + 1]);
        }
        lemma_held_button_presses_once(downs[0], rest);
        let p = presses(held, downs);
        assert forall|i: int| 0 <= i < downs.len() implies #[trigger] p[i] == (i == 0 && !held) by {
            if i > 0 {
                assert(p[i] == presses(downs[0], rest)[i - 1]);
            }
        }
    }
}

} // verus!
