//! The cyclic list of target colours of the autonomous animation.

use vstd::prelude::*;
use vstd::arithmetic::div_mod::{lemma_mod_self_0, lemma_small_mod};
use crate::color::ColorState;

verus! {

/// The eight colours that the three channels give when each is either off or
/// at `max_duty`: off, red, green, blue, yellow, magenta, cyan, white.
pub open spec fn spec_palette(max_duty: u32) -> Seq<ColorState> {
    seq![
        ColorState { r: 0, g: 0, b: 0 },
        ColorState { r: max_duty, g: 0, b: 0 },
        ColorState { r: 0, g: max_duty, b: 0 },
        ColorState { r: 0, g: 0, b: max_duty },
        ColorState { r: max_duty, g: max_duty, b: 0 },
        ColorState { r: max_duty, g: 0, b: max_duty },
        ColorState { r: 0, g: max_duty, b: max_duty },
        ColorState { r: max_duty, g: max_duty, b: max_duty },
    ]
}

/// The position that follows `position` in a cycle of `len` targets.
pub open spec fn spec_next_position(position: int, len: int) -> int {
    (position + 1) % len
}

/// An ordered list of target colours that is walked round and round.
///
/// The list holds at least one colour and does not change once it is made.
#[derive(Debug)]
pub struct ColorSequence {
    targets: Vec<ColorState>,
}

impl View for ColorSequence {
    type V = Seq<ColorState>;

    closed spec fn view(&self) -> Seq<ColorState> {
        self.targets@
    }
}

impl ColorSequence {
    #[verifier::type_invariant]
    spec fn well_formed(&self) -> bool {
        self.targets@.len() > 0
    }

    /// The sequence of the colours of `targets`, in their order.
    pub fn new(targets: Vec<ColorState>) -> (sequence: ColorSequence)
        requires
            targets@.len() > 0,
        ensures
            sequence@ == targets@,
    {
        ColorSequence { targets }
    }

    /// The sequence of the eight colours of `spec_palette(max_duty)`.
    pub fn palette(max_duty: u32) -> (sequence: ColorSequence)
        ensures
            sequence@ == spec_palette(max_duty),
            forall|i: int| 0 <= i < sequence@.len() ==> (#[trigger] sequence@[i]).within(max_duty),
    {
        let mut targets: Vec<ColorState> = Vec::new();
        targets.push(ColorState { r: 0, g: 0, b: 0 });
        targets.push(ColorState { r: max_duty, g: 0, b: 0 });
        targets.push(ColorState { r: 0, g: max_duty, b: 0 });
        targets.push(ColorState { r: 0, g: 0, b: max_duty });
        targets.push(ColorState { r: max_duty, g: max_duty, b: 0 });
        targets.push(ColorState { r: max_duty, g: 0, b: max_duty });
        targets.push(ColorState { r: 0, g: max_duty, b: max_duty });
        targets.push(ColorState { r: max_duty, g: max_duty, b: max_duty });
        assert(targets@ =~= spec_palette(max_duty));
        ColorSequence { targets }
    }

    /// The number of targets, which is never zero.
    pub fn len(&self) -> (len: usize)
        ensures
            len == self@.len(),
            len > 0,
    {
        proof {
            use_type_invariant(self);
        }
        self.targets.len()
    }

    /// The target at `position`, counted round the cycle.
    pub fn target(&self, position: usize) -> (color: ColorState)
        ensures
            self@.len() > 0,
            color == self@[position as int % self@.len() as int],
    {
        proof {
            use_type_invariant(self);
        }
        self.targets[position % self.targets.len()]
    }

    /// The position that follows `position` round the cycle, back at the
    /// start after the last.
    pub fn next_position(&self, position: usize) -> (next: usize)
        ensures
            self@.len() > 0,
            next == spec_next_position(
                position as int % self@.len() as int,
                self@.len() as int,
            ),
            next < self@.len(),
            position + 1 < self@.len() ==> next == position + 1,
            position + 1 == self@.len() ==> next == 0,
    {
        proof {
            use_type_invariant(self);
        }
        let len = self.targets.len();
        let here = position % len;
        proof {
            if position < len {
                lemma_small_mod(position as nat, len as nat);
            }
            if here + 1 == len {
                lemma_mod_self_0(len as int);
            } else {
                lemma_small_mod((here + 1) as nat, len as nat);
            }
        }
        if here + 1 == len {
            0
        } else {
            here + 1
        }
    }
}

} // verus!
