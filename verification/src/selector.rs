//! The six-state selector of the colour channels that an intensity drives.

use vstd::prelude::*;
use crate::color::ColorState;

verus! {

/// The number of channel patterns.
pub const PATTERN_COUNT: u8 = 6;

/// The index that a toggle turns `index` into.
pub open spec fn spec_next_index(index: int) -> int {
    (index + 1) % 6
}

/// The colour that pattern `index` makes of `intensity`: the channels of the
/// pattern hold the intensity, the others are off.
///
/// The patterns are, in order: red, green, blue, red and green, red and
/// blue, green and blue.
pub open spec fn spec_apply(intensity: u32, index: int) -> ColorState {
    if index == 0 {
        ColorState { r: intensity, g: 0, b: 0 }
    } else if index == 1 {
        ColorState { r: 0, g: intensity, b: 0 }
    } else if index == 2 {
        ColorState { r: 0, g: 0, b: intensity }
    } else if index == 3 {
        ColorState { r: intensity, g: intensity, b: 0 }
    } else if index == 4 {
        ColorState { r: intensity, g: 0, b: intensity }
    } else {
        ColorState { r: 0, g: intensity, b: intensity }
    }
}

/// The index that `n` toggles in a row turn `index` into.
pub open spec fn spec_index_after_toggles(index: int, n: nat) -> int
    decreases n,
{
    if n == 0 {
        index
    } else {
        spec_index_after_toggles(spec_next_index(index), (n - 1) as nat)
    }
}

/// Toggles count round the six patterns: `n` of them move the index `n`
/// places on. So six toggles in a row lead back to the index they started
/// from, and so does a number of toggles exactly where it is a multiple of
/// six.
pub proof fn lemma_toggle_cycle(index: int, n: nat)
    requires
        0 <= index < 6,
    ensures
        spec_index_after_toggles(index, n) == (index + n) % 6,
        0 <= spec_index_after_toggles(index, n) < 6,
        spec_index_after_toggles(index, 6) == index,
        spec_index_after_toggles(index, n) == index <==> n % 6 == 0,
    decreases n,
{
    if n > 0 {
        lemma_toggle_cycle(spec_next_index(index), (n - 1) as nat);
    }
    reveal_with_fuel(spec_index_after_toggles, 7);
}

/// Every channel of an applied pattern holds either the intensity or zero, so
/// the colour lies inside any duty range that holds the intensity; and no two
/// patterns make the same colour of an intensity other than zero.
pub proof fn lemma_apply_patterns(intensity: u32, index: int, other: int)
    requires
        0 <= index < 6,
        0 <= other < 6,
    ensures
        spec_apply(intensity, index).within(intensity),
        intensity > 0 && index != other ==> spec_apply(intensity, index) != spec_apply(
            intensity,
            other,
        ),
        spec_apply(0, index) == (ColorState { r: 0, g: 0, b: 0 }),
{
}

/// The state machine that picks the channel pattern.
///
/// Its state is an index in `0..6`, which a toggle moves to the next one and
/// from the last back to the first.
#[derive(Debug)]
pub struct ColorSelector {
    index: u8,
}

impl ColorSelector {
    #[verifier::type_invariant]
    spec fn well_formed(&self) -> bool {
        self.index < 6
    }

    /// The index of the pattern selected.
    pub closed spec fn spec_index(&self) -> int {
        self.index as int
    }

    /// The selector in its initial state, with index 0.
    pub fn new() -> (selector: ColorSelector)
        ensures
            selector.spec_index() == 0,
    {
        ColorSelector { index: 0 }
    }

    /// The selector with the index given, where that is an index of a pattern.
    pub fn with_index(index: u8) -> (selector: Option<ColorSelector>)
        ensures
            selector is Some <==> index < PATTERN_COUNT,
            selector matches Some(s) ==> s.spec_index() == index,
    {
        if index < PATTERN_COUNT {
            Some(ColorSelector { index })
        } else {
            None
        }
    }

    /// The index of the pattern selected, which is always below 6.
    pub fn index(&self) -> (index: u8)
        ensures
            index == self.spec_index(),
            index < PATTERN_COUNT,
    {
        proof {
            use_type_invariant(self);
        }
        self.index
    }

    /// Moves to the next pattern, and from the last back to the first.
    pub fn toggle(&mut self)
        ensures
            final(self).spec_index() == spec_next_index(old(self).spec_index()),
            0 <= final(self).spec_index() < 6,
        no_unwind
    {
        proof {
            use_type_invariant(&*self);
        }
        self.index = (self.index + 1) % PATTERN_COUNT;
    }

    /// The colour that the selected pattern makes of `intensity`.
    pub fn apply(&self, intensity: u32) -> (color: ColorState)
        ensures
            color == spec_apply(intensity, self.spec_index()),
            color.within(intensity),
            0 <= self.spec_index() < 6,
    {
        proof {
            use_type_invariant(self);
        }
        match self.index {
            0 => ColorState { r: intensity, g: 0, b: 0 },
            1 => ColorState { r: 0, g: intensity, b: 0 },
            2 => ColorState { r: 0, g: 0, b: intensity },
            3 => ColorState { r: intensity, g: intensity, b: 0 },
            4 => ColorState { r: intensity, g: 0, b: intensity },
            _ => ColorState { r: 0, g: intensity, b: intensity },
        }
    }
}

} // verus!
