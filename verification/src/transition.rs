//! Stepwise convergence of a colour towards a target.
//!
//! One step moves every channel that differs from its target by one unit
//! towards it. Channels converge independently, so a colour reaches its
//! target after as many steps as its farthest channel is away.

use vstd::prelude::*;
use vstd::arithmetic::div_mod::{lemma_mod_self_0, lemma_small_mod};
use crate::color::{ColorChannel, ColorState};
use crate::sequence::{spec_next_position, ColorSequence};

verus! {

/// One scalar after one step towards `target`: unchanged where it has arrived,
/// else one unit nearer.
pub open spec fn spec_step_toward(current: u32, target: u32) -> u32 {
    if current == target {
        current
    } else if current > target {
        (current - 1) as u32
    } else {
        (current + 1) as u32
    }
}

/// A colour after one step towards `target`, each channel taken by itself.
pub open spec fn spec_step(current: ColorState, target: ColorState) -> ColorState {
    ColorState {
        r: spec_step_toward(current.r, target.r),
        g: spec_step_toward(current.g, target.g),
        b: spec_step_toward(current.b, target.b),
    }
}

/// A colour after one step of `channel` alone towards `target`.
pub open spec fn spec_step_channel(
    current: ColorState,
    target: ColorState,
    channel: ColorChannel,
) -> ColorState {
    current.spec_with_channel(
        channel,
        spec_step_toward(current.spec_channel(channel), target.spec_channel(channel)),
    )
}

/// A colour after `n` steps towards `target`.
pub open spec fn spec_step_n(current: ColorState, target: ColorState, n: nat) -> ColorState
    decreases n,
{
    if n == 0 {
        current
    } else {
        spec_step_n(spec_step(current, target), target, (n - 1) as nat)
    }
}

/// Whether a colour has arrived at `target` on all three channels.
pub open spec fn spec_has_converged(current: ColorState, target: ColorState) -> bool {
    current.r == target.r && current.g == target.g && current.b == target.b
}

/// How far one scalar is from its target.
pub open spec fn scalar_distance(current: u32, target: u32) -> nat {
    if current >= target {
        (current - target) as nat
    } else {
        (target - current) as nat
    }
}

/// How far a colour is from `target`: the distance of its farthest channel.
pub open spec fn distance(current: ColorState, target: ColorState) -> nat {
    let r = scalar_distance(current.r, target.r);
    let g = scalar_distance(current.g, target.g);
    let b = scalar_distance(current.b, target.b);
    if r >= g && r >= b {
        r
    } else if g >= b {
        g
    } else {
        b
    }
}

/// Lowers a scalar that lies above its target by one unit.
///
/// The target is a lower bound of the result, so the subtraction cannot fall
/// below zero.
fn lower_toward(current: u32, target: u32) -> (next: u32)
    requires
        current > target,
    ensures
        next == current - 1,
        next >= target,
{
    current - 1
}

/// Raises a scalar that lies below its target by one unit.
///
/// The target is an upper bound of the result, so the addition cannot leave
/// the range of a `u32`.
fn raise_toward(current: u32, target: u32) -> (next: u32)
    requires
        current < target,
    ensures
        next == current + 1,
        next <= target,
{
    current + 1
}

/// Moves one scalar one unit towards `target`, and leaves it where it has arrived.
///
/// The scalar is lowered only where it lies above the target and raised only
/// where it lies below, so it never passes the target and never leaves the
/// range of a `u32`.
pub fn step_toward(current: u32, target: u32) -> (next: u32)
    ensures
        next == spec_step_toward(current, target),
        scalar_distance(next, target) == if current == target {
            0
        } else {
            scalar_distance(current, target) - 1
        },
        current <= target ==> current <= next <= target,
        current >= target ==> current >= next >= target,
{
    if current == target {
        current
    } else if current > target {
        lower_toward(current, target)
    } else {
        raise_toward(current, target)
    }
}

/// A converged colour is a fixed point of the step, and the only one; so once
/// `spec_has_converged` holds, any number of further steps leaves the colour
/// unchanged.
pub proof fn lemma_converged_is_fixed(current: ColorState, target: ColorState, n: nat)
    ensures
        spec_has_converged(current, target) <==> spec_step(current, target) == current,
        spec_has_converged(current, target) ==> spec_step_n(current, target, n) == current,
    decreases n,
{
    if n > 0 && spec_has_converged(current, target) {
        lemma_converged_is_fixed(current, target, (n - 1) as nat);
    }
}

/// A step brings a colour that has not converged exactly one unit nearer to
/// its target, and no channel farther from it.
pub proof fn lemma_step_reduces_distance(current: ColorState, target: ColorState)
    ensures
        spec_has_converged(current, target) <==> distance(current, target) == 0,
        !spec_has_converged(current, target) ==> distance(spec_step(current, target), target)
            == distance(current, target) - 1,
        forall|channel: ColorChannel|
            scalar_distance(
                #[trigger] spec_step(current, target).spec_channel(channel),
                target.spec_channel(channel),
            ) <= scalar_distance(current.spec_channel(channel), target.spec_channel(channel)),
{
}

/// After `n` steps a colour is `n` units nearer to its target, or has arrived.
pub proof fn lemma_distance_after_steps(current: ColorState, target: ColorState, n: nat)
    ensures
        distance(spec_step_n(current, target, n), target) == if n <= distance(current, target) {
            distance(current, target) - n
        } else {
            0
        },
    decreases n,
{
    if n > 0 {
        lemma_step_reduces_distance(current, target);
        lemma_distance_after_steps(spec_step(current, target), target, (n - 1) as nat);
    }
}

/// A colour converges after exactly `distance(current, target)` steps: it has
/// not converged after any smaller number of steps, and has after that number
/// and every larger one.
pub proof fn lemma_converges_exactly_at_distance(current: ColorState, target: ColorState, n: nat)
    ensures
        spec_has_converged(spec_step_n(current, target, n), target) <==> n >= distance(
            current,
            target,
        ),
        n >= distance(current, target) ==> spec_step_n(current, target, n) == target,
{
    lemma_distance_after_steps(current, target, n);
    lemma_step_reduces_distance(spec_step_n(current, target, n), target);
}

/// A step keeps a colour inside any duty range that holds both the colour and
/// its target.
pub proof fn lemma_step_stays_within(current: ColorState, target: ColorState, max_duty: u32)
    requires
        current.within(max_duty),
        target.within(max_duty),
    ensures
        spec_step(current, target).within(max_duty),
{
}

/// Stepping all three channels is stepping each channel in turn.
pub proof fn lemma_step_is_channelwise(current: ColorState, target: ColorState)
    ensures
        spec_step(current, target) == spec_step_channel(
            spec_step_channel(
                spec_step_channel(current, target, ColorChannel::Red),
                target,
                ColorChannel::Green,
            ),
            target,
            ColorChannel::Blue,
        ),
        forall|channel: ColorChannel| #[trigger]
            spec_step(current, target).spec_channel(channel) == spec_step_toward(
                current.spec_channel(channel),
                target.spec_channel(channel),
            ),
{
}

/// The state of the animation as plain values: the targets in the order in
/// which they are visited, the colour as it stands, and the position of the
/// target that the colour is moving towards.
pub struct EngineModel {
    pub targets: Seq<ColorState>,
    pub current: ColorState,
    pub position: int,
}

impl EngineModel {
    /// Whether the position names a target.
    pub open spec fn well_formed(self) -> bool {
        0 <= self.position < self.targets.len()
    }

    /// The target that the colour is moving towards.
    pub open spec fn target(self) -> ColorState {
        self.targets[self.position]
    }

    /// The position after a tick: the next one round the cycle where the
    /// colour has arrived at its target, else the same.
    pub open spec fn position_after_tick(self) -> int {
        if spec_has_converged(self.current, self.target()) {
            spec_next_position(self.position, self.targets.len() as int)
        } else {
            self.position
        }
    }

    /// The state after a tick: the engine turns to the next target where the
    /// colour has arrived, and then moves the colour one step towards its
    /// target.
    pub open spec fn tick(self) -> EngineModel {
        EngineModel {
            targets: self.targets,
            current: spec_step(self.current, self.targets[self.position_after_tick()]),
            position: self.position_after_tick(),
        }
    }

    /// The state after `n` ticks.
    pub open spec fn ticks(self, n: nat) -> EngineModel
        decreases n,
    {
        if n == 0 {
            self
        } else {
            self.tick().ticks((n - 1) as nat)
        }
    }

    /// Whether the colour and every target lie in `0..=max_duty` on every
    /// channel.
    pub open spec fn within(self, max_duty: u32) -> bool {
        &&& self.current.within(max_duty)
        &&& forall|i: int|
            0 <= i < self.targets.len() ==> (#[trigger] self.targets[i]).within(max_duty)
    }
}

/// A tick keeps the targets, leaves the position on a target, and keeps the
/// colour inside any duty range that holds the colour and every target.
pub proof fn lemma_tick_preserves(model: EngineModel, max_duty: u32)
    requires
        model.well_formed(),
    ensures
        model.tick().well_formed(),
        model.tick().targets == model.targets,
        model.within(max_duty) ==> model.tick().within(max_duty),
{
    let len = model.targets.len() as int;
    if model.position + 1 == len {
        lemma_mod_self_0(len);
    } else {
        lemma_small_mod((model.position + 1) as nat, len as nat);
    }
}

/// While the colour is on its way, the ticks are the steps: after `n` ticks,
/// for `n` up to the distance to the target, the engine is at the same target
/// and the colour is `n` steps nearer to it, so it arrives with the last of
/// them.
pub proof fn lemma_ticks_walk_to_target(model: EngineModel, n: nat)
    requires
        model.well_formed(),
        !spec_has_converged(model.current, model.target()),
        n <= distance(model.current, model.target()),
    ensures
        model.ticks(n).targets == model.targets,
        model.ticks(n).position == model.position,
        model.ticks(n).current == spec_step_n(model.current, model.target(), n),
        n == distance(model.current, model.target()) ==> model.ticks(n).current == model.target(),
    decreases n,
{
    lemma_converges_exactly_at_distance(model.current, model.target(), n);
    if n > 0 {
        let next = model.tick();
        lemma_step_reduces_distance(model.current, model.target());
        assert(next.position == model.position);
        assert(next.current == spec_step(model.current, model.target()));
        if n > 1 {
            lemma_ticks_walk_to_target(next, (n - 1) as nat);
        } else {
            assert(next.ticks(0) == next);
        }
    }
}

/// The tick after the colour has arrived turns the engine to the next target
/// round the cycle and takes the first step towards it.
pub proof fn lemma_tick_turns_at_target(model: EngineModel)
    requires
        model.well_formed(),
        spec_has_converged(model.current, model.target()),
    ensures
        model.tick().position == spec_next_position(model.position, model.targets.len() as int),
        model.tick().position == if model.position + 1 == model.targets.len() {
            0
        } else {
            model.position + 1
        },
        model.tick().current == spec_step(model.current, model.tick().target()),
{
    let len = model.targets.len() as int;
    if model.position + 1 == len {
        lemma_mod_self_0(len);
    } else {
        lemma_small_mod((model.position + 1) as nat, len as nat);
    }
}

/// The animation of a colour round a cycle of targets, one unit per channel
/// per step.
///
/// The engine holds the colour as it stands, the targets and the position of
/// the target that it is moving towards. The position always names a target.
#[derive(Debug)]
pub struct ColorTransitionEngine {
    current: ColorState,
    sequence: ColorSequence,
    position: usize,
}

impl View for ColorTransitionEngine {
    type V = EngineModel;

    closed spec fn view(&self) -> EngineModel {
        EngineModel {
            targets: self.sequence@,
            current: self.current,
            position: self.position as int,
        }
    }
}

impl ColorTransitionEngine {
    #[verifier::type_invariant]
    spec fn well_formed(&self) -> bool {
        self.position < self.sequence@.len()
    }

    /// An engine that starts at `initial` and moves towards the first target
    /// of `sequence`.
    pub fn new(initial: ColorState, sequence: ColorSequence) -> (engine: ColorTransitionEngine)
        ensures
            engine@ == (EngineModel { targets: sequence@, current: initial, position: 0 }),
            engine@.well_formed(),
    {
        // A sequence says of its length that it is not zero, so the first
        // position names a target.
        let _ = sequence.len();
        ColorTransitionEngine { current: initial, sequence, position: 0 }
    }

    /// The colour as it stands.
    pub fn current(&self) -> (color: ColorState)
        ensures
            color == self@.current,
    {
        self.current
    }

    /// The target that the colour is moving towards.
    pub fn target(&self) -> (color: ColorState)
        ensures
            color == self@.target(),
            self@.well_formed(),
    {
        proof {
            use_type_invariant(self);
        }
        let color = self.sequence.target(self.position);
        proof {
            lemma_small_mod(self.position as nat, self.sequence@.len());
        }
        color
    }

    /// The position of the target that the colour is moving towards.
    pub fn position(&self) -> (position: usize)
        ensures
            position == self@.position,
            self@.well_formed(),
    {
        proof {
            use_type_invariant(self);
        }
        self.position
    }

    /// Advances the animation by one tick and returns the colour to write.
    ///
    /// Where the colour has arrived at its target, the engine first turns to
    /// the next target, the first one again after the last. It then moves the
    /// colour one step towards its target. The targets stay as they are.
    pub fn tick(&mut self) -> (written: ColorState)
        ensures
            final(self)@ == old(self)@.tick(),
            written == final(self)@.current,
            old(self)@.well_formed(),
            final(self)@.well_formed(),
    {
        proof {
            use_type_invariant(&*self);
        }
        let here = self.target();
        let position = if Self::has_converged(self.current, here) {
            self.sequence.next_position(self.position)
        } else {
            self.position
        };
        proof {
            lemma_small_mod(self.position as nat, self.sequence@.len());
            lemma_small_mod(position as nat, self.sequence@.len());
        }
        let target = self.sequence.target(position);
        let next = Self::step(self.current, target);
        self.position = position;
        self.current = next;
        next
    }

    /// Moves `channel` of `current` one unit towards the same channel of
    /// `target` and keeps the other two channels.
    pub fn step_channel(current: ColorState, target: ColorState, channel: ColorChannel) -> (next:
        ColorState)
        ensures
            next == spec_step_channel(current, target, channel),
    {
        let moved = step_toward(current.channel(channel), target.channel(channel));
        current.with_channel(channel, moved)
    }

    /// Moves every channel of `current` one unit towards `target`.
    ///
    /// A channel that has arrived stays; one above its target is lowered by
    /// one, one below is raised by one. A colour that has converged is
    /// returned unchanged, and only such a colour is.
    pub fn step(current: ColorState, target: ColorState) -> (next: ColorState)
        ensures
            next == spec_step(current, target),
            next == current <==> spec_has_converged(current, target),
            distance(next, target) == if spec_has_converged(current, target) {
                0
            } else {
                distance(current, target) - 1
            },
            forall|max_duty: u32|
                current.within(max_duty) && target.within(max_duty) ==> #[trigger] next.within(
                    max_duty,
                ),
    {
        ColorState {
            r: step_toward(current.r, target.r),
            g: step_toward(current.g, target.g),
            b: step_toward(current.b, target.b),
        }
    }

    /// Tells whether `current` equals `target` on all three channels.
    pub fn has_converged(current: ColorState, target: ColorState) -> (converged: bool)
        ensures
            converged == spec_has_converged(current, target),
            converged == (current == target),
            converged == (distance(current, target) == 0),
    {
        current.r == target.r && current.g == target.g && current.b == target.b
    }

    /// The number of steps that bring `current` to `target`: the distance of
    /// the farthest channel.
    pub fn steps_remaining(current: ColorState, target: ColorState) -> (steps: u32)
        ensures
            steps == distance(current, target),
            spec_step_n(current, target, steps as nat) == target,
            forall|n: nat|
                n < steps ==> !spec_has_converged(
                    #[trigger] spec_step_n(current, target, n),
                    target,
                ),
    {
        let r = if current.r >= target.r {
            current.r - target.r
        } else {
            target.r - current.r
        };
        let g = if current.g >= target.g {
            current.g - target.g
        } else {
            target.g - current.g
        };
        let b = if current.b >= target.b {
            current.b - target.b
        } else {
            target.b - current.b
        };
        let steps = if r >= g && r >= b {
            r
        } else if g >= b {
            g
        } else {
            b
        };
        proof {
            lemma_converges_exactly_at_distance(current, target, steps as nat);
            assert forall|n: nat| n < steps implies !spec_has_converged(
                #[trigger] spec_step_n(current, target, n),
                target,
            ) by {
                lemma_converges_exactly_at_distance(current, target, n);
            }
        }
        steps
    }
}

} // verus!
