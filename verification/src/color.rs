//! The three-channel colour value that the controller holds and writes.

use vstd::prelude::*;

verus! {

/// One of the three scalars of a [`ColorState`].
#[derive(Clone, Copy, Debug, PartialEq, Eq, Structural)]
pub enum ColorChannel {
    Red,
    Green,
    Blue,
}

/// A triple of PWM duty values, one per colour channel.
///
/// Two values are equal when they agree on every channel.
#[derive(Clone, Copy, Debug, PartialEq, Eq, Structural)]
pub struct ColorState {
    pub r: u32,
    pub g: u32,
    pub b: u32,
}

impl ColorState {
    /// The scalar that `channel` addresses.
    pub open spec fn spec_channel(self, channel: ColorChannel) -> u32 {
        match channel {
            ColorChannel::Red => self.r,
            ColorChannel::Green => self.g,
            ColorChannel::Blue => self.b,
        }
    }

    /// The value that differs from `self` on `channel` alone, where it holds `value`.
    pub open spec fn spec_with_channel(self, channel: ColorChannel, value: u32) -> ColorState {
        match channel {
            ColorChannel::Red => ColorState { r: value, ..self },
            ColorChannel::Green => ColorState { g: value, ..self },
            ColorChannel::Blue => ColorState { b: value, ..self },
        }
    }

    /// Whether every channel lies in `0..=max_duty`.
    pub open spec fn within(self, max_duty: u32) -> bool {
        self.r <= max_duty && self.g <= max_duty && self.b <= max_duty
    }

    /// The colour with the three duties given.
    pub fn new(r: u32, g: u32, b: u32) -> (color: ColorState)
        ensures
            color == (ColorState { r, g, b }),
    {
        ColorState { r, g, b }
    }

    /// The colour with every channel off.
    pub fn off() -> (color: ColorState)
        ensures
            color == (ColorState { r: 0, g: 0, b: 0 }),
    {
        ColorState { r: 0, g: 0, b: 0 }
    }

    /// Reads the scalar that `channel` addresses.
    pub fn channel(&self, channel: ColorChannel) -> (value: u32)
        ensures
            value == self.spec_channel(channel),
    {
        match channel {
            ColorChannel::Red => self.r,
            ColorChannel::Green => self.g,
            ColorChannel::Blue => self.b,
        }
    }

    /// Replaces the scalar that `channel` addresses and keeps the other two.
    pub fn with_channel(&self, channel: ColorChannel, value: u32) -> (color: ColorState)
        ensures
            color == self.spec_with_channel(channel, value),
            color.spec_channel(channel) == value,
            forall|other: ColorChannel|
                other != channel ==> #[trigger] color.spec_channel(other) == self.spec_channel(
                    other,
                ),
    {
        match channel {
            ColorChannel::Red => ColorState { r: value, g: self.g, b: self.b },
            ColorChannel::Green => ColorState { r: self.r, g: value, b: self.b },
            ColorChannel::Blue => ColorState { r: self.r, g: self.g, b: value },
        }
    }

    /// Tells whether every channel lies in `0..=max_duty`.
    pub fn is_within(&self, max_duty: u32) -> (inside: bool)
        ensures
            inside == self.within(max_duty),
    {
        self.r <= max_duty && self.g <= max_duty && self.b <= max_duty
    }
}

} // verus!
