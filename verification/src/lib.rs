//! Control core for an RGB light and a servo driven through PWM outputs.
//!
//! The crate holds the decisions of the controller and none of its I/O:
//!
//! - [`duty`] maps an angle to a duty value, for a colour channel and for
//!   the servo;
//! - [`selector`] is the six-state machine that picks the colour channels an
//!   intensity is applied to;
//! - [`command`] decodes the payload of a datagram into a command;
//! - [`transition`] moves a colour one unit per channel towards a target,
//!   round the cycle of targets of [`sequence`];
//! - [`actuator`] composes them into the control loop, as a function from
//!   an event to the action that the caller is to perform.
//!
//! Every function is verified against the contract it carries. The one
//! exception is the test for valid UTF-8 in [`command`], which is taken from
//! the standard library and trusted.

pub mod actuator;
pub mod color;
pub mod command;
pub mod duty;
pub mod selector;
pub mod sequence;
pub mod transition;
