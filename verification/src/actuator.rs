//! The decisions of the control loop.
//!
//! The loop runs in one of two modes. Driven by commands, it decodes each
//! datagram, moves the selector on a toggle and computes the duties to write
//! on an angle. Running by itself, it moves a colour round a cycle of
//! targets, one step per tick. Receiving events and writing duties is left to
//! the caller: a call takes an event and returns the action to perform.

use vstd::prelude::*;
use crate::color::ColorState;
use crate::command::{decode, spec_decode, Command};
use crate::duty::{
    angle_to_intensity, checked_angle_to_intensity, intensity_representable,
    lemma_intensity_monotonic, lemma_intensity_range, lemma_servo_duty_range, map_angle_to_duty,
    spec_angle_to_intensity, spec_angle_to_servo_duty, spec_servo_min_duty,
    spec_servo_upper_duty, MAX_ANGLE,
};
use crate::selector::{spec_apply, spec_next_index, ColorSelector};
use crate::sequence::ColorSequence;
use crate::transition::{lemma_tick_preserves, ColorTransitionEngine, EngineModel};

verus! {

/// The duties to write to the outputs: one per colour channel, and one for
/// the servo where the loop drives one.
#[derive(Clone, Copy, Debug, PartialEq, Eq, Structural)]
pub struct DutyUpdate {
    pub color: ColorState,
    pub servo: Option<u32>,
}

/// What the caller is to do after an event.
#[derive(Clone, Copy, Debug, PartialEq, Eq, Structural)]
pub enum Action {
    /// Nothing is to be written.
    Idle,
    /// The duties are to be written to the outputs. A write that fails ends
    /// the loop.
    Write(DutyUpdate),
    /// A failed receive is to be reported; the loop goes on.
    ReportReceiveFailure,
}

/// What happened outside the loop.
#[derive(Clone, Copy, Debug)]
pub enum Event<'a> {
    /// A datagram arrived with this payload.
    Packet(&'a [u8]),
    /// Receiving a datagram failed.
    ReceiveFailed,
    /// The time of one animation step has passed.
    Tick,
}

/// The state of the loop that is driven by commands, as plain values: the
/// index of the pattern selected, the largest duty of the colour channels and,
/// where the loop drives a servo, the largest duty of its channel.
pub struct CommandModel {
    pub index: int,
    pub max_duty: u32,
    pub servo_max_duty: Option<u32>,
}

impl CommandModel {
    /// Whether the index names a pattern and the intensity of every angle
    /// that a command can carry fits in a `u32`.
    pub open spec fn well_formed(self) -> bool {
        &&& 0 <= self.index < 6
        &&& intensity_representable(self.max_duty as int)
    }

    /// The servo duty for `angle` where a servo is driven, and none where not.
    pub open spec fn servo_duty(self, angle: u8) -> Option<u32> {
        match self.servo_max_duty {
            Some(limit) => Some(spec_angle_to_servo_duty(angle as int, limit as int) as u32),
            None => None,
        }
    }

    /// The duties for `angle`: its intensity on the channels of the pattern
    /// selected, the other channels off, and its servo duty.
    pub open spec fn duties(self, angle: u8) -> DutyUpdate {
        DutyUpdate {
            color: spec_apply(
                spec_angle_to_intensity(angle as int, self.max_duty as int) as u32,
                self.index,
            ),
            servo: self.servo_duty(angle),
        }
    }

    /// What a command makes of the state, and the action that it asks for. A
    /// toggle selects the next pattern and asks for nothing; an angle keeps
    /// the state and asks for its duties to be written.
    pub open spec fn on_command(self, command: Command) -> (CommandModel, Action) {
        match command {
            Command::Toggle => (
                CommandModel { index: spec_next_index(self.index), ..self },
                Action::Idle,
            ),
            Command::SetAngle(angle) => (self, Action::Write(self.duties(angle))),
        }
    }

    /// What a datagram with `payload` makes of the state, and the action that
    /// it asks for: those of the command that it holds, and the state kept and
    /// nothing asked for where it holds none.
    pub open spec fn on_packet(self, payload: Seq<u8>) -> (CommandModel, Action) {
        match spec_decode(payload) {
            Some(command) => self.on_command(command),
            None => (self, Action::Idle),
        }
    }
}

/// The state of the loop as plain values, in either mode.
pub enum LoopModel {
    CommandDriven(CommandModel),
    Autonomous(EngineModel),
}

impl LoopModel {
    /// Whether the state of the mode is well formed.
    pub open spec fn well_formed(self) -> bool {
        match self {
            LoopModel::CommandDriven(model) => model.well_formed(),
            LoopModel::Autonomous(model) => model.well_formed(),
        }
    }

    /// What an event makes of the state, and the action that it asks for.
    ///
    /// A loop driven by commands takes a datagram as `CommandModel::on_packet`
    /// says; an animating loop takes a tick as `EngineModel::tick` says and
    /// asks for the colour to be written, with no servo duty. A failed
    /// receive is to be reported. Everything else keeps the state and asks
    /// for nothing.
    pub open spec fn handle(self, event: Event<'_>) -> (LoopModel, Action) {
        match (self, event) {
            (_, Event::ReceiveFailed) => (self, Action::ReportReceiveFailure),
            (LoopModel::CommandDriven(model), Event::Packet(payload)) => (
                LoopModel::CommandDriven(model.on_packet(payload@).0),
                model.on_packet(payload@).1,
            ),
            (LoopModel::Autonomous(model), Event::Tick) => (
                LoopModel::Autonomous(model.tick()),
                Action::Write(DutyUpdate { color: model.tick().current, servo: None }),
            ),
            _ => (self, Action::Idle),
        }
    }
}

/// The duties for an angle inside the intended domain lie inside the duty
/// ranges of their channels: every colour channel in `0..=max_duty`, and the
/// servo duty in the servo band of its own largest duty.
pub proof fn lemma_duties_within_range(model: CommandModel, angle: u8)
    requires
        0 <= model.index < 6,
        angle <= MAX_ANGLE,
    ensures
        model.duties(angle).color.within(model.max_duty),
        model.servo_max_duty matches Some(limit) ==> {
            &&& model.duties(angle).servo matches Some(duty)
            &&& spec_servo_min_duty(limit as int) <= duty <= spec_servo_upper_duty(limit as int)
            &&& duty <= limit
        },
        model.servo_max_duty is None ==> model.duties(angle).servo is None,
{
    lemma_intensity_range(angle as int, model.max_duty as int);
    if let Some(limit) = model.servo_max_duty {
        lemma_servo_duty_range(angle as int, limit as int);
    }
}

/// No event leads a well-formed state to one that is not, or from one mode to
/// the other; and none changes the duty limits or the targets.
pub proof fn lemma_handle_preserves(model: LoopModel, event: Event<'_>)
    requires
        model.well_formed(),
    ensures
        model.handle(event).0.well_formed(),
        match (model, model.handle(event).0) {
            (LoopModel::CommandDriven(before), LoopModel::CommandDriven(after)) => {
                &&& after.max_duty == before.max_duty
                &&& after.servo_max_duty == before.servo_max_duty
            },
            (LoopModel::Autonomous(before), LoopModel::Autonomous(after)) => after.targets
                == before.targets,
            _ => false,
        },
{
    if let LoopModel::Autonomous(engine) = model {
        lemma_tick_preserves(engine, 0);
    }
}

/// The state of the loop that is driven by commands: the selector and the
/// largest duty of the colour channels and, where there is one, of the servo.
///
/// The largest colour duty is one for which the intensity of every angle that
/// a command can carry fits in a `u32`.
#[derive(Debug)]
pub struct CommandMode {
    selector: ColorSelector,
    max_duty: u32,
    servo_max_duty: Option<u32>,
}

impl View for CommandMode {
    type V = CommandModel;

    closed spec fn view(&self) -> CommandModel {
        CommandModel {
            index: self.selector.spec_index(),
            max_duty: self.max_duty,
            servo_max_duty: self.servo_max_duty,
        }
    }
}

impl CommandMode {
    #[verifier::type_invariant]
    spec fn well_formed(&self) -> bool {
        intensity_representable(self.max_duty as int)
    }

    /// The state at the start: the first pattern selected.
    pub fn new(max_duty: u32, servo_max_duty: Option<u32>) -> (mode: CommandMode)
        requires
            intensity_representable(max_duty as int),
        ensures
            mode@ == (CommandModel { index: 0, max_duty, servo_max_duty }),
            mode@.well_formed(),
    {
        CommandMode { selector: ColorSelector::new(), max_duty, servo_max_duty }
    }

    /// The state at the start where `max_duty` is one that the loop can work
    /// with, and `None` where some angle's intensity would not fit in a `u32`.
    pub fn try_new(max_duty: u32, servo_max_duty: Option<u32>) -> (mode: Option<CommandMode>)
        ensures
            mode is Some <==> intensity_representable(max_duty as int),
            mode matches Some(m) ==> m@ == (CommandModel { index: 0, max_duty, servo_max_duty }),
    {
        if checked_angle_to_intensity(255, max_duty).is_some() {
            Some(CommandMode::new(max_duty, servo_max_duty))
        } else {
            None
        }
    }

    /// The index of the pattern selected, which is always below 6.
    pub fn selector_index(&self) -> (index: u8)
        ensures
            index == self@.index,
            index < 6,
    {
        self.selector.index()
    }

    /// The largest duty of the colour channels.
    pub fn max_duty(&self) -> (max_duty: u32)
        ensures
            max_duty == self@.max_duty,
            intensity_representable(max_duty as int),
    {
        proof {
            use_type_invariant(self);
        }
        self.max_duty
    }

    /// The largest duty of the servo channel, where the loop drives a servo.
    pub fn servo_max_duty(&self) -> (servo_max_duty: Option<u32>)
        ensures
            servo_max_duty == self@.servo_max_duty,
    {
        self.servo_max_duty
    }

    /// Carries out a decoded command.
    ///
    /// A toggle moves the selector to the next pattern and asks for no write.
    /// An angle leaves the selector as it is and asks for the duties of the
    /// angle: its intensity on the channels of the pattern selected, the others
    /// off, and its servo duty where a servo is driven. An angle above 180 is
    /// scaled by the same formulas and not clamped.
    pub fn on_command(&mut self, command: Command) -> (action: Action)
        ensures
            (final(self)@, action) == old(self)@.on_command(command),
            old(self)@.well_formed(),
            final(self)@.well_formed(),
    {
        proof {
            use_type_invariant(&*self);
        }
        // The selector says of its index that it is below 6.
        let _ = self.selector.index();
        match command {
            Command::Toggle => {
                self.selector.toggle();
                Action::Idle
            },
            Command::SetAngle(angle) => {
                proof {
                    lemma_intensity_monotonic(angle as int, 255, self.max_duty as int);
                }
                let intensity = angle_to_intensity(angle, self.max_duty);
                let color = self.selector.apply(intensity);
                let servo = match self.servo_max_duty {
                    Some(servo_max_duty) => Some(map_angle_to_duty(angle, servo_max_duty)),
                    None => None,
                };
                Action::Write(DutyUpdate { color, servo })
            },
        }
    }

    /// Decodes a payload and carries out the command that it holds.
    ///
    /// A payload that holds no command changes nothing and asks for nothing.
    pub fn on_packet(&mut self, payload: &[u8]) -> (action: Action)
        ensures
            (final(self)@, action) == old(self)@.on_packet(payload@),
            old(self)@.well_formed(),
            final(self)@.well_formed(),
    {
        match decode(payload) {
            Some(command) => self.on_command(command),
            None => {
                proof {
                    use_type_invariant(&*self);
                }
                // The selector says of its index that it is below 6.
                let _ = self.selector.index();
                Action::Idle
            },
        }
    }
}

/// The control loop in one of its two modes.
#[derive(Debug)]
pub enum ActuatorLoop {
    /// The loop is driven by the commands of datagrams.
    CommandDriven(CommandMode),
    /// The loop animates a colour by itself, one step per tick.
    Autonomous(ColorTransitionEngine),
}

impl View for ActuatorLoop {
    type V = LoopModel;

    open spec fn view(&self) -> LoopModel {
        match self {
            ActuatorLoop::CommandDriven(mode) => LoopModel::CommandDriven(mode@),
            ActuatorLoop::Autonomous(engine) => LoopModel::Autonomous(engine@),
        }
    }
}

impl ActuatorLoop {
    /// A loop driven by commands, with the first pattern selected.
    pub fn command_driven(max_duty: u32, servo_max_duty: Option<u32>) -> (core: ActuatorLoop)
        requires
            intensity_representable(max_duty as int),
        ensures
            core@ == LoopModel::CommandDriven(
                CommandModel { index: 0, max_duty, servo_max_duty },
            ),
            core@.well_formed(),
    {
        ActuatorLoop::CommandDriven(CommandMode::new(max_duty, servo_max_duty))
    }

    /// A loop that animates a colour from `initial` round the targets of
    /// `sequence`, the first target first.
    pub fn autonomous(initial: ColorState, sequence: ColorSequence) -> (core: ActuatorLoop)
        ensures
            core@ == LoopModel::Autonomous(
                EngineModel { targets: sequence@, current: initial, position: 0 },
            ),
            core@.well_formed(),
    {
        ActuatorLoop::Autonomous(ColorTransitionEngine::new(initial, sequence))
    }

    /// Takes one event and returns the action to perform.
    ///
    /// A loop driven by commands decodes a datagram and carries out its
    /// command; an animating loop moves its colour one step on a tick and asks
    /// for it to be written, with no servo duty. An event that the mode has no
    /// use for, a tick for the first or a datagram for the second, changes
    /// nothing and asks for nothing. A failed receive changes nothing in
    /// either mode and is to be reported.
    pub fn handle(&mut self, event: Event<'_>) -> (action: Action)
        ensures
            (final(self)@, action) == old(self)@.handle(event),
    {
        match event {
            Event::ReceiveFailed => Action::ReportReceiveFailure,
            Event::Packet(payload) => match self {
                ActuatorLoop::CommandDriven(mode) => mode.on_packet(payload),
                ActuatorLoop::Autonomous(_) => Action::Idle,
            },
            Event::Tick => match self {
                ActuatorLoop::Autonomous(engine) => {
                    let color = engine.tick();
                    Action::Write(DutyUpdate { color, servo: None })
                },
                ActuatorLoop::CommandDriven(_) => Action::Idle,
            },
        }
    }
}

} // verus!
