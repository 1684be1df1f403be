use actuator_core::actuator::{Action, ActuatorLoop, CommandMode, DutyUpdate, Event};
use actuator_core::color::ColorState;
use actuator_core::command::Command;
use actuator_core::sequence::ColorSequence;

fn selector_index(core: &ActuatorLoop) -> Option<u8> {
    match core {
        ActuatorLoop::CommandDriven(mode) => Some(mode.selector_index()),
        ActuatorLoop::Autonomous(_) => None,
    }
}

#[test]
fn end_to_end_toggle_then_two_angles() {
    let mut core = ActuatorLoop::command_driven(1000, None);
    assert_eq!(selector_index(&core), Some(0));

    assert_eq!(core.handle(Event::Packet(b"TOGGLE")), Action::Idle);
    assert_eq!(selector_index(&core), Some(1));

    assert_eq!(
        core.handle(Event::Packet(b"0")),
        Action::Write(DutyUpdate { color: ColorState { r: 0, g: 0, b: 0 }, servo: None })
    );
    assert_eq!(
        core.handle(Event::Packet(b"180")),
        Action::Write(DutyUpdate { color: ColorState { r: 0, g: 1000, b: 0 }, servo: None })
    );
    assert_eq!(selector_index(&core), Some(1));
}

#[test]
fn end_to_end_with_a_servo() {
    let mut mode = CommandMode::new(1000, Some(16_383));
    assert_eq!(mode.on_packet(b"TOGGLE"), Action::Idle);
    assert_eq!(
        mode.on_packet(b"0"),
        Action::Write(DutyUpdate { color: ColorState { r: 0, g: 0, b: 0 }, servo: Some(409) })
    );
    assert_eq!(
        mode.on_packet(b"180"),
        Action::Write(DutyUpdate {
            color: ColorState { r: 0, g: 1000, b: 0 },
            servo: Some(2047)
        })
    );
    assert_eq!(
        mode.on_packet(b"90"),
        Action::Write(DutyUpdate {
            color: ColorState { r: 0, g: 500, b: 0 },
            servo: Some(1228)
        })
    );
    assert_eq!(mode.max_duty(), 1000);
    assert_eq!(mode.servo_max_duty(), Some(16_383));
}

#[test]
fn angle_is_applied_to_each_pattern_in_turn() {
    let mut mode = CommandMode::new(255, None);
    let expected = [
        ColorState { r: 127, g: 0, b: 0 },
        ColorState { r: 0, g: 127, b: 0 },
        ColorState { r: 0, g: 0, b: 127 },
        ColorState { r: 127, g: 127, b: 0 },
        ColorState { r: 127, g: 0, b: 127 },
        ColorState { r: 0, g: 127, b: 127 },
        ColorState { r: 127, g: 0, b: 0 },
    ];
    for color in expected {
        assert_eq!(
            mode.on_command(Command::SetAngle(90)),
            Action::Write(DutyUpdate { color, servo: None })
        );
        assert_eq!(mode.on_command(Command::Toggle), Action::Idle);
    }
}

#[test]
fn malformed_payloads_change_nothing() {
    let mut mode = CommandMode::new(1000, Some(1000));
    mode.on_command(Command::Toggle);
    for payload in [&b"abc"[..], b"", b"256", b"+1", b"\xff", b"TOGGLE\xff", b"toggle"] {
        assert_eq!(mode.on_packet(payload), Action::Idle);
        assert_eq!(mode.selector_index(), 1);
    }
}

#[test]
fn angle_above_180_is_scaled_without_clamping() {
    let mut mode = CommandMode::new(1000, Some(1000));
    assert_eq!(
        mode.on_packet(b"255"),
        Action::Write(DutyUpdate {
            color: ColorState { r: 1416, g: 0, b: 0 },
            servo: Some(166)
        })
    );
}

#[test]
fn try_new_refuses_a_duty_limit_whose_intensities_do_not_fit() {
    assert!(CommandMode::try_new(1000, None).is_some());
    assert!(CommandMode::try_new(0, Some(0)).is_some());
    assert!(CommandMode::try_new(3_031_741_620, None).is_some());
    assert!(CommandMode::try_new(3_031_741_621, None).is_none());
    assert!(CommandMode::try_new(u32::MAX, Some(1)).is_none());
    let mode = CommandMode::try_new(8191, Some(16_383)).unwrap();
    assert_eq!(mode.selector_index(), 0);
    assert_eq!(mode.max_duty(), 8191);
    assert_eq!(mode.servo_max_duty(), Some(16_383));
}

#[test]
fn failed_receive_is_reported_and_changes_nothing() {
    let mut core = ActuatorLoop::command_driven(1000, None);
    core.handle(Event::Packet(b"TOGGLE"));
    assert_eq!(core.handle(Event::ReceiveFailed), Action::ReportReceiveFailure);
    assert_eq!(selector_index(&core), Some(1));
    assert_eq!(
        core.handle(Event::Packet(b"180")),
        Action::Write(DutyUpdate { color: ColorState { r: 0, g: 1000, b: 0 }, servo: None })
    );

    let mut animation = ActuatorLoop::autonomous(ColorState::off(), ColorSequence::palette(3));
    assert_eq!(animation.handle(Event::ReceiveFailed), Action::ReportReceiveFailure);
    assert_eq!(
        animation.handle(Event::Tick),
        Action::Write(DutyUpdate { color: ColorState { r: 1, g: 0, b: 0 }, servo: None })
    );
}

#[test]
fn tick_is_ignored_by_a_loop_driven_by_commands() {
    let mut core = ActuatorLoop::command_driven(1000, Some(1000));
    core.handle(Event::Packet(b"TOGGLE"));
    assert_eq!(core.handle(Event::Tick), Action::Idle);
    assert_eq!(selector_index(&core), Some(1));
}

#[test]
fn packet_is_ignored_by_an_animating_loop() {
    let mut core = ActuatorLoop::autonomous(ColorState::off(), ColorSequence::palette(2));
    assert_eq!(core.handle(Event::Packet(b"180")), Action::Idle);
    assert_eq!(core.handle(Event::Packet(b"TOGGLE")), Action::Idle);
    assert_eq!(
        core.handle(Event::Tick),
        Action::Write(DutyUpdate { color: ColorState { r: 1, g: 0, b: 0 }, servo: None })
    );
}

#[test]
fn animating_loop_writes_one_step_per_tick() {
    let mut core = ActuatorLoop::autonomous(
        ColorState { r: 1, g: 6, b: 9 },
        ColorSequence::new(vec![ColorState::off(), ColorState { r: 1, g: 1, b: 1 }]),
    );
    let mut written = Vec::new();
    for _ in 0..11 {
        match core.handle(Event::Tick) {
            Action::Write(update) => {
                assert_eq!(update.servo, None);
                written.push(update.color);
            }
            other => panic!("a tick asks for a write, not {:?}", other),
        }
    }
    assert_eq!(written[0], ColorState { r: 0, g: 5, b: 8 });
    assert_eq!(written[7], ColorState { r: 0, g: 0, b: 1 });
    assert_eq!(written[8], ColorState::off());
    assert_eq!(written[9], ColorState { r: 1, g: 1, b: 1 });
    assert_eq!(written[10], ColorState::off());
}
