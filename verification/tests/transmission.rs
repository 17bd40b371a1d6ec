use librobot::transmission::id::ID_NAVIGATION;
use librobot::transmission::id::ID_SERVO;
use librobot::transmission::navigation::NavigationCommand;
use librobot::transmission::servo::BlockingMode;
use librobot::transmission::servo::Color;
use librobot::transmission::servo::Control;
use librobot::transmission::servo::Rotation;
use librobot::transmission::servo::Servo;
use librobot::transmission::MessageKind;

#[test]
fn message_kind_tags_round_trip() {
    assert_eq!(MessageKind::from_u8(4), Ok(MessageKind::Servo));
    assert_eq!(MessageKind::from_u8(5), Ok(MessageKind::Navigation));
    assert_eq!(MessageKind::Servo.to_u8(), 4);
    assert_eq!(MessageKind::Navigation.to_u8(), 5);
    for tag in [0u8, 1, 2, 3, 6, 7, 255] {
        assert_eq!(MessageKind::from_u8(tag), Err(()));
    }
    assert_eq!(ID_NAVIGATION, 1);
    assert_eq!(ID_SERVO, 2);
}

#[test]
fn servo_equality_ignores_rotation_and_data() {
    let a = Servo {
        id: 3,
        known_position: 10,
        control: Control::Speed,
        rotation: Rotation::Clockwise,
        data: 55,
        blocked: false,
        mode: BlockingMode::HoldOnBlock,
        color: Color::Blue,
    };
    let mut b = a;
    b.rotation = Rotation::CounterClockwise;
    b.data = 99;
    assert_eq!(a, b);
    b.known_position = 11;
    assert_ne!(a, b);
}

#[test]
fn servo_id_zero_is_wildcard() {
    let a = Servo { id: 0, known_position: 1, ..Default::default() };
    let b = Servo { id: 0, known_position: 2, ..Default::default() };
    assert_eq!(a, b);
}

#[test]
fn defaults_are_the_idle_values() {
    assert_eq!(NavigationCommand::default(), NavigationCommand::DoNothing);
    assert_eq!(Servo::default().control, Control::Position);
    assert_eq!(Servo::default().color, Color::Green);
    assert_eq!(BlockingMode::default(), BlockingMode::Unblocking);
    assert_eq!(Rotation::default(), Rotation::CounterClockwise);
}
