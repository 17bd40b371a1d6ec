use librobot::motor::Command;
use librobot::pid::PolarController;

/// A Q16.16 value from a plain number.
fn q(v: f64) -> i64 {
    (v * 65536.0).round() as i64
}

/// The whole-unit part of a Q16.16 value.
fn unq(v: i64) -> f64 {
    v as f64 / 65536.0
}

/// A motor with an integrating encoder: each period it moves by a fifth
/// of the commanded effort in the commanded direction.
struct DummyMotor {
    speed: i64,
    forward: bool,
    position: i64,
}

impl DummyMotor {
    fn new() -> DummyMotor {
        DummyMotor { speed: 0, forward: true, position: 0 }
    }

    fn apply_command(&mut self, command: Command) {
        match command {
            Command::Front(speed) => {
                self.speed = (speed / 5) as i64;
                self.forward = true;
            }
            Command::Back(speed) => {
                self.speed = (speed / 5) as i64;
                self.forward = false;
            }
        }
    }

    fn update(&mut self) {
        if self.forward {
            self.position += self.speed;
        } else {
            self.position -= self.speed;
        }
    }

    fn get_real_position(&self) -> i64 {
        self.position
    }
}

fn create_controller() -> PolarController {
    PolarController::new(
        q(0.01),
        0,
        0,
        q(0.01),
        0,
        0,
        q(30.0),
        q(30.0),
        800,
        800,
        q(1.0),
        q(50.0),
        q(50.0),
        q(100.0),
        q(100.0),
    )
}

fn run_simulation(pid: &mut PolarController, motor_left: &mut DummyMotor, motor_right: &mut DummyMotor, steps: usize) {
    for _ in 0..steps {
        let (cmdl, cmdr) = pid.update(motor_left.position * 65536, motor_right.position * 65536);
        motor_left.apply_command(cmdl);
        motor_right.apply_command(cmdr);
        motor_left.update();
        motor_right.update();
    }
}

#[test]
fn clamp_speed() {
    let pid = create_controller();

    assert!((unq(pid.clamp_speed(q(9000.0), 0, q(50.0), q(100.0))) - 50.0).abs() < 0.001);
    assert!((unq(pid.clamp_speed(q(9000.0), 0, q(50.0), q(10.0))) - 10.0).abs() < 0.001);
}

#[test]
fn pid_forward() {
    let mut motor_left = DummyMotor::new();
    let mut motor_right = DummyMotor::new();
    let mut pid = create_controller();

    pid.set_linear_goal(q(9000.0));
    run_simulation(&mut pid, &mut motor_left, &mut motor_right, 999);
    // Error below a tenth of a percent.
    assert!(
        (motor_left.get_real_position() - 9000).abs() <= 9,
        "{} should be {}",
        motor_left.get_real_position(),
        9000
    );
    assert!(
        (motor_right.get_real_position() - 9000).abs() <= 9,
        "{} should be {}",
        motor_left.get_real_position(),
        9000
    );
}

#[test]
fn pid_backward() {
    let mut motor_left = DummyMotor::new();
    let mut motor_right = DummyMotor::new();
    let mut pid = create_controller();

    pid.set_linear_goal(q(-9137.0));
    run_simulation(&mut pid, &mut motor_left, &mut motor_right, 999);
    // Error below a tenth of a percent.
    assert!(
        (motor_left.get_real_position() + 9137).abs() <= 9,
        "{} should be {}",
        motor_left.get_real_position(),
        -9137
    );
    assert!(
        (motor_right.get_real_position() + 9137).abs() <= 9,
        "{} should be {}",
        motor_left.get_real_position(),
        -9137
    );
}

#[test]
fn pid_rotation_left() {
    let mut motor_left = DummyMotor::new();
    let mut motor_right = DummyMotor::new();
    let mut pid = create_controller();

    pid.set_angular_goal(q(733.0));
    run_simulation(&mut pid, &mut motor_left, &mut motor_right, 999);
    // Error below a tenth of a percent.
    assert!(
        (motor_left.get_real_position() + 733 / 2).abs() <= 2,
        "{} should be {}",
        motor_left.get_real_position(),
        -733 / 2
    );
    assert!(
        (motor_right.get_real_position() - 733 / 2).abs() <= 2,
        "{} should be {}",
        motor_right.get_real_position(),
        733 / 2
    );
}

#[test]
fn pid_rotation_right() {
    let mut motor_left = DummyMotor::new();
    let mut motor_right = DummyMotor::new();
    let mut pid = create_controller();

    pid.set_angular_goal(q(-733.0));
    run_simulation(&mut pid, &mut motor_left, &mut motor_right, 999);
    // Error below a tenth of a percent.
    assert!(
        (motor_left.get_real_position() - 733 / 2).abs() <= 2,
        "{} should be {}",
        motor_left.get_real_position(),
        733 / 2
    );
    assert!(
        (motor_right.get_real_position() + 733 / 2).abs() <= 2,
        "{} should be {}",
        motor_right.get_real_position(),
        -733 / 2
    );
}

#[test]
fn left_right_goal_round_trips_exactly() {
    let mut pid = create_controller();
    // Odd raw values lose nothing: the doubled-sum bookkeeping keeps the
    // low bit.
    let pairs = [
        (1i64, 2i64),
        (-3, 7),
        (654321, -123457),
        (q(10.0) + 1, q(-10.0) - 1),
        (0, 0),
    ];
    for (l, r) in pairs {
        pid.set_left_right_goal(l, r);
        assert_eq!(pid.get_left_right_goal(), (l, r));
    }
}

#[test]
fn command_truncation_is_total_and_capped() {
    assert_eq!(Command::truncate(i64::MAX, 800), Command::Front(800));
    assert_eq!(Command::truncate(i64::MIN, 800), Command::Back(800));
    assert_eq!(Command::truncate(-1, 800), Command::Back(0));
    assert_eq!(Command::truncate(0, 800), Command::Front(0));
    assert_eq!(Command::truncate(q(3.5), 800), Command::Front(3));
    assert_eq!(Command::truncate(q(-801.0), 800), Command::Back(800));
    for v in [i64::MIN, i64::MIN + 1, -65536, -1, 0, 1, 65535, 65536, i64::MAX] {
        assert!(Command::truncate(v, 123).get_value() <= 123);
    }
}
