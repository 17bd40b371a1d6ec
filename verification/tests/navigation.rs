use std::cell::Cell;
use std::rc::Rc;

use librobot::blocking::Blocking;
use librobot::motor::Command;
use librobot::navigation::Coord;
use librobot::navigation::EncoderSource;
use librobot::navigation::PIDParameters;
use librobot::navigation::RealWorldPid;
use librobot::odometry::Odometry;
use librobot::transmission::navigation::NavigationParametersFrame;
use librobot::units::MilliMeter;

/// A Q16.16 value from a plain number.
fn q(v: f64) -> i64 {
    (v * 65536.0).round() as i64
}

/// The value of a Q16.16 number.
fn unq(v: i64) -> f64 {
    v as f64 / 65536.0
}

/// An encoder whose cumulative count is set by the test.
#[derive(Clone)]
struct DummyEncoder {
    position: Rc<Cell<i64>>,
}

impl DummyEncoder {
    fn new() -> DummyEncoder {
        DummyEncoder { position: Rc::new(Cell::new(0)) }
    }

    fn set_position(&self, ticks: i64) {
        self.position.set(ticks);
    }
}

impl EncoderSource for DummyEncoder {
    fn sample(&mut self) {}

    fn ticks(&self) -> i64 {
        self.position.get()
    }
}

fn odom_params() -> PIDParameters {
    PIDParameters {
        coder_radius: q(31.0),
        left_wheel_coef: q(1.0),
        right_wheel_coef: q(1.0),
        ticks_per_turn: 1024,
        inter_axial_length: q(223.0),
        ..Default::default()
    }
}

#[test]
fn test_ticks_to_distance() {
    let pid_parameters = PIDParameters {
        coder_radius: q(30.0),
        left_wheel_coef: q(1.0),
        right_wheel_coef: q(0.5),
        ticks_per_turn: 1024,
        inter_axial_length: q(300.0),
        ..Default::default()
    };

    let (left_dist, right_dist) = pid_parameters.ticks_to_distance(1280, 1280);
    assert!(
        (unq(left_dist) - 235.6).abs() < 0.2,
        "{} should be 235.6",
        unq(left_dist)
    );
    assert!(
        (unq(right_dist) - 117.8).abs() < 0.2,
        "{} should be 117.8",
        unq(right_dist)
    );
}

#[test]
fn test_distance_to_ticks() {
    let pid_parameters = PIDParameters {
        coder_radius: q(30.0),
        left_wheel_coef: q(1.0),
        right_wheel_coef: q(0.5),
        ticks_per_turn: 1024,
        inter_axial_length: q(300.0),
        ..Default::default()
    };
    let (left_ticks, right_ticks) =
        pid_parameters.distance_to_ticks(MilliMeter(235), MilliMeter(235));
    assert!(
        (left_ticks - 1276).abs() <= 1,
        "{} should be 1276",
        left_ticks
    );
    assert!(
        (right_ticks - 2552).abs() <= 1,
        "{} should be 1276",
        right_ticks
    );
}

#[test]
fn test_parameters_from_frame() {
    let base = PIDParameters::default();
    let frame = NavigationParametersFrame {
        coder_radius: 310,
        right_wheel_coef: 32768,
        inter_axial_length: 2230,
        pos_kp: 131072,
        pos_kd: 65536,
        orient_kp: 98304,
        orient_kd: 16384,
    };
    let params = PIDParameters::from_frame(&base, &frame);
    assert_eq!(params.coder_radius, q(31.0));
    assert_eq!(params.inter_axial_length, q(223.0));
    assert_eq!(params.right_wheel_coef, 32768);
    assert_eq!(params.pos_kp, 131072);
    assert_eq!(params.pos_kd, 65536);
    assert_eq!(params.orient_kp, 98304);
    assert_eq!(params.orient_kd, 16384);
    assert_eq!(params.left_wheel_coef, base.left_wheel_coef);
    assert_eq!(params.ticks_per_turn, base.ticks_per_turn);
    assert_eq!(params.te, base.te);
    assert_eq!(params.max_output, base.max_output);
}

#[test]
fn test_goal_reached() {
    let pid_parameters = PIDParameters {
        coder_radius: q(30.0),
        left_wheel_coef: q(1.0),
        right_wheel_coef: q(1.0),
        ticks_per_turn: 1024,
        inter_axial_length: q(300.0),
        pos_kp: q(1.0),
        pos_kd: q(1.0),
        orient_kp: q(1.0),
        orient_kd: q(1.0),
        max_output: 100,
        ..Default::default()
    };

    let motor_left = DummyEncoder::new();
    let motor_right = DummyEncoder::new();
    let mut pid = RealWorldPid::new(motor_left.clone(), motor_right.clone(), &pid_parameters);

    pid.internal_pid.set_left_right_goal(q(10.0), q(10.0));

    assert!(pid.is_goal_reached(q(11.0), q(0.1)));
    assert!(!pid.is_goal_reached(q(4.0), q(0.1)));

    pid.internal_pid.set_left_right_goal(q(10.0), q(-10.0));
    motor_left.set_position(49); // 9 mm
    motor_right.set_position(-65); // 12 mm

    let (left_ticks, right_ticks) = pid.get_qei_ticks();
    let (left_dist, right_dist) = pid_parameters.ticks_to_distance(left_ticks, right_ticks);

    assert!(
        pid.is_goal_reached(q(2.0), q(5.0)),
        "success with {}, {}",
        unq(left_dist),
        unq(right_dist)
    );
    assert!(
        !pid.is_goal_reached(q(2.0), q(2.0)),
        "angular fails with {}, {}",
        unq(left_dist),
        unq(right_dist)
    );
    assert!(
        !pid.is_goal_reached(q(0.5), q(5.0)),
        "linear fails with {}, {}",
        unq(left_dist),
        unq(right_dist)
    );
}

#[test]
fn real_world_pid_rotation() {
    let pid_parameters = PIDParameters {
        coder_radius: q(30.0),
        left_wheel_coef: q(1.0),
        right_wheel_coef: q(-1.0),
        ticks_per_turn: 1024,
        inter_axial_length: q(300.0),
        pos_kp: q(1.0),
        pos_kd: 0,
        orient_kp: q(1.0),
        orient_kd: 0,
        max_output: 100,
        ..Default::default()
    };

    let motor_left = DummyEncoder::new();
    let motor_right = DummyEncoder::new();
    let mut pid = RealWorldPid::new(motor_left.clone(), motor_right.clone(), &pid_parameters);

    pid.rotate(785); // about a quarter of pi, in milliradians

    let (goall, goalr) = pid.internal_pid.get_left_right_goal();

    assert!((unq(goall) + 117.0).abs() <= 1.0, "{} should be {}", unq(goall), -117);
    assert!((unq(goalr) - 117.0).abs() <= 1.0, "{} should be {}", unq(goalr), 117);

    pid.update();
    let (cmd_left, cmd_right) = pid.get_command();

    match cmd_left {
        Command::Back(_) => {}
        _ => panic!("cmd_left should be going backward."),
    }
    match cmd_right {
        Command::Front(_) => {}
        _ => panic!("cmd_right should be going forward."),
    }

    motor_left.set_position(-1024);
    motor_right.set_position(-1024);

    pid.update();
    let (cmd_left2, cmd_right2) = pid.get_command();

    match cmd_left2 {
        Command::Front(_) => {}
        _ => panic!("cmd_left2 should be going forward."),
    }
    match cmd_right2 {
        Command::Back(_) => {}
        _ => panic!("cmd_right2 should be going backward."),
    }
}

#[test]
fn test_real_world_pid_rotate_absolute() {
    let pid_parameters = PIDParameters {
        coder_radius: q(30.0),
        left_wheel_coef: q(1.0),
        right_wheel_coef: q(-1.0),
        ticks_per_turn: 1024,
        inter_axial_length: q(300.0),
        pos_kp: q(1.0),
        pos_kd: 0,
        orient_kp: q(1.0),
        orient_kd: 0,
        max_output: 100,
        ..Default::default()
    };

    let motor_left = DummyEncoder::new();
    let motor_right = DummyEncoder::new();
    let mut pid = RealWorldPid::new(motor_left, motor_right, &pid_parameters);

    pid.set_position_and_angle(
        Coord {
            x: MilliMeter(0),
            y: MilliMeter(0),
        },
        5890,
    ); // fifteen eighths of pi
    pid.rotate_absolute(392); // a relative quarter of pi

    let (goall, goalr) = pid.internal_pid.get_left_right_goal();

    assert!((unq(goall) + 117.0).abs() <= 1.0, "{} should be {}", unq(goall), -117);
    assert!((unq(goalr) - 117.0).abs() <= 1.0, "{} should be {}", unq(goalr), 117);

    pid.set_position_and_angle(
        Coord {
            x: MilliMeter(0),
            y: MilliMeter(0),
        },
        9032,
    ); // twenty-three eighths of pi
    pid.rotate_absolute(1963); // a relative minus quarter of pi

    let (goall1, goalr1) = pid.internal_pid.get_left_right_goal();

    assert!((unq(goall1) - 0.0).abs() <= 1.0, "{} should be {}", unq(goall1), 0);
    assert!((unq(goalr1) + 0.0).abs() <= 1.0, "{} should be {}", unq(goalr1), 0);
}

#[test]
fn test_full_session() {
    let params = PIDParameters {
        coder_radius: q(30.0),
        left_wheel_coef: q(1.0),
        right_wheel_coef: q(1.0),
        ticks_per_turn: 1024,
        inter_axial_length: q(300.0),
        ..Default::default()
    };
    let left = DummyEncoder::new();
    let right = DummyEncoder::new();
    let mut pid = RealWorldPid::new(left.clone(), right.clone(), &params);

    assert!(!pid.is_robot_blocked());
    assert_eq!(pid.get_position(), Coord { x: MilliMeter(0), y: MilliMeter(0) });
    assert_eq!(pid.get_angle(), 0);

    pid.forward(q(100.0));
    pid.update();
    let (l, r) = pid.get_command();
    assert!(l.get_value() <= params.max_output);
    assert!(r.get_value() <= params.max_output);
    pid.update_blocking();

    // Far from the goal with a wide tolerance, close with a narrow one.
    assert!(pid.is_goal_reached(q(150.0), q(100.0)));
    assert!(!pid.is_goal_reached(q(50.0), q(100.0)));

    pid.stop();
    assert!(pid.is_goal_reached(q(1.0), q(1.0)));
}

#[test]
fn odom_forward() {
    let mut odom = Odometry::new();

    let params = odom_params();

    for i in 0..1025 {
        odom.update(i, i, &params);
    }
    let robot_pos = odom.get_position();

    assert_eq!(robot_pos.x, MilliMeter(195));
    assert_eq!(robot_pos.y, MilliMeter(0));
}

#[test]
fn odom_backward() {
    let mut odom = Odometry::new();

    let params = odom_params();

    for i in 0..1025 {
        odom.update(-i, -i, &params);
    }
    let robot_pos = odom.get_position();

    assert_eq!(robot_pos.x, MilliMeter(-195));
    assert_eq!(robot_pos.y, MilliMeter(0));
}

#[test]
fn odom_forward_with_start_angle() {
    let mut odom = Odometry::new();

    let params = odom_params();

    odom.set_position_and_angle(
        Coord {
            x: MilliMeter(0),
            y: MilliMeter(0),
        },
        3141 / 4,
    );

    for i in 0..1025 {
        odom.update(i, i, &params);
    }
    let robot_pos = odom.get_position();

    assert_eq!(robot_pos.x, MilliMeter(138));
    assert_eq!(robot_pos.y, MilliMeter(138));
    assert_eq!(odom.get_angle(), 3141 / 4);
}

#[test]
fn odom_turn_self() {
    let mut odom = Odometry::new();

    let params = odom_params();

    for i in 0..921 {
        odom.update(i, -i, &params);
    }

    let robot_pos = odom.get_position();

    assert!(
        (robot_pos.x.as_millimeters() - 0).abs() <= 1,
        "{} should be {}",
        robot_pos.x.as_millimeters(),
        0
    );
    assert!(
        (robot_pos.y.as_millimeters() - 0).abs() <= 1,
        "{} should be {}",
        robot_pos.y.as_millimeters(),
        0
    );
    assert!(
        (odom.get_angle() + 1571).abs() <= 3,
        "{} should be {}",
        odom.get_angle(),
        -1571
    );
}

#[test]
fn odom_turn_right() {
    let mut odom = Odometry::new();

    let params = odom_params();

    for i in 0..1843 {
        odom.update(i, 0, &params);
    }

    let robot_pos = odom.get_position();

    assert!(
        (robot_pos.x.as_millimeters() - 111).abs() <= 1,
        "{} should be {}",
        robot_pos.x.as_millimeters(),
        111
    );
    assert!(
        (robot_pos.y.as_millimeters() + 111).abs() <= 1,
        "{} should be {}",
        robot_pos.y.as_millimeters(),
        -111
    );
}

#[test]
fn odom_front_backward_angle() {
    let mut odom = Odometry::new();

    let params = odom_params();

    odom.set_position_and_angle(
        Coord {
            x: MilliMeter(0),
            y: MilliMeter(0),
        },
        0,
    );

    for i in 0..1025 {
        odom.update(i, i, &params);
    }
    let robot_pos = odom.get_position();

    assert_eq!(robot_pos.x, MilliMeter(195));
    assert_eq!(robot_pos.y, MilliMeter(0));
    assert_eq!(odom.get_angle(), 0);

    let val_before = odom.get_position().x.as_millimeters();
    for i in 1..4000 {
        odom.update(i + 1025, 1025, &params);
    }
    for i in 1..1025 {
        odom.update(i + 4000 + 1025, i + 1025, &params);
    }
    let val_after = odom.get_position().x.as_millimeters();

    assert!(
        val_before > val_after,
        "{} > {} for {}",
        val_before,
        val_after,
        odom.get_angle()
    );
}

#[test]
fn odom_equal_deltas_round_trip_exactly() {
    // Moving forward and back by the same tick delta restores the pose
    // exactly, whatever the starting heading.
    let params = odom_params();
    let mut odom = Odometry::new();
    odom.set_position_and_angle(
        Coord {
            x: MilliMeter(320),
            y: MilliMeter(-175),
        },
        785,
    );
    let x0 = odom.x;
    let y0 = odom.y;
    let a0 = odom.angle;
    odom.update(500, 500, &params);
    assert!(odom.x != x0);
    odom.update(0, 0, &params);
    assert_eq!((odom.x, odom.y, odom.angle), (x0, y0, a0));
}

#[test]
fn odom_straight_line_keeps_heading() {
    // At heading zero, equal tick deltas advance x monotonically and
    // leave y and the heading at zero.
    let params = odom_params();
    let mut odom = Odometry::new();
    let mut last_x = odom.x;
    for i in 0..200 {
        odom.update(i * 7, i * 7, &params);
        assert!(odom.x >= last_x);
        assert_eq!(odom.y, 0);
        assert_eq!(odom.angle, 0);
        last_x = odom.x;
    }
}

#[test]
fn test_blocking() {
    let mut blocking = Blocking::new(100, q(0.1));

    // Forward
    blocking.update((Command::Front(12), Command::Front(12)), (q(0.05), q(0.05)));
    assert!(!blocking.blocked());
    blocking.reset();

    blocking.update((Command::Front(120), Command::Front(12)), (q(0.05), q(0.05)));
    assert!(blocking.blocked());
    blocking.reset();

    // The left wheel moved, but the commanded right wheel did not: one
    // stalled wheel is enough for a verdict.
    blocking.update((Command::Front(120), Command::Front(120)), (q(14.0), q(0.05)));
    assert!(blocking.blocked());
    blocking.reset();

    // Backward
    blocking.update((Command::Back(12), Command::Back(12)), (q(-0.05), q(-0.05)));
    assert!(!blocking.blocked());
    blocking.reset();

    // The right wheel barely moved against a strong backward command.
    blocking.update((Command::Back(120), Command::Back(120)), (q(-0.14), q(-0.05)));
    assert!(blocking.blocked());
    blocking.reset();

    blocking.update((Command::Back(120), Command::Back(120)), (q(-0.14), q(-0.05)));
    assert!(blocking.blocked());
    blocking.reset();

    // Backward / forward
    blocking.update((Command::Back(120), Command::Back(120)), (q(0.14), q(0.14)));
    assert!(blocking.blocked());
    blocking.reset();

    blocking.update((Command::Back(120), Command::Front(120)), (q(0.14), q(-0.14)));
    assert!(blocking.blocked());
    blocking.reset();
}

#[test]
fn blocking_reset_clears_any_state() {
    let mut blocking = Blocking::new(10, q(1.0));
    blocking.update((Command::Front(50), Command::Front(50)), (0, 0));
    assert!(blocking.blocked());
    blocking.reset();
    assert!(!blocking.blocked());
    assert_eq!(blocking.last_dist_left, 0);
    assert_eq!(blocking.last_dist_right, 0);
}

#[test]
fn blocking_below_command_threshold_never_triggers() {
    let mut blocking = Blocking::new(100, q(5.0));
    blocking.update((Command::Front(100), Command::Back(100)), (0, 0));
    assert!(!blocking.blocked());
}
