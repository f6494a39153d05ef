use thatgame::movement::{
    apply_jump, displacement, run_velocity, settle_vertical, FrameInput, PlayerState, Velocity,
    GRAVITY, JUMP_SPEED, RUN_SPEED,
};

fn frame(dt_us: u32, left: bool, right: bool, jump_pressed: bool) -> FrameInput {
    FrameInput { dt_us, left, right, jump_pressed }
}

#[test]
fn jump_and_right_from_rest() {
    let mut p = PlayerState::new(0usize);
    let m = p.step(true, &frame(16_000, false, true, true));
    assert_eq!(p.velocity, Velocity { x: 100_000_000, y: -120_000_000 });
    assert_eq!(m.dx, 1_600_000);
    assert_eq!(m.dy, -1_920_000);
    assert_eq!(p.actor, 0);
}

#[test]
fn airborne_gravity_adds_per_frame() {
    let mut p = PlayerState::new(3u8);
    p.velocity = Velocity { x: 0, y: -50_000_000 };
    let input = frame(20_000, false, false, false);
    assert!(p.can_update(false, &input));
    p.update_velocity(false, &input);
    assert_eq!(p.velocity.y, -50_000_000 + GRAVITY * 20_000);
    assert_eq!(p.velocity.y, -40_000_000);
    assert_eq!(settle_vertical(7, false, 0), 7);
}

#[test]
fn airborne_jump_is_ignored() {
    let mut p = PlayerState::new(());
    p.update_velocity(false, &frame(10_000, false, false, true));
    assert_eq!(p.velocity.y, 5_000_000);
}

#[test]
fn grounded_floors_speed_at_zero() {
    assert_eq!(settle_vertical(30_000_000, true, 16_000), 30_000_000);
    assert_eq!(settle_vertical(-30_000_000, true, 16_000), 0);
    assert_eq!(settle_vertical(0, true, 16_000), 0);
    let mut p = PlayerState::new(1i32);
    p.velocity = Velocity { x: 5, y: 80_000_000 };
    p.update_velocity(true, &frame(16_000, false, false, false));
    assert_eq!(p.velocity, Velocity { x: 0, y: 80_000_000 });
    p.velocity = Velocity { x: 5, y: -80_000_000 };
    p.update_velocity(true, &frame(16_000, false, false, false));
    assert_eq!(p.velocity, Velocity { x: 0, y: 0 });
}

#[test]
fn jump_overrides_any_speed() {
    assert_eq!(apply_jump(999, true, true), -JUMP_SPEED);
    assert_eq!(apply_jump(-7, true, true), -120_000_000);
    assert_eq!(apply_jump(999, false, true), 999);
    assert_eq!(apply_jump(999, true, false), 999);
}

#[test]
fn run_speed_choices() {
    assert_eq!(run_velocity(false, true), RUN_SPEED);
    assert_eq!(run_velocity(true, false), -100_000_000);
    assert_eq!(run_velocity(false, false), 0);
    assert_eq!(run_velocity(true, true), 100_000_000);
    for left in [false, true] {
        for right in [false, true] {
            let v = run_velocity(left, right);
            assert!(v == RUN_SPEED || v == -RUN_SPEED || v == 0);
        }
    }
}

#[test]
fn displacement_rounds_toward_zero() {
    assert_eq!(displacement(100_000_000, 16_000), 1_600_000);
    assert_eq!(displacement(-120_000_000, 16_000), -1_920_000);
    assert_eq!(displacement(3, 500_000), 1);
    assert_eq!(displacement(-3, 500_000), -1);
    assert_eq!(displacement(0, 4_000_000_000), 0);
    assert_eq!(displacement(i64::MIN, u32::MAX), (i64::MIN as i128) * (u32::MAX as i128) / 1_000_000);
}

#[test]
fn gravity_overflow_is_refused() {
    let mut p = PlayerState::new(0u8);
    p.velocity.y = i64::MAX - 100;
    assert!(!p.can_update(false, &frame(1, false, false, false)));
    assert!(p.can_update(true, &frame(1, false, false, false)));
    assert!(p.can_update(false, &frame(0, false, false, false)));
}
