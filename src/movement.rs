use vstd::prelude::*;

verus! {

/// Micro-units in one map unit, and microseconds in one second.
pub const MICRO: i64 = 1_000_000;

/// Downward acceleration while airborne, in map units per second squared:
/// the micro-units per second that each microsecond in the air adds.
pub const GRAVITY: i64 = 500;

/// Horizontal speed while a direction is held, in micro-units per second.
pub const RUN_SPEED: i64 = 100_000_000;

/// Upward speed given by a jump, in micro-units per second.
pub const JUMP_SPEED: i64 = 120_000_000;

/// A velocity in micro-units per second; `y` grows downward.
#[derive(Clone, Copy, Debug, PartialEq, Eq, Structural)]
pub struct Velocity {
    pub x: i64,
    pub y: i64,
}

/// Vertical velocity after gravity or the ground has acted on it.
pub open spec fn settled_vy(vy: int, grounded: bool, dt: int) -> int {
    if grounded {
        if vy < 0 { 0 } else { vy }
    } else {
        vy + GRAVITY * dt
    }
}

/// Whether gravity can act for `dt` microseconds on `vy` without leaving `i64`.
pub open spec fn gravity_fits(vy: int, dt: int) -> bool {
    vy + GRAVITY * dt <= i64::MAX
}

/// Applies gravity to an airborne actor; for a grounded one, takes the
/// larger of zero and the vertical speed, so that a negative (upward) speed
/// becomes zero.
pub fn settle_vertical(vy: i64, grounded: bool, dt_us: u32) -> (r: i64)
    requires
        grounded || gravity_fits(vy as int, dt_us as int),
    ensures
        r == settled_vy(vy as int, grounded, dt_us as int),
{
    if grounded {
        if vy < 0 { 0 } else { vy }
    } else {
        vy + GRAVITY * (dt_us as i64)
    }
}

/// Horizontal velocity chosen by the held directions: right wins over left.
pub open spec fn run_vx(left: bool, right: bool) -> int {
    if right {
        RUN_SPEED as int
    } else if left {
        -RUN_SPEED
    } else {
        0
    }
}

/// Vertical velocity once a jump press has been taken into account.
pub open spec fn jumped_vy(vy: int, grounded: bool, jump: bool) -> int {
    if jump && grounded {
        -JUMP_SPEED
    } else {
        vy
    }
}

/// Picks the horizontal velocity from the held directions.
pub fn run_velocity(left: bool, right: bool) -> (r: i64)
    ensures
        r == run_vx(left, right),
{
    if right {
        RUN_SPEED
    } else if left {
        -RUN_SPEED
    } else {
        0
    }
}

/// Gives a grounded actor the jump speed when jump was pressed this frame.
pub fn apply_jump(vy: i64, grounded: bool, jump_pressed: bool) -> (r: i64)
    ensures
        r == jumped_vy(vy as int, grounded, jump_pressed),
{
    if jump_pressed && grounded {
        -JUMP_SPEED
    } else {
        vy
    }
}

/// What the player does during one frame.
#[derive(Clone, Copy, Debug, PartialEq, Eq, Structural)]
pub struct FrameInput {
    /// Time elapsed since the previous frame, in microseconds.
    pub dt_us: u32,
    /// The left direction is held.
    pub left: bool,
    /// The right direction is held.
    pub right: bool,
    /// Jump was pressed during this frame (an edge, not a held key).
    pub jump_pressed: bool,
}

/// The velocity at the end of a frame's update, before the actor moves.
pub open spec fn next_velocity(v: Velocity, grounded: bool, input: FrameInput) -> Velocity {
    Velocity {
        x: run_vx(input.left, input.right) as i64,
        y: jumped_vy(
            settled_vy(v.y as int, grounded, input.dt_us as int),
            grounded,
            input.jump_pressed,
        ) as i64,
    }
}

/// Whether a frame's update can run on `v` within the range of `i64`.
pub open spec fn update_fits(v: Velocity, grounded: bool, input: FrameInput) -> bool {
    grounded || gravity_fits(v.y as int, input.dt_us as int)
}

/// The player: a handle to its collider in the physics world, and its velocity.
#[derive(Debug)]
pub struct PlayerState<A> {
    pub actor: A,
    pub velocity: Velocity,
}

impl<A> PlayerState<A> {
    /// A player at rest, moving the collider `actor`.
    pub fn new(actor: A) -> (r: Self)
        ensures
            r.actor == actor,
            r.velocity == (Velocity { x: 0, y: 0 }),
    {
        PlayerState { actor, velocity: Velocity { x: 0, y: 0 } }
    }

    /// Whether `update_velocity` accepts this frame: false only when an
    /// airborne player's falling speed would leave the range of `i64`.
    pub fn can_update(&self, grounded: bool, input: &FrameInput) -> (r: bool)
        ensures
            r == update_fits(self.velocity, grounded, *input),
    {
        grounded || self.velocity.y <= i64::MAX - GRAVITY * (input.dt_us as i64)
    }

    /// Updates the velocity for one frame: gravity or the ground first, then
    /// the held directions, then the jump. `grounded` is the ground check made
    /// at the position where the previous frame left the actor.
    pub fn update_velocity(&mut self, grounded: bool, input: &FrameInput)
        requires
            update_fits(old(self).velocity, grounded, *input),
        ensures
            final(self).actor == old(self).actor,
            final(self).velocity == next_velocity(old(self).velocity, grounded, *input),
            !grounded ==> final(self).velocity.y == old(self).velocity.y + GRAVITY * input.dt_us,
            grounded && !input.jump_pressed ==> final(self).velocity.y == (if old(self).velocity.y
                < 0 {
                0
            } else {
                old(self).velocity.y as int
            }),
            grounded && input.jump_pressed ==> final(self).velocity.y == -JUMP_SPEED,
    {
        let vy = settle_vertical(self.velocity.y, grounded, input.dt_us);
        self.velocity.x = run_velocity(input.left, input.right);
        self.velocity.y = apply_jump(vy, grounded, input.jump_pressed);
    }
}

/// Distance covered in `dt` microseconds at `v` micro-units per second, in
/// micro-units, rounded toward zero.
pub open spec fn travel(v: int, dt: int) -> int {
    if v * dt >= 0 {
        (v * dt) / (MICRO as int)
    } else {
        -((-(v * dt)) / (MICRO as int))
    }
}

/// Computes the displacement along one axis for one frame.
pub fn displacement(v: i64, dt_us: u32) -> (r: i128)
    ensures
        r == travel(v as int, dt_us as int),
{
    let vv: i128 = v as i128;
    let dd: i128 = dt_us as i128;
    assert(-0x8000_0000_0000_0000 * 0x1_0000_0000 <= vv * dd <= 0x8000_0000_0000_0000
        * 0x1_0000_0000) by (nonlinear_arith)
        requires
            -0x8000_0000_0000_0000 <= vv < 0x8000_0000_0000_0000,
            0 <= dd < 0x1_0000_0000,
    ;
    let p: i128 = vv * dd;
    if p >= 0 {
        p / (MICRO as i128)
    } else {
        -((-p) / (MICRO as i128))
    }
}

/// The two moves of a frame, in micro-units: `dx` is made first, then `dy`
/// from where the first move ended.
#[derive(Clone, Copy, Debug, PartialEq, Eq, Structural)]
pub struct Moves {
    pub dx: i128,
    pub dy: i128,
}

impl<A> PlayerState<A> {
    /// Runs the decisions of one frame: updates the velocity as
    /// `update_velocity` does, and returns the horizontal and the vertical
    /// move that the world is to resolve, in that order, against its solids.
    pub fn step(&mut self, grounded: bool, input: &FrameInput) -> (r: Moves)
        requires
            update_fits(old(self).velocity, grounded, *input),
        ensures
            final(self).actor == old(self).actor,
            final(self).velocity == next_velocity(old(self).velocity, grounded, *input),
            !grounded ==> final(self).velocity.y == old(self).velocity.y + GRAVITY * input.dt_us,
            grounded && !input.jump_pressed ==> final(self).velocity.y == (if old(self).velocity.y
                < 0 {
                0
            } else {
                old(self).velocity.y as int
            }),
            grounded && input.jump_pressed ==> final(self).velocity.y == -JUMP_SPEED,
            r.dx == travel(final(self).velocity.x as int, input.dt_us as int),
            r.dy == travel(final(self).velocity.y as int, input.dt_us as int),
    {
        self.update_velocity(grounded, input);
        let dx = displacement(self.velocity.x, input.dt_us);
        let dy = displacement(self.velocity.y, input.dt_us);
        Moves { dx, dy }
    }
}

/// While airborne, gravity adds exactly `GRAVITY * dt` to the vertical
/// velocity over a frame of `dt` microseconds, so the falling speed never
/// decreases; no jump can fire in the air.
pub proof fn lemma_airborne_gravity(v: Velocity, input: FrameInput)
    requires
        gravity_fits(v.y as int, input.dt_us as int),
    ensures
        settled_vy(v.y as int, false, input.dt_us as int) == v.y + GRAVITY * input.dt_us,
        next_velocity(v, false, input).y == v.y + GRAVITY * input.dt_us,
        next_velocity(v, false, input).y >= v.y,
{
}

/// On the ground and without a jump, the vertical velocity becomes the
/// larger of zero and its previous value.
pub proof fn lemma_grounded_floor(v: Velocity, input: FrameInput)
    requires
        !input.jump_pressed,
    ensures
        next_velocity(v, true, input).y == (if v.y < 0 { 0 } else { v.y as int }),
        next_velocity(v, true, input).y >= 0,
{
}

/// A jump pressed on the ground sets the vertical velocity to the jump
/// speed upward, whatever it was before.
pub proof fn lemma_jump_impulse(v: Velocity, input: FrameInput)
    requires
        input.jump_pressed,
    ensures
        next_velocity(v, true, input).y == -JUMP_SPEED,
{
}

/// The horizontal velocity after a frame is the run speed to the right, to
/// the left, or zero, for every input and every grounded state.
pub proof fn lemma_run_speeds(v: Velocity, grounded: bool, input: FrameInput)
    ensures
        next_velocity(v, grounded, input).x == RUN_SPEED
            || next_velocity(v, grounded, input).x == -RUN_SPEED
            || next_velocity(v, grounded, input).x == 0,
{
}

/// Holding both directions runs to the right.
pub proof fn lemma_right_wins(v: Velocity, grounded: bool, input: FrameInput)
    requires
        input.left,
        input.right,
    ensures
        next_velocity(v, grounded, input).x == RUN_SPEED,
{
}

} // verus!
