use vstd::prelude::*;

verus! {

/// Upward speed given by a jump, in pixels per second.
pub const JUMP_SPEED: u32 = 760;
/// Horizontal running speed on the ground, in pixels per second.
pub const GROUND_SPEED: u32 = 320;
/// Horizontal steering speed in the air, in pixels per second.
pub const AIR_SPEED: u32 = 220;
/// Horizontal speed during a dash, in pixels per second.
pub const DASH_SPEED: u32 = 900;

/// The movement keys during one frame.
#[derive(Clone, Copy, PartialEq, Eq, Debug, Structural)]
pub struct PlayerControls {
    /// Left key (Q) held.
    pub left: bool,
    /// Right key (D) held.
    pub right: bool,
    /// Down key (S) held: drop through one-way platforms and fall faster.
    pub down: bool,
    /// Jump key (Space) pressed this frame.
    pub jump_pressed: bool,
    /// Either dash key (left or right Shift) pressed this frame.
    pub dash_pressed: bool,
}

/// What the player is trying to do this frame, before collisions are resolved.
#[derive(Clone, Copy, PartialEq, Eq, Debug, Structural)]
pub struct MovementIntent {
    /// -1 to the left, 1 to the right, 0 when both or neither key is held.
    pub direction: i8,
    /// The vertical speed is set to [`JUMP_SPEED`].
    pub jump: bool,
    /// Whether the player still counts as standing on a platform (a jump leaves it).
    pub grounded: bool,
    /// A new dash starts now (its timers are reset).
    pub start_dash: bool,
    /// A dash is under way after this frame's decisions.
    pub dashing: bool,
    /// The horizontal speed, in pixels per second (negative to the left).
    pub horizontal_velocity: i32,
    /// One-way platforms are passed through and gravity is stronger.
    pub dropping: bool,
}

/// The horizontal direction chosen by the left and right keys.
pub open spec fn direction_of(left: bool, right: bool) -> int {
    (if right { 1int } else { 0int }) - (if left { 1int } else { 0int })
}

/// The intent decided from the keys, whether the player stands on a platform,
/// whether a dash is still running, and whether the dash cooldown has elapsed.
pub open spec fn intent_of(controls: PlayerControls, grounded: bool, dash_active: bool, dash_ready: bool) -> MovementIntent {
    let direction = direction_of(controls.left, controls.right);
    let jump = controls.jump_pressed && grounded;
    let still_grounded = grounded && !jump;
    let start_dash = controls.dash_pressed && dash_ready && direction != 0;
    let dashing = dash_active || start_dash;
    let speed: int = if dashing {
        DASH_SPEED as int
    } else if still_grounded {
        GROUND_SPEED as int
    } else {
        AIR_SPEED as int
    };
    MovementIntent {
        direction: direction as i8,
        jump: jump,
        grounded: still_grounded,
        start_dash: start_dash,
        dashing: dashing,
        horizontal_velocity: (if direction > 0 { speed } else if direction < 0 { -speed } else { 0int }) as i32,
        dropping: controls.down,
    }
}

/// Decides the player's movement for one frame.
pub fn movement_intent(controls: PlayerControls, grounded: bool, dash_active: bool, dash_ready: bool) -> (r: MovementIntent)
    ensures
        r == intent_of(controls, grounded, dash_active, dash_ready),
        r.direction as int == direction_of(controls.left, controls.right),
        -(DASH_SPEED as int) <= r.horizontal_velocity <= DASH_SPEED as int,
{
    let mut direction: i8 = 0;
    if controls.left {
        direction = direction - 1;
    }
    if controls.right {
        direction = direction + 1;
    }
    let mut still_grounded = grounded;
    let mut jump = false;
    if controls.jump_pressed && grounded {
        jump = true;
        still_grounded = false;
    }
    let start_dash = controls.dash_pressed && dash_ready && direction != 0;
    let dashing = dash_active || start_dash;
    let speed: i32 = if dashing {
        DASH_SPEED as i32
    } else if still_grounded {
        GROUND_SPEED as i32
    } else {
        AIR_SPEED as i32
    };
    let horizontal_velocity: i32 = if direction > 0 {
        speed
    } else if direction < 0 {
        -speed
    } else {
        0
    };
    MovementIntent {
        direction,
        jump,
        grounded: still_grounded,
        start_dash,
        dashing,
        horizontal_velocity,
        dropping: controls.down,
    }
}

/// A dash never starts without a direction, and a jump needs the player on a platform;
/// a jumping player is no longer grounded.
pub proof fn lemma_intent_guards(controls: PlayerControls, grounded: bool, dash_active: bool, dash_ready: bool)
    ensures
        intent_of(controls, grounded, dash_active, dash_ready).start_dash ==> intent_of(controls, grounded, dash_active, dash_ready).direction != 0,
        intent_of(controls, grounded, dash_active, dash_ready).start_dash ==> dash_ready,
        intent_of(controls, grounded, dash_active, dash_ready).jump ==> grounded && !intent_of(controls, grounded, dash_active, dash_ready).grounded,
{
}

/// While dashing in some direction the player moves at exactly the dash speed;
/// without a direction the player stands still horizontally.
pub proof fn lemma_intent_speed(controls: PlayerControls, grounded: bool, dash_active: bool, dash_ready: bool)
    ensures
        ({
            let i = intent_of(controls, grounded, dash_active, dash_ready);
            &&& (i.dashing && i.direction != 0) ==> (i.horizontal_velocity == DASH_SPEED as int || i.horizontal_velocity == -(DASH_SPEED as int))
            &&& i.direction == 0 ==> i.horizontal_velocity == 0
            &&& i.horizontal_velocity == i.direction * (if i.dashing { DASH_SPEED as int } else if i.grounded { GROUND_SPEED as int } else { AIR_SPEED as int })
            &&& -1 <= i.direction <= 1
        }),
{
    let i = intent_of(controls, grounded, dash_active, dash_ready);
    let speed: int = if i.dashing { DASH_SPEED as int } else if i.grounded { GROUND_SPEED as int } else { AIR_SPEED as int };
    if i.direction == 1 {
        assert(i.direction * speed == speed);
    } else if i.direction == -1 {
        assert(i.direction * speed == -speed);
    }
}

/// The decisions of a frame, stated key by key: the direction follows the left and right
/// keys; a jump needs the jump key and a platform underfoot; a dash starts only when a
/// dash key is pressed, the cooldown has elapsed and a direction is held; the player moves
/// at the dash speed while dashing, otherwise at the ground or air speed, in the held
/// direction; the down key alone decides dropping.
pub proof fn lemma_intent_follows_the_keys(controls: PlayerControls, grounded: bool, dash_active: bool, dash_ready: bool)
    ensures
        ({
            let i = intent_of(controls, grounded, dash_active, dash_ready);
            let held = controls.left != controls.right;
            &&& i.direction == 1 <==> (controls.right && !controls.left)
            &&& i.direction == -1 <==> (controls.left && !controls.right)
            &&& i.direction == 0 <==> !held
            &&& i.jump == (controls.jump_pressed && grounded)
            &&& i.grounded == (grounded && !controls.jump_pressed)
            &&& i.start_dash == (controls.dash_pressed && dash_ready && held)
            &&& i.start_dash ==> controls.dash_pressed
            &&& i.dashing == (dash_active || i.start_dash)
            &&& !dash_active && !controls.dash_pressed ==> !i.dashing
            &&& i.dropping == controls.down
            &&& !held ==> i.horizontal_velocity == 0
            &&& (held && i.dashing) ==> i.horizontal_velocity == i.direction * 900
            &&& (held && !i.dashing && i.grounded) ==> i.horizontal_velocity == i.direction * 320
            &&& (held && !i.dashing && !i.grounded) ==> i.horizontal_velocity == i.direction * 220
        }),
{
    let i = intent_of(controls, grounded, dash_active, dash_ready);
    if i.direction == 1 {
        assert(i.direction * 900 == 900 && i.direction * 320 == 320 && i.direction * 220 == 220);
    } else if i.direction == -1 {
        assert(i.direction * 900 == -900 && i.direction * 320 == -320 && i.direction * 220 == -220);
    }
}

} // verus!
