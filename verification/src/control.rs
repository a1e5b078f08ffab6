//! The character under the player's control: jumping, running, attacking and
//! the animation that follows from them.

use vstd::prelude::*;
use crate::dino::{
    Dino, ATTACK_LAST, CALM, CALM_SPEED, GRAVITY, JUMP_HEIGHT, RISING_FRAME,
};
use crate::geometry::Point;
use crate::obstacle::{any_overlap, intersects_any, Obstacle};
use crate::random::roll;
use crate::sound::{cue, Sound, SoundEffect};
use crate::units::{
    div_toward_zero, gain, gain_is_bounded, gain_over, gain_within_a_tick, is_sqrt_floor,
    isqrt, sqrt_floor, toward_zero, toward_zero_falls_short, LIMIT, LONGEST_TICK, SPAN,
};

verus! {

/// Speed that the character runs towards while a direction is held.
pub const RUNNING_SPEED: i64 = 250_000;

/// Longest boost phase of a jump, in microseconds.
pub const MAX_JUMP_TIME: u64 = 220_000;

/// Share of the previous horizontal velocity that survives one tick, in percent.
pub const DAMPENING: i64 = 95;

/// Vertical velocity above which an airborne character shows the rising pose.
pub const RISING_ABOVE: i64 = -200_000;

/// First frame of the walk cycle.
pub const WALK_FIRST: usize = 0;

/// Last frame of the walk cycle.
pub const WALK_LAST: usize = 11;

/// First frame of the idle animation.
pub const IDLE_FIRST: usize = 12;

/// Last frame of the idle animation.
pub const IDLE_LAST: usize = 17;

/// First frame of the attack animation.
pub const ATTACK_FIRST: usize = 18;

/// Attack frame that is shown for one extra tick.
pub const HELD_FRAME: usize = 21;

/// Pose while falling.
pub const FALLING_FRAME: usize = 23;

/// What the player is doing with the controls during one tick.
#[derive(Clone, Copy, Debug, PartialEq, Eq, Structural)]
pub struct Input {
    /// A key for running left is held.
    pub left: bool,
    /// A key for running right is held.
    pub right: bool,
    /// The jump key is held.
    pub jump_held: bool,
    /// The jump key went down this tick.
    pub jump_pressed: bool,
}

/// The random draws that one tick of animation may consume.
#[derive(Clone, Copy, Debug, PartialEq, Eq, Structural)]
pub struct Draws {
    /// Recording to play when a jump starts.
    pub jump: u32,
    /// Recording to play when an attack starts.
    pub swoosh: u32,
    /// Recording to play when an attack connects.
    pub impact: u32,
    /// Recording to play for a footstep.
    pub step: u32,
    /// Zero lets the idle animation twitch back from its last frame.
    pub idle_twitch: u32,
    /// Zero lets the idle animation advance by a frame.
    pub idle_advance: u32,
}

impl Draws {
    /// Each draw lies in the range that it is drawn from.
    pub open spec fn valid(self) -> bool {
        &&& 1 <= self.jump < 2
        &&& 1 <= self.swoosh < 4
        &&& 1 <= self.impact < 3
        &&& 1 <= self.step < 10
        &&& self.idle_twitch < 40
        &&& self.idle_advance < 10
    }

    /// Draws afresh from the random source.
    pub fn sample() -> (d: Draws)
        ensures
            d.valid(),
    {
        Draws {
            jump: 1 + roll(1),
            swoosh: 1 + roll(3),
            impact: 1 + roll(2),
            step: 1 + roll(9),
            idle_twitch: roll(40),
            idle_advance: roll(10),
        }
    }
}

/// Upward velocity during the boost phase of a jump tuned to reach
/// `jump_height`: the launch velocity of such a jump, scaled by the length of
/// the boost phase in seconds.
pub open spec fn thrust(jump_height: int) -> int {
    sqrt_floor(2 * jump_height * (-GRAVITY)) * 22 / 100
}

/// Computes [`thrust`].
pub fn compute_thrust(jump_height: i64) -> (v: i64)
    requires
        0 <= jump_height <= LIMIT,
    ensures
        v == thrust(jump_height as int),
        0 <= v <= 1_000_000_000,
{
    let square: u64 = 2 * (jump_height as u64) * 1_200_000;
    let root = isqrt(square);
    (root * 22 / 100) as i64
}

/// The character with both of its timers advanced by `dt`.
pub open spec fn timers_ticked(d: Dino, dt: u32) -> Dino {
    Dino {
        timer: d.timer.ticked(dt),
        walk_sound_effect_timer: d.walk_sound_effect_timer.ticked(dt),
        ..d
    }
}

/// Whether a jump starts: the jump key went down while the character stood.
pub open spec fn jump_starts(d: Dino, input: Input) -> bool {
    input.jump_pressed && d.grounded
}

/// The character after a jump may have started: a new jump leaves the ground
/// with its boost time at zero, ends any attack and withdraws the right to
/// attack until the character is seen airborne.
pub open spec fn jump_started(d: Dino, input: Input) -> Dino {
    if jump_starts(d, input) {
        Dino {
            jumping: true,
            jump_time: 0,
            grounded: false,
            attacking: false,
            can_attack: false,
            jump_height: JUMP_HEIGHT,
            ..d
        }
    } else {
        d
    }
}

/// Whether the boost phase goes on: a jump is under way, the key is still
/// held and the time budget is not used up.
pub open spec fn boosting(d: Dino, input: Input) -> bool {
    d.jumping && input.jump_held && d.jump_time < MAX_JUMP_TIME
}

/// The character after the boost phase has acted: while it goes on the
/// vertical velocity is set to the thrust and the boost time grows by `dt`;
/// once it is over the velocity is left alone.
pub open spec fn boosted(d: Dino, input: Input, dt: u32) -> Dino {
    if boosting(d, input) {
        Dino {
            velocity: Point { y: thrust(d.jump_height as int) as i64, ..d.velocity },
            jump_time: (d.jump_time + dt) as u64,
            ..d
        }
    } else {
        Dino { jumping: false, ..d }
    }
}

/// Horizontal velocity that the held directions ask for; right wins over left.
pub open spec fn target_velocity(input: Input) -> int {
    if input.right {
        RUNNING_SPEED as int
    } else if input.left {
        -RUNNING_SPEED
    } else {
        0
    }
}

/// Horizontal velocity after one tick of smoothing towards `target`,
/// rounded towards zero.
pub open spec fn damped(vx: int, target: int) -> int {
    toward_zero(vx * DAMPENING + target * (100 - DAMPENING), 100)
}

/// The horizontal velocity `vx` after `ticks` ticks without a direction held.
pub open spec fn coasted(vx: int, ticks: nat) -> int
    decreases ticks,
{
    if ticks == 0 {
        vx
    } else {
        damped(coasted(vx, (ticks - 1) as nat), 0)
    }
}

/// Without a direction held the character slows with every tick and keeps
/// its direction until it stands: after `ticks` ticks its speed is less by
/// at least `ticks`, or nothing.
pub proof fn coasting_slows(vx: int, ticks: nat)
    ensures
        vx >= 0 ==> 0 <= coasted(vx, ticks) <= vx && coasted(vx, ticks) <= if vx >= ticks {
            vx - ticks
        } else {
            0
        },
        vx <= 0 ==> vx <= coasted(vx, ticks) <= 0 && coasted(vx, ticks) >= if -vx >= ticks {
            vx + ticks
        } else {
            0
        },
    decreases ticks,
{
    if ticks > 0 {
        coasting_slows(vx, (ticks - 1) as nat);
        let v = coasted(vx, (ticks - 1) as nat);
        let n = v * DAMPENING + 0 * (100 - DAMPENING);
        assert(n == 95 * v) by (nonlinear_arith)
            requires
                n == v * DAMPENING + 0 * (100 - DAMPENING),
                DAMPENING == 95,
        ;
        toward_zero_falls_short(n, 100);
    }
}

/// A character that is released comes to rest: after as many ticks as its
/// speed counts, and from then on, it stands.
pub proof fn released_character_comes_to_rest(vx: int, ticks: nat)
    requires
        ticks >= vx,
        ticks >= -vx,
    ensures
        coasted(vx, ticks) == 0,
{
    coasting_slows(vx, ticks);
}

/// The character after running for `dt`: it faces where it is steered, its
/// horizontal velocity is smoothed towards the target, and position and box
/// move by what that velocity covers.
pub open spec fn ran(d: Dino, input: Input, dt: u32) -> Dino {
    let vx = damped(d.velocity.x as int, target_velocity(input));
    let moved = d.at_abscissa(d.position.x + gain(vx, dt as int));
    Dino {
        velocity: Point { x: vx as i64, ..d.velocity },
        flip_x: if input.right {
            false
        } else if input.left {
            true
        } else {
            d.flip_x
        },
        ..moved
    }
}

/// Whether the character counts as airborne for animation and attacks.
pub open spec fn in_the_air(d: Dino) -> bool {
    d.jumping || !d.grounded
}

/// Whether an attack is registered: the jump key went down while the
/// character was airborne, allowed to attack and not attacking already.
pub open spec fn attack_starts(d: Dino, input: Input) -> bool {
    in_the_air(d) && input.jump_pressed && !d.attacking && d.can_attack
}

/// Extra ticks for which an attack frame is shown.
pub open spec fn hold_ticks(frame: usize) -> u8 {
    if frame == HELD_FRAME {
        1
    } else {
        0
    }
}

/// The character one step further in the attack animation: from the last
/// attack frame it returns to the falling pose and the attack is over;
/// otherwise a held frame uses up its extra ticks before the next one shows.
pub open spec fn attack_advanced(d: Dino) -> Dino {
    if d.frame == ATTACK_LAST {
        Dino { frame: FALLING_FRAME, attacking: false, ..d }
    } else if d.frame_hold < hold_ticks(d.frame) {
        Dino { frame_hold: (d.frame_hold + 1) as u8, ..d }
    } else {
        Dino { frame_hold: 0, frame: (d.frame + 1) as usize, ..d }
    }
}

/// The character one step further in the walk cycle.
pub open spec fn walk_advanced(d: Dino) -> Dino {
    if d.frame >= WALK_LAST {
        Dino { frame: WALK_FIRST, ..d }
    } else {
        Dino { frame: (d.frame + 1) as usize, ..d }
    }
}

/// The character one step further in the idle animation. From outside the
/// idle frames it enters at the first. At the last frame it turns backward
/// and, on a twitch, steps back by one; at the frame before the last it goes
/// on to the last while moving forward, else back to the first, forward
/// again; anywhere else it advances only if the draw allows.
pub open spec fn idle_advanced(d: Dino, draws: Draws) -> Dino {
    let frame = if d.frame < IDLE_FIRST || d.frame > IDLE_LAST {
        IDLE_FIRST
    } else {
        d.frame
    };
    if frame == IDLE_LAST {
        Dino {
            idle_frame_forward: false,
            frame: if draws.idle_twitch == 0 {
                (IDLE_LAST - 1) as usize
            } else {
                frame
            },
            ..d
        }
    } else if frame == IDLE_LAST - 1 {
        if d.idle_frame_forward {
            Dino { frame: IDLE_LAST, ..d }
        } else {
            Dino { idle_frame_forward: true, frame: IDLE_FIRST, ..d }
        }
    } else {
        Dino {
            frame: if draws.idle_advance == 0 {
                (frame + 1) as usize
            } else {
                frame
            },
            ..d
        }
    }
}

/// What the character is doing, as far as its animation is concerned.
#[derive(Clone, Copy, Debug, PartialEq, Eq, Structural)]
pub enum ActionState {
    /// Standing on the ground.
    Idle,
    /// On the ground with a direction held.
    Walking,
    /// In the air, going up or near the top.
    Rising,
    /// In the air, going down.
    Falling,
    /// In the air, attacking, from the tick in which the attack is registered.
    Attacking,
}

/// What the character is doing during a tick, once it has been steered.
pub open spec fn action_state(d: Dino, input: Input) -> ActionState {
    if in_the_air(d) {
        if attack_starts(d, input) || d.attacking {
            ActionState::Attacking
        } else if d.velocity.y > RISING_ABOVE {
            ActionState::Rising
        } else {
            ActionState::Falling
        }
    } else if input.left || input.right {
        ActionState::Walking
    } else {
        ActionState::Idle
    }
}

/// The character in the first frame of an attack; where `hit` says that it
/// touches an obstacle, the attack connects and bounces the character back
/// into the boost phase.
pub open spec fn struck(d: Dino, hit: bool) -> Dino {
    Dino {
        attacking: true,
        frame: ATTACK_FIRST,
        jump_time: if hit {
            0
        } else {
            d.jump_time
        },
        jumping: hit || d.jumping,
        ..d
    }
}

/// The character after the animation and attack rules have acted.
///
/// Attacking: a registered attack shows its first frame, and an attack
/// under way advances on the frame timer. Rising and falling show their
/// pose. In each of these the character is in the air and may attack from
/// the next tick on. Walking and idle advance their animation on the frame
/// timer.
pub open spec fn animated(d: Dino, input: Input, hit: bool, draws: Draws) -> Dino {
    match action_state(d, input) {
        ActionState::Attacking => {
            let shown = if attack_starts(d, input) {
                struck(d, hit)
            } else if d.timer.just_finished {
                attack_advanced(d)
            } else {
                d
            };
            Dino { can_attack: true, ..shown }
        },
        ActionState::Rising => Dino { frame: RISING_FRAME, can_attack: true, ..d },
        ActionState::Falling => Dino { frame: FALLING_FRAME, can_attack: true, ..d },
        ActionState::Walking => if d.timer.just_finished {
            walk_advanced(d)
        } else {
            d
        },
        ActionState::Idle => if d.timer.just_finished {
            idle_advanced(d, draws)
        } else {
            d
        },
    }
}

/// Whether a footstep sounds: the character walks on the ground and the
/// footstep timer has just run out.
pub open spec fn steps(d: Dino, input: Input) -> bool {
    !in_the_air(d) && (input.left || input.right) && d.walk_sound_effect_timer.just_finished
}

/// The sounds of the animation rules, in the order in which they are played.
pub open spec fn animation_sounds(d: Dino, input: Input, hit: bool, draws: Draws, sfx: bool) -> Seq<
    Sound,
> {
    if attack_starts(d, input) {
        if hit {
            seq![
                cue(SoundEffect::Swoosh, draws.swoosh, sfx),
                cue(SoundEffect::Impact, draws.impact, sfx),
            ]
        } else {
            seq![cue(SoundEffect::Swoosh, draws.swoosh, sfx)]
        }
    } else if steps(d, input) {
        seq![cue(SoundEffect::Step, draws.step, sfx)]
    } else {
        Seq::empty()
    }
}

/// The character after timers, jump start, boost and running, before the
/// animation rules act.
pub open spec fn steered(d: Dino, input: Input, dt: u32) -> Dino {
    ran(boosted(jump_started(timers_ticked(d, dt), input), input, dt), input, dt)
}

/// Whether the character, once steered, touches a platform or a tree.
pub open spec fn x_collision(d: Dino, platforms: Seq<Obstacle>, trees: Seq<Obstacle>) -> bool {
    any_overlap(platforms, d.aabb) || any_overlap(trees, d.aabb)
}

/// The character after one tick of control.
pub open spec fn controlled(
    d: Dino,
    input: Input,
    platforms: Seq<Obstacle>,
    trees: Seq<Obstacle>,
    dt: u32,
    draws: Draws,
) -> Dino {
    let s = steered(d, input, dt);
    animated(s, input, x_collision(s, platforms, trees), draws)
}

/// The sounds of one tick of control, in the order in which they are played.
pub open spec fn control_sounds(
    d: Dino,
    input: Input,
    platforms: Seq<Obstacle>,
    trees: Seq<Obstacle>,
    dt: u32,
    draws: Draws,
    sfx: bool,
) -> Seq<Sound> {
    let s = steered(d, input, dt);
    let jump = if jump_starts(timers_ticked(d, dt), input) {
        seq![cue(SoundEffect::Jump, draws.jump, sfx)]
    } else {
        Seq::empty()
    };
    jump + animation_sounds(s, input, x_collision(s, platforms, trees), draws, sfx)
}

/// While an attack is under way no further attack is registered, whatever
/// the input; none is registered in the tick in which a jump starts; and a
/// registered attack is under way once the tick is over.
pub proof fn attack_shuts_out_attacks(d: Dino, input: Input, dt: u32, hit: bool, draws: Draws)
    ensures
        d.attacking ==> !attack_starts(steered(d, input, dt), input),
        jump_starts(timers_ticked(d, dt), input) ==> !attack_starts(steered(d, input, dt), input),
        attack_starts(steered(d, input, dt), input) ==> animated(
            steered(d, input, dt),
            input,
            hit,
            draws,
        ).attacking,
{
}

/// Control leaves height, vertical extent and health alone; only the boost
/// phase touches the vertical velocity.
pub proof fn control_is_horizontal(
    d: Dino,
    input: Input,
    platforms: Seq<Obstacle>,
    trees: Seq<Obstacle>,
    dt: u32,
    draws: Draws,
)
    ensures
        ({
            let c = controlled(d, input, platforms, trees, dt, draws);
            &&& c.position.y == d.position.y
            &&& c.aabb.min.y == d.aabb.min.y
            &&& c.aabb.max.y == d.aabb.max.y
            &&& c.health == d.health
            &&& c.velocity.y == d.velocity.y || c.velocity.y == thrust(JUMP_HEIGHT as int) as i64
                || c.velocity.y == thrust(d.jump_height as int) as i64
        }),
{
}

/// Control keeps a well-formed character well formed: its box stays
/// centered on its position, and the frame shown stays within the animation.
pub proof fn controlled_is_wf(
    d: Dino,
    input: Input,
    platforms: Seq<Obstacle>,
    trees: Seq<Obstacle>,
    dt: u32,
    draws: Draws,
)
    requires
        d.wf(),
        d.bounded(),
    ensures
        controlled(d, input, platforms, trees, dt, draws).wf(),
{
    let lifted = boosted(jump_started(timers_ticked(d, dt), input), input, dt);
    let vx = damped(d.velocity.x as int, target_velocity(input));
    damped_is_bounded(d.velocity.x as int, target_velocity(input));
    gain_is_bounded(vx, dt as int);
    let s = steered(d, input, dt);
    assert(s.wf());
    animated_is_wf(s, input, x_collision(s, platforms, trees), draws);
}

/// From a character within the accepted magnitude whose horizontal state
/// and jump state are calm, a tick of control leaves the character within
/// the accepted magnitude, however long the tick.
pub proof fn control_stays_bounded(
    d: Dino,
    input: Input,
    platforms: Seq<Obstacle>,
    trees: Seq<Obstacle>,
    dt: u32,
    draws: Draws,
)
    requires
        d.bounded(),
        -CALM <= d.position.x <= CALM,
        -CALM_SPEED <= d.velocity.x <= CALM_SPEED,
        -2 * CALM <= d.aabb.min.x <= 2 * CALM,
        -2 * CALM <= d.aabb.max.x <= 2 * CALM,
        d.jump_time <= LIMIT / 4,
    ensures
        controlled(d, input, platforms, trees, dt, draws).bounded(),
{
    let vx = damped(d.velocity.x as int, target_velocity(input));
    damped_is_bounded(d.velocity.x as int, target_velocity(input));
    calm_stays_calm(d.velocity.x as int, target_velocity(input));
    gain_within_a_tick(vx, dt as int);
    assert(-0x4000_0000 * 4_295 <= vx * LONGEST_TICK <= 0x4000_0000 * 4_295) by (nonlinear_arith)
        requires
            -0x4000_0000 <= vx <= 0x4000_0000,
            LONGEST_TICK == 4_295,
    ;
    thrust_is_bounded(d.jump_height as int);
    thrust_is_bounded(JUMP_HEIGHT as int);
    control_is_horizontal(d, input, platforms, trees, dt, draws);
}

/// The thrust of a jump of accepted height is at most a million units a second.
pub proof fn thrust_is_bounded(jump_height: int)
    requires
        0 <= jump_height <= LIMIT,
    ensures
        0 <= thrust(jump_height) <= 1_000_000_000,
{
    let n = 2 * jump_height * (-GRAVITY);
    assert(n == 2_400_000 * jump_height) by (nonlinear_arith)
        requires
            n == 2 * jump_height * (-GRAVITY),
            GRAVITY == -1_200_000,
    ;
    let r = sqrt_floor(n);
    assert(is_sqrt_floor(n, r)) by {
        root_exists(n);
    }
    assert(r <= 0xffff_ffff) by {
        if r > 0xffff_ffff {
            assert(r * r >= 0x1_0000_0000 * 0x1_0000_0000) by (nonlinear_arith)
                requires
                    r >= 0x1_0000_0000,
            ;
        }
    }
}

/// Every natural number that fits 64 bits has an integer square root.
pub proof fn root_exists(n: int)
    requires
        0 <= n <= u64::MAX,
    ensures
        is_sqrt_floor(n, sqrt_floor(n)),
    decreases n,
{
    if n == 0 {
        assert(is_sqrt_floor(0, 0));
    } else {
        root_exists(n - 1);
        let r = sqrt_floor(n - 1);
        if (r + 1) * (r + 1) <= n {
            assert((r + 2) * (r + 2) > n) by (nonlinear_arith)
                requires
                    n - 1 < (r + 1) * (r + 1),
                    r >= 0,
            ;
            assert(is_sqrt_floor(n, r + 1));
        } else {
            assert(is_sqrt_floor(n, r));
        }
    }
}

/// Starts a jump if the input asks for one and the character stands.
pub fn start_jump(d: Dino, input: &Input) -> (r: Dino)
    ensures
        r == jump_started(d, *input),
{
    if input.jump_pressed && d.grounded {
        Dino {
            jumping: true,
            jump_time: 0,
            grounded: false,
            attacking: false,
            can_attack: false,
            jump_height: JUMP_HEIGHT,
            ..d
        }
    } else {
        d
    }
}

/// Applies the boost phase of a jump for one tick.
pub fn boost(d: Dino, input: &Input, dt: u32) -> (r: Dino)
    requires
        0 <= d.jump_height <= LIMIT,
        d.jump_time <= LIMIT,
    ensures
        r == boosted(d, *input, dt),
{
    if d.jumping && input.jump_held && d.jump_time < MAX_JUMP_TIME {
        let v = compute_thrust(d.jump_height);
        Dino {
            velocity: Point { y: v, ..d.velocity },
            jump_time: d.jump_time + dt as u64,
            ..d
        }
    } else {
        Dino { jumping: false, ..d }
    }
}

/// Smoothing keeps a calm velocity calm.
pub proof fn calm_stays_calm(vx: int, target: int)
    requires
        -CALM_SPEED <= vx <= CALM_SPEED,
        -RUNNING_SPEED <= target <= RUNNING_SPEED,
    ensures
        -CALM_SPEED <= damped(vx, target) <= CALM_SPEED,
{
    let n = vx * DAMPENING + target * (100 - DAMPENING);
    assert(n == 95 * vx + 5 * target) by (nonlinear_arith)
        requires
            n == vx * DAMPENING + target * (100 - DAMPENING),
            DAMPENING == 95,
    ;
    toward_zero_falls_short(n, 100);
}

/// Smoothing keeps a velocity within the accepted magnitude.
pub proof fn damped_is_bounded(vx: int, target: int)
    requires
        -LIMIT <= vx <= LIMIT,
        -RUNNING_SPEED <= target <= RUNNING_SPEED,
    ensures
        -LIMIT <= damped(vx, target) <= LIMIT,
{
    let n = vx * DAMPENING + target * (100 - DAMPENING);
    assert(n == 95 * vx + 5 * target) by (nonlinear_arith)
        requires
            n == vx * DAMPENING + target * (100 - DAMPENING),
            DAMPENING == 95,
    ;
    toward_zero_falls_short(n, 100);
}

/// Runs for one tick.
pub fn run(d: Dino, input: &Input, dt: u32) -> (r: Dino)
    requires
        -SPAN <= d.position.x <= SPAN,
        -LIMIT <= d.velocity.x <= LIMIT,
        -2 * SPAN <= d.aabb.min.x <= 2 * SPAN,
        -2 * SPAN <= d.aabb.max.x <= 2 * SPAN,
    ensures
        r == ran(d, *input, dt),
{
    let target: i64 = if input.right {
        RUNNING_SPEED
    } else if input.left {
        -RUNNING_SPEED
    } else {
        0
    };
    let flip_x = if input.right {
        false
    } else if input.left {
        true
    } else {
        d.flip_x
    };
    proof {
        damped_is_bounded(d.velocity.x as int, target as int);
    }
    let vx = div_toward_zero(
        (d.velocity.x as i128) * (DAMPENING as i128) + (target as i128) * ((100 - DAMPENING)
            as i128),
        100,
    ) as i64;
    proof {
        gain_is_bounded(vx as int, dt as int);
    }
    let dx = gain_over(vx, dt);
    Dino {
        position: Point { x: d.position.x + dx, ..d.position },
        aabb: crate::geometry::Aabb {
            min: Point { x: d.aabb.min.x + dx, ..d.aabb.min },
            max: Point { x: d.aabb.max.x + dx, ..d.aabb.max },
        },
        velocity: Point { x: vx, ..d.velocity },
        flip_x,
        ..d
    }
}

/// Advances the attack animation by one step.
pub fn advance_attack(d: Dino) -> (r: Dino)
    requires
        d.frame <= ATTACK_LAST,
    ensures
        r == attack_advanced(d),
{
    let hold: u8 = if d.frame == HELD_FRAME {
        1
    } else {
        0
    };
    if d.frame == ATTACK_LAST {
        Dino { frame: FALLING_FRAME, attacking: false, ..d }
    } else if d.frame_hold < hold {
        Dino { frame_hold: d.frame_hold + 1, ..d }
    } else {
        Dino { frame_hold: 0, frame: d.frame + 1, ..d }
    }
}

/// Advances the walk cycle by one step.
pub fn advance_walk(d: Dino) -> (r: Dino)
    ensures
        r == walk_advanced(d),
{
    if d.frame >= WALK_LAST {
        Dino { frame: WALK_FIRST, ..d }
    } else {
        Dino { frame: d.frame + 1, ..d }
    }
}

/// Advances the idle animation by one step.
pub fn advance_idle(d: Dino, draws: &Draws) -> (r: Dino)
    ensures
        r == idle_advanced(d, *draws),
{
    let frame = if d.frame < IDLE_FIRST || d.frame > IDLE_LAST {
        IDLE_FIRST
    } else {
        d.frame
    };
    if frame == IDLE_LAST {
        Dino {
            idle_frame_forward: false,
            frame: if draws.idle_twitch == 0 {
                IDLE_LAST - 1
            } else {
                frame
            },
            ..d
        }
    } else if frame == IDLE_LAST - 1 {
        if d.idle_frame_forward {
            Dino { frame: IDLE_LAST, ..d }
        } else {
            Dino { idle_frame_forward: true, frame: IDLE_FIRST, ..d }
        }
    } else {
        Dino {
            frame: if draws.idle_advance == 0 {
                frame + 1
            } else {
                frame
            },
            ..d
        }
    }
}

/// Tells what the character is doing during a tick, once it has been steered.
pub fn classify(d: &Dino, input: &Input) -> (state: ActionState)
    ensures
        state == action_state(*d, *input),
{
    if d.jumping || !d.grounded {
        if (input.jump_pressed && !d.attacking && d.can_attack) || d.attacking {
            ActionState::Attacking
        } else if d.velocity.y > RISING_ABOVE {
            ActionState::Rising
        } else {
            ActionState::Falling
        }
    } else if input.left || input.right {
        ActionState::Walking
    } else {
        ActionState::Idle
    }
}

/// Applies the animation and attack rules for one tick.
pub fn animate(d: Dino, input: &Input, hit: bool, draws: &Draws) -> (r: Dino)
    requires
        d.attacking ==> d.frame <= ATTACK_LAST,
    ensures
        r == animated(d, *input, hit, *draws),
{
    match classify(&d, input) {
        ActionState::Attacking => {
            let shown = if input.jump_pressed && !d.attacking && d.can_attack {
                Dino {
                    attacking: true,
                    frame: ATTACK_FIRST,
                    jump_time: if hit {
                        0
                    } else {
                        d.jump_time
                    },
                    jumping: hit || d.jumping,
                    ..d
                }
            } else if d.timer.just_finished() {
                advance_attack(d)
            } else {
                d
            };
            Dino { can_attack: true, ..shown }
        },
        ActionState::Rising => Dino { frame: RISING_FRAME, can_attack: true, ..d },
        ActionState::Falling => Dino { frame: FALLING_FRAME, can_attack: true, ..d },
        ActionState::Walking => if d.timer.just_finished() {
            advance_walk(d)
        } else {
            d
        },
        ActionState::Idle => if d.timer.just_finished() {
            advance_idle(d, draws)
        } else {
            d
        },
    }
}

/// Appends the sounds of the animation rules to `sounds`.
pub fn push_animation_sounds(
    sounds: &mut Vec<Sound>,
    d: &Dino,
    input: &Input,
    hit: bool,
    draws: &Draws,
    sfx: bool,
)
    ensures
        final(sounds)@ == old(sounds)@ + animation_sounds(*d, *input, hit, *draws, sfx),
{
    let airborne = d.jumping || !d.grounded;
    if airborne && input.jump_pressed && !d.attacking && d.can_attack {
        sounds.push(Sound::new(SoundEffect::Swoosh, draws.swoosh, sfx));
        if hit {
            sounds.push(Sound::new(SoundEffect::Impact, draws.impact, sfx));
        }
    } else if !airborne && (input.left || input.right)
        && d.walk_sound_effect_timer.just_finished() {
        sounds.push(Sound::new(SoundEffect::Step, draws.step, sfx));
    }
    assert(sounds@ =~= old(sounds)@ + animation_sounds(*d, *input, hit, *draws, sfx));
}

/// Steers the character for one tick: timers, jump start, boost and running.
pub fn steer(d: Dino, input: &Input, dt: u32) -> (r: Dino)
    requires
        d.wf(),
        d.bounded(),
    ensures
        r == steered(d, *input, dt),
        r.wf(),
{
    let mut t = d;
    t.timer.tick(dt);
    t.walk_sound_effect_timer.tick(dt);
    assert(t == timers_ticked(d, dt));
    let jumped = start_jump(t, input);
    let lifted = boost(jumped, input, dt);
    proof {
        damped_is_bounded(lifted.velocity.x as int, target_velocity(*input));
        gain_is_bounded(damped(lifted.velocity.x as int, target_velocity(*input)), dt as int);
    }
    run(lifted, input, dt)
}

/// The animation rules keep a well-formed character well formed.
pub proof fn animated_is_wf(d: Dino, input: Input, hit: bool, draws: Draws)
    requires
        d.wf(),
    ensures
        animated(d, input, hit, draws).wf(),
{
}

/// Lets the player control the character for one tick.
///
/// The timers advance, a jump may start and its boost phase acts, the
/// character runs, and the animation and attack rules follow; the obstacles
/// are consulted only to tell whether an attack connects and never block the
/// way. Returns the sounds to play, in order.
pub fn arrow_move(
    dino: &mut Dino,
    input: &Input,
    platforms: &Vec<Obstacle>,
    trees: &Vec<Obstacle>,
    dt: u32,
    sfx: bool,
    draws: &Draws,
) -> (sounds: Vec<Sound>)
    requires
        old(dino).wf(),
        old(dino).bounded(),
    ensures
        *final(dino) == controlled(*old(dino), *input, platforms@, trees@, dt, *draws),
        sounds@ == control_sounds(*old(dino), *input, platforms@, trees@, dt, *draws, sfx),
        final(dino).wf(),
        final(dino).position.y == old(dino).position.y,
        final(dino).health == old(dino).health,
{
    let mut sounds: Vec<Sound> = Vec::new();
    if input.jump_pressed && dino.grounded {
        sounds.push(Sound::new(SoundEffect::Jump, draws.jump, sfx));
    }
    let ghost jump_sounds = sounds@;
    assert(timers_ticked(*dino, dt).grounded == dino.grounded);
    let s = steer(*dino, input, dt);
    let hit = intersects_any(platforms, &s.aabb) || intersects_any(trees, &s.aabb);
    push_animation_sounds(&mut sounds, &s, input, hit, draws, sfx);
    proof {
        animated_is_wf(s, *input, hit, *draws);
        control_is_horizontal(*dino, *input, platforms@, trees@, dt, *draws);
    }
    *dino = animate(s, input, hit, draws);
    sounds
}

} // verus!
