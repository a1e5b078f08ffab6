//! The player character and its vertical motion: gravity, landing and fall damage.

use vstd::prelude::*;
use crate::geometry::{Aabb, Point};
use crate::obstacle::Obstacle;
use crate::sound::{cue, Sound, SoundEffect};
use crate::timer::{Timer, TimerMode};
use crate::units::{
    gain, gain_is_bounded, gain_over, gain_within_a_tick, within_limit, LIMIT, LONGEST_TICK,
};

verus! {

/// Downward acceleration while airborne.
pub const GRAVITY: i64 = -1_200_000;

/// How far above a platform's top the character's feet may be and still land on it.
pub const SNAP_WINDOW: i64 = 15_000;

/// Landings slower than this do no damage.
pub const SAFE_LANDING_SPEED: i64 = 1_500_000;

/// Width of one fall-damage bucket of landing speed.
pub const DAMAGE_BUCKET: i64 = 500_000;

/// Health lost for each bucket of landing speed beyond the second.
pub const DAMAGE_PER_BUCKET: i32 = 20;

/// Health at the start of a session.
pub const FULL_HEALTH: i32 = 100;

/// Lowest health from which a landing can still be resolved.
pub const HEALTH_FLOOR: i32 = -1_000_000_000;

/// Half the side of the character's bounding box.
pub const DINO_HALF_SIZE: i64 = 32_000;

/// Period of the animation frame timer, in microseconds.
pub const FRAME_PERIOD: u64 = 70_000;

/// Period of the footstep timer, in microseconds.
pub const STEP_PERIOD: u64 = 150_000;

/// Height that a full jump is tuned to reach.
pub const JUMP_HEIGHT: i64 = 1_500_000;

/// Last frame of the attack animation.
pub const ATTACK_LAST: usize = 24;

/// Pose while rising; the highest frame that the animation shows.
pub const RISING_FRAME: usize = 25;

/// Largest magnitude of a coordinate from which a whole tick can be stepped.
pub const CALM: i64 = 0x2000_0000_0000;

/// Largest magnitude of a velocity from which a whole tick can be stepped.
pub const CALM_SPEED: i64 = 0x4000_0000;

/// How far from the origin a platform may reach for a whole tick to be
/// stepped against it.
pub const NEAR: i64 = 0x4000_0000_0000;

/// The player character.
#[derive(Clone, Copy, Debug, PartialEq, Eq, Structural)]
pub struct Dino {
    /// Where the character is; always the center of `aabb`.
    pub position: Point,
    pub velocity: Point,
    pub aabb: Aabb,
    /// Decremented only by hard landings; the session is lost at zero or below.
    pub health: i32,
    /// Standing on a platform, as opposed to airborne.
    pub grounded: bool,
    /// In the boost phase of a jump.
    pub jumping: bool,
    /// Time spent in the boost phase of the current jump, in microseconds.
    pub jump_time: u64,
    pub jump_height: i64,
    pub attacking: bool,
    pub can_attack: bool,
    /// Frame of the sprite sheet that is shown.
    pub frame: usize,
    /// Whether the sprite faces left.
    pub flip_x: bool,
    /// Direction in which the idle animation is moving through its frames.
    pub idle_frame_forward: bool,
    /// Extra ticks already spent on a held attack frame.
    pub frame_hold: u8,
    /// Paces the animation.
    pub timer: Timer,
    /// Paces the footsteps.
    pub walk_sound_effect_timer: Timer,
}

/// Whether the character stands or is in the air, as landing resolved it.
#[derive(Clone, Copy, Debug, PartialEq, Eq, Structural)]
pub enum MotionState {
    Grounded,
    Airborne,
}

/// What one tick of vertical motion did to the character.
#[derive(Clone, Copy, Debug, PartialEq, Eq, Structural)]
pub struct Landing {
    /// Whether some platform caught the character.
    pub landed: bool,
    /// Health lost to the impact.
    pub damage: i32,
    /// The thud to play, if the landing was hard.
    pub sound: Option<Sound>,
}

/// The character while platforms are scanned, with what has happened so far.
pub struct Scan {
    pub dino: Dino,
    /// Whether some platform has caught the character.
    pub landed: bool,
    /// Health lost so far.
    pub damage: i32,
}

impl Dino {
    /// The bounding box is centered on the position, both timers are valid,
    /// health has not grown, and the frame shown belongs to the animation.
    pub open spec fn wf(self) -> bool {
        &&& self.aabb.centered_at(self.position)
        &&& self.aabb.wf()
        &&& self.timer.wf()
        &&& self.walk_sound_effect_timer.wf()
        &&& self.health <= FULL_HEALTH
        &&& self.frame <= RISING_FRAME
        &&& self.attacking ==> self.frame <= ATTACK_LAST
    }

    /// Position, velocity and box are within the magnitude that a step accepts.
    pub open spec fn bounded(self) -> bool {
        &&& self.position.bounded()
        &&& within_limit(self.velocity.x as int)
        &&& within_limit(self.velocity.y as int)
        &&& self.aabb.bounded()
        &&& self.health >= HEALTH_FLOOR
        &&& 0 <= self.jump_height <= LIMIT
        &&& self.jump_time <= LIMIT
    }

    /// Position, velocity, box and health are so far within the accepted
    /// magnitude that a tick, however long, keeps them within it.
    pub open spec fn calm(self) -> bool {
        &&& -CALM <= self.position.x <= CALM
        &&& -CALM <= self.position.y <= CALM
        &&& -CALM_SPEED <= self.velocity.x <= CALM_SPEED
        &&& -CALM_SPEED <= self.velocity.y <= CALM_SPEED
        &&& -2 * CALM <= self.aabb.min.x <= 2 * CALM
        &&& -2 * CALM <= self.aabb.min.y <= 2 * CALM
        &&& -2 * CALM <= self.aabb.max.x <= 2 * CALM
        &&& -2 * CALM <= self.aabb.max.y <= 2 * CALM
        &&& self.health >= HEALTH_FLOOR / 2
        &&& 0 <= self.jump_height <= LIMIT
        &&& self.jump_time <= LIMIT / 4
    }

    /// The character at the start of a session: at the origin, at rest, airborne, in full health.
    pub open spec fn initial() -> Dino {
        Dino {
            position: Point { x: 0, y: 0 },
            velocity: Point { x: 0, y: 0 },
            aabb: Aabb {
                min: Point { x: (-DINO_HALF_SIZE) as i64, y: (-DINO_HALF_SIZE) as i64 },
                max: Point { x: DINO_HALF_SIZE, y: DINO_HALF_SIZE },
            },
            health: FULL_HEALTH,
            grounded: false,
            jumping: false,
            jump_time: 0,
            jump_height: JUMP_HEIGHT,
            attacking: false,
            can_attack: false,
            frame: 0,
            flip_x: false,
            idle_frame_forward: true,
            frame_hold: 0,
            timer: Timer::fresh(FRAME_PERIOD, TimerMode::Repeating),
            walk_sound_effect_timer: Timer::fresh(STEP_PERIOD, TimerMode::Repeating),
        }
    }

    /// Whether the character stands or is in the air.
    pub fn motion_state(&self) -> (state: MotionState)
        ensures
            state == (if self.grounded {
                MotionState::Grounded
            } else {
                MotionState::Airborne
            }),
    {
        if self.grounded {
            MotionState::Grounded
        } else {
            MotionState::Airborne
        }
    }

    /// Tests at run time whether the character is within the magnitude that a step accepts.
    pub fn is_bounded(&self) -> (b: bool)
        ensures
            b == self.bounded(),
    {
        self.position.is_bounded() && -LIMIT <= self.velocity.x && self.velocity.x <= LIMIT
            && -LIMIT <= self.velocity.y && self.velocity.y <= LIMIT && self.aabb.is_bounded()
            && self.health >= HEALTH_FLOOR && 0 <= self.jump_height && self.jump_height <= LIMIT
            && self.jump_time <= LIMIT as u64
    }

    /// Tests at run time whether the character is calm.
    pub fn is_calm(&self) -> (b: bool)
        ensures
            b == self.calm(),
    {
        -CALM <= self.position.x && self.position.x <= CALM && -CALM <= self.position.y
            && self.position.y <= CALM && -CALM_SPEED <= self.velocity.x && self.velocity.x
            <= CALM_SPEED && -CALM_SPEED <= self.velocity.y && self.velocity.y <= CALM_SPEED && -2
            * CALM <= self.aabb.min.x && self.aabb.min.x <= 2 * CALM && -2 * CALM
            <= self.aabb.min.y && self.aabb.min.y <= 2 * CALM && -2 * CALM <= self.aabb.max.x
            && self.aabb.max.x <= 2 * CALM && -2 * CALM <= self.aabb.max.y && self.aabb.max.y <= 2
            * CALM && self.health >= HEALTH_FLOOR / 2 && 0 <= self.jump_height && self.jump_height
            <= LIMIT && self.jump_time <= (LIMIT / 4) as u64
    }

    /// Tests at run time whether the character is well formed.
    pub fn is_wf(&self) -> (b: bool)
        requires
            self.bounded(),
        ensures
            b == self.wf(),
    {
        self.aabb.min.x + self.aabb.max.x == 2 * self.position.x && self.aabb.min.y
            + self.aabb.max.y == 2 * self.position.y && self.aabb.min.x <= self.aabb.max.x
            && self.aabb.min.y <= self.aabb.max.y && self.timer.elapsed <= self.timer.duration
            && self.timer.duration <= crate::timer::MAX_DURATION
            && self.walk_sound_effect_timer.elapsed <= self.walk_sound_effect_timer.duration
            && self.walk_sound_effect_timer.duration <= crate::timer::MAX_DURATION && self.health
            <= FULL_HEALTH && self.frame <= RISING_FRAME && (!self.attacking || self.frame
            <= ATTACK_LAST)
    }

    /// The character moved to `y`, box and all.
    pub open spec fn at_height(self, y: int) -> Dino {
        let dy = y - self.position.y;
        Dino {
            position: Point { y: y as i64, ..self.position },
            aabb: Aabb {
                min: Point { y: (self.aabb.min.y + dy) as i64, ..self.aabb.min },
                max: Point { y: (self.aabb.max.y + dy) as i64, ..self.aabb.max },
            },
            ..self
        }
    }

    /// The character moved to `x`, box and all.
    pub open spec fn at_abscissa(self, x: int) -> Dino {
        let dx = x - self.position.x;
        Dino {
            position: Point { x: x as i64, ..self.position },
            aabb: Aabb {
                min: Point { x: (self.aabb.min.x + dx) as i64, ..self.aabb.min },
                max: Point { x: (self.aabb.max.x + dx) as i64, ..self.aabb.max },
            },
            ..self
        }
    }
}

impl Default for Dino {
    fn default() -> (d: Dino)
        ensures
            d == Dino::initial(),
            d.wf(),
            d.bounded(),
    {
        Dino {
            position: Point { x: 0, y: 0 },
            velocity: Point { x: 0, y: 0 },
            aabb: Aabb::new(Point { x: 0, y: 0 }, Point { x: DINO_HALF_SIZE, y: DINO_HALF_SIZE }),
            health: FULL_HEALTH,
            grounded: false,
            jumping: false,
            jump_time: 0,
            jump_height: JUMP_HEIGHT,
            attacking: false,
            can_attack: false,
            frame: 0,
            flip_x: false,
            idle_frame_forward: true,
            frame_hold: 0,
            timer: Timer::new(FRAME_PERIOD, TimerMode::Repeating),
            walk_sound_effect_timer: Timer::new(STEP_PERIOD, TimerMode::Repeating),
        }
    }
}

/// Health lost on landing with vertical velocity `vy`: nothing down to the
/// safe landing speed, then twenty for each whole bucket of speed beyond the second.
pub open spec fn fall_damage(vy: int) -> int {
    if vy < -SAFE_LANDING_SPEED {
        DAMAGE_PER_BUCKET * ((-vy) / (DAMAGE_BUCKET as int) - 2)
    } else {
        0
    }
}

/// Fall damage is never negative, is positive beyond the safe landing speed,
/// and does not shrink as the landing gets faster.
pub proof fn fall_damage_is_a_ramp(vy: int, faster: int)
    requires
        faster <= vy,
    ensures
        fall_damage(vy) >= 0,
        vy < -SAFE_LANDING_SPEED ==> fall_damage(vy) >= DAMAGE_PER_BUCKET,
        fall_damage(faster) >= fall_damage(vy),
{
    if vy < -SAFE_LANDING_SPEED {
        vstd::arithmetic::div_mod::lemma_div_is_ordered(1_500_000, -vy, DAMAGE_BUCKET as int);
        vstd::arithmetic::div_mod::lemma_div_is_ordered(-vy, -faster, DAMAGE_BUCKET as int);
    } else if faster < -SAFE_LANDING_SPEED {
        vstd::arithmetic::div_mod::lemma_div_is_ordered(1_500_000, -faster, DAMAGE_BUCKET as int);
    }
}

/// Within the accepted range of velocities fall damage stays below a hundred million.
pub proof fn fall_damage_is_bounded(vy: int)
    requires
        -2 * LIMIT <= vy <= 2 * LIMIT,
    ensures
        0 <= fall_damage(vy) <= 100_000_000,
{
    fall_damage_is_a_ramp(vy, vy);
    if vy < -SAFE_LANDING_SPEED {
        vstd::arithmetic::div_mod::lemma_div_is_ordered(-vy, 2 * LIMIT, DAMAGE_BUCKET as int);
    }
}

/// Computes [`fall_damage`].
pub fn compute_fall_damage(vy: i64) -> (damage: i32)
    requires
        -2 * LIMIT <= vy <= 2 * LIMIT,
    ensures
        damage == fall_damage(vy as int),
        0 <= damage <= 100_000_000,
{
    if vy < -SAFE_LANDING_SPEED {
        let bucket: i64 = (-vy) / DAMAGE_BUCKET;
        proof {
            fall_damage_is_bounded(vy as int);
        }
        (DAMAGE_PER_BUCKET as i64 * (bucket - 2)) as i32
    } else {
        0
    }
}

/// The character after gravity has acted for `dt` microseconds: while
/// airborne the vertical velocity gains what gravity gives it, then the
/// position and the box move by what that velocity covers.
pub open spec fn fallen(d: Dino, dt: u32) -> Dino {
    let vy = if d.grounded {
        d.velocity.y as int
    } else {
        d.velocity.y + gain(GRAVITY as int, dt as int)
    };
    let moved = d.at_height(d.position.y + gain(vy, dt as int));
    Dino { velocity: Point { y: vy as i64, ..d.velocity }, ..moved }
}

/// Whether the character comes to rest on `p`: their horizontal spans
/// overlap, the character is not moving upward, and its feet are not below
/// the platform's top and not more than the snap window above it.
pub open spec fn lands_on(d: Dino, p: Obstacle) -> bool {
    &&& d.aabb.max.x >= p.aabb.min.x
    &&& d.aabb.min.x <= p.aabb.max.x
    &&& d.velocity.y <= 0
    &&& p.aabb.max.y <= d.aabb.min.y <= p.aabb.max.y + SNAP_WINDOW
}

/// The character set down on `p`: feet on the platform's top, the box as
/// high as before, at rest vertically, grounded, and hurt by the speed it
/// arrived with.
pub open spec fn snapped(d: Dino, p: Obstacle) -> Dino {
    let top = p.aabb.max.y as int;
    let height = d.aabb.height();
    Dino {
        position: Point { y: (top + height / 2) as i64, ..d.position },
        aabb: Aabb {
            min: Point { y: top as i64, ..d.aabb.min },
            max: Point { y: (top + height) as i64, ..d.aabb.max },
        },
        velocity: Point { y: 0, ..d.velocity },
        health: (d.health - fall_damage(d.velocity.y as int)) as i32,
        grounded: true,
        ..d
    }
}

/// The character and the landing record after the platforms of `platforms`
/// have been tried one after the other, each against what the ones before
/// it left.
pub open spec fn scanned(d: Dino, platforms: Seq<Obstacle>) -> Scan
    decreases platforms.len(),
{
    if platforms.len() == 0 {
        Scan { dino: d, landed: false, damage: 0 }
    } else {
        let before = scanned(d, platforms.drop_last());
        let p = platforms.last();
        if lands_on(before.dino, p) {
            Scan {
                dino: snapped(before.dino, p),
                landed: true,
                damage: (before.damage + fall_damage(before.dino.velocity.y as int)) as i32,
            }
        } else {
            before
        }
    }
}

/// The character after landing has been resolved against `platforms`:
/// airborne unless some platform caught it.
pub open spec fn settled(d: Dino, platforms: Seq<Obstacle>) -> Dino {
    let scan = scanned(d, platforms);
    if scan.landed {
        scan.dino
    } else {
        Dino { grounded: false, ..scan.dino }
    }
}

/// The thud that a landing with `damage` makes: none without damage, else
/// one whose variant is the damage in steps of twenty.
pub open spec fn thud(damage: i32, sfx: bool) -> Option<Sound> {
    if damage > 0 {
        Some(cue(SoundEffect::Thud, (damage / DAMAGE_PER_BUCKET) as u32, sfx))
    } else {
        None
    }
}

/// Whether `after` differs from `before` in nothing but height, vertical
/// velocity, health and standing.
pub open spec fn same_but_vertical(before: Dino, after: Dino) -> bool {
    after == (Dino {
        position: Point { y: after.position.y, ..before.position },
        velocity: Point { y: after.velocity.y, ..before.velocity },
        aabb: Aabb {
            min: Point { y: after.aabb.min.y, ..before.aabb.min },
            max: Point { y: after.aabb.max.y, ..before.aabb.max },
        },
        health: after.health,
        grounded: after.grounded,
        ..before
    })
}

/// What holds of a scan whatever the platforms are: the horizontal state and
/// the size of the box are untouched, the box stays centered on the position,
/// the feet only sink, by no more than the snap window per platform, and a
/// landing leaves the character at rest on top of one of the platforms.
pub proof fn scan_facts(d: Dino, platforms: Seq<Obstacle>)
    requires
        d.wf(),
        -2 * LIMIT <= d.velocity.y <= 2 * LIMIT,
        d.health >= HEALTH_FLOOR,
    ensures
        ({
            let s = scanned(d, platforms);
            &&& s.dino.wf()
            &&& same_but_vertical(d, s.dino)
            &&& s.dino.aabb.height() == d.aabb.height()
            &&& d.aabb.min.y - platforms.len() * SNAP_WINDOW <= s.dino.aabb.min.y <= d.aabb.min.y
            &&& s.damage == fall_damage(d.velocity.y as int) || s.damage == 0
            &&& s.dino.health == d.health - s.damage
            &&& !s.landed ==> s.dino == d && s.damage == 0
            &&& s.landed ==> {
                &&& s.dino.grounded
                &&& s.dino.velocity.y == 0
                &&& d.velocity.y <= 0
                &&& s.damage == fall_damage(d.velocity.y as int)
                &&& exists|i: int|
                    0 <= i < platforms.len() && s.dino.aabb.min.y == (
                    #[trigger] platforms[i]).aabb.max.y
            }
        }),
    decreases platforms.len(),
{
    fall_damage_is_bounded(d.velocity.y as int);
    if platforms.len() > 0 {
        let rest = platforms.drop_last();
        scan_facts(d, rest);
        let before = scanned(d, rest);
        let p = platforms.last();
        if lands_on(before.dino, p) {
            let after = snapped(before.dino, p);
            assert(after.aabb.min.y == platforms[platforms.len() - 1].aabb.max.y);
            assert(fall_damage(0) == 0);
            assert(d.health <= FULL_HEALTH);
        } else if before.landed {
            let i = choose|i: int|
                0 <= i < rest.len() && before.dino.aabb.min.y == (#[trigger] rest[i]).aabb.max.y;
            assert(platforms[i] == rest[i]);
        }
    }
}

/// From a calm character, a tick of vertical motion over platforms that
/// are near leaves the character within the accepted magnitude, however
/// long the tick and however many the platforms, and its horizontal state
/// and jump state as they were.
pub proof fn fall_stays_bounded(d: Dino, dt: u32, platforms: Seq<Obstacle>)
    requires
        d.wf(),
        d.calm(),
        forall|i: int| 0 <= i < platforms.len() ==> (#[trigger] platforms[i]).aabb.max.y >= -NEAR,
    ensures
        ({
            let r = settled(fallen(d, dt), platforms);
            let damage = scanned(fallen(d, dt), platforms).damage;
            &&& r.wf()
            &&& r.bounded()
            &&& same_but_vertical(d, r)
            &&& damage >= 0
            &&& r.health == d.health - damage
        }),
{
    gain_within_a_tick(GRAVITY as int, dt as int);
    let start = fallen(d, dt);
    gain_within_a_tick(start.velocity.y as int, dt as int);
    assert(GRAVITY * LONGEST_TICK == -5_154_000_000) by (nonlinear_arith)
        requires
            GRAVITY == -1_200_000,
            LONGEST_TICK == 4_295,
    ;
    let v = start.velocity.y as int;
    assert(-0x2_0000_0000 * 4_295 <= v * LONGEST_TICK <= 0x2_0000_0000 * 4_295)
        by (nonlinear_arith)
        requires
            -0x2_0000_0000 <= v <= 0x2_0000_0000,
            LONGEST_TICK == 4_295,
    ;
    fall_damage_is_bounded(start.velocity.y as int);
    scan_facts(start, platforms);
}

/// Moves the character vertically for one tick and resolves landing.
///
/// Gravity acts while the character is airborne, the position and the box
/// move with the velocity, and then every platform is tried in turn: the
/// first that catches the character sets it down, hurts it by the speed it
/// arrived with and grounds it. Without a landing the character is airborne.
pub fn dino_gravity(dino: &mut Dino, platforms: &Vec<Obstacle>, dt: u32, sfx: bool) -> (landing:
    Landing)
    requires
        old(dino).wf(),
        old(dino).bounded(),
    ensures
        *final(dino) == settled(fallen(*old(dino), dt), platforms@),
        landing.landed == scanned(fallen(*old(dino), dt), platforms@).landed,
        landing.damage == scanned(fallen(*old(dino), dt), platforms@).damage,
        landing.sound == thud(landing.damage, sfx),
        final(dino).wf(),
        same_but_vertical(*old(dino), *final(dino)),
        final(dino).grounded == landing.landed,
        final(dino).health == old(dino).health - landing.damage,
        landing.damage == (if landing.landed {
            fall_damage(fallen(*old(dino), dt).velocity.y as int)
        } else {
            0
        }),
        landing.damage >= 0,
        landing.landed ==> final(dino).velocity.y == 0 && exists|i: int|
            0 <= i < platforms.len() && final(dino).aabb.min.y == (
            #[trigger] platforms[i]).aabb.max.y,
{
    let ghost start = fallen(*dino, dt);
    proof {
        gain_is_bounded(GRAVITY as int, dt as int);
    }
    if !dino.grounded {
        dino.velocity.y = dino.velocity.y + gain_over(GRAVITY, dt);
    }
    proof {
        gain_is_bounded(dino.velocity.y as int, dt as int);
    }
    let dy = gain_over(dino.velocity.y, dt);
    dino.position.y = dino.position.y + dy;
    dino.aabb.min.y = dino.aabb.min.y + dy;
    dino.aabb.max.y = dino.aabb.max.y + dy;
    assert(*dino == start);

    let mut landed = false;
    let mut damage: i32 = 0;
    let mut i: usize = 0;
    proof {
        fall_damage_is_bounded(start.velocity.y as int);
        assert(platforms@.take(0) =~= Seq::<Obstacle>::empty());
        scan_facts(start, platforms@.take(0));
    }
    while i < platforms.len()
        invariant
            i <= platforms.len(),
            start.wf(),
            -2 * LIMIT <= start.velocity.y <= 2 * LIMIT,
            start.health >= HEALTH_FLOOR,
            -0x80_0000_0000_0000 <= start.aabb.min.y <= 0x80_0000_0000_0000,
            -0x80_0000_0000_0000 <= start.aabb.max.y <= 0x80_0000_0000_0000,
            *dino == scanned(start, platforms@.take(i as int)).dino,
            landed == scanned(start, platforms@.take(i as int)).landed,
            damage == scanned(start, platforms@.take(i as int)).damage,
        decreases platforms.len() - i,
    {
        proof {
            scan_facts(start, platforms@.take(i as int));
            scan_facts(start, platforms@.take(i + 1));
            assert(platforms@.take(i + 1).drop_last() =~= platforms@.take(i as int));
            assert(platforms@.take(i + 1).last() == platforms@[i as int]);
            fall_damage_is_bounded(dino.velocity.y as int);
        }
        let p = &platforms[i];
        let spans_overlap = dino.aabb.max.x >= p.aabb.min.x && dino.aabb.min.x <= p.aabb.max.x;
        if spans_overlap && dino.velocity.y <= 0 && p.aabb.max.y <= dino.aabb.min.y
            && dino.aabb.min.y as i128 - SNAP_WINDOW as i128 <= p.aabb.max.y as i128 {
            let height = dino.aabb.max.y - dino.aabb.min.y;
            let hurt = compute_fall_damage(dino.velocity.y);
            dino.position.y = p.aabb.max.y + height / 2;
            dino.aabb.min.y = p.aabb.max.y;
            dino.aabb.max.y = p.aabb.max.y + height;
            dino.health = dino.health - hurt;
            dino.velocity.y = 0;
            dino.grounded = true;
            damage = damage + hurt;
            landed = true;
        }
        i += 1;
    }
    proof {
        assert(platforms@.take(platforms.len() as int) =~= platforms@);
        scan_facts(start, platforms@);
        assert(same_but_vertical(*old(dino), start));
    }
    if !landed {
        dino.grounded = false;
    }
    let sound = if damage > 0 {
        Some(Sound::new(SoundEffect::Thud, (damage / DAMAGE_PER_BUCKET) as u32, sfx))
    } else {
        None
    };
    Landing { landed, damage, sound }
}

} // verus!
