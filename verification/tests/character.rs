use dino_game::control::{
    advance_attack, advance_idle, advance_walk, animate, arrow_move, boost, classify,
    compute_thrust, run, start_jump, ActionState, Draws, Input,
};
use dino_game::dino::{compute_fall_damage, dino_gravity, Dino, Landing, MotionState};
use dino_game::geometry::{Aabb, Point};
use dino_game::obstacle::{intersects_any, Obstacle, ObstacleKind};
use dino_game::sound::{Sound, SoundEffect};

const TICK: u32 = 16_667;

fn platform(x: i64, y: i64) -> Obstacle {
    Obstacle {
        aabb: Aabb::new(Point::new(x, y), Point::new(50_000, 10_000)),
        kind: ObstacleKind::Platform,
    }
}

fn tree(x: i64, y: i64) -> Obstacle {
    Obstacle {
        aabb: Aabb::new(Point::new(x, y), Point::new(25_000, 190_000)),
        kind: ObstacleKind::Tree,
    }
}

fn dino_at(x: i64, y: i64) -> Dino {
    let mut d = Dino::default();
    d.position = Point::new(x, y);
    d.aabb = Aabb::new(d.position, Point::new(32_000, 32_000));
    d
}

fn no_input() -> Input {
    Input { left: false, right: false, jump_held: false, jump_pressed: false }
}

fn draws() -> Draws {
    Draws { jump: 1, swoosh: 2, impact: 1, step: 7, idle_twitch: 5, idle_advance: 5 }
}

fn centered(d: &Dino) -> bool {
    d.aabb.min.x + d.aabb.max.x == 2 * d.position.x
        && d.aabb.min.y + d.aabb.max.y == 2 * d.position.y
}

#[test]
fn the_character_starts_airborne_in_full_health() {
    let d = Dino::default();
    assert_eq!(d.position, Point::new(0, 0));
    assert_eq!(d.velocity, Point::new(0, 0));
    assert_eq!(d.aabb.min, Point::new(-32_000, -32_000));
    assert_eq!(d.aabb.max, Point::new(32_000, 32_000));
    assert_eq!(d.health, 100);
    assert!(!d.grounded);
    assert!(!d.jumping);
    assert!(!d.attacking);
    assert!(!d.can_attack);
    assert!(d.idle_frame_forward);
    assert_eq!(d.jump_height, 1_500_000);
    assert_eq!(d.timer.duration, 70_000);
    assert_eq!(d.walk_sound_effect_timer.duration, 150_000);
    assert!(d.is_bounded());
    assert!(d.is_wf());
}

#[test]
fn fall_damage_threshold() {
    assert_eq!(compute_fall_damage(-1_500_000), 0);
    assert_eq!(compute_fall_damage(-2_000_000), 40);
    assert_eq!(compute_fall_damage(-1_600_000), 20);
}

#[test]
fn fall_damage_buckets() {
    assert_eq!(compute_fall_damage(0), 0);
    assert_eq!(compute_fall_damage(3_000_000), 0);
    assert_eq!(compute_fall_damage(-1_499_999), 0);
    assert_eq!(compute_fall_damage(-1_500_001), 20);
    assert_eq!(compute_fall_damage(-1_999_999), 20);
    assert_eq!(compute_fall_damage(-2_499_999), 40);
    assert_eq!(compute_fall_damage(-2_500_000), 60);
    assert_eq!(compute_fall_damage(-2_999_999), 60);
    assert_eq!(compute_fall_damage(-3_000_000), 80);
}

#[test]
fn gravity_accelerates_an_airborne_character() {
    let mut d = Dino::default();
    let landing = dino_gravity(&mut d, &Vec::new(), TICK, true);
    assert_eq!(landing, Landing { landed: false, damage: 0, sound: None });
    assert_eq!(d.velocity.y, -20_000);
    assert_eq!(d.position.y, -333);
    assert_eq!(d.aabb.min.y, -32_333);
    assert_eq!(d.aabb.max.y, 31_667);
    assert_eq!(d.position.x, 0);
    assert!(!d.grounded);
    assert!(centered(&d));
    dino_gravity(&mut d, &Vec::new(), TICK, true);
    assert_eq!(d.velocity.y, -40_000);
    assert_eq!(d.position.y, -333 - 666);
    assert!(centered(&d));
}

#[test]
fn gravity_spares_a_grounded_character() {
    let mut d = dino_at(0, 42_000);
    d.grounded = true;
    let floor = vec![platform(0, 0)];
    let landing = dino_gravity(&mut d, &floor, TICK, true);
    assert!(landing.landed);
    assert_eq!(landing.damage, 0);
    assert_eq!(d.velocity.y, 0);
    assert_eq!(d.position.y, 42_000);
    assert!(d.grounded);
}

#[test]
fn a_grounded_character_without_a_platform_becomes_airborne() {
    let mut d = dino_at(0, 42_000);
    d.grounded = true;
    let landing = dino_gravity(&mut d, &Vec::new(), TICK, true);
    assert!(!landing.landed);
    assert!(!d.grounded);
    assert_eq!(d.velocity.y, 0);
    assert_eq!(d.position.y, 42_000);
}

#[test]
fn landing_snaps_the_feet_onto_the_platform() {
    // Feet 5 units above the platform's top before the tick.
    let mut d = dino_at(10_000, 10_000 + 5_000 + 32_000);
    d.velocity.y = -100_000;
    let floor = vec![platform(0, 0)];
    let landing = dino_gravity(&mut d, &floor, TICK, true);
    assert!(landing.landed);
    assert_eq!(landing.damage, 0);
    assert_eq!(landing.sound, None);
    assert_eq!(d.aabb.min.y, 10_000);
    assert_eq!(d.aabb.max.y, 74_000);
    assert_eq!(d.position.y, 42_000);
    assert_eq!(d.velocity.y, 0);
    assert!(d.grounded);
    assert_eq!(d.health, 100);
    assert_eq!(d.position.x, 10_000);
    assert!(centered(&d));
}

#[test]
fn a_hard_landing_hurts() {
    let mut d = dino_at(0, 10_000 + 45_000 + 32_000);
    d.velocity.y = -2_500_000;
    let floor = vec![platform(0, 0)];
    // Gravity adds -20_000; the character then drops by 42_000 and ends within the window.
    let landing = dino_gravity(&mut d, &floor, TICK, true);
    assert!(landing.landed);
    assert_eq!(landing.damage, 60);
    assert_eq!(
        landing.sound,
        Some(Sound { effect: SoundEffect::Thud, variant: 3, volume: 200 })
    );
    assert_eq!(d.health, 40);
    assert_eq!(d.velocity.y, 0);
    assert_eq!(d.aabb.min.y, 10_000);
    assert!(centered(&d));
}

#[test]
fn a_muted_thud_is_silent() {
    let mut d = dino_at(0, 10_000 + 45_000 + 32_000);
    d.velocity.y = -2_500_000;
    let landing = dino_gravity(&mut d, &vec![platform(0, 0)], TICK, false);
    assert_eq!(
        landing.sound,
        Some(Sound { effect: SoundEffect::Thud, variant: 3, volume: 0 })
    );
}

#[test]
fn no_landing_while_rising() {
    let mut d = dino_at(0, 10_000 + 32_000);
    d.velocity.y = 100_000;
    let before = d.position.y;
    let landing = dino_gravity(&mut d, &vec![platform(0, 0)], TICK, true);
    assert!(!landing.landed);
    assert!(!d.grounded);
    assert_eq!(d.velocity.y, 100_000 - 20_000);
    assert_eq!(d.position.y, before + 1_333);
}

#[test]
fn no_landing_from_above_the_window_or_below_the_top() {
    // Feet one step more than 15 units above the top: not yet reached.
    let mut high = dino_at(0, 10_000 + 15_001 + 32_000);
    high.grounded = true;
    assert!(!dino_gravity(&mut high, &vec![platform(0, 0)], TICK, true).landed);
    // Feet exactly 15 units above the top.
    let mut inside = dino_at(0, 10_000 + 15_000 + 32_000);
    inside.grounded = true;
    assert!(dino_gravity(&mut inside, &vec![platform(0, 0)], TICK, true).landed);
    assert_eq!(inside.aabb.min.y, 10_000);
    // Feet exactly on the top.
    let mut on = dino_at(0, 10_000 + 32_000);
    on.grounded = true;
    assert!(dino_gravity(&mut on, &vec![platform(0, 0)], TICK, true).landed);
    // Feet one step below the top: already passed.
    let mut low = dino_at(0, 10_000 - 1 + 32_000);
    low.grounded = true;
    assert!(!dino_gravity(&mut low, &vec![platform(0, 0)], TICK, true).landed);
}

#[test]
fn no_landing_beside_the_platform() {
    // The platform spans -50..50 units; the box of the character 32 units to each side.
    let mut beside = dino_at(82_001, 10_000 + 32_000);
    beside.grounded = true;
    assert!(!dino_gravity(&mut beside, &vec![platform(0, 0)], TICK, true).landed);
    let mut touching = dino_at(82_000, 10_000 + 32_000);
    touching.grounded = true;
    assert!(dino_gravity(&mut touching, &vec![platform(0, 0)], TICK, true).landed);
    let mut left = dino_at(-82_000, 10_000 + 32_000);
    left.grounded = true;
    assert!(dino_gravity(&mut left, &vec![platform(0, 0)], TICK, true).landed);
}

#[test]
fn platforms_are_tried_in_order() {
    // Two platforms within the window of each other: the character is set down on the
    // first and then on the second, which lies lower.
    let mut d = dino_at(0, 10_000 + 5_000 + 32_000);
    d.grounded = true;
    let floor = vec![platform(0, 0), platform(20_000, -3_000)];
    let landing = dino_gravity(&mut d, &floor, TICK, true);
    assert!(landing.landed);
    assert_eq!(d.aabb.min.y, 7_000);
    assert!(centered(&d));
}

#[test]
fn thrust_of_the_standard_jump() {
    assert_eq!(compute_thrust(1_500_000), 417_420);
    assert_eq!(compute_thrust(0), 0);
}

#[test]
fn a_jump_starts_from_the_ground() {
    let mut d = dino_at(0, 42_000);
    d.grounded = true;
    d.attacking = true;
    d.can_attack = true;
    d.frame = 20;
    let input = Input { jump_held: true, jump_pressed: true, ..no_input() };
    let sounds = arrow_move(&mut d, &input, &Vec::new(), &Vec::new(), TICK, true, &draws());
    assert_eq!(sounds, vec![Sound { effect: SoundEffect::Jump, variant: 1, volume: 50 }]);
    assert!(d.jumping);
    assert!(!d.grounded);
    assert!(!d.attacking);
    assert!(d.can_attack);
    assert_eq!(d.jump_time, TICK as u64);
    assert_eq!(d.velocity.y, 417_420);
    assert_eq!(d.frame, 25);
    assert_eq!(d.position.y, 42_000);
    assert!(centered(&d));
}

#[test]
fn no_jump_in_the_air() {
    let d = dino_at(0, 42_000);
    let input = Input { jump_held: true, jump_pressed: true, ..no_input() };
    assert_eq!(start_jump(d, &input), d);
    let mut grounded = d;
    grounded.grounded = true;
    let held = Input { jump_held: true, ..no_input() };
    assert_eq!(start_jump(grounded, &held), grounded);
}

#[test]
fn the_boost_lasts_while_the_key_is_held_and_time_is_left() {
    let mut d = dino_at(0, 0);
    d.jumping = true;
    d.jump_time = 219_999;
    let held = Input { jump_held: true, ..no_input() };
    let lifted = boost(d, &held, TICK);
    assert!(lifted.jumping);
    assert_eq!(lifted.velocity.y, 417_420);
    assert_eq!(lifted.jump_time, 219_999 + TICK as u64);
    let spent = boost(lifted, &held, TICK);
    assert!(!spent.jumping);
    assert_eq!(spent.velocity.y, 417_420);
    assert_eq!(spent.jump_time, lifted.jump_time);
    d.velocity.y = 5;
    let released = boost(d, &no_input(), TICK);
    assert!(!released.jumping);
    assert_eq!(released.velocity.y, 5);
}

#[test]
fn running_smooths_the_velocity_towards_the_target() {
    let d = dino_at(0, 0);
    let right = run(d, &Input { right: true, ..no_input() }, TICK);
    assert_eq!(right.velocity.x, 12_500);
    assert_eq!(right.position.x, 208);
    assert_eq!(right.aabb.min.x, -32_000 + 208);
    assert_eq!(right.aabb.max.x, 32_000 + 208);
    assert!(!right.flip_x);
    let left = run(d, &Input { left: true, ..no_input() }, TICK);
    assert_eq!(left.velocity.x, -12_500);
    assert_eq!(left.position.x, -208);
    assert!(left.flip_x);
    let both = run(d, &Input { left: true, right: true, ..no_input() }, TICK);
    assert_eq!(both.velocity.x, 12_500);
    assert!(!both.flip_x);
    let mut fast = d;
    fast.velocity.x = 200_000;
    fast.flip_x = true;
    let coasting = run(fast, &no_input(), TICK);
    assert_eq!(coasting.velocity.x, 190_000);
    assert!(coasting.flip_x);
    assert!(centered(&coasting));
}

#[test]
fn obstacles_never_block_the_way() {
    let mut d = dino_at(0, 0);
    d.grounded = true;
    let wall = vec![tree(40_000, 0)];
    let input = Input { right: true, ..no_input() };
    for _ in 0..200 {
        arrow_move(&mut d, &input, &Vec::new(), &wall, TICK, true, &draws());
    }
    assert!(d.position.x > 65_000);
    assert!(centered(&d));
}

#[test]
fn an_attack_is_registered_in_the_air() {
    let mut d = dino_at(0, 0);
    d.can_attack = true;
    d.jump_time = 300_000;
    let input = Input { jump_pressed: true, jump_held: true, ..no_input() };
    let sounds = arrow_move(&mut d, &input, &Vec::new(), &Vec::new(), TICK, true, &draws());
    assert_eq!(sounds, vec![Sound { effect: SoundEffect::Swoosh, variant: 2, volume: 50 }]);
    assert!(d.attacking);
    assert_eq!(d.frame, 18);
    assert!(!d.jumping);
    assert_eq!(d.jump_time, 300_000);
}

#[test]
fn an_attack_that_connects_bounces() {
    let mut d = dino_at(0, 0);
    d.can_attack = true;
    d.jump_time = 300_000;
    let input = Input { jump_pressed: true, jump_held: true, ..no_input() };
    let sounds = arrow_move(&mut d, &input, &Vec::new(), &vec![tree(40_000, 0)], TICK, false, &draws());
    assert_eq!(
        sounds,
        vec![
            Sound { effect: SoundEffect::Swoosh, variant: 2, volume: 0 },
            Sound { effect: SoundEffect::Impact, variant: 1, volume: 0 },
        ]
    );
    assert!(d.attacking);
    assert!(d.jumping);
    assert_eq!(d.jump_time, 0);
    assert_eq!(d.frame, 18);
    // The bounce re-enters the boost phase on the next tick.
    let held = Input { jump_held: true, ..no_input() };
    arrow_move(&mut d, &held, &Vec::new(), &vec![tree(40_000, 0)], TICK, false, &draws());
    assert_eq!(d.velocity.y, 417_420);
}

#[test]
fn single_attack_while_one_is_under_way() {
    let mut d = dino_at(0, 42_000);
    d.grounded = true;
    let press = Input { jump_pressed: true, jump_held: true, ..no_input() };
    let mut attacks = 0;
    // The jump starts; no attack in the same tick.
    let sounds = arrow_move(&mut d, &press, &Vec::new(), &Vec::new(), TICK, true, &draws());
    attacks += sounds.iter().filter(|s| s.effect == SoundEffect::Swoosh).count();
    assert_eq!(attacks, 0);
    assert!(d.can_attack);
    // Key edges on every tick while the attack animation lasts: one attack only.
    for _ in 0..20 {
        let sounds = arrow_move(&mut d, &press, &Vec::new(), &Vec::new(), TICK, true, &draws());
        attacks += sounds.iter().filter(|s| s.effect == SoundEffect::Swoosh).count();
        assert!(d.attacking);
    }
    assert_eq!(attacks, 1);
}

#[test]
fn the_attack_animation_holds_one_frame() {
    let mut d = dino_at(0, 0);
    d.attacking = true;
    d.frame = 18;
    let mut frames = Vec::new();
    for _ in 0..8 {
        d = advance_attack(d);
        frames.push(d.frame);
    }
    assert_eq!(frames, vec![19, 20, 21, 21, 22, 23, 24, 23]);
    assert!(!d.attacking);
    assert_eq!(d.frame_hold, 0);
}

#[test]
fn the_attack_animation_waits_for_the_frame_timer() {
    let mut d = dino_at(0, 0);
    d.attacking = true;
    d.can_attack = true;
    d.frame = 18;
    let mut frames = Vec::new();
    for _ in 0..9 {
        arrow_move(&mut d, &no_input(), &Vec::new(), &Vec::new(), 35_000, true, &draws());
        frames.push(d.frame);
    }
    assert_eq!(frames, vec![18, 19, 19, 20, 20, 21, 21, 21, 21]);
}

#[test]
fn the_pose_in_the_air_follows_the_vertical_velocity() {
    let mut d = dino_at(0, 0);
    d.velocity.y = -199_999;
    assert_eq!(animate(d, &no_input(), false, &draws()).frame, 25);
    d.velocity.y = -200_000;
    assert_eq!(animate(d, &no_input(), false, &draws()).frame, 23);
    assert!(animate(d, &no_input(), false, &draws()).can_attack);
}

#[test]
fn the_walk_cycle_wraps() {
    let mut d = dino_at(0, 0);
    d.frame = 10;
    d = advance_walk(d);
    assert_eq!(d.frame, 11);
    d = advance_walk(d);
    assert_eq!(d.frame, 0);
    d.frame = 20;
    assert_eq!(advance_walk(d).frame, 0);
}

#[test]
fn walking_advances_on_the_frame_timer_and_steps_on_the_step_timer() {
    let mut d = dino_at(0, 42_000);
    d.grounded = true;
    let input = Input { right: true, ..no_input() };
    let mut frames = Vec::new();
    let mut steps = 0;
    for _ in 0..6 {
        let sounds = arrow_move(&mut d, &input, &Vec::new(), &Vec::new(), 50_000, true, &draws());
        for s in &sounds {
            assert_eq!(*s, Sound { effect: SoundEffect::Step, variant: 7, volume: 100 });
        }
        steps += sounds.len();
        frames.push(d.frame);
    }
    assert_eq!(frames, vec![0, 1, 2, 2, 3, 4]);
    assert_eq!(steps, 2);
}

#[test]
fn the_idle_animation_twitches() {
    let mut d = dino_at(0, 0);
    let still = Draws { idle_twitch: 1, idle_advance: 1, ..draws() };
    let go = Draws { idle_twitch: 0, idle_advance: 0, ..draws() };
    d.frame = 3;
    assert_eq!(advance_idle(d, &still).frame, 12);
    assert_eq!(advance_idle(d, &go).frame, 13);
    d.frame = 14;
    assert_eq!(advance_idle(d, &still).frame, 14);
    assert_eq!(advance_idle(d, &go).frame, 15);
    d.frame = 16;
    d.idle_frame_forward = true;
    assert_eq!(advance_idle(d, &still).frame, 17);
    d.frame = 17;
    let held = advance_idle(d, &still);
    assert_eq!(held.frame, 17);
    assert!(!held.idle_frame_forward);
    let back = advance_idle(d, &go);
    assert_eq!(back.frame, 16);
    assert!(!back.idle_frame_forward);
    let restart = advance_idle(back, &still);
    assert_eq!(restart.frame, 12);
    assert!(restart.idle_frame_forward);
}

#[test]
fn any_obstacle_counts_for_a_collision() {
    let d = dino_at(0, 0);
    assert!(intersects_any(&vec![platform(500_000, 0), tree(57_000, 0)], &d.aabb));
    assert!(!intersects_any(&vec![platform(500_000, 0), tree(57_001, 0)], &d.aabb));
    assert!(!intersects_any(&Vec::new(), &d.aabb));
}

#[test]
fn what_the_character_is_doing() {
    let mut d = dino_at(0, 0);
    assert_eq!(d.motion_state(), MotionState::Airborne);
    assert_eq!(classify(&d, &no_input()), ActionState::Rising);
    d.velocity.y = -300_000;
    assert_eq!(classify(&d, &no_input()), ActionState::Falling);
    let press = Input { jump_pressed: true, ..no_input() };
    assert_eq!(classify(&d, &press), ActionState::Falling);
    d.can_attack = true;
    assert_eq!(classify(&d, &press), ActionState::Attacking);
    d.can_attack = false;
    d.attacking = true;
    assert_eq!(classify(&d, &no_input()), ActionState::Attacking);
    d.grounded = true;
    assert_eq!(d.motion_state(), MotionState::Grounded);
    assert_eq!(classify(&d, &no_input()), ActionState::Idle);
    assert_eq!(classify(&d, &Input { left: true, ..no_input() }), ActionState::Walking);
    assert_eq!(classify(&d, &Input { right: true, ..no_input() }), ActionState::Walking);
    // A character in the boost phase counts as in the air even while grounded.
    d.jumping = true;
    d.attacking = false;
    assert_eq!(classify(&d, &no_input()), ActionState::Falling);
}

#[test]
fn a_new_attack_can_start_once_the_first_has_ended() {
    let mut d = dino_at(0, 0);
    d.can_attack = true;
    let press = Input { jump_pressed: true, ..no_input() };
    let swooshes = |sounds: &Vec<Sound>| {
        sounds.iter().filter(|s| s.effect == SoundEffect::Swoosh).count()
    };
    let first = arrow_move(&mut d, &press, &Vec::new(), &Vec::new(), TICK, true, &draws());
    assert_eq!(swooshes(&first), 1);
    // The animation takes eight steps of the frame timer; key edges meanwhile do nothing.
    let mut ticks = 0;
    while d.attacking {
        let sounds = arrow_move(&mut d, &press, &Vec::new(), &Vec::new(), 70_000, true, &draws());
        assert_eq!(swooshes(&sounds), 0);
        ticks += 1;
    }
    assert_eq!(ticks, 8);
    assert_eq!(d.frame, 23);
    assert!(!d.grounded);
    // Still in the air, the next key edge starts another attack.
    let second = arrow_move(&mut d, &press, &Vec::new(), &Vec::new(), TICK, true, &draws());
    assert_eq!(swooshes(&second), 1);
    assert!(d.attacking);
    assert_eq!(d.frame, 18);
}

#[test]
fn the_damper_acts_once_per_tick_whatever_the_length_of_the_tick() {
    let mut d = dino_at(0, 0);
    d.velocity.x = 100_000;
    let right = Input { right: true, ..no_input() };
    let short = run(d, &right, 1);
    let long = run(d, &right, 1_000_000);
    assert_eq!(short.velocity.x, 107_500);
    assert_eq!(long.velocity.x, 107_500);
    assert_eq!(short.position.x, 0);
    assert_eq!(long.position.x, 107_500);
    // Twice the ticks damp twice, over the same time.
    let twice = run(run(d, &right, 500_000), &right, 500_000);
    assert_eq!(twice.velocity.x, 114_625);
}

#[test]
fn a_released_character_comes_to_rest_from_either_side() {
    for start in [19, -19, 250_000, -250_000, 1, -1] {
        let mut d = dino_at(0, 0);
        d.velocity.x = start;
        let mut ticks = 0;
        while d.velocity.x != 0 {
            let before = d.velocity.x.abs();
            d = run(d, &no_input(), TICK);
            assert!(d.velocity.x.abs() < before);
            assert!(d.velocity.x == 0 || (d.velocity.x > 0) == (start > 0));
            ticks += 1;
            assert!(ticks <= 1_000);
        }
        let at = d.position.x;
        for _ in 0..10 {
            d = run(d, &no_input(), TICK);
        }
        assert_eq!(d.velocity.x, 0);
        assert_eq!(d.position.x, at);
    }
    // Mirror images move as mirror images.
    let mut right = dino_at(0, 0);
    let mut left = dino_at(0, 0);
    for _ in 0..300 {
        right = run(right, &Input { right: true, ..no_input() }, TICK);
        left = run(left, &Input { left: true, ..no_input() }, TICK);
        assert_eq!(right.velocity.x, -left.velocity.x);
        assert_eq!(right.position.x, -left.position.x);
    }
}
