use dino_game::control::{Draws, Input};
use dino_game::dino::Dino;
use dino_game::game::{Game, Stall};
use dino_game::geometry::{Aabb, Point};
use dino_game::obstacle::{Apple, Obstacle, ObstacleKind, TimeExtender};
use dino_game::session::{press_space_to_start, GameState, GameStatus};
use dino_game::sound::{Sound, SoundEffect};
use dino_game::timer::{Timer, TimerMode};

const TICK: u32 = 16_667;

fn no_input() -> Input {
    Input { left: false, right: false, jump_held: false, jump_pressed: false }
}

fn draws() -> Draws {
    Draws { jump: 1, swoosh: 2, impact: 1, step: 7, idle_twitch: 5, idle_advance: 5 }
}

fn put(dino: &mut Dino, x: i64, y: i64) {
    dino.position = Point::new(x, y);
    dino.aabb = Aabb::new(dino.position, Point::new(32_000, 32_000));
}

fn centered(d: &Dino) -> bool {
    d.aabb.min.x + d.aabb.max.x == 2 * d.position.x
        && d.aabb.min.y + d.aabb.max.y == 2 * d.position.y
}

/// A running game whose neighborhood is generated, and a column within the
/// character's tile that no platform reaches into.
fn game_with_a_free_column() -> (Game, i64) {
    for _ in 0..1_000 {
        let mut game = Game::new();
        press_space_to_start(&mut game.session);
        put(&mut game.dino, 300_000, -240_000);
        assert!(game.tick(&no_input(), 0, &draws()).is_ok());
        let free = (200_000..=560_000).step_by(1_000).find(|x| {
            game.world
                .platforms
                .iter()
                .all(|p| p.aabb.max.x < x - 40_000 || p.aabb.min.x > x + 40_000)
        });
        if let Some(x) = free {
            // Nothing to collect by chance.
            game.world.apples.clear();
            game.world.clocks.clear();
            return (game, x);
        }
    }
    panic!("no free column in a thousand worlds");
}

fn platform(x: i64, y: i64) -> Obstacle {
    Obstacle {
        aabb: Aabb::new(Point::new(x, y), Point::new(50_000, 10_000)),
        kind: ObstacleKind::Platform,
    }
}

#[test]
fn a_game_waits_to_be_started() {
    let mut game = Game::new();
    assert_eq!(game.session.state, GameState::NotRunning);
    assert!(!game.is_steppable());
    assert_eq!(game.stalled(), Some(Stall::NotRunning));
    assert_eq!(game.tick(&no_input(), TICK, &draws()).unwrap_err(), Stall::NotRunning);
    assert_eq!(game.dino, Dino::default());
    assert_eq!(game.world.platforms.len(), 1);
    assert!(!game.world.is_generated((0, 0)));
    press_space_to_start(&mut game.session);
    assert!(game.is_steppable());
    assert_eq!(game.stalled(), None);
}

#[test]
fn the_first_tick_generates_the_neighborhood_and_lets_the_character_fall() {
    let mut game = Game::new();
    press_space_to_start(&mut game.session);
    let report = game.tick(&no_input(), TICK, &draws()).unwrap();
    assert_eq!(report.new.platforms_from, 1);
    assert_eq!(report.new.trees_from, 0);
    assert_eq!(report.damage, 0);
    assert_eq!(report.ended, None);
    assert_eq!(report.seconds_left, 200);
    assert_eq!(report.height_left, 9_823);
    for i in -2..=2 {
        for j in -2..=2 {
            assert!(game.world.is_generated((i, j)));
        }
    }
    assert!(!game.world.is_generated((3, 0)));
    assert!(centered(&game.dino));
    assert_eq!(game.session.timer.0.elapsed, TICK as u64);
    // Unless a platform of the new neighborhood has caught it at once, the
    // character has begun to fall, and the camera has started towards its
    // place above the character.
    if !game.dino.grounded {
        assert_eq!(game.dino.velocity.y, -20_000);
        assert_eq!(game.dino.position, Point::new(0, -333));
        assert_eq!(game.dino.frame, 25);
        assert_eq!(game.camera.position, Point::new(0, 7_433));
    }
}

#[test]
fn coherence_and_health_hold_over_a_long_run() {
    let mut game = Game::new();
    press_space_to_start(&mut game.session);
    let mut health = game.dino.health;
    let mut platforms = game.world.platforms.clone();
    for n in 0..3_000u32 {
        let input = Input {
            left: n % 700 > 500,
            right: n % 700 <= 500,
            jump_held: n % 90 < 30,
            jump_pressed: n % 90 == 0 || n % 90 == 40,
        };
        if game.tick(&input, TICK, &Draws::sample()).is_err() {
            assert_ne!(game.session.state, GameState::Running);
            break;
        }
        assert!(centered(&game.dino));
        assert!(game.dino.is_wf());
        assert!(game.dino.health <= health);
        health = game.dino.health;
        assert!(game.dino.frame <= 25);
        assert_eq!(game.world.platforms[..platforms.len()], platforms[..]);
        platforms = game.world.platforms.clone();
    }
}

#[test]
fn end_to_end_win_by_ticks() {
    let (mut game, x) = game_with_a_free_column();
    // One step of the climb below the target, rising at 600 units a second.
    put(&mut game.dino, x, 9_812_000);
    game.dino.velocity.y = 600_000;
    assert_eq!(game.dino.health, 100);
    let report = game.tick(&no_input(), TICK, &draws()).unwrap();
    assert_eq!(game.dino.position.y, 9_812_000 + 9_666);
    assert_eq!(report.height_left, 1);
    assert_eq!(report.ended, None);
    assert_eq!(game.session.status, GameStatus::InProgress);
    let report = game.tick(&no_input(), TICK, &draws()).unwrap();
    assert!(game.dino.position.y >= 9_822_000);
    assert!(report.height_left <= 0);
    assert_eq!(report.ended, Some(GameStatus::Win));
    assert_eq!(game.session.status, GameStatus::Win);
    assert_eq!(game.session.state, GameState::NotRunning);
    assert_eq!(game.dino.health, 100);
    // The game has stopped.
    assert!(game.tick(&no_input(), TICK, &draws()).is_err());
}

#[test]
fn end_to_end_loss_by_two_hard_landings() {
    let (mut game, x) = game_with_a_free_column();
    game.world.platforms.push(platform(x, -300_000));
    // Feet 45 units above the platform, falling at 2500 units a second.
    put(&mut game.dino, x, -290_000 + 45_000 + 32_000);
    game.dino.velocity.y = -2_500_000;
    let report = game.tick(&no_input(), TICK, &draws()).unwrap();
    assert_eq!(report.damage, 60);
    assert_eq!(report.sounds, vec![Sound { effect: SoundEffect::Thud, variant: 3, volume: 200 }]);
    assert_eq!(report.ended, None);
    assert_eq!(game.dino.health, 40);
    assert!(game.dino.grounded);
    assert_eq!(game.dino.aabb.min.y, -290_000);
    assert_eq!(game.session.status, GameStatus::InProgress);

    put(&mut game.dino, x, -290_000 + 45_000 + 32_000);
    game.dino.velocity.y = -2_500_000;
    game.dino.grounded = false;
    let report = game.tick(&no_input(), TICK, &draws()).unwrap();
    assert_eq!(report.damage, 60);
    assert_eq!(game.dino.health, -20);
    assert_eq!(report.ended, Some(GameStatus::Lose));
    assert_eq!(game.session.status, GameStatus::Lose);
    assert_eq!(game.session.state, GameState::NotRunning);
    assert!(game.tick(&no_input(), TICK, &draws()).is_err());
}

#[test]
fn pickups_are_collected_during_the_tick() {
    let (mut game, x) = game_with_a_free_column();
    game.world.platforms.push(platform(x, -300_000));
    put(&mut game.dino, x, -290_000 + 32_000);
    game.dino.grounded = true;
    let apples_before = game.world.apples.len();
    let clocks_before = game.world.clocks.len();
    let here = Aabb::new(Point::new(x + 30_000, -250_000), Point::new(8_000, 8_000));
    game.world.apples.push(Apple { aabb: here });
    game.world.clocks.push(TimeExtender { aabb: here });
    let report = game.tick(&no_input(), TICK, &draws()).unwrap();
    assert!(report.apples_taken.contains(&apples_before));
    assert!(report.clocks_taken.contains(&clocks_before));
    assert_eq!(game.world.apples.len(), apples_before + 1 - report.apples_taken.len());
    assert_eq!(game.world.clocks.len(), clocks_before + 1 - report.clocks_taken.len());
    assert_eq!(game.session.basket.0 as usize, report.apples_taken.len());
    let collect = Sound { effect: SoundEffect::Collect, variant: 1, volume: 250 };
    assert_eq!(
        report.sounds,
        vec![collect; report.apples_taken.len() + report.clocks_taken.len()]
    );
    // The clock was started over with a minute more for each extender, then ticked.
    let mut expected =
        Timer::new(200_000_000 + 60_000_000 * report.clocks_taken.len() as u64, TimerMode::Once);
    expected.tick(TICK);
    assert_eq!(game.session.timer.0, expected);
    assert_eq!(report.seconds_left, 200 + 60 * report.clocks_taken.len() as u64);
}

#[test]
fn the_session_is_lost_when_the_clock_runs_out_by_ticks() {
    let mut game = Game::new();
    press_space_to_start(&mut game.session);
    put(&mut game.dino, 0, -210_000 + 32_000);
    game.dino.grounded = true;
    let mut last = None;
    for _ in 0..200 {
        assert_eq!(last, None);
        last = game.tick(&no_input(), 1_000_000, &draws()).unwrap().ended;
    }
    assert_eq!(last, Some(GameStatus::Lose));
    assert_eq!(game.session.status, GameStatus::Lose);
}

#[test]
fn falling_out_of_the_level_wraps_around_to_its_top() {
    let mut game = Game::new();
    press_space_to_start(&mut game.session);
    // Falling so fast that the first tick takes the character below everything
    // that has been generated.
    put(&mut game.dino, 300_000, -5_000_000);
    game.dino.velocity.y = -10_000_000;
    let mut wrapped = false;
    for _ in 0..60 {
        let before = game.dino.position.y;
        match game.tick(&no_input(), 1_000_000, &draws()) {
            Ok(report) => {
                assert!(centered(&game.dino));
                if game.dino.position.y > before {
                    wrapped = true;
                    assert_eq!(game.dino.position.y, 900_000_000);
                    assert_eq!(report.ended, Some(GameStatus::Win));
                }
            }
            Err(_) => break,
        }
    }
    assert!(wrapped);
    assert_eq!(game.session.status, GameStatus::Win);
}

#[test]
fn a_tick_of_any_length_is_stepped() {
    for dt in [0u32, 1, 250_000, 60_000_000, u32::MAX] {
        let mut game = Game::new();
        press_space_to_start(&mut game.session);
        put(&mut game.dino, 0, -210_000 + 32_000);
        game.dino.grounded = true;
        let report = game.tick(&no_input(), dt, &draws()).unwrap();
        // The character stands where it stood, unless a platform of the new
        // neighborhood lies so close below that it has been set down on it.
        assert!(game.dino.grounded);
        assert_eq!(game.dino.position.x, 0);
        assert!(game.dino.position.y <= -178_000 && game.dino.position.y > -1_000_000);
        assert_eq!(game.dino.velocity, Point::new(0, 0));
        assert_eq!(game.session.timer.0.elapsed, (dt as u64).min(200_000_000));
        assert_eq!(report.ended.is_some(), dt as u64 >= 200_000_000);
    }
    // An hour-long fall takes the character far, and it is still within range.
    let mut game = Game::new();
    press_space_to_start(&mut game.session);
    game.session.timer.0 = Timer::new(1 << 40, TimerMode::Once);
    put(&mut game.dino, 300_000, -5_000_000);
    game.tick(&no_input(), 3_600_000_000, &draws()).unwrap();
    assert_eq!(game.dino.velocity.y, -4_320_000_000);
    assert!(game.dino.is_bounded());
    assert!(centered(&game.dino));
}

#[test]
fn a_character_out_of_range_stalls_the_game() {
    let mut game = Game::new();
    press_space_to_start(&mut game.session);
    put(&mut game.dino, (1 << 45) + 1, 0);
    let before = game.dino;
    assert_eq!(game.stalled(), Some(Stall::CharacterOutOfRange));
    assert_eq!(game.tick(&no_input(), TICK, &draws()).unwrap_err(), Stall::CharacterOutOfRange);
    assert_eq!(game.dino, before);
    assert!(!game.world.is_generated((0, 0)));
    put(&mut game.dino, 1 << 45, 0);
    assert!(game.tick(&no_input(), TICK, &draws()).is_ok());
    // A velocity beyond a million units a second stalls as well.
    game.dino.velocity.x = (1 << 30) + 1;
    assert_eq!(game.stalled(), Some(Stall::CharacterOutOfRange));
    game.dino.velocity.x = 0;
    game.camera.selected_game_level.right = (1 << 40) + 1;
    assert_eq!(game.stalled(), Some(Stall::CameraOutOfRange));
}
