use dino_game::camera::{
    backdrop_layers, camera_tracking_system, game_camera, parallax_system, track, wrap,
    GameLevelDimensions, Parallax,
};
use dino_game::dino::Dino;
use dino_game::geometry::{Aabb, Point};

const TICK: u32 = 16_667;

fn dino_at(x: i64, y: i64) -> Dino {
    let mut d = Dino::default();
    d.position = Point::new(x, y);
    d.aabb = Aabb::new(d.position, Point::new(32_000, 32_000));
    d
}

#[test]
fn the_camera_starts_at_the_origin_of_a_vast_level() {
    let camera = game_camera();
    assert_eq!(camera.position, Point::new(0, 0));
    assert_eq!(
        camera.selected_game_level,
        GameLevelDimensions {
            left: -1_000_000_000,
            right: 1_000_000_000,
            top: 1_000_000_000,
            bottom: -1_000_000_000,
        }
    );
    assert!(camera.is_bounded());
}

#[test]
fn camera_dead_zone() {
    // Half a tenth of a unit from the target: the camera snaps onto it.
    assert_eq!(track(1_050, 1_000, TICK, -1_000_000, 1_000_000), 1_000);
    assert_eq!(track(950, 1_000, TICK, -1_000_000, 1_000_000), 1_000);
    assert_eq!(track(1_099, 1_000, 1, -1_000_000, 1_000_000), 1_000);
    assert_eq!(track(901, 1_000, 4_000_000_000, -1_000_000, 1_000_000), 1_000);
    let mut camera = game_camera();
    camera.position = Point::new(10_050, 20_000 + 75_000 - 50);
    let mut dino = dino_at(10_000, 20_000);
    camera_tracking_system(&mut camera, &mut dino, TICK);
    assert_eq!(camera.position, Point::new(10_000, 95_000));
    assert_eq!(dino, dino_at(10_000, 20_000));
}

#[test]
fn outside_the_dead_zone_the_spring_acts() {
    assert_eq!(track(0, 75_000, TICK, -1_000_000_000, 1_000_000_000), 7_466);
    assert_eq!(track(0, 500_000, TICK, -1_000_000_000, 1_000_000_000), 49_773);
    assert_eq!(track(1_000_000, 0, TICK, -1_000_000_000, 1_000_000_000), 900_454);
    // At the rim of the dead zone the spring still acts.
    assert_eq!(track(100, 0, TICK, -1_000, 1_000), 90);
    assert_eq!(track(-100, 0, TICK, -1_000, 1_000), -90);
    assert_eq!(track(99, 0, TICK, -1_000, 1_000), 0);
    // Without time the camera does not move.
    assert_eq!(track(0, 75_000, 0, -1_000_000_000, 1_000_000_000), 0);
    assert_eq!(track(0, 75_000, 100_000, -1_000_000_000, 1_000_000_000), 50_108);
}

#[test]
fn the_camera_aims_above_the_character() {
    let mut camera = game_camera();
    let mut dino = dino_at(500_000, 0);
    camera_tracking_system(&mut camera, &mut dino, TICK);
    assert_eq!(camera.position, Point::new(49_773, 7_466));
    assert_eq!(dino, dino_at(500_000, 0));
}

#[test]
fn the_camera_refuses_to_leave_the_level() {
    // The move would end at 7_466, on or beyond the bound: the camera stays.
    assert_eq!(track(0, 75_000, TICK, -1_000, 7_466), 0);
    assert_eq!(track(0, 75_000, TICK, -1_000, 7_467), 7_466);
    assert_eq!(track(0, 75_000, TICK, 7_466, 10_000), 0);
    // A long tick overshoots far beyond the level.
    assert_eq!(track(0, 75_000, 1_000_000, -1_000_000, 1_000_000), 0);
    assert_eq!(track(0, 75_000, 1_000_000, -1_000_000, 1_074_822), 1_074_821);
    // From within the dead zone as well: a target outside the level is not taken.
    assert_eq!(track(1_050, 1_000, TICK, -500, 1_000), 1_050);
    assert_eq!(track(1_050, 1_000, TICK, 1_000, 2_000), 1_050);
    // The longest tick overshoots by millions of units.
    assert_eq!(track(0, 75_000, u32::MAX, i64::MIN, i64::MAX), 11_761_677_621_979);
    assert_eq!(track(0, 75_000, u32::MAX, -1_000_000_000, 1_000_000_000), 0);
}

#[test]
fn the_character_wraps_around_at_nine_tenths_of_the_level() {
    assert_eq!(wrap(900_000_000, 5, -1_000_000_000, 1_000_000_000), (900_000_000, 5));
    assert_eq!(
        wrap(900_000_001, 5, -1_000_000_000, 1_000_000_000),
        (-900_000_000, 5 - 1_800_000_000)
    );
    assert_eq!(wrap(-900_000_000, 5, -1_000_000_000, 1_000_000_000), (-900_000_000, 5));
    assert_eq!(
        wrap(-900_000_001, 5, -1_000_000_000, 1_000_000_000),
        (900_000_000, 5 + 1_800_000_000)
    );
    // Nine tenths are rounded down.
    assert_eq!(wrap(10, 0, -15, 15), (10, 0));
    assert_eq!(wrap(14, 0, -15, 15), (-14, -28));
    assert_eq!(wrap(-14, 0, -15, 15), (-14, 0));
    assert_eq!(wrap(-15, 0, -15, 15), (13, 26));
}

#[test]
fn wrapping_takes_the_box_and_the_camera_along() {
    let mut camera = game_camera();
    camera.position = Point::new(900_000_050, 75_000);
    let mut dino = dino_at(900_000_100, 0);
    dino.velocity = Point::new(250_000, -7);
    camera_tracking_system(&mut camera, &mut dino, TICK);
    assert_eq!(dino.position, Point::new(-900_000_000, 0));
    assert_eq!(dino.aabb, Aabb::new(Point::new(-900_000_000, 0), Point::new(32_000, 32_000)));
    assert_eq!(dino.velocity, Point::new(250_000, -7));
    assert_eq!(camera.position, Point::new(900_000_100 - 1_800_000_000, 75_000));

    let mut camera = game_camera();
    camera.position = Point::new(0, -900_000_000);
    let mut dino = dino_at(0, -900_000_001);
    camera_tracking_system(&mut camera, &mut dino, 0);
    assert_eq!(dino.position, Point::new(0, 900_000_000));
    assert_eq!(dino.aabb, Aabb::new(Point::new(0, 900_000_000), Point::new(32_000, 32_000)));
    assert_eq!(camera.position, Point::new(0, 900_000_000));
}

#[test]
fn backgrounds_follow_the_camera_at_their_own_pace() {
    let mut camera = game_camera();
    camera.position = Point::new(1_000, 2_000);
    let layer = Parallax {
        x_coeff: 600,
        y_coeff: 600,
        x_offset: 2_400_000,
        y_offset: 1_920_000,
        x_tile: 1,
        y_tile: -2,
    };
    assert_eq!(parallax_system(&camera, &layer), Point::new(2_400_600, -3_838_800));
    let first = Parallax { x_tile: 0, y_tile: 0, ..layer };
    assert_eq!(parallax_system(&camera, &first), Point::new(600, 1_200));
    camera.position = Point::new(-1_001, 0);
    assert_eq!(parallax_system(&camera, &first), Point::new(-601, 0));
}

#[test]
fn the_backdrop_has_five_columns_of_five() {
    let layers = backdrop_layers();
    assert_eq!(layers.len(), 25);
    for i in 0..5 {
        for j in 0..5 {
            assert_eq!(
                layers[i * 5 + j],
                Parallax {
                    x_coeff: 600,
                    y_coeff: 600,
                    x_offset: 2_400_000,
                    y_offset: 1_920_000,
                    x_tile: i as i32 - 2,
                    y_tile: j as i32 - 2,
                }
            );
        }
    }
}

#[test]
fn the_outline_of_a_box_is_closed() {
    let b = Aabb::new(Point::new(0, 0), Point::new(3, 4));
    assert_eq!(
        b.outline(),
        [
            Point::new(-3, -4),
            Point::new(3, -4),
            Point::new(3, 4),
            Point::new(-3, 4),
            Point::new(-3, -4),
        ]
    );
}

#[test]
fn the_camera_draws_nearer_from_either_side_however_short_the_tick() {
    for dt in [1u32, 1_000, TICK] {
        for start in [-100i64, 100, -101, 5_000, -75_000] {
            let mut camera = start;
            let mut ticks = 0u64;
            while camera != 0 {
                let next = track(camera, 0, dt, -1_000_000, 1_000_000);
                assert!(next.abs() < camera.abs());
                assert!(next == 0 || (next > 0) == (camera > 0));
                camera = next;
                ticks += 1;
                assert!(ticks < 1_000_000);
            }
        }
    }
}
