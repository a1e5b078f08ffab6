use dino_game::generator::{
    choose_placement, draw_placement, fill_tile, force_placement, generate_tile, Rolls,
    TileDraft,
};
use dino_game::geometry::{Aabb, Point};
use dino_game::obstacle::{Apple, Obstacle, ObstacleKind, TimeExtender};
use dino_game::placement::Placement;
use dino_game::world::{spawn_platforms, tile_at, Generated, World};

fn platform_box(x: i64, y: i64) -> Aabb {
    Aabb::new(Point::new(x, y), Point::new(50_000, 10_000))
}

fn tree_box(x: i64, y: i64) -> Aabb {
    Aabb::new(Point::new(x, y), Point::new(25_000, 190_000))
}

#[test]
fn tiles_are_found_by_rounding_down() {
    assert_eq!(tile_at(Point::new(0, 0)), (0, 0));
    assert_eq!(tile_at(Point::new(599_999, 479_999)), (0, 0));
    assert_eq!(tile_at(Point::new(600_000, 480_000)), (1, 1));
    assert_eq!(tile_at(Point::new(-1, -1)), (-1, -1));
    assert_eq!(tile_at(Point::new(-600_000, -480_001)), (-1, -2));
    assert_eq!(tile_at(Point::new(9_822_000, 9_822_000)), (16, 20));
}

#[test]
fn a_new_world_holds_the_starting_platform() {
    let world = World::new();
    assert_eq!(
        world.platforms,
        vec![Obstacle {
            aabb: Aabb { min: Point::new(-150_000, -230_000), max: Point::new(150_000, -210_000) },
            kind: ObstacleKind::Platform,
        }]
    );
    assert!(world.trees.is_empty());
    assert!(world.apples.is_empty());
    assert!(world.clocks.is_empty());
    assert!(!world.is_generated((0, 0)));
    assert!(world.platforms_of((0, 0)).is_none());
    assert!(world.trees_of((0, 0)).is_none());
}

#[test]
fn the_first_platform_lies_at_its_offset_from_the_origin() {
    let mut tile = TileDraft::new((1, -1));
    assert!(tile.place(Placement::FirstPlatform { x: 100_000, y: -220_000, clock: true }));
    assert!(TileDraft::new((0, 0)).place(Placement::FirstPlatform { x: 499_999, y: 219_999, clock: false }));
    assert_eq!(
        tile.platforms,
        vec![Obstacle { aabb: platform_box(700_000, -700_000), kind: ObstacleKind::Platform }]
    );
    assert_eq!(
        tile.clocks,
        vec![TimeExtender {
            aabb: Aabb::new(Point::new(700_000, -672_000), Point::new(8_000, 8_000))
        }]
    );
    assert!(tile.trees.is_empty());
    assert!(tile.apples.is_empty());
    assert!(!tile.done);
}

#[test]
fn the_first_tree_lies_at_its_offset_from_the_origin() {
    let mut tile = TileDraft::new((-2, 3));
    assert!(tile.place(Placement::FirstTree { x: 549_999, y: 49_999, apple: true }));
    assert_eq!(
        tile.trees,
        vec![Obstacle { aabb: tree_box(-650_001, 1_489_999), kind: ObstacleKind::Tree }]
    );
    assert_eq!(
        tile.apples,
        vec![Apple { aabb: Aabb::new(Point::new(-650_001, 1_687_999), Point::new(8_000, 8_000)) }]
    );
    assert!(tile.platforms.is_empty());
    assert!(tile.clocks.is_empty());
}

#[test]
fn pickups_are_optional() {
    let mut with_platform = TileDraft::new((0, 0));
    assert!(with_platform.place(Placement::FirstPlatform { x: 300_000, y: 0, clock: false }));
    assert!(with_platform.clocks.is_empty());
    let mut with_tree = TileDraft::new((0, 0));
    assert!(with_tree.place(Placement::FirstTree { x: 300_000, y: 0, apple: false }));
    assert!(with_tree.apples.is_empty());
}

#[test]
fn extensions_are_offset_from_the_lowest_corner() {
    let mut tile = TileDraft::new((0, 0));
    assert!(tile.place(Placement::FirstPlatform { x: 300_000, y: 0, clock: false }));
    // The lowest corner of the first platform is (250, -10) units.
    assert!(tile.place(Placement::ExtendPlatform { from: 0, dx: -150_000, dy: 399_999 }));
    assert_eq!(tile.platforms[1].aabb, platform_box(100_000, 389_999));
    assert!(tile.place(Placement::ExtendPlatform { from: 1, dx: 0, dy: 0 }));
    assert_eq!(tile.platforms[2].aabb, platform_box(50_000, 379_999));

    let mut grove = TileDraft::new((0, 0));
    assert!(grove.place(Placement::FirstTree { x: 300_000, y: 0, apple: false }));
    // The lowest corner of the first tree is (275, -190) units.
    assert!(grove.place(Placement::ExtendTree { from: 0, dx: 299_999, dy: -400_000 }));
    assert_eq!(grove.trees[1].aabb, tree_box(574_999, -590_000));
    assert!(grove.place(Placement::ExtendTree { from: 1, dx: -300_000, dy: 149_999 }));
    assert_eq!(grove.trees[2].aabb, tree_box(249_999, -630_001));
    assert!(grove.apples.is_empty());
}

#[test]
fn placements_outside_the_rules_are_refused() {
    let mut tile = TileDraft::new((0, 0));
    // Nothing to stop, skip or extend on an empty tile.
    assert!(!tile.place(Placement::Stop));
    assert!(!tile.place(Placement::Skip));
    assert!(!tile.place(Placement::ExtendPlatform { from: 0, dx: 0, dy: 0 }));
    assert!(!tile.place(Placement::ExtendTree { from: 0, dx: 0, dy: 0 }));
    // Offsets of the first obstacle outside the insets.
    assert!(!tile.place(Placement::FirstPlatform { x: 99_999, y: 0, clock: false }));
    assert!(!tile.place(Placement::FirstPlatform { x: 500_000, y: 0, clock: false }));
    assert!(!tile.place(Placement::FirstPlatform { x: 300_000, y: 220_000, clock: false }));
    assert!(!tile.place(Placement::FirstPlatform { x: 300_000, y: -220_001, clock: false }));
    assert!(!tile.place(Placement::FirstTree { x: 49_999, y: 0, apple: false }));
    assert!(!tile.place(Placement::FirstTree { x: 550_000, y: 0, apple: false }));
    assert!(!tile.place(Placement::FirstTree { x: 300_000, y: 50_000, apple: false }));
    assert!(!tile.place(Placement::FirstTree { x: 300_000, y: -50_001, apple: false }));
    assert!(tile.platforms.is_empty() && tile.trees.is_empty());

    assert!(tile.place(Placement::FirstPlatform { x: 300_000, y: 0, clock: false }));
    // Only one first obstacle; no tree to extend; offsets outside the window.
    assert!(!tile.place(Placement::FirstPlatform { x: 300_000, y: 0, clock: false }));
    assert!(!tile.place(Placement::FirstTree { x: 300_000, y: 0, apple: false }));
    assert!(!tile.place(Placement::ExtendTree { from: 0, dx: 0, dy: 0 }));
    assert!(!tile.place(Placement::ExtendPlatform { from: 1, dx: 0, dy: 0 }));
    assert!(!tile.place(Placement::ExtendPlatform { from: 0, dx: 150_000, dy: 0 }));
    assert!(!tile.place(Placement::ExtendPlatform { from: 0, dx: -150_001, dy: 0 }));
    assert!(!tile.place(Placement::ExtendPlatform { from: 0, dx: 0, dy: 400_000 }));
    assert!(!tile.place(Placement::ExtendPlatform { from: 0, dx: 0, dy: -400_001 }));
    assert!(!tile.place(Placement::Stop));
    assert_eq!(tile.platforms.len(), 1);
    assert!(tile.place(Placement::Skip));
    assert_eq!(tile.platforms.len(), 1);

    let mut grove = TileDraft::new((0, 0));
    assert!(grove.place(Placement::FirstTree { x: 300_000, y: 0, apple: false }));
    assert!(!grove.place(Placement::ExtendTree { from: 0, dx: 300_000, dy: 0 }));
    assert!(!grove.place(Placement::ExtendTree { from: 0, dx: -300_001, dy: 0 }));
    assert!(!grove.place(Placement::ExtendTree { from: 0, dx: 0, dy: 150_000 }));
    assert!(!grove.place(Placement::ExtendTree { from: 0, dx: 0, dy: -400_001 }));
    assert!(!grove.place(Placement::ExtendPlatform { from: 0, dx: 0, dy: 0 }));
    assert_eq!(grove.trees.len(), 1);
}

#[test]
fn a_tile_is_complete_between_the_caps() {
    let mut tile = TileDraft::new((0, 0));
    assert!(tile.place(Placement::FirstPlatform { x: 300_000, y: 0, clock: false }));
    assert!(tile.place(Placement::ExtendPlatform { from: 0, dx: 0, dy: 100_000 }));
    assert!(tile.place(Placement::ExtendPlatform { from: 0, dx: 0, dy: 200_000 }));
    assert!(!tile.place(Placement::Stop));
    assert!(tile.place(Placement::ExtendPlatform { from: 0, dx: 0, dy: 300_000 }));
    let mut stopped = TileDraft::new((0, 0));
    for action in [
        Placement::FirstPlatform { x: 300_000, y: 0, clock: false },
        Placement::ExtendPlatform { from: 0, dx: 0, dy: 100_000 },
        Placement::ExtendPlatform { from: 0, dx: 0, dy: 200_000 },
        Placement::ExtendPlatform { from: 0, dx: 0, dy: 300_000 },
        Placement::Stop,
    ] {
        assert!(stopped.place(action));
    }
    assert!(stopped.done);
    // A complete tile allows nothing more.
    assert!(!stopped.place(Placement::Skip));
    assert!(!stopped.place(Placement::Stop));
    assert!(!stopped.place(Placement::ExtendPlatform { from: 0, dx: 0, dy: 0 }));
    assert_eq!(stopped.platforms.len(), 4);

    for k in 0..4 {
        assert!(tile.place(Placement::ExtendPlatform { from: k, dx: 10_000, dy: -50_000 }));
    }
    assert_eq!(tile.platforms.len(), 8);
    // At the hard cap the tile can only be declared complete.
    assert!(!tile.place(Placement::Skip));
    assert!(!tile.place(Placement::ExtendPlatform { from: 0, dx: 0, dy: 0 }));
    assert!(tile.place(Placement::Stop));
    assert!(tile.done);
}

#[test]
fn drawn_placements_follow_the_rules() {
    for _ in 0..200 {
        let mut tile = TileDraft::new((3, -4));
        let mut attempts = 0;
        while !tile.done {
            let action = draw_placement(&tile);
            assert!(tile.allows(&action));
            assert!(tile.place(action));
            attempts += 1;
            assert!(attempts < 10_000);
        }
        let count = tile.platforms.len() + tile.trees.len();
        assert!((4..=8).contains(&count));
    }
}

fn check_tile(key: (i32, i32), platforms: &[Obstacle], trees: &[Obstacle]) {
    let count = platforms.len() + trees.len();
    assert!((4..=8).contains(&count));
    for p in platforms {
        assert_eq!(p.kind, ObstacleKind::Platform);
        assert_eq!(p.aabb.max.x - p.aabb.min.x, 100_000);
        assert_eq!(p.aabb.max.y - p.aabb.min.y, 20_000);
    }
    for t in trees {
        assert_eq!(t.kind, ObstacleKind::Tree);
        assert_eq!(t.aabb.max.x - t.aabb.min.x, 50_000);
        assert_eq!(t.aabb.max.y - t.aabb.min.y, 380_000);
    }
    let origin_x = key.0 as i64 * 600_000;
    let origin_y = key.1 as i64 * 480_000;
    // Only one kind is ever placed, since each kind is extended from its own.
    assert!(platforms.is_empty() || trees.is_empty());
    if let Some(first) = platforms.first() {
        let x = first.aabb.min.x + 50_000 - origin_x;
        let y = first.aabb.min.y + 10_000 - origin_y;
        assert!((100_000..500_000).contains(&x));
        assert!((-220_000..220_000).contains(&y));
        for k in 1..platforms.len() {
            let cx = platforms[k].aabb.min.x + 50_000;
            let cy = platforms[k].aabb.min.y + 10_000;
            assert!(platforms[..k].iter().any(|p| {
                (-150_000..150_000).contains(&(cx - p.aabb.min.x))
                    && (-400_000..400_000).contains(&(cy - p.aabb.min.y))
            }));
        }
    }
    if let Some(first) = trees.first() {
        let x = first.aabb.min.x + 25_000 - origin_x;
        let y = first.aabb.min.y + 190_000 - origin_y;
        assert!((50_000..550_000).contains(&x));
        assert!((-50_000..50_000).contains(&y));
        for k in 1..trees.len() {
            let cx = trees[k].aabb.min.x + 25_000;
            let cy = trees[k].aabb.min.y + 190_000;
            assert!(trees[..k].iter().any(|t| {
                (-300_000..300_000).contains(&(cx - t.aabb.min.x))
                    && (-400_000..150_000).contains(&(cy - t.aabb.min.y))
            }));
        }
    }
}

#[test]
fn generated_tiles_follow_the_rules() {
    let mut with_clock = false;
    let mut with_apple = false;
    let mut bare_tree = false;
    for n in 0..1_000 {
        let key = (n - 500, 7 - n);
        let tile = generate_tile(key);
        assert_eq!(tile.key, key);
        assert!(tile.done);
        check_tile(key, &tile.platforms, &tile.trees);
        assert!(tile.clocks.len() <= 1 && tile.apples.len() <= 1);
        if let Some(clock) = tile.clocks.first() {
            with_clock = true;
            let p = tile.platforms[0].aabb;
            assert_eq!(
                clock.aabb,
                Aabb::new(Point::new(p.min.x + 50_000, p.min.y + 10_000 + 28_000), Point::new(8_000, 8_000))
            );
        }
        if let Some(apple) = tile.apples.first() {
            with_apple = true;
            let t = tile.trees[0].aabb;
            assert_eq!(
                apple.aabb,
                Aabb::new(Point::new(t.min.x + 25_000, t.min.y + 190_000 + 198_000), Point::new(8_000, 8_000))
            );
        }
        if !tile.trees.is_empty() && tile.apples.is_empty() {
            bare_tree = true;
        }
    }
    assert!(with_clock);
    assert!(with_apple);
    assert!(bare_tree);
}

#[test]
fn the_neighborhood_of_the_player_is_generated() {
    let mut world = World::new();
    let new = spawn_platforms(&mut world, Point::new(650_000, -10_000));
    assert_eq!(
        new,
        Generated { platforms_from: 1, trees_from: 0, apples_from: 0, clocks_from: 0 }
    );
    let mut platforms = 1;
    let mut trees = 0;
    for i in -2..=5 {
        for j in -4..=2 {
            let inside = (-1..=3).contains(&i) && (-3..=1).contains(&j);
            assert_eq!(world.is_generated((i, j)), inside);
            assert_eq!(world.platforms_of((i, j)).is_some(), inside);
            assert_eq!(world.trees_of((i, j)).is_some(), inside);
            if inside {
                let p = world.platforms_of((i, j)).unwrap();
                let t = world.trees_of((i, j)).unwrap();
                check_tile((i, j), p, t);
                platforms += p.len();
                trees += t.len();
                for o in p {
                    assert!(world.platforms.contains(o));
                }
                for o in t {
                    assert!(world.trees.contains(o));
                }
            }
        }
    }
    assert_eq!(world.platforms.len(), platforms);
    assert_eq!(world.trees.len(), trees);
}

#[test]
fn pickups_sit_on_the_first_obstacle_of_their_tile() {
    let mut world = World::new();
    let new = world.ensure_generated((0, 0), 12);
    assert_eq!(new.apples_from, 0);
    assert_eq!(new.clocks_from, 0);
    assert!(!world.apples.is_empty());
    assert!(!world.clocks.is_empty());
    let keys: Vec<(i32, i32)> =
        (-12..=12).flat_map(|i| (-12..=12).map(move |j| (i, j))).collect();
    for apple in &world.apples {
        assert!(keys.iter().any(|k| {
            world.trees_of(*k).unwrap().first().is_some_and(|t| {
                apple.aabb
                    == Aabb::new(
                        Point::new(t.aabb.min.x + 25_000, t.aabb.min.y + 190_000 + 198_000),
                        Point::new(8_000, 8_000),
                    )
            })
        }));
    }
    for clock in &world.clocks {
        assert!(keys.iter().any(|k| {
            world.platforms_of(*k).unwrap().first().is_some_and(|p| {
                clock.aabb
                    == Aabb::new(
                        Point::new(p.aabb.min.x + 50_000, p.aabb.min.y + 10_000 + 28_000),
                        Point::new(8_000, 8_000),
                    )
            })
        }));
    }
}

#[test]
fn idempotent_generation() {
    let mut world = World::new();
    spawn_platforms(&mut world, Point::new(0, 0));
    let platforms = world.platforms.clone();
    let trees = world.trees.clone();
    let apples = world.apples.clone();
    let clocks = world.clocks.clone();
    let tiles: Vec<(Vec<Obstacle>, Vec<Obstacle>)> = (-2..=2)
        .flat_map(|i| (-2..=2).map(move |j| (i, j)))
        .map(|k| (world.platforms_of(k).unwrap().clone(), world.trees_of(k).unwrap().clone()))
        .collect();
    let again = spawn_platforms(&mut world, Point::new(599_999, 479_999));
    assert_eq!(
        again,
        Generated {
            platforms_from: platforms.len(),
            trees_from: trees.len(),
            apples_from: apples.len(),
            clocks_from: clocks.len(),
        }
    );
    assert_eq!(world.platforms, platforms);
    assert_eq!(world.trees, trees);
    assert_eq!(world.apples, apples);
    assert_eq!(world.clocks, clocks);
    let after: Vec<(Vec<Obstacle>, Vec<Obstacle>)> = (-2..=2)
        .flat_map(|i| (-2..=2).map(move |j| (i, j)))
        .map(|k| (world.platforms_of(k).unwrap().clone(), world.trees_of(k).unwrap().clone()))
        .collect();
    assert_eq!(after, tiles);
}

#[test]
fn moving_on_generates_only_what_is_missing() {
    let mut world = World::new();
    world.ensure_generated((0, 0), 1);
    let kept: Vec<Obstacle> = world.platforms_of((1, 1)).unwrap().clone();
    let platforms = world.platforms.clone();
    let new = world.ensure_generated((2, 2), 1);
    assert_eq!(new.platforms_from, platforms.len());
    assert_eq!(world.platforms[..platforms.len()], platforms[..]);
    assert_eq!(*world.platforms_of((1, 1)).unwrap(), kept);
    for i in -1..=3 {
        for j in -1..=3 {
            let first = (-1..=1).contains(&i) && (-1..=1).contains(&j);
            let second = (1..=3).contains(&i) && (1..=3).contains(&j);
            assert_eq!(world.is_generated((i, j)), first || second);
        }
    }
}

#[test]
fn a_region_of_radius_zero_is_one_tile() {
    let mut world = World::new();
    world.ensure_generated((5, -5), 0);
    assert!(world.is_generated((5, -5)));
    assert!(!world.is_generated((5, -4)));
    assert!(!world.is_generated((4, -5)));
    world.ensure_tile((9, 9));
    assert!(world.is_generated((9, 9)));
}

#[test]
fn resetting_forgets_the_world() {
    let mut world = World::new();
    spawn_platforms(&mut world, Point::new(0, 0));
    assert!(world.is_generated((0, 0)));
    world.reset();
    assert!(!world.is_generated((0, 0)));
    assert!(world.platforms_of((0, 0)).is_none());
    assert!(world.trees_of((1, 1)).is_none());
    assert_eq!(world.platforms, World::new().platforms);
    assert!(world.trees.is_empty());
    assert!(world.apples.is_empty());
    assert!(world.clocks.is_empty());
}

fn rolls() -> Rolls {
    Rolls {
        stop: 1,
        kind: 0,
        platform_x: 123_000,
        platform_y: -45_000,
        clock: 3,
        tree_x: 321_000,
        tree_y: 12_000,
        apple: 1,
        family: 0,
        pass: [7; 8],
        platform_dx: -10_000,
        platform_dy: 200_000,
        tree_dx: 250_000,
        tree_dy: -300_000,
    }
}

fn platforms(count: usize) -> TileDraft {
    let mut tile = TileDraft::new((0, 0));
    assert!(tile.place(Placement::FirstPlatform { x: 300_000, y: 0, clock: false }));
    for _ in 1..count {
        assert!(tile.place(Placement::ExtendPlatform { from: 0, dx: 0, dy: 100_000 }));
    }
    tile
}

fn trees(count: usize) -> TileDraft {
    let mut tile = TileDraft::new((0, 0));
    assert!(tile.place(Placement::FirstTree { x: 300_000, y: 0, apple: false }));
    for _ in 1..count {
        assert!(tile.place(Placement::ExtendTree { from: 0, dx: 0, dy: 100_000 }));
    }
    tile
}

#[test]
fn the_rolls_choose_the_first_obstacle() {
    let empty = TileDraft::new((2, 2));
    assert_eq!(
        choose_placement(&empty, &rolls()),
        Placement::FirstPlatform { x: 123_000, y: -45_000, clock: false }
    );
    assert_eq!(
        choose_placement(&empty, &Rolls { clock: 0, ..rolls() }),
        Placement::FirstPlatform { x: 123_000, y: -45_000, clock: true }
    );
    assert_eq!(
        choose_placement(&empty, &Rolls { kind: 1, ..rolls() }),
        Placement::FirstTree { x: 321_000, y: 12_000, apple: false }
    );
    assert_eq!(
        choose_placement(&empty, &Rolls { kind: 1, apple: 0, ..rolls() }),
        Placement::FirstTree { x: 321_000, y: 12_000, apple: true }
    );
    // Neither the roll for stopping nor the one for the family matters yet.
    assert_eq!(
        choose_placement(&empty, &Rolls { stop: 0, family: 1, ..rolls() }),
        Placement::FirstPlatform { x: 123_000, y: -45_000, clock: false }
    );
}

#[test]
fn the_rolls_choose_whom_to_extend() {
    let tile = platforms(3);
    assert_eq!(
        choose_placement(&tile, &rolls()),
        Placement::ExtendPlatform { from: 0, dx: -10_000, dy: 200_000 }
    );
    // The first platform that is not passed over wins.
    let mut pass = [7; 8];
    pass[0] = 0;
    assert_eq!(
        choose_placement(&tile, &Rolls { pass, ..rolls() }),
        Placement::ExtendPlatform { from: 1, dx: -10_000, dy: 200_000 }
    );
    pass[1] = 0;
    assert_eq!(
        choose_placement(&tile, &Rolls { pass, ..rolls() }),
        Placement::ExtendPlatform { from: 2, dx: -10_000, dy: 200_000 }
    );
    // All passed over: nothing is placed, whatever the rolls beyond the platforms say.
    pass[2] = 0;
    assert_eq!(choose_placement(&tile, &Rolls { pass, ..rolls() }), Placement::Skip);
    // The other family has nobody to extend.
    assert_eq!(choose_placement(&tile, &Rolls { family: 1, ..rolls() }), Placement::Skip);
    let grove = trees(2);
    assert_eq!(
        choose_placement(&grove, &Rolls { family: 1, ..rolls() }),
        Placement::ExtendTree { from: 0, dx: 250_000, dy: -300_000 }
    );
    assert_eq!(choose_placement(&grove, &rolls()), Placement::Skip);
}

#[test]
fn the_rolls_stop_between_the_caps() {
    // Below the soft cap the roll for stopping does nothing.
    let stop = Rolls { stop: 0, ..rolls() };
    assert_eq!(
        choose_placement(&platforms(3), &stop),
        Placement::ExtendPlatform { from: 0, dx: -10_000, dy: 200_000 }
    );
    for count in 4..8 {
        assert_eq!(choose_placement(&platforms(count), &stop), Placement::Stop);
        assert_eq!(
            choose_placement(&platforms(count), &rolls()),
            Placement::ExtendPlatform { from: 0, dx: -10_000, dy: 200_000 }
        );
    }
    // At the hard cap the tile is complete whatever the rolls.
    assert_eq!(choose_placement(&platforms(8), &rolls()), Placement::Stop);
    assert_eq!(choose_placement(&trees(8), &Rolls { family: 1, ..rolls() }), Placement::Stop);
}

#[test]
fn forced_placements_complete_a_tile() {
    let mut pass = [0; 8];
    pass[7] = 1;
    let stubborn = Rolls { pass, family: 1, ..rolls() };
    assert_eq!(
        force_placement(&TileDraft::new((0, 0)), &stubborn),
        Placement::FirstPlatform { x: 123_000, y: -45_000, clock: false }
    );
    assert_eq!(
        force_placement(&platforms(1), &stubborn),
        Placement::ExtendPlatform { from: 0, dx: -10_000, dy: 200_000 }
    );
    assert_eq!(
        force_placement(&trees(3), &stubborn),
        Placement::ExtendTree { from: 0, dx: 250_000, dy: -300_000 }
    );
    assert_eq!(force_placement(&platforms(4), &stubborn), Placement::Stop);
    assert_eq!(force_placement(&trees(7), &stubborn), Placement::Stop);
    let mut tile = TileDraft::new((0, 0));
    let mut placements = 0;
    while !tile.done {
        let action = force_placement(&tile, &stubborn);
        assert!(tile.place(action));
        placements += 1;
    }
    assert_eq!(placements, 5);
    assert_eq!(tile.platforms.len(), 4);
}

#[test]
fn fresh_rolls_are_valid_and_vary() {
    let mut kinds = [false; 2];
    let mut stops = [false; 2];
    let mut families = [false; 2];
    let mut passed = false;
    let mut clock = false;
    for _ in 0..2_000 {
        let r = Rolls::sample();
        assert!(r.stop < 2 && r.kind < 2 && r.apple < 2 && r.family < 2 && r.clock < 16);
        assert!(r.pass.iter().all(|p| *p < 50));
        assert!((100_000..500_000).contains(&r.platform_x));
        assert!((-220_000..220_000).contains(&r.platform_y));
        assert!((50_000..550_000).contains(&r.tree_x));
        assert!((-50_000..50_000).contains(&r.tree_y));
        assert!((-150_000..150_000).contains(&r.platform_dx));
        assert!((-400_000..400_000).contains(&r.platform_dy));
        assert!((-300_000..300_000).contains(&r.tree_dx));
        assert!((-400_000..150_000).contains(&r.tree_dy));
        kinds[r.kind as usize] = true;
        stops[r.stop as usize] = true;
        families[r.family as usize] = true;
        passed |= r.pass.contains(&0);
        clock |= r.clock == 0;
    }
    assert!(kinds == [true; 2] && stops == [true; 2] && families == [true; 2]);
    assert!(passed && clock);
}

#[test]
fn the_rolls_fill_a_tile() {
    // Always extend, never stop before the hard cap: eight platforms in a chain
    // from the first one's lowest corner.
    let tile = fill_tile((1, 0), &vec![rolls(); 69]);
    assert!(tile.done);
    assert_eq!(tile.platforms.len(), 8);
    assert!(tile.trees.is_empty() && tile.apples.is_empty() && tile.clocks.is_empty());
    assert_eq!(tile.platforms[0].aabb, platform_box(723_000, -45_000));
    for k in 1..8 {
        // The lowest corner of the first platform is (673, -55) units.
        assert_eq!(tile.platforms[k].aabb, platform_box(663_000, 145_000));
    }
    // Stop as soon as the soft cap allows.
    let tile = fill_tile((1, 0), &vec![Rolls { stop: 0, ..rolls() }; 69]);
    assert!(tile.done);
    assert_eq!(tile.platforms.len(), 4);
    // A tree with an apple, and every first candidate passed over.
    let mut pass = [3; 8];
    pass[0] = 0;
    let grove = Rolls { kind: 1, apple: 0, family: 1, stop: 0, pass, ..rolls() };
    let tile = fill_tile((0, 0), &vec![grove; 69]);
    assert!(tile.done);
    assert_eq!(tile.trees.len(), 4);
    assert_eq!(tile.apples.len(), 1);
    assert_eq!(tile.trees[0].aabb, tree_box(321_000, 12_000));
    // The second tree extends the first, which alone is there; the first is passed
    // over, so nothing is placed until the attempts run out and placements are forced.
    assert_eq!(tile.trees[1].aabb, tree_box(296_000 + 250_000, -178_000 - 300_000));
}

#[test]
fn rolls_that_place_nothing_are_overruled_in_the_end() {
    // The family without members is picked every time: after the first platform
    // nothing is placed for all attempts at choosing, and four forced
    // placements and the stop complete the tile.
    let stubborn = vec![Rolls { family: 1, ..rolls() }; 69];
    let tile = fill_tile((0, 0), &stubborn);
    assert!(tile.done);
    assert_eq!(tile.platforms.len(), 4);
    // One roll short of the attempts at choosing, the tile is left as it stands.
    let tile = fill_tile((0, 0), &stubborn[..64].to_vec());
    assert!(!tile.done);
    assert_eq!(tile.platforms.len(), 1);
    let tile = fill_tile((0, 0), &stubborn[..66].to_vec());
    assert!(!tile.done);
    assert_eq!(tile.platforms.len(), 3);
    let tile = fill_tile((0, 0), &stubborn[..68].to_vec());
    assert!(tile.done);
    assert_eq!(tile.platforms.len(), 4);
    // Without rolls nothing is placed.
    let tile = fill_tile((0, 0), &Vec::new());
    assert!(!tile.done && tile.platforms.is_empty() && tile.trees.is_empty());
}
