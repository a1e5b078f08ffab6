//! The world: every obstacle and pickup generated so far, and the cache that
//! remembers which tiles have been generated.

use vstd::prelude::*;
use crate::cache::{
    no_tiles, tile_lists, tiles_clear, tiles_contains, tiles_get, tiles_insert, tiles_new,
    TileMap,
};
use crate::generator::{
    generate_tile, generated, generated_tiles_follow_the_rules, TILE_REACH,
};
use crate::geometry::{Aabb, Point};
use crate::obstacle::{Apple, Obstacle, ObstacleKind, TimeExtender};
use crate::placement::{
    box_around, box_within, laid_out, near_tile, TileKey, TileView, HARD_CAP,
    PLATFORM_HALF_HEIGHT,
    PLATFORM_HALF_WIDTH, SOFT_CAP, TILE_HEIGHT, TILE_WIDTH, TREE_HALF_HEIGHT, TREE_HALF_WIDTH,
};
use crate::units::{div_floor, floor_div, SPAN};

verus! {

/// How many tiles around the player's tile are kept generated, to each side.
pub const SPAWN_RADIUS: i32 = 2;

/// The platforms generated for each tile.
pub struct GeneratedPlatformObstacles(pub TileMap);

/// The trees generated for each tile.
pub struct GeneratedNonPlatformObstacles(pub TileMap);

/// The world of one session.
pub struct World {
    /// Cache of the platforms of each generated tile.
    pub platform_obstacle_tiles: GeneratedPlatformObstacles,
    /// Cache of the trees of each generated tile.
    pub non_platform_obstacle_tiles: GeneratedNonPlatformObstacles,
    /// Every platform in the world, oldest first.
    pub platforms: Vec<Obstacle>,
    /// Every tree in the world, oldest first.
    pub trees: Vec<Obstacle>,
    /// The apples that have not been collected, oldest first.
    pub apples: Vec<Apple>,
    /// The time extenders that have not been collected, oldest first.
    pub clocks: Vec<TimeExtender>,
}

/// What a world holds.
pub struct WorldView {
    pub platform_tiles: Map<TileKey, Seq<Obstacle>>,
    pub tree_tiles: Map<TileKey, Seq<Obstacle>>,
    pub platforms: Seq<Obstacle>,
    pub trees: Seq<Obstacle>,
    pub apples: Seq<Apple>,
    pub clocks: Seq<TimeExtender>,
}

/// Where the lists of a world began to grow during one round of generation:
/// what lies at or beyond these indices is new.
#[derive(Clone, Copy, Debug, PartialEq, Eq, Structural)]
pub struct Generated {
    pub platforms_from: usize,
    pub trees_from: usize,
    pub apples_from: usize,
    pub clocks_from: usize,
}

impl View for World {
    type V = WorldView;

    open spec fn view(&self) -> WorldView {
        WorldView {
            platform_tiles: tile_lists(self.platform_obstacle_tiles.0),
            tree_tiles: tile_lists(self.non_platform_obstacle_tiles.0),
            platforms: self.platforms@,
            trees: self.trees@,
            apples: self.apples@,
            clocks: self.clocks@,
        }
    }
}

/// The platform that every session starts above.
pub open spec fn starting_platform() -> Obstacle {
    Obstacle { aabb: box_around(0, -220_000, 150_000, 10_000), kind: ObstacleKind::Platform }
}

/// Whether tile `key` lies within `radius` tiles of `center` on both axes.
pub open spec fn in_region(key: TileKey, center: TileKey, radius: int) -> bool {
    &&& center.0 - radius <= key.0 <= center.0 + radius
    &&& center.1 - radius <= key.1 <= center.1 + radius
}

/// Whether `platforms` and `trees` are the obstacles of a tile of `key` that
/// the generator may have produced.
pub open spec fn tile_generated(key: TileKey, platforms: Seq<Obstacle>, trees: Seq<Obstacle>) -> bool {
    exists|tile: TileView|
        {
            &&& #[trigger] generated(tile)
            &&& tile.key == key
            &&& tile.platforms == platforms
            &&& tile.trees == trees
        }
}

impl WorldView {
    /// Whether tile `key` has been generated.
    pub open spec fn has(self, key: TileKey) -> bool {
        self.platform_tiles.contains_key(key)
    }

    /// A tile is in both caches or in neither, and every cached obstacle is
    /// in the world.
    pub open spec fn wf(self) -> bool {
        &&& forall|k: TileKey|
            self.platform_tiles.contains_key(k) == #[trigger] self.tree_tiles.contains_key(k)
        &&& all_listed(self.platform_tiles, self.platforms)
        &&& all_listed(self.tree_tiles, self.trees)
    }

    /// Whether every tile within `radius` of `center` has been generated.
    pub open spec fn covers(self, center: TileKey, radius: int) -> bool {
        forall|k: TileKey| in_region(k, center, radius) ==> #[trigger] self.has(k)
    }

    /// The world with the generated tile `tile` added: its obstacles are
    /// cached under its key, and its obstacles and pickups join the world.
    pub open spec fn with_tile(self, tile: TileView) -> WorldView {
        WorldView {
            platform_tiles: self.platform_tiles.insert(tile.key, tile.platforms),
            tree_tiles: self.tree_tiles.insert(tile.key, tile.trees),
            platforms: self.platforms + tile.platforms,
            trees: self.trees + tile.trees,
            apples: self.apples + tile.apples,
            clocks: self.clocks + tile.clocks,
        }
    }

    /// The world with the generated tiles of `tiles` added one after the other.
    pub open spec fn with_tiles(self, tiles: Seq<TileView>) -> WorldView
        decreases tiles.len(),
    {
        if tiles.len() == 0 {
            self
        } else {
            self.with_tiles(tiles.drop_last()).with_tile(tiles.last())
        }
    }

    /// Whether every platform of the world lies within `reach` of the origin.
    pub open spec fn platforms_within(self, reach: int) -> bool {
        forall|i: int|
            0 <= i < self.platforms.len() ==> box_within((#[trigger] self.platforms[i]).aabb, reach)
    }

    /// Whether the lists of the world are longer than those of `before` by
    /// no more than `tiles` tiles can hold: eight obstacles and one pickup each.
    pub open spec fn grown_within(self, before: WorldView, tiles: int) -> bool {
        &&& self.platforms.len() <= before.platforms.len() + HARD_CAP * tiles
        &&& self.trees.len() <= before.trees.len() + HARD_CAP * tiles
        &&& self.apples.len() <= before.apples.len() + tiles
        &&& self.clocks.len() <= before.clocks.len() + tiles
    }

    /// Whether tile `key` has been generated since `before`.
    pub open spec fn is_new(self, before: WorldView, key: TileKey) -> bool {
        self.has(key) && !before.has(key)
    }

    /// Whether `self` is `before` with new tiles generated, and no other change:
    /// the tiles that `before` had are untouched, each tile added is one
    /// that the generator may have produced, and the lists of the world have
    /// only grown at their ends.
    pub open spec fn extends(self, before: WorldView) -> bool {
        &&& forall|k: TileKey| #[trigger]
            before.has(k) ==> self.has(k) && self.platform_tiles[k] == before.platform_tiles[k]
                && self.tree_tiles[k] == before.tree_tiles[k]
        &&& forall|k: TileKey| #[trigger]
            self.is_new(before, k) ==> tile_generated(
                k,
                self.platform_tiles[k],
                self.tree_tiles[k],
            )
        &&& before.platforms.is_prefix_of(self.platforms)
        &&& before.trees.is_prefix_of(self.trees)
        &&& before.apples.is_prefix_of(self.apples)
        &&& before.clocks.is_prefix_of(self.clocks)
    }
}

/// A tile generated since `before` holds from four to eight obstacles, all
/// platforms or all trees, each of the size of its kind and lying as the
/// rules lay it out.
pub proof fn new_tiles_follow_the_rules(before: WorldView, after: WorldView, key: TileKey)
    requires
        after.extends(before),
        after.is_new(before, key),
    ensures
        ({
            let platforms = after.platform_tiles[key];
            let trees = after.tree_tiles[key];
            &&& SOFT_CAP <= platforms.len() + trees.len() <= HARD_CAP
            &&& platforms.len() == 0 || trees.len() == 0
            &&& laid_out(key, platforms, trees)
            &&& forall|i: int|
                0 <= i < platforms.len() ==> {
                    let p = #[trigger] platforms[i];
                    &&& p.kind == ObstacleKind::Platform
                    &&& p.aabb.width() == 2 * PLATFORM_HALF_WIDTH
                    &&& p.aabb.height() == 2 * PLATFORM_HALF_HEIGHT
                }
            &&& forall|i: int|
                0 <= i < trees.len() ==> {
                    let t = #[trigger] trees[i];
                    &&& t.kind == ObstacleKind::Tree
                    &&& t.aabb.width() == 2 * TREE_HALF_WIDTH
                    &&& t.aabb.height() == 2 * TREE_HALF_HEIGHT
                }
        }),
{
    let platforms = after.platform_tiles[key];
    let trees = after.tree_tiles[key];
    assert(tile_generated(key, platforms, trees));
    let tile = choose|tile: TileView|
        {
            &&& #[trigger] generated(tile)
            &&& tile.key == key
            &&& tile.platforms == platforms
            &&& tile.trees == trees
        };
    generated_tiles_follow_the_rules(tile);
}

/// Whether what is generated for tile `key` lies within `reach` of the origin.
pub open spec fn tile_within(key: TileKey, reach: int) -> bool {
    &&& TILE_REACH - reach <= key.0 * TILE_WIDTH <= reach - TILE_REACH
    &&& TILE_REACH - reach <= key.1 * TILE_HEIGHT <= reach - TILE_REACH
}

/// Whether what is generated for the region around `center` lies within
/// `reach` of the origin.
pub open spec fn region_within(center: TileKey, radius: int, reach: int) -> bool {
    &&& TILE_REACH - reach <= (center.0 - radius) * TILE_WIDTH
    &&& (center.0 + radius) * TILE_WIDTH <= reach - TILE_REACH
    &&& TILE_REACH - reach <= (center.1 - radius) * TILE_HEIGHT
    &&& (center.1 + radius) * TILE_HEIGHT <= reach - TILE_REACH
}

/// A tile of a region that lies within reach lies within reach.
pub proof fn region_holds_its_tiles(center: TileKey, radius: int, reach: int, key: TileKey)
    requires
        region_within(center, radius, reach),
        in_region(key, center, radius),
    ensures
        tile_within(key, reach),
{
    let w = TILE_WIDTH as int;
    let h = TILE_HEIGHT as int;
    assert((center.0 - radius) * w <= key.0 * w <= (center.0 + radius) * w) by (nonlinear_arith)
        requires
            center.0 - radius <= key.0 <= center.0 + radius,
            w > 0,
    ;
    assert((center.1 - radius) * h <= key.1 * h <= (center.1 + radius) * h) by (nonlinear_arith)
        requires
            center.1 - radius <= key.1 <= center.1 + radius,
            h > 0,
    ;
}

/// Adding a generated tile that lies within reach to a world whose
/// platforms lie within reach leaves them within reach.
pub proof fn with_tile_stays_within(before: WorldView, tile: TileView, reach: int)
    requires
        before.platforms_within(reach),
        generated(tile),
        tile_within(tile.key, reach),
    ensures
        before.with_tile(tile).platforms_within(reach),
{
    generated_tiles_follow_the_rules(tile);
    let after = before.with_tile(tile);
    assert forall|i: int| 0 <= i < after.platforms.len() implies box_within(
        (#[trigger] after.platforms[i]).aabb,
        reach,
    ) by {
        if i < before.platforms.len() {
            assert(after.platforms[i] == before.platforms[i]);
        } else {
            let j = i - before.platforms.len();
            assert(after.platforms[i] == tile.platforms[j]);
            assert(near_tile(tile.key, tile.platforms[j].aabb, TILE_REACH as int));
            assert(tile.platforms[j].aabb.width() == 2 * PLATFORM_HALF_WIDTH);
            assert(tile.platforms[j].aabb.height() == 2 * PLATFORM_HALF_HEIGHT);
        }
    }
}

/// Whether tile `first` is gone through before tile `second`: regions are
/// gone through column by column, each column from the bottom up.
pub open spec fn comes_before(first: TileKey, second: TileKey) -> bool {
    first.0 < second.0 || (first.0 == second.0 && first.1 < second.1)
}

/// Whether `tiles` are generated tiles for what column `column`, row `row`
/// and everything before them in the region around `center` lacked in
/// `before`: one tile for each tile that was missing, in the order in which
/// the region is gone through.
pub open spec fn fills(
    before: WorldView,
    tiles: Seq<TileView>,
    center: TileKey,
    radius: int,
    column: int,
    row: int,
) -> bool {
    &&& forall|i: int|
        0 <= i < tiles.len() ==> {
            let tile = #[trigger] tiles[i];
            &&& generated(tile)
            &&& visited(tile.key, center, radius, column, row)
            &&& !before.has(tile.key)
        }
    &&& forall|i: int, j: int|
        0 <= i < j < tiles.len() ==> comes_before((#[trigger] tiles[i]).key, (#[trigger] tiles[j]).key)
    &&& forall|k: TileKey| #[trigger]
        visited(k, center, radius, column, row) && !before.has(k) ==> exists|i: int|
            0 <= i < tiles.len() && (#[trigger] tiles[i]).key == k
}

/// Whether `after` is what ensuring the region around `center` makes of
/// `before`: the world with one generated tile added for each tile of the
/// region that was missing, in the order in which the region is gone
/// through; the world as it was if none was missing.
pub open spec fn generation_step(
    before: WorldView,
    after: WorldView,
    center: TileKey,
    radius: int,
) -> bool {
    &&& after.wf()
    &&& exists|tiles: Seq<TileView>|
        fills(before, tiles, center, radius, center.0 + radius + 1, center.1 - radius)
            && after == #[trigger] before.with_tiles(tiles)
    &&& after.extends(before)
    &&& forall|k: TileKey| #[trigger] after.has(k) <==> before.has(k) || in_region(k, center, radius)
    &&& after.grown_within(before, (2 * radius + 1) * (2 * radius + 1))
    &&& before.covers(center, radius) ==> after == before
    &&& forall|reach: int|
        before.platforms_within(reach) && region_within(center, radius, reach)
            ==> #[trigger] after.platforms_within(reach)
}

/// Generating a region twice is generating it once: the second round finds
/// every tile in place and changes nothing.
pub proof fn generation_is_idempotent(
    start: WorldView,
    once: WorldView,
    twice: WorldView,
    center: TileKey,
    radius: int,
)
    requires
        generation_step(start, once, center, radius),
        generation_step(once, twice, center, radius),
    ensures
        twice == once,
{
    assert forall|k: TileKey| in_region(k, center, radius) implies #[trigger] once.has(k) by {}
}

/// A generated tile is never generated again: whatever regions are ensured
/// later, its lists stay as they were.
pub proof fn generated_tiles_are_immutable(
    start: WorldView,
    once: WorldView,
    twice: WorldView,
    first: TileKey,
    second: TileKey,
    radius: int,
    key: TileKey,
)
    requires
        generation_step(start, once, first, radius),
        generation_step(once, twice, second, radius),
        once.has(key),
    ensures
        twice.has(key),
        twice.platform_tiles[key] == once.platform_tiles[key],
        twice.tree_tiles[key] == once.tree_tiles[key],
{
}

/// The tile that the point `p` lies in.
pub open spec fn tile_of(p: Point) -> TileKey {
    (
        floor_div(p.x as int, TILE_WIDTH as int) as i32,
        floor_div(p.y as int, TILE_HEIGHT as int) as i32,
    )
}

/// The tile of a point within the accepted magnitude lies less than three
/// hundred million tiles from the origin on each axis.
pub proof fn tile_of_is_bounded(p: Point)
    requires
        p.bounded(),
    ensures
        -300_000_000 < floor_div(p.x as int, TILE_WIDTH as int) < 300_000_000,
        -300_000_000 < floor_div(p.y as int, TILE_HEIGHT as int) < 300_000_000,
{
    vstd::arithmetic::div_mod::lemma_div_is_ordered(p.x as int, SPAN as int, TILE_WIDTH as int);
    vstd::arithmetic::div_mod::lemma_div_is_ordered(-SPAN, p.x as int, TILE_WIDTH as int);
    vstd::arithmetic::div_mod::lemma_div_is_ordered(p.y as int, SPAN as int, TILE_HEIGHT as int);
    vstd::arithmetic::div_mod::lemma_div_is_ordered(-SPAN, p.y as int, TILE_HEIGHT as int);
}

/// A point lies in its tile: at or beyond the tile's origin, by less than
/// the size of a tile.
pub proof fn point_lies_in_its_tile(p: Point)
    requires
        p.bounded(),
    ensures
        tile_of(p).0 * TILE_WIDTH <= p.x < tile_of(p).0 * TILE_WIDTH + TILE_WIDTH,
        tile_of(p).1 * TILE_HEIGHT <= p.y < tile_of(p).1 * TILE_HEIGHT + TILE_HEIGHT,
{
    tile_of_is_bounded(p);
    vstd::arithmetic::div_mod::lemma_fundamental_div_mod(p.x as int, TILE_WIDTH as int);
    vstd::arithmetic::div_mod::lemma_mod_bound(p.x as int, TILE_WIDTH as int);
    vstd::arithmetic::div_mod::lemma_fundamental_div_mod(p.y as int, TILE_HEIGHT as int);
    vstd::arithmetic::div_mod::lemma_mod_bound(p.y as int, TILE_HEIGHT as int);
    vstd::arithmetic::mul::lemma_mul_is_commutative(
        TILE_WIDTH as int,
        p.x as int / (TILE_WIDTH as int),
    );
    vstd::arithmetic::mul::lemma_mul_is_commutative(
        TILE_HEIGHT as int,
        p.y as int / (TILE_HEIGHT as int),
    );
}

/// Computes the tile that the point `p` lies in.
pub fn tile_at(p: Point) -> (key: TileKey)
    requires
        p.bounded(),
    ensures
        key == tile_of(p),
        key.0 == floor_div(p.x as int, TILE_WIDTH as int),
        key.1 == floor_div(p.y as int, TILE_HEIGHT as int),
{
    proof {
        tile_of_is_bounded(p);
    }
    let column = div_floor(p.x as i128, TILE_WIDTH as i128);
    let row = div_floor(p.y as i128, TILE_HEIGHT as i128);
    (column as i32, row as i32)
}

/// Keeps the neighborhood of the player generated: every tile within
/// [`SPAWN_RADIUS`] tiles of the one that `player` is in.
pub fn spawn_platforms(world: &mut World, player: Point) -> (new: Generated)
    requires
        old(world)@.wf(),
        player.bounded(),
    ensures
        generation_step(old(world)@, final(world)@, tile_of(player), SPAWN_RADIUS as int),
        new.platforms_from == old(world)@.platforms.len(),
        new.trees_from == old(world)@.trees.len(),
        new.apples_from == old(world)@.apples.len(),
        new.clocks_from == old(world)@.clocks.len(),
{
    let center = tile_at(player);
    proof {
        tile_of_is_bounded(player);
    }
    world.ensure_generated(center, SPAWN_RADIUS)
}

/// Extending a world twice extends it.
pub proof fn extends_is_transitive(first: WorldView, second: WorldView, third: WorldView)
    requires
        second.extends(first),
        third.extends(second),
    ensures
        third.extends(first),
{
    assert forall|k: TileKey| #[trigger] third.is_new(first, k) implies tile_generated(
        k,
        third.platform_tiles[k],
        third.tree_tiles[k],
    ) by {
        if second.has(k) {
            assert(second.is_new(first, k));
            assert(third.platform_tiles[k] == second.platform_tiles[k]);
        } else {
            assert(third.is_new(second, k));
        }
    }
}

/// Whether every obstacle of every list of `tiles` is in `list`.
pub open spec fn all_listed(tiles: Map<TileKey, Seq<Obstacle>>, list: Seq<Obstacle>) -> bool {
    forall|k: TileKey, i: int|
        tiles.contains_key(k) && 0 <= i < tiles[k].len() ==> list.contains(#[trigger] tiles[k][i])
}

/// Where every cached obstacle is listed, caching a new list and appending
/// it to the list keeps every cached obstacle listed.
pub proof fn cached_stay_listed(
    tiles: Map<TileKey, Seq<Obstacle>>,
    list: Seq<Obstacle>,
    key: TileKey,
    added: Seq<Obstacle>,
)
    requires
        all_listed(tiles, list),
        !tiles.contains_key(key),
    ensures
        all_listed(tiles.insert(key, added), list + added),
{
    let after = tiles.insert(key, added);
    let longer = list + added;
    assert forall|k: TileKey, i: int|
        after.contains_key(k) && 0 <= i < after[k].len() implies longer.contains(
        #[trigger] after[k][i],
    ) by {
        if k == key {
            assert(longer[list.len() + i] == added[i]);
        } else {
            let x = tiles[k][i];
            assert(list.contains(x));
            let j = choose|j: int| 0 <= j < list.len() && list[j] == x;
            assert(longer[j] == x);
        }
    }
}

/// Adding a generated tile that a world does not have extends the world.
pub proof fn with_tile_extends(before: WorldView, tile: TileView)
    requires
        before.wf(),
        !before.has(tile.key),
        generated(tile),
    ensures
        before.with_tile(tile).wf(),
        before.with_tile(tile).extends(before),
        before.with_tile(tile).grown_within(before, 1),
        forall|k: TileKey| #[trigger]
            before.with_tile(tile).has(k) <==> before.has(k) || k == tile.key,
{
    let after = before.with_tile(tile);
    let key = tile.key;
    generated_tiles_follow_the_rules(tile);
    assert(!before.tree_tiles.contains_key(key));
    assert(tile_generated(key, after.platform_tiles[key], after.tree_tiles[key]));
    assert(after.is_new(before, key));
    cached_stay_listed(before.platform_tiles, before.platforms, key, tile.platforms);
    cached_stay_listed(before.tree_tiles, before.trees, key, tile.trees);
}

/// Appends a copy of each element of `source` to `target`.
fn append_copies<T: Copy>(target: &mut Vec<T>, source: &Vec<T>)
    ensures
        final(target)@ == old(target)@ + source@,
{
    let mut i: usize = 0;
    while i < source.len()
        invariant
            i <= source.len(),
            target@ == old(target)@ + source@.take(i as int),
        decreases source.len() - i,
    {
        target.push(source[i]);
        assert(source@.take(i + 1) =~= source@.take(i as int).push(source@[i as int]));
        i += 1;
    }
    assert(source@.take(source.len() as int) =~= source@);
}

/// Whether `key` comes before column `column`, row `row` in the order in
/// which a region is gone through: column by column, each from the bottom up.
pub open spec fn visited(key: TileKey, center: TileKey, radius: int, column: int, row: int) -> bool {
    in_region(key, center, radius) && (key.0 < column || (key.0 == column && key.1 < row))
}

impl World {
    /// A world with nothing generated: only the starting platform.
    pub open spec fn initial() -> WorldView {
        WorldView {
            platform_tiles: no_tiles(),
            tree_tiles: no_tiles(),
            platforms: seq![starting_platform()],
            trees: Seq::empty(),
            apples: Seq::empty(),
            clocks: Seq::empty(),
        }
    }

    /// Creates the world of a new session.
    pub fn new() -> (world: World)
        ensures
            world@ == World::initial(),
            world@.wf(),
    {
        let mut platforms: Vec<Obstacle> = Vec::new();
        platforms.push(
            Obstacle {
                aabb: Aabb::new(Point { x: 0, y: -220_000 }, Point { x: 150_000, y: 10_000 }),
                kind: ObstacleKind::Platform,
            },
        );
        let world = World {
            platform_obstacle_tiles: GeneratedPlatformObstacles(tiles_new()),
            non_platform_obstacle_tiles: GeneratedNonPlatformObstacles(tiles_new()),
            platforms,
            trees: Vec::new(),
            apples: Vec::new(),
            clocks: Vec::new(),
        };
        assert(world@ =~= World::initial());
        world
    }

    /// Forgets everything generated and starts over with the starting platform.
    pub fn reset(&mut self)
        ensures
            final(self)@ == World::initial(),
            final(self)@.wf(),
    {
        tiles_clear(&mut self.platform_obstacle_tiles.0);
        tiles_clear(&mut self.non_platform_obstacle_tiles.0);
        self.platforms.clear();
        self.platforms.push(
            Obstacle {
                aabb: Aabb::new(Point { x: 0, y: -220_000 }, Point { x: 150_000, y: 10_000 }),
                kind: ObstacleKind::Platform,
            },
        );
        self.trees.clear();
        self.apples.clear();
        self.clocks.clear();
        assert(self@ =~= World::initial());
    }

    /// Whether tile `key` has been generated.
    pub fn is_generated(&self, key: TileKey) -> (present: bool)
        ensures
            present == self@.has(key),
    {
        tiles_contains(&self.platform_obstacle_tiles.0, key)
    }

    /// The platforms generated for tile `key`, if it has been generated.
    pub fn platforms_of(&self, key: TileKey) -> (list: Option<&Vec<Obstacle>>)
        ensures
            list.is_some() == self@.has(key),
            list.is_some() ==> list.unwrap()@ == self@.platform_tiles[key],
    {
        tiles_get(&self.platform_obstacle_tiles.0, key)
    }

    /// The trees generated for tile `key`, if it has been generated.
    pub fn trees_of(&self, key: TileKey) -> (list: Option<&Vec<Obstacle>>)
        ensures
            list.is_some() == self@.tree_tiles.contains_key(key),
            list.is_some() ==> list.unwrap()@ == self@.tree_tiles[key],
    {
        tiles_get(&self.non_platform_obstacle_tiles.0, key)
    }

    /// Makes sure that every tile within `radius` tiles of `center` has been
    /// generated: each tile of the region that is missing is generated and
    /// cached, column by column; tiles generated before are left as they are.
    /// Returns where the lists of the world began to grow.
    pub fn ensure_generated(&mut self, center: TileKey, radius: i32) -> (new: Generated)
        requires
            old(self)@.wf(),
            radius >= 0,
            i32::MIN <= center.0 - radius,
            center.0 + radius <= i32::MAX,
            i32::MIN <= center.1 - radius,
            center.1 + radius <= i32::MAX,
        ensures
            generation_step(old(self)@, final(self)@, center, radius as int),
            new.platforms_from == old(self)@.platforms.len(),
            new.trees_from == old(self)@.trees.len(),
            new.apples_from == old(self)@.apples.len(),
            new.clocks_from == old(self)@.clocks.len(),
    {
        let new = Generated {
            platforms_from: self.platforms.len(),
            trees_from: self.trees.len(),
            apples_from: self.apples.len(),
            clocks_from: self.clocks.len(),
        };
        let ghost before = self@;
        let ghost mut tiles: Seq<TileView> = Seq::empty();
        assert((2 * radius + 1) * 0 == 0);
        let first_column: i64 = center.0 as i64 - radius as i64;
        let last_column: i64 = center.0 as i64 + radius as i64;
        let first_row: i64 = center.1 as i64 - radius as i64;
        let last_row: i64 = center.1 as i64 + radius as i64;
        let mut column: i64 = first_column;
        while column <= last_column
            invariant
                first_column == center.0 - radius,
                last_column == center.0 + radius,
                first_row == center.1 - radius,
                last_row == center.1 + radius,
                radius >= 0,
                i32::MIN <= first_column <= column <= last_column + 1 <= i32::MAX + 1,
                i32::MIN <= first_row <= last_row <= i32::MAX,
                self@.wf(),
                self@.extends(before),
                self@ == before.with_tiles(tiles),
                fills(before, tiles, center, radius as int, column as int, first_row as int),
                forall|reach: int|
                    before.platforms_within(reach) && region_within(center, radius as int, reach)
                        ==> #[trigger] self@.platforms_within(reach),
                self@.grown_within(before, (2 * radius + 1) * (column - first_column)),
                forall|k: TileKey| #[trigger]
                    self@.has(k) <==> before.has(k) || visited(
                        k,
                        center,
                        radius as int,
                        column as int,
                        first_row as int,
                    ),
                (forall|k: TileKey| #[trigger]
                    visited(k, center, radius as int, column as int, first_row as int)
                        ==> before.has(k)) ==> self@ == before,
            decreases last_column + 1 - column,
        {
            let mut row: i64 = first_row;
            while row <= last_row
                invariant
                    first_column == center.0 - radius,
                    last_column == center.0 + radius,
                    first_row == center.1 - radius,
                    last_row == center.1 + radius,
                    radius >= 0,
                    i32::MIN <= first_column <= column <= last_column <= i32::MAX,
                    i32::MIN <= first_row <= row <= last_row + 1 <= i32::MAX + 1,
                    self@.wf(),
                    self@.extends(before),
                    self@ == before.with_tiles(tiles),
                    fills(before, tiles, center, radius as int, column as int, row as int),
                    forall|reach: int|
                        before.platforms_within(reach) && region_within(
                            center,
                            radius as int,
                            reach,
                        ) ==> #[trigger] self@.platforms_within(reach),
                    self@.grown_within(
                        before,
                        (2 * radius + 1) * (column - first_column) + (row - first_row),
                    ),
                    forall|k: TileKey| #[trigger]
                        self@.has(k) <==> before.has(k) || visited(
                            k,
                            center,
                            radius as int,
                            column as int,
                            row as int,
                        ),
                    (forall|k: TileKey| #[trigger]
                        visited(k, center, radius as int, column as int, row as int)
                            ==> before.has(k)) ==> self@ == before,
                decreases last_row + 1 - row,
            {
                let key: TileKey = (column as i32, row as i32);
                let ghost current = self@;
                self.ensure_tile(key);
                proof {
                    assert forall|reach: int|
                        before.platforms_within(reach) && region_within(
                            center,
                            radius as int,
                            reach,
                        ) implies #[trigger] self@.platforms_within(reach) by {
                        assert(current.platforms_within(reach));
                        region_holds_its_tiles(center, radius as int, reach, key);
                    }
                    let earlier = tiles;
                    if !current.has(key) {
                        let tile = choose|tile: TileView|
                            {
                                &&& #[trigger] generated(tile)
                                &&& tile.key == key
                                &&& self@ == current.with_tile(tile)
                            };
                        tiles = earlier.push(tile);
                        assert(tiles.drop_last() =~= earlier);
                        assert(tiles.last() == tile);
                        assert(!before.has(key));
                    }
                    assert(visited(key, center, radius as int, column as int, row + 1));
                    assert forall|i: int| 0 <= i < tiles.len() implies {
                        let tile = #[trigger] tiles[i];
                        &&& generated(tile)
                        &&& visited(tile.key, center, radius as int, column as int, row + 1)
                        &&& !before.has(tile.key)
                    } by {
                        if i < earlier.len() {
                            assert(tiles[i] == earlier[i]);
                        }
                    }
                    assert forall|i: int, j: int| 0 <= i < j < tiles.len() implies comes_before(
                        (#[trigger] tiles[i]).key,
                        (#[trigger] tiles[j]).key,
                    ) by {
                        assert(tiles[i] == earlier[i]);
                        if j < earlier.len() {
                            assert(tiles[j] == earlier[j]);
                        }
                    }
                    assert forall|k: TileKey| #[trigger]
                        visited(k, center, radius as int, column as int, row + 1) && !before.has(
                            k,
                        ) implies exists|i: int|
                        0 <= i < tiles.len() && (#[trigger] tiles[i]).key == k by {
                        if k == key {
                            assert(!current.has(key));
                            assert(tiles[tiles.len() - 1].key == k);
                        } else {
                            assert(visited(k, center, radius as int, column as int, row as int));
                            let i = choose|i: int|
                                0 <= i < earlier.len() && (#[trigger] earlier[i]).key == k;
                            assert(tiles[i] == earlier[i]);
                        }
                    }
                    extends_is_transitive(before, current, self@);
                    assert forall|k: TileKey| #[trigger]
                        self@.has(k) <==> before.has(k) || visited(
                            k,
                            center,
                            radius as int,
                            column as int,
                            row + 1,
                        ) by {
                        assert(current.has(k) <==> before.has(k) || visited(
                            k,
                            center,
                            radius as int,
                            column as int,
                            row as int,
                        ));
                        assert(visited(k, center, radius as int, column as int, row + 1)
                            <==> visited(k, center, radius as int, column as int, row as int)
                            || k == key);
                    }
                    if forall|k: TileKey| #[trigger]
                        visited(k, center, radius as int, column as int, row + 1) ==> before.has(
                            k,
                        ) {
                        assert forall|k: TileKey| #[trigger]
                            visited(
                                k,
                                center,
                                radius as int,
                                column as int,
                                row as int,
                            ) implies before.has(k) by {
                            assert(visited(k, center, radius as int, column as int, row + 1));
                        }
                        assert(visited(key, center, radius as int, column as int, row + 1));
                    }
                }
                row += 1;
            }
            proof {
                assert forall|k: TileKey|
                    visited(k, center, radius as int, column as int, row as int) == visited(
                        k,
                        center,
                        radius as int,
                        column + 1,
                        first_row as int,
                    ) by {}
                assert forall|i: int| 0 <= i < tiles.len() implies visited(
                    (#[trigger] tiles[i]).key,
                    center,
                    radius as int,
                    column + 1,
                    first_row as int,
                ) by {
                    assert(visited(tiles[i].key, center, radius as int, column as int, row as int));
                }
                assert forall|k: TileKey| #[trigger]
                    visited(k, center, radius as int, column + 1, first_row as int) && !before.has(
                        k,
                    ) implies exists|i: int|
                    0 <= i < tiles.len() && (#[trigger] tiles[i]).key == k by {
                    assert(visited(k, center, radius as int, column as int, row as int));
                }
                assert(fills(before, tiles, center, radius as int, column + 1, first_row as int));
                assert((2 * radius + 1) * (column - first_column) + (2 * radius + 1) == (2 * radius
                    + 1) * (column + 1 - first_column)) by (nonlinear_arith);
            }
            column += 1;
        }
        proof {
            assert(column - first_column == 2 * radius + 1);
            assert forall|k: TileKey|
                visited(k, center, radius as int, column as int, first_row as int) == in_region(
                    k,
                    center,
                    radius as int,
                ) by {}
            if before.covers(center, radius as int) {
                assert forall|k: TileKey| #[trigger]
                    visited(
                        k,
                        center,
                        radius as int,
                        column as int,
                        first_row as int,
                    ) implies before.has(k) by {}
            }
        }
        new
    }

    /// Generates tile `key` unless it has been generated before: a tile that
    /// is missing is generated, cached, and its obstacles and pickups join
    /// the world.
    pub fn ensure_tile(&mut self, key: TileKey)
        requires
            old(self)@.wf(),
        ensures
            final(self)@.wf(),
            final(self)@.extends(old(self)@),
            final(self)@.grown_within(old(self)@, 1),
            forall|k: TileKey| #[trigger] final(self)@.has(k) <==> old(self)@.has(k) || k == key,
            old(self)@.has(key) ==> final(self)@ == old(self)@,
            forall|reach: int|
                old(self)@.platforms_within(reach) && tile_within(key, reach)
                    ==> #[trigger] final(self)@.platforms_within(reach),
            !old(self)@.has(key) ==> exists|tile: TileView|
                {
                    &&& #[trigger] generated(tile)
                    &&& tile.key == key
                    &&& final(self)@ == old(self)@.with_tile(tile)
                },
    {
        if tiles_contains(&self.platform_obstacle_tiles.0, key) {
            return ;
        }
        if tiles_contains(&self.non_platform_obstacle_tiles.0, key) {
            assert(self@.tree_tiles.contains_key(key));
            return ;
        }
        let tile = generate_tile(key);
        let ghost made = tile@;
        append_copies(&mut self.platforms, &tile.platforms);
        append_copies(&mut self.trees, &tile.trees);
        append_copies(&mut self.apples, &tile.apples);
        append_copies(&mut self.clocks, &tile.clocks);
        tiles_insert(&mut self.platform_obstacle_tiles.0, key, tile.platforms);
        tiles_insert(&mut self.non_platform_obstacle_tiles.0, key, tile.trees);
        proof {
            assert(self@ =~= old(self)@.with_tile(made));
            with_tile_extends(old(self)@, made);
            assert forall|reach: int|
                old(self)@.platforms_within(reach) && tile_within(
                    key,
                    reach,
                ) implies #[trigger] self@.platforms_within(reach) by {
                with_tile_stays_within(old(self)@, made, reach);
            }
        }
    }
}

} // verus!
