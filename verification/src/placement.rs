//! The rules by which one tile of the world is filled with obstacles.
//!
//! A tile is filled by a sequence of placements. Each placement is allowed or
//! not by what the tile holds already; the rules are stated here once, for
//! the generator to follow and for anyone to check a tile against.

use vstd::prelude::*;
use crate::geometry::{Aabb, Point};
use crate::obstacle::{Apple, Obstacle, ObstacleKind, TimeExtender};

verus! {

/// A tile's column and row: the world position divided by the tile size, rounded down.
pub type TileKey = (i32, i32);

/// Width of a tile.
pub const TILE_WIDTH: i64 = 600_000;

/// Height of a tile.
pub const TILE_HEIGHT: i64 = 480_000;

/// Number of obstacles from which a tile may be declared complete.
pub const SOFT_CAP: usize = 4;

/// Number of obstacles at which a tile is complete.
pub const HARD_CAP: usize = 8;

/// Half the width of a platform.
pub const PLATFORM_HALF_WIDTH: i64 = 50_000;

/// Half the height of a platform.
pub const PLATFORM_HALF_HEIGHT: i64 = 10_000;

/// Half the width of a tree.
pub const TREE_HALF_WIDTH: i64 = 25_000;

/// Half the height of a tree.
pub const TREE_HALF_HEIGHT: i64 = 190_000;

/// Half the side of a pickup.
pub const PICKUP_HALF_SIZE: i64 = 8_000;

/// How far above its platform's center a time extender sits.
pub const CLOCK_RISE: i64 = 28_000;

/// How far above its tree's center an apple sits.
pub const APPLE_RISE: i64 = 198_000;

/// Largest magnitude of a tile's origin, with room for its first obstacle.
pub const ORIGIN_REACH: i64 = 0x8000_0000 * 600_000 + 1_000_000;

/// How much further from the origin each placement can reach.
pub const PLACEMENT_REACH: i64 = 1_000_000;

/// One step in filling a tile.
#[derive(Clone, Copy, Debug, PartialEq, Eq, Structural)]
pub enum Placement {
    /// Declares the tile complete.
    Stop,
    /// Places nothing.
    Skip,
    /// Places the first obstacle, a platform, at an offset from the tile's
    /// origin, with or without a time extender above it.
    FirstPlatform { x: i64, y: i64, clock: bool },
    /// Places the first obstacle, a tree, at an offset from the tile's
    /// origin, with or without an apple at its top.
    FirstTree { x: i64, y: i64, apple: bool },
    /// Places a platform at an offset from the lowest corner of platform `from`.
    ExtendPlatform { from: usize, dx: i64, dy: i64 },
    /// Places a tree at an offset from the lowest corner of tree `from`.
    ExtendTree { from: usize, dx: i64, dy: i64 },
}

/// What a tile holds while it is being filled.
pub struct TileView {
    pub key: TileKey,
    pub platforms: Seq<Obstacle>,
    pub trees: Seq<Obstacle>,
    pub apples: Seq<Apple>,
    pub clocks: Seq<TimeExtender>,
    /// Whether the tile has been declared complete.
    pub done: bool,
}

/// The box around `(x, y)` that reaches `half_width` and `half_height` to each side.
pub open spec fn box_around(x: int, y: int, half_width: int, half_height: int) -> Aabb {
    Aabb {
        min: Point { x: (x - half_width) as i64, y: (y - half_height) as i64 },
        max: Point { x: (x + half_width) as i64, y: (y + half_height) as i64 },
    }
}

/// The platform centered on `(x, y)`.
pub open spec fn platform_at(x: int, y: int) -> Obstacle {
    Obstacle {
        aabb: box_around(x, y, PLATFORM_HALF_WIDTH as int, PLATFORM_HALF_HEIGHT as int),
        kind: ObstacleKind::Platform,
    }
}

/// The tree centered on `(x, y)`.
pub open spec fn tree_at(x: int, y: int) -> Obstacle {
    Obstacle {
        aabb: box_around(x, y, TREE_HALF_WIDTH as int, TREE_HALF_HEIGHT as int),
        kind: ObstacleKind::Tree,
    }
}

/// The time extender that belongs to the platform centered on `(x, y)`.
pub open spec fn clock_above(x: int, y: int) -> TimeExtender {
    TimeExtender {
        aabb: box_around(x, y + CLOCK_RISE, PICKUP_HALF_SIZE as int, PICKUP_HALF_SIZE as int),
    }
}

/// The apple that belongs to the tree centered on `(x, y)`.
pub open spec fn apple_above(x: int, y: int) -> Apple {
    Apple { aabb: box_around(x, y + APPLE_RISE, PICKUP_HALF_SIZE as int, PICKUP_HALF_SIZE as int) }
}

/// The time extender that sits above `platform`.
pub open spec fn clock_of(platform: Obstacle) -> TimeExtender {
    clock_above(
        platform.aabb.min.x + PLATFORM_HALF_WIDTH,
        platform.aabb.min.y + PLATFORM_HALF_HEIGHT,
    )
}

/// The apple that sits at the top of `tree`.
pub open spec fn apple_of(tree: Obstacle) -> Apple {
    apple_above(tree.aabb.min.x + TREE_HALF_WIDTH, tree.aabb.min.y + TREE_HALF_HEIGHT)
}

/// Whether every corner coordinate of `aabb` has a magnitude of at most `reach`.
pub open spec fn box_within(aabb: Aabb, reach: int) -> bool {
    &&& -reach <= aabb.min.x <= reach
    &&& -reach <= aabb.min.y <= reach
    &&& -reach <= aabb.max.x <= reach
    &&& -reach <= aabb.max.y <= reach
}

impl TileView {
    /// The tile of `key` with nothing placed.
    pub open spec fn empty(key: TileKey) -> TileView {
        TileView {
            key,
            platforms: Seq::empty(),
            trees: Seq::empty(),
            apples: Seq::empty(),
            clocks: Seq::empty(),
            done: false,
        }
    }

    /// Number of obstacles placed.
    pub open spec fn count(self) -> int {
        (self.platforms.len() + self.trees.len()) as int
    }

    /// Abscissa of the tile's origin.
    pub open spec fn origin_x(self) -> int {
        self.key.0 * TILE_WIDTH
    }

    /// Ordinate of the tile's origin.
    pub open spec fn origin_y(self) -> int {
        self.key.1 * TILE_HEIGHT
    }

    /// How far from zero the obstacles placed so far can lie.
    pub open spec fn reach(self) -> int {
        ORIGIN_REACH + self.count() * PLACEMENT_REACH
    }

    /// No more obstacles than the hard cap, and none further out than the
    /// placements made can have carried it.
    pub open spec fn wf(self) -> bool {
        &&& self.count() <= HARD_CAP
        &&& forall|i: int|
            0 <= i < self.platforms.len() ==> box_within(
                (#[trigger] self.platforms[i]).aabb,
                self.reach(),
            )
        &&& forall|i: int|
            0 <= i < self.trees.len() ==> box_within((#[trigger] self.trees[i]).aabb, self.reach())
    }

    /// Whether the rules allow `action` on this tile.
    ///
    /// A complete tile allows nothing. Otherwise: the tile may be declared
    /// complete from the soft cap on, and nothing else is allowed at the hard
    /// cap; the first obstacle is a platform whose center lies from 100 to
    /// less than 500 units right of the tile's origin and from 220 below to
    /// less than 220 above its height, or a tree whose center lies from 50
    /// to less than 550 units right of the origin and from 50 below to less
    /// than 50 above its height; every later platform is centered from 150
    /// left to less than 150 right and from 400 below to less than 400 above
    /// an earlier platform's lowest corner, every later tree from 300 left
    /// to less than 300 right and from 400 below to less than 150 above an
    /// earlier tree's. Each range holds its lower end and not its upper.
    pub open spec fn allows(self, action: Placement) -> bool {
        !self.done && match action {
            Placement::Stop => self.count() >= SOFT_CAP,
            Placement::Skip => 0 < self.count() < HARD_CAP,
            Placement::FirstPlatform { x, y, clock } => {
                &&& self.count() == 0
                &&& 100_000 <= x < 500_000
                &&& -220_000 <= y < 220_000
            },
            Placement::FirstTree { x, y, apple } => {
                &&& self.count() == 0
                &&& 50_000 <= x < 550_000
                &&& -50_000 <= y < 50_000
            },
            Placement::ExtendPlatform { from, dx, dy } => {
                &&& 0 < self.count() < HARD_CAP
                &&& from < self.platforms.len()
                &&& -150_000 <= dx < 150_000
                &&& -400_000 <= dy < 400_000
            },
            Placement::ExtendTree { from, dx, dy } => {
                &&& 0 < self.count() < HARD_CAP
                &&& from < self.trees.len()
                &&& -300_000 <= dx < 300_000
                &&& -400_000 <= dy < 150_000
            },
        }
    }

    /// The tile after `action`.
    pub open spec fn placed(self, action: Placement) -> TileView {
        match action {
            Placement::Stop => TileView { done: true, ..self },
            Placement::Skip => self,
            Placement::FirstPlatform { x, y, clock } => {
                let cx = self.origin_x() + x;
                let cy = self.origin_y() + y;
                TileView {
                    platforms: self.platforms.push(platform_at(cx, cy)),
                    clocks: if clock {
                        self.clocks.push(clock_above(cx, cy))
                    } else {
                        self.clocks
                    },
                    ..self
                }
            },
            Placement::FirstTree { x, y, apple } => {
                let cx = self.origin_x() + x;
                let cy = self.origin_y() + y;
                TileView {
                    trees: self.trees.push(tree_at(cx, cy)),
                    apples: if apple {
                        self.apples.push(apple_above(cx, cy))
                    } else {
                        self.apples
                    },
                    ..self
                }
            },
            Placement::ExtendPlatform { from, dx, dy } => {
                let corner = self.platforms[from as int].aabb.min;
                TileView {
                    platforms: self.platforms.push(platform_at(corner.x + dx, corner.y + dy)),
                    ..self
                }
            },
            Placement::ExtendTree { from, dx, dy } => {
                let corner = self.trees[from as int].aabb.min;
                TileView { trees: self.trees.push(tree_at(corner.x + dx, corner.y + dy)), ..self }
            },
        }
    }
}

/// The tile of `key` after the placements of `actions`, in order.
pub open spec fn built(key: TileKey, actions: Seq<Placement>) -> TileView
    decreases actions.len(),
{
    if actions.len() == 0 {
        TileView::empty(key)
    } else {
        built(key, actions.drop_last()).placed(actions.last())
    }
}

/// Whether each placement of `actions` was allowed when it was made.
pub open spec fn lawful(key: TileKey, actions: Seq<Placement>) -> bool
    decreases actions.len(),
{
    actions.len() == 0 || (lawful(key, actions.drop_last()) && built(
        key,
        actions.drop_last(),
    ).allows(actions.last()))
}

/// An allowed placement keeps a tile well formed, adds at most one obstacle,
/// and leaves what was placed before where it was.
pub proof fn placed_keeps_wf(tile: TileView, action: Placement)
    requires
        tile.wf(),
        tile.allows(action),
    ensures
        tile.placed(action).wf(),
        tile.placed(action).key == tile.key,
        tile.count() <= tile.placed(action).count() <= tile.count() + 1,
        tile.placed(action).done ==> tile.count() >= SOFT_CAP,
        tile.platforms.is_prefix_of(tile.placed(action).platforms),
        tile.trees.is_prefix_of(tile.placed(action).trees),
{
    let after = tile.placed(action);
    match action {
        Placement::ExtendPlatform { from, dx, dy } => {
            assert(box_within(tile.platforms[from as int].aabb, tile.reach()));
        },
        Placement::ExtendTree { from, dx, dy } => {
            assert(box_within(tile.trees[from as int].aabb, tile.reach()));
        },
        _ => {},
    }
    assert forall|i: int| 0 <= i < after.platforms.len() implies box_within(
        (#[trigger] after.platforms[i]).aabb,
        after.reach(),
    ) by {
        if i < tile.platforms.len() {
            assert(box_within(tile.platforms[i].aabb, tile.reach()));
        }
    }
    assert forall|i: int| 0 <= i < after.trees.len() implies box_within(
        (#[trigger] after.trees[i]).aabb,
        after.reach(),
    ) by {
        if i < tile.trees.len() {
            assert(box_within(tile.trees[i].aabb, tile.reach()));
        }
    }
}

/// A tile built by lawful placements is well formed, holds at most as many
/// obstacles as the hard cap, and is complete only from the soft cap on.
pub proof fn lawful_tiles_are_wf(key: TileKey, actions: Seq<Placement>)
    requires
        lawful(key, actions),
    ensures
        built(key, actions).wf(),
        built(key, actions).key == key,
        built(key, actions).count() <= HARD_CAP,
        built(key, actions).count() <= actions.len(),
        built(key, actions).done ==> built(key, actions).count() >= SOFT_CAP,
    decreases actions.len(),
{
    if actions.len() > 0 {
        lawful_tiles_are_wf(key, actions.drop_last());
        placed_keeps_wf(built(key, actions.drop_last()), actions.last());
    }
}

/// What holds of the kinds and pickups of a tile built by lawful placements:
/// it holds platforms or trees, never both, since each kind grows from its
/// own; every platform has the size of a platform and every tree that of a
/// tree; and it holds at most one pickup, which sits on its first obstacle.
pub proof fn lawful_tiles_are_of_one_kind(key: TileKey, actions: Seq<Placement>)
    requires
        lawful(key, actions),
    ensures
        ({
            let tile = built(key, actions);
            &&& tile.platforms.len() == 0 || tile.trees.len() == 0
            &&& tile.apples.len() + tile.clocks.len() <= 1
            &&& tile.apples.len() == 1 ==> tile.trees.len() >= 1 && tile.apples[0] == apple_of(
                tile.trees[0],
            )
            &&& tile.clocks.len() == 1 ==> tile.platforms.len() >= 1 && tile.clocks[0] == clock_of(
                tile.platforms[0],
            )
            &&& forall|i: int|
                0 <= i < tile.platforms.len() ==> {
                    let p = #[trigger] tile.platforms[i];
                    &&& p.kind == ObstacleKind::Platform
                    &&& p.aabb.width() == 2 * PLATFORM_HALF_WIDTH
                    &&& p.aabb.height() == 2 * PLATFORM_HALF_HEIGHT
                }
            &&& forall|i: int|
                0 <= i < tile.trees.len() ==> {
                    let t = #[trigger] tile.trees[i];
                    &&& t.kind == ObstacleKind::Tree
                    &&& t.aabb.width() == 2 * TREE_HALF_WIDTH
                    &&& t.aabb.height() == 2 * TREE_HALF_HEIGHT
                }
        }),
    decreases actions.len(),
{
    if actions.len() > 0 {
        let before = built(key, actions.drop_last());
        let action = actions.last();
        lawful_tiles_are_of_one_kind(key, actions.drop_last());
        lawful_tiles_are_wf(key, actions.drop_last());
        placed_keeps_wf(before, action);
        let after = before.placed(action);
        match action {
            Placement::ExtendPlatform { from, dx, dy } => {
                assert(box_within(before.platforms[from as int].aabb, before.reach()));
            },
            Placement::ExtendTree { from, dx, dy } => {
                assert(box_within(before.trees[from as int].aabb, before.reach()));
            },
            _ => {},
        }
        assert forall|i: int| 0 <= i < after.platforms.len() implies {
            let p = #[trigger] after.platforms[i];
            &&& p.kind == ObstacleKind::Platform
            &&& p.aabb.width() == 2 * PLATFORM_HALF_WIDTH
            &&& p.aabb.height() == 2 * PLATFORM_HALF_HEIGHT
        } by {
            if i < before.platforms.len() {
                assert(after.platforms[i] == before.platforms[i]);
            }
        }
        assert forall|i: int| 0 <= i < after.trees.len() implies {
            let t = #[trigger] after.trees[i];
            &&& t.kind == ObstacleKind::Tree
            &&& t.aabb.width() == 2 * TREE_HALF_WIDTH
            &&& t.aabb.height() == 2 * TREE_HALF_HEIGHT
        } by {
            if i < before.trees.len() {
                assert(after.trees[i] == before.trees[i]);
            }
        }
    }
}

/// Whether `platforms` and `trees` lie as the rules lay out the obstacles
/// of tile `key`: the first platform or tree within its range from the
/// tile's origin, and the center of every later one within its window from
/// the lowest corner of an earlier one of its kind.
pub open spec fn laid_out(key: TileKey, platforms: Seq<Obstacle>, trees: Seq<Obstacle>) -> bool {
    let origin_x = key.0 * TILE_WIDTH;
    let origin_y = key.1 * TILE_HEIGHT;
    &&& platforms.len() > 0 ==> {
        let x = platforms[0].aabb.min.x + PLATFORM_HALF_WIDTH - origin_x;
        let y = platforms[0].aabb.min.y + PLATFORM_HALF_HEIGHT - origin_y;
        100_000 <= x < 500_000 && -220_000 <= y < 220_000
    }
    &&& trees.len() > 0 ==> {
        let x = trees[0].aabb.min.x + TREE_HALF_WIDTH - origin_x;
        let y = trees[0].aabb.min.y + TREE_HALF_HEIGHT - origin_y;
        50_000 <= x < 550_000 && -50_000 <= y < 50_000
    }
    &&& forall|k: int|
        1 <= k < platforms.len() ==> #[trigger] extends_platform(platforms, k)
    &&& forall|k: int| 1 <= k < trees.len() ==> #[trigger] extends_tree(trees, k)
}

/// Whether platform `k` is centered within the window of an earlier platform's lowest corner.
pub open spec fn extends_platform(platforms: Seq<Obstacle>, k: int) -> bool {
    exists|m: int|
        0 <= m < k && {
            let corner = (#[trigger] platforms[m]).aabb.min;
            let dx = platforms[k].aabb.min.x + PLATFORM_HALF_WIDTH - corner.x;
            let dy = platforms[k].aabb.min.y + PLATFORM_HALF_HEIGHT - corner.y;
            -150_000 <= dx < 150_000 && -400_000 <= dy < 400_000
        }
}

/// Whether tree `k` is centered within the window of an earlier tree's lowest corner.
pub open spec fn extends_tree(trees: Seq<Obstacle>, k: int) -> bool {
    exists|m: int|
        0 <= m < k && {
            let corner = (#[trigger] trees[m]).aabb.min;
            let dx = trees[k].aabb.min.x + TREE_HALF_WIDTH - corner.x;
            let dy = trees[k].aabb.min.y + TREE_HALF_HEIGHT - corner.y;
            -300_000 <= dx < 300_000 && -400_000 <= dy < 150_000
        }
}

/// Whether `aabb` lies within `slack` of the origin of tile `key` on both axes.
pub open spec fn near_tile(key: TileKey, aabb: Aabb, slack: int) -> bool {
    let origin_x = key.0 * TILE_WIDTH;
    let origin_y = key.1 * TILE_HEIGHT;
    &&& origin_x - slack <= aabb.min.x
    &&& aabb.max.x <= origin_x + slack
    &&& origin_y - slack <= aabb.min.y
    &&& aabb.max.y <= origin_y + slack
}

/// Platforms that are laid out by the rules stay near their tile: the
/// first within a thousand units of its origin, and each later one within a
/// thousand units more.
pub proof fn laid_out_platforms_are_near(
    key: TileKey,
    platforms: Seq<Obstacle>,
    trees: Seq<Obstacle>,
    k: int,
)
    requires
        laid_out(key, platforms, trees),
        forall|i: int|
            0 <= i < platforms.len() ==> (#[trigger] platforms[i]).aabb.width() == 2
                * PLATFORM_HALF_WIDTH && platforms[i].aabb.height() == 2 * PLATFORM_HALF_HEIGHT,
        0 <= k < platforms.len(),
    ensures
        near_tile(key, platforms[k].aabb, PLACEMENT_REACH * (k + 1)),
    decreases k,
{
    assert(platforms[k].aabb.width() == 2 * PLATFORM_HALF_WIDTH);
    if k > 0 {
        assert(extends_platform(platforms, k));
        let m = choose|m: int|
            0 <= m < k && {
                let corner = (#[trigger] platforms[m]).aabb.min;
                let dx = platforms[k].aabb.min.x + PLATFORM_HALF_WIDTH - corner.x;
                let dy = platforms[k].aabb.min.y + PLATFORM_HALF_HEIGHT - corner.y;
                -150_000 <= dx < 150_000 && -400_000 <= dy < 400_000
            };
        laid_out_platforms_are_near(key, platforms, trees, m);
        assert(platforms[m].aabb.width() == 2 * PLATFORM_HALF_WIDTH);
        assert(PLACEMENT_REACH * (m + 1) <= PLACEMENT_REACH * k) by (nonlinear_arith)
            requires
                m + 1 <= k,
                PLACEMENT_REACH > 0,
        ;
        assert(PLACEMENT_REACH * (k + 1) == PLACEMENT_REACH * k + PLACEMENT_REACH)
            by (nonlinear_arith);
    } else {
        assert(PLACEMENT_REACH * (0 + 1) == PLACEMENT_REACH) by (nonlinear_arith);
    }
}

/// The obstacles of a tile built by lawful placements lie as the rules lay
/// them out.
pub proof fn lawful_tiles_are_laid_out(key: TileKey, actions: Seq<Placement>)
    requires
        lawful(key, actions),
    ensures
        laid_out(key, built(key, actions).platforms, built(key, actions).trees),
    decreases actions.len(),
{
    if actions.len() > 0 {
        let before = built(key, actions.drop_last());
        let action = actions.last();
        lawful_tiles_are_laid_out(key, actions.drop_last());
        lawful_tiles_are_wf(key, actions.drop_last());
        placed_keeps_wf(before, action);
        let after = before.placed(action);
        match action {
            Placement::ExtendPlatform { from, dx, dy } => {
                assert(box_within(before.platforms[from as int].aabb, before.reach()));
            },
            Placement::ExtendTree { from, dx, dy } => {
                assert(box_within(before.trees[from as int].aabb, before.reach()));
            },
            _ => {},
        }
        assert forall|k: int| 1 <= k < after.platforms.len() implies #[trigger] extends_platform(
            after.platforms,
            k,
        ) by {
            if k < before.platforms.len() {
                assert(extends_platform(before.platforms, k));
                let m = choose|m: int|
                    0 <= m < k && {
                        let corner = (#[trigger] before.platforms[m]).aabb.min;
                        let dx = before.platforms[k].aabb.min.x + PLATFORM_HALF_WIDTH - corner.x;
                        let dy = before.platforms[k].aabb.min.y + PLATFORM_HALF_HEIGHT - corner.y;
                        -150_000 <= dx < 150_000 && -400_000 <= dy < 400_000
                    };
                assert(after.platforms[m] == before.platforms[m]);
                assert(after.platforms[k] == before.platforms[k]);
            } else {
                match action {
                    Placement::ExtendPlatform { from, dx, dy } => {
                        assert(after.platforms[from as int] == before.platforms[from as int]);
                    },
                    _ => {},
                }
            }
        }
        assert forall|k: int| 1 <= k < after.trees.len() implies #[trigger] extends_tree(
            after.trees,
            k,
        ) by {
            if k < before.trees.len() {
                assert(extends_tree(before.trees, k));
                let m = choose|m: int|
                    0 <= m < k && {
                        let corner = (#[trigger] before.trees[m]).aabb.min;
                        let dx = before.trees[k].aabb.min.x + TREE_HALF_WIDTH - corner.x;
                        let dy = before.trees[k].aabb.min.y + TREE_HALF_HEIGHT - corner.y;
                        -300_000 <= dx < 300_000 && -400_000 <= dy < 150_000
                    };
                assert(after.trees[m] == before.trees[m]);
                assert(after.trees[k] == before.trees[k]);
            } else {
                match action {
                    Placement::ExtendTree { from, dx, dy } => {
                        assert(after.trees[from as int] == before.trees[from as int]);
                    },
                    _ => {},
                }
            }
        }
        if before.platforms.len() > 0 {
            assert(after.platforms[0] == before.platforms[0]);
        }
        if before.trees.len() > 0 {
            assert(after.trees[0] == before.trees[0]);
        }
    }
}

} // verus!
