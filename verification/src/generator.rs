//! Filling a tile: the draft that placements act on, and the random
//! generator that fills a draft according to the placement rules.

use vstd::prelude::*;
use crate::geometry::{Aabb, Point};
use crate::obstacle::{Apple, Obstacle, ObstacleKind, TimeExtender};
use crate::placement::{
    apple_of, box_around, box_within, built, clock_of, laid_out, laid_out_platforms_are_near,
    lawful, lawful_tiles_are_laid_out, lawful_tiles_are_of_one_kind, lawful_tiles_are_wf,
    near_tile, placed_keeps_wf, Placement, TileKey, TileView, APPLE_RISE, CLOCK_RISE, HARD_CAP,
    PICKUP_HALF_SIZE, PLACEMENT_REACH, PLATFORM_HALF_HEIGHT, PLATFORM_HALF_WIDTH, SOFT_CAP,
    TILE_HEIGHT, TILE_WIDTH, TREE_HALF_HEIGHT, TREE_HALF_WIDTH,
};
use crate::random::{random_range, roll};

verus! {

/// How far from the origin of its tile a generated platform can reach.
pub const TILE_REACH: i64 = 8_000_000;

/// Attempts at choosing a placement that the generator makes on one tile
/// before it forces placements.
pub const PLACEMENT_ATTEMPTS: usize = 64;

/// Forced placements that complete any tile: four obstacles and the stop.
pub const FORCED_PLACEMENTS: usize = 5;

/// A tile that is being filled.
#[derive(Debug)]
pub struct TileDraft {
    pub key: TileKey,
    pub platforms: Vec<Obstacle>,
    pub trees: Vec<Obstacle>,
    pub apples: Vec<Apple>,
    pub clocks: Vec<TimeExtender>,
    /// Whether the tile has been declared complete.
    pub done: bool,
}

impl View for TileDraft {
    type V = TileView;

    open spec fn view(&self) -> TileView {
        TileView {
            key: self.key,
            platforms: self.platforms@,
            trees: self.trees@,
            apples: self.apples@,
            clocks: self.clocks@,
            done: self.done,
        }
    }
}

/// Builds the box around `(x, y)` that reaches `half_width` and `half_height` to each side.
fn make_box(x: i64, y: i64, half_width: i64, half_height: i64) -> (b: Aabb)
    requires
        -0x4000_0000_0000_0000 <= x <= 0x4000_0000_0000_0000,
        -0x4000_0000_0000_0000 <= y <= 0x4000_0000_0000_0000,
        0 <= half_width <= 1_000_000,
        0 <= half_height <= 1_000_000,
    ensures
        b == box_around(x as int, y as int, half_width as int, half_height as int),
{
    Aabb::new(Point { x, y }, Point { x: half_width, y: half_height })
}

impl TileDraft {
    /// Starts a tile with nothing placed.
    pub fn new(key: TileKey) -> (tile: TileDraft)
        ensures
            tile@ == TileView::empty(key),
            tile@.wf(),
    {
        TileDraft {
            key,
            platforms: Vec::new(),
            trees: Vec::new(),
            apples: Vec::new(),
            clocks: Vec::new(),
            done: false,
        }
    }

    /// Tests at run time whether the rules allow `action`.
    pub fn allows(&self, action: &Placement) -> (ok: bool)
        requires
            self@.wf(),
        ensures
            ok == self@.allows(*action),
    {
        let count = self.platforms.len() + self.trees.len();
        !self.done && match *action {
            Placement::Stop => count >= SOFT_CAP,
            Placement::Skip => 0 < count && count < HARD_CAP,
            Placement::FirstPlatform { x, y, clock } => count == 0 && 100_000 <= x && x < 500_000
                && -220_000 <= y && y < 220_000,
            Placement::FirstTree { x, y, apple } => count == 0 && 50_000 <= x && x < 550_000
                && -50_000 <= y && y < 50_000,
            Placement::ExtendPlatform { from, dx, dy } => 0 < count && count < HARD_CAP && from
                < self.platforms.len() && -150_000 <= dx && dx < 150_000 && -400_000 <= dy && dy
                < 400_000,
            Placement::ExtendTree { from, dx, dy } => 0 < count && count < HARD_CAP && from
                < self.trees.len() && -300_000 <= dx && dx < 300_000 && -400_000 <= dy && dy
                < 150_000,
        }
    }

    /// Makes the placement `action` if the rules allow it, and says whether they did.
    pub fn place(&mut self, action: Placement) -> (ok: bool)
        requires
            old(self)@.wf(),
        ensures
            ok == old(self)@.allows(action),
            ok ==> final(self)@ == old(self)@.placed(action),
            !ok ==> final(self)@ == old(self)@,
            final(self)@.wf(),
    {
        if !self.allows(&action) {
            return false;
        }
        proof {
            placed_keeps_wf(self@, action);
        }
        let origin_x: i64 = self.key.0 as i64 * TILE_WIDTH;
        let origin_y: i64 = self.key.1 as i64 * TILE_HEIGHT;
        match action {
            Placement::Stop => {
                self.done = true;
            },
            Placement::Skip => {},
            Placement::FirstPlatform { x, y, clock } => {
                let cx = origin_x + x;
                let cy = origin_y + y;
                self.platforms.push(
                    Obstacle {
                        aabb: make_box(cx, cy, PLATFORM_HALF_WIDTH, PLATFORM_HALF_HEIGHT),
                        kind: ObstacleKind::Platform,
                    },
                );
                if clock {
                    self.clocks.push(
                        TimeExtender {
                            aabb: make_box(cx, cy + CLOCK_RISE, PICKUP_HALF_SIZE, PICKUP_HALF_SIZE),
                        },
                    );
                }
            },
            Placement::FirstTree { x, y, apple } => {
                let cx = origin_x + x;
                let cy = origin_y + y;
                self.trees.push(
                    Obstacle {
                        aabb: make_box(cx, cy, TREE_HALF_WIDTH, TREE_HALF_HEIGHT),
                        kind: ObstacleKind::Tree,
                    },
                );
                if apple {
                    self.apples.push(
                        Apple {
                            aabb: make_box(cx, cy + APPLE_RISE, PICKUP_HALF_SIZE, PICKUP_HALF_SIZE),
                        },
                    );
                }
            },
            Placement::ExtendPlatform { from, dx, dy } => {
                let corner = self.platforms[from].aabb.min;
                assert(box_within(self@.platforms[from as int].aabb, self@.reach()));
                self.platforms.push(
                    Obstacle {
                        aabb: make_box(
                            corner.x + dx,
                            corner.y + dy,
                            PLATFORM_HALF_WIDTH,
                            PLATFORM_HALF_HEIGHT,
                        ),
                        kind: ObstacleKind::Platform,
                    },
                );
            },
            Placement::ExtendTree { from, dx, dy } => {
                let corner = self.trees[from].aabb.min;
                assert(box_within(self@.trees[from as int].aabb, self@.reach()));
                self.trees.push(
                    Obstacle {
                        aabb: make_box(
                            corner.x + dx,
                            corner.y + dy,
                            TREE_HALF_WIDTH,
                            TREE_HALF_HEIGHT,
                        ),
                        kind: ObstacleKind::Tree,
                    },
                );
            },
        }
        assert(self@ =~= old(self)@.placed(action));
        true
    }
}

/// The rolls that one placement may consume.
#[derive(Clone, Copy, Debug, PartialEq, Eq)]
pub struct Rolls {
    /// Zero declares a tile complete that has reached the soft cap.
    pub stop: u32,
    /// Zero makes the first obstacle a platform, anything else a tree.
    pub kind: u32,
    /// Offset of a first platform from the tile's origin.
    pub platform_x: i64,
    pub platform_y: i64,
    /// Zero puts a time extender above a first platform.
    pub clock: u32,
    /// Offset of a first tree from the tile's origin.
    pub tree_x: i64,
    pub tree_y: i64,
    /// Zero puts an apple at the top of a first tree.
    pub apple: u32,
    /// Zero extends the platforms, anything else the trees.
    pub family: u32,
    /// One roll for each obstacle that may be extended; zero passes it over.
    pub pass: [u32; 8],
    /// Offset of a new platform from the lowest corner of the one it extends.
    pub platform_dx: i64,
    pub platform_dy: i64,
    /// Offset of a new tree from the lowest corner of the one it extends.
    pub tree_dx: i64,
    pub tree_dy: i64,
}

/// The first of the candidates from `from` on that is not passed over, or
/// `candidates` if all are.
pub open spec fn first_kept(pass: Seq<u32>, from: int, candidates: int) -> int
    decreases candidates - from,
{
    if from >= candidates {
        candidates
    } else if pass[from] != 0 {
        from
    } else {
        first_kept(pass, from + 1, candidates)
    }
}

/// The first obstacle that the rolls give a tile: a platform or a tree by
/// the roll for the kind, each at its rolled offset, a platform with a time
/// extender and a tree with an apple where the roll for the pickup is zero.
pub open spec fn first_placement(rolls: Rolls) -> Placement {
    if rolls.kind == 0 {
        Placement::FirstPlatform {
            x: rolls.platform_x,
            y: rolls.platform_y,
            clock: rolls.clock == 0,
        }
    } else {
        Placement::FirstTree { x: rolls.tree_x, y: rolls.tree_y, apple: rolls.apple == 0 }
    }
}

/// The placement that the rolls choose for a tile.
///
/// At the hard cap the tile is declared complete, and from the soft cap on
/// where the roll for stopping is zero. An empty tile gets its first
/// obstacle. Otherwise the roll for the family picks platforms or trees, and
/// the obstacles of that kind are gone through in order: each whose roll is
/// zero is passed over, and the first that is not is extended by the rolled
/// offset; if all are passed over, or there is none, nothing is placed.
pub open spec fn chosen(tile: TileView, rolls: Rolls) -> Placement {
    if tile.count() >= HARD_CAP {
        Placement::Stop
    } else if tile.count() >= SOFT_CAP && rolls.stop == 0 {
        Placement::Stop
    } else if tile.count() == 0 {
        first_placement(rolls)
    } else if rolls.family == 0 {
        let from = first_kept(rolls.pass@, 0, tile.platforms.len() as int);
        if from < tile.platforms.len() {
            Placement::ExtendPlatform {
                from: from as usize,
                dx: rolls.platform_dx,
                dy: rolls.platform_dy,
            }
        } else {
            Placement::Skip
        }
    } else {
        let from = first_kept(rolls.pass@, 0, tile.trees.len() as int);
        if from < tile.trees.len() {
            Placement::ExtendTree { from: from as usize, dx: rolls.tree_dx, dy: rolls.tree_dy }
        } else {
            Placement::Skip
        }
    }
}

/// The placement that completes a tile once the attempts at choosing have
/// run out: below the soft cap the first obstacle of the tile is extended by
/// the rolled offset, none being passed over any more, and at the soft cap
/// the tile is declared complete.
pub open spec fn forced(tile: TileView, rolls: Rolls) -> Placement {
    if tile.count() >= SOFT_CAP {
        Placement::Stop
    } else if tile.count() == 0 {
        first_placement(rolls)
    } else if tile.platforms.len() > 0 {
        Placement::ExtendPlatform { from: 0, dx: rolls.platform_dx, dy: rolls.platform_dy }
    } else {
        Placement::ExtendTree { from: 0, dx: rolls.tree_dx, dy: rolls.tree_dy }
    }
}

impl Rolls {
    /// Each roll lies in the range that it is drawn from.
    pub open spec fn valid(self) -> bool {
        &&& self.stop < 2
        &&& self.kind < 2
        &&& 100_000 <= self.platform_x < 500_000
        &&& -220_000 <= self.platform_y < 220_000
        &&& self.clock < 16
        &&& 50_000 <= self.tree_x < 550_000
        &&& -50_000 <= self.tree_y < 50_000
        &&& self.apple < 2
        &&& self.family < 2
        &&& forall|i: int| 0 <= i < 8 ==> (#[trigger] self.pass@[i]) < 50
        &&& -150_000 <= self.platform_dx < 150_000
        &&& -400_000 <= self.platform_dy < 400_000
        &&& -300_000 <= self.tree_dx < 300_000
        &&& -400_000 <= self.tree_dy < 150_000
    }

    /// Rolls afresh `count` times.
    pub fn sample_many(count: usize) -> (rolls: Vec<Rolls>)
        ensures
            rolls.len() == count,
            all_valid(rolls@),
    {
        let mut rolls: Vec<Rolls> = Vec::new();
        while rolls.len() < count
            invariant
                rolls.len() <= count,
                all_valid(rolls@),
            decreases count - rolls.len(),
        {
            rolls.push(Rolls::sample());
        }
        rolls
    }

    /// Rolls afresh from the random source.
    pub fn sample() -> (rolls: Rolls)
        ensures
            rolls.valid(),
    {
        Rolls {
            stop: roll(2),
            kind: roll(2),
            platform_x: random_range(100_000, 499_999),
            platform_y: random_range(-220_000, 219_999),
            clock: roll(16),
            tree_x: random_range(50_000, 549_999),
            tree_y: random_range(-50_000, 49_999),
            apple: roll(2),
            family: roll(2),
            pass: [
                roll(50),
                roll(50),
                roll(50),
                roll(50),
                roll(50),
                roll(50),
                roll(50),
                roll(50),
            ],
            platform_dx: random_range(-150_000, 149_999),
            platform_dy: random_range(-400_000, 399_999),
            tree_dx: random_range(-300_000, 299_999),
            tree_dy: random_range(-400_000, 149_999),
        }
    }
}

/// Valid rolls choose a placement that the rules allow, and force one.
pub proof fn rolls_choose_lawfully(tile: TileView, rolls: Rolls)
    requires
        tile.wf(),
        !tile.done,
        rolls.valid(),
    ensures
        tile.allows(chosen(tile, rolls)),
        tile.allows(forced(tile, rolls)),
{
    kept_is_a_candidate(rolls.pass@, 0, tile.platforms.len() as int);
    kept_is_a_candidate(rolls.pass@, 0, tile.trees.len() as int);
}

/// The first candidate that is kept lies from `from` on and is not passed
/// over; every candidate before it is.
pub proof fn kept_is_a_candidate(pass: Seq<u32>, from: int, candidates: int)
    requires
        0 <= from <= candidates,
    ensures
        from <= first_kept(pass, from, candidates) <= candidates,
        first_kept(pass, from, candidates) < candidates ==> pass[first_kept(
            pass,
            from,
            candidates,
        )] != 0,
        forall|i: int| from <= i < first_kept(pass, from, candidates) ==> pass[i] == 0,
    decreases candidates - from,
{
    if from < candidates && pass[from] == 0 {
        kept_is_a_candidate(pass, from + 1, candidates);
    }
}

/// Finds the first of `candidates` obstacles that the rolls do not pass over.
fn find_kept(rolls: &Rolls, candidates: usize) -> (from: usize)
    requires
        candidates <= 8,
    ensures
        from == first_kept(rolls.pass@, 0, candidates as int),
        from <= candidates,
{
    let mut from: usize = 0;
    while from < candidates && rolls.pass[from] == 0
        invariant
            from <= candidates <= 8,
            first_kept(rolls.pass@, 0, candidates as int) == first_kept(
                rolls.pass@,
                from as int,
                candidates as int,
            ),
        decreases candidates - from,
    {
        from += 1;
    }
    from
}

/// Makes the first placement that the rolls give a tile.
fn first_of(rolls: &Rolls) -> (action: Placement)
    ensures
        action == first_placement(*rolls),
{
    if rolls.kind == 0 {
        Placement::FirstPlatform {
            x: rolls.platform_x,
            y: rolls.platform_y,
            clock: rolls.clock == 0,
        }
    } else {
        Placement::FirstTree { x: rolls.tree_x, y: rolls.tree_y, apple: rolls.apple == 0 }
    }
}

/// Chooses the next placement for `tile` by the rolls.
pub fn choose_placement(tile: &TileDraft, rolls: &Rolls) -> (action: Placement)
    requires
        tile@.wf(),
        !tile@.done,
        rolls.valid(),
    ensures
        action == chosen(tile@, *rolls),
        tile@.allows(action),
{
    proof {
        rolls_choose_lawfully(tile@, *rolls);
    }
    let count = tile.platforms.len() + tile.trees.len();
    if count >= HARD_CAP {
        Placement::Stop
    } else if count >= SOFT_CAP && rolls.stop == 0 {
        Placement::Stop
    } else if count == 0 {
        first_of(rolls)
    } else if rolls.family == 0 {
        let from = find_kept(rolls, tile.platforms.len());
        if from < tile.platforms.len() {
            Placement::ExtendPlatform { from, dx: rolls.platform_dx, dy: rolls.platform_dy }
        } else {
            Placement::Skip
        }
    } else {
        let from = find_kept(rolls, tile.trees.len());
        if from < tile.trees.len() {
            Placement::ExtendTree { from, dx: rolls.tree_dx, dy: rolls.tree_dy }
        } else {
            Placement::Skip
        }
    }
}

/// Forces the next placement for `tile` by the rolls, passing nothing over.
pub fn force_placement(tile: &TileDraft, rolls: &Rolls) -> (action: Placement)
    requires
        tile@.wf(),
        !tile@.done,
        rolls.valid(),
    ensures
        action == forced(tile@, *rolls),
        tile@.allows(action),
{
    proof {
        rolls_choose_lawfully(tile@, *rolls);
    }
    let count = tile.platforms.len() + tile.trees.len();
    if count >= SOFT_CAP {
        Placement::Stop
    } else if count == 0 {
        first_of(rolls)
    } else if tile.platforms.len() > 0 {
        Placement::ExtendPlatform { from: 0, dx: rolls.platform_dx, dy: rolls.platform_dy }
    } else {
        Placement::ExtendTree { from: 0, dx: rolls.tree_dx, dy: rolls.tree_dy }
    }
}

/// Draws the next placement for `tile`: the one that fresh rolls choose.
pub fn draw_placement(tile: &TileDraft) -> (action: Placement)
    requires
        tile@.wf(),
        !tile@.done,
    ensures
        exists|rolls: Rolls| rolls.valid() && action == #[trigger] chosen(tile@, rolls),
        tile@.allows(action),
{
    let rolls = Rolls::sample();
    choose_placement(tile, &rolls)
}

/// Whether `tile` is a complete tile that some lawful sequence of placements builds.
pub open spec fn generated(tile: TileView) -> bool {
    exists|actions: Seq<Placement>|
        {
            &&& lawful(tile.key, actions)
            &&& #[trigger] built(tile.key, actions) == tile
            &&& tile.done
        }
}

/// A generated tile holds from four to eight obstacles, all platforms or all
/// trees, each of the size of its kind and lying as the rules lay it out;
/// and at most one pickup, which sits on its first obstacle.
pub proof fn generated_tiles_follow_the_rules(tile: TileView)
    requires
        generated(tile),
    ensures
        tile.wf(),
        SOFT_CAP <= tile.count() <= HARD_CAP,
        tile.platforms.len() == 0 || tile.trees.len() == 0,
        laid_out(tile.key, tile.platforms, tile.trees),
        tile.apples.len() + tile.clocks.len() <= 1,
        tile.apples.len() == 1 ==> tile.trees.len() >= 1 && tile.apples[0] == apple_of(
            tile.trees[0],
        ),
        tile.clocks.len() == 1 ==> tile.platforms.len() >= 1 && tile.clocks[0] == clock_of(
            tile.platforms[0],
        ),
        forall|i: int|
            0 <= i < tile.platforms.len() ==> {
                let p = #[trigger] tile.platforms[i];
                &&& p.kind == ObstacleKind::Platform
                &&& p.aabb.width() == 2 * PLATFORM_HALF_WIDTH
                &&& p.aabb.height() == 2 * PLATFORM_HALF_HEIGHT
            },
        forall|i: int|
            0 <= i < tile.trees.len() ==> {
                let t = #[trigger] tile.trees[i];
                &&& t.kind == ObstacleKind::Tree
                &&& t.aabb.width() == 2 * TREE_HALF_WIDTH
                &&& t.aabb.height() == 2 * TREE_HALF_HEIGHT
            },
        forall|i: int|
            0 <= i < tile.platforms.len() ==> near_tile(
                tile.key,
                (#[trigger] tile.platforms[i]).aabb,
                TILE_REACH as int,
            ),
{
    let actions = choose|actions: Seq<Placement>|
        {
            &&& lawful(tile.key, actions)
            &&& #[trigger] built(tile.key, actions) == tile
            &&& tile.done
        };
    lawful_tiles_are_wf(tile.key, actions);
    lawful_tiles_are_of_one_kind(tile.key, actions);
    lawful_tiles_are_laid_out(tile.key, actions);
    assert forall|i: int| 0 <= i < tile.platforms.len() implies near_tile(
        tile.key,
        (#[trigger] tile.platforms[i]).aabb,
        TILE_REACH as int,
    ) by {
        laid_out_platforms_are_near(tile.key, tile.platforms, tile.trees, i);
        assert(PLACEMENT_REACH * (i + 1) <= TILE_REACH) by (nonlinear_arith)
            requires
                i + 1 <= 8,
                PLACEMENT_REACH == 1_000_000,
                TILE_REACH == 8_000_000,
        ;
    }
}

/// The placement that the rolls make at attempt `at`: chosen while the
/// attempts at choosing last, forced once they have run out.
pub open spec fn attempted(tile: TileView, rolls: Seq<Rolls>, at: int) -> Placement {
    if at < PLACEMENT_ATTEMPTS {
        chosen(tile, rolls[at])
    } else {
        forced(tile, rolls[at])
    }
}

/// The tile after the rolls from `at` on have been used on `tile`, one for
/// each placement, until the tile is complete or the rolls are used up.
pub open spec fn filled_from(tile: TileView, rolls: Seq<Rolls>, at: int) -> TileView
    decreases rolls.len() - at,
{
    if tile.done || at < 0 || at >= rolls.len() {
        tile
    } else {
        filled_from(tile.placed(attempted(tile, rolls, at)), rolls, at + 1)
    }
}

/// The tile of `key` that the rolls fill.
pub open spec fn filled(key: TileKey, rolls: Seq<Rolls>) -> TileView {
    filled_from(TileView::empty(key), rolls, 0)
}

/// Whether every one of the rolls is valid.
pub open spec fn all_valid(rolls: Seq<Rolls>) -> bool {
    forall|i: int| 0 <= i < rolls.len() ==> (#[trigger] rolls[i]).valid()
}

/// Fills the tile of `key` by the rolls, one for each placement: the
/// first [`PLACEMENT_ATTEMPTS`] choose, the ones after them force. Rolls
/// enough for all attempts and [`FORCED_PLACEMENTS`] more complete the tile.
pub fn fill_tile(key: TileKey, rolls: &Vec<Rolls>) -> (tile: TileDraft)
    requires
        all_valid(rolls@),
    ensures
        tile@ == filled(key, rolls@),
        tile@.key == key,
        tile@.wf(),
        tile@.done ==> generated(tile@),
        rolls.len() >= PLACEMENT_ATTEMPTS + FORCED_PLACEMENTS ==> tile@.done,
{
    let mut tile = TileDraft::new(key);
    let ghost mut actions: Seq<Placement> = Seq::empty();
    let mut at: usize = 0;
    while at < rolls.len() && !tile.done
        invariant
            at <= rolls.len(),
            all_valid(rolls@),
            tile@.wf(),
            tile@.key == key,
            lawful(key, actions),
            built(key, actions) == tile@,
            filled_from(tile@, rolls@, at as int) == filled(key, rolls@),
            !tile.done && at > PLACEMENT_ATTEMPTS ==> at - PLACEMENT_ATTEMPTS <= tile@.count()
                <= SOFT_CAP,
        decreases rolls.len() - at,
    {
        let ghost before = tile@;
        let action = if at < PLACEMENT_ATTEMPTS {
            choose_placement(&tile, &rolls[at])
        } else {
            force_placement(&tile, &rolls[at])
        };
        assert(action == attempted(before, rolls@, at as int));
        let ok = tile.place(action);
        proof {
            placed_keeps_wf(before, action);
            let longer = actions.push(action);
            assert(longer.drop_last() =~= actions);
            assert(longer.last() == action);
            actions = longer;
        }
        at += 1;
    }
    proof {
        lawful_tiles_are_wf(key, actions);
    }
    tile
}

/// Fills the tile of `key` from the random source, following the placement
/// rules: by fresh rolls, enough of them to complete the tile.
pub fn generate_tile(key: TileKey) -> (tile: TileDraft)
    ensures
        tile@.key == key,
        tile@.wf(),
        tile@.done,
        generated(tile@),
        SOFT_CAP <= tile@.count() <= HARD_CAP,
        exists|rolls: Seq<Rolls>| all_valid(rolls) && tile@ == #[trigger] filled(key, rolls),
{
    let rolls = Rolls::sample_many(PLACEMENT_ATTEMPTS + FORCED_PLACEMENTS);
    let tile = fill_tile(key, &rolls);
    proof {
        generated_tiles_follow_the_rules(tile@);
    }
    tile
}

} // verus!
