//! The camera: a critically damped follower with a dead zone, held inside
//! the level, with wraparound at the level's edge and parallax backgrounds.

use vstd::prelude::*;
use crate::dino::Dino;
use crate::geometry::Point;
use crate::units::{
    div_floor, div_toward_zero, floor_div, is_sqrt_floor, sqrt_floor, sqrt_floor_is_unique,
    toward_zero, toward_zero_falls_short, LIMIT, SPAN,
};

verus! {

/// How far above the character the camera aims.
pub const CAMERA_RISE: i64 = 75_000;

/// Distance from its target below which the camera snaps to it.
pub const DEAD_ZONE: i64 = 100;

/// Mass of the follower.
pub const MASS: i64 = 1;

/// Stiffness of the spring, in thousandths.
pub const STIFFNESS: i64 = 8_500;

/// Damping of the spring, in millionths: twice the square root of mass times stiffness.
pub const DAMPING: i64 = 5_830_950;

/// The scale of [`spring_factor`].
pub const FACTOR_SCALE: i128 = 1_000_000_000_000_000;

/// Share of the level bound at which the character wraps around, in tenths.
pub const WRAP_TENTHS: i64 = 9;

/// The scale of a parallax coefficient.
pub const COEFF_SCALE: i64 = 1_000;

/// The rectangle that the camera stays strictly inside.
#[derive(Clone, Copy, Debug, PartialEq, Eq, Structural)]
pub struct GameLevelDimensions {
    pub left: i64,
    pub right: i64,
    pub top: i64,
    pub bottom: i64,
}

/// The camera that follows the character.
#[derive(Clone, Copy, Debug, PartialEq, Eq, Structural)]
pub struct GameCamera {
    pub position: Point,
    pub selected_game_level: GameLevelDimensions,
}

/// A background layer that moves with the camera at its own pace.
#[derive(Clone, Copy, Debug, PartialEq, Eq, Structural)]
pub struct Parallax {
    /// Share of the camera's abscissa that the layer follows, in thousandths.
    pub x_coeff: i64,
    /// Share of the camera's ordinate that the layer follows, in thousandths.
    pub y_coeff: i64,
    /// Horizontal distance between neighboring instances of the layer.
    pub x_offset: i64,
    /// Vertical distance between neighboring instances of the layer.
    pub y_offset: i64,
    /// Column of this instance.
    pub x_tile: i32,
    /// Row of this instance.
    pub y_tile: i32,
}

impl GameLevelDimensions {
    /// The level of the game: a million units to each side.
    pub open spec fn vast() -> GameLevelDimensions {
        GameLevelDimensions {
            left: (-1_000_000_000) as i64,
            right: 1_000_000_000,
            top: 1_000_000_000,
            bottom: (-1_000_000_000) as i64,
        }
    }

    /// Every bound is within the accepted magnitude.
    pub open spec fn bounded(self) -> bool {
        &&& -LIMIT <= self.left <= LIMIT
        &&& -LIMIT <= self.right <= LIMIT
        &&& -LIMIT <= self.top <= LIMIT
        &&& -LIMIT <= self.bottom <= LIMIT
    }
}

impl GameCamera {
    /// Position and level are within the accepted magnitude.
    pub open spec fn bounded(self) -> bool {
        self.position.bounded() && self.selected_game_level.bounded()
    }

    /// Tests at run time whether position and level are within the accepted magnitude.
    pub fn is_bounded(&self) -> (b: bool)
        ensures
            b == self.bounded(),
    {
        let level = &self.selected_game_level;
        self.position.is_bounded() && -LIMIT <= level.left && level.left <= LIMIT && -LIMIT
            <= level.right && level.right <= LIMIT && -LIMIT <= level.top && level.top <= LIMIT
            && -LIMIT <= level.bottom && level.bottom <= LIMIT
    }
}

/// Creates the camera of the game, at the origin of its vast level.
pub fn game_camera() -> (camera: GameCamera)
    ensures
        camera.position == (Point { x: 0, y: 0 }),
        camera.selected_game_level == GameLevelDimensions::vast(),
        camera.bounded(),
{
    GameCamera {
        position: Point { x: 0, y: 0 },
        selected_game_level: GameLevelDimensions {
            left: -1_000_000_000,
            right: 1_000_000_000,
            top: 1_000_000_000,
            bottom: -1_000_000_000,
        },
    }
}

/// The damping is critical: twice the square root of mass times stiffness,
/// in millionths, the root rounded down.
pub proof fn damping_is_critical()
    ensures
        DAMPING == 2 * sqrt_floor(MASS * STIFFNESS * 1_000_000_000),
{
    assert(is_sqrt_floor(8_500_000_000_000, 2_915_475)) by (nonlinear_arith);
    sqrt_floor_is_unique(8_500_000_000_000, 2_915_475, sqrt_floor(8_500_000_000_000));
}

/// What is left of the camera's distance from its target after one step of
/// the spring over `dt` microseconds, in units of 10^-15.
///
/// The step starts from the velocity that would cover the distance in `dt`,
/// adds the acceleration of spring and damper for `dt`, and moves for `dt`
/// at the velocity reached: of a distance `d` there remains
/// `d * (1 - (damping * dt + stiffness * dt^2) / mass)`.
pub open spec fn spring_factor(dt: int) -> int {
    FACTOR_SCALE - (1_000 * DAMPING * dt + STIFFNESS * dt * dt) / (MASS as int)
}

/// Where the camera goes from `camera` when its target is `target`: onto the
/// target from within the dead zone, otherwise one step of the spring, the
/// distance that remains being rounded towards the target.
pub open spec fn followed(camera: int, target: int, dt: int) -> int {
    let delta = camera - target;
    if -DEAD_ZONE < delta < DEAD_ZONE {
        target
    } else {
        target + toward_zero(delta * spring_factor(dt), FACTOR_SCALE as int)
    }
}

/// Where the camera comes to be on one axis: where it goes if that lies
/// strictly between `low` and `high`, else where it was.
pub open spec fn confined(camera: int, target: int, dt: int, low: int, high: int) -> int {
    let to = followed(camera, target, dt);
    if low < to < high {
        to
    } else {
        camera
    }
}

/// Within the dead zone the camera snaps exactly onto its target, whatever
/// the length of the tick, provided the target lies inside the level.
pub proof fn dead_zone_snaps(camera: int, target: int, dt: int, low: int, high: int)
    requires
        -DEAD_ZONE < camera - target < DEAD_ZONE,
        low < target < high,
    ensures
        confined(camera, target, dt, low, high) == target,
{
}

/// Outside the dead zone, over a tick that is not empty and so short that
/// the spring does not overshoot, the camera ends strictly nearer its
/// target, on the side on which it was or on the target itself; and it
/// stops short of the target wherever what the spring leaves of the
/// distance is a whole step or more.
pub proof fn camera_draws_nearer(camera: int, target: int, dt: int)
    requires
        camera - target >= DEAD_ZONE || camera - target <= -DEAD_ZONE,
        dt > 0,
        spring_factor(dt) >= 0,
    ensures
        camera > target ==> target <= followed(camera, target, dt) < camera,
        camera < target ==> camera < followed(camera, target, dt) <= target,
        (camera - target) * spring_factor(dt) >= FACTOR_SCALE ==> followed(camera, target, dt)
            > target,
        (camera - target) * spring_factor(dt) <= -FACTOR_SCALE ==> followed(camera, target, dt)
            < target,
{
    let delta = camera - target;
    let factor = spring_factor(dt);
    let scale = FACTOR_SCALE as int;
    assert(factor < scale) by (nonlinear_arith)
        requires
            factor == scale - (1_000 * DAMPING * dt + STIFFNESS * dt * dt) / (MASS as int),
            MASS == 1,
            DAMPING > 0,
            STIFFNESS > 0,
            dt > 0,
    ;
    let n = delta * factor;
    toward_zero_falls_short(n, scale);
    let left = toward_zero(n, scale);
    if delta > 0 {
        assert(0 <= n < delta * scale) by (nonlinear_arith)
            requires
                n == delta * factor,
                delta > 0,
                0 <= factor < scale,
        ;
        assert(left < delta) by (nonlinear_arith)
            requires
                left * scale <= n,
                n < delta * scale,
                scale > 0,
        ;
        assert(n >= scale ==> left > 0) by (nonlinear_arith)
            requires
                n < left * scale + scale,
                scale > 0,
        ;
    } else {
        assert(delta * scale < n <= 0) by (nonlinear_arith)
            requires
                n == delta * factor,
                delta < 0,
                0 <= factor < scale,
        ;
        assert(left > delta) by (nonlinear_arith)
            requires
                n <= left * scale,
                delta * scale < n,
                scale > 0,
        ;
        assert(n <= -scale ==> left < 0) by (nonlinear_arith)
            requires
                left * scale - scale < n,
                scale > 0,
        ;
    }
}

/// The camera never leaves the level: it stays where it was or comes to lie
/// strictly inside.
pub proof fn camera_stays_inside(camera: int, target: int, dt: int, low: int, high: int)
    ensures
        confined(camera, target, dt, low, high) == camera || low < confined(
            camera,
            target,
            dt,
            low,
            high,
        ) < high,
{
}

/// Computes [`confined`].
pub fn track(camera: i64, target: i64, dt: u32, low: i64, high: i64) -> (to: i64)
    requires
        -2 * SPAN <= camera <= 2 * SPAN,
        -2 * SPAN <= target <= 2 * SPAN,
    ensures
        to == confined(camera as int, target as int, dt as int, low as int, high as int),
{
    let delta: i64 = camera - target;
    if -DEAD_ZONE < delta && delta < DEAD_ZONE {
        if low < target && target < high {
            target
        } else {
            camera
        }
    } else {
        let t: i128 = dt as i128;
        assert(0 <= t * t <= 0xffff_ffff * 0xffff_ffff) by (nonlinear_arith)
            requires
                0 <= t <= 0xffff_ffff,
        ;
        let damped: i128 = 5_830_950_000 * t;
        let sprung: i128 = 8_500 * (t * t);
        let factor: i128 = FACTOR_SCALE - (damped + sprung);
        assert(factor == spring_factor(dt as int)) by {
            assert(8_500 * (t * t) == STIFFNESS * t * t) by (nonlinear_arith)
                requires
                    STIFFNESS == 8_500,
            ;
            assert(5_830_950_000 * t == 1_000 * DAMPING * t) by (nonlinear_arith)
                requires
                    DAMPING == 5_830_950,
            ;
        }
        assert(-0x2_0000_0000_0000 * 0x2140_0000_0000_0000_0000 <= delta * factor
            <= 0x2_0000_0000_0000 * 0x2140_0000_0000_0000_0000) by (nonlinear_arith)
            requires
                -0x2_0000_0000_0000 <= delta <= 0x2_0000_0000_0000,
                -0x2140_0000_0000_0000_0000 <= factor <= 0x2140_0000_0000_0000_0000,
        ;
        let left = div_toward_zero((delta as i128) * factor, FACTOR_SCALE);
        let to: i128 = target as i128 + left;
        if (low as i128) < to && to < (high as i128) {
            to as i64
        } else {
            camera
        }
    }
}

/// The share of a level bound at which the character wraps around.
pub open spec fn wrap_edge(bound: int) -> int {
    floor_div(bound * WRAP_TENTHS, 10)
}

/// Where the character and the camera come to be on one axis once the
/// character has been wrapped around: beyond the high edge it goes to the
/// low edge, and then, below the low edge, to the high edge; the camera
/// moves by twice the edge that the character went to.
pub open spec fn wrapped(position: int, camera: int, low: int, high: int) -> (int, int) {
    let (p, c) = if position > wrap_edge(high) {
        (wrap_edge(low), camera + 2 * wrap_edge(low))
    } else {
        (position, camera)
    };
    if p < wrap_edge(low) {
        (wrap_edge(high), c + 2 * wrap_edge(high))
    } else {
        (p, c)
    }
}

/// Computes [`wrap_edge`].
pub fn wrap_edge_of(bound: i64) -> (edge: i64)
    requires
        -LIMIT <= bound <= LIMIT,
    ensures
        edge == wrap_edge(bound as int),
        -LIMIT <= edge <= LIMIT,
{
    let scaled: i128 = bound as i128 * 9;
    assert(scaled == bound * WRAP_TENTHS);
    div_floor(scaled, 10) as i64
}

/// Computes [`wrapped`].
pub fn wrap(position: i64, camera: i64, low: i64, high: i64) -> (to: (i64, i64))
    requires
        -4 * SPAN <= camera <= 4 * SPAN,
        -LIMIT <= low <= LIMIT,
        -LIMIT <= high <= LIMIT,
    ensures
        to.0 == wrapped(position as int, camera as int, low as int, high as int).0,
        to.1 == wrapped(position as int, camera as int, low as int, high as int).1,
        to.0 == position || to.0 == wrap_edge(low as int) || to.0 == wrap_edge(high as int),
{
    let low_edge = wrap_edge_of(low);
    let high_edge = wrap_edge_of(high);
    let mut p = position;
    let mut c = camera;
    if p > high_edge {
        p = low_edge;
        c = c + 2 * low_edge;
    }
    if p < low_edge {
        p = high_edge;
        c = c + 2 * high_edge;
    }
    (p, c)
}

/// The camera after it has followed the character for one tick, and the
/// character after wraparound.
pub open spec fn camera_followed(camera: GameCamera, dino: Dino, dt: u32) -> (GameCamera, Dino) {
    let level = camera.selected_game_level;
    let y = confined(
        camera.position.y as int,
        dino.position.y + CAMERA_RISE,
        dt as int,
        level.bottom as int,
        level.top as int,
    );
    let x = confined(
        camera.position.x as int,
        dino.position.x as int,
        dt as int,
        level.left as int,
        level.right as int,
    );
    let across = wrapped(dino.position.x as int, x, level.left as int, level.right as int);
    let along = wrapped(dino.position.y as int, y, level.bottom as int, level.top as int);
    (
        GameCamera { position: Point { x: across.1 as i64, y: along.1 as i64 }, ..camera },
        dino.at_abscissa(across.0).at_height(along.0),
    )
}

/// Following leaves a character within the accepted magnitude within it:
/// on each axis it stays where it was or goes to an edge of a level that is
/// within the accepted magnitude. Its health is untouched, and its box
/// stays centered on its position.
pub proof fn camera_keeps_the_character_inside(camera: GameCamera, dino: Dino, dt: u32)
    requires
        camera.bounded(),
        dino.position.bounded(),
    ensures
        camera_followed(camera, dino, dt).1.position.bounded(),
        camera_followed(camera, dino, dt).1.health == dino.health,
        dino.wf() && dino.bounded() ==> camera_followed(camera, dino, dt).1.wf(),
{
}

/// Lets the camera follow the character for one tick.
///
/// On each axis the camera aims at the character, on the vertical axis a
/// little above it: within the dead zone it snaps onto its target, otherwise
/// it makes one step of the spring; a move that would not end strictly
/// inside the level is not made. Then a character that has passed nine
/// tenths of a level bound is taken to the opposite side, box and all, and
/// the camera with it.
pub fn camera_tracking_system(camera: &mut GameCamera, dino: &mut Dino, dt: u32)
    requires
        old(camera).bounded(),
        old(dino).wf(),
        old(dino).bounded(),
    ensures
        *final(camera) == camera_followed(*old(camera), *old(dino), dt).0,
        *final(dino) == camera_followed(*old(camera), *old(dino), dt).1,
        final(dino).wf(),
        final(dino).health == old(dino).health,
        final(dino).velocity == old(dino).velocity,
        final(camera).selected_game_level == old(camera).selected_game_level,
{
    let level = camera.selected_game_level;
    let y = track(camera.position.y, dino.position.y + CAMERA_RISE, dt, level.bottom, level.top);
    let x = track(camera.position.x, dino.position.x, dt, level.left, level.right);
    let across = wrap(dino.position.x, x, level.left, level.right);
    let along = wrap(dino.position.y, y, level.bottom, level.top);
    camera.position.x = across.1;
    camera.position.y = along.1;
    let dx = across.0 - dino.position.x;
    let dy = along.0 - dino.position.y;
    dino.position.x = across.0;
    dino.aabb.min.x = dino.aabb.min.x + dx;
    dino.aabb.max.x = dino.aabb.max.x + dx;
    dino.position.y = along.0;
    dino.aabb.min.y = dino.aabb.min.y + dy;
    dino.aabb.max.y = dino.aabb.max.y + dy;
}

/// Where a background layer lies when the camera is at `camera`: the
/// camera's position scaled by the layer's coefficient, plus the layer's
/// offset for each tile that the instance is away from the first.
pub open spec fn parallax_position(camera: Point, layer: Parallax) -> (int, int) {
    (
        floor_div(camera.x * layer.x_coeff, COEFF_SCALE as int) + layer.x_offset * layer.x_tile,
        floor_div(camera.y * layer.y_coeff, COEFF_SCALE as int) + layer.y_offset * layer.y_tile,
    )
}

/// Columns and rows of background instances to each side of the middle one.
pub const BACKGROUND_SPAN: i32 = 2;

/// The background instance at column `x_tile`, row `y_tile` of the game's
/// backdrop: it follows the camera at six tenths of its pace, and the
/// instances lie four screens apart.
pub open spec fn backdrop(x_tile: i32, y_tile: i32) -> Parallax {
    Parallax {
        x_coeff: 600,
        y_coeff: 600,
        x_offset: 2_400_000,
        y_offset: 1_920_000,
        x_tile,
        y_tile,
    }
}

/// The instances of the game's backdrop: five columns of five, column by
/// column from the bottom left.
pub fn backdrop_layers() -> (layers: Vec<Parallax>)
    ensures
        layers@.len() == 25,
        forall|i: int, j: int|
            0 <= i < 5 && 0 <= j < 5 ==> #[trigger] layers@[i * 5 + j] == backdrop(
                (i - BACKGROUND_SPAN) as i32,
                (j - BACKGROUND_SPAN) as i32,
            ),
        forall|k: int| 0 <= k < 25 ==> (#[trigger] layers@[k]).bounded(),
{
    let mut layers: Vec<Parallax> = Vec::new();
    let mut i: i32 = 0;
    while i < 5
        invariant
            0 <= i <= 5,
            layers@.len() == i * 5,
            forall|a: int, b: int|
                0 <= a < i && 0 <= b < 5 ==> #[trigger] layers@[a * 5 + b] == backdrop(
                    (a - BACKGROUND_SPAN) as i32,
                    (b - BACKGROUND_SPAN) as i32,
                ),
            forall|k: int| 0 <= k < layers@.len() ==> (#[trigger] layers@[k]).bounded(),
        decreases 5 - i,
    {
        let mut j: i32 = 0;
        while j < 5
            invariant
                0 <= i < 5,
                0 <= j <= 5,
                layers@.len() == i * 5 + j,
                forall|a: int, b: int|
                    (0 <= a < i && 0 <= b < 5) || (a == i && 0 <= b < j)
                        ==> #[trigger] layers@[a * 5 + b] == backdrop(
                        (a - BACKGROUND_SPAN) as i32,
                        (b - BACKGROUND_SPAN) as i32,
                    ),
                forall|k: int| 0 <= k < layers@.len() ==> (#[trigger] layers@[k]).bounded(),
            decreases 5 - j,
        {
            layers.push(
                Parallax {
                    x_coeff: 600,
                    y_coeff: 600,
                    x_offset: 2_400_000,
                    y_offset: 1_920_000,
                    x_tile: i - BACKGROUND_SPAN,
                    y_tile: j - BACKGROUND_SPAN,
                },
            );
            j += 1;
        }
        i += 1;
    }
    layers
}

impl Parallax {
    /// No coefficient scales by more than a thousand, and no offset exceeds 2^30.
    pub open spec fn bounded(self) -> bool {
        &&& -1_000_000 <= self.x_coeff <= 1_000_000
        &&& -1_000_000 <= self.y_coeff <= 1_000_000
        &&& -0x4000_0000 <= self.x_offset <= 0x4000_0000
        &&& -0x4000_0000 <= self.y_offset <= 0x4000_0000
    }

    /// Tests at run time whether coefficients and offsets are in range.
    pub fn is_bounded(&self) -> (b: bool)
        ensures
            b == self.bounded(),
    {
        -1_000_000 <= self.x_coeff && self.x_coeff <= 1_000_000 && -1_000_000 <= self.y_coeff
            && self.y_coeff <= 1_000_000 && -0x4000_0000 <= self.x_offset && self.x_offset
            <= 0x4000_0000 && -0x4000_0000 <= self.y_offset && self.y_offset <= 0x4000_0000
    }
}

/// Places a background layer for the camera's position.
pub fn parallax_system(camera: &GameCamera, layer: &Parallax) -> (at: Point)
    requires
        -4 * LIMIT <= camera.position.x <= 4 * LIMIT,
        -4 * LIMIT <= camera.position.y <= 4 * LIMIT,
        layer.bounded(),
    ensures
        at.x == parallax_position(camera.position, *layer).0,
        at.y == parallax_position(camera.position, *layer).1,
{
    let cx = camera.position.x;
    let cy = camera.position.y;
    assert(-0x400_0000_0000 * 1_000_000 <= cx * layer.x_coeff <= 0x400_0000_0000 * 1_000_000)
        by (nonlinear_arith)
        requires
            -0x400_0000_0000 <= cx <= 0x400_0000_0000,
            -1_000_000 <= layer.x_coeff <= 1_000_000,
    ;
    assert(-0x400_0000_0000 * 1_000_000 <= cy * layer.y_coeff <= 0x400_0000_0000 * 1_000_000)
        by (nonlinear_arith)
        requires
            -0x400_0000_0000 <= cy <= 0x400_0000_0000,
            -1_000_000 <= layer.y_coeff <= 1_000_000,
    ;
    assert(-0x4000_0000 * 0x8000_0000 <= layer.x_offset * layer.x_tile <= 0x4000_0000
        * 0x8000_0000) by (nonlinear_arith)
        requires
            -0x4000_0000 <= layer.x_offset <= 0x4000_0000,
            -0x8000_0000 <= layer.x_tile <= 0x8000_0000,
    ;
    assert(-0x4000_0000 * 0x8000_0000 <= layer.y_offset * layer.y_tile <= 0x4000_0000
        * 0x8000_0000) by (nonlinear_arith)
        requires
            -0x4000_0000 <= layer.y_offset <= 0x4000_0000,
            -0x8000_0000 <= layer.y_tile <= 0x8000_0000,
    ;
    let x = div_floor(cx as i128 * layer.x_coeff as i128, COEFF_SCALE as i128) + (
    layer.x_offset as i128) * (layer.x_tile as i128);
    let y = div_floor(cy as i128 * layer.y_coeff as i128, COEFF_SCALE as i128) + (
    layer.y_offset as i128) * (layer.y_tile as i128);
    Point { x: x as i64, y: y as i64 }
}

} // verus!
