//! A play-through as a whole: setting it up, and stepping it tick by tick.

use vstd::prelude::*;
use crate::camera::{
    backdrop, backdrop_layers, camera_followed, camera_keeps_the_character_inside,
    camera_tracking_system, game_camera, GameCamera, GameLevelDimensions, Parallax,
    BACKGROUND_SPAN,
};
use crate::control::{
    arrow_move, control_is_horizontal, control_sounds, control_stays_bounded, controlled,
    controlled_is_wf, Draws, Input,
};
use crate::dino::{
    dino_gravity, fall_stays_bounded, fallen, scanned, settled, thud, Dino, NEAR,
};
use crate::placement::{box_within, TILE_HEIGHT, TILE_WIDTH};
use crate::geometry::Point;
use crate::obstacle::Obstacle;
use crate::pickups::{
    apple_collect, apples_left, apples_touched, clock_collect, clocks_left, clocks_touched,
    collect_sounds, extended, Collection,
};
use crate::session::{
    remaining_height, update_healthboard, update_heightboard, update_timeboard, AppleBasket,
    GameState, GameStatus, GameTimer, Session, TIME_EXTENSION,
};
use crate::sound::{SfxMusicVolume, Sound};
use crate::timer::MAX_DURATION;
use crate::units::{LIMIT, SPAN};
use crate::world::{
    generation_step, point_lies_in_its_tile, region_within, spawn_platforms, tile_of, Generated,
    World, WorldView, SPAWN_RADIUS,
};

verus! {

/// Most pickups of one kind that one tick can add to the world.
pub const NEW_PICKUPS: u64 = 25;

/// What a play-through starts with, for whoever puts it on the screen.
#[derive(Debug)]
pub struct Stage {
    /// The character.
    pub dino: Dino,
    /// The instances of the backdrop.
    pub backdrop: Vec<Parallax>,
}

/// Everything that a play-through consists of.
pub struct Game {
    pub world: World,
    pub dino: Dino,
    pub camera: GameCamera,
    pub session: Session,
    pub volume: SfxMusicVolume,
}

/// What a game holds.
pub struct GameView {
    pub world: WorldView,
    pub dino: Dino,
    pub camera: GameCamera,
    pub session: Session,
    pub volume: SfxMusicVolume,
}

/// Why a tick cannot be stepped.
#[derive(Clone, Copy, Debug, PartialEq, Eq, Structural)]
pub enum Stall {
    /// The session has not been started, or has ended.
    NotRunning,
    /// The character is too far out or too fast.
    CharacterOutOfRange,
    /// The camera or its level is too far out.
    CameraOutOfRange,
    /// The target height is too far out.
    TargetOutOfRange,
    /// The basket could not hold the apples that lie in the world.
    BasketFull,
    /// The clock could not hold the time that the extenders in the world would add.
    ClockFull,
}

/// What one tick did, for whoever shows and plays it.
#[derive(Debug)]
pub struct TickReport {
    /// Where the lists of the world began to grow.
    pub new: Generated,
    /// Health lost to a hard landing.
    pub damage: i32,
    /// Where the apples collected stood in the list, after generation and before collecting.
    pub apples_taken: Vec<usize>,
    /// Where the time extenders collected stood in their list, likewise.
    pub clocks_taken: Vec<usize>,
    /// The sounds to play, in order.
    pub sounds: Vec<Sound>,
    /// Whole seconds left on the clock, rounded up.
    pub seconds_left: u64,
    /// Whole units left to climb, rounded up.
    pub height_left: i64,
    /// The outcome, if this tick ended the session.
    pub ended: Option<GameStatus>,
}

/// What a tick report holds.
pub struct TickView {
    pub new: Generated,
    pub damage: i32,
    pub apples_taken: Seq<usize>,
    pub clocks_taken: Seq<usize>,
    pub sounds: Seq<Sound>,
    pub seconds_left: u64,
    pub height_left: i64,
    pub ended: Option<GameStatus>,
}

impl View for Game {
    type V = GameView;

    open spec fn view(&self) -> GameView {
        GameView {
            world: self.world@,
            dino: self.dino,
            camera: self.camera,
            session: self.session,
            volume: self.volume,
        }
    }
}

impl View for TickReport {
    type V = TickView;

    open spec fn view(&self) -> TickView {
        TickView {
            new: self.new,
            damage: self.damage,
            apples_taken: self.apples_taken@,
            clocks_taken: self.clocks_taken@,
            sounds: self.sounds@,
            seconds_left: self.seconds_left,
            height_left: self.height_left,
            ended: self.ended,
        }
    }
}

/// The camera and the character after the character has moved for a tick:
/// it falls and lands, it is controlled, and the camera follows.
#[verifier::opaque]
pub open spec fn moved(
    dino: Dino,
    camera: GameCamera,
    platforms: Seq<Obstacle>,
    trees: Seq<Obstacle>,
    input: Input,
    dt: u32,
    draws: Draws,
) -> (GameCamera, Dino) {
    let landed = settled(fallen(dino, dt), platforms);
    camera_followed(camera, controlled(landed, input, platforms, trees, dt, draws), dt)
}

/// The session after a tick in which `apples` apples and `clocks` time
/// extenders were collected and the character came to be `dino`: the pickups
/// take effect, the clock advances, and the session is lost when the clock
/// has run out or no health is left, else won when the target is reached.
#[verifier::opaque]
pub open spec fn judged(session: Session, dino: Dino, dt: u32, apples: nat, clocks: nat) -> Session {
    let timer = extended(session.timer.0, clocks).ticked(dt);
    let collected = Session {
        basket: AppleBasket((session.basket.0 + apples) as u32),
        timer: GameTimer(timer),
        ..session
    };
    collected.ended_if(timer.finished, GameStatus::Lose).ended_if(
        dino.health <= 0,
        GameStatus::Lose,
    ).ended_if(session.target_height.0 - dino.position.y <= 0, GameStatus::Win)
}

/// The sounds of a tick, in order: the thud of a hard landing, the sounds of
/// control, and one sound for each pickup collected.
#[verifier::opaque]
pub open spec fn tick_sounds(
    dino: Dino,
    platforms: Seq<Obstacle>,
    trees: Seq<Obstacle>,
    input: Input,
    dt: u32,
    draws: Draws,
    sfx: bool,
    pickups: nat,
) -> Seq<Sound> {
    let scan = scanned(fallen(dino, dt), platforms);
    let landed = settled(fallen(dino, dt), platforms);
    (match thud(scan.damage, sfx) {
        Some(sound) => seq![sound],
        None => Seq::empty(),
    }) + control_sounds(landed, input, platforms, trees, dt, draws, sfx) + collect_sounds(
        pickups,
        sfx,
    )
}

impl GameView {
    /// The world is well formed and its platforms are near, and the
    /// character and the session are well formed.
    pub open spec fn wf(self) -> bool {
        &&& self.world.wf()
        &&& self.world.platforms_within(NEAR as int)
        &&& self.dino.wf()
        &&& self.session.wf()
    }

    /// Why a tick cannot be stepped, if it cannot: the session is not
    /// running, or something is so large that a tick could carry it out of
    /// the accepted magnitude. The first reason that holds is given. The
    /// length of the tick is no reason: a tick of any length can be stepped.
    pub open spec fn stall(self) -> Option<Stall> {
        if self.session.state != GameState::Running {
            Some(Stall::NotRunning)
        } else if !self.dino.calm() {
            Some(Stall::CharacterOutOfRange)
        } else if !self.camera.bounded() {
            Some(Stall::CameraOutOfRange)
        } else if !(-LIMIT <= self.session.target_height.0 <= LIMIT) {
            Some(Stall::TargetOutOfRange)
        } else if self.session.basket.0 + self.world.apples.len() + NEW_PICKUPS > u32::MAX {
            Some(Stall::BasketFull)
        } else if self.session.timer.0.duration + (self.world.clocks.len() + NEW_PICKUPS)
            * TIME_EXTENSION > MAX_DURATION {
            Some(Stall::ClockFull)
        } else {
            None
        }
    }

    /// Whether a tick can be stepped.
    pub open spec fn steppable(self) -> bool {
        self.stall() is None
    }

    /// Whether `after` and `report` are what one tick makes of `self`, where
    /// `grown` is the world after generation and before collecting.
    ///
    /// The neighborhood of the character is generated; the character falls,
    /// lands, is controlled and followed by the camera; it collects the
    /// pickups that it touches; and the session is judged.
    pub open spec fn steps_to(
        self,
        after: GameView,
        report: TickView,
        grown: WorldView,
        input: Input,
        dt: u32,
        draws: Draws,
    ) -> bool {
        let taken = report.apples_taken.len() + report.clocks_taken.len();
        &&& generation_step(self.world, grown, tile_of(self.dino.position), SPAWN_RADIUS as int)
        &&& (after.camera, after.dino) == moved(
            self.dino,
            self.camera,
            grown.platforms,
            grown.trees,
            input,
            dt,
            draws,
        )
        &&& after.world == (WorldView {
            apples: apples_left(grown.apples, after.dino.aabb),
            clocks: clocks_left(grown.clocks, after.dino.aabb),
            ..grown
        })
        &&& after.session == judged(
            self.session,
            after.dino,
            dt,
            report.apples_taken.len(),
            report.clocks_taken.len(),
        )
        &&& after.volume == self.volume
        &&& report.new == (Generated {
            platforms_from: self.world.platforms.len() as usize,
            trees_from: self.world.trees.len() as usize,
            apples_from: self.world.apples.len() as usize,
            clocks_from: self.world.clocks.len() as usize,
        })
        &&& report.damage == scanned(fallen(self.dino, dt), grown.platforms).damage
        &&& report.apples_taken == apples_touched(grown.apples, after.dino.aabb)
        &&& report.clocks_taken == clocks_touched(grown.clocks, after.dino.aabb)
        &&& report.sounds == tick_sounds(
            self.dino,
            grown.platforms,
            grown.trees,
            input,
            dt,
            draws,
            self.volume.sfx,
            taken,
        )
        &&& report.seconds_left == after.session.timer.0.remaining_secs_ceil()
        &&& report.height_left == remaining_height(
            self.session.target_height.0 as int,
            after.dino.position.y as int,
        )
        &&& report.ended == (if self.session.status == GameStatus::InProgress
            && after.session.status != GameStatus::InProgress {
            Some(after.session.status)
        } else {
            None
        })
    }
}

/// The sounds of the pickups collected follow those of the rest of the tick.
pub proof fn pickup_sounds_come_last(
    dino: Dino,
    platforms: Seq<Obstacle>,
    trees: Seq<Obstacle>,
    input: Input,
    dt: u32,
    draws: Draws,
    sfx: bool,
    apples: nat,
    clocks: nat,
)
    ensures
        tick_sounds(dino, platforms, trees, input, dt, draws, sfx, apples + clocks) == tick_sounds(
            dino,
            platforms,
            trees,
            input,
            dt,
            draws,
            sfx,
            0,
        ) + collect_sounds(apples, sfx) + collect_sounds(clocks, sfx),
{
    reveal(tick_sounds);
    assert(collect_sounds(0, sfx) =~= Seq::<Sound>::empty());
    assert(collect_sounds(apples, sfx) + collect_sounds(clocks, sfx) =~= collect_sounds(
        apples + clocks,
        sfx,
    ));
    let rest = tick_sounds(dino, platforms, trees, input, dt, draws, sfx, 0);
    assert(tick_sounds(dino, platforms, trees, input, dt, draws, sfx, apples + clocks) =~= rest
        + collect_sounds(apples, sfx) + collect_sounds(clocks, sfx));
}

/// The tiles around a calm character lie near.
pub proof fn calm_region_is_near(dino: Dino)
    requires
        dino.calm(),
    ensures
        region_within(tile_of(dino.position), SPAWN_RADIUS as int, NEAR as int),
{
    let key = tile_of(dino.position);
    point_lies_in_its_tile(dino.position);
    let w = TILE_WIDTH as int;
    let h = TILE_HEIGHT as int;
    assert((key.0 - 2) * w == key.0 * w - 2 * w && (key.0 + 2) * w == key.0 * w + 2 * w)
        by (nonlinear_arith);
    assert((key.1 - 2) * h == key.1 * h - 2 * h && (key.1 + 2) * h == key.1 * h + 2 * h)
        by (nonlinear_arith);
}

/// The top of a platform that is near lies not far below the origin.
pub proof fn near_platforms_are_not_far_below(world: WorldView)
    requires
        world.platforms_within(NEAR as int),
    ensures
        forall|i: int|
            0 <= i < world.platforms.len() ==> (#[trigger] world.platforms[i]).aabb.max.y >= -NEAR,
{
    assert forall|i: int| 0 <= i < world.platforms.len() implies (
    #[trigger] world.platforms[i]).aabb.max.y >= -NEAR by {
        assert(box_within(world.platforms[i].aabb, NEAR as int));
    }
}

/// Through every tick the box of the character stays centered on its
/// position, and its health does not grow; it shrinks only by the damage of
/// a hard landing.
pub proof fn tick_keeps_the_character_whole(
    before: GameView,
    after: GameView,
    report: TickView,
    grown: WorldView,
    input: Input,
    dt: u32,
    draws: Draws,
)
    requires
        before.wf(),
        before.steppable(),
        before.steps_to(after, report, grown, input, dt, draws),
    ensures
        after.dino.wf(),
        after.dino.aabb.centered_at(after.dino.position),
        after.dino.health == before.dino.health - report.damage,
        report.damage >= 0,
{
    reveal(moved);
    assert((2 * SPAWN_RADIUS + 1) * (2 * SPAWN_RADIUS + 1) == 25) by (nonlinear_arith)
        requires
            SPAWN_RADIUS == 2,
    ;
    assert(grown.grown_within(before.world, 25));
    calm_region_is_near(before.dino);
    assert(grown.platforms_within(NEAR as int));
    near_platforms_are_not_far_below(grown);
    fall_stays_bounded(before.dino, dt, grown.platforms);
    let landed = settled(fallen(before.dino, dt), grown.platforms);
    control_stays_bounded(landed, input, grown.platforms, grown.trees, dt, draws);
    controlled_is_wf(landed, input, grown.platforms, grown.trees, dt, draws);
    control_is_horizontal(landed, input, grown.platforms, grown.trees, dt, draws);
    let steered = controlled(landed, input, grown.platforms, grown.trees, dt, draws);
    camera_keeps_the_character_inside(before.camera, steered, dt);
}

/// Sets up a play-through: the world is forgotten but for the starting
/// platform, the session starts over, and the character and the backdrop
/// are made anew.
pub fn setup(world: &mut World, session: &mut Session) -> (stage: Stage)
    ensures
        final(world)@ == World::initial(),
        final(world)@.wf(),
        *final(session) == Session::fresh(),
        final(session).wf(),
        stage.dino == Dino::initial(),
        stage.dino.wf(),
        stage.dino.bounded(),
        stage.backdrop@.len() == 25,
        forall|i: int, j: int|
            0 <= i < 5 && 0 <= j < 5 ==> #[trigger] stage.backdrop@[i * 5 + j] == backdrop(
                (i - BACKGROUND_SPAN) as i32,
                (j - BACKGROUND_SPAN) as i32,
            ),
{
    world.reset();
    session.reset();
    Stage { dino: Dino::default(), backdrop: backdrop_layers() }
}

impl Game {
    /// Creates a game that is set up and waits to be started.
    pub fn new() -> (game: Game)
        ensures
            game@.wf(),
            game@.world == World::initial(),
            game@.dino == Dino::initial(),
            game@.session == Session::fresh(),
            game@.camera.position == (Point { x: 0, y: 0 }),
            game@.camera.selected_game_level == GameLevelDimensions::vast(),
            game@.volume.music && game@.volume.sfx,
    {
        Game {
            world: World::new(),
            dino: Dino::default(),
            camera: game_camera(),
            session: Session::new(),
            volume: SfxMusicVolume::default(),
        }
    }

    /// Tells why a tick cannot be stepped, if it cannot.
    pub fn stalled(&self) -> (reason: Option<Stall>)
        ensures
            reason == self@.stall(),
    {
        if self.session.state != GameState::Running {
            Some(Stall::NotRunning)
        } else if !self.dino.is_calm() {
            Some(Stall::CharacterOutOfRange)
        } else if !self.camera.is_bounded() {
            Some(Stall::CameraOutOfRange)
        } else if self.session.target_height.0 < -LIMIT || self.session.target_height.0 > LIMIT {
            Some(Stall::TargetOutOfRange)
        } else if self.session.basket.0 as u128 + self.world.apples.len() as u128
            + NEW_PICKUPS as u128 > 0xffff_ffff {
            Some(Stall::BasketFull)
        } else if self.session.timer.0.duration as u128 + (self.world.clocks.len() as u128
            + NEW_PICKUPS as u128) * 60_000_000 > MAX_DURATION as u128 {
            Some(Stall::ClockFull)
        } else {
            None
        }
    }

    /// Tests at run time whether a tick can be stepped.
    pub fn is_steppable(&self) -> (b: bool)
        ensures
            b == self@.steppable(),
    {
        self.stalled().is_none()
    }

    /// Moves the character for one tick: the tiles around it are generated,
    /// it falls and lands, the player controls it, and the camera follows.
    /// Returns where the lists of the world began to grow, the health lost,
    /// and the sounds to play.
    fn act(&mut self, input: &Input, dt: u32, draws: &Draws) -> (done: (Generated, i32, Vec<Sound>))
        requires
            old(self)@.wf(),
            old(self)@.steppable(),
        ensures
            final(self)@.wf(),
            generation_step(
                old(self)@.world,
                final(self)@.world,
                tile_of(old(self).dino.position),
                SPAWN_RADIUS as int,
            ),
            (final(self).camera, final(self).dino) == moved(
                old(self).dino,
                old(self).camera,
                final(self)@.world.platforms,
                final(self)@.world.trees,
                *input,
                dt,
                *draws,
            ),
            final(self).session == old(self).session,
            final(self).volume == old(self).volume,
            done.0 == (Generated {
                platforms_from: old(self)@.world.platforms.len() as usize,
                trees_from: old(self)@.world.trees.len() as usize,
                apples_from: old(self)@.world.apples.len() as usize,
                clocks_from: old(self)@.world.clocks.len() as usize,
            }),
            done.1 == scanned(fallen(old(self).dino, dt), final(self)@.world.platforms).damage,
            done.2@ == tick_sounds(
                old(self).dino,
                final(self)@.world.platforms,
                final(self)@.world.trees,
                *input,
                dt,
                *draws,
                old(self).volume.sfx,
                0,
            ),
            final(self).dino.health <= old(self).dino.health,
            -2 * SPAN <= final(self).dino.position.y <= 2 * SPAN,
    {
        proof {
            reveal(moved);
            reveal(tick_sounds);
        }
        let sfx = self.volume.sfx;
        let new = spawn_platforms(&mut self.world, self.dino.position);
        let ghost grown = self.world@;
        proof {
            assert((2 * SPAWN_RADIUS + 1) * (2 * SPAWN_RADIUS + 1) == 25);
            assert(grown.grown_within(old(self)@.world, 25));
            calm_region_is_near(self.dino);
            assert(grown.platforms_within(NEAR as int));
            near_platforms_are_not_far_below(grown);
            fall_stays_bounded(self.dino, dt, grown.platforms);
        }
        let landing = dino_gravity(&mut self.dino, &self.world.platforms, dt, sfx);
        let ghost landed = self.dino;
        proof {
            control_stays_bounded(landed, *input, grown.platforms, grown.trees, dt, *draws);
        }
        let mut sounds = arrow_move(
            &mut self.dino,
            input,
            &self.world.platforms,
            &self.world.trees,
            dt,
            sfx,
            draws,
        );
        let ghost steered = self.dino;
        camera_tracking_system(&mut self.camera, &mut self.dino, dt);
        proof {
            camera_keeps_the_character_inside(old(self).camera, steered, dt);
        }
        let mut all: Vec<Sound> = Vec::new();
        if let Some(sound) = landing.sound {
            all.push(sound);
        }
        all.append(&mut sounds);
        proof {
            assert(collect_sounds(0, sfx) =~= Seq::<Sound>::empty());
            assert(all@ =~= tick_sounds(
                old(self).dino,
                grown.platforms,
                grown.trees,
                *input,
                dt,
                *draws,
                sfx,
                0,
            ));
        }
        (new, landing.damage, all)
    }

    /// Lets the character collect what it touches and judges the session.
    /// Returns the pickups collected, the clock and the height for display,
    /// and the outcome if the session ended.
    fn judge(&mut self, dt: u32) -> (done: (Collection, Collection, u64, i64, Option<GameStatus>))
        requires
            old(self)@.wf(),
            old(self).session.basket.0 + old(self)@.world.apples.len() <= u32::MAX,
            old(self).session.timer.0.duration + old(self)@.world.clocks.len() * TIME_EXTENSION
                <= MAX_DURATION,
            -LIMIT <= old(self).session.target_height.0 <= LIMIT,
            -2 * SPAN <= old(self).dino.position.y <= 2 * SPAN,
        ensures
            final(self)@.wf(),
            final(self).dino == old(self).dino,
            final(self).camera == old(self).camera,
            final(self).volume == old(self).volume,
            final(self)@.world == (WorldView {
                apples: apples_left(old(self)@.world.apples, old(self).dino.aabb),
                clocks: clocks_left(old(self)@.world.clocks, old(self).dino.aabb),
                ..old(self)@.world
            }),
            final(self).session == judged(
                old(self).session,
                old(self).dino,
                dt,
                done.0.taken@.len(),
                done.1.taken@.len(),
            ),
            done.0.taken@ == apples_touched(old(self)@.world.apples, old(self).dino.aabb),
            done.1.taken@ == clocks_touched(old(self)@.world.clocks, old(self).dino.aabb),
            done.0.sounds@ == collect_sounds(done.0.taken@.len(), old(self).volume.sfx),
            done.1.sounds@ == collect_sounds(done.1.taken@.len(), old(self).volume.sfx),
            done.2 == final(self).session.timer.0.remaining_secs_ceil(),
            done.3 == remaining_height(
                old(self).session.target_height.0 as int,
                old(self).dino.position.y as int,
            ),
            done.4 == (if old(self).session.status == GameStatus::InProgress
                && final(self).session.status != GameStatus::InProgress {
                Some(final(self).session.status)
            } else {
                None
            }),
    {
        proof {
            reveal(judged);
        }
        let sfx = self.volume.sfx;
        let apples = apple_collect(&mut self.world.apples, &self.dino.aabb, &mut self.session, sfx);
        let clocks = clock_collect(&mut self.world.clocks, &self.dino.aabb, &mut self.session, sfx);
        let time = update_timeboard(&mut self.session, dt);
        let health_ended = update_healthboard(&mut self.session, &self.dino);
        let height = update_heightboard(&mut self.session, &self.dino);
        let ended = if time.ended.is_some() {
            time.ended
        } else if health_ended.is_some() {
            health_ended
        } else {
            height.ended
        };
        assert(self@.world =~= (WorldView {
            apples: apples_left(old(self)@.world.apples, old(self).dino.aabb),
            clocks: clocks_left(old(self)@.world.clocks, old(self).dino.aabb),
            ..old(self)@.world
        }));
        (apples, clocks, time.seconds_left, height.remaining, ended)
    }

    /// Steps the game by one tick of `dt` microseconds, if it can be
    /// stepped, and reports what the tick did; else leaves the game alone
    /// and tells why.
    ///
    /// In order: the tiles around the character are generated; the character
    /// falls and lands; the player controls it; the camera follows; the
    /// character collects what it touches; the session is judged.
    pub fn tick(&mut self, input: &Input, dt: u32, draws: &Draws) -> (report: Result<
        TickReport,
        Stall,
    >)
        requires
            old(self)@.wf(),
        ensures
            final(self)@.wf(),
            report matches Err(reason) ==> old(self)@.stall() == Some(reason) && final(self)@
                == old(self)@,
            report.is_ok() == old(self)@.steppable(),
            report.is_ok() ==> exists|grown: WorldView| #[trigger]
                old(self)@.steps_to(final(self)@, report.unwrap()@, grown, *input, dt, *draws),
            final(self).dino.health <= old(self).dino.health,
    {
        if let Some(reason) = self.stalled() {
            return Err(reason);
        }
        let ghost before = self@;
        let ghost sfx = self.volume.sfx;
        let (new, damage, mut sounds) = self.act(input, dt, draws);
        let ghost grown = self@.world;
        proof {
            assert((2 * SPAWN_RADIUS + 1) * (2 * SPAWN_RADIUS + 1) == 25);
            assert(grown.grown_within(before.world, 25));
            let had = before.world.clocks.len();
            let has = grown.clocks.len();
            assert(has * TIME_EXTENSION <= (had + NEW_PICKUPS) * TIME_EXTENSION)
                by (nonlinear_arith)
                requires
                    has <= had + NEW_PICKUPS,
            ;
        }
        let (apples, clocks, seconds_left, height_left, ended) = self.judge(dt);
        let mut apple_sounds = apples.sounds;
        let mut clock_sounds = clocks.sounds;
        sounds.append(&mut apple_sounds);
        sounds.append(&mut clock_sounds);
        let report = Ok(
            TickReport {
                new,
                damage,
                apples_taken: apples.taken,
                clocks_taken: clocks.taken,
                sounds,
                seconds_left,
                height_left,
                ended,
            },
        );
        assert(old(self)@.steps_to(self@, report.unwrap()@, grown, *input, dt, *draws)) by {
            pickup_sounds_come_last(
                before.dino,
                grown.platforms,
                grown.trees,
                *input,
                dt,
                *draws,
                sfx,
                report.unwrap()@.apples_taken.len(),
                report.unwrap()@.clocks_taken.len(),
            );
        }
        report
    }
}

} // verus!
