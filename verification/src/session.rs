//! One play-through: countdown, target height, basket and outcome.

use vstd::prelude::*;
use crate::dino::Dino;
use crate::sound::{cue, Sound, SoundEffect};
use crate::timer::{Timer, TimerMode};
use crate::units::{div_floor, floor_div, LIMIT, SPAN, UNIT};

verus! {

/// Time that a session starts with, in microseconds.
pub const TIME_BUDGET: u64 = 200_000_000;

/// Time that a time extender adds, in microseconds.
pub const TIME_EXTENSION: u64 = 60_000_000;

/// Height that wins the session.
pub const TARGET_HEIGHT: i64 = 9_822_000;

/// Points for each apple.
pub const POINTS_PER_APPLE: u32 = 12;

/// Points for each second left on the clock.
pub const POINTS_PER_SECOND: u32 = 2;

/// Apples that make one cider.
pub const APPLES_PER_CIDER: u32 = 10;

/// Points for each cider.
pub const POINTS_PER_CIDER: u32 = 500;

/// The screens of the application.
#[derive(Clone, Copy, Debug, PartialEq, Eq, Structural)]
pub enum AppState {
    Preload,
    Loading,
    Menu,
    Game,
    GameOver,
    HighScores,
    Credits,
}

/// Whether the simulation is being stepped.
#[derive(Clone, Copy, Debug, PartialEq, Eq, Structural)]
pub enum GameState {
    Running,
    NotRunning,
}

/// How a session stands.
#[derive(Clone, Copy, Debug, PartialEq, Eq, Structural)]
pub enum GameStatus {
    InProgress,
    Lose,
    Win,
}

/// A request to fade to black and show another screen.
#[derive(Clone, Copy, Debug, PartialEq, Eq, Structural)]
pub struct SceneChange(pub AppState);

/// The countdown of a session.
#[derive(Clone, Copy, Debug, PartialEq, Eq, Structural)]
pub struct GameTimer(pub Timer);

/// The height that wins a session.
#[derive(Clone, Copy, Debug, PartialEq, Eq, Structural)]
pub struct TargetHeight(pub i64);

/// The apples collected in a session.
#[derive(Clone, Copy, Debug, PartialEq, Eq, Structural)]
pub struct AppleBasket(pub u32);

/// The points of the last session.
#[derive(Clone, Copy, Debug, PartialEq, Eq, Structural)]
pub struct TotalPoints(pub u32);

/// One of the five health icons, numbered from zero.
#[derive(Clone, Copy, Debug, PartialEq, Eq, Structural)]
pub struct HealthBar(pub u32);

/// The progress of one play-through.
#[derive(Clone, Copy, Debug, PartialEq, Eq, Structural)]
pub struct Session {
    pub timer: GameTimer,
    pub target_height: TargetHeight,
    pub basket: AppleBasket,
    pub total_points: TotalPoints,
    pub status: GameStatus,
    pub state: GameState,
}

/// What the clock shows after a tick.
#[derive(Clone, Copy, Debug, PartialEq, Eq, Structural)]
pub struct TimeReport {
    /// Whole seconds left, rounded up.
    pub seconds_left: u64,
    /// The outcome, if this tick ended the session.
    pub ended: Option<GameStatus>,
}

/// What the height display shows after a tick.
#[derive(Clone, Copy, Debug, PartialEq, Eq, Structural)]
pub struct HeightReport {
    /// Whole units left to climb, rounded up; zero or less once the target is reached.
    pub remaining: i64,
    /// The outcome, if this tick ended the session.
    pub ended: Option<GameStatus>,
}

/// How the points of a won session add up.
#[derive(Clone, Copy, Debug, PartialEq, Eq, Structural)]
pub struct ScoreSheet {
    pub apples: u32,
    pub apple_total: u32,
    pub cider: u32,
    pub cider_total: u32,
    pub time_left: u32,
    pub time_total: u32,
    pub total: u32,
}

/// What the game-over screen shows.
#[derive(Clone, Copy, Debug, PartialEq, Eq, Structural)]
pub struct GameOver {
    /// The jingle to play.
    pub sound: Sound,
    /// The points, if the session was won.
    pub score: Option<ScoreSheet>,
}

impl GameStatus {
    /// The status after `outcome` has been reported: the first outcome
    /// stands, and later reports change nothing.
    pub open spec fn concluded(self, outcome: GameStatus) -> GameStatus {
        if self == GameStatus::InProgress {
            outcome
        } else {
            self
        }
    }

    /// Whether the session was won.
    pub fn won(&self) -> (b: bool)
        ensures
            b == (*self == GameStatus::Win),
    {
        *self == GameStatus::Win
    }

    /// Whether the session was lost.
    pub fn lost(&self) -> (b: bool)
        ensures
            b == (*self == GameStatus::Lose),
    {
        *self == GameStatus::Lose
    }
}

impl Default for GameStatus {
    fn default() -> (s: GameStatus)
        ensures
            s == GameStatus::InProgress,
    {
        GameStatus::InProgress
    }
}

impl Default for GameState {
    fn default() -> (s: GameState)
        ensures
            s == GameState::NotRunning,
    {
        GameState::NotRunning
    }
}

impl Default for AppState {
    fn default() -> (s: AppState)
        ensures
            s == AppState::Preload,
    {
        AppState::Preload
    }
}

impl Default for GameTimer {
    fn default() -> (t: GameTimer)
        ensures
            t.0 == Timer::fresh(TIME_BUDGET, TimerMode::Once),
    {
        GameTimer(Timer::new(TIME_BUDGET, TimerMode::Once))
    }
}

impl Default for TargetHeight {
    fn default() -> (h: TargetHeight)
        ensures
            h.0 == TARGET_HEIGHT,
    {
        TargetHeight(TARGET_HEIGHT)
    }
}

impl Default for AppleBasket {
    fn default() -> (b: AppleBasket)
        ensures
            b.0 == 0,
    {
        AppleBasket(0)
    }
}

impl Default for TotalPoints {
    fn default() -> (p: TotalPoints)
        ensures
            p.0 == 0,
    {
        TotalPoints(0)
    }
}

/// The status that a report leaves, and the signal that goes out: the
/// outcome, if the report is the one that ended the session.
pub open spec fn signal(before: GameStatus, met: bool, outcome: GameStatus) -> Option<GameStatus> {
    if met && before == GameStatus::InProgress {
        Some(outcome)
    } else {
        None
    }
}

impl Session {
    /// The countdown is a valid one-shot timer.
    pub open spec fn wf(self) -> bool {
        &&& self.timer.0.wf()
        &&& self.timer.0.mode == TimerMode::Once
    }

    /// A session that has not begun: full clock, empty basket, in progress, not running.
    pub open spec fn fresh() -> Session {
        Session {
            timer: GameTimer(Timer::fresh(TIME_BUDGET, TimerMode::Once)),
            target_height: TargetHeight(TARGET_HEIGHT),
            basket: AppleBasket(0),
            total_points: TotalPoints(0),
            status: GameStatus::InProgress,
            state: GameState::NotRunning,
        }
    }

    /// The session after the condition for `outcome` has been tested: if it
    /// is met while the session is in progress, the session ends with that
    /// outcome and stops running.
    pub open spec fn ended_if(self, met: bool, outcome: GameStatus) -> Session {
        if met && self.status == GameStatus::InProgress {
            Session { status: outcome, state: GameState::NotRunning, ..self }
        } else {
            self
        }
    }

    /// Tests at run time whether the session is well formed.
    pub fn is_wf(&self) -> (b: bool)
        ensures
            b == self.wf(),
    {
        self.timer.0.is_wf() && self.timer.0.mode == TimerMode::Once
    }

    /// Tests at run time whether the points of the session fit their counter.
    pub fn score_fits(&self) -> (b: bool)
        requires
            self.wf(),
        ensures
            b == (score(self.basket.0 as int, self.timer.0.remaining_secs_ceil()) <= u32::MAX),
    {
        let apples = self.basket.0 as u128;
        let seconds = self.timer.0.remaining_secs() as u128;
        apples * 12 + seconds * 2 + (apples / 10) * 500 <= 0xffff_ffff
    }

    /// Creates a session that has not begun.
    pub fn new() -> (s: Session)
        ensures
            s == Session::fresh(),
            s.wf(),
    {
        Session {
            timer: GameTimer(Timer::new(TIME_BUDGET, TimerMode::Once)),
            target_height: TargetHeight(TARGET_HEIGHT),
            basket: AppleBasket(0),
            total_points: TotalPoints(0),
            status: GameStatus::InProgress,
            state: GameState::NotRunning,
        }
    }

    /// Starts a new session: everything is as in a session that has not begun.
    pub fn reset(&mut self)
        ensures
            *final(self) == Session::fresh(),
            final(self).wf(),
    {
        *self = Session::new();
    }

    /// Ends the session with `outcome` if `met` holds and it is still in
    /// progress; returns the outcome if it did.
    pub fn end_if(&mut self, met: bool, outcome: GameStatus) -> (ended: Option<GameStatus>)
        ensures
            *final(self) == old(self).ended_if(met, outcome),
            ended == signal(old(self).status, met, outcome),
    {
        if met && self.status == GameStatus::InProgress {
            self.status = outcome;
            self.state = GameState::NotRunning;
            Some(outcome)
        } else {
            None
        }
    }
}

/// Starts stepping the simulation.
pub fn press_space_to_start(session: &mut Session)
    ensures
        *final(session) == (Session { state: GameState::Running, ..*old(session) }),
{
    session.state = GameState::Running;
}

/// Once a session has ended, no report changes its outcome or sends a signal.
pub proof fn outcome_is_final(s: Session, met: bool, outcome: GameStatus)
    requires
        s.status != GameStatus::InProgress,
    ensures
        s.ended_if(met, outcome) == s,
        signal(s.status, met, outcome) is None,
{
}

/// Advances the countdown by `dt` and tells what the clock shows. The
/// session is lost when the countdown has run out.
pub fn update_timeboard(session: &mut Session, dt: u32) -> (report: TimeReport)
    requires
        old(session).wf(),
    ensures
        final(session).timer.0 == old(session).timer.0.ticked(dt),
        *final(session) == (Session {
            timer: GameTimer(old(session).timer.0.ticked(dt)),
            ..*old(session)
        }).ended_if(old(session).timer.0.ticked(dt).finished, GameStatus::Lose),
        report.seconds_left == final(session).timer.0.remaining_secs_ceil(),
        report.ended == signal(
            old(session).status,
            final(session).timer.0.finished,
            GameStatus::Lose,
        ),
        final(session).wf(),
{
    session.timer.0.tick(dt);
    let seconds_left = session.timer.0.remaining_secs();
    let out = session.timer.0.finished();
    let ended = session.end_if(out, GameStatus::Lose);
    TimeReport { seconds_left, ended }
}

/// Whether a health icon goes away at `health`: the fifth at 80, the fourth
/// and fifth at 60, and so on down to the first at 0.
pub open spec fn icon_lost(health: int, icon: HealthBar) -> bool {
    ||| health == 80 && icon.0 >= 4
    ||| health == 60 && icon.0 >= 3
    ||| health == 40 && icon.0 >= 2
    ||| health == 20 && icon.0 >= 1
    ||| health == 0 && icon.0 == 0
}

/// Whether a health icon goes away at `health`.
pub fn health_icon_lost(health: i32, icon: &HealthBar) -> (lost: bool)
    ensures
        lost == icon_lost(health as int, *icon),
{
    (health == 80 && icon.0 >= 4) || (health == 60 && icon.0 >= 3) || (health == 40 && icon.0
        >= 2) || (health == 20 && icon.0 >= 1) || (health == 0 && icon.0 == 0)
}

/// Looks at the character's health. The session is lost when no health is left.
pub fn update_healthboard(session: &mut Session, dino: &Dino) -> (ended: Option<GameStatus>)
    ensures
        *final(session) == old(session).ended_if(dino.health <= 0, GameStatus::Lose),
        ended == signal(old(session).status, dino.health <= 0, GameStatus::Lose),
{
    session.end_if(dino.health <= 0, GameStatus::Lose)
}

/// Height still to climb from `y` to `target`, in whole units, rounded up.
pub open spec fn remaining_height(target: int, y: int) -> int {
    -floor_div(y - target, UNIT as int)
}

/// The remaining height reads zero or less exactly when the target is reached.
pub proof fn remaining_height_reaches_zero(target: int, y: int)
    ensures
        remaining_height(target, y) <= 0 <==> target - y <= 0,
{
}

/// Tells how far the character still has to climb. The session is won when
/// nothing is left.
pub fn update_heightboard(session: &mut Session, dino: &Dino) -> (report: HeightReport)
    requires
        -LIMIT <= old(session).target_height.0 <= LIMIT,
        -2 * SPAN <= dino.position.y <= 2 * SPAN,
    ensures
        *final(session) == old(session).ended_if(
            old(session).target_height.0 - dino.position.y <= 0,
            GameStatus::Win,
        ),
        report.remaining == remaining_height(
            old(session).target_height.0 as int,
            dino.position.y as int,
        ),
        report.ended == signal(
            old(session).status,
            old(session).target_height.0 - dino.position.y <= 0,
            GameStatus::Win,
        ),
        report.remaining <= 0 <==> old(session).target_height.0 - dino.position.y <= 0,
        final(session).status == (if report.remaining <= 0 {
            old(session).status.concluded(GameStatus::Win)
        } else {
            old(session).status
        }),
{
    let left: i64 = session.target_height.0 - dino.position.y;
    let remaining = -div_floor((-left) as i128, UNIT as i128);
    let ended = session.end_if(left <= 0, GameStatus::Win);
    HeightReport { remaining: remaining as i64, ended }
}

/// What the apple counter shows.
pub fn update_scoreboard(session: &Session) -> (apples: u32)
    ensures
        apples == session.basket.0,
{
    session.basket.0
}

/// The points of a won session: twelve for each apple, two for each second
/// left, and five hundred for every ten apples.
pub open spec fn score(apples: int, seconds_left: int) -> int {
    apples * POINTS_PER_APPLE + seconds_left * POINTS_PER_SECOND + (apples / (
    APPLES_PER_CIDER as int)) * POINTS_PER_CIDER
}

/// The score sheet for `apples` apples and `seconds_left` seconds.
pub open spec fn score_sheet(apples: u32, seconds_left: u32) -> ScoreSheet {
    ScoreSheet {
        apples,
        apple_total: (apples * POINTS_PER_APPLE) as u32,
        cider: apples / APPLES_PER_CIDER,
        cider_total: ((apples / APPLES_PER_CIDER) * POINTS_PER_CIDER) as u32,
        time_left: seconds_left,
        time_total: (seconds_left * POINTS_PER_SECOND) as u32,
        total: score(apples as int, seconds_left as int) as u32,
    }
}

/// What the game-over screen shows for a session, and the points that the
/// session is left with: those of the score sheet after a win, none after a
/// loss. Nothing while the session is in progress.
pub open spec fn game_over(session: Session, sfx: bool) -> Option<GameOver> {
    match session.status {
        GameStatus::InProgress => None,
        GameStatus::Win => Some(
            GameOver {
                sound: cue(SoundEffect::Win, 1, sfx),
                score: Some(
                    score_sheet(session.basket.0, session.timer.0.remaining_secs_ceil() as u32),
                ),
            },
        ),
        GameStatus::Lose => Some(GameOver { sound: cue(SoundEffect::Lose, 1, sfx), score: None }),
    }
}

/// Adds up the points of a finished session and tells what the game-over
/// screen shows.
pub fn game_over_scoreboard(session: &mut Session, sfx: bool) -> (shown: Option<GameOver>)
    requires
        old(session).wf(),
        score(
            old(session).basket.0 as int,
            old(session).timer.0.remaining_secs_ceil(),
        ) <= u32::MAX,
    ensures
        shown == game_over(*old(session), sfx),
        *final(session) == (Session {
            total_points: TotalPoints(
                match old(session).status {
                    GameStatus::InProgress => old(session).total_points.0,
                    GameStatus::Win => score(
                        old(session).basket.0 as int,
                        old(session).timer.0.remaining_secs_ceil(),
                    ) as u32,
                    GameStatus::Lose => 0,
                },
            ),
            ..*old(session)
        }),
{
    if session.status.won() {
        let apples = session.basket.0;
        let time_left = session.timer.0.remaining_secs() as u32;
        let apple_total = apples * POINTS_PER_APPLE;
        let time_total = time_left * POINTS_PER_SECOND;
        let cider = apples / APPLES_PER_CIDER;
        let cider_total = cider * POINTS_PER_CIDER;
        let total = apple_total + time_total + cider_total;
        session.total_points = TotalPoints(total);
        Some(
            GameOver {
                sound: Sound::new(SoundEffect::Win, 1, sfx),
                score: Some(
                    ScoreSheet {
                        apples,
                        apple_total,
                        cider,
                        cider_total,
                        time_left,
                        time_total,
                        total,
                    },
                ),
            },
        )
    } else if session.status.lost() {
        session.total_points = TotalPoints(0);
        Some(GameOver { sound: Sound::new(SoundEffect::Lose, 1, sfx), score: None })
    } else {
        None
    }
}

} // verus!
