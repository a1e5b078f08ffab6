//! The wipe between screens: a short animation that switches the screen at
//! its darkest frame.

use vstd::prelude::*;
use crate::session::AppState;
use crate::timer::{Timer, TimerMode};

verus! {

/// Period of the wipe's frame timer, in microseconds.
pub const WIPE_PERIOD: u64 = 100_000;

/// The wipe that is under way.
#[derive(Clone, Copy, Debug, PartialEq, Eq, Structural)]
pub struct Transition {
    pub timer: Timer,
    /// The frame after which the wipe is over.
    pub last_frame: usize,
    /// The frame at which the screen is switched.
    pub pause_frame: usize,
}

/// What the wipe does in one tick.
#[derive(Clone, Copy, Debug, PartialEq, Eq, Structural)]
pub enum WipeStep {
    /// The frame timer has not run out: nothing happens.
    Wait,
    /// The next frame is shown.
    Advance,
    /// The next frame is shown and the screen is switched.
    Switch,
    /// The wipe is over and goes away.
    Finish,
}

/// The music that plays on a screen.
#[derive(Clone, Copy, Debug, PartialEq, Eq, Structural)]
pub enum Music {
    /// The music of the game.
    Game,
    /// The music of the menu and the other waiting screens.
    Waiting,
}

/// What the wipe does when its timer has run out while `frame` is shown: it
/// switches the screen on reaching the pause frame, goes on up to the last
/// frame, and is over after it.
pub open spec fn wipe_step(transition: Transition, frame: usize) -> WipeStep {
    if transition.pause_frame > 0 && frame == transition.pause_frame - 1 {
        WipeStep::Switch
    } else if frame < transition.last_frame {
        WipeStep::Advance
    } else {
        WipeStep::Finish
    }
}

/// The frame that the wipe shows after `step`.
pub open spec fn wipe_frame(frame: usize, step: WipeStep) -> usize {
    match step {
        WipeStep::Advance | WipeStep::Switch => (frame + 1) as usize,
        WipeStep::Wait | WipeStep::Finish => frame,
    }
}

/// The music that fades out while the screen changes to `next`: the game's
/// when the game is over, the waiting music when the game begins.
pub open spec fn fading_music(next: AppState) -> Option<Music> {
    match next {
        AppState::GameOver => Some(Music::Game),
        AppState::Game => Some(Music::Waiting),
        _ => None,
    }
}

impl Transition {
    /// The frame timer is valid.
    pub open spec fn wf(self) -> bool {
        self.timer.wf()
    }

    /// Creates a wipe that is over after `last_frame` and switches the screen at `pause_frame`.
    pub fn new(last_frame: usize, pause_frame: usize) -> (t: Transition)
        ensures
            t.timer == Timer::fresh(WIPE_PERIOD, TimerMode::Repeating),
            t.last_frame == last_frame,
            t.pause_frame == pause_frame,
            t.wf(),
    {
        Transition { timer: Timer::new(WIPE_PERIOD, TimerMode::Repeating), last_frame, pause_frame }
    }
}

/// Tells which music fades out while the screen changes to `next`.
pub fn music_to_fade(next: &AppState) -> (music: Option<Music>)
    ensures
        music == fading_music(*next),
{
    match next {
        AppState::GameOver => Some(Music::Game),
        AppState::Game => Some(Music::Waiting),
        _ => None,
    }
}

/// Advances the wipe by `dt` microseconds while `frame` is shown, and
/// returns what to do and the frame to show.
pub fn scene_transition(transition: &mut Transition, frame: usize, dt: u32) -> (next: (
    WipeStep,
    usize,
))
    requires
        old(transition).wf(),
        frame < usize::MAX,
    ensures
        final(transition).timer == old(transition).timer.ticked(dt),
        final(transition).last_frame == old(transition).last_frame,
        final(transition).pause_frame == old(transition).pause_frame,
        final(transition).wf(),
        next.0 == (if final(transition).timer.just_finished {
            wipe_step(*old(transition), frame)
        } else {
            WipeStep::Wait
        }),
        next.1 == wipe_frame(frame, next.0),
{
    transition.timer.tick(dt);
    if !transition.timer.just_finished() {
        (WipeStep::Wait, frame)
    } else if transition.pause_frame > 0 && frame == transition.pause_frame - 1 {
        (WipeStep::Switch, frame + 1)
    } else if frame < transition.last_frame {
        (WipeStep::Advance, frame + 1)
    } else {
        (WipeStep::Finish, frame)
    }
}

} // verus!
