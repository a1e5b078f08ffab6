//! Sound cues that the simulation hands to whoever plays audio.

use vstd::prelude::*;

verus! {

/// The occasions on which a sound is played.
#[derive(Clone, Copy, Debug, PartialEq, Eq, Structural)]
pub enum SoundEffect {
    /// A jump leaves the ground.
    Jump,
    /// An attack starts.
    Swoosh,
    /// An attack connects with an obstacle.
    Impact,
    /// A footstep while walking.
    Step,
    /// A hard landing.
    Thud,
    /// A pickup is collected.
    Collect,
    /// The session is won.
    Win,
    /// The session is lost.
    Lose,
}

/// A request to play one sound, fire and forget.
#[derive(Clone, Copy, Debug, PartialEq, Eq, Structural)]
pub struct Sound {
    pub effect: SoundEffect,
    /// Which recording of the effect to play; for a thud, how severe the impact was.
    pub variant: u32,
    /// Loudness in percent of the recording's own level.
    pub volume: u32,
}

/// Whether music and sound effects are switched on.
#[derive(Clone, Copy, Debug, PartialEq, Eq, Structural)]
pub struct SfxMusicVolume {
    pub music: bool,
    pub sfx: bool,
}

/// Loudness of each effect while sound effects are switched on, in percent.
pub open spec fn full_volume(effect: SoundEffect) -> u32 {
    match effect {
        SoundEffect::Jump => 50,
        SoundEffect::Swoosh => 50,
        SoundEffect::Impact => 25,
        SoundEffect::Step => 100,
        SoundEffect::Thud => 200,
        SoundEffect::Collect => 250,
        SoundEffect::Win => 50,
        SoundEffect::Lose => 80,
    }
}

/// The cue for `effect`: at full volume with sound effects on, silent otherwise.
pub open spec fn cue(effect: SoundEffect, variant: u32, sfx: bool) -> Sound {
    Sound { effect, variant, volume: if sfx { full_volume(effect) } else { 0 } }
}

impl Sound {
    /// Builds the cue for `effect`.
    pub fn new(effect: SoundEffect, variant: u32, sfx: bool) -> (s: Sound)
        ensures
            s == cue(effect, variant, sfx),
    {
        let full: u32 = match effect {
            SoundEffect::Jump => 50,
            SoundEffect::Swoosh => 50,
            SoundEffect::Impact => 25,
            SoundEffect::Step => 100,
            SoundEffect::Thud => 200,
            SoundEffect::Collect => 250,
            SoundEffect::Win => 50,
            SoundEffect::Lose => 80,
        };
        Sound { effect, variant, volume: if sfx { full } else { 0 } }
    }
}

/// Switches music on or off; returns the icon frame to show: 0 for on, 1 for off.
pub fn toggle_music_on_click(volume: &mut SfxMusicVolume) -> (icon: usize)
    ensures
        final(volume).music == !old(volume).music,
        final(volume).sfx == old(volume).sfx,
        icon == (if final(volume).music { 0usize } else { 1usize }),
{
    volume.music = !volume.music;
    if volume.music {
        0
    } else {
        1
    }
}

/// Switches sound effects on or off; returns the icon frame to show: 0 for on, 1 for off.
pub fn toggle_sfx_on_click(volume: &mut SfxMusicVolume) -> (icon: usize)
    ensures
        final(volume).sfx == !old(volume).sfx,
        final(volume).music == old(volume).music,
        icon == (if final(volume).sfx { 0usize } else { 1usize }),
{
    volume.sfx = !volume.sfx;
    if volume.sfx {
        0
    } else {
        1
    }
}

impl Default for SfxMusicVolume {
    fn default() -> (v: SfxMusicVolume)
        ensures
            v.music && v.sfx,
    {
        SfxMusicVolume { music: true, sfx: true }
    }
}

} // verus!
