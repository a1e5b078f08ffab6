//! Collecting pickups: a pickup that the character touches is taken out of
//! the world at once, and its effect applied.

use vstd::prelude::*;
use crate::geometry::Aabb;
use crate::obstacle::{Apple, TimeExtender};
use crate::session::{GameTimer, Session, TIME_EXTENSION};
use crate::sound::{cue, Sound, SoundEffect};
use crate::timer::{Timer, TimerMode, MAX_DURATION};

verus! {

/// What one round of collecting took.
#[derive(Debug)]
pub struct Collection {
    /// Where the pickups taken stood in the list before the round, in rising order.
    pub taken: Vec<usize>,
    /// One sound for each pickup taken.
    pub sounds: Vec<Sound>,
}

/// The apples of `list` that do not touch `target`, in order.
pub open spec fn apples_left(list: Seq<Apple>, target: Aabb) -> Seq<Apple>
    decreases list.len(),
{
    if list.len() == 0 {
        list
    } else if list.last().aabb.overlaps(target) {
        apples_left(list.drop_last(), target)
    } else {
        apples_left(list.drop_last(), target).push(list.last())
    }
}

/// Where in `list` the apples that touch `target` stand, in rising order.
pub open spec fn apples_touched(list: Seq<Apple>, target: Aabb) -> Seq<usize>
    decreases list.len(),
{
    if list.len() == 0 {
        Seq::empty()
    } else if list.last().aabb.overlaps(target) {
        apples_touched(list.drop_last(), target).push((list.len() - 1) as usize)
    } else {
        apples_touched(list.drop_last(), target)
    }
}

/// The time extenders of `list` that do not touch `target`, in order.
pub open spec fn clocks_left(list: Seq<TimeExtender>, target: Aabb) -> Seq<TimeExtender>
    decreases list.len(),
{
    if list.len() == 0 {
        list
    } else if list.last().aabb.overlaps(target) {
        clocks_left(list.drop_last(), target)
    } else {
        clocks_left(list.drop_last(), target).push(list.last())
    }
}

/// Where in `list` the time extenders that touch `target` stand, in rising order.
pub open spec fn clocks_touched(list: Seq<TimeExtender>, target: Aabb) -> Seq<usize>
    decreases list.len(),
{
    if list.len() == 0 {
        Seq::empty()
    } else if list.last().aabb.overlaps(target) {
        clocks_touched(list.drop_last(), target).push((list.len() - 1) as usize)
    } else {
        clocks_touched(list.drop_last(), target)
    }
}

/// Every apple is either left or touched, none both; what is left touches nothing.
pub proof fn apples_are_split(list: Seq<Apple>, target: Aabb)
    requires
        list.len() <= usize::MAX,
    ensures
        apples_left(list, target).len() + apples_touched(list, target).len() == list.len(),
        forall|i: int|
            0 <= i < apples_left(list, target).len() ==> !(#[trigger] apples_left(
                list,
                target,
            )[i]).aabb.overlaps(target),
        forall|i: int|
            0 <= i < apples_touched(list, target).len() ==> {
                let at = #[trigger] apples_touched(list, target)[i];
                at < list.len() && list[at as int].aabb.overlaps(target)
            },
    decreases list.len(),
{
    if list.len() > 0 {
        apples_are_split(list.drop_last(), target);
    }
}

/// Every time extender is either left or touched, none both; what is left touches nothing.
pub proof fn clocks_are_split(list: Seq<TimeExtender>, target: Aabb)
    requires
        list.len() <= usize::MAX,
    ensures
        clocks_left(list, target).len() + clocks_touched(list, target).len() == list.len(),
        forall|i: int|
            0 <= i < clocks_left(list, target).len() ==> !(#[trigger] clocks_left(
                list,
                target,
            )[i]).aabb.overlaps(target),
        forall|i: int|
            0 <= i < clocks_touched(list, target).len() ==> {
                let at = #[trigger] clocks_touched(list, target)[i];
                at < list.len() && list[at as int].aabb.overlaps(target)
            },
    decreases list.len(),
{
    if list.len() > 0 {
        clocks_are_split(list.drop_last(), target);
    }
}

/// Collecting again at once takes nothing: what was left touches nothing.
pub proof fn nothing_is_taken_twice(list: Seq<Apple>, target: Aabb)
    ensures
        apples_left(apples_left(list, target), target) == apples_left(list, target),
        apples_touched(apples_left(list, target), target).len() == 0,
    decreases list.len(),
{
    if list.len() > 0 {
        let rest = list.drop_last();
        nothing_is_taken_twice(rest, target);
        if !list.last().aabb.overlaps(target) {
            let left = apples_left(list, target);
            assert(left.drop_last() =~= apples_left(rest, target));
        }
    }
}

/// The sounds of `count` pickups taken.
pub open spec fn collect_sounds(count: nat, sfx: bool) -> Seq<Sound> {
    Seq::new(count, |i: int| cue(SoundEffect::Collect, 1, sfx))
}

/// The countdown after `count` time extenders: each starts it over with what
/// remained and a minute more.
pub open spec fn extended(timer: Timer, count: nat) -> Timer {
    if count == 0 {
        timer
    } else {
        Timer::fresh(
            (timer.remaining_micros() + count * TIME_EXTENSION) as u64,
            TimerMode::Once,
        )
    }
}

/// Lets the character collect the apples that it touches: each goes from
/// the world into the basket and makes a sound.
pub fn apple_collect(apples: &mut Vec<Apple>, dino_box: &Aabb, session: &mut Session, sfx: bool) -> (round:
    Collection)
    requires
        old(session).basket.0 + old(apples).len() <= u32::MAX,
    ensures
        final(apples)@ == apples_left(old(apples)@, *dino_box),
        round.taken@ == apples_touched(old(apples)@, *dino_box),
        round.sounds@ == collect_sounds(round.taken@.len(), sfx),
        final(session).basket.0 == old(session).basket.0 + round.taken@.len(),
        *final(session) == (Session { basket: final(session).basket, ..*old(session) }),
{
    let mut left: Vec<Apple> = Vec::new();
    let mut taken: Vec<usize> = Vec::new();
    let mut sounds: Vec<Sound> = Vec::new();
    let mut i: usize = 0;
    while i < apples.len()
        invariant
            i <= apples.len(),
            *apples == *old(apples),
            left@ == apples_left(apples@.take(i as int), *dino_box),
            taken@ == apples_touched(apples@.take(i as int), *dino_box),
            sounds@ == collect_sounds(taken@.len(), sfx),
            taken@.len() <= i,
        decreases apples.len() - i,
    {
        proof {
            assert(apples@.take(i + 1).drop_last() =~= apples@.take(i as int));
            assert(apples@.take(i + 1).last() == apples@[i as int]);
        }
        if apples[i].aabb.intersects(dino_box) {
            taken.push(i);
            sounds.push(Sound::new(SoundEffect::Collect, 1, sfx));
            assert(sounds@ =~= collect_sounds(taken@.len(), sfx));
        } else {
            left.push(apples[i]);
        }
        i += 1;
    }
    assert(apples@.take(apples.len() as int) =~= apples@);
    session.basket.0 = session.basket.0 + taken.len() as u32;
    *apples = left;
    Collection { taken, sounds }
}

/// Lets the character collect the time extenders that it touches: each goes
/// from the world, starts the countdown over with a minute more than
/// remained, and makes a sound.
pub fn clock_collect(
    clocks: &mut Vec<TimeExtender>,
    dino_box: &Aabb,
    session: &mut Session,
    sfx: bool,
) -> (round: Collection)
    requires
        old(session).timer.0.wf(),
        old(session).timer.0.duration + old(clocks).len() * TIME_EXTENSION <= MAX_DURATION,
    ensures
        final(clocks)@ == clocks_left(old(clocks)@, *dino_box),
        round.taken@ == clocks_touched(old(clocks)@, *dino_box),
        round.sounds@ == collect_sounds(round.taken@.len(), sfx),
        final(session).timer.0 == extended(old(session).timer.0, round.taken@.len()),
        final(session).timer.0.wf(),
        *final(session) == (Session { timer: final(session).timer, ..*old(session) }),
{
    let mut left: Vec<TimeExtender> = Vec::new();
    let mut taken: Vec<usize> = Vec::new();
    let mut sounds: Vec<Sound> = Vec::new();
    let mut i: usize = 0;
    while i < clocks.len()
        invariant
            i <= clocks.len(),
            *clocks == *old(clocks),
            *session == *old(session),
            left@ == clocks_left(clocks@.take(i as int), *dino_box),
            taken@ == clocks_touched(clocks@.take(i as int), *dino_box),
            sounds@ == collect_sounds(taken@.len(), sfx),
            taken@.len() <= i,
        decreases clocks.len() - i,
    {
        proof {
            assert(clocks@.take(i + 1).drop_last() =~= clocks@.take(i as int));
            assert(clocks@.take(i + 1).last() == clocks@[i as int]);
        }
        if clocks[i].aabb.intersects(dino_box) {
            taken.push(i);
            sounds.push(Sound::new(SoundEffect::Collect, 1, sfx));
            assert(sounds@ =~= collect_sounds(taken@.len(), sfx));
        } else {
            left.push(clocks[i]);
        }
        i += 1;
    }
    assert(clocks@.take(clocks.len() as int) =~= clocks@);
    if taken.len() > 0 {
        assert(taken.len() * TIME_EXTENSION <= clocks.len() * TIME_EXTENSION) by (nonlinear_arith)
            requires
                taken.len() <= clocks.len(),
        ;
        let more: u64 = taken.len() as u64 * TIME_EXTENSION;
        session.timer = GameTimer(Timer::new(session.timer.0.remaining() + more, TimerMode::Once));
    }
    *clocks = left;
    Collection { taken, sounds }
}

} // verus!
