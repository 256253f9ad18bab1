use vstd::prelude::*;

use crate::config::{in_force, Schedule};
use crate::playback::Playback;
use crate::stats::{quotient, saturated, ticks_for, Instant, UNITS_PER_SECOND};

verus! {

/// How long a loop counts when the media reports no duration: one minute.
pub const UNKNOWN_DURATION_100NS: i64 = 600_000_000;

/// Hundreds of nanoseconds from minute `now` of the day until minute `target`
/// comes round again: later today, or tomorrow when it is now or already past.
pub open spec fn wait_until(target: int, now: int) -> int {
    let delta = if target - now <= 0 {
        target - now + 1440
    } else {
        target - now
    };
    saturated(saturated(delta * 60) * UNITS_PER_SECOND)
}

pub fn minutes_until(target_minute: u16, now: u16) -> (wait: i64)
    ensures
        wait == wait_until(target_minute as int, now as int),
{
    let mut delta = target_minute as i64 - now as i64;
    if delta <= 0 {
        delta = delta + 24 * 60;
    }
    crate::stats::saturating_mul(crate::stats::saturating_mul(delta, 60), UNITS_PER_SECOND)
}

/// A scheduled time never waits longer than a day.
pub proof fn wait_is_at_most_a_day(target: u16, now: u16)
    requires
        target < 1440,
        now < 1440,
    ensures
        0 < wait_until(target as int, now as int) <= 1440 * 60 * UNITS_PER_SECOND,
{
}

/// How long `times` loops of a media lasting `duration` hundreds of
/// nanoseconds stay on screen; at least one loop, and one minute per loop
/// when the duration is unknown.
pub open spec fn loops_duration(times: int, duration: int) -> int {
    let once = if duration > 0 {
        duration
    } else {
        UNKNOWN_DURATION_100NS as int
    };
    let count = if times > 1 {
        times
    } else {
        1
    };
    saturated(once * count)
}

pub fn loops_duration_100ns(times: u32, media_duration_100ns: i64) -> (hold: i64)
    ensures
        hold == loops_duration(times as int, media_duration_100ns as int),
        hold > 0,
{
    let once = if media_duration_100ns > 0 {
        media_duration_100ns
    } else {
        UNKNOWN_DURATION_100NS
    };
    let count: u32 = if times > 1 { times } else { 1 };
    proof {
        assert(once * count >= once) by (nonlinear_arith)
            requires
                once > 0,
                count >= 1,
        ;
    }
    crate::stats::saturating_mul(once, count as i64)
}

/// `index` held to the items of a playlist of `length` (the last one when it
/// points past the end).
pub open spec fn clamped(index: int, length: int) -> int {
    let last = if length > 0 {
        length - 1
    } else {
        0
    };
    if index < last {
        index
    } else {
        last
    }
}

pub fn clamp_slide(index: usize, length: usize) -> (slide: usize)
    ensures
        slide == clamped(index as int, length as int),
{
    let last = length.saturating_sub(1);
    if index < last {
        index
    } else {
        last
    }
}

/// The item after `current`, wrapping to the first.
pub fn next_in_order(current: usize, length: usize) -> (next: usize)
    requires
        length > 0,
        current < length,
    ensures
        next == (current + 1) % (length as int),
{
    (current + 1) % length
}

/// Which item a playlist of `length` shows after `current` when its time is
/// up: with a schedule, the item in force at minute `now` (held to the list);
/// otherwise the next item in order.
pub fn next_slide(schedule: &Schedule, now: u16, current: usize, length: usize) -> (next: usize)
    requires
        length > 0,
        current < length,
    ensures
        next < length,
        !schedule.enabled || schedule.entries@.len() == 0 ==> next == (current + 1) % (length as int),
        schedule.enabled && schedule.entries@.len() != 0 ==> exists|i: int|
            in_force(schedule.entries@, now as int, i) && next == clamped(
                #[trigger] schedule.entries@[i].slide as int,
                length as int,
            ),
{
    match schedule.active_at(now) {
        Some((slide, _)) => clamp_slide(slide, length),
        None => next_in_order(current, length),
    }
}

/// The nearest of two optional deadlines.
pub fn earliest(frame: Option<i64>, switch: Option<i64>) -> (first: Option<i64>)
    ensures
        first == match (frame, switch) {
            (Some(f), Some(s)) => Some(if f < s { f } else { s }),
            (Some(f), None) => Some(f),
            (None, Some(s)) => Some(s),
            (None, None) => None::<i64>,
        },
{
    match (frame, switch) {
        (Some(frame), Some(switch)) => Some(if frame < switch { frame } else { switch }),
        (Some(frame), None) => Some(frame),
        (None, Some(switch)) => Some(switch),
        (None, None) => None,
    }
}

/// How long a paused video keeps its decoder before releasing it: two minutes.
pub const RELEASE_AFTER_100NS: i64 = 1_200_000_000;

/// The time left until an instant at counter value `due`, seen from `counter`,
/// never negative.
pub open spec fn remaining_at(due: int, counter: int, frequency: int) -> int {
    let left = quotient(saturated((due - counter) * UNITS_PER_SECOND), frequency);
    if left > 0 {
        left
    } else {
        0
    }
}

/// A monitor's playback state and the clocks that a pause holds still.
pub struct Pause {
    pub state: Playback,
    /// When the playlist moves on, while playing.
    pub switch_at: Option<Instant>,
    /// What was left of the current item's time when playback stopped.
    pub paused_remaining: Option<i64>,
    /// When a stopped video gives its decoder back.
    pub release_at: Option<Instant>,
}

/// The counter value of an optional instant.
pub open spec fn at_of(instant: Option<Instant>) -> Option<int> {
    match instant {
        Some(i) => Some(i.at()),
        None => None,
    }
}

impl Pause {
    /// Playing, with nothing scheduled.
    pub fn new() -> (pause: Self)
        ensures
            pause.state == Playback::Playing,
            pause.switch_at is None,
            pause.paused_remaining is None,
            pause.release_at is None,
    {
        Pause { state: Playback::Playing, switch_at: None, paused_remaining: None, release_at: None }
    }

    /// Whether `set_state` stays within the range of the counter.
    pub open spec fn fits(self, counter: int, frequency: int) -> bool {
        &&& frequency > 0
        &&& self.switch_at matches Some(at) ==> i64::MIN <= at.at() - counter <= i64::MAX
        &&& i64::MIN <= counter + ticks_for(RELEASE_AFTER_100NS as int, frequency) <= i64::MAX
        &&& self.paused_remaining matches Some(r) ==> i64::MIN <= counter + ticks_for(r as int, frequency)
            <= i64::MAX
    }

    /// Moves to `state` at the counter reading `counter`; reports whether it
    /// changed. Leaving playback keeps what was left of the current item's time
    /// and, for a video, schedules the release of its decoder; coming back
    /// cancels the release and, unless a schedule decides, restarts the item's
    /// time where it stopped.
    pub fn set_state(
        &mut self,
        state: Playback,
        schedule_enabled: bool,
        video: bool,
        counter: i64,
        frequency: i64,
    ) -> (changed: bool)
        requires
            old(self).fits(counter as int, frequency as int),
        ensures
            changed == (old(self).state != state),
            final(self).state == state,
            !changed ==> *final(self) == *old(self),
            changed && state == Playback::Playing ==> {
                &&& final(self).release_at is None
                &&& final(self).paused_remaining == if schedule_enabled {
                    old(self).paused_remaining
                } else {
                    None
                }
                &&& at_of(final(self).switch_at) == if schedule_enabled {
                    at_of(old(self).switch_at)
                } else {
                    match old(self).paused_remaining {
                        Some(r) => Some(counter + ticks_for(r as int, frequency as int)),
                        None => None::<int>,
                    }
                }
            },
            changed && state != Playback::Playing && old(self).state == Playback::Playing ==> {
                &&& at_of(final(self).switch_at) == at_of(old(self).switch_at)
                &&& final(self).paused_remaining == match at_of(old(self).switch_at) {
                    Some(due) => Some(remaining_at(due, counter as int, frequency as int) as i64),
                    None => None::<i64>,
                }
                &&& at_of(final(self).release_at) == if video {
                    Some(counter + ticks_for(RELEASE_AFTER_100NS as int, frequency as int))
                } else {
                    None::<int>
                }
            },
            changed && state != Playback::Playing && old(self).state != Playback::Playing ==> {
                &&& at_of(final(self).switch_at) == at_of(old(self).switch_at)
                &&& final(self).paused_remaining == old(self).paused_remaining
                &&& at_of(final(self).release_at) == at_of(old(self).release_at)
            },
    {
        if self.state == state {
            return false;
        }
        if state == Playback::Playing {
            self.release_at = None;
            if !schedule_enabled {
                self.switch_at = match self.paused_remaining.take() {
                    Some(remaining) => Some(Instant::after(remaining, counter, frequency)),
                    None => None,
                };
            }
        } else if self.state == Playback::Playing {
            self.paused_remaining = match &self.switch_at {
                Some(at) => {
                    let left = at.until_100ns(counter, frequency);
                    Some(if left > 0 { left } else { 0 })
                },
                None => None,
            };
            self.release_at = if video {
                Some(Instant::after(RELEASE_AFTER_100NS, counter, frequency))
            } else {
                None
            };
        }
        self.state = state;
        true
    }
}

/// A pause does not eat into the current item's time: what was left when
/// playback stopped is what is left when it resumes. Stopping at `stopped`
/// with the switch due at `due`, and resuming at `resumed`, moves the switch
/// to `resumed` plus what was left.
pub proof fn pause_keeps_remaining_time(due: int, stopped: int, resumed: int, frequency: int)
    requires
        frequency > 0,
    ensures
        remaining_at(due, stopped, frequency) >= 0,
        due >= stopped && (due - stopped) * UNITS_PER_SECOND <= i64::MAX ==> remaining_at(due, stopped, frequency) == (due - stopped) * UNITS_PER_SECOND / frequency,
        due <= stopped ==> remaining_at(due, stopped, frequency) == 0,
{
    if due >= stopped && (due - stopped) * UNITS_PER_SECOND <= i64::MAX {
        assert((due - stopped) * UNITS_PER_SECOND >= 0) by (nonlinear_arith)
            requires
                due >= stopped,
        ;
    }
    if due <= stopped {
        assert((due - stopped) * UNITS_PER_SECOND <= 0) by (nonlinear_arith)
            requires
                due <= stopped,
        ;
        if (due - stopped) * UNITS_PER_SECOND >= i64::MIN {
            assert(-((due - stopped) * UNITS_PER_SECOND) >= 0);
        }
    }
}

} // verus!
