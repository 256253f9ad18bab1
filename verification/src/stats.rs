use vstd::prelude::*;

verus! {

/// Hundreds of nanoseconds in one second: the unit every interval of the
/// engine is expressed in.
pub const UNITS_PER_SECOND: i64 = 10_000_000;

/// The clock rate assumed when the performance counter reports none.
pub const FALLBACK_FREQUENCY: i64 = 10_000_000;

/// `a * b`, held to the range of `i64` (what `i64::saturating_mul` returns).
pub open spec fn saturated(v: int) -> int {
    if v > i64::MAX {
        i64::MAX as int
    } else if v < i64::MIN {
        i64::MIN as int
    } else {
        v
    }
}

/// Integer division rounded toward zero, as Rust's `/` on signed integers.
pub open spec fn quotient(a: int, b: int) -> int
    recommends
        b > 0,
{
    if a >= 0 {
        a / b
    } else {
        -((-a) / b)
    }
}

/// Multiplies two `i64` values, saturating at the bounds of the type.
pub fn saturating_mul(a: i64, b: i64) -> (r: i64)
    ensures
        r == saturated(a * b),
{
    match a.checked_mul(b) {
        Some(v) => v,
        None => {
            if (a < 0) == (b < 0) {
                proof {
                    assert(a * b > i64::MAX) by (nonlinear_arith)
                        requires
                            (a < 0) == (b < 0),
                            a * b > i64::MAX || a * b < i64::MIN,
                    ;
                }
                i64::MAX
            } else {
                proof {
                    assert(a * b < i64::MIN) by (nonlinear_arith)
                        requires
                            (a < 0) != (b < 0),
                            a * b > i64::MAX || a * b < i64::MIN,
                    ;
                }
                i64::MIN
            }
        },
    }
}

/// The counter rate in use: the one the system reported, or the fallback
/// when it reported zero.
pub open spec fn effective_frequency(reported: int) -> int {
    if reported == 0 {
        FALLBACK_FREQUENCY as int
    } else {
        reported
    }
}

/// Chooses the counter rate from what the performance counter reported.
pub fn frequency(reported: i64) -> (rate: i64)
    ensures
        rate == effective_frequency(reported as int),
{
    if reported == 0 {
        FALLBACK_FREQUENCY
    } else {
        reported
    }
}

/// How many counter ticks an interval of `interval` hundreds of nanoseconds spans.
pub open spec fn ticks_for(interval: int, frequency: int) -> int {
    quotient(saturated(interval * frequency), UNITS_PER_SECOND as int)
}

/// A point on the high resolution clock, in counter ticks.
#[derive(Clone, Copy)]
pub struct Instant {
    ticks: i64,
}

impl Instant {
    /// The counter value this instant stands at.
    pub closed spec fn at(self) -> int {
        self.ticks as int
    }

    /// The instant whose counter value is the current reading `counter`.
    pub fn now(counter: i64) -> (instant: Self)
        ensures
            instant.at() == counter,
    {
        Self { ticks: counter }
    }

    /// The instant `interval` hundreds of nanoseconds after the reading `counter`.
    pub fn after(interval: i64, counter: i64, frequency: i64) -> (instant: Self)
        requires
            frequency > 0,
            i64::MIN <= counter + ticks_for(interval as int, frequency as int) <= i64::MAX,
        ensures
            instant.at() == counter + ticks_for(interval as int, frequency as int),
    {
        let step = saturating_mul(interval, frequency) / UNITS_PER_SECOND;
        Self { ticks: counter + step }
    }

    /// Hundreds of nanoseconds from the reading `counter` until this instant;
    /// negative once it has passed.
    pub fn until_100ns(&self, counter: i64, frequency: i64) -> (remaining: i64)
        requires
            frequency > 0,
            i64::MIN <= self.at() - counter <= i64::MAX,
        ensures
            remaining == quotient(
                saturated((self.at() - counter) * UNITS_PER_SECOND),
                frequency as int,
            ),
    {
        saturating_mul(self.ticks - counter, UNITS_PER_SECOND) / frequency
    }

    /// Whether `advance_100ns` stays within the range of the counter.
    pub open spec fn advance_fits(self, interval: int, counter: int, frequency: int) -> bool {
        let step = ticks_for(interval, frequency);
        &&& i64::MIN <= self.at() + step <= i64::MAX
        &&& i64::MIN <= step * 3 <= i64::MAX
        &&& i64::MIN <= counter - step * 3 <= i64::MAX
        &&& self.at() + step < counter - step * 3 ==> i64::MIN <= counter + step <= i64::MAX
    }

    /// Moves the instant one interval forward. When it has fallen more than
    /// three intervals behind the reading `counter`, it restarts one interval
    /// after it instead, so that a late clock does not try to catch up.
    pub fn advance_100ns(&mut self, interval: i64, counter: i64, frequency: i64)
        requires
            frequency > 0,
            old(self).advance_fits(interval as int, counter as int, frequency as int),
        ensures
            ({
                let step = ticks_for(interval as int, frequency as int);
                final(self).at() == if old(self).at() + step < counter - step * 3 {
                    counter + step
                } else {
                    old(self).at() + step
                }
            }),
    {
        let step = saturating_mul(interval, frequency) / UNITS_PER_SECOND;
        self.ticks = self.ticks + step;

        let now = counter;
        if self.ticks < now - step * 3 {
            self.ticks = now + step;
        }
    }
}

/// Combines the two halves of a `FILETIME` into one count of hundreds of nanoseconds.
pub fn filetime_to_100ns(high: u32, low: u32) -> (units: u64)
    ensures
        units == high as int * 0x1_0000_0000 + low as int,
{
    let units = ((high as u64) << 32u64) | low as u64;
    proof {
        assert(((high as u64) << 32u64) | low as u64 == high as u64 * 0x1_0000_0000u64 + low as u64)
            by (bit_vector);
    }
    units
}

/// The minute of the day that a local time of `hour`:`minute` falls on.
pub fn minute_of_day(hour: u16, minute: u16) -> (m: u16)
    requires
        hour < 24,
        minute < 60,
    ensures
        m == hour * 60 + minute,
        m < 1440,
{
    hour * 60 + minute
}

/// How often, in counter ticks at `frequency`, the frame rate is reported:
/// every five seconds.
pub open spec fn report_due(since: int, counter: int, frequency: int) -> bool {
    counter - since >= 5 * frequency
}

/// Frame counting for the `--stats` report.
pub struct Monitor {
    enabled: bool,
    frames: u64,
    last_report: Instant,
}

impl Monitor {
    pub closed spec fn enabled(self) -> bool {
        self.enabled
    }

    /// Frames counted since the last report.
    pub closed spec fn frames(self) -> nat {
        self.frames as nat
    }

    /// The counter value of the last report.
    pub closed spec fn since(self) -> int {
        self.last_report.at()
    }

    /// A monitor that counts only when `enabled`, starting at the reading `counter`.
    pub fn new(enabled: bool, counter: i64) -> (monitor: Self)
        ensures
            monitor.enabled() == enabled,
            monitor.frames() == 0,
            monitor.since() == counter,
    {
        Monitor { enabled, frames: 0, last_report: Instant::now(counter) }
    }

    /// Counts one frame drawn at the reading `counter`. Once five seconds have
    /// passed since the last report, returns the frames counted and the ticks
    /// elapsed, and starts counting afresh from `counter`. Does nothing when
    /// disabled.
    pub fn tick(&mut self, counter: i64, frequency: i64) -> (report: Option<(u64, i64)>)
        requires
            old(self).frames() < u64::MAX,
            i64::MIN <= counter - old(self).since() <= i64::MAX,
        ensures
            final(self).enabled() == old(self).enabled(),
            !old(self).enabled() ==> report is None && *final(self) == *old(self),
            old(self).enabled() && !report_due(old(self).since(), counter as int, frequency as int) ==> {
                &&& report is None
                &&& final(self).frames() == old(self).frames() + 1
                &&& final(self).since() == old(self).since()
            },
            old(self).enabled() && report_due(old(self).since(), counter as int, frequency as int) ==> {
                &&& report == Some(((old(self).frames() + 1) as u64, (counter - old(self).since()) as i64))
                &&& final(self).frames() == 0
                &&& final(self).since() == counter
            },
    {
        if !self.enabled {
            return None;
        }
        self.frames = self.frames + 1;
        let elapsed = counter - self.last_report.ticks;
        if (elapsed as i128) < 5 * (frequency as i128) {
            return None;
        }
        let frames = self.frames;
        self.frames = 0;
        self.last_report = Instant::now(counter);
        Some((frames, elapsed))
    }
}

} // verus!
