use vstd::prelude::*;

use crate::stats::{quotient, saturated, ticks_for, Instant, UNITS_PER_SECOND};

verus! {

/// The wait before retry number `attempt + 1`: one second, doubling with each
/// failure, never more than thirty-two seconds (hundreds of nanoseconds).
pub open spec fn backoff(attempt: int) -> int {
    if attempt >= 5 {
        320_000_000
    } else if attempt == 4 {
        160_000_000
    } else if attempt == 3 {
        80_000_000
    } else if attempt == 2 {
        40_000_000
    } else if attempt == 1 {
        20_000_000
    } else {
        10_000_000
    }
}

pub fn delay_100ns(attempt: u32) -> (delay: i64)
    ensures
        delay == backoff(attempt as int),
{
    let capped: u32 = if attempt < 5 { attempt } else { 5 };
    proof {
        assert(capped == 0 ==> (1i64 << capped) == 1) by (bit_vector);
        assert(capped == 1 ==> (1i64 << capped) == 2) by (bit_vector);
        assert(capped == 2 ==> (1i64 << capped) == 4) by (bit_vector);
        assert(capped == 3 ==> (1i64 << capped) == 8) by (bit_vector);
        assert(capped == 4 ==> (1i64 << capped) == 16) by (bit_vector);
        assert(capped == 5 ==> (1i64 << capped) == 32) by (bit_vector);
    }
    let delay = (1i64 << capped) * 10_000_000;
    delay
}

/// Retries are never closer together than one second nor further apart than
/// thirty-two, and each failure waits at least as long as the one before.
pub proof fn backoff_is_bounded_and_growing(first: u32, second: u32)
    requires
        first <= second,
    ensures
        10_000_000 <= backoff(first as int) <= 320_000_000,
        backoff(first as int) <= backoff(second as int),
{
}

/// Schedule of attempts to bring back something that failed (media, surfaces,
/// the desktop anchor).
pub struct Retry {
    attempts: u32,
    due: Option<Instant>,
}

impl Retry {
    /// Failures so far since the last success.
    pub closed spec fn attempts(self) -> nat {
        self.attempts as nat
    }

    /// Counter value of the next attempt, if one is scheduled.
    pub closed spec fn due(self) -> Option<int> {
        match self.due {
            Some(instant) => Some(instant.at()),
            None => None,
        }
    }

    /// Nothing scheduled and no failure remembered.
    pub fn new() -> (retry: Self)
        ensures
            retry.attempts() == 0,
            retry.due() == None::<int>,
    {
        Self { attempts: 0, due: None }
    }

    /// Asks for an attempt as soon as possible, unless one is already scheduled.
    pub fn request(&mut self, counter: i64)
        ensures
            final(self).attempts() == old(self).attempts(),
            final(self).due() == match old(self).due() {
                Some(due) => Some(due),
                None => Some(counter as int),
            },
    {
        if self.due.is_none() {
            self.due = Some(Instant::now(counter));
        }
    }

    /// Records a failure and schedules the next attempt after the backoff.
    pub fn failed(&mut self, counter: i64, frequency: i64)
        requires
            frequency > 0,
            i64::MIN <= counter + ticks_for(backoff(old(self).attempts() as int), frequency as int)
                <= i64::MAX,
        ensures
            final(self).due() == Some(
                counter + ticks_for(backoff(old(self).attempts() as int), frequency as int),
            ),
            final(self).attempts() == if old(self).attempts() < u32::MAX {
                old(self).attempts() + 1
            } else {
                old(self).attempts()
            },
    {
        self.due = Some(Instant::after(delay_100ns(self.attempts), counter, frequency));
        self.attempts = self.attempts.saturating_add(1);
    }

    /// Forgets failures and any scheduled attempt.
    pub fn clear(&mut self)
        ensures
            final(self).attempts() == 0,
            final(self).due() == None::<int>,
    {
        *self = Self::new();
    }

    /// Hundreds of nanoseconds from the reading `counter` until the scheduled attempt.
    pub fn deadline(&self, counter: i64, frequency: i64) -> (remaining: Option<i64>)
        requires
            frequency > 0,
            self.due() matches Some(due) ==> i64::MIN <= due - counter <= i64::MAX,
        ensures
            remaining == match self.due() {
                Some(due) => Some(
                    quotient(saturated((due - counter) * UNITS_PER_SECOND), frequency as int) as i64,
                ),
                None => None::<i64>,
            },
    {
        match &self.due {
            Some(due) => Some(due.until_100ns(counter, frequency)),
            None => None,
        }
    }

    /// Whether the scheduled attempt is due at the reading `counter`.
    pub fn ready(&self, counter: i64, frequency: i64) -> (due_now: bool)
        requires
            frequency > 0,
            self.due() matches Some(due) ==> i64::MIN <= due - counter <= i64::MAX,
        ensures
            due_now == match self.due() {
                Some(due) => quotient(saturated((due - counter) * UNITS_PER_SECOND), frequency as int)
                    <= 0,
                None => false,
            },
    {
        match self.deadline(counter, frequency) {
            Some(d) => d <= 0,
            None => false,
        }
    }

    /// Whether an attempt is scheduled.
    pub fn pending(&self) -> (scheduled: bool)
        ensures
            scheduled == self.due() is Some,
    {
        self.due.is_some()
    }
}

impl Default for Retry {
    fn default() -> (retry: Self)
        ensures
            retry.attempts() == 0,
            retry.due() == None::<int>,
    {
        Self::new()
    }
}

/// The order in which a playlist of `length` items is tried, starting at
/// `start` and wrapping around.
pub open spec fn rotation(start: int, length: int) -> Seq<int> {
    Seq::new(length as nat, |offset: int| (start + offset) % length)
}

pub fn candidates(start: usize, length: usize) -> (order: Vec<usize>)
    requires
        length == 0 || start + length - 1 <= usize::MAX,
    ensures
        order@.len() == length,
        forall|i: int| 0 <= i < length ==> order@[i] == rotation(start as int, length as int)[i],
{
    let mut order: Vec<usize> = Vec::new();
    let mut offset: usize = 0;
    while offset < length
        invariant
            offset <= length,
            length == 0 || start + length - 1 <= usize::MAX,
            order@.len() == offset,
            forall|i: int| 0 <= i < offset ==> order@[i] == (start + i) % (length as int),
        decreases length - offset,
    {
        order.push((start + offset) % length);
        offset = offset + 1;
    }
    order
}

/// Starting anywhere, the rotation visits every item of the playlist exactly once.
pub proof fn rotation_visits_every_item_once(start: nat, length: nat)
    ensures
        rotation(start as int, length as int).len() == length,
        rotation(start as int, length as int).no_duplicates(),
        forall|item: int|
            0 <= item < length ==> #[trigger] rotation(start as int, length as int).contains(item),
{
    let order = rotation(start as int, length as int);
    assert forall|i: int, j: int| 0 <= i < length && 0 <= j < length && i != j implies order[i]
        != order[j] by {
        lemma_distinct_offsets(start as int, length as int, i, j);
    }
    assert forall|item: int| 0 <= item < length implies order.contains(item) by {
        let offset = lemma_offset_reaching(start as int, length as int, item);
        assert(order[offset] == item);
    }
}

proof fn lemma_distinct_offsets(start: int, length: int, i: int, j: int)
    requires
        0 <= start,
        0 <= i < length,
        0 <= j < length,
        i != j,
    ensures
        (start + i) % length != (start + j) % length,
{
    vstd::arithmetic::div_mod::lemma_fundamental_div_mod(start + i, length);
    vstd::arithmetic::div_mod::lemma_fundamental_div_mod(start + j, length);
    let qi = (start + i) / length;
    let qj = (start + j) / length;
    if (start + i) % length == (start + j) % length {
        assert(i - j == length * (qi - qj)) by (nonlinear_arith)
            requires
                start + i == length * qi + (start + i) % length,
                start + j == length * qj + (start + j) % length,
                (start + i) % length == (start + j) % length,
        ;
        assert(false) by (nonlinear_arith)
            requires
                i - j == length * (qi - qj),
                0 <= i < length,
                0 <= j < length,
                i != j,
        ;
    }
}

proof fn lemma_offset_reaching(start: int, length: int, item: int) -> (offset: int)
    requires
        0 <= start,
        0 <= item < length,
    ensures
        0 <= offset < length,
        (start + offset) % length == item,
{
    let s = start % length;
    vstd::arithmetic::div_mod::lemma_fundamental_div_mod(start, length);
    let offset = if item >= s { item - s } else { item - s + length };
    let q = start / length;
    assert(start + offset == length * q + s + offset);
    if item >= s {
        assert(start + offset == length * q + item);
    } else {
        assert(start + offset == length * (q + 1) + item) by (nonlinear_arith)
            requires
                start + offset == length * q + s + offset,
                offset == item - s + length,
        ;
    }
    vstd::arithmetic::div_mod::lemma_mod_multiples_vanish(
        if item >= s { q } else { q + 1 },
        item,
        length,
    );
    vstd::arithmetic::div_mod::lemma_small_mod(item as nat, length as nat);
    offset
}

} // verus!
