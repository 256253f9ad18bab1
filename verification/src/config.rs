use vstd::prelude::*;
use vstd::string::StringExecFns;

use crate::text::{push_two_digits, two_digits};

verus! {

/// The only settings format this version reads and writes.
pub const CURRENT_VERSION: u32 = 1;

/// Minutes in a day: scheduled times lie below it.
pub const MINUTES_PER_DAY: u16 = 1440;

/// How a wallpaper is framed on its monitor.
#[derive(Debug, Clone, Copy, PartialEq, Eq, Structural)]
pub enum Mode {
    Fill,
    Fit,
    Stretch,
    Center,
    Custom,
}

/// The effect drawn when a playlist moves to its next wallpaper.
#[derive(Debug, Clone, Copy, PartialEq, Eq, Structural)]
pub enum Transition {
    Cut,
    Fade,
    LeftToRight,
    RightToLeft,
    TopToBottom,
    BottomToTop,
    Rebuild,
    Morph,
}

impl Transition {
    /// Every transition, in the order the interface lists them.
    pub const ALL: [Transition; 8] = [
        Transition::Cut,
        Transition::Fade,
        Transition::LeftToRight,
        Transition::RightToLeft,
        Transition::TopToBottom,
        Transition::BottomToTop,
        Transition::Rebuild,
        Transition::Morph,
    ];
}

impl Default for Transition {
    fn default() -> (transition: Self)
        ensures
            transition == Transition::Cut,
    {
        Transition::Cut
    }
}

/// The framing a layer gets when the settings do not give one.
pub fn default_layer_mode() -> (mode: Mode)
    ensures
        mode == Mode::Fill,
{
    Mode::Fill
}

/// The framing a wallpaper gets when the settings do not give one.
pub fn default_mode() -> (mode: Mode)
    ensures
        mode == Mode::Fill,
{
    Mode::Fill
}

/// The value of the preferences that are on unless the settings say otherwise.
pub fn default_true() -> (on: bool)
    ensures
        on,
{
    true
}

/// From `minute` of the day on, the playlist shows the item at index `slide`.
#[derive(Debug, Clone, Copy, PartialEq, Eq, Structural)]
pub struct ScheduleEntry {
    pub minute: u16,
    pub slide: usize,
}

impl ScheduleEntry {
    /// The time of day as `HH:MM`.
    pub fn label(&self) -> (text: String)
        ensures
            text@ == two_digits((self.minute / 60) as nat) + seq![':'] + two_digits(
                (self.minute % 60) as nat,
            ),
    {
        let mut text = String::new();
        push_two_digits(&mut text, (self.minute / 60) as u64);
        let colon = ":";
        proof {
            reveal_strlit(":");
        }
        text.append(colon);
        push_two_digits(&mut text, (self.minute % 60) as u64);
        text
    }
}

/// Some entry starts at or before `minute`.
pub open spec fn started_by(entries: Seq<ScheduleEntry>, minute: int) -> bool {
    exists|j: int| 0 <= j < entries.len() && #[trigger] entries[j].minute <= minute
}

/// Entry `i` is the one in force at `minute`: the latest start at or before
/// `minute`, or, before the first start of the day, the latest start of the
/// day, carried over from the previous day. Of entries with the same time,
/// the one listed last wins.
pub open spec fn in_force(entries: Seq<ScheduleEntry>, minute: int, i: int) -> bool {
    &&& 0 <= i < entries.len()
    &&& started_by(entries, minute) ==> entries[i].minute <= minute
    &&& forall|j: int|
        #![trigger entries[j]]
        0 <= j < entries.len() && (started_by(entries, minute) ==> entries[j].minute <= minute)
            ==> entries[j].minute <= entries[i].minute && (entries[j].minute == entries[i].minute
            ==> j <= i)
}

/// Some entry starts after `minute`.
pub open spec fn starts_after(entries: Seq<ScheduleEntry>, minute: int) -> bool {
    exists|j: int| 0 <= j < entries.len() && #[trigger] entries[j].minute > minute
}

/// `next` is when the next entry starts after `minute`: the earliest start
/// later in the day, or the first start of the next day.
pub open spec fn next_start(entries: Seq<ScheduleEntry>, minute: int, next: int) -> bool {
    &&& exists|i: int| 0 <= i < entries.len() && #[trigger] entries[i].minute == next
    &&& starts_after(entries, minute) ==> next > minute
    &&& forall|j: int|
        #![trigger entries[j]]
        0 <= j < entries.len() && (starts_after(entries, minute) ==> entries[j].minute > minute)
            ==> next <= entries[j].minute
}

/// Times of day at which the playlist switches to a given item.
#[derive(Debug, Clone, Default, PartialEq)]
pub struct Schedule {
    pub enabled: bool,
    pub entries: Vec<ScheduleEntry>,
}

impl Schedule {
    /// A default pair of times: the first item from 07:00, the second from 19:00.
    pub fn day_and_night() -> (entries: Vec<ScheduleEntry>)
        ensures
            entries@ == seq![
                ScheduleEntry { minute: 420, slide: 0 },
                ScheduleEntry { minute: 1140, slide: 1 },
            ],
    {
        vec![ScheduleEntry { minute: 7 * 60, slide: 0 }, ScheduleEntry { minute: 19 * 60, slide: 1 }]
    }

    /// The item in force at `minute` and the minute at which the next entry
    /// starts; nothing when the schedule is off or empty.
    pub fn active_at(&self, minute: u16) -> (found: Option<(usize, u16)>)
        ensures
            found is None <==> !self.enabled || self.entries@.len() == 0,
            found matches Some((slide, next)) ==> {
                &&& exists|i: int| in_force(self.entries@, minute as int, i) && #[trigger] self.entries@[i].slide == slide
                &&& next_start(self.entries@, minute as int, next as int)
            },
    {
        if !self.enabled || self.entries.len() == 0 {
            return None;
        }
        let entries = &self.entries;
        let ghost s = entries@;
        let mut before: Option<usize> = None;
        let mut latest: usize = 0;
        let mut after: Option<usize> = None;
        let mut earliest: usize = 0;
        let mut k: usize = 1;
        if entries[0].minute <= minute {
            before = Some(0);
        } else {
            after = Some(0);
        }
        while k < entries.len()
            invariant
                s == entries@,
                1 <= k <= s.len(),
                latest < k,
                earliest < k,
                forall|j: int|
                    #![trigger s[j]]
                    0 <= j < k ==> s[j].minute <= s[latest as int].minute && (s[j].minute
                        == s[latest as int].minute ==> j <= latest),
                forall|j: int| #![trigger s[j]] 0 <= j < k ==> s[earliest as int].minute <= s[j].minute,
                before matches Some(b) ==> {
                    &&& b < k
                    &&& s[b as int].minute <= minute
                    &&& forall|j: int|
                        #![trigger s[j]]
                        0 <= j < k && s[j].minute <= minute ==> s[j].minute <= s[b as int].minute
                            && (s[j].minute == s[b as int].minute ==> j <= b)
                },
                before is None ==> forall|j: int| #![trigger s[j]] 0 <= j < k ==> s[j].minute > minute,
                after matches Some(a) ==> {
                    &&& a < k
                    &&& s[a as int].minute > minute
                    &&& forall|j: int|
                        #![trigger s[j]]
                        0 <= j < k && s[j].minute > minute ==> s[a as int].minute <= s[j].minute
                },
                after is None ==> forall|j: int| #![trigger s[j]] 0 <= j < k ==> s[j].minute <= minute,
            decreases s.len() - k,
        {
            let m = entries[k].minute;
            if m >= entries[latest].minute {
                latest = k;
            }
            if m < entries[earliest].minute {
                earliest = k;
            }
            if m <= minute {
                match before {
                    Some(b) => {
                        if m >= entries[b].minute {
                            before = Some(k);
                        }
                    },
                    None => {
                        before = Some(k);
                    },
                }
            } else {
                match after {
                    Some(a) => {
                        if m < entries[a].minute {
                            after = Some(k);
                        }
                    },
                    None => {
                        after = Some(k);
                    },
                }
            }
            k = k + 1;
        }
        let current = match before {
            Some(b) => b,
            None => latest,
        };
        let next = match after {
            Some(a) => entries[a].minute,
            None => entries[earliest].minute,
        };
        proof {
            if before is Some {
                assert(started_by(s, minute as int)) by {
                    assert(s[current as int].minute <= minute);
                }
            } else {
                assert(!started_by(s, minute as int));
            }
            if after is Some {
                let a = after->0;
                assert(starts_after(s, minute as int)) by {
                    assert(s[a as int].minute > minute);
                }
                assert(s[a as int].minute == next);
            } else {
                assert(!starts_after(s, minute as int));
                assert(s[earliest as int].minute == next);
            }
            assert(in_force(s, minute as int, current as int));
        }
        Some((entries[current].slide, next))
    }
}

/// Removes one leading byte order mark, if the text starts with one.
pub fn without_bom(text: &str) -> (content: &str)
    ensures
        content@ == if text@.len() > 0 && text@[0] == '\u{feff}' {
            text@.drop_first()
        } else {
            text@
        },
{
    let length = text.unicode_len();
    if length > 0 && text.get_char(0) == '\u{feff}' {
        text.substring_char(1, length)
    } else {
        text
    }
}

/// Whether every scheduled time lies within the day, as the settings require.
pub open spec fn schedule_within_day(entries: Seq<ScheduleEntry>) -> bool {
    forall|j: int| 0 <= j < entries.len() ==> #[trigger] entries[j].minute < MINUTES_PER_DAY
}

impl Schedule {
    /// Whether the settings may hold this schedule: no time at or past midnight.
    pub fn within_day(&self) -> (valid: bool)
        ensures
            valid == schedule_within_day(self.entries@),
    {
        let mut j: usize = 0;
        while j < self.entries.len()
            invariant
                j <= self.entries@.len(),
                forall|k: int| 0 <= k < j ==> #[trigger] self.entries@[k].minute < MINUTES_PER_DAY,
            decreases self.entries@.len() - j,
        {
            if self.entries[j].minute >= MINUTES_PER_DAY {
                return false;
            }
            j = j + 1;
        }
        true
    }
}

/// Whether settings of this version can be read: only the current one.
pub fn version_supported(version: u32) -> (supported: bool)
    ensures
        supported == (version == CURRENT_VERSION),
{
    version == CURRENT_VERSION
}

/// Whether a hold counted in plays is usable: at least one play.
pub fn loops_valid(times: u32) -> (valid: bool)
    ensures
        valid == (times > 0),
{
    times > 0
}

} // verus!
