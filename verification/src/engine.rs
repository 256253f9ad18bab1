use vstd::prelude::*;

use crate::occlusion::Rect;
use crate::recovery::{backoff, Retry};
use crate::stats::ticks_for;
use crate::text::same_text;

verus! {

/// Whether every wallpaper holds still: paused by hand, the session asleep or
/// locked, or a power setting that asks for it.
pub open spec fn held(
    user_paused: bool,
    session_dormant: bool,
    on_battery: bool,
    energy_saver: bool,
    pause_on_battery: bool,
    pause_on_energy_saver: bool,
) -> bool {
    user_paused || session_dormant || (pause_on_battery && on_battery) || (pause_on_energy_saver
        && energy_saver)
}

pub fn is_held(
    user_paused: bool,
    session_dormant: bool,
    on_battery: bool,
    energy_saver: bool,
    pause_on_battery: bool,
    pause_on_energy_saver: bool,
) -> (hold: bool)
    ensures
        hold == held(
            user_paused,
            session_dormant,
            on_battery,
            energy_saver,
            pause_on_battery,
            pause_on_energy_saver,
        ),
{
    let energy = (pause_on_battery && on_battery) || (pause_on_energy_saver && energy_saver);
    user_paused || session_dormant || energy
}

/// The least of the present deadlines among the first `n`, if any is present.
pub open spec fn soonest_of(deadlines: Seq<Option<i64>>, n: int) -> Option<i64>
    decreases n,
{
    if n <= 0 {
        None
    } else {
        let rest = soonest_of(deadlines, n - 1);
        match (rest, deadlines[n - 1]) {
            (Some(a), Some(b)) => Some(if b < a { b } else { a }),
            (Some(a), None) => Some(a),
            (None, d) => d,
        }
    }
}

proof fn lemma_soonest_is_least(deadlines: Seq<Option<i64>>, n: int)
    requires
        0 <= n <= deadlines.len(),
    ensures
        soonest_of(deadlines, n) is None <==> forall|i: int| 0 <= i < n ==> deadlines[i] is None,
        soonest_of(deadlines, n) matches Some(m) ==> {
            &&& exists|i: int| 0 <= i < n && deadlines[i] == Some(m)
            &&& forall|i: int| 0 <= i < n && #[trigger] deadlines[i] is Some ==> m <= deadlines[i]->0
        },
    decreases n,
{
    if n > 0 {
        lemma_soonest_is_least(deadlines, n - 1);
        let rest = soonest_of(deadlines, n - 1);
        if let Some(a) = rest {
            let i = choose|i: int| 0 <= i < n - 1 && deadlines[i] == Some(a);
            assert(0 <= i < n && deadlines[i] == Some(a));
        }
        if let Some(m) = soonest_of(deadlines, n) {
            if deadlines[n - 1] == Some(m) {
                assert(0 <= n - 1 < n && deadlines[n - 1] == Some(m));
            }
        }
    }
}

/// When nothing waits for a moment (no wallpaper playing or waiting to give
/// its decoder back, no recovery scheduled), the engine sets no timer at all;
/// one pending moment is enough for it to wake.
pub proof fn idle_engine_sets_no_timer(deadlines: Seq<Option<i64>>)
    ensures
        (forall|i: int| 0 <= i < deadlines.len() ==> deadlines[i] is None) <==> soonest_of(
            deadlines,
            deadlines.len() as int,
        ) is None,
{
    lemma_soonest_is_least(deadlines, deadlines.len() as int);
}

/// The nearest of the deadlines that are present: what the engine waits for
/// before it next wakes. `None` when there is nothing to wait for.
pub fn soonest(deadlines: &[Option<i64>]) -> (first: Option<i64>)
    ensures
        first == soonest_of(deadlines@, deadlines@.len() as int),
        first is None <==> forall|i: int| 0 <= i < deadlines@.len() ==> deadlines@[i] is None,
        first matches Some(m) ==> {
            &&& exists|i: int| 0 <= i < deadlines@.len() && deadlines@[i] == Some(m)
            &&& forall|i: int|
                0 <= i < deadlines@.len() && #[trigger] deadlines@[i] is Some ==> m <= deadlines@[i]->0
        },
{
    let mut first: Option<i64> = None;
    let mut i: usize = 0;
    while i < deadlines.len()
        invariant
            i <= deadlines@.len(),
            first == soonest_of(deadlines@, i as int),
        decreases deadlines@.len() - i,
    {
        first = match (first, deadlines[i]) {
            (Some(a), Some(b)) => Some(if b < a { b } else { a }),
            (Some(a), None) => Some(a),
            (None, d) => d,
        };
        i = i + 1;
    }
    proof {
        lemma_soonest_is_least(deadlines@, deadlines@.len() as int);
    }
    first
}

/// A wallpaper surface that is already on screen.
pub struct Surface {
    pub monitor: String,
    pub rect: Rect,
    /// Whether its window still exists.
    pub alive: bool,
}

/// A monitor that should show a wallpaper.
pub struct Wanted {
    pub monitor: String,
    pub rect: Rect,
}

/// The surface can be kept for the wanted monitor: same monitor, same area,
/// its window alive, and the desktop it hangs from unchanged.
pub open spec fn reusable(surface: Surface, wanted: Wanted, parent_changed: bool) -> bool {
    !parent_changed && surface.alive && surface.monitor@ == wanted.monitor@ && surface.rect
        == wanted.rect
}

/// The first surface from position `j` on that can be kept for `wanted` and
/// that no earlier monitor took.
pub open spec fn first_free(
    surfaces: Seq<Surface>,
    wanted: Wanted,
    parent_changed: bool,
    taken: Seq<Option<usize>>,
    j: int,
) -> Option<usize>
    decreases surfaces.len() - j,
{
    if j < 0 || j >= surfaces.len() {
        None
    } else if reusable(surfaces[j], wanted, parent_changed) && !taken.contains(Some(j as usize)) {
        Some(j as usize)
    } else {
        first_free(surfaces, wanted, parent_changed, taken, j + 1)
    }
}

/// For each of the first `n` wanted monitors, the surface it keeps, if any.
pub open spec fn pairing(
    surfaces: Seq<Surface>,
    wanted: Seq<Wanted>,
    parent_changed: bool,
    n: int,
) -> Seq<Option<usize>>
    decreases n,
{
    if n <= 0 {
        Seq::empty()
    } else {
        let earlier = pairing(surfaces, wanted, parent_changed, n - 1);
        earlier.push(first_free(surfaces, wanted[n - 1], parent_changed, earlier, 0))
    }
}

proof fn lemma_first_free_skip(
    surfaces: Seq<Surface>,
    wanted: Wanted,
    parent_changed: bool,
    taken: Seq<Option<usize>>,
    j: int,
)
    requires
        0 <= j,
        surfaces.len() <= usize::MAX,
    ensures
        first_free(surfaces, wanted, parent_changed, taken, j) matches Some(k) ==> j <= k < surfaces.len()
            && reusable(surfaces[k as int], wanted, parent_changed) && !taken.contains(Some(k)),
    decreases surfaces.len() - j,
{
    if j < surfaces.len() {
        lemma_first_free_skip(surfaces, wanted, parent_changed, taken, j + 1);
    }
}

fn matches(surface: &Surface, wanted: &Wanted, parent_changed: bool) -> (keep: bool)
    ensures
        keep == reusable(*surface, *wanted, parent_changed),
{
    !parent_changed && surface.alive && surface.rect == wanted.rect && same_text(
        surface.monitor.as_str(),
        wanted.monitor.as_str(),
    )
}

/// Which surface each wanted monitor keeps: the first surface in order that
/// matches it and that no earlier monitor took, or `None` where a new
/// surface must be made. A surface is kept by at most one monitor.
pub fn pair_surfaces(surfaces: &[Surface], wanted: &[Wanted], parent_changed: bool) -> (kept: Vec<
    Option<usize>,
>)
    ensures
        kept@ == pairing(surfaces@, wanted@, parent_changed, wanted@.len() as int),
{
    let mut taken: Vec<bool> = Vec::new();
    let mut t: usize = 0;
    while t < surfaces.len()
        invariant
            t <= surfaces@.len(),
            taken@.len() == t,
            forall|j: int| 0 <= j < t ==> !taken@[j],
        decreases surfaces@.len() - t,
    {
        taken.push(false);
        t = t + 1;
    }
    let count = surfaces.len();
    let mut kept: Vec<Option<usize>> = Vec::new();
    let mut w: usize = 0;
    while w < wanted.len()
        invariant
            count == surfaces@.len(),
            w <= wanted@.len(),
            taken@.len() == surfaces@.len(),
            kept@ == pairing(surfaces@, wanted@, parent_changed, w as int),
            forall|j: int| 0 <= j < taken@.len() ==> taken@[j] == kept@.contains(Some(j as usize)),
        decreases wanted@.len() - w,
    {
        let ghost earlier = kept@;
        let mut choice: Option<usize> = None;
        let mut j: usize = 0;
        while j < surfaces.len()
            invariant_except_break
                choice is None,
                first_free(surfaces@, wanted@[w as int], parent_changed, earlier, 0) == first_free(
                    surfaces@,
                    wanted@[w as int],
                    parent_changed,
                    earlier,
                    j as int,
                ),
            invariant
                j <= surfaces@.len(),
                w < wanted@.len(),
                taken@.len() == surfaces@.len(),
                earlier == kept@,
                forall|i: int| 0 <= i < taken@.len() ==> taken@[i] == earlier.contains(Some(i as usize)),
            ensures
                choice == first_free(surfaces@, wanted@[w as int], parent_changed, earlier, 0),
            decreases surfaces@.len() - j,
        {
            if !taken[j] && matches(&surfaces[j], &wanted[w], parent_changed) {
                choice = Some(j);
                break;
            }
            j = j + 1;
        }
        let ghost old_taken = taken@;
        proof {
            lemma_first_free_skip(surfaces@, wanted@[w as int], parent_changed, earlier, 0);
        }
        kept.push(choice);
        if let Some(j) = choice {
            taken.set(j, true);
        }
        proof {
            assert(kept@ == earlier.push(choice));
            assert forall|i: int| 0 <= i < taken@.len() implies taken@[i] == kept@.contains(Some(i as usize)) by {
                let target = Some(i as usize);
                if earlier.contains(target) {
                    let k = choose|k: int| 0 <= k < earlier.len() && earlier[k] == target;
                    assert(kept@[k] == target);
                }
                if choice == target {
                    assert(kept@[earlier.len() as int] == target);
                    assert(taken@[i]);
                } else {
                    assert(taken@[i] == old_taken[i]);
                }
                if kept@.contains(target) {
                    let k = choose|k: int| 0 <= k < kept@.len() && kept@[k] == target;
                    if k < earlier.len() {
                        assert(earlier[k] == target);
                    }
                }
            }
        }
        w = w + 1;
    }
    kept
}

/// Each monitor keeps a surface that matches it, and no surface is kept twice.
pub proof fn pairing_keeps_each_surface_once(
    surfaces: Seq<Surface>,
    wanted: Seq<Wanted>,
    parent_changed: bool,
    n: int,
)
    requires
        0 <= n <= wanted.len(),
        surfaces.len() <= usize::MAX,
    ensures
        pairing(surfaces, wanted, parent_changed, n).len() == n,
        forall|i: int|
            0 <= i < n ==> (#[trigger] pairing(surfaces, wanted, parent_changed, n)[i] matches Some(k) ==> k
                < surfaces.len() && reusable(surfaces[k as int], wanted[i], parent_changed)),
        forall|a: int, b: int|
            0 <= a < b < n && #[trigger] pairing(surfaces, wanted, parent_changed, n)[a] is Some
                ==> pairing(surfaces, wanted, parent_changed, n)[a] != #[trigger] pairing(
                surfaces,
                wanted,
                parent_changed,
                n,
            )[b],
    decreases n,
{
    if n > 0 {
        pairing_keeps_each_surface_once(surfaces, wanted, parent_changed, n - 1);
        let earlier = pairing(surfaces, wanted, parent_changed, n - 1);
        let last = first_free(surfaces, wanted[n - 1], parent_changed, earlier, 0);
        lemma_first_free_skip(surfaces, wanted[n - 1], parent_changed, earlier, 0);
        let all = pairing(surfaces, wanted, parent_changed, n);
        assert(all == earlier.push(last));
        assert forall|a: int, b: int|
            0 <= a < b < n && #[trigger] all[a] is Some implies all[a] != #[trigger] all[b] by {
            if b == n - 1 {
                if all[a] == all[b] {
                    assert(earlier[a] == last);
                    assert(earlier.contains(last));
                }
            } else {
                assert(all[a] == earlier[a]);
                assert(all[b] == earlier[b]);
            }
        }
    }
}

/// What a playing wallpaper does when the engine wakes.
#[derive(PartialEq, Eq, Structural, Clone, Copy, Debug)]
pub enum FrameAction {
    /// Its next frame is not due yet.
    Wait,
    /// A still picture with nothing moving: move the deadlines on without drawing.
    Coast,
    /// Draw a frame.
    Draw,
}

/// The action for a playing wallpaper whose next frame is `remaining` away:
/// wait while it is not due; once due, draw unless the picture is settled
/// (a still image, nothing to redraw, its overlays settled) and no blend runs.
pub open spec fn frame_action_for(remaining: int, settled: bool, blending: bool) -> FrameAction {
    if remaining > 0 {
        FrameAction::Wait
    } else if settled && !blending {
        FrameAction::Coast
    } else {
        FrameAction::Draw
    }
}

pub fn frame_action(remaining: i64, settled: bool, blending: bool) -> (action: FrameAction)
    ensures
        action == frame_action_for(remaining as int, settled, blending),
{
    if remaining > 0 {
        FrameAction::Wait
    } else if settled && !blending {
        FrameAction::Coast
    } else {
        FrameAction::Draw
    }
}

/// How far the frame deadline moves after a frame is drawn: the blend step
/// while a blend ran before or runs after the frame, else the frame interval.
pub fn frame_step(blending_before: bool, blending_after: bool, blend_interval: i64, interval: i64) -> (step: i64)
    ensures
        step == if blending_before || blending_after {
            blend_interval
        } else {
            interval
        },
{
    if blending_after || blending_before {
        blend_interval
    } else {
        interval
    }
}

/// The deadline of the next frame: none for a settled picture, else the
/// nearest of the background's and the overlays' deadlines.
pub fn frame_deadline(settled: bool, background: i64, overlays: &[i64]) -> (next: Option<i64>)
    ensures
        settled ==> next is None,
        !settled ==> (next matches Some(m) && m <= background && (forall|i: int|
            0 <= i < overlays@.len() ==> m <= #[trigger] overlays@[i]) && (m == background || exists|i: int|
            0 <= i < overlays@.len() && m == overlays@[i])),
{
    if settled {
        return None;
    }
    let mut m = background;
    let mut i: usize = 0;
    while i < overlays.len()
        invariant
            i <= overlays@.len(),
            m <= background,
            forall|k: int| 0 <= k < i ==> m <= #[trigger] overlays@[k],
            m == background || exists|k: int| 0 <= k < i && m == overlays@[k],
        decreases overlays@.len() - i,
    {
        if overlays[i] < m {
            m = overlays[i];
        }
        i = i + 1;
    }
    Some(m)
}

/// When a wallpaper next needs the engine. Stopped: when its decoder is due
/// to be released, if that is scheduled. Playing while a reload is pending:
/// when the reload is due. Otherwise the nearer of its next frame (none for a
/// settled picture) and its next switch.
pub fn next_wakeup(
    playing: bool,
    release: Option<i64>,
    retry_pending: bool,
    retry: Option<i64>,
    frame: Option<i64>,
    switch: Option<i64>,
) -> (wakeup: Option<i64>)
    ensures
        wakeup == if !playing {
            release
        } else if retry_pending {
            retry
        } else {
            match (frame, switch) {
                (Some(f), Some(s)) => Some(if f < s { f } else { s }),
                (Some(f), None) => Some(f),
                (None, s) => s,
            }
        },
{
    if !playing {
        return release;
    }
    if retry_pending {
        return retry;
    }
    crate::rotation::earliest(frame, switch)
}

/// Pairs each monitor, by its identity, with whether the scan found it covered;
/// the scan lists the monitors' areas in the same order. A monitor without a
/// scan result (or a result without a monitor) is left out.
pub fn coverage_by_monitor(ids: &[String], covered: &[bool]) -> (coverage: Vec<(String, bool)>)
    ensures
        coverage@.len() == if ids@.len() < covered@.len() {
            ids@.len()
        } else {
            covered@.len()
        },
        forall|i: int|
            0 <= i < coverage@.len() ==> (#[trigger] coverage@[i]).0@ == ids@[i]@ && coverage@[i].1
                == covered@[i],
{
    let mut coverage: Vec<(String, bool)> = Vec::new();
    let mut i: usize = 0;
    while i < ids.len() && i < covered.len()
        invariant
            i <= ids@.len(),
            i <= covered@.len(),
            coverage@.len() == i,
            forall|k: int|
                0 <= k < i ==> (#[trigger] coverage@[k]).0@ == ids@[k]@ && coverage@[k].1 == covered@[k],
        decreases ids@.len() - i,
    {
        coverage.push((ids[i].clone(), covered[i]));
        i = i + 1;
    }
    coverage
}

/// Whether the monitor `id` is covered: the last entry for it decides, and a
/// monitor without an entry is not covered.
pub open spec fn covered_in(coverage: Seq<(String, bool)>, id: Seq<char>) -> bool
    decreases coverage.len(),
{
    if coverage.len() == 0 {
        false
    } else if coverage.last().0@ == id {
        coverage.last().1
    } else {
        covered_in(coverage.drop_last(), id)
    }
}

pub fn is_covered(coverage: &[(String, bool)], id: &str) -> (covered: bool)
    ensures
        covered == covered_in(coverage@, id@),
{
    let mut i: usize = coverage.len();
    proof {
        assert(coverage@.take(i as int) =~= coverage@);
    }
    while i > 0
        invariant
            i <= coverage@.len(),
            covered_in(coverage@, id@) == covered_in(coverage@.take(i as int), id@),
        decreases i,
    {
        let ghost prefix = coverage@.take(i as int);
        proof {
            assert(prefix.drop_last() =~= coverage@.take(i - 1));
            assert(prefix.last() == coverage@[i - 1]);
        }
        if same_text(coverage[i - 1].0.as_str(), id) {
            return coverage[i - 1].1;
        }
        i = i - 1;
    }
    false
}

/// How long until a playlist of `slides` items moves on, from minute `now`:
/// never for a single item; with a schedule, until its next entry at minute
/// `scheduled_next`; otherwise after the item's hold time `hold_100ns`.
pub fn switch_delay(slides: usize, scheduled_next: Option<u16>, now: u16, hold_100ns: i64) -> (delay: Option<i64>)
    ensures
        delay == if slides < 2 {
            None
        } else {
            match scheduled_next {
                Some(next) => Some(crate::rotation::wait_until(next as int, now as int) as i64),
                None => Some(hold_100ns),
            }
        },
{
    if slides < 2 {
        return None;
    }
    match scheduled_next {
        Some(next) => Some(crate::rotation::minutes_until(next, now)),
        None => Some(hold_100ns),
    }
}

/// Where a playlist resumes after its settings change: at the first item
/// showing the same wallpaper as before (`previous`), if the new list still
/// has it, else at the start.
pub fn resume_at(previous: Option<&str>, wallpapers: &[String]) -> (position: usize)
    ensures
        position == 0 || position < wallpapers@.len(),
        match previous {
            Some(path) => if exists|i: int| 0 <= i < wallpapers@.len() && #[trigger] wallpapers@[i]@ == path@ {
                &&& position < wallpapers@.len()
                &&& wallpapers@[position as int]@ == path@
                &&& forall|j: int| 0 <= j < position ==> #[trigger] wallpapers@[j]@ != path@
            } else {
                position == 0
            },
            None => position == 0,
        },
{
    match previous {
        None => 0,
        Some(path) => {
            let mut i: usize = 0;
            while i < wallpapers.len()
                invariant
                    previous == Some(path),
                    i <= wallpapers@.len(),
                    forall|j: int| 0 <= j < i ==> #[trigger] wallpapers@[j]@ != path@,
                decreases wallpapers@.len() - i,
            {
                if same_text(wallpapers[i].as_str(), path) {
                    proof {
                        assert(wallpapers@[i as int]@ == path@);
                    }
                    return i;
                }
                i = i + 1;
            }
            0
        },
    }
}

/// Whether the surfaces must be attached to the desktop again: its wallpaper
/// layer is gone, a surface is missing or dead, or (asked only when all else
/// is fine) Explorer now hangs the layer elsewhere. An anchor that cannot be
/// found (`None`) is not a reason to reattach.
pub fn needs_reattach<F: FnOnce() -> Option<bool>>(
    parent_alive: bool,
    surfaces: usize,
    expected: usize,
    all_alive: bool,
    anchor_moved: F,
) -> (reattach: bool)
    requires
        anchor_moved.requires(()),
    ensures
        !parent_alive || surfaces != expected || !all_alive ==> reattach,
        parent_alive && surfaces == expected && all_alive ==> exists|moved: Option<bool>|
            #[trigger] anchor_moved.ensures((), moved) && reattach == (moved == Some(true)),
{
    if !parent_alive {
        return true;
    }
    if surfaces != expected || !all_alive {
        return true;
    }
    match anchor_moved() {
        Some(moved) => moved,
        None => false,
    }
}

/// The number of items configured for the monitor `id`: the first entry
/// naming it decides; `None` when no entry names it.
pub open spec fn configured_for(configured: Seq<(String, usize)>, id: Seq<char>) -> Option<usize>
    decreases configured.len(),
{
    if configured.len() == 0 {
        None
    } else if configured[0].0@ == id {
        Some(configured[0].1)
    } else {
        configured_for(configured.drop_first(), id)
    }
}

/// The first `n` monitors that get a wallpaper, in monitor order, with their
/// number of items: those whose settings hold at least one item.
pub open spec fn assigned(monitors: Seq<String>, configured: Seq<(String, usize)>, n: int) -> Seq<
    (Seq<char>, usize),
>
    decreases n,
{
    if n <= 0 {
        Seq::empty()
    } else {
        let earlier = assigned(monitors, configured, n - 1);
        match configured_for(configured, monitors[n - 1]@) {
            Some(count) if count > 0 => earlier.push((monitors[n - 1]@, count)),
            _ => earlier,
        }
    }
}

fn configured_count(configured: &[(String, usize)], id: &String) -> (count: Option<usize>)
    ensures
        count == configured_for(configured@, id@),
{
    let mut k: usize = 0;
    proof {
        assert(configured@.skip(0) =~= configured@);
    }
    while k < configured.len()
        invariant
            k <= configured@.len(),
            configured_for(configured@, id@) == configured_for(configured@.skip(k as int), id@),
        decreases configured@.len() - k,
    {
        proof {
            assert(configured@.skip(k as int).drop_first() =~= configured@.skip(k + 1));
            assert(configured@.skip(k as int)[0] == configured@[k as int]);
        }
        if same_text(configured[k].0.as_str(), id.as_str()) {
            return Some(configured[k].1);
        }
        k = k + 1;
    }
    None
}

/// Which monitors get a wallpaper: exactly those whose settings hold at least
/// one item, in monitor order, each with its number of items. Valid settings
/// with no wallpaper give no monitor at all, which is not an error.
pub fn assign(monitors: &[String], configured: &[(String, usize)]) -> (pairs: Vec<(String, usize)>)
    ensures
        pairs@.len() == assigned(monitors@, configured@, monitors@.len() as int).len(),
        forall|i: int|
            0 <= i < pairs@.len() ==> (#[trigger] pairs@[i]).0@ == assigned(
                monitors@,
                configured@,
                monitors@.len() as int,
            )[i].0 && pairs@[i].1 == assigned(monitors@, configured@, monitors@.len() as int)[i].1,
{
    let mut pairs: Vec<(String, usize)> = Vec::new();
    let mut m: usize = 0;
    while m < monitors.len()
        invariant
            m <= monitors@.len(),
            pairs@.len() == assigned(monitors@, configured@, m as int).len(),
            forall|i: int|
                0 <= i < pairs@.len() ==> (#[trigger] pairs@[i]).0@ == assigned(monitors@, configured@, m as int)[i].0
                    && pairs@[i].1 == assigned(monitors@, configured@, m as int)[i].1,
        decreases monitors@.len() - m,
    {
        let ghost before = pairs@;
        match configured_count(configured, &monitors[m]) {
            Some(count) => {
                if count > 0 {
                    pairs.push((monitors[m].clone(), count));
                    proof {
                        assert forall|i: int| 0 <= i < pairs@.len() implies (#[trigger] pairs@[i]).0@
                            == assigned(monitors@, configured@, m + 1)[i].0 && pairs@[i].1 == assigned(
                            monitors@,
                            configured@,
                            m + 1,
                        )[i].1 by {
                            if i < before.len() {
                                assert(pairs@[i] == before[i]);
                            }
                        }
                    }
                }
            },
            None => {},
        }
        m = m + 1;
    }
    pairs
}

/// Settings in which no monitor has an item assign no monitor.
pub proof fn settings_without_items_assign_nothing(
    monitors: Seq<String>,
    configured: Seq<(String, usize)>,
    n: int,
)
    requires
        0 <= n <= monitors.len(),
        forall|j: int| 0 <= j < configured.len() ==> #[trigger] configured[j].1 == 0,
    ensures
        assigned(monitors, configured, n).len() == 0,
    decreases n,
{
    if n > 0 {
        settings_without_items_assign_nothing(monitors, configured, n - 1);
        lemma_configured_count_is_listed(configured, monitors[n - 1]@);
    }
}

proof fn lemma_configured_count_is_listed(configured: Seq<(String, usize)>, id: Seq<char>)
    ensures
        configured_for(configured, id) matches Some(c) ==> exists|j: int|
            0 <= j < configured.len() && #[trigger] configured[j].1 == c,
    decreases configured.len(),
{
    if configured.len() > 0 && configured[0].0@ != id {
        lemma_configured_count_is_listed(configured.drop_first(), id);
        if let Some(c) = configured_for(configured.drop_first(), id) {
            let j = choose|j: int| 0 <= j < configured.drop_first().len() && #[trigger] configured.drop_first()[j].1 == c;
            assert(configured[j + 1].1 == c);
        }
    } else if configured.len() > 0 {
        assert(configured_for(configured, id) == Some(configured[0].1));
    }
}

/// What the engine learns between two waits.
pub enum EngineEvent {
    /// The monitor layout changed.
    DisplayChanged,
    /// The monitors were assigned again after a layout change.
    Resolved(Vec<(String, usize)>),
    /// The surfaces no longer hang from the desktop's wallpaper layer.
    Reattach,
    /// The graphics resources and surfaces were rebuilt.
    RecoverySucceeded,
    /// Rebuilding the graphics resources or surfaces failed.
    RecoveryFailed,
    /// The graphics device was lost while drawing.
    DeviceLost,
    /// The settings were saved: the new assignment when they could be read and
    /// assigned, `None` when they could not.
    Reload(Option<Vec<(String, usize)>>),
    /// The tray asked to pause or resume.
    TogglePause,
    /// The tray asked for the next wallpaper.
    NextWallpaper,
    /// The tray asked for the settings window.
    OpenSettings,
    /// The tray asked the engine to quit: the settings window closes too.
    TrayQuit,
    /// The quit signal was raised: the engine stops, nothing else.
    Quit,
}

/// What the engine does in answer to an event.
#[derive(Clone, Copy, Debug, PartialEq, Eq, Structural)]
pub enum EngineAction {
    /// Enumerate the monitors and assign them again.
    ResolveAssignments,
    /// Check again which monitors are covered.
    InvalidateOcclusion,
    /// Let go of every surface and of the graphics device.
    DropSurfaces,
    /// Use the settings just read from now on.
    AdoptSettings,
    /// Keep the settings in use and record that the new ones were rejected.
    KeepSettings,
    /// Show in the tray whether playback is paused by hand.
    ShowPaused(bool),
    /// Move every monitor's playlist to its next item.
    AdvanceAll,
    /// Open the settings window.
    OpenSettings,
    /// Raise the shutdown signal, on which an open settings window closes.
    RequestShutdown,
    /// Leave the loop.
    Stop,
}

/// The engine's state between events: the monitors it serves with their
/// number of items, when to rebuild its surfaces, and the manual pause.
pub struct EngineState {
    pub assignments: Vec<(String, usize)>,
    pub recovery: Retry,
    pub user_paused: bool,
}

impl EngineState {
    /// A starting engine: its surfaces are still to be built, at once.
    pub fn new(assignments: Vec<(String, usize)>, counter: i64) -> (state: Self)
        ensures
            state.assignments == assignments,
            state.recovery.attempts() == 0,
            state.recovery.due() == Some(counter as int),
            !state.user_paused,
    {
        let mut recovery = Retry::new();
        recovery.request(counter);
        EngineState { assignments, recovery, user_paused: false }
    }
}

/// The engine's decisions. A layout change or a detached surface asks for a
/// rebuild; a rebuild that works forgets past failures, one that fails backs
/// off; a lost device drops every surface and backs off; a reload adopts the
/// new settings only when they could be read and assigned (an empty
/// assignment included) and starts over, and otherwise keeps everything as it
/// was; the tray toggles the manual pause, and quitting from the tray also
/// closes the settings window, which the bare quit signal does not.
pub fn engine_step(state: &mut EngineState, event: EngineEvent, counter: i64, frequency: i64) -> (actions: Vec<
    EngineAction,
>)
    requires
        (event is RecoveryFailed || event is DeviceLost) ==> frequency > 0 && i64::MIN <= counter
            + ticks_for(backoff(old(state).recovery.attempts() as int), frequency as int) <= i64::MAX,
    ensures
        !(event is Resolved || event is Reload) ==> final(state).assignments == old(state).assignments,
        !(event is TogglePause) ==> final(state).user_paused == old(state).user_paused,
        (event is DisplayChanged || event is Reattach) ==> {
            &&& final(state).recovery.attempts() == old(state).recovery.attempts()
            &&& final(state).recovery.due() == match old(state).recovery.due() {
                Some(due) => Some(due),
                None => Some(counter as int),
            }
        },
        event is DisplayChanged ==> actions@ == seq![
            EngineAction::ResolveAssignments,
            EngineAction::InvalidateOcclusion,
        ],
        event is Reattach ==> actions@.len() == 0,
        event matches EngineEvent::Resolved(a) ==> final(state).assignments == a && final(state).recovery
            == old(state).recovery && actions@.len() == 0,
        event is RecoverySucceeded ==> {
            &&& final(state).recovery.attempts() == 0
            &&& final(state).recovery.due() == None::<int>
            &&& actions@ == seq![EngineAction::InvalidateOcclusion]
        },
        (event is RecoveryFailed || event is DeviceLost) ==> {
            &&& final(state).recovery.attempts() == if old(state).recovery.attempts() < u32::MAX {
                old(state).recovery.attempts() + 1
            } else {
                old(state).recovery.attempts()
            }
            &&& final(state).recovery.due() == Some(
                counter + ticks_for(backoff(old(state).recovery.attempts() as int), frequency as int),
            )
        },
        event is RecoveryFailed ==> actions@.len() == 0,
        event is DeviceLost ==> actions@ == seq![EngineAction::DropSurfaces],
        event matches EngineEvent::Reload(Some(a)) ==> {
            &&& final(state).assignments == a
            &&& final(state).recovery.attempts() == 0
            &&& final(state).recovery.due() == Some(counter as int)
            &&& actions@ == seq![EngineAction::AdoptSettings, EngineAction::InvalidateOcclusion]
        },
        event matches EngineEvent::Reload(None) ==> {
            &&& final(state).assignments == old(state).assignments
            &&& final(state).recovery == old(state).recovery
            &&& actions@ == seq![EngineAction::KeepSettings]
        },
        event is TogglePause ==> {
            &&& final(state).user_paused == !old(state).user_paused
            &&& final(state).recovery == old(state).recovery
            &&& actions@ == seq![EngineAction::ShowPaused(!old(state).user_paused)]
        },
        event is NextWallpaper ==> final(state).recovery == old(state).recovery && actions@ == seq![
            EngineAction::AdvanceAll,
        ],
        event is OpenSettings ==> final(state).recovery == old(state).recovery && actions@ == seq![
            EngineAction::OpenSettings,
        ],
        event is TrayQuit ==> final(state).recovery == old(state).recovery && actions@ == seq![
            EngineAction::RequestShutdown,
            EngineAction::Stop,
        ],
        event is Quit ==> final(state).recovery == old(state).recovery && actions@ == seq![
            EngineAction::Stop,
        ],
{
    let mut actions: Vec<EngineAction> = Vec::new();
    match event {
        EngineEvent::DisplayChanged => {
            state.recovery.request(counter);
            actions.push(EngineAction::ResolveAssignments);
            actions.push(EngineAction::InvalidateOcclusion);
        },
        EngineEvent::Resolved(assignments) => {
            state.assignments = assignments;
        },
        EngineEvent::Reattach => {
            state.recovery.request(counter);
        },
        EngineEvent::RecoverySucceeded => {
            state.recovery.clear();
            actions.push(EngineAction::InvalidateOcclusion);
        },
        EngineEvent::RecoveryFailed => {
            state.recovery.failed(counter, frequency);
        },
        EngineEvent::DeviceLost => {
            actions.push(EngineAction::DropSurfaces);
            state.recovery.failed(counter, frequency);
        },
        EngineEvent::Reload(Some(assignments)) => {
            state.assignments = assignments;
            state.recovery.clear();
            state.recovery.request(counter);
            actions.push(EngineAction::AdoptSettings);
            actions.push(EngineAction::InvalidateOcclusion);
        },
        EngineEvent::Reload(None) => {
            actions.push(EngineAction::KeepSettings);
        },
        EngineEvent::TogglePause => {
            state.user_paused = !state.user_paused;
            actions.push(EngineAction::ShowPaused(state.user_paused));
        },
        EngineEvent::NextWallpaper => {
            actions.push(EngineAction::AdvanceAll);
        },
        EngineEvent::OpenSettings => {
            actions.push(EngineAction::OpenSettings);
        },
        EngineEvent::TrayQuit => {
            actions.push(EngineAction::RequestShutdown);
            actions.push(EngineAction::Stop);
        },
        EngineEvent::Quit => {
            actions.push(EngineAction::Stop);
        },
    }
    actions
}

} // verus!
