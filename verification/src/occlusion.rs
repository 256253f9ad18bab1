use vstd::prelude::*;

use crate::text::same_text;

verus! {

/// A rectangle in virtual screen coordinates, edges inclusive on the left and
/// top and exclusive on the right and bottom.
#[derive(Clone, Copy, Debug, Default, PartialEq, Eq, Structural)]
pub struct Rect {
    pub left: i32,
    pub top: i32,
    pub right: i32,
    pub bottom: i32,
}

/// `outer` covers all of `inner`.
pub open spec fn encloses(outer: Rect, inner: Rect) -> bool {
    outer.left <= inner.left && outer.top <= inner.top && outer.right >= inner.right
        && outer.bottom >= inner.bottom
}

pub fn contains(outer: &Rect, inner: &Rect) -> (covers: bool)
    ensures
        covers == encloses(*outer, *inner),
{
    outer.left <= inner.left && outer.top <= inner.top && outer.right >= inner.right
        && outer.bottom >= inner.bottom
}

/// Window classes of the shell and of the wallpaper itself, which never count
/// as covering a monitor.
pub open spec fn shell_class(name: Seq<char>) -> bool {
    ||| name == "Progman"@
    ||| name == "WorkerW"@
    ||| name == "Shell_TrayWnd"@
    ||| name == "Shell_SecondaryTrayWnd"@
    ||| name == "SHELLDLL_DefView"@
    ||| name == "SysListView32"@
    ||| name == "WallLitSurface"@
}

pub fn is_shell_class(name: &str) -> (shell: bool)
    ensures
        shell == shell_class(name@),
{
    same_text(name, "Progman") || same_text(name, "WorkerW") || same_text(name, "Shell_TrayWnd")
        || same_text(name, "Shell_SecondaryTrayWnd") || same_text(name, "SHELLDLL_DefView")
        || same_text(name, "SysListView32") || same_text(name, "WallLitSurface")
}

/// Area `i` is not covered yet and a window occupying `window` encloses it.
pub open spec fn newly_covered(covering: Seq<Option<usize>>, areas: Seq<Rect>, window: Rect, i: int) -> bool {
    covering[i] is None && encloses(window, areas[i])
}

/// Position `i` appears in `indices`.
pub open spec fn listed(indices: Seq<usize>, i: int) -> bool {
    exists|w: int| 0 <= w < indices.len() && #[trigger] indices[w] == i
}

proof fn lemma_listed_push(indices: Seq<usize>, x: usize, i: int)
    ensures
        listed(indices.push(x), i) <==> (listed(indices, i) || i == x),
{
    let longer = indices.push(x);
    if listed(indices, i) {
        let w = choose|w: int| 0 <= w < indices.len() && #[trigger] indices[w] == i;
        assert(longer[w] == i);
    }
    if i == x {
        assert(longer[indices.len() as int] == i);
    }
    if listed(longer, i) && i != x {
        let w = choose|w: int| 0 <= w < longer.len() && #[trigger] longer[w] == i;
        assert(indices[w] == i);
    }
}

/// A front-to-back pass over the top-level windows that records, for each
/// monitor area, the first opaque window that covers it entirely.
pub struct Scan {
    covering: Vec<Option<usize>>,
}

impl Scan {
    /// The window found covering each area so far.
    pub closed spec fn covering(self) -> Seq<Option<usize>> {
        self.covering@
    }

    /// A pass over `areas` monitor areas, with none covered yet.
    pub fn new(areas: usize) -> (scan: Self)
        ensures
            scan.covering() == Seq::new(areas as nat, |i: int| None::<usize>),
    {
        let mut covering: Vec<Option<usize>> = Vec::new();
        let mut i: usize = 0;
        while i < areas
            invariant
                i <= areas,
                covering@ == Seq::new(i as nat, |j: int| None::<usize>),
            decreases areas - i,
        {
            covering.push(None);
            i = i + 1;
        }
        Scan { covering }
    }

    /// Every area is covered: the pass can stop.
    pub fn finished(&self) -> (done: bool)
        ensures
            done == forall|i: int| 0 <= i < self.covering().len() ==> #[trigger] self.covering()[i] is Some,
    {
        let mut i: usize = 0;
        while i < self.covering.len()
            invariant
                i <= self.covering@.len(),
                forall|j: int| 0 <= j < i ==> #[trigger] self.covering@[j] is Some,
            decreases self.covering@.len() - i,
        {
            if self.covering[i].is_none() {
                return false;
            }
            i = i + 1;
        }
        true
    }

    /// The areas not covered yet that a window occupying `window` encloses,
    /// in increasing order.
    pub fn hits(&self, areas: &[Rect], window: &Rect) -> (found: Vec<usize>)
        requires
            areas@.len() == self.covering().len(),
        ensures
            forall|k: int| 0 <= k < found@.len() ==> found@[k] < areas@.len(),
            forall|k: int, l: int| 0 <= k < l < found@.len() ==> found@[k] < found@[l],
            forall|i: int|
                0 <= i < areas@.len() ==> (listed(found@, i) <==> #[trigger] newly_covered(
                    self.covering(),
                    areas@,
                    *window,
                    i,
                )),
    {
        let mut found: Vec<usize> = Vec::new();
        let mut i: usize = 0;
        while i < areas.len()
            invariant
                areas@.len() == self.covering@.len(),
                i <= areas@.len(),
                forall|k: int| 0 <= k < found@.len() ==> found@[k] < i,
                forall|k: int, l: int| 0 <= k < l < found@.len() ==> found@[k] < found@[l],
                forall|j: int|
                    0 <= j < i ==> (listed(found@, j) <==> #[trigger] newly_covered(
                        self.covering@,
                        areas@,
                        *window,
                        j,
                    )),
            decreases areas@.len() - i,
        {
            let ghost previous = found@;
            let hit = self.covering[i].is_none() && contains(window, &areas[i]);
            if hit {
                found.push(i);
            }
            proof {
                assert(hit == newly_covered(self.covering@, areas@, *window, i as int));
                assert forall|j: int| 0 <= j < i + 1 implies (listed(found@, j) <==> #[trigger] newly_covered(
                    self.covering@,
                    areas@,
                    *window,
                    j,
                )) by {
                    if hit {
                        assert(found@ == previous.push(i));
                        lemma_listed_push(previous, i, j);
                    } else {
                        assert(found@ == previous);
                    }
                    if j < i {
                        assert(listed(previous, j) <==> newly_covered(self.covering@, areas@, *window, j));
                        assert(listed(found@, j) <==> listed(previous, j));
                    }
                    if j == i && listed(previous, j) {
                        let w = choose|w: int| 0 <= w < previous.len() && #[trigger] previous[w] == j;
                        assert(previous[w] < i);
                    }
                }
            }
            i = i + 1;
        }
        found
    }

    /// Records `window` as covering the areas `hits`, leaving areas already
    /// covered by a window in front of it as they were.
    pub fn cover(&mut self, hits: &[usize], window: usize)
        ensures
            final(self).covering().len() == old(self).covering().len(),
            forall|i: int|
                0 <= i < old(self).covering().len() ==> #[trigger] final(self).covering()[i] == if old(
                    self,
                ).covering()[i] is None && listed(hits@, i) {
                    Some(window)
                } else {
                    old(self).covering()[i]
                },
    {
        let mut k: usize = 0;
        while k < hits.len()
            invariant
                k <= hits@.len(),
                self.covering@.len() == old(self).covering@.len(),
                forall|i: int|
                    0 <= i < old(self).covering@.len() ==> #[trigger] self.covering@[i] == if old(
                        self,
                    ).covering@[i] is None && listed(hits@.take(k as int), i) {
                        Some(window)
                    } else {
                        old(self).covering@[i]
                    },
            decreases hits@.len() - k,
        {
            let index = hits[k];
            let ghost before = self.covering@;
            if index < self.covering.len() && self.covering[index].is_none() {
                self.covering.set(index, Some(window));
            }
            proof {
                assert forall|i: int| 0 <= i < old(self).covering@.len() implies #[trigger] self.covering@[i]
                    == if old(self).covering@[i] is None && listed(hits@.take(k + 1), i) {
                    Some(window)
                } else {
                    old(self).covering@[i]
                } by {
                    let longer = hits@.take(k + 1);
                    let shorter = hits@.take(k as int);
                    if listed(shorter, i) {
                        let w = choose|w: int| 0 <= w < shorter.len() && #[trigger] shorter[w] == i;
                        assert(longer[w] == i);
                    }
                    if listed(longer, i) && !listed(shorter, i) {
                        let w = choose|w: int| 0 <= w < longer.len() && #[trigger] longer[w] == i;
                        if w < k {
                            assert(shorter[w] == i);
                        }
                        assert(hits@[k as int] == i);
                    }
                    if i == index as int {
                        assert(longer[k as int] == i);
                    }
                }
            }
            k = k + 1;
        }
        proof {
            assert(hits@.take(hits@.len() as int) =~= hits@);
        }
    }

    /// Which areas ended up covered.
    pub fn covered(&self) -> (result: Vec<bool>)
        ensures
            result@.len() == self.covering().len(),
            forall|i: int| 0 <= i < result@.len() ==> result@[i] == (#[trigger] self.covering()[i] is Some),
    {
        let mut result: Vec<bool> = Vec::new();
        let mut i: usize = 0;
        while i < self.covering.len()
            invariant
                i <= self.covering@.len(),
                result@.len() == i,
                forall|j: int| 0 <= j < i ==> result@[j] == (#[trigger] self.covering@[j] is Some),
            decreases self.covering@.len() - i,
        {
            result.push(self.covering[i].is_some());
            i = i + 1;
        }
        result
    }

    /// The window found covering each area, if any.
    pub fn windows(&self) -> (result: Vec<Option<usize>>)
        ensures
            result@ == self.covering(),
    {
        self.covering.clone()
    }
}

/// Extended window styles of windows that let the desktop show through:
/// layered (`WS_EX_LAYERED`) or click-through (`WS_EX_TRANSPARENT`).
pub const SEE_THROUGH_STYLES: u32 = 0x0008_0020;

/// Whether a window with extended style `ex_style` lets the desktop show
/// through, as full-screen overlays of drivers and capture tools do.
pub fn is_see_through(ex_style: u32) -> (see_through: bool)
    ensures
        see_through == (ex_style & SEE_THROUGH_STYLES != 0),
{
    ex_style & SEE_THROUGH_STYLES != 0
}

/// Whether a window covering some monitor hides the wallpaper: it is shown,
/// not minimised, not part of the shell, not see-through and not cloaked.
pub fn hides_wallpaper(visible: bool, minimized: bool, shell: bool, see_through: bool, cloaked: bool) -> (hides: bool)
    ensures
        hides == (visible && !minimized && !shell && !see_through && !cloaked),
{
    visible && !minimized && !shell && !see_through && !cloaked
}

/// A window covers an area exactly when it reaches all four of the area's
/// edges: a window stopping short of any edge (a window snapped to the top
/// half of a monitor, say) never covers it, every area covers itself, and a
/// window that grows on any side still covers what it covered.
pub proof fn covering_reaches_every_edge(outer: Rect, inner: Rect, larger: Rect)
    ensures
        encloses(outer, inner) ==> outer.left <= inner.left,
        encloses(outer, inner) ==> outer.top <= inner.top,
        encloses(outer, inner) ==> outer.right >= inner.right,
        encloses(outer, inner) ==> outer.bottom >= inner.bottom,
        outer.bottom < inner.bottom || outer.right < inner.right || outer.top > inner.top || outer.left
            > inner.left ==> !encloses(outer, inner),
        encloses(inner, inner),
        encloses(outer, inner) && larger.left <= outer.left && larger.top <= outer.top && larger.right
            >= outer.right && larger.bottom >= outer.bottom ==> encloses(larger, inner),
        encloses(larger, outer) && encloses(outer, inner) ==> encloses(larger, inner),
{
}

} // verus!
