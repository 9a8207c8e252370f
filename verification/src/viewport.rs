//! The viewport scroller: the contiguous `[top, bottom)` window of a backing
//! list that is currently rendered.  Every list widget owns one and runs the
//! same two operations on it: `adjust`, which shifts the window until the
//! selected row is inside it, and `recompute`, which re-establishes the
//! window size `min(len, height)` after a resize and then adjusts.

use vstd::prelude::*;

verus! {

/// The window `[top, bottom)` over a backing list.
#[derive(Clone, Copy, PartialEq, Eq, Structural, Debug)]
pub struct Viewport {
    pub top: usize,
    pub bottom: usize,
}

/// A selection-changing event: the selected row moves one step down or up,
/// saturating at the ends of the list.
pub ghost enum SelMove {
    Down,
    Up,
}

/// Where the selection ends up after one move over a list of length `len`.
pub open spec fn moved(sel: int, len: int, m: SelMove) -> int {
    match m {
        SelMove::Down => if sel + 1 < len { sel + 1 } else { sel },
        SelMove::Up => if sel > 0 { sel - 1 } else { sel },
    }
}

/// The window after scroll-adjustment: shifted up when the selection is above
/// it, shifted down when the selection is at or below its end, else unchanged.
pub open spec fn adjusted(top: int, bottom: int, sel: int) -> (int, int) {
    if top > sel {
        (sel, bottom - (top - sel))
    } else if bottom <= sel {
        (top + (sel - bottom) + 1, sel + 1)
    } else {
        (top, bottom)
    }
}

/// The window after `recompute(height)`: when the list or the height is
/// empty the window collapses to `[0, 0)`; otherwise, if the window size
/// differs from `min(len, height)` the window is reset to
/// `[0, min(len, height))` and then scroll-adjusted, and if the size
/// matches it is left alone.
pub open spec fn recomputed(top: int, bottom: int, sel: int, len: int, height: int) -> (int, int) {
    let size = if len <= height { len } else { height };
    if size == 0 {
        (0, 0)
    } else if bottom - top != size {
        adjusted(0, size, sel)
    } else {
        (top, bottom)
    }
}

/// The selection lies inside the window.
pub open spec fn contains_sel(top: int, bottom: int, sel: int) -> bool {
    top <= sel < bottom
}

impl Viewport {
    /// A collapsed window `[0, 0)`, the state of a widget that has never been
    /// given a terminal size.
    pub fn new() -> (v: Viewport)
        ensures
            v.top == 0 && v.bottom == 0,
    {
        Viewport { top: 0, bottom: 0 }
    }

    pub open spec fn wf(self) -> bool {
        self.top <= self.bottom
    }

    /// Shift the window so that row `sel` is visible, keeping its size.
    pub fn adjust(&mut self, sel: usize)
        requires
            old(self).wf(),
            sel < usize::MAX,
        ensures
            final(self).wf(),
            (final(self).top as int, final(self).bottom as int) == adjusted(
                old(self).top as int,
                old(self).bottom as int,
                sel as int,
            ),
    {
        if self.top > sel {
            let amt = self.top - sel;
            self.bottom = self.bottom - amt;
            self.top = self.top - amt;
        } else if self.bottom <= sel {
            let amt = sel - self.bottom + 1;
            self.top = self.top + amt;
            self.bottom = self.bottom + amt;
        }
    }

    /// Reset the window size to `min(len, height)` if it changed, then make
    /// row `sel` visible; on an empty list or an empty height the window
    /// collapses to `[0, 0)`.  Runs on every resize and on every redraw.
    pub fn recompute(&mut self, sel: usize, len: usize, height: usize)
        requires
            old(self).wf(),
            sel < usize::MAX,
        ensures
            final(self).wf(),
            (final(self).top as int, final(self).bottom as int) == recomputed(
                old(self).top as int,
                old(self).bottom as int,
                sel as int,
                len as int,
                height as int,
            ),
    {
        let size = if len <= height { len } else { height };
        if size == 0 {
            self.top = 0;
            self.bottom = 0;
        } else if self.bottom - self.top != size {
            self.top = 0;
            self.bottom = size;
            self.adjust(sel);
        }
    }
}

/// Adjustment keeps the window size and, whenever the window can hold at
/// least one row, leaves the selected row inside the window.
pub proof fn lemma_adjust_keeps_selection_visible(top: int, bottom: int, sel: int)
    requires
        0 <= top <= bottom,
        0 <= sel,
    ensures
        adjusted(top, bottom, sel).1 - adjusted(top, bottom, sel).0 == bottom - top,
        0 <= adjusted(top, bottom, sel).0 <= adjusted(top, bottom, sel).1,
        bottom - top >= 1 ==> contains_sel(
            adjusted(top, bottom, sel).0,
            adjusted(top, bottom, sel).1,
            sel,
        ),
{
}

/// Recomputing is idempotent: with no intervening selection change, a second
/// `recompute` with the same height produces an identical window.
pub proof fn lemma_recompute_idempotent(top: int, bottom: int, sel: int, len: int, height: int)
    requires
        0 <= top <= bottom,
        0 <= sel,
        0 <= len,
        0 <= height,
    ensures
        ({
            let once = recomputed(top, bottom, sel, len, height);
            recomputed(once.0, once.1, sel, len, height) == once
        }),
{
}

/// When a resize changes the window size, recomputing leaves the selected
/// row visible and the window at size `min(len, height)`; when the size is
/// unchanged, the window is untouched.
pub proof fn lemma_recompute_keeps_selection_visible(
    top: int,
    bottom: int,
    sel: int,
    len: int,
    height: int,
)
    requires
        0 <= top <= bottom,
        0 <= sel < len,
        1 <= height,
    ensures
        ({
            let w = recomputed(top, bottom, sel, len, height);
            let size = if len <= height {
                len
            } else {
                height
            };
            &&& bottom - top != size ==> contains_sel(w.0, w.1, sel) && w.1 - w.0 == size
            &&& bottom - top == size ==> w == (top, bottom)
        }),
{
    let size = if len <= height {
        len
    } else {
        height
    };
    if bottom - top != size {
        lemma_adjust_keeps_selection_visible(0, size, sel);
    }
}

/// The state reached by running a sequence of selection moves against a
/// window, scroll-adjusting after each move, as the list widgets do.
/// Returns `(top, bottom, sel)`.
pub open spec fn run_moves(top: int, bottom: int, sel: int, len: int, ms: Seq<SelMove>) -> (
    int,
    int,
    int,
)
    decreases ms.len(),
{
    if ms.len() == 0 {
        (top, bottom, sel)
    } else {
        let prev = run_moves(top, bottom, sel, len, ms.drop_last());
        let s = moved(prev.2, len, ms.last());
        let w = adjusted(prev.0, prev.1, s);
        (w.0, w.1, s)
    }
}

/// For any sequence of selection-changing events, any list length and any
/// starting window of size at least one, `top <= sel < bottom` holds after
/// the last event, and the window keeps its size.  Since the sequence is
/// arbitrary, instantiating this lemma with every prefix of an event stream
/// shows that the selection stays visible after every single event.
pub proof fn lemma_moves_keep_selection_visible(
    top: int,
    bottom: int,
    sel: int,
    len: int,
    ms: Seq<SelMove>,
)
    requires
        0 <= top <= bottom,
        bottom - top >= 1,
        0 <= sel < len,
    ensures
        ({
            let st = run_moves(top, bottom, sel, len, ms);
            &&& 0 <= st.0 <= st.1
            &&& st.1 - st.0 == bottom - top
            &&& 0 <= st.2 < len
            &&& ms.len() > 0 ==> contains_sel(st.0, st.1, st.2)
        }),
    decreases ms.len(),
{
    if ms.len() > 0 {
        lemma_moves_keep_selection_visible(top, bottom, sel, len, ms.drop_last());
        let prev = run_moves(top, bottom, sel, len, ms.drop_last());
        let s = moved(prev.2, len, ms.last());
        lemma_adjust_keeps_selection_visible(prev.0, prev.1, s);
    }
}

} // verus!
