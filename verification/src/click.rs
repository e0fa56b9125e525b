//! Desktop double-click detection: whether a click lands on the desktop and
//! whether it completes a double click.

use vstd::prelude::*;
use vstd::string::StringSliceAdditionalSpecFns;

verus! {

/// The UTF-16 code units of an ASCII text.
pub open spec fn ascii_units(s: Seq<char>) -> Seq<u16> {
    s.map_values(|c: char| c as u16)
}

/// Whether a window class name (UTF-16, as the system reports it) equals an
/// ASCII name.
fn class_is(name: &[u16], expected: &str) -> (r: bool)
    requires
        expected.is_ascii(),
    ensures
        r == (name@ == ascii_units(expected@)),
{
    broadcast use vstd::string::is_ascii_spec_bytes;

    let bytes = expected.as_bytes();
    assert(bytes@ =~= Seq::new(expected@.len(), |i| expected@[i] as u8));
    if name.len() != bytes.len() {
        return false;
    }
    let mut i: usize = 0;
    while i < name.len()
        invariant
            i <= name.len(),
            name.len() == bytes@.len(),
            bytes@ =~= Seq::new(expected@.len(), |i| expected@[i] as u8),
            expected.is_ascii(),
            forall|j: int| 0 <= j < i ==> name@[j] == ascii_units(expected@)[j],
        decreases name.len() - i,
    {
        assert('\0' <= expected@[i as int] <= '\u{7f}');
        if name[i] != bytes[i] as u16 {
            return false;
        }
        i = i + 1;
    }
    assert(name@ =~= ascii_units(expected@));
    true
}

/// Whether a window class belongs to the desktop: Progman, WorkerW,
/// SysListView32, or SHELLDLL_DefView (the parent of the listview, which
/// receives the clicks while the listview is hidden).
pub fn is_desktop_class(name: &[u16]) -> (r: bool)
    ensures
        r == (name@ == ascii_units("Progman"@) || name@ == ascii_units("WorkerW"@) || name@
            == ascii_units("SysListView32"@) || name@ == ascii_units("SHELLDLL_DefView"@)),
{
    proof {
        reveal_strlit("Progman");
        reveal_strlit("WorkerW");
        reveal_strlit("SysListView32");
        reveal_strlit("SHELLDLL_DefView");
    }
    class_is(name, "Progman") || class_is(name, "WorkerW") || class_is(name, "SysListView32")
        || class_is(name, "SHELLDLL_DefView")
}

/// Whether a window class is the listview that holds the desktop icons.
pub fn is_listview_class(name: &[u16]) -> (r: bool)
    ensures
        r == (name@ == ascii_units("SysListView32"@)),
{
    proof {
        reveal_strlit("SysListView32");
    }
    class_is(name, "SysListView32")
}

/// The system's double-click limits: the time between the clicks and the
/// horizontal and vertical distance.
#[derive(Debug, Clone, Copy, PartialEq, Eq, Structural)]
pub struct DoubleClickLimits {
    pub time_ms: u32,
    pub cx: i32,
    pub cy: i32,
}

/// The last click seen, for pairing it with the next one.
#[derive(Debug, Clone, Copy)]
pub struct ClickTracker {
    pub last_point: (i32, i32),
    pub has_previous: bool,
}

/// The absolute value.
pub open spec fn abs(x: int) -> int {
    if x < 0 {
        -x
    } else {
        x
    }
}

/// Whether a click at `pt`, `elapsed_ms` after the tracked one, completes a
/// double click.
pub open spec fn is_double(t: ClickTracker, pt: (i32, i32), elapsed_ms: u32, limits: DoubleClickLimits) -> bool {
    &&& t.has_previous
    &&& elapsed_ms < limits.time_ms
    &&& abs(pt.0 - t.last_point.0) <= limits.cx
    &&& abs(pt.1 - t.last_point.1) <= limits.cy
}

/// The tracker after a click at `pt`: a completed double click is forgotten,
/// so that a third click starts a new pair.
pub open spec fn after_click(t: ClickTracker, pt: (i32, i32), elapsed_ms: u32, limits: DoubleClickLimits) -> ClickTracker {
    ClickTracker { last_point: pt, has_previous: !is_double(t, pt, elapsed_ms, limits) }
}

impl ClickTracker {
    /// A tracker that has seen no click.
    pub fn new() -> (r: ClickTracker)
        ensures
            !r.has_previous,
            r.last_point == (0i32, 0i32),
    {
        ClickTracker { last_point: (0, 0), has_previous: false }
    }

    /// Whether the distance from the tracked click to `pt` can be computed
    /// in `i32` (the system's coordinate type).
    pub open spec fn distance_fits(self, pt: (i32, i32)) -> bool {
        self.has_previous ==> {
            &&& i32::MIN < pt.0 - self.last_point.0 <= i32::MAX
            &&& i32::MIN < pt.1 - self.last_point.1 <= i32::MAX
        }
    }

    /// Takes in a click at `pt`, `elapsed_ms` after the tracked click, and
    /// returns whether it completes a double click.
    pub fn register_click(&mut self, pt: (i32, i32), elapsed_ms: u32, limits: DoubleClickLimits) -> (r: bool)
        requires
            old(self).distance_fits(pt),
        ensures
            r == is_double(*old(self), pt, elapsed_ms, limits),
            *final(self) == after_click(*old(self), pt, elapsed_ms, limits),
    {
        if !self.has_previous {
            self.last_point = pt;
            self.has_previous = true;
            return false;
        }
        let dx = pt.0 - self.last_point.0;
        let dy = pt.1 - self.last_point.1;
        let adx = if dx < 0 { -dx } else { dx };
        let ady = if dy < 0 { -dy } else { dy };
        let is_dblclick = elapsed_ms < limits.time_ms && adx <= limits.cx && ady <= limits.cy;
        self.last_point = pt;
        self.has_previous = !is_dblclick;
        is_dblclick
    }
}

/// The first click never completes a double click, and neither does the
/// click right after a completed one: every double click takes two fresh
/// clicks.
pub proof fn lemma_double_click_needs_two_fresh_clicks(
    t: ClickTracker,
    pt: (i32, i32),
    elapsed_ms: u32,
    limits: DoubleClickLimits,
    pt2: (i32, i32),
    elapsed2_ms: u32,
    limits2: DoubleClickLimits,
)
    ensures
        !t.has_previous ==> !is_double(t, pt, elapsed_ms, limits),
        is_double(t, pt, elapsed_ms, limits) ==> !is_double(
            after_click(t, pt, elapsed_ms, limits),
            pt2,
            elapsed2_ms,
            limits2,
        ),
{
}

/// A click completes a double click exactly when a previous click is
/// tracked, it came sooner than the time limit, and it lies within the
/// horizontal limit and within the vertical limit of the previous click
/// (in either direction).
pub proof fn lemma_double_click_limits(
    t: ClickTracker,
    pt: (i32, i32),
    elapsed_ms: u32,
    limits: DoubleClickLimits,
)
    ensures
        is_double(t, pt, elapsed_ms, limits) == {
            &&& t.has_previous
            &&& elapsed_ms < limits.time_ms
            &&& -limits.cx <= pt.0 - t.last_point.0 <= limits.cx
            &&& -limits.cy <= pt.1 - t.last_point.1 <= limits.cy
        },
        after_click(t, pt, elapsed_ms, limits).last_point == pt,
{
}

} // verus!
