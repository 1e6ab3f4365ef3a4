use vstd::prelude::*;

verus! {

/// How far below the exact centre the overlay sits, in physical pixels, so
/// that a menu bar or status bar at the top does not make it look too high.
pub const VERTICAL_OFFSET: i64 = 15;

/// The overlay's nominal size, used when its real size cannot be queried.
pub const DEFAULT_OVERLAY_WIDTH: u32 = 720;

pub const DEFAULT_OVERLAY_HEIGHT: u32 = 450;

/// A monitor's rectangle in the virtual-desktop coordinate space, in
/// physical pixels.
#[derive(Clone, Copy, Debug, PartialEq, Eq, Structural)]
pub struct Monitor {
    pub x: i32,
    pub y: i32,
    pub width: u32,
    pub height: u32,
}

/// A point in the virtual-desktop coordinate space, in whole physical pixels.
#[derive(Clone, Copy, Debug, PartialEq, Eq, Structural)]
pub struct Point {
    pub x: i64,
    pub y: i64,
}

/// A window's outer size in physical pixels.
#[derive(Clone, Copy, Debug, PartialEq, Eq, Structural)]
pub struct Size {
    pub width: u32,
    pub height: u32,
}

/// Where the overlay goes before it is shown.
#[derive(Clone, Copy, Debug, PartialEq, Eq, Structural)]
pub enum Placement {
    /// Move the window's top-left corner here.
    At(Point),
    /// No monitor is known to be under the cursor: let the platform centre the
    /// window on its own.
    PlatformCenter,
}

/// Half-open containment: the left and top edges belong to the monitor, the
/// right and bottom edges do not.
pub open spec fn contains(m: Monitor, p: Point) -> bool {
    &&& m.x <= p.x < m.x + m.width
    &&& m.y <= p.y < m.y + m.height
}

/// The first monitor, from index `i` on, that contains `p`.
pub open spec fn first_containing_from(ms: Seq<Monitor>, p: Point, i: int) -> Option<Monitor>
    decreases ms.len() - i,
{
    if i < 0 || i >= ms.len() {
        None
    } else if contains(ms[i], p) {
        Some(ms[i])
    } else {
        first_containing_from(ms, p, i + 1)
    }
}

/// The first monitor in `ms` that contains `p`.
pub open spec fn first_containing(ms: Seq<Monitor>, p: Point) -> Option<Monitor> {
    first_containing_from(ms, p, 0)
}

/// The top-left corner that centres a window of size `s` on `m`, lowered by
/// `VERTICAL_OFFSET`.
pub open spec fn centered_on(m: Monitor, s: Size) -> Point {
    Point {
        x: (m.x + m.width / 2 - s.width / 2) as i64,
        y: (m.y + m.height / 2 - s.height / 2 + VERTICAL_OFFSET) as i64,
    }
}

/// The window size to centre with: the queried one, or the nominal size when
/// the query failed.
pub open spec fn size_or_default(s: Option<Size>) -> Size {
    match s {
        Some(s) => s,
        None => Size { width: DEFAULT_OVERLAY_WIDTH, height: DEFAULT_OVERLAY_HEIGHT },
    }
}

pub open spec fn placement_for(cursor: Option<Point>, ms: Seq<Monitor>, s: Option<Size>) -> Placement {
    match cursor {
        None => Placement::PlatformCenter,
        Some(p) => match first_containing(ms, p) {
            Some(m) => Placement::At(centered_on(m, size_or_default(s))),
            None => Placement::PlatformCenter,
        },
    }
}

proof fn lemma_first_containing_from(ms: Seq<Monitor>, p: Point, i: int)
    requires
        0 <= i <= ms.len(),
    ensures
        first_containing_from(ms, p, i) is None <==> forall|k: int|
            i <= k < ms.len() ==> !contains(#[trigger] ms[k], p),
        first_containing_from(ms, p, i) matches Some(m) ==> contains(m, p) && exists|k: int|
            i <= k < ms.len() && #[trigger] ms[k] == m,
    decreases ms.len() - i,
{
    if i < ms.len() && !contains(ms[i], p) {
        lemma_first_containing_from(ms, p, i + 1);
        assert forall|k: int| i <= k < ms.len() && !contains(ms[k], p) implies k == i || (i + 1
            <= k < ms.len() && !contains(ms[k], p)) by {}
    }
}

/// The monitor found under a point contains that point and is one of the
/// monitors given; no monitor is found exactly when none of them contains the
/// point.
pub proof fn lemma_located_monitor_contains_point(ms: Seq<Monitor>, p: Point)
    ensures
        first_containing(ms, p) is None <==> forall|k: int|
            0 <= k < ms.len() ==> !contains(#[trigger] ms[k], p),
        first_containing(ms, p) matches Some(m) ==> contains(m, p) && ms.contains(m),
{
    lemma_first_containing_from(ms, p, 0);
}

/// The centred overlay's midpoint lies within half a pixel of the monitor's
/// midpoint across, and exactly `VERTICAL_OFFSET` lower than that down,
/// within half a pixel again; the corner is computed without overflow.
pub proof fn lemma_overlay_centered(m: Monitor, s: Size)
    ensures
        ({
            let c = centered_on(m, s);
            &&& c.x == m.x + m.width / 2 - s.width / 2
            &&& c.y == m.y + m.height / 2 - s.height / 2 + VERTICAL_OFFSET
            &&& -1 <= (2 * c.x + s.width) - (2 * m.x + m.width) <= 1
            &&& -1 <= (2 * (c.y - VERTICAL_OFFSET) + s.height) - (2 * m.y + m.height) <= 1
        }),
{
}

/// Whether `p` lies on monitor `m`.
pub fn monitor_contains(m: &Monitor, p: Point) -> (r: bool)
    ensures
        r == contains(*m, p),
{
    let left = m.x as i64;
    let top = m.y as i64;
    let right = left + m.width as i64;
    let bottom = top + m.height as i64;
    left <= p.x && p.x < right && top <= p.y && p.y < bottom
}

/// The first of `monitors` that contains the cursor, if any does.
pub fn locate_monitor(cursor: Point, monitors: &Vec<Monitor>) -> (r: Option<Monitor>)
    ensures
        r == first_containing(monitors@, cursor),
{
    let mut i: usize = 0;
    while i < monitors.len()
        invariant
            i <= monitors@.len(),
            first_containing(monitors@, cursor) == first_containing_from(
                monitors@,
                cursor,
                i as int,
            ),
        decreases monitors@.len() - i,
    {
        if monitor_contains(&monitors[i], cursor) {
            return Some(monitors[i]);
        }
        i = i + 1;
    }
    None
}

/// The top-left corner that centres a window of size `window` on `monitor`,
/// slightly below the exact centre.
pub fn center_on_monitor(monitor: &Monitor, window: Size) -> (r: Point)
    ensures
        r == centered_on(*monitor, window),
{
    let x = monitor.x as i64 + (monitor.width / 2) as i64 - (window.width / 2) as i64;
    let y = monitor.y as i64 + (monitor.height / 2) as i64 - (window.height / 2) as i64
        + VERTICAL_OFFSET;
    Point { x, y }
}

/// Where to put the overlay before showing it: centred on the monitor under
/// the cursor, or left to the platform when the cursor position is unknown or
/// lies on no known monitor. `window` is the overlay's queried outer size.
pub fn place_overlay(cursor: Option<Point>, monitors: &Vec<Monitor>, window: Option<Size>) -> (r:
    Placement)
    ensures
        r == placement_for(cursor, monitors@, window),
{
    match cursor {
        None => Placement::PlatformCenter,
        Some(p) => match locate_monitor(p, monitors) {
            Some(m) => {
                let size = match window {
                    Some(s) => s,
                    None => Size { width: DEFAULT_OVERLAY_WIDTH, height: DEFAULT_OVERLAY_HEIGHT },
                };
                Placement::At(center_on_monitor(&m, size))
            },
            None => Placement::PlatformCenter,
        },
    }
}

} // verus!
