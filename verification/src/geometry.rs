//! Placement arithmetic for anchored overlays.
//!
//! Every coordinate lives in one logical space whose origin is the top-left
//! corner of the desktop. Rectangles carry 32-bit fields; every computed
//! position is a 64-bit value, so no sum in this module can overflow.

use vstd::prelude::*;

verus! {

/// Space reserved around a surface for its drop shadow, both sides together.
pub const SHADOW_PADDING: i64 = 160;

/// Height kept free at the top of a display for the menu bar.
pub const TOP_MARGIN: i64 = 80;

/// Vertical gap between an anchor and its overlay when the caller names none.
pub const DEFAULT_POPOVER_OFFSET_Y: i32 = 8;

/// The least height ever reported as available below an anchor.
pub const MIN_AVAILABLE_HEIGHT: i64 = 100;

/// How far outside a trigger rectangle the cursor still counts as over it.
pub const TRIGGER_PADDING: i64 = 15;

/// A connected display: its origin and its size.
#[derive(Clone, Copy, Debug, PartialEq, Eq, Structural)]
pub struct MonitorBounds {
    pub x: i32,
    pub y: i32,
    pub width: u32,
    pub height: u32,
}

/// The screen rectangle of the element an overlay is attached to.
#[derive(Clone, Copy, Debug, PartialEq, Eq, Structural)]
pub struct PopoverAnchor {
    pub x: i32,
    pub y: i32,
    pub width: i32,
    pub height: i32,
}

/// The screen rectangle of a hover trigger.
#[derive(Clone, Copy, Debug, PartialEq, Eq, Structural)]
pub struct TriggerBounds {
    pub x: i32,
    pub y: i32,
    pub width: i32,
    pub height: i32,
}

/// Horizontal placement of an overlay relative to its anchor.
#[derive(Clone, Copy, Debug, PartialEq, Eq, Structural)]
pub enum PopoverAlign {
    Start,
    Center,
    End,
}

impl Default for PopoverAlign {
    fn default() -> (r: Self)
        ensures
            r == PopoverAlign::Center,
    {
        PopoverAlign::Center
    }
}

/// Why a placement could not be computed.
#[derive(Clone, Copy, Debug, PartialEq, Eq, Structural)]
pub enum GeometryError {
    /// The list of displays was empty.
    NoMonitors,
}

pub open spec fn lesser(a: int, b: int) -> int {
    if a <= b {
        a
    } else {
        b
    }
}

pub open spec fn greater(a: int, b: int) -> int {
    if a >= b {
        a
    } else {
        b
    }
}

/// `v` raised to at least `lo`, then lowered to at most `hi`. The upper bound
/// is applied last, so it wins when the two bounds cross.
pub open spec fn clamp_into(v: int, lo: int, hi: int) -> int {
    lesser(greater(v, lo), hi)
}

impl MonitorBounds {
    /// The point lies on this display; the right and bottom edges are outside.
    pub open spec fn contains_point(self, px: int, py: int) -> bool {
        &&& self.x <= px < self.x + self.width
        &&& self.y <= py < self.y + self.height
    }

    /// Width left for a surface once the shadow padding is taken off.
    pub open spec fn usable_width(self) -> int {
        self.width - SHADOW_PADDING
    }

    /// Height left for a surface once shadow padding and top margin are taken off.
    pub open spec fn usable_height(self) -> int {
        self.height - SHADOW_PADDING - TOP_MARGIN
    }

    /// A rectangle at `(x, y)` of size `w` by `h` lies wholly on this display.
    pub open spec fn encloses(self, x: int, y: int, w: int, h: int) -> bool {
        &&& self.x <= x
        &&& x + w <= self.x + self.width
        &&& self.y <= y
        &&& y + h <= self.y + self.height
    }

    pub fn contains(&self, px: i32, py: i32) -> (r: bool)
        ensures
            r == self.contains_point(px as int, py as int),
    {
        let x: i64 = px as i64;
        let y: i64 = py as i64;
        let left: i64 = self.x as i64;
        let top: i64 = self.y as i64;
        x >= left && x < left + self.width as i64 && y >= top && y < top + self.height as i64
    }
}

/// Index of the first display that contains the point, or the length of the
/// list when none does.
pub open spec fn first_containing(monitors: Seq<MonitorBounds>, px: int, py: int) -> int
    decreases monitors.len(),
{
    if monitors.len() == 0 {
        0
    } else if monitors[0].contains_point(px, py) {
        0
    } else {
        1 + first_containing(monitors.drop_first(), px, py)
    }
}

pub proof fn lemma_first_containing(monitors: Seq<MonitorBounds>, px: int, py: int)
    ensures
        0 <= first_containing(monitors, px, py) <= monitors.len(),
        first_containing(monitors, px, py) < monitors.len() ==> monitors[first_containing(
            monitors,
            px,
            py,
        )].contains_point(px, py),
        forall|i: int|
            0 <= i < first_containing(monitors, px, py) ==> !(#[trigger] monitors[i]).contains_point(
                px,
                py,
            ),
    decreases monitors.len(),
{
    if monitors.len() > 0 && !monitors[0].contains_point(px, py) {
        let rest = monitors.drop_first();
        lemma_first_containing(rest, px, py);
        let k = first_containing(rest, px, py);
        assert forall|i: int| 0 <= i < 1 + k implies !(#[trigger] monitors[i]).contains_point(
            px,
            py,
        ) by {
            if i > 0 {
                assert(monitors[i] == rest[i - 1]);
            }
        }
        if k < rest.len() {
            assert(monitors[1 + k] == rest[k]);
        }
    }
}

/// The display an anchor point belongs to: the first that contains it, else
/// the primary display, else the first in the list.
pub open spec fn locate_monitor_spec(
    monitors: Seq<MonitorBounds>,
    primary: Option<MonitorBounds>,
    px: int,
    py: int,
) -> Result<MonitorBounds, GeometryError> {
    if monitors.len() == 0 {
        Err(GeometryError::NoMonitors)
    } else if first_containing(monitors, px, py) < monitors.len() {
        Ok(monitors[first_containing(monitors, px, py)])
    } else {
        match primary {
            Some(m) => Ok(m),
            None => Ok(monitors[0]),
        }
    }
}

/// Finds the display that holds the point `(px, py)`.
///
/// Fails exactly when `monitors` is empty. A point that lies on no display
/// falls back to `primary`, and to the first display when no primary is named.
pub fn locate_monitor(
    monitors: &Vec<MonitorBounds>,
    primary: Option<MonitorBounds>,
    px: i32,
    py: i32,
) -> (r: Result<MonitorBounds, GeometryError>)
    ensures
        r == locate_monitor_spec(monitors@, primary, px as int, py as int),
        r is Err <==> monitors@.len() == 0,
{
    if monitors.len() == 0 {
        return Err(GeometryError::NoMonitors);
    }
    proof {
        lemma_first_containing(monitors@, px as int, py as int);
    }
    let mut i: usize = 0;
    while i < monitors.len()
        invariant
            0 <= i <= monitors@.len(),
            forall|j: int| 0 <= j < i ==> !(#[trigger] monitors@[j]).contains_point(px as int, py as int),
            0 <= first_containing(monitors@, px as int, py as int) <= monitors@.len(),
            first_containing(monitors@, px as int, py as int) < monitors@.len()
                ==> monitors@[first_containing(monitors@, px as int, py as int)].contains_point(
                px as int,
                py as int,
            ),
            forall|j: int|
                0 <= j < first_containing(monitors@, px as int, py as int) ==> !(
                #[trigger] monitors@[j]).contains_point(px as int, py as int),
        decreases monitors@.len() - i,
    {
        if monitors[i].contains(px, py) {
            return Ok(monitors[i]);
        }
        i = i + 1;
    }
    match primary {
        Some(m) => Ok(m),
        None => Ok(monitors[0]),
    }
}

/// The requested size cut down to the usable area of a display.
pub open spec fn constrain_spec(width: int, height: int, monitor: MonitorBounds) -> (int, int) {
    (lesser(width, monitor.usable_width()), lesser(height, monitor.usable_height()))
}

/// Limits a requested size to what a display can show: on each axis the
/// smaller of the request and the display's usable extent.
pub fn constrain_to_screen(width: i32, height: i32, monitor: &MonitorBounds) -> (r: (i32, i32))
    ensures
        (r.0 as int, r.1 as int) == constrain_spec(width as int, height as int, *monitor),
{
    let max_w: i64 = monitor.width as i64 - SHADOW_PADDING;
    let max_h: i64 = monitor.height as i64 - SHADOW_PADDING - TOP_MARGIN;
    let w: i32 = if (width as i64) <= max_w {
        width
    } else {
        max_w as i32
    };
    let h: i32 = if (height as i64) <= max_h {
        height
    } else {
        max_h as i32
    };
    (w, h)
}

/// Left edge of an overlay of width `w` before it is clamped to a display.
pub open spec fn aligned_x_spec(anchor: PopoverAnchor, w: int, align: PopoverAlign) -> int {
    match align {
        PopoverAlign::Start => anchor.x as int,
        PopoverAlign::Center => anchor.x + (anchor.width - w) / 2,
        PopoverAlign::End => anchor.x + anchor.width - w,
    }
}

/// Top edge of an overlay before it is clamped to a display.
pub open spec fn below_anchor_spec(anchor: PopoverAnchor, offset_y: int) -> int {
    anchor.y + anchor.height + offset_y
}

/// Top-left corner of an overlay of size `w` by `h`: below the anchor,
/// aligned to it, and clamped onto the display.
pub open spec fn place_spec(
    anchor: PopoverAnchor,
    w: int,
    h: int,
    align: PopoverAlign,
    offset_y: int,
    monitor: MonitorBounds,
) -> (int, int) {
    (
        clamp_into(aligned_x_spec(anchor, w, align), monitor.x as int, monitor.x + monitor.width - w),
        clamp_into(
            below_anchor_spec(anchor, offset_y),
            monitor.y as int,
            monitor.y + monitor.height - h,
        ),
    )
}

fn half_floor(d: i64) -> (r: i64)
    requires
        -0x1_0000_0000 <= d <= 0x1_0000_0000,
    ensures
        r == d / 2,
{
    if d >= 0 {
        d / 2
    } else {
        -((1 - d) / 2)
    }
}

fn clamp(v: i64, lo: i64, hi: i64) -> (r: i64)
    ensures
        r == clamp_into(v as int, lo as int, hi as int),
{
    let raised: i64 = if v >= lo {
        v
    } else {
        lo
    };
    if raised <= hi {
        raised
    } else {
        hi
    }
}

/// Left edge of an overlay of width `w` aligned to `anchor`, not yet clamped.
pub fn aligned_x(anchor: &PopoverAnchor, w: i32, align: PopoverAlign) -> (x: i64)
    ensures
        x == aligned_x_spec(*anchor, w as int, align),
{
    let ax: i64 = anchor.x as i64;
    let aw: i64 = anchor.width as i64;
    match align {
        PopoverAlign::Start => ax,
        PopoverAlign::Center => ax + half_floor(aw - w as i64),
        PopoverAlign::End => ax + aw - w as i64,
    }
}

/// Computes where an overlay of size `w` by `h` goes.
pub fn place(
    anchor: &PopoverAnchor,
    w: i32,
    h: i32,
    align: PopoverAlign,
    offset_y: i32,
    monitor: &MonitorBounds,
) -> (r: (i64, i64))
    ensures
        (r.0 as int, r.1 as int) == place_spec(*anchor, w as int, h as int, align, offset_y as int, *monitor),
{
    let mx: i64 = monitor.x as i64;
    let my: i64 = monitor.y as i64;
    let x: i64 = aligned_x(anchor, w, align);
    let y: i64 = anchor.y as i64 + anchor.height as i64 + offset_y as i64;
    (
        clamp(x, mx, mx + monitor.width as i64 - w as i64),
        clamp(y, my, my + monitor.height as i64 - h as i64),
    )
}

/// Room between the top of an overlay and the bottom of its display, never
/// less than `MIN_AVAILABLE_HEIGHT`.
pub open spec fn available_height_spec(anchor: PopoverAnchor, offset_y: int, monitor: MonitorBounds) -> int {
    greater(
        monitor.y + monitor.height - below_anchor_spec(anchor, offset_y),
        MIN_AVAILABLE_HEIGHT as int,
    )
}

/// Height an overlay may grow to below its anchor.
pub fn calculate_available_height(anchor: &PopoverAnchor, offset_y: i32, monitor: &MonitorBounds) -> (r: i64)
    ensures
        r == available_height_spec(*anchor, offset_y as int, *monitor),
        r >= MIN_AVAILABLE_HEIGHT,
{
    let top: i64 = anchor.y as i64 + anchor.height as i64 + offset_y as i64;
    let room: i64 = monitor.y as i64 + monitor.height as i64 - top;
    if room >= MIN_AVAILABLE_HEIGHT {
        room
    } else {
        MIN_AVAILABLE_HEIGHT
    }
}

impl TriggerBounds {
    /// The point lies on the trigger or within `TRIGGER_PADDING` of it, edges
    /// included.
    pub open spec fn covers(self, px: int, py: int) -> bool {
        &&& px >= self.x - TRIGGER_PADDING
        &&& px <= self.x + self.width + TRIGGER_PADDING
        &&& py >= self.y - TRIGGER_PADDING
        &&& py <= self.y + self.height + TRIGGER_PADDING
    }
}

/// Tells whether the cursor is over a trigger, padding included.
pub fn is_cursor_over_trigger(mouse_x: i32, mouse_y: i32, trigger: &TriggerBounds) -> (r: bool)
    ensures
        r == trigger.covers(mouse_x as int, mouse_y as int),
{
    let px: i64 = mouse_x as i64;
    let py: i64 = mouse_y as i64;
    let left: i64 = trigger.x as i64 - TRIGGER_PADDING;
    let right: i64 = trigger.x as i64 + trigger.width as i64 + TRIGGER_PADDING;
    let top: i64 = trigger.y as i64 - TRIGGER_PADDING;
    let bottom: i64 = trigger.y as i64 + trigger.height as i64 + TRIGGER_PADDING;
    px >= left && px <= right && py >= top && py <= bottom
}

/// An overlay that is no larger than its display lies wholly on the
/// display once it is placed, wherever its anchor is.
pub proof fn lemma_place_on_screen(
    anchor: PopoverAnchor,
    w: int,
    h: int,
    align: PopoverAlign,
    offset_y: int,
    monitor: MonitorBounds,
)
    requires
        w <= monitor.width,
        h <= monitor.height,
    ensures
        monitor.encloses(
            place_spec(anchor, w, h, align, offset_y, monitor).0,
            place_spec(anchor, w, h, align, offset_y, monitor).1,
            w,
            h,
        ),
{
}

/// On a display that is larger than the reserved padding and margin, a
/// request of any size, anchored anywhere, ends up as a rectangle that is
/// no larger than the request, fits the usable area of the display, and
/// lies wholly on the display.
pub proof fn lemma_clamped_placement(
    anchor: PopoverAnchor,
    width: int,
    height: int,
    align: PopoverAlign,
    offset_y: int,
    monitor: MonitorBounds,
)
    requires
        width >= 0,
        height >= 0,
        monitor.usable_width() >= 0,
        monitor.usable_height() >= 0,
    ensures
        ({
            let size = constrain_spec(width, height, monitor);
            let at = place_spec(anchor, size.0, size.1, align, offset_y, monitor);
            &&& 0 <= size.0 <= width
            &&& 0 <= size.1 <= height
            &&& size.0 <= monitor.usable_width()
            &&& size.1 <= monitor.usable_height()
            &&& monitor.encloses(at.0, at.1, size.0, size.1)
        }),
{
    let size = constrain_spec(width, height, monitor);
    lemma_place_on_screen(anchor, size.0, size.1, align, offset_y, monitor);
}

} // verus!
