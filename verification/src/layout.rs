//! Placement of a window from the edges it is pinned to.
//!
//! A position names some of four insets and two sizes. On each axis two of
//! the three values fix the window: both insets, or one inset and the size.

use vstd::prelude::*;

verus! {

/// The box a window is to fill on its display.
pub struct WindowPosition {
    pub monitor: Option<String>,
    pub top: Option<i32>,
    pub bottom: Option<i32>,
    pub left: Option<i32>,
    pub right: Option<i32>,
    pub width: Option<u32>,
    pub height: Option<u32>,
}

/// Where a window goes and how large it is.
#[derive(Clone, Copy, Debug, PartialEq, Eq, Structural)]
pub struct WindowGeometry {
    pub x: i64,
    pub y: i64,
    pub width: i64,
    pub height: i64,
}

/// Why a position does not fix a window.
#[derive(Clone, Copy, Debug, PartialEq, Eq, Structural)]
pub enum PositionError {
    /// Neither both of left and right, nor one of them with a width.
    Horizontal,
    /// Neither both of top and bottom, nor one of them with a height.
    Vertical,
}

impl PositionError {
    /// The sentence shown to the user.
    pub fn message(&self) -> (r: &'static str)
        ensures
            r@ == (match self {
                PositionError::Horizontal => "Position must specify (left + right) or (left + width) or (right + width)"@,
                PositionError::Vertical => "Position must specify (top + bottom) or (top + height) or (bottom + height)"@,
            }),
    {
        match self {
            PositionError::Horizontal => "Position must specify (left + right) or (left + width) or (right + width)",
            PositionError::Vertical => "Position must specify (top + bottom) or (top + height) or (bottom + height)",
        }
    }
}

/// Two of near inset, far inset and size are given, the size counting only
/// beside exactly one inset or both.
pub open spec fn axis_fixed(near: Option<i32>, far: Option<i32>, size: Option<u32>) -> bool {
    (near is Some && far is Some) || (near is Some && size is Some) || (far is Some && size is Some)
}

/// Extent of a window on one axis of a display of extent `span`: what the
/// two insets leave, but at least 1, or else the size given.
pub open spec fn axis_extent(near: Option<i32>, far: Option<i32>, size: Option<u32>, span: int) -> int {
    if near is Some && far is Some {
        if span - near->0 - far->0 >= 1 {
            span - near->0 - far->0
        } else {
            1
        }
    } else {
        size->0 as int
    }
}

/// Start of a window on one axis of a display that begins at `origin`:
/// the near inset from the origin, or else the far inset and the extent
/// back from the far edge.
pub open spec fn axis_start(near: Option<i32>, far: Option<i32>, size: Option<u32>, origin: int, span: int) -> int {
    if near is Some {
        origin + near->0
    } else {
        origin + span - far->0 - axis_extent(near, far, size, span)
    }
}

impl WindowPosition {
    pub open spec fn horizontal_fixed(&self) -> bool {
        axis_fixed(self.left, self.right, self.width)
    }

    pub open spec fn vertical_fixed(&self) -> bool {
        axis_fixed(self.top, self.bottom, self.height)
    }

    /// The geometry this position gives on a display at
    /// `(monitor_x, monitor_y)` of the given size.
    pub open spec fn geometry(&self, monitor_x: int, monitor_y: int, monitor_width: int, monitor_height: int) -> WindowGeometry {
        WindowGeometry {
            x: axis_start(self.left, self.right, self.width, monitor_x, monitor_width) as i64,
            y: axis_start(self.top, self.bottom, self.height, monitor_y, monitor_height) as i64,
            width: axis_extent(self.left, self.right, self.width, monitor_width) as i64,
            height: axis_extent(self.top, self.bottom, self.height, monitor_height) as i64,
        }
    }
}

fn fixed(near: Option<i32>, far: Option<i32>, size: Option<u32>) -> (r: bool)
    ensures
        r == axis_fixed(near, far, size),
{
    match (near, far, size) {
        (Some(_), Some(_), _) => true,
        (Some(_), None, Some(_)) => true,
        (None, Some(_), Some(_)) => true,
        _ => false,
    }
}

/// Checks that a position fixes the window on both axes.
///
/// The horizontal axis is judged first: a position that fails on both
/// axes is reported as `Horizontal`.
pub fn validate_position(position: &WindowPosition) -> (r: Result<(), PositionError>)
    ensures
        r is Ok <==> position.horizontal_fixed() && position.vertical_fixed(),
        r == Err::<(), PositionError>(PositionError::Horizontal) <==> !position.horizontal_fixed(),
        r == Err::<(), PositionError>(PositionError::Vertical) <==> position.horizontal_fixed()
            && !position.vertical_fixed(),
{
    if !fixed(position.left, position.right, position.width) {
        return Err(PositionError::Horizontal);
    }
    if !fixed(position.top, position.bottom, position.height) {
        return Err(PositionError::Vertical);
    }
    Ok(())
}

fn extent(near: Option<i32>, far: Option<i32>, size: Option<u32>, span: u32) -> (r: i64)
    requires
        axis_fixed(near, far, size),
    ensures
        r == axis_extent(near, far, size, span as int),
        0 <= r <= 0x3_0000_0000,
{
    match (near, far) {
        (Some(a), Some(b)) => {
            let left_over: i64 = span as i64 - a as i64 - b as i64;
            if left_over >= 1 {
                left_over
            } else {
                1
            }
        },
        _ => match size {
            Some(s) => s as i64,
            None => 1,
        },
    }
}

fn start(near: Option<i32>, far: Option<i32>, size: Option<u32>, origin: i32, span: u32) -> (r: i64)
    requires
        axis_fixed(near, far, size),
    ensures
        r == axis_start(near, far, size, origin as int, span as int),
{
    match near {
        Some(a) => origin as i64 + a as i64,
        None => match far {
            Some(b) => origin as i64 + span as i64 - b as i64 - extent(near, far, size, span),
            None => origin as i64,
        },
    }
}

/// Computes the geometry of a window whose position fixes both axes.
pub fn calculate_geometry(
    position: &WindowPosition,
    monitor_x: i32,
    monitor_y: i32,
    monitor_width: u32,
    monitor_height: u32,
) -> (r: WindowGeometry)
    requires
        position.horizontal_fixed(),
        position.vertical_fixed(),
    ensures
        r == position.geometry(monitor_x as int, monitor_y as int, monitor_width as int, monitor_height as int),
        r.width >= 0,
        r.height >= 0,
{
    WindowGeometry {
        x: start(position.left, position.right, position.width, monitor_x, monitor_width),
        y: start(position.top, position.bottom, position.height, monitor_y, monitor_height),
        width: extent(position.left, position.right, position.width, monitor_width),
        height: extent(position.top, position.bottom, position.height, monitor_height),
    }
}

/// Checks a position and, if it fixes the window, computes its geometry.
pub fn layout_window(
    position: &WindowPosition,
    monitor_x: i32,
    monitor_y: i32,
    monitor_width: u32,
    monitor_height: u32,
) -> (r: Result<WindowGeometry, PositionError>)
    ensures
        r is Ok <==> position.horizontal_fixed() && position.vertical_fixed(),
        r is Ok ==> r->Ok_0 == position.geometry(
            monitor_x as int,
            monitor_y as int,
            monitor_width as int,
            monitor_height as int,
        ),
        r is Err ==> r->Err_0 == (if !position.horizontal_fixed() {
            PositionError::Horizontal
        } else {
            PositionError::Vertical
        }),
{
    match validate_position(position) {
        Ok(()) => Ok(calculate_geometry(position, monitor_x, monitor_y, monitor_width, monitor_height)),
        Err(e) => Err(e),
    }
}

} // verus!
