//! Where the window is docked on the monitor.

use vstd::prelude::*;
use crate::text::equal;

verus! {

/// Position and size of the window, as they are exchanged with the display
/// surface.
#[derive(Clone, Copy, Debug, PartialEq, Eq, Structural)]
pub struct WindowStateData {
    pub x: i32,
    pub y: i32,
    pub width: u32,
    pub height: u32,
}

/// The place on the monitor that the window is docked to.
#[derive(Clone, Copy, Debug, PartialEq, Eq, Structural)]
pub enum Anchor {
    /// Left edge, centred vertically.
    Left,
    /// Right edge, centred vertically.
    Right,
    /// Top left corner.
    TopLeft,
    /// Top right corner.
    TopRight,
    /// Bottom left corner.
    BottomLeft,
    /// Bottom right corner.
    BottomRight,
}

/// The anchor that a position setting names. Any other text names the
/// right edge.
pub open spec fn anchor_of(position: Seq<char>) -> Anchor {
    if position == "left"@ {
        Anchor::Left
    } else if position == "right"@ {
        Anchor::Right
    } else if position == "top-left"@ {
        Anchor::TopLeft
    } else if position == "top-right"@ {
        Anchor::TopRight
    } else if position == "bottom-left"@ {
        Anchor::BottomLeft
    } else if position == "bottom-right"@ {
        Anchor::BottomRight
    } else {
        Anchor::Right
    }
}

/// The top left corner of a window of the given size that is docked at
/// `anchor` on a monitor of the given size.
pub open spec fn origin_of(
    anchor: Anchor,
    monitor_width: u32,
    monitor_height: u32,
    window_width: u32,
    window_height: u32,
) -> (int, int) {
    let right = monitor_width - window_width;
    let bottom = monitor_height - window_height;
    let middle = (monitor_height - window_height) / 2;
    match anchor {
        Anchor::Left => (0, middle),
        Anchor::Right => (right, middle),
        Anchor::TopLeft => (0, 0),
        Anchor::TopRight => (right, 0),
        Anchor::BottomLeft => (0, bottom),
        Anchor::BottomRight => (right, bottom),
    }
}

/// A docked window lies within the monitor.
pub proof fn lemma_docked_window_on_monitor(
    anchor: Anchor,
    monitor_width: u32,
    monitor_height: u32,
    window_width: u32,
    window_height: u32,
)
    requires
        window_width <= monitor_width,
        window_height <= monitor_height,
    ensures
        ({
            let origin = origin_of(
                anchor,
                monitor_width,
                monitor_height,
                window_width,
                window_height,
            );
            &&& 0 <= origin.0
            &&& origin.0 + window_width <= monitor_width
            &&& 0 <= origin.1
            &&& origin.1 + window_height <= monitor_height
        }),
{
}

/// Reads a position setting.
pub fn parse_anchor(position: &str) -> (r: Anchor)
    ensures
        r == anchor_of(position@),
{
    if equal(position, "left") {
        Anchor::Left
    } else if equal(position, "right") {
        Anchor::Right
    } else if equal(position, "top-left") {
        Anchor::TopLeft
    } else if equal(position, "top-right") {
        Anchor::TopRight
    } else if equal(position, "bottom-left") {
        Anchor::BottomLeft
    } else if equal(position, "bottom-right") {
        Anchor::BottomRight
    } else {
        Anchor::Right
    }
}

/// Computes where a docked window goes. The window has to fit on the
/// monitor, and the monitor into the range of a coordinate.
pub fn window_origin(
    anchor: Anchor,
    monitor_width: u32,
    monitor_height: u32,
    window_width: u32,
    window_height: u32,
) -> (r: (i32, i32))
    requires
        window_width <= monitor_width <= i32::MAX,
        window_height <= monitor_height <= i32::MAX,
    ensures
        (r.0 as int, r.1 as int) == origin_of(
            anchor,
            monitor_width,
            monitor_height,
            window_width,
            window_height,
        ),
{
    let right: i32 = (monitor_width - window_width) as i32;
    let bottom: i32 = (monitor_height - window_height) as i32;
    let middle: i32 = ((monitor_height - window_height) / 2) as i32;
    match anchor {
        Anchor::Left => (0, middle),
        Anchor::Right => (right, middle),
        Anchor::TopLeft => (0, 0),
        Anchor::TopRight => (right, 0),
        Anchor::BottomLeft => (0, bottom),
        Anchor::BottomRight => (right, bottom),
    }
}

/// Computes where a docked window goes, if the window fits on the monitor
/// and the monitor into the range of a coordinate.
pub fn checked_window_origin(
    anchor: Anchor,
    monitor_width: u32,
    monitor_height: u32,
    window_width: u32,
    window_height: u32,
) -> (r: Option<(i32, i32)>)
    ensures
        r is Some <==> window_width <= monitor_width <= i32::MAX && window_height
            <= monitor_height <= i32::MAX,
        r matches Some(origin) ==> (origin.0 as int, origin.1 as int) == origin_of(
            anchor,
            monitor_width,
            monitor_height,
            window_width,
            window_height,
        ),
{
    if window_width <= monitor_width && monitor_width <= 0x7FFF_FFFF && window_height
        <= monitor_height && monitor_height <= 0x7FFF_FFFF {
        Some(window_origin(anchor, monitor_width, monitor_height, window_width, window_height))
    } else {
        None
    }
}

} // verus!
