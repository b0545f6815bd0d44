//! Resolution of a placement request to a pixel coordinate.
//!
//! The model is stated over mathematical integers: `target_x` and `target_y`
//! give the coordinate that a request asks for, measured against its anchor.
//! The executable functions compute the same numbers in 64 bits, where no
//! step can overflow, and hand them out as 32-bit pixels.

use vstd::prelude::*;
use crate::geometry::{Point, Rect, Size};
use crate::position::Position;

verus! {

/// Why a window could not be placed.
#[derive(Clone, Copy, Debug, PartialEq, Eq, Structural, Hash)]
pub enum PlacementError {
    /// The host could not tell which monitor the window is on.
    NoMonitorDetected,
    /// A tray-relative request was made before any tray icon rectangle was
    /// recorded.
    MissingAnchor,
}

/// The rectangle a request is measured against: the tray icon for a
/// tray-relative request, if one is known, and the monitor for every other.
pub open spec fn anchor_of(request: Position, monitor: Rect, tray: Option<Rect>) -> Option<Rect> {
    if request.spec_is_tray_relative() {
        tray
    } else {
        Some(monitor)
    }
}

/// The x coordinate that `request` asks for, for a window of size `window`
/// measured against `anchor`.
///
/// A window is put at the anchor's left edge, with its right edge on the
/// anchor's right edge, or with the halves of the two widths aligned; next to
/// a tray icon it may also start at the icon's right edge. Halves are rounded
/// down separately, so a centred window may sit one pixel off the true centre.
pub open spec fn target_x(request: Position, anchor: Rect, window: Size) -> int {
    let left = anchor.position.x as int;
    let width = anchor.size.width as int;
    let wanted = window.width as int;
    match request {
        Position::TopLeft | Position::BottomLeft | Position::LeftCenter => left,
        Position::TopRight | Position::BottomRight | Position::RightCenter => left + (width
            - wanted),
        Position::TopCenter | Position::BottomCenter | Position::Center => left + (width / 2
            - wanted / 2),
        Position::TrayLeft | Position::TrayBottomLeft => left,
        Position::TrayRight | Position::TrayBottomRight => left + width,
        Position::TrayCenter | Position::TrayBottomCenter => left + width / 2 - wanted / 2,
    }
}

/// The y coordinate that `request` asks for, for a window of size `window`
/// measured against `anchor`.
///
/// The bottom row is written as `height - (window height - y)` of the anchor.
/// A window above a tray icon ends where the icon begins.
pub open spec fn target_y(request: Position, anchor: Rect, window: Size) -> int {
    let top = anchor.position.y as int;
    let height = anchor.size.height as int;
    let wanted = window.height as int;
    match request {
        Position::TopLeft | Position::TopRight | Position::TopCenter => top,
        Position::BottomLeft | Position::BottomRight | Position::BottomCenter => height - (wanted
            - top),
        Position::LeftCenter | Position::RightCenter | Position::Center => top + (height / 2
            - wanted / 2),
        Position::TrayLeft | Position::TrayRight | Position::TrayCenter => top - wanted,
        Position::TrayBottomLeft | Position::TrayBottomRight | Position::TrayBottomCenter => top,
    }
}

/// Whether the coordinate that the request asks for can be written as a
/// `Point`. A request whose anchor is missing asks for no coordinate, so
/// nothing stands in its way.
pub open spec fn representable(
    request: Position,
    monitor: Rect,
    window: Size,
    tray: Option<Rect>,
) -> bool {
    anchor_of(request, monitor, tray) matches Some(anchor) ==> {
        &&& i32::MIN <= target_x(request, anchor, window) <= i32::MAX
        &&& i32::MIN <= target_y(request, anchor, window) <= i32::MAX
    }
}

/// What resolving `request` yields: the requested point measured against the
/// request's anchor, or `MissingAnchor` where a tray-relative request finds
/// no tray rectangle.
pub open spec fn resolved(
    request: Position,
    monitor: Rect,
    window: Size,
    tray: Option<Rect>,
) -> Result<Point, PlacementError> {
    match anchor_of(request, monitor, tray) {
        Some(anchor) => Ok(
            Point {
                x: target_x(request, anchor, window) as i32,
                y: target_y(request, anchor, window) as i32,
            },
        ),
        None => Err(PlacementError::MissingAnchor),
    }
}

/// Picks the rectangle that `request` is measured against.
fn select_anchor(request: Position, monitor: Rect, tray: Option<Rect>) -> (anchor: Option<Rect>)
    ensures
        anchor == anchor_of(request, monitor, tray),
{
    if request.is_tray_relative() {
        tray
    } else {
        Some(monitor)
    }
}

/// Computes the requested coordinate in 64 bits, wide enough for every
/// combination of 32-bit inputs.
fn locate(request: Position, anchor: Rect, window: Size) -> (at: (i64, i64))
    ensures
        at.0 == target_x(request, anchor, window),
        at.1 == target_y(request, anchor, window),
{
    let ax: i64 = anchor.position.x as i64;
    let ay: i64 = anchor.position.y as i64;
    let aw: i64 = anchor.size.width as i64;
    let ah: i64 = anchor.size.height as i64;
    let ww: i64 = window.width as i64;
    let wh: i64 = window.height as i64;
    let half_aw: i64 = (anchor.size.width / 2) as i64;
    let half_ah: i64 = (anchor.size.height / 2) as i64;
    let half_ww: i64 = (window.width / 2) as i64;
    let half_wh: i64 = (window.height / 2) as i64;
    match request {
        Position::TopLeft => (ax, ay),
        Position::TopRight => (ax + (aw - ww), ay),
        Position::BottomLeft => (ax, ah - (wh - ay)),
        Position::BottomRight => (ax + (aw - ww), ah - (wh - ay)),
        Position::TopCenter => (ax + (half_aw - half_ww), ay),
        Position::BottomCenter => (ax + (half_aw - half_ww), ah - (wh - ay)),
        Position::LeftCenter => (ax, ay + half_ah - half_wh),
        Position::RightCenter => (ax + (aw - ww), ay + half_ah - half_wh),
        Position::Center => (ax + (half_aw - half_ww), ay + half_ah - half_wh),
        Position::TrayLeft => (ax, ay - wh),
        Position::TrayBottomLeft => (ax, ay),
        Position::TrayRight => (ax + aw, ay - wh),
        Position::TrayBottomRight => (ax + aw, ay),
        Position::TrayCenter => (ax + half_aw - half_ww, ay - wh),
        Position::TrayBottomCenter => (ax + half_aw - half_ww, ay),
    }
}

/// Tells whether `resolve` may be called on these inputs: whether the
/// coordinate they ask for fits a `Point`.
pub fn is_representable(
    request: Position,
    monitor: Rect,
    window: Size,
    tray: Option<Rect>,
) -> (fits: bool)
    ensures
        fits == representable(request, monitor, window, tray),
{
    match select_anchor(request, monitor, tray) {
        Some(anchor) => {
            let at: (i64, i64) = locate(request, anchor, window);
            let lowest: i64 = i32::MIN as i64;
            let highest: i64 = i32::MAX as i64;
            lowest <= at.0 && at.0 <= highest && lowest <= at.1 && at.1 <= highest
        },
        None => true,
    }
}

/// Resolves a placement request to the pixel at which the window's top-left
/// corner belongs.
///
/// `monitor` is the display the window is on, `window` the window's outer
/// size, `tray` the last rectangle recorded for the tray icon, if any. A
/// monitor-relative request never reads `tray`; a tray-relative request never
/// reads `monitor`, and fails with `MissingAnchor` exactly when `tray` is
/// `None`.
pub fn resolve(
    request: Position,
    monitor: Rect,
    window: Size,
    tray: Option<Rect>,
) -> (r: Result<Point, PlacementError>)
    requires
        representable(request, monitor, window, tray),
    ensures
        r == resolved(request, monitor, window, tray),
{
    match select_anchor(request, monitor, tray) {
        Some(anchor) => {
            let at: (i64, i64) = locate(request, anchor, window);
            Ok(Point { x: at.0 as i32, y: at.1 as i32 })
        },
        None => Err(PlacementError::MissingAnchor),
    }
}

/// Resolves a request on any inputs: `None` where the coordinate asked for
/// does not fit a `Point`, and otherwise what `resolve` returns.
pub fn checked_resolve(
    request: Position,
    monitor: Rect,
    window: Size,
    tray: Option<Rect>,
) -> (r: Option<Result<Point, PlacementError>>)
    ensures
        r == if representable(request, monitor, window, tray) {
            Some(resolved(request, monitor, window, tray))
        } else {
            None
        },
{
    if is_representable(request, monitor, window, tray) {
        Some(resolve(request, monitor, window, tray))
    } else {
        None
    }
}

/// Resolves a request against the monitor the host found the window on.
///
/// Where the host found none, the request fails with `NoMonitorDetected`,
/// whatever else was handed in; otherwise the result is that of `resolve`.
pub fn resolve_current(
    request: Position,
    monitor: Option<Rect>,
    window: Size,
    tray: Option<Rect>,
) -> (r: Result<Point, PlacementError>)
    requires
        monitor matches Some(m) ==> representable(request, m, window, tray),
    ensures
        r == match monitor {
            Some(m) => resolved(request, m, window, tray),
            None => Err(PlacementError::NoMonitorDetected),
        },
{
    match monitor {
        Some(m) => resolve(request, m, window, tray),
        None => Err(PlacementError::NoMonitorDetected),
    }
}

} // verus!
