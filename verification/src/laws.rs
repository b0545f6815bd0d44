//! Laws of placement, proved of the model that `resolve` is held to.

use vstd::prelude::*;
use crate::geometry::{Point, Rect, Size};
use crate::position::{Position, POSITION_COUNT};
use crate::resolve::{representable, resolve, resolved, PlacementError};

verus! {

/// `TopLeft` always resolves, and to the monitor's own top-left corner,
/// whatever the window's size and the tray.
pub proof fn top_left_is_monitor_origin(monitor: Rect, window: Size, tray: Option<Rect>)
    ensures
        representable(Position::TopLeft, monitor, window, tray),
        resolved(Position::TopLeft, monitor, window, tray) == Ok::<Point, PlacementError>(
            monitor.position,
        ),
{
}

/// `Center` puts the window so that, on each axis, it starts at the monitor's
/// start plus half the monitor's extent less half the window's, each half
/// rounded down. This holds wherever that point can be written as a `Point`.
pub proof fn center_aligns_halves(monitor: Rect, window: Size, tray: Option<Rect>)
    requires
        representable(Position::Center, monitor, window, tray),
    ensures
        resolved(Position::Center, monitor, window, tray) matches Ok(p) && {
            &&& p.x == monitor.position.x + monitor.size.width / 2 - window.width / 2
            &&& p.y == monitor.position.y + monitor.size.height / 2 - window.height / 2
        },
{
}

/// `TopRight` puts the window's right edge on the monitor's right edge: the
/// resolved x plus the window's width is the monitor's x plus its width. The
/// sums are taken over the integers, where they cannot overflow; the law
/// holds wherever the resolved point can be written as a `Point`.
pub proof fn top_right_meets_right_edge(monitor: Rect, window: Size, tray: Option<Rect>)
    requires
        representable(Position::TopRight, monitor, window, tray),
    ensures
        resolved(Position::TopRight, monitor, window, tray) matches Ok(p) && {
            &&& p.x + window.width == monitor.position.x + monitor.size.width
            &&& p.y == monitor.position.y
        },
{
}

/// The bottom row puts the window's bottom edge on the monitor's bottom edge,
/// on a monitor at any height of the desktop: over the integers the resolved
/// y plus the window's height is the monitor's y plus its height.
pub proof fn bottom_row_meets_bottom_edge(
    request: Position,
    monitor: Rect,
    window: Size,
    tray: Option<Rect>,
)
    requires
        request is BottomLeft || request is BottomRight || request is BottomCenter,
        representable(request, monitor, window, tray),
    ensures
        resolved(request, monitor, window, tray) matches Ok(p) && p.y + window.height
            == monitor.position.y + monitor.size.height,
{
}

/// A tray-relative request without a tray rectangle may always be resolved,
/// and always fails with `MissingAnchor`: it never yields a coordinate.
pub proof fn tray_request_without_tray_fails(request: Position, monitor: Rect, window: Size)
    requires
        request.spec_is_tray_relative(),
    ensures
        representable(request, monitor, window, None),
        resolved(request, monitor, window, None) == Err::<Point, PlacementError>(
            PlacementError::MissingAnchor,
        ),
{
}

/// A request fails only for want of its anchor: with the tray rectangle
/// present, or with a monitor-relative request, resolving yields a point.
pub proof fn anchored_request_succeeds(
    request: Position,
    monitor: Rect,
    window: Size,
    tray: Option<Rect>,
)
    ensures
        resolved(request, monitor, window, tray) is Ok <==> (request.spec_is_tray_relative()
            ==> tray is Some),
{
}

/// `resolve` is a function of its arguments: two results that it may return
/// on the same inputs are the same result.
pub proof fn resolve_is_deterministic(
    request: Position,
    monitor: Rect,
    window: Size,
    tray: Option<Rect>,
    first: Result<Point, PlacementError>,
    second: Result<Point, PlacementError>,
)
    requires
        call_ensures(resolve, (request, monitor, window, tray), first),
        call_ensures(resolve, (request, monitor, window, tray), second),
    ensures
        first == second,
{
}

/// A monitor-relative request does not depend on the tray, and a
/// tray-relative request with a tray rectangle does not depend on the
/// monitor.
pub proof fn only_the_anchor_matters(
    request: Position,
    monitor: Rect,
    other_monitor: Rect,
    window: Size,
    tray: Option<Rect>,
    other_tray: Option<Rect>,
)
    ensures
        !request.spec_is_tray_relative() ==> resolved(request, monitor, window, tray) == resolved(
            request,
            monitor,
            window,
            other_tray,
        ),
        request.spec_is_tray_relative() ==> resolved(request, monitor, window, tray) == resolved(
            request,
            other_monitor,
            window,
            tray,
        ),
{
}

/// The wire codes are unambiguous: every request has a code below
/// `POSITION_COUNT`, two requests with one code are one request, and the
/// tray-relative requests are those with the codes from 9 on.
pub proof fn code_names_one_request(p: Position, q: Position)
    ensures
        p.spec_code() < POSITION_COUNT,
        p.spec_code() == q.spec_code() ==> p == q,
        p.spec_is_tray_relative() <==> p.spec_code() >= 9,
{
}

/// Decoding inverts encoding: whatever `from_code` returns on the code of a
/// request is that request.
pub proof fn decoding_inverts_encoding(p: Position, decoded: Option<Position>)
    requires
        call_ensures(Position::from_code, (p.spec_code(),), decoded),
    ensures
        decoded == Some(p),
{
}

} // verus!
