//! The closed set of placement requests and their wire codes.

use vstd::prelude::*;

verus! {

/// Well known window positions.
///
/// The first nine are measured against the monitor, the last six against the
/// tray icon. The order of the variants is the order of their wire codes and
/// must not change.
#[derive(Clone, Copy, Debug, PartialEq, Eq, Structural, Hash)]
pub enum Position {
    TopLeft,
    TopRight,
    BottomLeft,
    BottomRight,
    TopCenter,
    BottomCenter,
    LeftCenter,
    RightCenter,
    Center,
    TrayLeft,
    TrayBottomLeft,
    TrayRight,
    TrayBottomRight,
    TrayCenter,
    TrayBottomCenter,
}

/// How many placement requests there are; the wire codes are the numbers
/// below it.
pub const POSITION_COUNT: u16 = 15;

impl Position {
    /// The wire code of a request: its place in the declaration, from 0.
    pub open spec fn spec_code(self) -> u16 {
        match self {
            Position::TopLeft => 0,
            Position::TopRight => 1,
            Position::BottomLeft => 2,
            Position::BottomRight => 3,
            Position::TopCenter => 4,
            Position::BottomCenter => 5,
            Position::LeftCenter => 6,
            Position::RightCenter => 7,
            Position::Center => 8,
            Position::TrayLeft => 9,
            Position::TrayBottomLeft => 10,
            Position::TrayRight => 11,
            Position::TrayBottomRight => 12,
            Position::TrayCenter => 13,
            Position::TrayBottomCenter => 14,
        }
    }

    /// Whether a request is measured against the tray icon rather than the
    /// monitor.
    pub open spec fn spec_is_tray_relative(self) -> bool {
        self is TrayLeft || self is TrayBottomLeft || self is TrayRight || self is TrayBottomRight
            || self is TrayCenter || self is TrayBottomCenter
    }

    /// The small integer under which this request is transmitted.
    #[verifier::when_used_as_spec(spec_code)]
    pub fn code(self) -> (c: u16)
        ensures
            c == self.spec_code(),
            c < POSITION_COUNT,
    {
        match self {
            Position::TopLeft => 0,
            Position::TopRight => 1,
            Position::BottomLeft => 2,
            Position::BottomRight => 3,
            Position::TopCenter => 4,
            Position::BottomCenter => 5,
            Position::LeftCenter => 6,
            Position::RightCenter => 7,
            Position::Center => 8,
            Position::TrayLeft => 9,
            Position::TrayBottomLeft => 10,
            Position::TrayRight => 11,
            Position::TrayBottomRight => 12,
            Position::TrayCenter => 13,
            Position::TrayBottomCenter => 14,
        }
    }

    /// The request that is transmitted as `code`, if there is one.
    ///
    /// Every code below `POSITION_COUNT` names exactly one request; any other
    /// code names none.
    pub fn from_code(code: u16) -> (r: Option<Position>)
        ensures
            code < POSITION_COUNT <==> r is Some,
            r matches Some(p) ==> p.spec_code() == code,
    {
        match code {
            0 => Some(Position::TopLeft),
            1 => Some(Position::TopRight),
            2 => Some(Position::BottomLeft),
            3 => Some(Position::BottomRight),
            4 => Some(Position::TopCenter),
            5 => Some(Position::BottomCenter),
            6 => Some(Position::LeftCenter),
            7 => Some(Position::RightCenter),
            8 => Some(Position::Center),
            9 => Some(Position::TrayLeft),
            10 => Some(Position::TrayBottomLeft),
            11 => Some(Position::TrayRight),
            12 => Some(Position::TrayBottomRight),
            13 => Some(Position::TrayCenter),
            14 => Some(Position::TrayBottomCenter),
            _ => None,
        }
    }

    /// Whether this request needs a tray anchor.
    #[verifier::when_used_as_spec(spec_is_tray_relative)]
    pub fn is_tray_relative(self) -> (b: bool)
        ensures
            b == self.spec_is_tray_relative(),
    {
        match self {
            Position::TrayLeft
            | Position::TrayBottomLeft
            | Position::TrayRight
            | Position::TrayBottomRight
            | Position::TrayCenter
            | Position::TrayBottomCenter => true,
            _ => false,
        }
    }
}

} // verus!
