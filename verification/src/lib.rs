//! Window placement: maps a symbolic placement request to the pixel
//! coordinate at which a window's top-left corner should be put, relative to
//! the monitor the window is on or to a tray icon.
//!
//! The library is pure geometry. The host measures the monitor, the window
//! and the tray icon, hands the rectangles in, and moves the window to the
//! point that comes back.

pub mod geometry;
pub mod laws;
pub mod position;
pub mod resolve;

pub use geometry::{Point, Rect, Size};
pub use position::Position;
pub use resolve::{checked_resolve, is_representable, resolve, resolve_current, PlacementError};
