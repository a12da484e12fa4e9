//! A terminal analog clock, as a verified library.
//!
//! The library maps a wall-clock time sample to the three hand angles,
//! computes the drawing viewport for a terminal of a given shape and
//! character aspect ratio, and lays out one frame of the clock face as a
//! sequence of draw commands.  Angles and viewport bounds are exact
//! rationals over machine integers; a thin front end turns them into
//! floating-point canvas coordinates when it draws.

pub mod angle;
pub mod clock;
pub mod control;
pub mod render;
pub mod theme;
pub mod viewport;
