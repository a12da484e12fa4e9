//! Color themes of the clock face.
//!
//! A theme is an immutable table of six colors, selected once at startup
//! from a small closed set and never changed during the run.

use vstd::prelude::*;

verus! {

/// A terminal color, as the canvas front end understands it.
#[derive(Clone, Copy, Debug, PartialEq, Eq, Structural)]
pub enum Color {
    /// The terminal's own default color.
    Reset,
    /// Named ANSI cyan.
    Cyan,
    /// Named ANSI gray.
    Gray,
    /// Named ANSI light red.
    LightRed,
    /// Named ANSI light green.
    LightGreen,
    /// Named ANSI white.
    White,
    /// A 24-bit color.
    Rgb(u8, u8, u8),
}

/// The six face colors of one theme.
#[derive(Clone, Copy, Debug, PartialEq, Eq, Structural)]
pub struct Theme {
    /// Canvas background.
    pub bg: Color,
    /// Bezel circle.
    pub circle: Color,
    /// Cardinal face marks.
    pub marks: Color,
    /// Hour hand.
    pub hour: Color,
    /// Minute hand.
    pub minute: Color,
    /// Second hand.
    pub second: Color,
}

/// The closed set of theme names; anything unrecognized at startup falls
/// back to [`ThemeName::Standard`].
#[derive(Clone, Copy, Debug, PartialEq, Eq, Structural)]
pub enum ThemeName {
    /// The standard palette on the terminal's own background.
    Standard,
    /// The Rose Pine palette.
    RosePine,
}

/// The standard palette.
pub open spec fn standard_theme() -> Theme {
    Theme {
        bg: Color::Reset,
        circle: Color::Cyan,
        marks: Color::Gray,
        hour: Color::LightRed,
        minute: Color::LightGreen,
        second: Color::White,
    }
}

/// The Rose Pine palette.
pub open spec fn rose_pine_theme() -> Theme {
    Theme {
        bg: Color::Rgb(31, 29, 46),
        circle: Color::Rgb(49, 116, 143),
        marks: Color::Rgb(144, 140, 170),
        hour: Color::Rgb(246, 193, 119),
        minute: Color::Rgb(235, 188, 186),
        second: Color::Rgb(156, 207, 216),
    }
}

/// The palette that a name selects.
pub open spec fn theme_of(name: ThemeName) -> Theme {
    match name {
        ThemeName::Standard => standard_theme(),
        ThemeName::RosePine => rose_pine_theme(),
    }
}

/// Looks the named theme up in the closed theme table.
pub fn theme(name: ThemeName) -> (t: Theme)
    ensures
        t == theme_of(name),
{
    match name {
        ThemeName::Standard => Theme {
            bg: Color::Reset,
            circle: Color::Cyan,
            marks: Color::Gray,
            hour: Color::LightRed,
            minute: Color::LightGreen,
            second: Color::White,
        },
        ThemeName::RosePine => Theme {
            bg: Color::Rgb(31, 29, 46),
            circle: Color::Rgb(49, 116, 143),
            marks: Color::Rgb(144, 140, 170),
            hour: Color::Rgb(246, 193, 119),
            minute: Color::Rgb(235, 188, 186),
            second: Color::Rgb(156, 207, 216),
        },
    }
}

} // verus!
