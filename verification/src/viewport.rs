//! Sizing the drawing surface to the terminal.
//!
//! Terminal character cells are not square, so the face is scaled by a
//! caller-supplied aspect ratio.  All bounds are exact rationals over
//! machine integers: the half-extents of the drawing surface share one
//! denominator, and the bezel circle of radius 1 provably fits strictly
//! inside them.

use vstd::prelude::*;

verus! {

/// Largest aspect-ratio numerator accepted.
pub const MAX_ASPECT_NUM: u64 = 1_000_000_000_000;

/// Largest aspect-ratio denominator accepted.
pub const MAX_ASPECT_DEN: u64 = 1_000_000_000;

/// A positive character-cell width-to-height ratio `num / den`, fixed for
/// the process lifetime.
#[derive(Clone, Copy, Debug, PartialEq, Eq, Structural)]
pub struct AspectRatio {
    /// Numerator, positive.
    pub num: u64,
    /// Denominator, positive.
    pub den: u64,
}

impl AspectRatio {
    /// A valid ratio is positive and small enough that viewport arithmetic
    /// on any terminal size stays within a machine word.
    pub open spec fn wf(self) -> bool {
        0 < self.num <= MAX_ASPECT_NUM && 0 < self.den <= MAX_ASPECT_DEN
    }

    /// Builds a ratio, rejecting a zero or oversized part.
    pub fn new(num: u64, den: u64) -> (r: Option<AspectRatio>)
        ensures
            r is Some <==> (AspectRatio { num, den }).wf(),
            r matches Some(a) ==> a == (AspectRatio { num, den }),
    {
        if 0 < num && num <= MAX_ASPECT_NUM && 0 < den && den <= MAX_ASPECT_DEN {
            Some(AspectRatio { num, den })
        } else {
            None
        }
    }
}

/// The terminal width corrected by the aspect ratio, scaled by `a.den`.
pub open spec fn scaled_width(w: u16, a: AspectRatio) -> int {
    w * a.num
}

/// The terminal height, scaled by `a.den`.
pub open spec fn scaled_height(h: u16, a: AspectRatio) -> int {
    h * a.den
}

/// The limiting dimension, scaled by `a.den`.
pub open spec fn min_scaled_side(w: u16, h: u16, a: AspectRatio) -> int {
    if scaled_width(w, a) <= scaled_height(h, a) {
        scaled_width(w, a)
    } else {
        scaled_height(h, a)
    }
}

/// The terminal admits a frame exactly when the limiting dimension still
/// exceeds the one-unit margin.
pub open spec fn viewport_valid(w: u16, h: u16, a: AspectRatio) -> bool {
    min_scaled_side(w, h, a) > a.den
}

/// The shared denominator of the half-extents: the limiting dimension
/// minus the one-unit margin, scaled by `a.den`.
pub open spec fn viewport_den(w: u16, h: u16, a: AspectRatio) -> int {
    min_scaled_side(w, h, a) - a.den
}

/// The drawing-surface half-extents of one frame, as exact rationals:
/// the surface is `[-width_num/den, width_num/den]` wide and
/// `[-height_num/den, height_num/den]` tall.
#[derive(Clone, Copy, Debug, PartialEq, Eq, Structural)]
pub struct Viewport {
    /// Numerator of the horizontal half-extent.
    pub width_num: u64,
    /// Numerator of the vertical half-extent.
    pub height_num: u64,
    /// Shared positive denominator.
    pub den: u64,
}

impl Viewport {
    /// Both half-extents strictly exceed 1, so the bezel circle of radius
    /// 1 fits strictly inside the surface with the configured margin.
    pub open spec fn wf(self) -> bool {
        0 < self.den && self.den < self.width_num && self.den < self.height_num
    }

    /// Computes the viewport of one frame from the terminal shape and the
    /// aspect ratio, rejecting a degenerate terminal: `None` exactly when
    /// the limiting dimension does not exceed the margin.
    pub fn try_new(w: u16, h: u16, a: &AspectRatio) -> (r: Option<Viewport>)
        requires
            a.wf(),
        ensures
            r is Some <==> viewport_valid(w, h, *a),
            r matches Some(v) ==> ({
                &&& v.width_num == scaled_width(w, *a)
                &&& v.height_num == scaled_height(h, *a)
                &&& v.den == viewport_den(w, h, *a)
                &&& v.wf()
            }),
    {
        proof {
            assert((w as int) * (a.num as int) <= 65535 * 1_000_000_000_000)
                by (nonlinear_arith)
                requires
                    w <= 65535,
                    0 < a.num <= 1_000_000_000_000,
            ;
            assert((h as int) * (a.den as int) <= 65535 * 1_000_000_000)
                by (nonlinear_arith)
                requires
                    h <= 65535,
                    0 < a.den <= 1_000_000_000,
            ;
        }
        let sw: u64 = (w as u64) * a.num;
        let sh: u64 = (h as u64) * a.den;
        let min_side: u64 = if sw <= sh { sw } else { sh };
        if min_side > a.den {
            Some(Viewport { width_num: sw, height_num: sh, den: min_side - a.den })
        } else {
            None
        }
    }
}

/// The viewport invariant: for every terminal shape and valid aspect ratio
/// that admit a frame, the computed half-extents strictly contain the
/// circle of radius 1 — both numerators exceed the positive shared
/// denominator.
pub proof fn lemma_unit_circle_fits(w: u16, h: u16, a: AspectRatio)
    requires
        a.wf(),
        viewport_valid(w, h, a),
    ensures
        0 < viewport_den(w, h, a),
        viewport_den(w, h, a) < scaled_width(w, a),
        viewport_den(w, h, a) < scaled_height(h, a),
{
}

} // verus!
