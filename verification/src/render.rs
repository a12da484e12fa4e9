//! Laying out one frame of the clock face.
//!
//! The renderer is a pure per-frame function: from the terminal shape, the
//! aspect ratio, a theme, a time sample and a mark style it computes the
//! viewport and the full ordered sequence of draw commands — one bezel
//! circle, four cardinal face marks, three hands.  The front end projects
//! each command onto the canvas with `x = sin(angle)`, `y = cos(angle)`
//! (clockwise from the top, by design), which is the only step left to
//! floating point.

use vstd::prelude::*;

use crate::angle::{
    Angle, AngleTriple, TimeSample, angles, hour_units, minute_units, second_units,
    HALF_TURN, NANOS_PER_HOUR, QUARTER_TURN, THREE_QUARTER_TURN,
};
use crate::theme::{Color, Theme};
use crate::viewport::{
    scaled_height, scaled_width, viewport_den, viewport_valid, AspectRatio, Viewport,
};

verus! {

/// Bezel circle radius, per mille of the unit radius.
pub const BEZEL_RADIUS_MILLI: u32 = 1000;

/// Radius at which the cardinal mark texts are anchored, per mille.
pub const MARK_TEXT_RADIUS_MILLI: u32 = 900;

/// Outer radius of a cardinal tick segment, per mille.
pub const TICK_OUTER_MILLI: u32 = 1000;

/// Inner radius of a cardinal tick segment, per mille.
pub const TICK_INNER_MILLI: u32 = 800;

/// Second-hand length, per mille of the radius.
pub const SECOND_HAND_MILLI: u32 = 800;

/// Minute-hand length, per mille of the radius.
pub const MINUTE_HAND_MILLI: u32 = 700;

/// Hour-hand length, per mille of the radius.
pub const HOUR_HAND_MILLI: u32 = 600;

/// Which of the four cardinal reference points a face mark stands at.
#[derive(Clone, Copy, Debug, PartialEq, Eq, Structural)]
pub enum MarkLabel {
    /// The 12 o'clock point.
    Twelve,
    /// The 3 o'clock point.
    Three,
    /// The 6 o'clock point.
    Six,
    /// The 9 o'clock point.
    Nine,
}

/// How the four cardinal reference points are presented.
#[derive(Clone, Copy, Debug, PartialEq, Eq, Structural)]
pub enum MarkStyle {
    /// Decorative glyph texts alone.
    Glyphs,
    /// Numeral texts together with short radial tick segments.
    NumeralsAndTicks,
}

/// One drawing primitive of a frame, in normalized face coordinates: the
/// origin is the face center, radii and lengths are per mille of the bezel
/// radius, and a ray at an [`Angle`] runs clockwise from straight up.
#[derive(Clone, Copy, Debug, PartialEq, Eq, Structural)]
pub enum DrawCmd {
    /// Fill the canvas background.
    Background {
        /// Fill color.
        color: Color,
    },
    /// A circle centered on the origin.
    Circle {
        /// Radius, per mille.
        radius_milli: u32,
        /// Stroke color.
        color: Color,
    },
    /// A text label anchored where the ray at `angle` crosses the given
    /// radius.
    Text {
        /// Which cardinal mark to print.
        label: MarkLabel,
        /// Direction of the anchor point.
        angle: Angle,
        /// Distance of the anchor point from the center, per mille.
        radius_milli: u32,
    },
    /// A line segment along the ray at `angle`.
    Line {
        /// Direction of the segment.
        angle: Angle,
        /// Start of the segment, as a radius per mille.
        from_milli: u32,
        /// End of the segment, as a radius per mille.
        to_milli: u32,
        /// Stroke color.
        color: Color,
    },
}

/// The hand angles that a time sample maps to.
pub open spec fn triple_of(t: TimeSample) -> AngleTriple {
    AngleTriple {
        second: Angle { num: second_units(t) as u64 },
        minute: Angle { num: minute_units(t) as u64 },
        hour: Angle { num: hour_units(t) as u64 },
    }
}

/// The four cardinal mark texts, in face order.
pub open spec fn mark_text_cmds() -> Seq<DrawCmd> {
    seq![
        DrawCmd::Text {
            label: MarkLabel::Twelve,
            angle: Angle { num: 0 },
            radius_milli: MARK_TEXT_RADIUS_MILLI,
        },
        DrawCmd::Text {
            label: MarkLabel::Three,
            angle: Angle { num: QUARTER_TURN },
            radius_milli: MARK_TEXT_RADIUS_MILLI,
        },
        DrawCmd::Text {
            label: MarkLabel::Six,
            angle: Angle { num: HALF_TURN },
            radius_milli: MARK_TEXT_RADIUS_MILLI,
        },
        DrawCmd::Text {
            label: MarkLabel::Nine,
            angle: Angle { num: THREE_QUARTER_TURN },
            radius_milli: MARK_TEXT_RADIUS_MILLI,
        },
    ]
}

/// The four cardinal tick segments, in face order.
pub open spec fn tick_cmds(th: Theme) -> Seq<DrawCmd> {
    seq![
        DrawCmd::Line {
            angle: Angle { num: 0 },
            from_milli: TICK_OUTER_MILLI,
            to_milli: TICK_INNER_MILLI,
            color: th.marks,
        },
        DrawCmd::Line {
            angle: Angle { num: QUARTER_TURN },
            from_milli: TICK_OUTER_MILLI,
            to_milli: TICK_INNER_MILLI,
            color: th.marks,
        },
        DrawCmd::Line {
            angle: Angle { num: HALF_TURN },
            from_milli: TICK_OUTER_MILLI,
            to_milli: TICK_INNER_MILLI,
            color: th.marks,
        },
        DrawCmd::Line {
            angle: Angle { num: THREE_QUARTER_TURN },
            from_milli: TICK_OUTER_MILLI,
            to_milli: TICK_INNER_MILLI,
            color: th.marks,
        },
    ]
}

/// The three hands, drawn from the center: second, minute, hour.
pub open spec fn hand_cmds(tr: AngleTriple, th: Theme) -> Seq<DrawCmd> {
    seq![
        DrawCmd::Line {
            angle: tr.second,
            from_milli: 0,
            to_milli: SECOND_HAND_MILLI,
            color: th.second,
        },
        DrawCmd::Line {
            angle: tr.minute,
            from_milli: 0,
            to_milli: MINUTE_HAND_MILLI,
            color: th.minute,
        },
        DrawCmd::Line {
            angle: tr.hour,
            from_milli: 0,
            to_milli: HOUR_HAND_MILLI,
            color: th.hour,
        },
    ]
}

/// The full ordered command sequence of one frame: background, bezel,
/// cardinal marks in the chosen style, then the three hands.
pub open spec fn frame_cmds(tr: AngleTriple, th: Theme, style: MarkStyle) -> Seq<DrawCmd> {
    seq![
        DrawCmd::Background { color: th.bg },
        DrawCmd::Circle { radius_milli: BEZEL_RADIUS_MILLI, color: th.circle },
    ] + (match style {
        MarkStyle::Glyphs => mark_text_cmds(),
        MarkStyle::NumeralsAndTicks => mark_text_cmds() + tick_cmds(th),
    }) + hand_cmds(tr, th)
}

/// The fixed reference angle of hour mark `k`, obtained by evaluating the
/// hand mapper at clock time `k:00:00` so that mark placement always
/// follows the hand-angle convention.
pub fn cardinal_angle(k: u8) -> (a: Angle)
    requires
        k == 0 || k == 3 || k == 6 || k == 9,
    ensures
        a.num == hour_units(TimeSample { hour12: k, minute: 0, second: 0, nanos: 0 }),
        a.num == k * NANOS_PER_HOUR,
        a.wf(),
{
    let t = TimeSample { hour12: k, minute: 0, second: 0, nanos: 0 };
    angles(&t).hour
}

/// One laid-out frame: the viewport bounds and the ordered draw commands.
#[derive(Clone, Debug, PartialEq)]
pub struct FrameLayout {
    /// The drawing-surface half-extents.
    pub viewport: Viewport,
    /// The draw commands, in issue order.
    pub cmds: Vec<DrawCmd>,
}

/// Lays out one frame: computes the viewport for the terminal shape and
/// aspect ratio and emits the frame's draw commands in order.  The result
/// is a function of the arguments alone, so equal inputs always yield the
/// identical command sequence.  Returns `None` exactly when the terminal
/// is too small for the margin at this aspect ratio.
pub fn render_frame(
    w: u16,
    h: u16,
    aspect: &AspectRatio,
    th: &Theme,
    t: &TimeSample,
    style: MarkStyle,
) -> (r: Option<FrameLayout>)
    requires
        aspect.wf(),
        t.wf(),
    ensures
        r is Some <==> viewport_valid(w, h, *aspect),
        r matches Some(f) ==> ({
            &&& f.viewport.wf()
            &&& f.viewport.width_num == scaled_width(w, *aspect)
            &&& f.viewport.height_num == scaled_height(h, *aspect)
            &&& f.viewport.den == viewport_den(w, h, *aspect)
            &&& f.cmds@ == frame_cmds(triple_of(*t), *th, style)
        }),
{
    match Viewport::try_new(w, h, aspect) {
        None => None,
        Some(vp) => {
            let tr = angles(t);
            proof {
                assert(tr == triple_of(*t));
            }
            let mut cmds: Vec<DrawCmd> = Vec::new();
            cmds.push(DrawCmd::Background { color: th.bg });
            cmds.push(DrawCmd::Circle { radius_milli: BEZEL_RADIUS_MILLI, color: th.circle });
            let twelve = cardinal_angle(0);
            let three = cardinal_angle(3);
            let six = cardinal_angle(6);
            let nine = cardinal_angle(9);
            cmds.push(DrawCmd::Text {
                label: MarkLabel::Twelve,
                angle: twelve,
                radius_milli: MARK_TEXT_RADIUS_MILLI,
            });
            cmds.push(DrawCmd::Text {
                label: MarkLabel::Three,
                angle: three,
                radius_milli: MARK_TEXT_RADIUS_MILLI,
            });
            cmds.push(DrawCmd::Text {
                label: MarkLabel::Six,
                angle: six,
                radius_milli: MARK_TEXT_RADIUS_MILLI,
            });
            cmds.push(DrawCmd::Text {
                label: MarkLabel::Nine,
                angle: nine,
                radius_milli: MARK_TEXT_RADIUS_MILLI,
            });
            if matches!(style, MarkStyle::NumeralsAndTicks) {
                cmds.push(DrawCmd::Line {
                    angle: twelve,
                    from_milli: TICK_OUTER_MILLI,
                    to_milli: TICK_INNER_MILLI,
                    color: th.marks,
                });
                cmds.push(DrawCmd::Line {
                    angle: three,
                    from_milli: TICK_OUTER_MILLI,
                    to_milli: TICK_INNER_MILLI,
                    color: th.marks,
                });
                cmds.push(DrawCmd::Line {
                    angle: six,
                    from_milli: TICK_OUTER_MILLI,
                    to_milli: TICK_INNER_MILLI,
                    color: th.marks,
                });
                cmds.push(DrawCmd::Line {
                    angle: nine,
                    from_milli: TICK_OUTER_MILLI,
                    to_milli: TICK_INNER_MILLI,
                    color: th.marks,
                });
            }
            cmds.push(DrawCmd::Line {
                angle: tr.second,
                from_milli: 0,
                to_milli: SECOND_HAND_MILLI,
                color: th.second,
            });
            cmds.push(DrawCmd::Line {
                angle: tr.minute,
                from_milli: 0,
                to_milli: MINUTE_HAND_MILLI,
                color: th.minute,
            });
            cmds.push(DrawCmd::Line {
                angle: tr.hour,
                from_milli: 0,
                to_milli: HOUR_HAND_MILLI,
                color: th.hour,
            });
            proof {
                assert(cmds@ =~= frame_cmds(triple_of(*t), *th, style));
            }
            Some(FrameLayout { viewport: vp, cmds })
        },
    }
}

/// Rendering is deterministic: frames laid out from equal time samples,
/// themes and mark styles hold identical command sequences.
pub proof fn lemma_render_deterministic(
    t1: TimeSample,
    t2: TimeSample,
    th1: Theme,
    th2: Theme,
    s1: MarkStyle,
    s2: MarkStyle,
)
    requires
        t1 == t2,
        th1 == th2,
        s1 == s2,
    ensures
        frame_cmds(triple_of(t1), th1, s1) == frame_cmds(triple_of(t2), th2, s2),
{
}

} // verus!
