use term_clock::angle::{Angle, TimeSample, HALF_TURN, QUARTER_TURN, THREE_QUARTER_TURN};
use term_clock::control::{decide, InputEvent, LoopAction, POLL_TIMEOUT_MILLIS, QUIT_KEY};
use term_clock::render::{
    cardinal_angle, render_frame, DrawCmd, MarkLabel, MarkStyle, BEZEL_RADIUS_MILLI,
    HOUR_HAND_MILLI, MARK_TEXT_RADIUS_MILLI, MINUTE_HAND_MILLI, SECOND_HAND_MILLI,
    TICK_INNER_MILLI, TICK_OUTER_MILLI,
};
use term_clock::theme::{theme, Color, ThemeName};
use term_clock::viewport::{AspectRatio, Viewport};

fn sample(hour12: u8, minute: u8, second: u8, nanos: u32) -> TimeSample {
    TimeSample::new(hour12, minute, second, nanos).expect("valid time")
}

#[test]
fn viewport_of_eighty_by_twentyfour_at_point_six() {
    // aspect ratio 0.6 as the rational 6/10.
    let a = AspectRatio::new(6, 10).expect("valid ratio");
    let v = Viewport::try_new(80, 24, &a).expect("viewport fits");
    // min_side = min(80 * 0.6, 24) - 1 = 23, scaled by the denominator 10.
    assert_eq!(v.den, 230);
    assert_eq!(v.width_num, 480);
    assert_eq!(v.height_num, 240);
    // Bounds are positive and strictly contain the unit circle.
    assert!(v.width_num > v.den);
    assert!(v.height_num > v.den);
}

#[test]
fn viewport_rejects_degenerate_terminals() {
    let a = AspectRatio::new(6, 10).expect("valid ratio");
    assert!(Viewport::try_new(0, 24, &a).is_none());
    assert!(Viewport::try_new(80, 0, &a).is_none());
    assert!(Viewport::try_new(1, 1, &a).is_none());
    let square = AspectRatio::new(1, 1).expect("valid ratio");
    // Height 1 leaves nothing beyond the one-unit margin.
    assert!(Viewport::try_new(80, 1, &square).is_none());
    assert!(Viewport::try_new(2, 2, &square).is_some());
}

#[test]
fn aspect_ratio_rejects_zero_and_oversized_parts() {
    assert!(AspectRatio::new(0, 10).is_none());
    assert!(AspectRatio::new(10, 0).is_none());
    assert!(AspectRatio::new(1_000_000_000_001, 10).is_none());
    assert!(AspectRatio::new(10, 1_000_000_001).is_none());
    assert!(AspectRatio::new(600_000, 1_000_000).is_some());
}

#[test]
fn themes_hold_their_palettes() {
    let standard = theme(ThemeName::Standard);
    assert_eq!(standard.bg, Color::Reset);
    assert_eq!(standard.circle, Color::Cyan);
    assert_eq!(standard.marks, Color::Gray);
    assert_eq!(standard.hour, Color::LightRed);
    assert_eq!(standard.minute, Color::LightGreen);
    assert_eq!(standard.second, Color::White);
    let rose = theme(ThemeName::RosePine);
    assert_eq!(rose.bg, Color::Rgb(31, 29, 46));
    assert_eq!(rose.circle, Color::Rgb(49, 116, 143));
    assert_eq!(rose.marks, Color::Rgb(144, 140, 170));
    assert_eq!(rose.hour, Color::Rgb(246, 193, 119));
    assert_eq!(rose.minute, Color::Rgb(235, 188, 186));
    assert_eq!(rose.second, Color::Rgb(156, 207, 216));
}

#[test]
fn cardinal_angles_are_quarter_turns() {
    assert_eq!(cardinal_angle(0).num, 0);
    assert_eq!(cardinal_angle(3).num, QUARTER_TURN);
    assert_eq!(cardinal_angle(6).num, HALF_TURN);
    assert_eq!(cardinal_angle(9).num, THREE_QUARTER_TURN);
}

#[test]
fn frame_layout_with_glyph_marks() {
    let a = AspectRatio::new(6, 10).expect("valid ratio");
    let th = theme(ThemeName::Standard);
    let t = sample(3, 0, 0, 0);
    let f = render_frame(80, 24, &a, &th, &t, MarkStyle::Glyphs).expect("frame fits");
    assert_eq!(f.cmds.len(), 9);
    assert_eq!(f.cmds[0], DrawCmd::Background { color: th.bg });
    assert_eq!(
        f.cmds[1],
        DrawCmd::Circle { radius_milli: BEZEL_RADIUS_MILLI, color: th.circle }
    );
    assert_eq!(
        f.cmds[2],
        DrawCmd::Text {
            label: MarkLabel::Twelve,
            angle: Angle { num: 0 },
            radius_milli: MARK_TEXT_RADIUS_MILLI,
        }
    );
    assert_eq!(
        f.cmds[5],
        DrawCmd::Text {
            label: MarkLabel::Nine,
            angle: Angle { num: THREE_QUARTER_TURN },
            radius_milli: MARK_TEXT_RADIUS_MILLI,
        }
    );
    // Hands come last: second, minute, hour, at 0.8, 0.7 and 0.6 of the radius.
    assert_eq!(
        f.cmds[6],
        DrawCmd::Line {
            angle: Angle { num: 0 },
            from_milli: 0,
            to_milli: SECOND_HAND_MILLI,
            color: th.second,
        }
    );
    assert_eq!(
        f.cmds[7],
        DrawCmd::Line {
            angle: Angle { num: 0 },
            from_milli: 0,
            to_milli: MINUTE_HAND_MILLI,
            color: th.minute,
        }
    );
    assert_eq!(
        f.cmds[8],
        DrawCmd::Line {
            angle: Angle { num: QUARTER_TURN },
            from_milli: 0,
            to_milli: HOUR_HAND_MILLI,
            color: th.hour,
        }
    );
}

#[test]
fn frame_layout_with_numeral_marks_adds_ticks() {
    let a = AspectRatio::new(6, 10).expect("valid ratio");
    let th = theme(ThemeName::RosePine);
    let t = sample(0, 0, 0, 0);
    let f = render_frame(80, 24, &a, &th, &t, MarkStyle::NumeralsAndTicks).expect("frame fits");
    assert_eq!(f.cmds.len(), 13);
    // The four ticks sit between the texts and the hands.
    for (i, num) in [(6usize, 0u64), (7, QUARTER_TURN), (8, HALF_TURN), (9, THREE_QUARTER_TURN)] {
        assert_eq!(
            f.cmds[i],
            DrawCmd::Line {
                angle: Angle { num },
                from_milli: TICK_OUTER_MILLI,
                to_milli: TICK_INNER_MILLI,
                color: th.marks,
            }
        );
    }
}

#[test]
fn rendering_twice_gives_identical_frames() {
    let a = AspectRatio::new(6, 10).expect("valid ratio");
    let th = theme(ThemeName::RosePine);
    let t = sample(10, 8, 25, 123_456_789);
    let f1 = render_frame(80, 24, &a, &th, &t, MarkStyle::NumeralsAndTicks).expect("frame fits");
    let f2 = render_frame(80, 24, &a, &th, &t, MarkStyle::NumeralsAndTicks).expect("frame fits");
    assert_eq!(f1, f2);
}

#[test]
fn render_rejects_degenerate_terminal() {
    let a = AspectRatio::new(6, 10).expect("valid ratio");
    let th = theme(ThemeName::Standard);
    let t = sample(0, 0, 0, 0);
    assert!(render_frame(1, 1, &a, &th, &t, MarkStyle::Glyphs).is_none());
}

#[test]
fn quit_key_quits_and_nothing_else_does() {
    assert_eq!(decide(&Some(InputEvent::Key(QUIT_KEY))), LoopAction::Quit);
    assert_eq!(decide(&Some(InputEvent::Key('q'))), LoopAction::Quit);
    assert_eq!(decide(&Some(InputEvent::Key('x'))), LoopAction::Continue);
    assert_eq!(decide(&Some(InputEvent::Key('Q'))), LoopAction::Continue);
    assert_eq!(decide(&Some(InputEvent::Other)), LoopAction::Continue);
    assert_eq!(decide(&None), LoopAction::Continue);
    // The poll that feeds the decision is time-boxed.
    assert!(POLL_TIMEOUT_MILLIS > 0);
}
