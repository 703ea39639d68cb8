//! Rendering engine: derives, as explicit drawing commands in the
//! canonical 128 x 128 canvas coordinate space, everything one draw state
//! puts on screen — offset numerals, direction letters or triangles, the
//! stale-animation arc, and the target-direction arrow.
//!
//! Rasterizing the commands (fonts, line and triangle filling) is the
//! display backend's job; every coordinate and every character of text is
//! derived here.

use vstd::prelude::*;
use vstd::string::*;
use vstd::arithmetic::div_mod::lemma_div_is_ordered;
use vstd::arithmetic::div_mod::lemma_div_multiples_vanish;
use vstd::arithmetic::div_mod::lemma_div_of0;
use vstd::arithmetic::div_mod::lemma_div_pos_is_pos;
use vstd::arithmetic::div_mod::lemma_small_mod;

use crate::guidance::DrawState;
use crate::telemetry::Milli;
use crate::telemetry::ServerState;
use crate::trig::cos_milli;
use crate::trig::norm_angle;
use crate::trig::sin_milli;
use crate::trig::spec_cos_milli;
use crate::trig::spec_half_wave;
use crate::trig::spec_sin_milli;

verus! {

/// Which of the two configured font sizes a text command uses.
#[derive(Debug, Clone, Copy, PartialEq, Eq, Structural)]
pub enum FontSize {
    /// The smaller font, for status messages.
    Status,
    /// The larger font, for guidance numerals and letters.
    Guidance,
}

/// Vertical reference of a text command's anchor point.
#[derive(Debug, Clone, Copy, PartialEq, Eq, Structural)]
pub enum VerticalPosition {
    Top,
    Center,
    Baseline,
}

/// Horizontal alignment of a text command around its anchor point.
#[derive(Debug, Clone, Copy, PartialEq, Eq, Structural)]
pub enum HorizontalAlignment {
    Left,
    Center,
    Right,
}

/// One drawing command, in logical canvas coordinates.
#[derive(Debug, Clone, PartialEq, Eq)]
pub enum DrawCmd {
    /// Text anchored at `(x, y)`.
    Text {
        text: String,
        x: i32,
        y: i32,
        vertical: VerticalPosition,
        horizontal: HorizontalAlignment,
        font: FontSize,
    },
    /// A solid filled triangle.
    TriangleFill { x1: i32, y1: i32, x2: i32, y2: i32, x3: i32, y3: i32 },
    /// The same triangle drawn outline-only.
    TriangleOutline { x1: i32, y1: i32, x2: i32, y2: i32, x3: i32, y3: i32 },
    /// A straight line segment.
    Line { x1: i32, y1: i32, x2: i32, y2: i32 },
    /// A circular arc inside the square with top-left corner `(x, y)` and
    /// the given diameter, from `start_deg` spanning `sweep_deg` degrees.
    Arc { x: i32, y: i32, diameter: u32, start_deg: u32, sweep_deg: u32 },
}

/// True when `c` is a text command with exactly the given content, anchor,
/// alignment and font.
pub open spec fn is_text_cmd(
    c: DrawCmd,
    t: Seq<char>,
    x: int,
    y: int,
    v: VerticalPosition,
    h: HorizontalAlignment,
    f: FontSize,
) -> bool {
    match c {
        DrawCmd::Text { text, x: cx, y: cy, vertical, horizontal, font } => {
            &&& text@ == t
            &&& cx == x
            &&& cy == y
            &&& vertical == v
            &&& horizontal == h
            &&& font == f
        },
        _ => false,
    }
}

/// The decimal digit character for `d` in `[0, 9]`.
pub open spec fn spec_digit_char(d: int) -> char {
    if d == 0 {
        '0'
    } else if d == 1 {
        '1'
    } else if d == 2 {
        '2'
    } else if d == 3 {
        '3'
    } else if d == 4 {
        '4'
    } else if d == 5 {
        '5'
    } else if d == 6 {
        '6'
    } else if d == 7 {
        '7'
    } else if d == 8 {
        '8'
    } else {
        '9'
    }
}

/// The usual decimal numeral of a nonnegative integer, most significant
/// digit first.
pub open spec fn spec_decimal(n: int) -> Seq<char>
    decreases n,
{
    if n < 10 {
        seq![spec_digit_char(n)]
    } else {
        spec_decimal(n / 10).push(spec_digit_char(n % 10))
    }
}

/// How an offset value in milli-units reads on screen: the numeral of its
/// absolute value, rounded to no decimals from 100 up, one decimal from 10
/// up, and two decimals below that. The sign is never shown.
pub open spec fn spec_format_offset(num: int) -> Seq<char> {
    let n = if num < 0 {
        -num
    } else {
        num
    };
    if n >= 100000 {
        spec_decimal((n + 500) / 1000)
    } else if n >= 10000 {
        let t = (n + 50) / 100;
        spec_decimal(t / 10) + seq!['.', spec_digit_char(t % 10)]
    } else {
        let c = (n + 5) / 10;
        spec_decimal(c / 100) + seq!['.', spec_digit_char((c % 100) / 10), spec_digit_char((c % 100) % 10)]
    }
}

/// The one-character string for a decimal digit.
fn digit_str(d: u64) -> (r: &'static str)
    requires
        d < 10,
    ensures
        r@ == seq![spec_digit_char(d as int)],
{
    proof {
        reveal_strlit("0");
        reveal_strlit("1");
        reveal_strlit("2");
        reveal_strlit("3");
        reveal_strlit("4");
        reveal_strlit("5");
        reveal_strlit("6");
        reveal_strlit("7");
        reveal_strlit("8");
        reveal_strlit("9");
    }
    let r = match d {
        0 => "0",
        1 => "1",
        2 => "2",
        3 => "3",
        4 => "4",
        5 => "5",
        6 => "6",
        7 => "7",
        8 => "8",
        _ => "9",
    };
    proof {
        assert(r@ =~= seq![spec_digit_char(d as int)]);
    }
    r
}

/// Appends the decimal numeral of `n` to `s`.
fn push_decimal(s: &mut String, n: u64)
    ensures
        final(s)@ == old(s)@ + spec_decimal(n as int),
    decreases n,
{
    if n >= 10 {
        push_decimal(s, n / 10);
        s.append(digit_str(n % 10));
        proof {
            assert(final(s)@ =~= old(s)@ + spec_decimal(n as int));
        }
    } else {
        s.append(digit_str(n));
        proof {
            assert(final(s)@ =~= old(s)@ + spec_decimal(n as int));
        }
    }
}

/// Formats an offset value in milli-units for display, per
/// `spec_format_offset`: magnitude only, with coarser precision the larger
/// the value.
pub fn format_offset(num: Milli) -> (r: String)
    ensures
        r@ == spec_format_offset(num as int),
{
    proof {
        reveal_strlit(".");
    }
    let n: u64 = if num >= 0 {
        num as u64
    } else {
        // |num| without overflowing at the smallest i64
        ((-(num + 1)) as u64) + 1
    };
    let mut s = String::new();
    if n >= 100000 {
        push_decimal(&mut s, (n + 500) / 1000);
    } else if n >= 10000 {
        let t = (n + 50) / 100;
        push_decimal(&mut s, t / 10);
        s.append(".");
        s.append(digit_str(t % 10));
    } else {
        let c = (n + 5) / 10;
        push_decimal(&mut s, c / 100);
        s.append(".");
        let rem = c % 100;
        s.append(digit_str(rem / 10));
        s.append(digit_str(rem % 10));
    }
    proof {
        assert(s@ =~= spec_format_offset(num as int));
    }
    s
}

/// Truncating fixed-point scaling: `coeff * m / 1000` rounded toward
/// zero, for a factor `m` given in thousandths.
pub open spec fn spec_scale_milli(coeff: int, m: int) -> int {
    if m >= 0 {
        coeff * m / 1000
    } else {
        -(coeff * (-m) / 1000)
    }
}

/// Scales `m` thousandths by `coeff`, truncating toward zero.
fn scale_milli(coeff: u64, m: i64) -> (r: i64)
    requires
        coeff <= 1000,
        -1000 <= m <= 1000,
    ensures
        r == spec_scale_milli(coeff as int, m as int),
        -(coeff as int) <= r <= coeff as int,
{
    let mabs: u64 = if m >= 0 {
        m as u64
    } else {
        (-m) as u64
    };
    proof {
        assert(coeff * mabs <= 1000 * coeff) by (nonlinear_arith)
            requires
                coeff <= 1000,
                mabs <= 1000,
        ;
    }
    let q = (coeff * mabs) / 1000;
    proof {
        lemma_div_pos_is_pos((coeff * mabs) as int, 1000);
        lemma_div_is_ordered((coeff * mabs) as int, 1000 * coeff as int, 1000);
        lemma_div_multiples_vanish(coeff as int, 1000);
    }
    if m >= 0 {
        q as i64
    } else {
        -(q as i64)
    }
}

/// The angle the arrow is drawn at, in milli-degrees of standard display
/// convention (0 = right, counter-clockwise): the wire bearing (0 = up,
/// 90 degrees = left), reduced to one revolution, plus a quarter turn.
pub open spec fn spec_display_angle(target: int) -> int {
    target % 360000 + 90000
}

/// Tip of the target-direction arrow, a half-length of 20 pixels from the
/// canvas center along the display angle.
pub open spec fn spec_arrow_tip(target: int) -> (int, int) {
    let a = spec_display_angle(target);
    (
        64 + spec_scale_milli(20, spec_cos_milli(a)),
        64 - spec_scale_milli(20, spec_sin_milli(a)),
    )
}

/// Tail of the arrow, opposite the tip across the canvas center.
pub open spec fn spec_arrow_tail(target: int) -> (int, int) {
    let a = spec_display_angle(target);
    (
        64 - spec_scale_milli(20, spec_cos_milli(a)),
        64 + spec_scale_milli(20, spec_sin_milli(a)),
    )
}

/// Center of the arrowhead's base, a head-length of 12 pixels back from
/// the tip along the shaft.
pub open spec fn spec_arrow_head_base(target: int) -> (int, int) {
    let a = spec_display_angle(target);
    (
        64 + spec_scale_milli(8, spec_cos_milli(a)),
        64 - spec_scale_milli(8, spec_sin_milli(a)),
    )
}

/// First corner of the arrowhead's base, half the head width of 12 pixels
/// from its center, perpendicular to the shaft on one side.
pub open spec fn spec_arrow_corner1(target: int) -> (int, int) {
    let a = spec_display_angle(target);
    let base = spec_arrow_head_base(target);
    (
        base.0 + spec_scale_milli(6, spec_cos_milli(a + 90000)),
        base.1 - spec_scale_milli(6, spec_sin_milli(a + 90000)),
    )
}

/// Second corner of the arrowhead's base, on the other side of the shaft.
pub open spec fn spec_arrow_corner2(target: int) -> (int, int) {
    let a = spec_display_angle(target);
    let base = spec_arrow_head_base(target);
    (
        base.0 + spec_scale_milli(6, spec_cos_milli(a - 90000)),
        base.1 - spec_scale_milli(6, spec_sin_milli(a - 90000)),
    )
}

/// The command that draws the arrow's shaft, from the tail to the center
/// of the arrowhead's base.
pub open spec fn spec_arrow_shaft_cmd(target: int) -> DrawCmd {
    DrawCmd::Line {
        x1: spec_arrow_tail(target).0 as i32,
        y1: spec_arrow_tail(target).1 as i32,
        x2: spec_arrow_head_base(target).0 as i32,
        y2: spec_arrow_head_base(target).1 as i32,
    }
}

/// The command that draws the arrowhead, a filled triangle over the tip
/// and the two base corners.
pub open spec fn spec_arrow_head_cmd(target: int) -> DrawCmd {
    DrawCmd::TriangleFill {
        x1: spec_arrow_tip(target).0 as i32,
        y1: spec_arrow_tip(target).1 as i32,
        x2: spec_arrow_corner1(target).0 as i32,
        y2: spec_arrow_corner1(target).1 as i32,
        x3: spec_arrow_corner2(target).0 as i32,
        y3: spec_arrow_corner2(target).1 as i32,
    }
}

/// Whether the cardinal-direction letters are shown this tick: always
/// when live, and on the visible half of the blink cycle when stale.
pub open spec fn spec_blink_visible(stale: Option<u32>) -> bool {
    match stale {
        None => true,
        Some(phase) => phase % 72 < 36,
    }
}

/// The direction triangle near the top of an alt-az display: pointing up
/// when the tilt offset is positive, down otherwise; filled when live,
/// outline-only when stale.
pub open spec fn spec_tilt_triangle(state: ServerState, live: bool) -> DrawCmd {
    if state.tilt_target_distance > 0 {
        if live {
            DrawCmd::TriangleFill { x1: 15, y1: 0, x2: 0, y2: 30, x3: 30, y3: 30 }
        } else {
            DrawCmd::TriangleOutline { x1: 15, y1: 0, x2: 0, y2: 30, x3: 30, y3: 30 }
        }
    } else {
        if live {
            DrawCmd::TriangleFill { x1: 0, y1: 0, x2: 30, y2: 0, x3: 15, y3: 30 }
        } else {
            DrawCmd::TriangleOutline { x1: 0, y1: 0, x2: 30, y2: 0, x3: 15, y3: 30 }
        }
    }
}

/// The direction triangle near the bottom of an alt-az display, pointing
/// the way the rotation offset indicates.
pub open spec fn spec_rotation_triangle(state: ServerState, live: bool) -> DrawCmd {
    if state.rotation_target_distance > 0 {
        if live {
            DrawCmd::TriangleFill { x1: 0, y1: 97, x2: 0, y2: 127, x3: 30, y3: 112 }
        } else {
            DrawCmd::TriangleOutline { x1: 0, y1: 97, x2: 0, y2: 127, x3: 30, y3: 112 }
        }
    } else {
        if live {
            DrawCmd::TriangleFill { x1: 30, y1: 97, x2: 30, y2: 127, x3: 0, y3: 112 }
        } else {
            DrawCmd::TriangleOutline { x1: 30, y1: 97, x2: 30, y2: 127, x3: 0, y3: 112 }
        }
    }
}

/// How many commands one operating-state render produces.
pub open spec fn spec_operating_len(state: ServerState, stale: Option<u32>) -> int {
    (if state.is_alt_az {
        4int
    } else if spec_blink_visible(stale) {
        4int
    } else {
        2int
    }) + (if stale is Some {
        1int
    } else {
        2int
    })
}

/// Everything an operating-state render puts on screen, command by
/// command: the two offset numerals right-aligned top and bottom; then
/// either the (possibly blinked-away) cardinal letters or the two
/// direction triangles; then, when stale, the rotating 90-degree arc and
/// nothing more, and when live, the target-direction arrow.
pub open spec fn spec_operating_cmds(
    state: ServerState,
    stale: Option<u32>,
    cmds: Seq<DrawCmd>,
) -> bool {
    let live = stale is None;
    let k = spec_operating_len(state, stale);
    &&& cmds.len() == k
    &&& is_text_cmd(
        cmds[0],
        spec_format_offset(state.tilt_target_distance as int),
        127,
        0,
        VerticalPosition::Top,
        HorizontalAlignment::Right,
        FontSize::Guidance,
    )
    &&& is_text_cmd(
        cmds[1],
        spec_format_offset(state.rotation_target_distance as int),
        127,
        127,
        VerticalPosition::Baseline,
        HorizontalAlignment::Right,
        FontSize::Guidance,
    )
    &&& if state.is_alt_az {
        &&& cmds[2] == spec_tilt_triangle(state, live)
        &&& cmds[3] == spec_rotation_triangle(state, live)
    } else if spec_blink_visible(stale) {
        &&& is_text_cmd(
            cmds[2],
            if state.tilt_target_distance > 0 {
                "N"@
            } else {
                "S"@
            },
            0,
            0,
            VerticalPosition::Top,
            HorizontalAlignment::Left,
            FontSize::Guidance,
        )
        &&& is_text_cmd(
            cmds[3],
            if state.rotation_target_distance > 0 {
                "E"@
            } else {
                "W"@
            },
            0,
            127,
            VerticalPosition::Baseline,
            HorizontalAlignment::Left,
            FontSize::Guidance,
        )
    } else {
        true
    }
    &&& match stale {
        Some(phase) => cmds[k - 1] == (DrawCmd::Arc {
            x: 44,
            y: 44,
            diameter: 40,
            start_deg: phase,
            sweep_deg: 90,
        }),
        None => {
            &&& cmds[k - 2] == spec_arrow_shaft_cmd(state.target_angle as int)
            &&& cmds[k - 1] == spec_arrow_head_cmd(state.target_angle as int)
        },
    }
}

/// Law: a wire bearing of zero (target straight "up" in the server's
/// convention) is drawn at a display angle of a quarter turn, so the
/// arrow's tip sits straight above the canvas center: same x-coordinate,
/// smaller y-coordinate.
pub proof fn lemma_arrow_points_up_for_zero_angle()
    ensures
        spec_display_angle(0) == 90000,
        spec_arrow_tip(0).0 == 64,
        spec_arrow_tip(0).1 < 64,
{
    lemma_small_mod(0nat, 360000nat);
    lemma_small_mod(90000nat, 360000nat);
    lemma_small_mod(180000nat, 360000nat);
    assert(90000int % 360000int == 90000int);
    assert(180000int % 360000int == 180000int);
    assert(0int % 360000int == 0int);
    // sin of a quarter turn is exactly one
    lemma_div_multiples_vanish(1000, 32400000000);
    assert(32400000000int * 1000 == 32400000000000int);
    assert(4000int * 90000 * (180000 - 90000) == 32400000000000int);
    assert(40500000000int - 90000 * (180000 - 90000) == 32400000000int);
    assert(spec_half_wave(90000) == 1000);
    assert(spec_sin_milli(90000) == 1000);
    // cos of a quarter turn is exactly zero
    lemma_div_of0(40500000000);
    assert(spec_cos_milli(90000) == 0);
    // the tip offsets: 20 * 1000 / 1000 and 20 * 0 / 1000
    lemma_div_multiples_vanish(20, 1000);
    lemma_div_of0(1000);
    assert(spec_scale_milli(20, 1000) == 20);
    assert(spec_scale_milli(20, 0) == 0);
}

/// Renders live or stale guidance data as drawing commands.
pub fn draw_operating_state(state: &ServerState, stale_angle: Option<u32>) -> (cmds: Vec<DrawCmd>)
    ensures
        spec_operating_cmds(*state, stale_angle, cmds@),
{
    let is_current = stale_angle.is_none();
    let mut cmds: Vec<DrawCmd> = Vec::new();

    cmds.push(DrawCmd::Text {
        text: format_offset(state.tilt_target_distance),
        x: 127,
        y: 0,
        vertical: VerticalPosition::Top,
        horizontal: HorizontalAlignment::Right,
        font: FontSize::Guidance,
    });
    cmds.push(DrawCmd::Text {
        text: format_offset(state.rotation_target_distance),
        x: 127,
        y: 127,
        vertical: VerticalPosition::Baseline,
        horizontal: HorizontalAlignment::Right,
        font: FontSize::Guidance,
    });

    if !state.is_alt_az {
        let visible = match stale_angle {
            None => true,
            Some(phase) => phase % 72 < 36,
        };
        if visible {
            cmds.push(DrawCmd::Text {
                text: if state.tilt_target_distance > 0 {
                    String::from_str("N")
                } else {
                    String::from_str("S")
                },
                x: 0,
                y: 0,
                vertical: VerticalPosition::Top,
                horizontal: HorizontalAlignment::Left,
                font: FontSize::Guidance,
            });
            cmds.push(DrawCmd::Text {
                text: if state.rotation_target_distance > 0 {
                    String::from_str("E")
                } else {
                    String::from_str("W")
                },
                x: 0,
                y: 127,
                vertical: VerticalPosition::Baseline,
                horizontal: HorizontalAlignment::Left,
                font: FontSize::Guidance,
            });
        }
    } else {
        if state.tilt_target_distance > 0 {
            if is_current {
                cmds.push(DrawCmd::TriangleFill { x1: 15, y1: 0, x2: 0, y2: 30, x3: 30, y3: 30 });
            } else {
                cmds.push(
                    DrawCmd::TriangleOutline { x1: 15, y1: 0, x2: 0, y2: 30, x3: 30, y3: 30 },
                );
            }
        } else {
            if is_current {
                cmds.push(DrawCmd::TriangleFill { x1: 0, y1: 0, x2: 30, y2: 0, x3: 15, y3: 30 });
            } else {
                cmds.push(
                    DrawCmd::TriangleOutline { x1: 0, y1: 0, x2: 30, y2: 0, x3: 15, y3: 30 },
                );
            }
        }
        if state.rotation_target_distance > 0 {
            if is_current {
                cmds.push(DrawCmd::TriangleFill { x1: 0, y1: 97, x2: 0, y2: 127, x3: 30, y3: 112 });
            } else {
                cmds.push(
                    DrawCmd::TriangleOutline { x1: 0, y1: 97, x2: 0, y2: 127, x3: 30, y3: 112 },
                );
            }
        } else {
            if is_current {
                cmds.push(
                    DrawCmd::TriangleFill { x1: 30, y1: 97, x2: 30, y2: 127, x3: 0, y3: 112 },
                );
            } else {
                cmds.push(
                    DrawCmd::TriangleOutline { x1: 30, y1: 97, x2: 30, y2: 127, x3: 0, y3: 112 },
                );
            }
        }
    }

    match stale_angle {
        Some(phase) => {
            cmds.push(DrawCmd::Arc { x: 44, y: 44, diameter: 40, start_deg: phase, sweep_deg: 90 });
            cmds
        },
        None => {
            let target = norm_angle(state.target_angle);
            let a = target + 90000;
            let cos_a = cos_milli(a);
            let sin_a = sin_milli(a);
            let cos_p = cos_milli(a + 90000);
            let sin_p = sin_milli(a + 90000);
            let cos_m = cos_milli(a - 90000);
            let sin_m = sin_milli(a - 90000);

            let tip_x = 64 + scale_milli(20, cos_a) as i32;
            let tip_y = 64 - scale_milli(20, sin_a) as i32;
            let tail_x = 64 - scale_milli(20, cos_a) as i32;
            let tail_y = 64 + scale_milli(20, sin_a) as i32;
            let base_x = 64 + scale_milli(8, cos_a) as i32;
            let base_y = 64 - scale_milli(8, sin_a) as i32;
            let corner1_x = base_x + scale_milli(6, cos_p) as i32;
            let corner1_y = base_y - scale_milli(6, sin_p) as i32;
            let corner2_x = base_x + scale_milli(6, cos_m) as i32;
            let corner2_y = base_y - scale_milli(6, sin_m) as i32;

            cmds.push(DrawCmd::Line { x1: tail_x, y1: tail_y, x2: base_x, y2: base_y });
            cmds.push(
                DrawCmd::TriangleFill {
                    x1: tip_x,
                    y1: tip_y,
                    x2: corner1_x,
                    y2: corner1_y,
                    x3: corner2_x,
                    y3: corner2_y,
                },
            );
            cmds
        },
    }
}

/// Renders one draw state as drawing commands: a message is a single text
/// centered on the canvas in the status font; guidance data renders per
/// `spec_operating_cmds`.
pub fn draw_ui(state: &DrawState) -> (cmds: Vec<DrawCmd>)
    ensures
        match *state {
            DrawState::Message(msg) => cmds@.len() == 1 && is_text_cmd(
                cmds@[0],
                msg@,
                64,
                64,
                VerticalPosition::Center,
                HorizontalAlignment::Center,
                FontSize::Status,
            ),
            DrawState::Operating(s, stale) => spec_operating_cmds(s, stale, cmds@),
        },
{
    match state {
        DrawState::Message(msg) => {
            let mut cmds: Vec<DrawCmd> = Vec::new();
            cmds.push(DrawCmd::Text {
                text: msg.clone(),
                x: 64,
                y: 64,
                vertical: VerticalPosition::Center,
                horizontal: HorizontalAlignment::Center,
                font: FontSize::Status,
            });
            cmds
        },
        DrawState::Operating(s, stale) => draw_operating_state(s, *stale),
    }
}

} // verus!
