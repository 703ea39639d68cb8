use cedar_display::guidance::DrawState;
use cedar_display::render::draw_operating_state;
use cedar_display::render::draw_ui;
use cedar_display::render::format_offset;
use cedar_display::render::DrawCmd;
use cedar_display::render::FontSize;
use cedar_display::render::HorizontalAlignment;
use cedar_display::render::VerticalPosition;
use cedar_display::telemetry::ServerMode;
use cedar_display::telemetry::ServerState;

fn state(is_alt_az: bool, tilt: i64, rot: i64, angle: i64) -> ServerState {
    ServerState {
        server_mode: ServerMode::Operating,
        is_alt_az,
        has_slew_request: true,
        rotation_target_distance: rot,
        tilt_target_distance: tilt,
        target_angle: angle,
        has_solution: false,
    }
}

fn text_content(cmd: &DrawCmd) -> &str {
    match cmd {
        DrawCmd::Text { text, .. } => text.as_str(),
        other => panic!("expected a text command, got {:?}", other),
    }
}

#[test]
fn offset_formatting_rounds_by_magnitude() {
    assert_eq!(format_offset(5400), "5.40");
    assert_eq!(format_offset(12340), "12.3");
    assert_eq!(format_offset(123400), "123");
    assert_eq!(format_offset(-7000), "7.00");
}

#[test]
fn offset_formatting_edge_values() {
    assert_eq!(format_offset(0), "0.00");
    assert_eq!(format_offset(9999), "10.00");
    assert_eq!(format_offset(99999), "100.0");
    assert_eq!(format_offset(999999), "1000");
    assert_eq!(format_offset(-12340), "12.3");
}

#[test]
fn message_renders_centered_status_text() {
    let cmds = draw_ui(&DrawState::Message("Calibrating".to_string()));
    assert_eq!(cmds.len(), 1);
    match &cmds[0] {
        DrawCmd::Text { text, x, y, vertical, horizontal, font } => {
            assert_eq!(text, "Calibrating");
            assert_eq!((*x, *y), (64, 64));
            assert_eq!(*vertical, VerticalPosition::Center);
            assert_eq!(*horizontal, HorizontalAlignment::Center);
            assert_eq!(*font, FontSize::Status);
        }
        other => panic!("expected text, got {:?}", other),
    }
}

#[test]
fn live_equatorial_shows_letters_and_arrow() {
    let s = state(false, 2500, -1500, 0);
    let cmds = draw_operating_state(&s, None);
    assert_eq!(cmds.len(), 6);
    assert_eq!(text_content(&cmds[0]), "2.50");
    assert_eq!(text_content(&cmds[1]), "1.50");
    assert_eq!(text_content(&cmds[2]), "N");
    assert_eq!(text_content(&cmds[3]), "W");
    assert!(matches!(cmds[4], DrawCmd::Line { .. }));
    assert!(matches!(cmds[5], DrawCmd::TriangleFill { .. }));
}

#[test]
fn southern_and_eastern_letters() {
    let s = state(false, -2500, 1500, 0);
    let cmds = draw_operating_state(&s, None);
    assert_eq!(text_content(&cmds[2]), "S");
    assert_eq!(text_content(&cmds[3]), "E");
}

#[test]
fn arrow_for_zero_bearing_points_straight_up() {
    let s = state(false, 1000, 1000, 0);
    let cmds = draw_operating_state(&s, None);
    // shaft from the tail up to the arrowhead's base, both on the center column
    assert_eq!(cmds[4], DrawCmd::Line { x1: 64, y1: 84, x2: 64, y2: 56 });
    // arrowhead: tip straight above the center, base corners symmetric
    assert_eq!(
        cmds[5],
        DrawCmd::TriangleFill { x1: 64, y1: 44, x2: 58, y2: 56, x3: 70, y3: 56 }
    );
}

#[test]
fn arrow_for_quarter_turn_bearing_points_left() {
    // wire bearing 90 degrees means "left": display angle 180 degrees
    let s = state(false, 1000, 1000, 90000);
    let cmds = draw_operating_state(&s, None);
    assert_eq!(cmds[4], DrawCmd::Line { x1: 84, y1: 64, x2: 56, y2: 64 });
    assert_eq!(
        cmds[5],
        DrawCmd::TriangleFill { x1: 44, y1: 64, x2: 56, y2: 70, x3: 56, y3: 58 }
    );
}

#[test]
fn stale_equatorial_shows_arc_and_no_arrow() {
    let s = state(false, 2500, 1500, 0);
    let cmds = draw_operating_state(&s, Some(18));
    assert_eq!(cmds.len(), 5);
    assert_eq!(text_content(&cmds[2]), "N");
    assert_eq!(text_content(&cmds[3]), "E");
    assert_eq!(
        cmds[4],
        DrawCmd::Arc { x: 44, y: 44, diameter: 40, start_deg: 18, sweep_deg: 90 }
    );
}

#[test]
fn stale_letters_blink_with_the_phase() {
    let s = state(false, 2500, 1500, 0);
    // phase 36 is on the hidden half of the blink cycle
    let cmds = draw_operating_state(&s, Some(36));
    assert_eq!(cmds.len(), 3);
    assert_eq!(
        cmds[2],
        DrawCmd::Arc { x: 44, y: 44, diameter: 40, start_deg: 36, sweep_deg: 90 }
    );
    // phase 100 wraps to 28 within the cycle and is visible again
    let cmds = draw_operating_state(&s, Some(100));
    assert_eq!(cmds.len(), 5);
    assert_eq!(text_content(&cmds[2]), "N");
}

#[test]
fn live_alt_az_shows_filled_triangles() {
    let s = state(true, 2500, -1500, 0);
    let cmds = draw_operating_state(&s, None);
    assert_eq!(cmds.len(), 6);
    assert_eq!(
        cmds[2],
        DrawCmd::TriangleFill { x1: 15, y1: 0, x2: 0, y2: 30, x3: 30, y3: 30 }
    );
    assert_eq!(
        cmds[3],
        DrawCmd::TriangleFill { x1: 30, y1: 97, x2: 30, y2: 127, x3: 0, y3: 112 }
    );
}

#[test]
fn stale_alt_az_shows_outline_triangles() {
    let s = state(true, -2500, 1500, 0);
    let cmds = draw_operating_state(&s, Some(9));
    assert_eq!(cmds.len(), 5);
    assert_eq!(
        cmds[2],
        DrawCmd::TriangleOutline { x1: 0, y1: 0, x2: 30, y2: 0, x3: 15, y3: 30 }
    );
    assert_eq!(
        cmds[3],
        DrawCmd::TriangleOutline { x1: 0, y1: 97, x2: 0, y2: 127, x3: 30, y3: 112 }
    );
    assert_eq!(
        cmds[4],
        DrawCmd::Arc { x: 44, y: 44, diameter: 40, start_deg: 9, sweep_deg: 90 }
    );
}

#[test]
fn operating_draw_ui_matches_direct_render() {
    let s = state(true, 2500, 1500, 180000);
    let via_ui = draw_ui(&DrawState::Operating(s, Some(27)));
    let direct = draw_operating_state(&s, Some(27));
    assert_eq!(via_ui, direct);
}
