use cedar_display::canvas::Framebuffer;
use cedar_display::canvas::FG_COLOR;
use cedar_display::rotate::rotate_point;
use cedar_display::rotate::RotatedDisplay;
use cedar_display::rotate::Rotation;

#[test]
fn from_degrees_maps_quarter_turns() {
    assert_eq!(Rotation::from_degrees(0), Rotation::Deg0);
    assert_eq!(Rotation::from_degrees(90), Rotation::Deg90);
    assert_eq!(Rotation::from_degrees(180), Rotation::Deg180);
    assert_eq!(Rotation::from_degrees(270), Rotation::Deg270);
    assert_eq!(Rotation::from_degrees(45), Rotation::Deg0);
    assert_eq!(Rotation::from_degrees(360), Rotation::Deg0);
}

#[test]
fn quarter_turn_sends_origin_to_top_right() {
    assert_eq!(rotate_point(Rotation::Deg90, 127, 127, 0, 0), (127, 0));
}

#[test]
fn rotations_map_corners() {
    assert_eq!(rotate_point(Rotation::Deg0, 127, 127, 3, 5), (3, 5));
    assert_eq!(rotate_point(Rotation::Deg180, 127, 127, 0, 0), (127, 127));
    assert_eq!(rotate_point(Rotation::Deg270, 127, 127, 0, 0), (0, 127));
}

#[test]
fn four_quarter_turns_return_home() {
    for &(x, y) in &[(0, 0), (127, 0), (3, 5), (64, 64), (126, 1)] {
        let mut p = (x, y);
        for _ in 0..4 {
            p = rotate_point(Rotation::Deg90, 127, 127, p.0, p.1);
        }
        assert_eq!(p, (x, y));
    }
}

#[test]
fn rotated_display_writes_to_physical_coordinate() {
    let mut disp = RotatedDisplay::new(Framebuffer::new(), Rotation::Deg90);
    disp.draw_pixel(0, 0, FG_COLOR);
    assert_eq!(disp.parent.get_pixel(127, 0), FG_COLOR);
    assert_eq!(disp.parent.get_pixel(0, 0), 0);
}

#[test]
fn rotated_display_drops_out_of_canvas_pixels() {
    let mut disp = RotatedDisplay::new(Framebuffer::new(), Rotation::Deg0);
    disp.draw_pixel(-4, 300, FG_COLOR);
    assert!(disp.parent.as_bytes().iter().all(|&b| b == 0));
}

#[test]
fn set_rotation_changes_mapping() {
    let mut disp = RotatedDisplay::new(Framebuffer::new(), Rotation::Deg0);
    disp.set_rotation(Rotation::Deg180);
    assert_eq!(disp.rotation, Rotation::Deg180);
    disp.draw_pixel(0, 0, FG_COLOR);
    assert_eq!(disp.parent.get_pixel(127, 127), FG_COLOR);
}

#[test]
fn size_swaps_for_quarter_turns() {
    let disp = RotatedDisplay::new(Framebuffer::new(), Rotation::Deg90);
    assert_eq!(disp.size(), (128, 128));
    let disp = RotatedDisplay::new(Framebuffer::new(), Rotation::Deg0);
    assert_eq!(disp.size(), (128, 128));
}
