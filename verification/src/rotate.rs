//! Software rotation of the display: remaps every drawn pixel's logical
//! coordinate to a physical coordinate for 0/90/180/270-degree mounting,
//! so that the renderer always works in the canonical, unrotated canvas
//! coordinate space.

use vstd::prelude::*;

use crate::canvas::Framebuffer;

verus! {

/// Clockwise rotation of the physical display relative to the canonical
/// canvas orientation.
#[derive(Copy, Clone, Debug, PartialEq, Eq, Structural)]
pub enum Rotation {
    Deg0,
    Deg90,
    Deg180,
    Deg270,
}

impl Rotation {
    /// Maps a rotation given in degrees to a `Rotation`; any value other
    /// than 90, 180 or 270 means no rotation.
    pub fn from_degrees(deg: u16) -> (r: Rotation)
        ensures
            deg == 90 ==> r == Rotation::Deg90,
            deg == 180 ==> r == Rotation::Deg180,
            deg == 270 ==> r == Rotation::Deg270,
            deg != 90 && deg != 180 && deg != 270 ==> r == Rotation::Deg0,
    {
        match deg {
            90 => Rotation::Deg90,
            180 => Rotation::Deg180,
            270 => Rotation::Deg270,
            _ => Rotation::Deg0,
        }
    }
}

/// Where a logical coordinate lands on a parent whose largest coordinates
/// are `max_x` and `max_y`, under each clockwise rotation.
pub open spec fn spec_rotate_point(
    rotation: Rotation,
    max_x: int,
    max_y: int,
    x: int,
    y: int,
) -> (int, int) {
    match rotation {
        Rotation::Deg0 => (x, y),
        Rotation::Deg90 => (max_x - y, x),
        Rotation::Deg180 => (max_x - x, max_y - y),
        Rotation::Deg270 => (y, max_y - x),
    }
}

/// Remaps one logical pixel coordinate to the physical coordinate under
/// the given rotation. The bounds only keep the arithmetic inside `i32`;
/// out-of-canvas coordinates pass through and are dropped later by the
/// bounds-checked canvas write.
pub fn rotate_point(rotation: Rotation, max_x: i32, max_y: i32, x: i32, y: i32) -> (r: (i32, i32))
    requires
        0 <= max_x <= 0x10000,
        0 <= max_y <= 0x10000,
        -0x10000 <= x <= 0x10000,
        -0x10000 <= y <= 0x10000,
    ensures
        (r.0 as int, r.1 as int) == spec_rotate_point(rotation, max_x as int, max_y as int, x as int, y as int),
{
    match rotation {
        Rotation::Deg0 => (x, y),
        Rotation::Deg90 => (max_x - y, x),
        Rotation::Deg180 => (max_x - x, max_y - y),
        Rotation::Deg270 => (y, max_y - x),
    }
}

/// One quarter turn clockwise on a square parent whose largest coordinate
/// is `m` on both axes.
pub open spec fn spec_quarter_turn(m: int, p: (int, int)) -> (int, int) {
    spec_rotate_point(Rotation::Deg90, m, m, p.0, p.1)
}

/// Law: on a square canvas, four successive 90-degree rotations return
/// every pixel to its original coordinate.
pub proof fn lemma_rotation_round_trip(m: int, x: int, y: int)
    ensures
        spec_quarter_turn(
            m,
            spec_quarter_turn(m, spec_quarter_turn(m, spec_quarter_turn(m, (x, y)))),
        ) == (x, y),
{
}

/// Wraps a canvas target and rotates every drawn pixel into it.
#[derive(Debug, Clone)]
pub struct RotatedDisplay<D> {
    pub parent: D,
    pub rotation: Rotation,
}

impl<D> RotatedDisplay<D> {
    pub fn new(parent: D, rotation: Rotation) -> (r: RotatedDisplay<D>)
        ensures
            r.parent == parent,
            r.rotation == rotation,
    {
        RotatedDisplay { parent, rotation }
    }

    pub fn set_rotation(&mut self, rotation: Rotation)
        ensures
            final(self).parent == old(self).parent,
            final(self).rotation == rotation,
    {
        self.rotation = rotation;
    }

}

impl RotatedDisplay<Framebuffer> {
    /// The dimensions seen by the renderer: the parent's, with the axes
    /// swapped for quarter turns — which leaves them unchanged on the
    /// square canvas.
    pub fn size(&self) -> (r: (u32, u32))
        ensures
            r == (128u32, 128u32),
    {
        let (w, h) = self.parent.size();
        match self.rotation {
            Rotation::Deg0 | Rotation::Deg180 => (w, h),
            Rotation::Deg90 | Rotation::Deg270 => (h, w),
        }
    }

    /// Draws one pixel given in logical coordinates: the coordinate is
    /// rotated onto the parent, whose own bounds check then drops anything
    /// that falls outside the canvas.
    pub fn draw_pixel(&mut self, x: i32, y: i32, color: u16)
        requires
            old(self).parent.wf(),
            -0x10000 <= x <= 0x10000,
            -0x10000 <= y <= 0x10000,
        ensures
            final(self).parent.wf(),
            final(self).rotation == old(self).rotation,
            ({
                let p = spec_rotate_point(old(self).rotation, 127, 127, x as int, y as int);
                if 0 <= p.0 < 128 && 0 <= p.1 < 128 {
                    final(self).parent@ == old(self).parent@.update(p.1 * 128 + p.0, color)
                } else {
                    final(self).parent@ == old(self).parent@
                }
            }),
    {
        let (px, py) = rotate_point(self.rotation, 127, 127, x, y);
        self.parent.set_pixel(px, py, color);
    }
}

} // verus!
