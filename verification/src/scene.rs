//! The renderer's scene bookkeeping: the grid of cube instances and the
//! state of the drawing surface.
use vstd::prelude::*;

verus! {

/// Instances along each side of the square grid.
pub const INSTANCES_PER_ROW: u32 = 10;

/// The position of a cube instance; all coordinates of the grid are whole numbers.
#[derive(Clone, Copy, Debug, PartialEq, Eq, Structural)]
pub struct InstancePosition {
    pub x: i32,
    pub y: i32,
    pub z: i32,
}

/// The position of the instance in row `z` and column `x`: two units apart,
/// centred by subtracting half a row length.
pub open spec fn grid_position(x: int, z: int) -> InstancePosition {
    InstancePosition { x: (2 * x - INSTANCES_PER_ROW / 2) as i32, y: 0, z: (2 * z - INSTANCES_PER_ROW / 2) as i32 }
}

/// The instance positions, row by row (`z` outer, `x` inner).
pub fn instance_positions() -> (v: Vec<InstancePosition>)
    ensures
        v@.len() == 100,
        forall|z: int, x: int|
            0 <= z < 10 && 0 <= x < 10 ==> #[trigger] v@[z * 10 + x] == grid_position(x, z),
{
    let mut v: Vec<InstancePosition> = Vec::new();
    let mut z: u32 = 0;
    while z < INSTANCES_PER_ROW
        invariant
            z <= 10,
            v@.len() == z * 10,
            forall|zz: int, xx: int|
                0 <= zz < z && 0 <= xx < 10 ==> #[trigger] v@[zz * 10 + xx] == grid_position(xx, zz),
        decreases 10 - z,
    {
        let mut x: u32 = 0;
        while x < INSTANCES_PER_ROW
            invariant
                z < 10,
                x <= 10,
                v@.len() == z * 10 + x,
                forall|zz: int, xx: int|
                    0 <= zz < z && 0 <= xx < 10 ==> #[trigger] v@[zz * 10 + xx] == grid_position(xx, zz),
                forall|xx: int| 0 <= xx < x ==> #[trigger] v@[z * 10 + xx] == grid_position(xx, z as int),
            decreases 10 - x,
        {
            let half: i32 = 5;
            let px = 2 * (x as i32) - half;
            let pz = 2 * (z as i32) - half;
            v.push(InstancePosition { x: px, y: 0, z: pz });
            x = x + 1;
        }
        z = z + 1;
    }
    v
}

/// No instance sits at the origin (so each has a well-defined direction to
/// rotate about), and no two instances share a position.
pub proof fn lemma_grid_positions_distinct_and_off_origin(x1: int, z1: int, x2: int, z2: int)
    requires
        0 <= x1 < 10,
        0 <= z1 < 10,
        0 <= x2 < 10,
        0 <= z2 < 10,
    ensures
        grid_position(x1, z1) != (InstancePosition { x: 0, y: 0, z: 0 }),
        grid_position(x1, z1) == grid_position(x2, z2) ==> x1 == x2 && z1 == z2,
{
}

/// The size of the drawing surface and whether it has been configured.
pub struct Surface {
    width: u32,
    height: u32,
    configured: bool,
}

impl Surface {
    /// A configured surface always has a positive size.
    #[verifier::type_invariant]
    spec fn wf(self) -> bool {
        self.configured ==> self.width > 0 && self.height > 0
    }

    /// The surface's width.
    pub closed spec fn spec_width(self) -> u32 {
        self.width
    }

    /// The surface's height.
    pub closed spec fn spec_height(self) -> u32 {
        self.height
    }

    /// Whether the surface has been configured.
    pub closed spec fn is_configured(self) -> bool {
        self.configured
    }

    /// A surface of the given size that has not been configured yet.
    pub fn new(width: u32, height: u32) -> (s: Self)
        ensures
            s.spec_width() == width,
            s.spec_height() == height,
            !s.is_configured(),
    {
        Surface { width, height, configured: false }
    }

    /// Takes a new window size. A size with a zero side (a minimised window)
    /// leaves the surface as it was; any other size is taken and the surface
    /// counts as configured. Returns whether the surface must be configured
    /// again.
    pub fn resize(&mut self, width: u32, height: u32) -> (reconfigure: bool)
        ensures
            reconfigure == (width > 0 && height > 0),
            reconfigure ==> final(self).spec_width() == width && final(self).spec_height() == height
                && final(self).is_configured(),
            !reconfigure ==> final(self).spec_width() == old(self).spec_width()
                && final(self).spec_height() == old(self).spec_height()
                && final(self).is_configured() == old(self).is_configured(),
    {
        if width > 0 && height > 0 {
            *self = Surface { width, height, configured: true };
            true
        } else {
            false
        }
    }

    /// Whether a frame is drawn: only once the surface is configured, and a
    /// configured surface always has a positive size.
    pub fn should_render(&self) -> (r: bool)
        ensures
            r == self.is_configured(),
            r ==> self.spec_width() > 0 && self.spec_height() > 0,
    {
        proof {
            use_type_invariant(self);
        }
        self.configured
    }

    /// The surface's width.
    pub fn width(&self) -> (w: u32)
        ensures
            w == self.spec_width(),
    {
        self.width
    }

    /// The surface's height.
    pub fn height(&self) -> (h: u32)
        ensures
            h == self.spec_height(),
    {
        self.height
    }
}

} // verus!
