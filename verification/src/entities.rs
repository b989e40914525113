use vstd::prelude::*;

use crate::geometry::{Orientation, Rect};

verus! {

/// The ball: a rectangle plus a 2-component integer velocity. In this
/// design each component is always +1 or -1; reflection only ever negates a
/// component, never scales or zeroes it.
#[derive(Clone, Copy, PartialEq, Eq, Structural, Debug)]
pub struct Ball {
    pub model: Rect,
    pub dx: i32,
    pub dy: i32,
}

/// A border wall: a rectangle plus the orientation of the face it presents
/// to the field. A vertical wall constrains horizontal motion; a horizontal
/// wall constrains vertical motion. Walls are immutable after construction.
#[derive(Clone, Copy, PartialEq, Eq, Structural, Debug)]
pub struct Wall {
    pub model: Rect,
    pub orientation: Orientation,
}

/// A brick: a bare rectangle. A destroyed brick is not removed from the
/// fixed-size collection holding it; it is relocated to a fixed off-field
/// position where it never collides and never renders visibly again.
#[derive(Clone, Copy, PartialEq, Eq, Structural, Debug)]
pub struct Brick {
    pub model: Rect,
}

/// Both velocity components are +1 or -1: the ball never stops moving on
/// either axis.
pub open spec fn ball_wf(b: Ball) -> bool {
    &&& (b.dx == 1 || b.dx == -1)
    &&& (b.dy == 1 || b.dy == -1)
}

/// The fixed off-field sentinel position of a destroyed brick.
pub open spec fn off_field(b: Brick) -> bool {
    b.model.x == -32 && b.model.y == -32
}

/// What `Brick::explode` leaves behind: the same brick relocated to the
/// off-field sentinel position, size and color untouched.
pub open spec fn exploded(b: Brick) -> Brick {
    Brick {
        model: Rect {
            x: -32i32,
            y: -32i32,
            width: b.model.width,
            height: b.model.height,
            colors: b.model.colors,
        },
    }
}

impl Brick {
    /// A brick in normal orientation (wider than tall) on grid cell
    /// `(x, y)`: cells are spaced 5 units apart on both axes, offset by a
    /// fixed 2-unit margin from the field origin.
    pub fn new(x: i32, y: i32) -> (b: Brick)
        requires
            i32::MIN <= x * 5 && x * 5 + 2 <= i32::MAX,
            i32::MIN <= y * 5 && y * 5 + 2 <= i32::MAX,
        ensures
            b.model.x == x * 5 + 2,
            b.model.y == y * 5 + 2,
            b.model.width == 9,
            b.model.height == 4,
            b.model.colors == 0x32,
    {
        Brick {
            model: Rect { x: x * (4 + 1) + 2, y: y * (4 + 1) + 2, width: 8 + 1, height: 4, colors: 0x32 },
        }
    }

    /// A brick in rotated orientation (taller than wide) on grid cell
    /// `(x, y)`, with the same 5-unit spacing and 2-unit margin.
    pub fn new_vert(x: i32, y: i32) -> (b: Brick)
        requires
            i32::MIN <= x * 5 && x * 5 + 2 <= i32::MAX,
            i32::MIN <= y * 5 && y * 5 + 2 <= i32::MAX,
        ensures
            b.model.x == x * 5 + 2,
            b.model.y == y * 5 + 2,
            b.model.width == 4,
            b.model.height == 9,
            b.model.colors == 0x32,
    {
        Brick {
            model: Rect { x: x * (4 + 1) + 2, y: y * (4 + 1) + 2, width: 4, height: 8 + 1, colors: 0x32 },
        }
    }

    /// Destroys the brick by relocating it to the fixed off-field sentinel
    /// position. The brick stays in its storage slot forever.
    pub fn explode(&mut self)
        ensures
            *final(self) == exploded(*old(self)),
            off_field(*final(self)),
    {
        self.model.x = -32;
        self.model.y = -32;
    }
}

/// Exploding is idempotent: a brick that is already off-field stays exactly
/// where it is when exploded again, and an exploded brick is always
/// off-field — it never reappears.
pub proof fn lemma_explode_idempotent(b: Brick)
    ensures
        exploded(exploded(b)) == exploded(b),
        off_field(exploded(b)),
        off_field(b) ==> exploded(b) == b,
{
}

} // verus!
