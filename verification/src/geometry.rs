use vstd::prelude::*;

verus! {

/// Classifies which face of a rectangle a collision is deemed to have
/// struck: a vertical face (left or right edge) or a horizontal face
/// (top or bottom edge). This determines which velocity axis a ball
/// reflects on.
#[derive(Clone, Copy, PartialEq, Eq, Structural, Debug)]
pub enum Orientation {
    Vertical,
    Horizontal,
}

/// Axis-aligned rectangle: signed top-left position, unsigned size, and an
/// opaque display-color selector for the host's draw-color register.
#[derive(Clone, Copy, PartialEq, Eq, Structural, Debug)]
pub struct Rect {
    pub x: i32,
    pub y: i32,
    pub width: u32,
    pub height: u32,
    pub colors: u16,
}

/// One filled-rectangle draw request for the host drawing surface:
/// the color to load into the draw-color register, then the shape.
#[derive(Clone, Copy, PartialEq, Eq, Structural, Debug)]
pub struct DrawCommand {
    pub colors: u16,
    pub x: i32,
    pub y: i32,
    pub width: u32,
    pub height: u32,
}

/// Standard AABB overlap: the boxes overlap on both axes, with strict
/// inequality on all four half-plane comparisons, so rectangles that merely
/// touch along an edge do not overlap.
pub open spec fn overlaps(a: Rect, b: Rect) -> bool {
    &&& a.x < b.x + b.width
    &&& a.x + a.width > b.x
    &&& a.y < b.y + b.height
    &&& a.y + a.height > b.y
}

/// The tie-break that classifies an overlap as a hit on a vertical face:
/// the receiver's right edge, pulled in by a fixed 2-unit margin, lies left
/// of the other's left edge, or symmetrically with the roles swapped.
pub open spec fn vertical_hit(a: Rect, b: Rect) -> bool {
    ||| a.x + a.width - 2 < b.x
    ||| b.x + b.width - 2 < a.x
}

/// What `Rect::collision` returns: nothing without an overlap, otherwise
/// `Vertical` when the margin tie-break holds and `Horizontal` when not.
pub open spec fn classify(a: Rect, b: Rect) -> Option<Orientation> {
    if !overlaps(a, b) {
        None
    } else if vertical_hit(a, b) {
        Some(Orientation::Vertical)
    } else {
        Some(Orientation::Horizontal)
    }
}

/// The draw request that renders a rectangle: its color selector, position
/// and size, unchanged.
pub open spec fn draw_of(r: Rect) -> DrawCommand {
    DrawCommand { colors: r.colors, x: r.x, y: r.y, width: r.width, height: r.height }
}

impl Rect {
    /// Translates the position by the given deltas. No bounds checking:
    /// callers are responsible for keeping entities inside the field.
    pub fn shift(&mut self, dx: i32, dy: i32)
        requires
            i32::MIN <= old(self).x + dx <= i32::MAX,
            i32::MIN <= old(self).y + dy <= i32::MAX,
        ensures
            final(self).x == old(self).x + dx,
            final(self).y == old(self).y + dy,
            final(self).width == old(self).width,
            final(self).height == old(self).height,
            final(self).colors == old(self).colors,
    {
        self.x += dx;
        self.y += dy;
    }

    /// True iff the two bounding boxes overlap on both axes; edge-touching
    /// counts as non-colliding.
    pub fn collides(&self, other: &Rect) -> (r: bool)
        ensures
            r == overlaps(*self, *other),
    {
        (self.x as i64) < (other.x as i64) + (other.width as i64)
            && (self.x as i64) + (self.width as i64) > (other.x as i64)
            && (self.y as i64) < (other.y as i64) + (other.height as i64)
            && (self.y as i64) + (self.height as i64) > (other.y as i64)
    }

    /// Classifies a collision with `other`: `None` when the boxes do not
    /// overlap, otherwise the orientation of the face deemed struck, by the
    /// fixed 2-unit margin tie-break. The margin heuristic can misclassify
    /// corner hits; that is part of the design and kept as is.
    pub fn collision(&self, other: &Rect) -> (r: Option<Orientation>)
        ensures
            r == classify(*self, *other),
    {
        if !self.collides(other) {
            None
        } else if (self.x as i64) + (self.width as i64) - 2 < (other.x as i64)
            || (other.x as i64) + (other.width as i64) - 2 < (self.x as i64) {
            Some(Orientation::Vertical)
        } else {
            Some(Orientation::Horizontal)
        }
    }

    /// The draw request for this rectangle; the host issues it as a color
    /// register load followed by a filled-rectangle draw.
    pub fn render(&self) -> (c: DrawCommand)
        ensures
            c == draw_of(*self),
    {
        DrawCommand { colors: self.colors, x: self.x, y: self.y, width: self.width, height: self.height }
    }
}

/// Rectangles that share exactly a boundary line on some side do not
/// overlap: edge-touching is non-colliding.
pub proof fn lemma_edge_touching_does_not_collide(a: Rect, b: Rect)
    requires
        a.x + a.width == b.x || b.x + b.width == a.x || a.y + a.height == b.y || b.y + b.height
            == a.y,
    ensures
        !overlaps(a, b),
{
}

/// Every colliding pair is classified: whenever two rectangles overlap,
/// `collision` returns a defined orientation, never `None`.
pub proof fn lemma_collision_defined(a: Rect, b: Rect)
    ensures
        overlaps(a, b) <==> classify(a, b) is Some,
{
}

} // verus!
