//! Overlap of axis-aligned boxes, the side on which two boxes meet, and the
//! reflection that follows from it.

use vstd::prelude::*;
use crate::vector::{Vec2, Vector};

verus! {

/// The side of the second box on which the first box meets it.
#[derive(Clone, Copy, Debug, PartialEq, Eq, Structural)]
pub enum Collision {
    Left,
    Right,
    Top,
    Bottom,
    Inside,
}

/// An axis-aligned box: `size` is its full width and height, and it reaches
/// half of that from `center` in each direction. Both are counted in
/// lattice steps.
///
/// A box of odd size has edges halfway between two lattice points. To stay
/// within the integers, the edge functions below give twice the coordinate
/// of each edge.
pub struct Rect {
    pub center: Vector,
    pub size: Vector,
}

impl Rect {
    /// Twice the x coordinate of the left edge.
    pub open spec fn left(self) -> int {
        2 * self.center.x - self.size.x
    }

    /// Twice the x coordinate of the right edge.
    pub open spec fn right(self) -> int {
        2 * self.center.x + self.size.x
    }

    /// Twice the y coordinate of the bottom edge.
    pub open spec fn bottom(self) -> int {
        2 * self.center.y - self.size.y
    }

    /// Twice the y coordinate of the top edge.
    pub open spec fn top(self) -> int {
        2 * self.center.y + self.size.y
    }

    /// The two boxes share interior points. Boxes that only touch along an
    /// edge do not overlap.
    pub open spec fn overlaps(self, other: Rect) -> bool {
        &&& self.left() < other.right()
        &&& self.right() > other.left()
        &&& self.bottom() < other.top()
        &&& self.top() > other.bottom()
    }

    /// No edge of `self` lies outside `outer`.
    pub open spec fn within(self, outer: Rect) -> bool {
        &&& outer.left() <= self.left()
        &&& self.right() <= outer.right()
        &&& outer.bottom() <= self.bottom()
        &&& self.top() <= outer.top()
    }
}

/// Contact along the x axis: `a` reaches over exactly one vertical edge of
/// `b`. The result names that edge and gives twice the depth by which `a`
/// has passed it. `None` when `a` reaches over neither edge or over both.
pub open spec fn horizontal_contact(a: Rect, b: Rect) -> Option<(Collision, int)> {
    if a.left() < b.left() && b.left() < a.right() && a.right() < b.right() {
        Some((Collision::Left, a.right() - b.left()))
    } else if b.left() < a.left() && a.left() < b.right() && b.right() < a.right() {
        Some((Collision::Right, b.right() - a.left()))
    } else {
        None
    }
}

/// Contact along the y axis: `a` reaches over exactly one horizontal edge of
/// `b`. The result names that edge and gives twice the depth by which `a`
/// has passed it. `None` when `a` reaches over neither edge or over both.
pub open spec fn vertical_contact(a: Rect, b: Rect) -> Option<(Collision, int)> {
    if a.bottom() < b.bottom() && b.bottom() < a.top() && a.top() < b.top() {
        Some((Collision::Bottom, a.top() - b.bottom()))
    } else if b.bottom() < a.bottom() && a.bottom() < b.top() && b.top() < a.top() {
        Some((Collision::Top, b.top() - a.bottom()))
    } else {
        None
    }
}

/// The side of `b` on which `a` meets it, or `None` when the boxes do not
/// overlap.
///
/// Of the contacts along the two axes the shallower one decides. When both
/// are equally deep the horizontal one decides, so a ball that enters a
/// corner exactly along the diagonal is turned back sideways. When there is
/// a contact along one axis only, that one decides, and when there is none
/// the result is `Inside`.
pub open spec fn classify(a: Rect, b: Rect) -> Option<Collision> {
    if !a.overlaps(b) {
        None
    } else {
        Some(
            match (horizontal_contact(a, b), vertical_contact(a, b)) {
                (Some((side_x, depth_x)), Some((side_y, depth_y))) => if depth_y < depth_x {
                    side_y
                } else {
                    side_x
                },
                (Some((side_x, _)), None) => side_x,
                (None, Some((side_y, _))) => side_y,
                (None, None) => Collision::Inside,
            },
        )
    }
}

/// Tests the box of size `a_size` centred at `a_pos` against the box of size
/// `b_size` centred at `b_pos`, and names the side of the second box that
/// the first one meets.
pub fn collide(a_pos: Vec2, a_size: Vec2, b_pos: Vec2, b_size: Vec2) -> (hit: Option<Collision>)
    ensures
        hit == classify(
            Rect { center: a_pos@, size: a_size@ },
            Rect { center: b_pos@, size: b_size@ },
        ),
{
    let a_left: i128 = 2 * (a_pos.x as i128) - (a_size.x as i128);
    let a_right: i128 = 2 * (a_pos.x as i128) + (a_size.x as i128);
    let a_bottom: i128 = 2 * (a_pos.y as i128) - (a_size.y as i128);
    let a_top: i128 = 2 * (a_pos.y as i128) + (a_size.y as i128);
    let b_left: i128 = 2 * (b_pos.x as i128) - (b_size.x as i128);
    let b_right: i128 = 2 * (b_pos.x as i128) + (b_size.x as i128);
    let b_bottom: i128 = 2 * (b_pos.y as i128) - (b_size.y as i128);
    let b_top: i128 = 2 * (b_pos.y as i128) + (b_size.y as i128);

    if !(a_left < b_right && a_right > b_left && a_bottom < b_top && a_top > b_bottom) {
        return None;
    }
    let across: Option<(Collision, i128)> = if a_left < b_left && b_left < a_right && a_right
        < b_right {
        Some((Collision::Left, a_right - b_left))
    } else if b_left < a_left && a_left < b_right && b_right < a_right {
        Some((Collision::Right, b_right - a_left))
    } else {
        None
    };
    let along: Option<(Collision, i128)> = if a_bottom < b_bottom && b_bottom < a_top && a_top
        < b_top {
        Some((Collision::Bottom, a_top - b_bottom))
    } else if b_bottom < a_bottom && a_bottom < b_top && b_top < a_top {
        Some((Collision::Top, b_top - a_bottom))
    } else {
        None
    };
    let side = match (across, along) {
        (Some((side_x, depth_x)), Some((side_y, depth_y))) => if depth_y < depth_x {
            side_y
        } else {
            side_x
        },
        (Some((side_x, _)), None) => side_x,
        (None, Some((side_y, _))) => side_y,
        (None, None) => Collision::Inside,
    };
    Some(side)
}

/// The velocity with which a ball that moved at `v` leaves a contact: turned
/// back along x after a hit on a left or right side, along y after a hit on
/// a top or bottom side, and unchanged otherwise.
pub open spec fn reflected(v: Vector, hit: Option<Collision>) -> Vector {
    match hit {
        Some(Collision::Left) | Some(Collision::Right) => v.flipped_x(),
        Some(Collision::Top) | Some(Collision::Bottom) => v.flipped_y(),
        Some(Collision::Inside) | None => v,
    }
}

/// Applies the response to `hit` to the velocity `v`.
pub fn reflect(v: Vec2, hit: Option<Collision>) -> (r: Vec2)
    requires
        i64::MIN < v.x,
        i64::MIN < v.y,
    ensures
        r@ == reflected(v@, hit),
        i64::MIN < r.x,
        i64::MIN < r.y,
{
    match hit {
        Some(Collision::Left) | Some(Collision::Right) => Vec2 { x: -v.x, y: v.y },
        Some(Collision::Top) | Some(Collision::Bottom) => Vec2 { x: v.x, y: -v.y },
        Some(Collision::Inside) | None => v,
    }
}

} // verus!
