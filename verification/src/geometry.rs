//! Axis-aligned rectangles: the overlap test and the overlap rectangle.

use vstd::prelude::*;

verus! {

/// An axis-aligned rectangle, given by its top-left corner and its size.
#[derive(Clone, Copy, Debug, PartialEq, Eq, Structural)]
pub struct Rectangle {
    pub x: i64,
    pub y: i64,
    pub width: i64,
    pub height: i64,
}

impl Rectangle {
    /// The coordinate just past the right edge.
    pub open spec fn right(self) -> int {
        self.x + self.width
    }

    /// The coordinate just past the bottom edge.
    pub open spec fn bottom(self) -> int {
        self.y + self.height
    }

    /// Width times height.
    pub open spec fn area(self) -> int {
        self.width * self.height
    }

    /// Both sides are longer than zero.
    pub open spec fn is_solid(self) -> bool {
        self.width > 0 && self.height > 0
    }

    /// Whether width times height is positive: the test by which a caller
    /// tells an overlap rectangle from an empty one.
    pub fn has_area(&self) -> (r: bool)
        ensures
            r == (self.area() > 0),
    {
        let w: i64 = self.width;
        let h: i64 = self.height;
        proof {
            assert((w > 0 && h > 0) || (w < 0 && h < 0) <==> w * h > 0) by (nonlinear_arith);
        }
        (w > 0 && h > 0) || (w < 0 && h < 0)
    }
}

/// Two rectangles overlap when neither lies wholly to one side of the other;
/// rectangles that only touch along an edge do not overlap.
pub open spec fn overlaps(a: Rectangle, b: Rectangle) -> bool {
    &&& a.x < b.right()
    &&& a.right() > b.x
    &&& a.y < b.bottom()
    &&& a.bottom() > b.y
}

/// Left edge of the region common to both rectangles.
pub open spec fn common_left(a: Rectangle, b: Rectangle) -> int {
    if a.x > b.x { a.x as int } else { b.x as int }
}

/// Right edge of the region common to both rectangles.
pub open spec fn common_right(a: Rectangle, b: Rectangle) -> int {
    if a.right() < b.right() { a.right() } else { b.right() }
}

/// Top edge of the region common to both rectangles.
pub open spec fn common_top(a: Rectangle, b: Rectangle) -> int {
    if a.y > b.y { a.y as int } else { b.y as int }
}

/// Bottom edge of the region common to both rectangles.
pub open spec fn common_bottom(a: Rectangle, b: Rectangle) -> int {
    if a.bottom() < b.bottom() { a.bottom() } else { b.bottom() }
}

/// The rectangle common to both, or the rectangle of four zeros where the
/// two have no region of positive size in common.
pub open spec fn intersection(a: Rectangle, b: Rectangle) -> Rectangle {
    if common_left(a, b) < common_right(a, b) && common_top(a, b) < common_bottom(a, b) {
        Rectangle {
            x: common_left(a, b) as i64,
            y: common_top(a, b) as i64,
            width: (common_right(a, b) - common_left(a, b)) as i64,
            height: (common_bottom(a, b) - common_top(a, b)) as i64,
        }
    } else {
        Rectangle { x: 0, y: 0, width: 0, height: 0 }
    }
}

/// Tells whether two rectangles overlap.
pub fn check_collision_recs(rec1: Rectangle, rec2: Rectangle) -> (r: bool)
    ensures
        r == overlaps(rec1, rec2),
{
    let right1: i128 = rec1.x as i128 + rec1.width as i128;
    let right2: i128 = rec2.x as i128 + rec2.width as i128;
    let bottom1: i128 = rec1.y as i128 + rec1.height as i128;
    let bottom2: i128 = rec2.y as i128 + rec2.height as i128;
    (rec1.x as i128) < right2 && right1 > rec2.x as i128 && (rec1.y as i128) < bottom2
        && bottom1 > rec2.y as i128
}

/// Computes the rectangle in which two rectangles overlap.
pub fn get_collision_recs(rec1: Rectangle, rec2: Rectangle) -> (r: Rectangle)
    ensures
        r == intersection(rec1, rec2),
{
    let left: i64 = if rec1.x > rec2.x { rec1.x } else { rec2.x };
    let top: i64 = if rec1.y > rec2.y { rec1.y } else { rec2.y };
    let right1: i128 = rec1.x as i128 + rec1.width as i128;
    let right2: i128 = rec2.x as i128 + rec2.width as i128;
    let right: i128 = if right1 < right2 { right1 } else { right2 };
    let bottom1: i128 = rec1.y as i128 + rec1.height as i128;
    let bottom2: i128 = rec2.y as i128 + rec2.height as i128;
    let bottom: i128 = if bottom1 < bottom2 { bottom1 } else { bottom2 };
    if (left as i128) < right && (top as i128) < bottom {
        Rectangle {
            x: left,
            y: top,
            width: (right - left as i128) as i64,
            height: (bottom - top as i128) as i64,
        }
    } else {
        Rectangle { x: 0, y: 0, width: 0, height: 0 }
    }
}

/// The overlap test depends on nothing but the two rectangles, and does not
/// care in which order they are given.
pub proof fn lemma_overlaps_symmetric(a: Rectangle, b: Rectangle)
    ensures
        overlaps(a, b) == overlaps(b, a),
{
}

/// The overlap rectangle of `a` and `b` is that of `b` and `a`.
pub proof fn lemma_intersection_symmetric(a: Rectangle, b: Rectangle)
    ensures
        intersection(a, b) == intersection(b, a),
{
}

/// The overlap rectangle is either solid or the rectangle of four zeros, so
/// it has a positive area exactly when it is solid.
pub proof fn lemma_intersection_area(a: Rectangle, b: Rectangle)
    ensures
        intersection(a, b).area() > 0 <==> intersection(a, b).is_solid(),
        intersection(a, b).area() > 0 <==> (common_left(a, b) < common_right(a, b)
            && common_top(a, b) < common_bottom(a, b)),
        !intersection(a, b).is_solid() ==> intersection(a, b) == (Rectangle {
            x: 0,
            y: 0,
            width: 0,
            height: 0,
        }),
{
    let r = intersection(a, b);
    let w: int = r.width as int;
    let h: int = r.height as int;
    assert((w > 0 && h > 0) ==> w * h > 0) by (nonlinear_arith);
    assert((w == 0 || h == 0) ==> w * h == 0) by (nonlinear_arith);
}

/// For two solid rectangles the overlap test and the area of the overlap
/// rectangle agree.
pub proof fn lemma_overlaps_iff_area(a: Rectangle, b: Rectangle)
    requires
        a.is_solid(),
        b.is_solid(),
    ensures
        overlaps(a, b) <==> intersection(a, b).area() > 0,
{
    lemma_intersection_area(a, b);
}

} // verus!
