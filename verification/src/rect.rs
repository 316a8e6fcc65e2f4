//! Points, extents and axis-aligned rectangles over integers.

use vstd::prelude::*;

verus! {

/// A position in the plane.
#[derive(Clone, Copy, Debug, PartialEq, Eq)]
pub struct Point2<T> {
    pub x: T,
    pub y: T,
}

/// A displacement or an extent in the plane.
#[derive(Clone, Copy, Debug, PartialEq, Eq)]
pub struct Vector2<T> {
    pub x: T,
    pub y: T,
}

/// An axis-aligned rectangle, given by two opposite corners.
#[derive(Clone, Copy, Debug, PartialEq, Eq)]
pub struct Rect<T> {
    pub start: Point2<T>,
    pub end: Point2<T>,
}

/// Casts both components of an extent to `i32`.
///
/// Calls `cgmath::Vector2::cast`, which casts each component with
/// `num_traits::NumCast::from`. For `u32` to `i32` that cast gives the same
/// number when it is at most `i32::MAX` and nothing otherwise, and the vector
/// cast gives nothing as soon as one component does.
#[verifier::external_body]
fn cast_extent(extent: Vector2<u32>) -> (cast: Option<Vector2<i32>>)
    ensures
        cast == extent.spec_cast(),
{
    match cgmath::Vector2::new(extent.x, extent.y).cast::<i32>() {
        Some(v) => Some(Vector2 { x: v.x, y: v.y }),
        None => None,
    }
}

/// Casts both coordinates of a point to `u32`.
///
/// Calls `cgmath::Point2::cast`, which casts each coordinate with
/// `num_traits::NumCast::from`. For `i32` to `u32` that cast gives the same
/// number when it is not negative and nothing otherwise, and the point cast
/// gives nothing as soon as one coordinate does.
#[verifier::external_body]
fn cast_point(point: Point2<i32>) -> (cast: Option<Point2<u32>>)
    ensures
        cast == point.spec_cast(),
{
    match cgmath::Point2::new(point.x, point.y).cast::<u32>() {
        Some(p) => Some(Point2 { x: p.x, y: p.y }),
        None => None,
    }
}

impl Point2<i32> {
    /// The point `(0, 0)`.
    pub fn origin() -> (point: Self)
        ensures
            point == (Point2 { x: 0i32, y: 0i32 }),
    {
        Point2 { x: 0, y: 0 }
    }

    /// The point at the tip of `vector` when its tail is at the origin.
    pub fn from_vec(vector: Vector2<i32>) -> (point: Self)
        ensures
            point == (Point2 { x: vector.x, y: vector.y }),
    {
        Point2 { x: vector.x, y: vector.y }
    }

    /// The same point over `u32`, if neither coordinate is negative.
    pub open spec fn spec_cast(self) -> Option<Point2<u32>> {
        if self.x >= 0 && self.y >= 0 {
            Some(Point2 { x: self.x as u32, y: self.y as u32 })
        } else {
            None
        }
    }

    /// The same point over `u32`, if neither coordinate is negative.
    pub fn cast(&self) -> (cast: Option<Point2<u32>>)
        ensures
            cast == self.spec_cast(),
    {
        cast_point(*self)
    }
}

impl Vector2<u32> {
    /// Whether both components can be handed to the device, which takes
    /// extents as `i32`.
    pub open spec fn fits_i32(self) -> bool {
        self.x <= i32::MAX && self.y <= i32::MAX
    }

    /// Tells whether both components can be handed to the device.
    pub fn is_fit(&self) -> (fit: bool)
        ensures
            fit == self.fits_i32(),
    {
        self.x <= i32::MAX as u32 && self.y <= i32::MAX as u32
    }

    /// The same extent over `i32`, if both components fit.
    pub open spec fn spec_cast(self) -> Option<Vector2<i32>> {
        if self.fits_i32() {
            Some(Vector2 { x: self.x as i32, y: self.y as i32 })
        } else {
            None
        }
    }

    /// The same extent over `i32`, if both components fit.
    pub fn cast(&self) -> (cast: Option<Vector2<i32>>)
        ensures
            cast == self.spec_cast(),
    {
        cast_extent(*self)
    }
}

impl<T> Rect<T> {
    pub fn new(start: Point2<T>, end: Point2<T>) -> (rect: Self)
        ensures
            rect.start == start,
            rect.end == end,
    {
        Rect { start, end }
    }
}

impl Rect<i32> {
    /// The rectangle from the origin to `(extent.x, extent.y)`.
    pub open spec fn from_extent(extent: Vector2<u32>) -> Rect<i32> {
        Rect {
            start: Point2 { x: 0i32, y: 0i32 },
            end: Point2 { x: extent.x as i32, y: extent.y as i32 },
        }
    }

    /// Whether `self` is the bounding box of `points`: every point lies
    /// inside, and each side touches a point.
    pub open spec fn bounds(self, points: Seq<Point2<i32>>) -> bool {
        &&& forall|i: int|
            0 <= i < points.len() ==> self.start.x <= (#[trigger] points[i]).x <= self.end.x
                && self.start.y <= points[i].y <= self.end.y
        &&& exists|i: int| 0 <= i < points.len() && (#[trigger] points[i]).x == self.start.x
        &&& exists|i: int| 0 <= i < points.len() && (#[trigger] points[i]).y == self.start.y
        &&& exists|i: int| 0 <= i < points.len() && (#[trigger] points[i]).x == self.end.x
        &&& exists|i: int| 0 <= i < points.len() && (#[trigger] points[i]).y == self.end.y
    }

    /// Whether the width and the height of `self` are `i32` values.
    pub open spec fn has_size(self) -> bool {
        &&& i32::MIN <= self.end.x - self.start.x <= i32::MAX
        &&& i32::MIN <= self.end.y - self.start.y <= i32::MAX
    }

    /// Whether `point` lies inside `self` or on its border.
    pub open spec fn spec_contains_point(self, point: Point2<i32>) -> bool {
        &&& self.start.x <= point.x <= self.end.x
        &&& self.start.y <= point.y <= self.end.y
    }

    /// Creates the bounding box of a set of points, of which there must be at
    /// least one.
    pub fn from_points(points: &[Point2<i32>]) -> (rect: Rect<i32>)
        requires
            points@.len() > 0,
        ensures
            rect.bounds(points@),
    {
        let first = points[0];
        let mut rect = Rect { start: first, end: first };
        let mut i: usize = 1;
        assert(points@.take(1)[0] == first);
        while i < points.len()
            invariant
                1 <= i <= points@.len(),
                rect.bounds(points@.take(i as int)),
            decreases points@.len() - i,
        {
            let point = points[i];
            let ghost seen = points@.take(i as int);
            let ghost before = rect;
            if point.x < rect.start.x {
                rect.start.x = point.x;
            }
            if point.y < rect.start.y {
                rect.start.y = point.y;
            }
            if point.x > rect.end.x {
                rect.end.x = point.x;
            }
            if point.y > rect.end.y {
                rect.end.y = point.y;
            }
            proof {
                let now = points@.take(i + 1);
                assert(now[i as int] == point);
                assert forall|k: int| 0 <= k < i implies now[k] == seen[k] by {}
                let ax = choose|k: int| 0 <= k < seen.len() && (#[trigger] seen[k]).x == before.start.x;
                let ay = choose|k: int| 0 <= k < seen.len() && (#[trigger] seen[k]).y == before.start.y;
                let bx = choose|k: int| 0 <= k < seen.len() && (#[trigger] seen[k]).x == before.end.x;
                let by = choose|k: int| 0 <= k < seen.len() && (#[trigger] seen[k]).y == before.end.y;
                assert(now[ax] == seen[ax] && now[ay] == seen[ay] && now[bx] == seen[bx] && now[by]
                    == seen[by]);
                assert forall|k: int| 0 <= k < now.len() implies rect.start.x <= (
                #[trigger] now[k]).x <= rect.end.x && rect.start.y <= now[k].y <= rect.end.y by {
                    if k < i {
                        assert(now[k] == seen[k]);
                    }
                }
            }
            i += 1;
        }
        assert(points@.take(i as int) =~= points@);
        rect
    }

    /// Returns the size of the rectangle.
    pub fn size(&self) -> (size: Vector2<i32>)
        requires
            self.has_size(),
        ensures
            size.x == self.end.x - self.start.x,
            size.y == self.end.y - self.start.y,
    {
        Vector2 { x: self.end.x - self.start.x, y: self.end.y - self.start.y }
    }

    /// Returns whether the rectangle contains the given point.
    pub fn contains_point(self, point: Point2<i32>) -> (inside: bool)
        ensures
            inside == self.spec_contains_point(point),
    {
        self.start.x <= point.x && self.end.x >= point.x && self.start.y <= point.y && self.end.y
            >= point.y
    }

    /// The same rectangle over `u32`, if no coordinate is negative.
    pub open spec fn spec_cast(self) -> Option<Rect<u32>> {
        match (self.start.spec_cast(), self.end.spec_cast()) {
            (Some(start), Some(end)) => Some(Rect { start, end }),
            _ => None,
        }
    }

    /// The same rectangle over `u32`, if no coordinate is negative.
    pub fn cast(&self) -> (cast: Option<Rect<u32>>)
        ensures
            cast == self.spec_cast(),
    {
        match self.start.cast() {
            Some(start) => match self.end.cast() {
                Some(end) => Some(Rect { start, end }),
                None => None,
            },
            None => None,
        }
    }
}

} // verus!
