//! Points on the globe in E7 degrees and axis-aligned rectangles between two
//! corner points.

use vstd::prelude::*;

verus! {

/// A latitude/longitude pair, each in degrees multiplied by 10^7.
#[derive(Clone, Copy, Debug, PartialEq, Eq, Structural, Hash, Default)]
pub struct Point {
    pub latitude: i32,
    pub longitude: i32,
}

/// A rectangle spanned by two opposite corners, either of which may be absent.
#[derive(Clone, Copy, Debug, PartialEq, Eq, Structural, Default)]
pub struct Rectangle {
    pub lo: Option<Point>,
    pub hi: Option<Point>,
}

pub open spec fn min_i32(a: i32, b: i32) -> i32 {
    if a <= b { a } else { b }
}

pub open spec fn max_i32(a: i32, b: i32) -> i32 {
    if a <= b { b } else { a }
}

/// `p` lies inside the closed box spanned by the corners `a` and `b`,
/// whichever of them is the lower one.
pub open spec fn between_corners(p: Point, a: Point, b: Point) -> bool {
    &&& min_i32(a.longitude, b.longitude) <= p.longitude <= max_i32(a.longitude, b.longitude)
    &&& min_i32(a.latitude, b.latitude) <= p.latitude <= max_i32(a.latitude, b.latitude)
}

/// What `in_range` answers: `None` when the point or a corner is missing,
/// otherwise whether the point lies in the rectangle (borders included).
pub open spec fn range_answer(point: Option<Point>, rect: Rectangle) -> Option<bool> {
    match (point, rect.lo, rect.hi) {
        (Some(p), Some(lo), Some(hi)) => Some(between_corners(p, lo, hi)),
        _ => None,
    }
}

/// Whether `point` lies inside `rect`, borders included; `None` when the point
/// or either corner is missing.
pub fn in_range(point: Option<Point>, rect: &Rectangle) -> (r: Option<bool>)
    ensures
        r == range_answer(point, *rect),
{
    let p = match point {
        Some(p) => p,
        None => return None,
    };
    let lo = match rect.lo {
        Some(lo) => lo,
        None => return None,
    };
    let hi = match rect.hi {
        Some(hi) => hi,
        None => return None,
    };
    let left = if lo.longitude <= hi.longitude { lo.longitude } else { hi.longitude };
    let right = if lo.longitude <= hi.longitude { hi.longitude } else { lo.longitude };
    let top = if lo.latitude <= hi.latitude { hi.latitude } else { lo.latitude };
    let bottom = if lo.latitude <= hi.latitude { lo.latitude } else { hi.latitude };
    Some(p.longitude >= left && p.longitude <= right && p.latitude >= bottom && p.latitude <= top)
}

/// Swapping the two corners of a rectangle does not change which points lie in it.
pub proof fn lemma_corner_order_irrelevant(point: Option<Point>, lo: Option<Point>, hi: Option<Point>)
    ensures
        range_answer(point, Rectangle { lo, hi }) == range_answer(point, Rectangle { lo: hi, hi: lo }),
{
}

/// Both corners of a complete rectangle lie inside it.
pub proof fn lemma_corners_in_range(lo: Point, hi: Point)
    ensures
        range_answer(Some(lo), Rectangle { lo: Some(lo), hi: Some(hi) }) == Some(true),
        range_answer(Some(hi), Rectangle { lo: Some(lo), hi: Some(hi) }) == Some(true),
{
}

/// The answer is present exactly when the point and both corners are.
pub proof fn lemma_answer_present(point: Option<Point>, rect: Rectangle)
    ensures
        range_answer(point, rect) is Some <==> (point is Some && rect.lo is Some && rect.hi is Some),
{
}

/// A point is inside a complete rectangle exactly when its latitude lies
/// between the two corners' latitudes and its longitude between their
/// longitudes, whichever corner is lower; in particular a point below, above,
/// left or right of both corners is outside.
pub proof fn lemma_in_range_exact(p: Point, a: Point, b: Point)
    ensures
        range_answer(Some(p), Rectangle { lo: Some(a), hi: Some(b) }) == Some(
            ((a.latitude <= p.latitude && p.latitude <= b.latitude) || (b.latitude <= p.latitude
                && p.latitude <= a.latitude)) && ((a.longitude <= p.longitude && p.longitude
                <= b.longitude) || (b.longitude <= p.longitude && p.longitude <= a.longitude)),
        ),
        (p.latitude < a.latitude && p.latitude < b.latitude) ==> range_answer(
            Some(p),
            Rectangle { lo: Some(a), hi: Some(b) },
        ) == Some(false),
        (p.latitude > a.latitude && p.latitude > b.latitude) ==> range_answer(
            Some(p),
            Rectangle { lo: Some(a), hi: Some(b) },
        ) == Some(false),
        (p.longitude < a.longitude && p.longitude < b.longitude) ==> range_answer(
            Some(p),
            Rectangle { lo: Some(a), hi: Some(b) },
        ) == Some(false),
        (p.longitude > a.longitude && p.longitude > b.longitude) ==> range_answer(
            Some(p),
            Rectangle { lo: Some(a), hi: Some(b) },
        ) == Some(false),
{
}

} // verus!
