use vstd::prelude::*;

verus! {

/// A pixel position on screen.
#[derive(Clone, Copy, Debug, PartialEq, Eq, Structural)]
pub struct Point {
    pub x: i32,
    pub y: i32,
}

/// A displacement between two points.
#[derive(Clone, Copy, Debug, PartialEq, Eq, Structural)]
pub struct Vector {
    pub x: i64,
    pub y: i64,
}

/// The rectangle that the annotated image occupies; a position lies inside
/// when it is strictly between the two corners on both axes.
#[derive(Clone, Copy, Debug, PartialEq, Eq, Structural)]
pub struct Area {
    pub x1: i32,
    pub y1: i32,
    pub x2: i32,
    pub y2: i32,
}

/// `p` lies strictly inside `a`.
pub open spec fn strictly_inside(a: Area, p: Point) -> bool {
    a.x1 < p.x < a.x2 && a.y1 < p.y < a.y2
}

/// The squared distance between two points.
pub open spec fn dist_sq(p: Point, q: Point) -> int {
    (p.x - q.x) * (p.x - q.x) + (p.y - q.y) * (p.y - q.y)
}

/// `gap / 2 >= sqrt(d)`, stated without roots: a gap (in half pixels) leaves
/// room for a radius whose square is `d`.
pub open spec fn clears(gap: int, d: int) -> bool {
    gap >= 0 && gap * gap >= 4 * d
}

/// A figure centred on `c`, of radius `sqrt(d)` and stroke width `w`, stays
/// within the area on all four sides.
pub open spec fn figure_fits(c: Point, d: int, w: int, a: Area) -> bool {
    &&& clears(2 * (c.x - a.x1) - w, d)
    &&& clears(2 * (c.y - a.y1) - w, d)
    &&& clears(2 * (a.x2 - c.x) - w, d)
    &&& clears(2 * (a.y2 - c.y) - w, d)
}

impl Point {
    pub fn new(x: i32, y: i32) -> (r: Point)
        ensures
            r == (Point { x, y }),
    {
        Point { x, y }
    }
}

/// `v / 2` rounded down.
fn half_floor(v: i32) -> (r: i64)
    ensures
        r == v / 2,
{
    let w: i64 = v as i64;
    if w >= 0 {
        w / 2
    } else {
        -((1 - w) / 2)
    }
}

impl Area {
    /// The area of an image of the given size shown at panel offset `(x, y)`:
    /// left edge at half the horizontal offset, right edge that plus the
    /// width, top edge at the vertical offset, bottom edge at half the
    /// vertical offset plus the height (halves round down). There is none
    /// when an edge falls outside `i32`.
    pub fn image_area(x: i32, y: i32, image_width: i32, image_height: i32) -> (r: Option<Area>)
        ensures
            r is Some <==> (i32::MIN <= x / 2 + image_width <= i32::MAX && i32::MIN <= y / 2
                + image_height <= i32::MAX),
            r matches Some(a) ==> a == (Area {
                x1: (x / 2) as i32,
                y1: y,
                x2: (x / 2 + image_width) as i32,
                y2: (y / 2 + image_height) as i32,
            }),
    {
        let hx: i64 = half_floor(x);
        let hy: i64 = half_floor(y);
        let x2: i64 = hx + image_width as i64;
        let y2: i64 = hy + image_height as i64;
        if x2 < i32::MIN as i64 || x2 > i32::MAX as i64 || y2 < i32::MIN as i64 || y2 > i32::MAX as i64 {
            None
        } else {
            Some(Area { x1: hx as i32, y1: y, x2: x2 as i32, y2: y2 as i32 })
        }
    }

    pub fn contains(&self, p: Point) -> (r: bool)
        ensures
            r == strictly_inside(*self, p),
    {
        self.x1 < p.x && p.x < self.x2 && self.y1 < p.y && p.y < self.y2
    }
}

/// Squared distance between two points.
pub fn squared_distance_between_two_points(p1: Point, p2: Point) -> (r: i128)
    ensures
        r == dist_sq(p1, p2),
        0 <= r < 0x2_0000_0000_0000_0000,
{
    let dx: i128 = p1.x as i128 - p2.x as i128;
    let dy: i128 = p1.y as i128 - p2.y as i128;
    proof {
        lemma_square_bound(dx as int);
        lemma_square_bound(dy as int);
    }
    dx * dx + dy * dy
}

proof fn lemma_square_bound(v: int)
    requires
        -0x1_0000_0000 < v < 0x1_0000_0000,
    ensures
        0 <= v * v < 0x1_0000_0000_0000_0000,
{
    assert(0 <= v * v < 0x1_0000_0000_0000_0000) by (nonlinear_arith)
        requires
            -0x1_0000_0000 < v < 0x1_0000_0000,
    ;
}

/// Whether a clearance `gap` (in half pixels) leaves room for a radius whose
/// square is `d`.
fn clearance_ok(gap: i128, d: i128) -> (r: bool)
    requires
        -0x10_0000_0000 < gap < 0x10_0000_0000,
        0 <= d < 0x2_0000_0000_0000_0000,
    ensures
        r == clears(gap as int, d as int),
{
    if gap < 0 {
        false
    } else {
        proof {
            assert(0 <= gap * gap < 0x100_0000_0000_0000_0000) by (nonlinear_arith)
                requires
                    0 <= gap < 0x10_0000_0000,
            ;
        }
        gap * gap >= 4 * d
    }
}

/// Whether a figure drawn from `pos_start` with stroke `width` stays inside
/// the area. A circle (`figure == 0`) has the distance to `pos_mouse` as its
/// radius; any other figure is checked at its start point alone.
pub fn check_valid_dimension_figure(
    pos_start: Point,
    pos_mouse: Point,
    area: Area,
    width: u32,
    figure: i32,
) -> (r: bool)
    ensures
        r == figure_fits(
            pos_start,
            if figure == 0 { dist_sq(pos_start, pos_mouse) } else { 0 },
            width as int,
            area,
        ),
{
    let ray: i128 = if figure == 0 {
        squared_distance_between_two_points(pos_start, pos_mouse)
    } else {
        0
    };
    let w: i128 = width as i128;
    let sx: i128 = pos_start.x as i128;
    let sy: i128 = pos_start.y as i128;
    clearance_ok(2 * (sx - area.x1 as i128) - w, ray)
        && clearance_ok(2 * (sy - area.y1 as i128) - w, ray)
        && clearance_ok(2 * (area.x2 as i128 - sx) - w, ray)
        && clearance_ok(2 * (area.y2 as i128 - sy) - w, ray)
}

} // verus!
