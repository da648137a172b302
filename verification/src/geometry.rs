//! Lattice points and triangles, with exact orientation and circumcircle tests.

use vstd::prelude::*;

verus! {

/// The largest coordinate for which the circumcircle determinant is
/// computed: up to here it fits the machine's widest integer.
pub const MAX_COORDINATE: u32 = 16_777_216;

/// A point of the canvas. The `x` axis runs to the right and the `y` axis
/// runs down.
#[derive(Debug, Clone, Copy, PartialEq, Eq, Structural)]
pub struct Point {
    pub x: u32,
    pub y: u32,
}

/// A triangle, by its three corners.
#[derive(Debug, Clone, Copy, PartialEq, Eq, Structural)]
pub struct Triangle {
    pub a: Point,
    pub b: Point,
    pub c: Point,
}

/// Twice the signed area of the triangle `a`, `b`, `c`: positive when the
/// corners run counter-clockwise on the canvas, negative when they run
/// clockwise, zero when they lie on one line or coincide.
pub open spec fn signed_doubled_area(a: Point, b: Point, c: Point) -> int {
    (b.y as int - a.y as int) * (c.x as int - a.x as int) - (b.x as int - a.x as int) * (c.y as int
        - a.y as int)
}

/// The square of the distance between `p` and `q`.
pub open spec fn squared_distance(p: Point, q: Point) -> int {
    (p.x as int - q.x as int) * (p.x as int - q.x as int) + (p.y as int - q.y as int) * (p.y as int
        - q.y as int)
}

/// The circumcircle determinant of `a`, `b`, `c` and `p`. For a triangle of
/// positive signed area it is negative exactly when `p` lies strictly inside
/// the circle through `a`, `b` and `c`, and zero when `p` lies on it.
pub open spec fn circumcircle_determinant(a: Point, b: Point, c: Point, p: Point) -> int {
    let dx = a.x as int - p.x as int;
    let dy = a.y as int - p.y as int;
    let ex = b.x as int - p.x as int;
    let ey = b.y as int - p.y as int;
    let fx = c.x as int - p.x as int;
    let fy = c.y as int - p.y as int;
    let ap = squared_distance(a, p);
    let bp = squared_distance(b, p);
    let cp = squared_distance(c, p);
    dx * (ey * cp - bp * fy) - dy * (ex * cp - bp * fx) + ap * (ex * fy - ey * fx)
}

/// Whether `p` lies strictly inside the circumcircle of the counter-clockwise
/// triangle `a`, `b`, `c`.
pub open spec fn in_circumcircle(a: Point, b: Point, c: Point, p: Point) -> bool {
    circumcircle_determinant(a, b, c, p) < 0
}

/// Whether both coordinates of `p` are at most `MAX_COORDINATE`.
pub open spec fn within_limit(p: Point) -> bool {
    p.x <= MAX_COORDINATE && p.y <= MAX_COORDINATE
}

/// Whether all three points lie on one line (coincident points included).
pub open spec fn collinear(a: Point, b: Point, c: Point) -> bool {
    signed_doubled_area(a, b, c) == 0
}

/// The product of two bounded numbers is bounded by the product of the bounds.
proof fn lemma_product_bound(x: int, y: int, bound_x: int, bound_y: int)
    requires
        -bound_x <= x <= bound_x,
        -bound_y <= y <= bound_y,
    ensures
        -(bound_x * bound_y) <= x * y <= bound_x * bound_y,
{
    assert(-(bound_x * bound_y) <= x * y <= bound_x * bound_y) by (nonlinear_arith)
        requires
            -bound_x <= x <= bound_x,
            -bound_y <= y <= bound_y,
    ;
}

/// Twice the signed area of the triangle `a`, `b`, `c`.
pub fn doubled_area(a: Point, b: Point, c: Point) -> (area: i128)
    ensures
        area == signed_doubled_area(a, b, c),
{
    let bx: i128 = b.x as i128 - a.x as i128;
    let by: i128 = b.y as i128 - a.y as i128;
    let cx: i128 = c.x as i128 - a.x as i128;
    let cy: i128 = c.y as i128 - a.y as i128;
    proof {
        lemma_product_bound(by as int, cx as int, 0x1_0000_0000, 0x1_0000_0000);
        lemma_product_bound(bx as int, cy as int, 0x1_0000_0000, 0x1_0000_0000);
    }
    by * cx - bx * cy
}

/// The circumcircle determinant of `a`, `b`, `c` and `p`.
pub fn circumcircle_sign(a: Point, b: Point, c: Point, p: Point) -> (determinant: i128)
    requires
        within_limit(a),
        within_limit(b),
        within_limit(c),
        within_limit(p),
    ensures
        determinant == circumcircle_determinant(a, b, c, p),
{
    let dx: i128 = a.x as i128 - p.x as i128;
    let dy: i128 = a.y as i128 - p.y as i128;
    let ex: i128 = b.x as i128 - p.x as i128;
    let ey: i128 = b.y as i128 - p.y as i128;
    let fx: i128 = c.x as i128 - p.x as i128;
    let fy: i128 = c.y as i128 - p.y as i128;
    let ghost m: int = 0x100_0000;
    let ghost m2: int = 0x2_0000_0000_0000;
    proof {
        assert(m * m == 0x1_0000_0000_0000) by (nonlinear_arith)
            requires
                m == 0x100_0000,
        ;
        lemma_product_bound(dx as int, dx as int, m, m);
        lemma_product_bound(dy as int, dy as int, m, m);
        lemma_product_bound(ex as int, ex as int, m, m);
        lemma_product_bound(ey as int, ey as int, m, m);
        lemma_product_bound(fx as int, fx as int, m, m);
        lemma_product_bound(fy as int, fy as int, m, m);
    }
    let ap: i128 = dx * dx + dy * dy;
    let bp: i128 = ex * ex + ey * ey;
    let cp: i128 = fx * fx + fy * fy;
    proof {
        assert(m * m2 == 0x200_0000_0000_0000_0000) by (nonlinear_arith)
            requires
                m == 0x100_0000,
                m2 == 0x2_0000_0000_0000,
        ;
        lemma_product_bound(ey as int, cp as int, m, m2);
        lemma_product_bound(bp as int, fy as int, m2, m);
        lemma_product_bound(ex as int, cp as int, m, m2);
        lemma_product_bound(bp as int, fx as int, m2, m);
        lemma_product_bound(ex as int, fy as int, m, m);
        lemma_product_bound(ey as int, fx as int, m, m);
        assert(m2 * m == m * m2) by (nonlinear_arith);
    }
    let first: i128 = ey * cp - bp * fy;
    let second: i128 = ex * cp - bp * fx;
    let third: i128 = ex * fy - ey * fx;
    proof {
        let m3: int = 0x400_0000_0000_0000_0000;
        assert(m * m3 == 0x4_0000_0000_0000_0000_0000_0000) by (nonlinear_arith)
            requires
                m == 0x100_0000,
                m3 == 0x400_0000_0000_0000_0000,
        ;
        assert(m2 * m2 == 0x4_0000_0000_0000_0000_0000_0000) by (nonlinear_arith)
            requires
                m2 == 0x2_0000_0000_0000,
        ;
        lemma_product_bound(dx as int, first as int, m, m3);
        lemma_product_bound(dy as int, second as int, m, m3);
        lemma_product_bound(ap as int, third as int, m2, m2);
    }
    dx * first - dy * second + ap * third
}

impl Triangle {
    /// A triangle from the coordinate pairs of its corners.
    pub fn new(a: (u32, u32), b: (u32, u32), c: (u32, u32)) -> (triangle: Self)
        ensures
            triangle == (Triangle {
                a: Point { x: a.0, y: a.1 },
                b: Point { x: b.0, y: b.1 },
                c: Point { x: c.0, y: c.1 },
            }),
    {
        Triangle {
            a: Point { x: a.0, y: a.1 },
            b: Point { x: b.0, y: b.1 },
            c: Point { x: c.0, y: c.1 },
        }
    }

    /// The centroid: the mean of the three corners, each coordinate rounded
    /// down to the lattice.
    pub open spec fn centroid(self) -> Point {
        Point {
            x: ((self.a.x as int + self.b.x as int + self.c.x as int) / 3) as u32,
            y: ((self.a.y as int + self.b.y as int + self.c.y as int) / 3) as u32,
        }
    }

    /// The centroid of the triangle.
    pub fn center(&self) -> (center: Point)
        ensures
            center == self.centroid(),
    {
        let x: u64 = (self.a.x as u64 + self.b.x as u64 + self.c.x as u64) / 3;
        let y: u64 = (self.a.y as u64 + self.b.y as u64 + self.c.y as u64) / 3;
        Point { x: x as u32, y: y as u32 }
    }
}

} // verus!
