//! Random points of the canvas.

use crate::geometry::Point;
use vstd::prelude::*;

verus! {

/// The number of points of a picture, unless the caller chooses another.
pub const DEFAULT_POINT_COUNT: usize = 100;

/// The standard generator of the `rand` crate, carried through as it is.
#[verifier::external_type_specification]
#[verifier::external_body]
pub struct ExStdRng(rand::rngs::StdRng);

/// Whether `p` lies on a canvas of the given size.
pub open spec fn on_canvas(p: Point, width: u32, height: u32) -> bool {
    p.x < width && p.y < height
}

/// Calls `rand::Rng::gen_range` on the range from zero up to, not including,
/// `bound`. The range must not be empty; the value drawn lies in it. Which
/// value is drawn depends on the state of the generator.
#[verifier::external_body]
fn random_below(rng: &mut rand::rngs::StdRng, bound: u32) -> (value: u32)
    requires
        bound > 0,
    ensures
        value < bound,
{
    rand::Rng::gen_range(rng, 0..bound)
}

/// Draws `count` points of a canvas `width` wide and `height` high, each
/// coordinate on its own: first `x`, then `y`.
pub fn generate_points(
    rng: &mut rand::rngs::StdRng,
    width: u32,
    height: u32,
    count: usize,
) -> (points: Vec<Point>)
    requires
        width > 0,
        height > 0,
    ensures
        points@.len() == count,
        forall|i: int| 0 <= i < count ==> on_canvas(#[trigger] points@[i], width, height),
{
    let mut points: Vec<Point> = Vec::new();
    let mut i: usize = 0;
    while i < count
        invariant
            width > 0,
            height > 0,
            i <= count,
            points@.len() == i,
            forall|k: int| 0 <= k < i ==> on_canvas(#[trigger] points@[k], width, height),
        decreases count - i,
    {
        let x: u32 = random_below(rng, width);
        let y: u32 = random_below(rng, height);
        points.push(Point { x, y });
        i += 1;
    }
    points
}

} // verus!
