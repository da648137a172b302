//! The Delaunay triangulation of a sequence of lattice points, as index
//! triples into that sequence.
//!
//! The triangles are computed by the `delaunator` crate. What it returns is
//! then examined triple by triple, with exact integer arithmetic: a triple
//! stays only if it names three of the points and these run counter-clockwise
//! around a positive area. So no triangle of the result is degenerate, however
//! many points coincide, and points that all lie on one line have no triangle.
//! Coordinates are integers: no input is out of the triangulator's range.
//!
//! Where four points lie on one circle, either diagonal is Delaunay. Which one
//! is taken is the triangulator's choice; it is the same for the same sequence
//! of points. Whether a triangulation is Delaunay can be tested exactly with
//! `Triangulation::is_delaunay`.

use crate::geometry::{
    circumcircle_sign, collinear, doubled_area, in_circumcircle, signed_doubled_area, within_limit,
    Point, Triangle,
};
use vstd::prelude::*;

verus! {

/// Three indices into a sequence of points.
pub type IndexTriple = (usize, usize, usize);

/// A triangulation: a flat vector of point indices, three for each triangle.
#[derive(Debug)]
pub struct Triangulation {
    pub triangles: Vec<usize>,
}

/// The complete triples of a flat sequence of indices, in order. Up to two
/// indices left over at the end belong to no triple.
pub open spec fn index_triples(indices: Seq<usize>) -> Seq<IndexTriple> {
    Seq::new(
        (indices.len() / 3) as nat,
        |i: int| (indices[3 * i], indices[3 * i + 1], indices[3 * i + 2]),
    )
}

/// Whether all three indices of `triple` name one of `points`.
pub open spec fn in_range(points: Seq<Point>, triple: IndexTriple) -> bool {
    triple.0 < points.len() && triple.1 < points.len() && triple.2 < points.len()
}

/// The triangle whose corners `triple` names.
pub open spec fn triangle_of(points: Seq<Point>, triple: IndexTriple) -> Triangle {
    Triangle {
        a: points[triple.0 as int],
        b: points[triple.1 as int],
        c: points[triple.2 as int],
    }
}

/// Whether `triple` is kept in a triangulation of `points`: its indices name
/// points, and its corners run counter-clockwise around a positive area.
pub open spec fn keeps(points: Seq<Point>, triple: IndexTriple) -> bool {
    in_range(points, triple) && signed_doubled_area(
        points[triple.0 as int],
        points[triple.1 as int],
        points[triple.2 as int],
    ) > 0
}

/// The triangles that `triples` name, in order.
pub open spec fn triangles_of(points: Seq<Point>, triples: Seq<IndexTriple>) -> Seq<Triangle> {
    triples.map_values(|triple: IndexTriple| triangle_of(points, triple))
}

/// `keeps` as a predicate on triples.
pub open spec fn keep_rule(points: Seq<Point>) -> spec_fn(IndexTriple) -> bool {
    |triple: IndexTriple| keeps(points, triple)
}

/// The triples of `indices` that are kept for `points`, in order.
pub open spec fn kept_triples(points: Seq<Point>, indices: Seq<usize>) -> Seq<IndexTriple> {
    index_triples(indices).filter(keep_rule(points))
}

/// Whether no three of `points` span a triangle: all of them lie on one line.
/// Fewer than three points always do.
pub open spec fn all_collinear(points: Seq<Point>) -> bool {
    forall|i: int, j: int, k: int|
        0 <= i < points.len() && 0 <= j < points.len() && 0 <= k < points.len() ==> collinear(
            #[trigger] points[i],
            #[trigger] points[j],
            #[trigger] points[k],
        )
}

/// Whether no point lies strictly inside the circumcircle of any triangle.
pub open spec fn delaunay(points: Seq<Point>, triples: Seq<IndexTriple>) -> bool {
    forall|t: int, p: int|
        0 <= t < triples.len() && 0 <= p < points.len() ==> !in_circumcircle(
            points[(#[trigger] triples[t]).0 as int],
            points[triples[t].1 as int],
            points[triples[t].2 as int],
            #[trigger] points[p],
        )
}

/// The indices that `delaunator::triangulate` returns as `triangles` for the
/// sites at these lattice points.
pub uninterp spec fn delaunator_triangles(points: Seq<Point>) -> Seq<usize>;

/// The triangulation of `points`: the triples that the triangulator names,
/// without those that are out of range, degenerate or clockwise.
pub open spec fn triangulation_of(points: Seq<Point>) -> Seq<IndexTriple> {
    kept_triples(points, delaunator_triangles(points))
}

/// Calls `delaunator::triangulate` on the sites whose coordinates are those of
/// `points`, each converted exactly, and hands back the `triangles` field of
/// its result. The triangulator computes from its argument alone; nothing
/// else is claimed of it.
#[verifier::external_body]
fn delaunator_indices(points: &Vec<Point>) -> (indices: Vec<usize>)
    ensures
        indices@ == delaunator_triangles(points@),
{
    let sites: Vec<delaunator::Point> = points.iter().map(
        |p| delaunator::Point { x: p.x.into(), y: p.y.into() },
    ).collect();
    delaunator::triangulate(&sites).triangles
}

/// Three more indices make one more triple.
proof fn lemma_index_triples_push(indices: Seq<usize>, a: usize, b: usize, c: usize)
    requires
        indices.len() % 3 == 0,
    ensures
        index_triples(indices.push(a).push(b).push(c)) == index_triples(indices).push((a, b, c)),
{
    let longer = indices.push(a).push(b).push(c);
    assert(longer.len() / 3 == indices.len() / 3 + 1);
    assert(index_triples(longer) =~= index_triples(indices).push((a, b, c)));
}

/// Filtering one element more either appends that element or changes nothing.
proof fn lemma_filter_step(triples: Seq<IndexTriple>, rule: spec_fn(IndexTriple) -> bool, i: int)
    requires
        0 <= i < triples.len(),
    ensures
        triples.take(i + 1).filter(rule) == if rule(triples[i]) {
            triples.take(i).filter(rule).push(triples[i])
        } else {
            triples.take(i).filter(rule)
        },
{
    reveal(Seq::filter);
    assert(triples.take(i + 1).drop_last() =~= triples.take(i));
}

impl Triangulation {
    /// The triangles, as index triples.
    pub open spec fn triples(self) -> Seq<IndexTriple> {
        index_triples(self.triangles@)
    }

    /// Whether this is a triangulation over `points`: whole triples only, each
    /// naming three points that run counter-clockwise around a positive area.
    pub open spec fn well_formed(self, points: Seq<Point>) -> bool {
        &&& self.triangles@.len() % 3 == 0
        &&& forall|i: int| 0 <= i < self.triples().len() ==> keeps(points, #[trigger] self.triples()[i])
    }

    /// The number of triangles.
    pub fn len(&self) -> (count: usize)
        ensures
            count == self.triples().len(),
            3 * count <= usize::MAX,
    {
        self.triangles.len() / 3
    }

    /// Keeps, in order, the triples of `indices` that name three of `points`
    /// running counter-clockwise around a positive area, and drops the rest.
    pub fn from_indices(points: &Vec<Point>, indices: &Vec<usize>) -> (result: Triangulation)
        ensures
            result.triangles@.len() % 3 == 0,
            result.triples() == kept_triples(points@, indices@),
            result.well_formed(points@),
    {
        let count: usize = indices.len() / 3;
        let ghost all = index_triples(indices@);
        let ghost rule = keep_rule(points@);
        let mut kept: Vec<usize> = Vec::new();
        let mut i: usize = 0;
        assert(index_triples(kept@) =~= all.take(0).filter(rule)) by {
            reveal(Seq::filter);
        }
        while i < count
            invariant
                count == indices@.len() / 3,
                indices@.len() <= usize::MAX,
                all == index_triples(indices@),
                rule == keep_rule(points@),
                i <= count,
                kept@.len() % 3 == 0,
                index_triples(kept@) == all.take(i as int).filter(rule),
            decreases count - i,
        {
            let a: usize = indices[3 * i];
            let b: usize = indices[3 * i + 1];
            let c: usize = indices[3 * i + 2];
            proof {
                lemma_filter_step(all, rule, i as int);
                assert(all[i as int] == (a, b, c));
            }
            if a < points.len() && b < points.len() && c < points.len() && doubled_area(
                points[a],
                points[b],
                points[c],
            ) > 0 {
                proof {
                    lemma_index_triples_push(kept@, a, b, c);
                }
                kept.push(a);
                kept.push(b);
                kept.push(c);
            }
            i += 1;
        }
        let result = Triangulation { triangles: kept };
        proof {
            assert(all.take(count as int) =~= all);
            assert forall|k: int| 0 <= k < result.triples().len() implies keeps(
                points@,
                #[trigger] result.triples()[k],
            ) by {
                all.lemma_filter_pred(rule, k);
            }
        }
        result
    }

    /// Whether this is a triangulation over `points` in which no point lies
    /// strictly inside the circumcircle of any triangle.
    pub fn is_delaunay(&self, points: &Vec<Point>) -> (holds: bool)
        requires
            forall|p: int| 0 <= p < points@.len() ==> within_limit(#[trigger] points@[p]),
        ensures
            holds == (self.well_formed(points@) && delaunay(points@, self.triples())),
    {
        if self.triangles.len() % 3 != 0 {
            return false;
        }
        let count: usize = self.triangles.len() / 3;
        let mut t: usize = 0;
        while t < count
            invariant
                count == self.triangles@.len() / 3,
                self.triangles@.len() % 3 == 0,
                self.triangles@.len() <= usize::MAX,
                t <= count,
                forall|p: int| 0 <= p < points@.len() ==> within_limit(#[trigger] points@[p]),
                forall|i: int| 0 <= i < t ==> keeps(points@, #[trigger] self.triples()[i]),
                delaunay(points@, self.triples().take(t as int)),
            decreases count - t,
        {
            let a: usize = self.triangles[3 * t];
            let b: usize = self.triangles[3 * t + 1];
            let c: usize = self.triangles[3 * t + 2];
            assert(self.triples()[t as int] == (a, b, c));
            if !(a < points.len() && b < points.len() && c < points.len()) {
                return false;
            }
            if doubled_area(points[a], points[b], points[c]) <= 0 {
                return false;
            }
            let mut p: usize = 0;
            while p < points.len()
                invariant
                    p <= points@.len(),
                    0 <= t < self.triples().len(),
                    self.triples()[t as int] == (a, b, c),
                    a < points@.len(),
                    b < points@.len(),
                    c < points@.len(),
                    forall|q: int| 0 <= q < points@.len() ==> within_limit(#[trigger] points@[q]),
                    forall|q: int|
                        0 <= q < p ==> !in_circumcircle(
                            points@[a as int],
                            points@[b as int],
                            points@[c as int],
                            #[trigger] points@[q],
                        ),
                decreases points@.len() - p,
            {
                if circumcircle_sign(points[a], points[b], points[c], points[p]) < 0 {
                    assert(!delaunay(points@, self.triples())) by {
                        let _ = self.triples()[t as int];
                        let _ = points@[p as int];
                    }
                    return false;
                }
                p += 1;
            }
            proof {
                let more = self.triples().take(t as int + 1);
                assert forall|i: int, q: int|
                    0 <= i < more.len() && 0 <= q < points@.len() implies !in_circumcircle(
                    points@[(#[trigger] more[i]).0 as int],
                    points@[more[i].1 as int],
                    points@[more[i].2 as int],
                    #[trigger] points@[q],
                ) by {
                    if i < t {
                        assert(more[i] == self.triples().take(t as int)[i]);
                    }
                }
            }
            t += 1;
        }
        assert(self.triples().take(count as int) =~= self.triples());
        true
    }
}

/// Triangulates `points`: the index triples of their Delaunay triangulation,
/// without any triangle of no area. The result depends on the sequence of
/// points alone.
pub fn triangulate(points: &Vec<Point>) -> (result: Triangulation)
    ensures
        result.triangles@.len() % 3 == 0,
        result.triples() == triangulation_of(points@),
        result.well_formed(points@),
        points@.len() < 3 ==> result.triangles@.len() == 0,
        all_collinear(points@) ==> result.triangles@.len() == 0,
{
    let indices = delaunator_indices(points);
    let result = Triangulation::from_indices(points, &indices);
    proof {
        if points@.len() < 3 {
            lemma_few_points_collinear(points@);
        }
        if all_collinear(points@) {
            lemma_collinear_keeps_nothing(points@, indices@);
        }
    }
    result
}

/// The corners of each triangle of `delaunay`, looked up in `points`.
pub fn extract_triangles(points: &Vec<Point>, delaunay: &Triangulation) -> (triangles: Vec<Triangle>)
    requires
        forall|i: int|
            0 <= i < delaunay.triples().len() ==> in_range(points@, #[trigger] delaunay.triples()[i]),
    ensures
        triangles@ == triangles_of(points@, delaunay.triples()),
{
    let count: usize = delaunay.len();
    let mut triangles: Vec<Triangle> = Vec::new();
    let mut i: usize = 0;
    while i < count
        invariant
            count == delaunay.triples().len(),
            3 * count <= usize::MAX,
            i <= count,
            forall|k: int|
                0 <= k < delaunay.triples().len() ==> in_range(
                    points@,
                    #[trigger] delaunay.triples()[k],
                ),
            triangles@.len() == i,
            forall|k: int|
                0 <= k < i ==> #[trigger] triangles@[k] == triangle_of(points@, delaunay.triples()[k]),
        decreases count - i,
    {
        let ghost triple = delaunay.triples()[i as int];
        assert(in_range(points@, triple));
        let a: Point = points[delaunay.triangles[3 * i]];
        let b: Point = points[delaunay.triangles[3 * i + 1]];
        let c: Point = points[delaunay.triangles[3 * i + 2]];
        triangles.push(Triangle::new((a.x, a.y), (b.x, b.y), (c.x, c.y)));
        i += 1;
    }
    assert(triangles@ =~= triangles_of(points@, delaunay.triples()));
    triangles
}

/// Where all points lie on one line, no triple is kept, whatever the indices.
pub proof fn lemma_collinear_keeps_nothing(points: Seq<Point>, indices: Seq<usize>)
    requires
        all_collinear(points),
    ensures
        kept_triples(points, indices).len() == 0,
{
    let kept = kept_triples(points, indices);
    if kept.len() > 0 {
        index_triples(indices).lemma_filter_pred(keep_rule(points), 0);
        let triple = kept[0];
        assert(collinear(points[triple.0 as int], points[triple.1 as int], points[triple.2 as int]));
    }
}

/// Fewer than three points lie on one line.
pub proof fn lemma_few_points_collinear(points: Seq<Point>)
    requires
        points.len() < 3,
    ensures
        all_collinear(points),
{
    assert forall|i: int, j: int, k: int|
        0 <= i < points.len() && 0 <= j < points.len() && 0 <= k < points.len() implies collinear(
        #[trigger] points[i],
        #[trigger] points[j],
        #[trigger] points[k],
    ) by {
        lemma_repeated_corner(points[i], points[j], points[k]);
    }
}

/// A triangle with a repeated corner has no area.
pub proof fn lemma_repeated_corner(a: Point, b: Point, c: Point)
    requires
        a == b || b == c || a == c,
    ensures
        signed_doubled_area(a, b, c) == 0,
{
    let bx = b.x as int - a.x as int;
    let by = b.y as int - a.y as int;
    let cx = c.x as int - a.x as int;
    let cy = c.y as int - a.y as int;
    assert(by * cx - bx * cy == 0) by (nonlinear_arith)
        requires
            (bx == 0 && by == 0) || (cx == 0 && cy == 0) || (bx == cx && by == cy),
    ;
}

/// Fewer than three points, or points that all lie on one line, have no
/// triangle.
pub proof fn lemma_degenerate_points_have_no_triangle(points: Seq<Point>)
    requires
        points.len() < 3 || all_collinear(points),
    ensures
        triangulation_of(points).len() == 0,
{
    if points.len() < 3 {
        lemma_few_points_collinear(points);
    }
    lemma_collinear_keeps_nothing(points, delaunator_triangles(points));
}

/// No triangle of a triangulation is degenerate, whether or not points
/// coincide: each names three different points around a positive area.
pub proof fn lemma_triangles_have_area(points: Seq<Point>, i: int)
    requires
        0 <= i < triangulation_of(points).len(),
    ensures
        in_range(points, triangulation_of(points)[i]),
        signed_doubled_area(
            triangle_of(points, triangulation_of(points)[i]).a,
            triangle_of(points, triangulation_of(points)[i]).b,
            triangle_of(points, triangulation_of(points)[i]).c,
        ) > 0,
        triangulation_of(points)[i].0 != triangulation_of(points)[i].1,
        triangulation_of(points)[i].1 != triangulation_of(points)[i].2,
        triangulation_of(points)[i].0 != triangulation_of(points)[i].2,
{
    index_triples(delaunator_triangles(points)).lemma_filter_pred(keep_rule(points), i);
    let triple = triangulation_of(points)[i];
    if triple.0 == triple.1 || triple.1 == triple.2 || triple.0 == triple.2 {
        lemma_repeated_corner(
            points[triple.0 as int],
            points[triple.1 as int],
            points[triple.2 as int],
        );
    }
}

/// Whole triples determine the flat sequence of indices they were read from.
pub proof fn lemma_triples_determine_indices(first: Seq<usize>, second: Seq<usize>)
    requires
        first.len() % 3 == 0,
        second.len() % 3 == 0,
        index_triples(first) == index_triples(second),
    ensures
        first == second,
{
    assert(index_triples(first).len() == first.len() / 3);
    assert(index_triples(second).len() == second.len() / 3);
    assert forall|k: int| 0 <= k < first.len() implies first[k] == second[k] by {
        let i = k / 3;
        assert(index_triples(first)[i] == index_triples(second)[i]);
        assert(k == 3 * i || k == 3 * i + 1 || k == 3 * i + 2);
    }
    assert(first =~= second);
}

/// The triangulation is a function of the points: two triangulations of the
/// same sequence of points hold the same indices in the same order.
pub proof fn lemma_triangulation_determined(
    points: Seq<Point>,
    first: Triangulation,
    second: Triangulation,
)
    requires
        first.triangles@.len() % 3 == 0,
        first.triples() == triangulation_of(points),
        second.triangles@.len() % 3 == 0,
        second.triples() == triangulation_of(points),
    ensures
        first.triangles@ == second.triangles@,
{
    lemma_triples_determine_indices(first.triangles@, second.triangles@);
}

} // verus!
