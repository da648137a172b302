//! From triangles to a vector document: one filled and stroked path for each
//! triangle, all in one group of a canvas of the given size.

use crate::color::{
    blended_color, color_hex_code, hex_code_color, hex_digit_text, hex_digits, is_hex_code, Color,
};
use crate::geometry::{Point, Triangle};
use crate::markup::{
    close_text, data_close, data_line_to, data_move_to, data_new, data_text, document_add,
    document_attributes, document_children, document_new, document_set_text, group_add,
    group_children, group_new, line_to_text, move_to_text, new_document_attributes, no_attributes,
    path_attributes, path_new, path_set_data, path_set_text, with_command, Attributes,
};
use crate::triangulation::{extract_triangles, triangles_of, triangulate, triangulation_of};
use vstd::prelude::*;

verus! {

/// The text of the outline of `triangle`: a move to the first corner, a line
/// to the second, a line to the third, and the command that closes the path.
pub open spec fn outline_text(triangle: Triangle) -> Seq<char> {
    with_command(
        with_command(
            with_command(
                with_command(Seq::empty(), move_to_text(triangle.a.x, triangle.a.y)),
                line_to_text(triangle.b.x, triangle.b.y),
            ),
            line_to_text(triangle.c.x, triangle.c.y),
        ),
        close_text(),
    )
}

/// The colour code that `triangle` is painted with: the blend of the two
/// endpoint colours at the horizontal position of its centroid.
pub open spec fn triangle_color_text(triangle: Triangle, start: Color, end: Color, width: u32) -> Seq<
    char,
> {
    color_hex_code(blended_color(start, end, triangle.centroid().x, width))
}

/// The attributes of the path of `triangle`: filled and stroked with its
/// colour, and outlined by its corners.
pub open spec fn triangle_path(triangle: Triangle, start: Color, end: Color, width: u32) -> Attributes {
    no_attributes().insert("fill"@, triangle_color_text(triangle, start, end, width)).insert(
        "stroke"@,
        triangle_color_text(triangle, start, end, width),
    ).insert("d"@, outline_text(triangle))
}

/// The paths of a sequence of triangles, in order.
pub open spec fn triangle_paths(triangles: Seq<Triangle>, start: Color, end: Color, width: u32) -> Seq<
    Attributes,
> {
    triangles.map_values(|triangle: Triangle| triangle_path(triangle, start, end, width))
}

/// The decimal digits of `n`, without leading zeros.
pub open spec fn decimal_text(n: nat) -> Seq<char>
    decreases n,
{
    if n < 10 {
        seq![hex_digits()[n as int]]
    } else {
        decimal_text(n / 10).push(hex_digits()[(n % 10) as int])
    }
}

/// The attributes of the canvas: the namespace, the width and the height.
pub open spec fn canvas_attributes(width: u32, height: u32) -> Attributes {
    new_document_attributes().insert("width"@, decimal_text(width as nat)).insert(
        "height"@,
        decimal_text(height as nat),
    )
}

/// The attributes of each of `paths`, in order.
pub open spec fn attributes_of(paths: Seq<svg::node::element::Path>) -> Seq<Attributes> {
    paths.map_values(|path: svg::node::element::Path| path_attributes(path))
}

/// Writes `n` in decimal digits.
pub fn decimal(n: u32) -> (text: String)
    ensures
        text@ == decimal_text(n as nat),
    decreases n,
{
    if n < 10 {
        String::from_str(hex_digit_text(n as u8))
    } else {
        let mut text = decimal(n / 10);
        text.append(hex_digit_text((n % 10) as u8));
        assert(text@ =~= decimal_text(n as nat));
        text
    }
}

impl Triangle {
    /// The outline of the triangle as path data.
    pub fn generate_path_data(&self) -> (data: svg::node::element::path::Data)
        ensures
            data_text(data) == outline_text(*self),
    {
        let data = data_new();
        let data = data_move_to(data, self.a.x, self.a.y);
        let data = data_line_to(data, self.b.x, self.b.y);
        let data = data_line_to(data, self.c.x, self.c.y);
        data_close(data)
    }
}

/// One path for each triangle, in order, painted with the blend of the two
/// endpoint colours at the triangle's centroid. `None` exactly when either
/// colour code is malformed.
pub fn generate_paths(triangles: &Vec<Triangle>, color_be: &str, color_ed: &str, width: u32) -> (paths:
    Option<Vec<svg::node::element::Path>>)
    ensures
        is_hex_code(color_be@) && is_hex_code(color_ed@) <==> paths is Some,
        paths is Some ==> attributes_of(paths->Some_0@) == triangle_paths(
            triangles@,
            hex_code_color(color_be@),
            hex_code_color(color_ed@),
            width,
        ),
{
    let start = match Color::from_hex_code(color_be) {
        Some(color) => color,
        None => {
            return None;
        },
    };
    let end = match Color::from_hex_code(color_ed) {
        Some(color) => color,
        None => {
            return None;
        },
    };
    let mut paths: Vec<svg::node::element::Path> = Vec::new();
    let mut i: usize = 0;
    while i < triangles.len()
        invariant
            i <= triangles@.len(),
            paths@.len() == i,
            forall|k: int|
                0 <= k < i ==> path_attributes(#[trigger] paths@[k]) == triangle_path(
                    triangles@[k],
                    start,
                    end,
                    width,
                ),
        decreases triangles@.len() - i,
    {
        let triangle: Triangle = triangles[i];
        let loc: u32 = triangle.center().x;
        let color = start.mix(&end, loc, width).to_hex_code();
        let data = triangle.generate_path_data();
        let path = path_new();
        let path = path_set_text(path, "fill", color.as_str());
        let path = path_set_text(path, "stroke", color.as_str());
        let path = path_set_data(path, "d", data);
        paths.push(path);
        i += 1;
    }
    assert(attributes_of(paths@) =~= triangle_paths(triangles@, start, end, width));
    Some(paths)
}

/// A document of the given size with one group that holds `paths`, in order.
pub fn generate_document(paths: Vec<svg::node::element::Path>, width: u32, height: u32) -> (document:
    svg::node::element::SVG)
    ensures
        document_attributes(document) == canvas_attributes(width, height),
        document_children(document) == seq![attributes_of(paths@)],
{
    let ghost all = paths@;
    let mut group = group_new();
    for path in iter: paths.into_iter()
        invariant
            iter.seq() == all,
            group_children(group) == attributes_of(all.take(iter.index())),
    {
        group = group_add(group, path);
    }
    assert(all.take(all.len() as int) =~= all);
    let width_text = decimal(width);
    let height_text = decimal(height);
    let document = document_new();
    let document = document_set_text(document, "width", width_text.as_str());
    let document = document_set_text(document, "height", height_text.as_str());
    let document = document_add(document, group);
    assert(document_children(document) =~= seq![attributes_of(all)]);
    document
}

/// The picture of `points` on a canvas of the given size: the triangles of
/// their triangulation, each as a path painted with the blend of the two
/// endpoint colours at its centroid, in one group. The colour codes are
/// examined first; `None` exactly when either is malformed.
pub fn render(points: &Vec<Point>, color_be: &str, color_ed: &str, width: u32, height: u32) -> (document:
    Option<svg::node::element::SVG>)
    ensures
        is_hex_code(color_be@) && is_hex_code(color_ed@) <==> document is Some,
        document is Some ==> document_attributes(document->Some_0) == canvas_attributes(
            width,
            height,
        ),
        document is Some ==> document_children(document->Some_0) == seq![
            triangle_paths(
                triangles_of(points@, triangulation_of(points@)),
                hex_code_color(color_be@),
                hex_code_color(color_ed@),
                width,
            ),
        ],
{
    if Color::from_hex_code(color_be).is_none() || Color::from_hex_code(color_ed).is_none() {
        return None;
    }
    let delaunay = triangulate(points);
    let triangles = extract_triangles(points, &delaunay);
    match generate_paths(&triangles, color_be, color_ed, width) {
        Some(paths) => Some(generate_document(paths, width, height)),
        None => None,
    }
}

} // verus!
