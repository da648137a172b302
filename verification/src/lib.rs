//! Low-poly pictures: points scattered over a canvas, their Delaunay
//! triangulation, and one filled path per triangle, coloured by a blend of two
//! endpoint colours along the horizontal axis.
//!
//! Every point lies on the integer lattice, so orientation, area and the
//! circumcircle test are exact.
//!
//! - `sampling` draws the points,
//! - `triangulation` triangulates them,
//! - `geometry` holds points, triangles and the exact predicates on them,
//! - `color` reads, writes and blends colours,
//! - `render` turns triangles into the paths of a document,
//! - `markup` declares the document's nodes.

pub mod color;
pub mod geometry;
pub mod markup;
pub mod render;
pub mod sampling;
pub mod triangulation;
