//! The nodes of the `svg` crate that a picture is made of, and what each of
//! them holds. Nothing here is proved: every contract restates what the
//! crate's source shows of the function that the body calls.

use vstd::prelude::*;

verus! {

/// The data of a path: a list of drawing commands.
#[verifier::external_type_specification]
#[verifier::external_body]
pub struct ExData(svg::node::element::path::Data);

/// One drawing command of path data. The data give their commands out as a
/// slice, so the type is declared; nothing here reads a command.
#[verifier::external_type_specification]
#[verifier::external_body]
pub struct ExCommand(svg::node::element::path::Command);

/// A `path` element.
#[verifier::external_type_specification]
#[verifier::external_body]
pub struct ExPath(svg::node::element::Path);

/// A `g` element.
#[verifier::external_type_specification]
#[verifier::external_body]
pub struct ExGroup(svg::node::element::Group);

/// An `svg` element, the root of a document.
#[verifier::external_type_specification]
#[verifier::external_body]
pub struct ExDocument(svg::node::element::SVG);

/// The attributes of an element: the text of each value, by name.
pub type Attributes = Map<Seq<char>, Seq<char>>;

/// The text that `Value::from` makes of `data`, which is what `Path::set`
/// stores when data become the value of an attribute: the text of each
/// command, in order, with one space between two.
pub uninterp spec fn data_text(data: svg::node::element::path::Data) -> Seq<char>;

/// The text that `String::from` makes of the command that `Data::move_to`
/// adds for the pair (`x`, `y`): an absolute move to that point.
pub uninterp spec fn move_to_text(x: u32, y: u32) -> Seq<char>;

/// The text that `String::from` makes of the command that `Data::line_to`
/// adds for the pair (`x`, `y`): an absolute line to that point.
pub uninterp spec fn line_to_text(x: u32, y: u32) -> Seq<char>;

/// The attributes of a `path` element: for each name, the text of its value.
pub uninterp spec fn path_attributes(path: svg::node::element::Path) -> Attributes;

/// The attributes of each child of a `g` element, in order.
pub uninterp spec fn group_children(group: svg::node::element::Group) -> Seq<Attributes>;

/// The attributes of an `svg` element: for each name, the text of its value.
pub uninterp spec fn document_attributes(document: svg::node::element::SVG) -> Attributes;

/// For each child of an `svg` element, in order, the attributes of each of
/// that child's own children.
pub uninterp spec fn document_children(document: svg::node::element::SVG) -> Seq<Seq<Attributes>>;

/// No attribute at all.
pub open spec fn no_attributes() -> Attributes {
    Map::empty()
}

/// The text of a list of commands after one more command: the command alone
/// where the list was empty, else the text so far, a space and the command.
/// The text of a command is never empty, so the text of a list is empty only
/// where the list is.
pub open spec fn with_command(text: Seq<char>, command: Seq<char>) -> Seq<char> {
    if text.len() == 0 {
        command
    } else {
        text + seq![' '] + command
    }
}

/// The text of the command that closes a path.
pub open spec fn close_text() -> Seq<char> {
    seq!['z']
}

/// Calls `Data::new`: data without a command, whose text is empty.
#[verifier::external_body]
pub(crate) fn data_new() -> (data: svg::node::element::path::Data)
    ensures
        data_text(data) == Seq::<char>::empty(),
{
    svg::node::element::path::Data::new()
}

/// Calls `Data::move_to` with the pair (`x`, `y`): the same commands, and an
/// absolute move to that point after them.
#[verifier::external_body]
pub(crate) fn data_move_to(data: svg::node::element::path::Data, x: u32, y: u32) -> (moved:
    svg::node::element::path::Data)
    ensures
        data_text(moved) == with_command(data_text(data), move_to_text(x, y)),
{
    data.move_to((x, y))
}

/// Calls `Data::line_to` with the pair (`x`, `y`): the same commands, and an
/// absolute line to that point after them.
#[verifier::external_body]
pub(crate) fn data_line_to(data: svg::node::element::path::Data, x: u32, y: u32) -> (drawn:
    svg::node::element::path::Data)
    ensures
        data_text(drawn) == with_command(data_text(data), line_to_text(x, y)),
{
    data.line_to((x, y))
}

/// Calls `Data::close`: the same commands, and after them the command that
/// closes the path, which is written `z`.
#[verifier::external_body]
pub(crate) fn data_close(data: svg::node::element::path::Data) -> (closed:
    svg::node::element::path::Data)
    ensures
        data_text(closed) == with_command(data_text(data), close_text()),
{
    data.close()
}

/// Calls `Path::new`: a `path` element without attributes.
#[verifier::external_body]
pub(crate) fn path_new() -> (created: svg::node::element::Path)
    ensures
        path_attributes(created) == no_attributes(),
{
    svg::node::element::Path::new()
}

/// Calls `Path::set` with a text value: the attribute `name` now holds
/// `value`, and the other attributes are as they were.
#[verifier::external_body]
pub(crate) fn path_set_text(path: svg::node::element::Path, name: &str, value: &str) -> (changed:
    svg::node::element::Path)
    ensures
        path_attributes(changed) == path_attributes(path).insert(name@, value@),
{
    path.set(name, value)
}

/// Calls `Path::set` with path data as the value: the attribute `name` now
/// holds the text that the data are converted to, and the other attributes
/// are as they were.
#[verifier::external_body]
pub(crate) fn path_set_data(
    path: svg::node::element::Path,
    name: &str,
    data: svg::node::element::path::Data,
) -> (changed: svg::node::element::Path)
    ensures
        path_attributes(changed) == path_attributes(path).insert(name@, data_text(data)),
{
    path.set(name, data)
}

/// Calls `Group::new`: a `g` element without children.
#[verifier::external_body]
pub(crate) fn group_new() -> (group: svg::node::element::Group)
    ensures
        group_children(group) == Seq::<Attributes>::empty(),
{
    svg::node::element::Group::new()
}

/// Calls `Group::add` with a `path` element: the children are as they were,
/// and the path comes after them.
#[verifier::external_body]
pub(crate) fn group_add(group: svg::node::element::Group, path: svg::node::element::Path) -> (grown:
    svg::node::element::Group)
    ensures
        group_children(grown) == group_children(group).push(path_attributes(path)),
{
    group.add(path)
}

/// The attributes of a new document: the namespace of the format, under
/// `xmlns`.
pub open spec fn new_document_attributes() -> Attributes {
    no_attributes().insert("xmlns"@, "http://www.w3.org/2000/svg"@)
}

/// Calls `Document::new`: an `svg` element without children, whose only
/// attribute is the namespace.
#[verifier::external_body]
pub(crate) fn document_new() -> (document: svg::node::element::SVG)
    ensures
        document_attributes(document) == new_document_attributes(),
        document_children(document) == Seq::<Seq<Attributes>>::empty(),
{
    svg::Document::new()
}

/// Calls `Document::set` with a text value: the attribute `name` now holds
/// `value`; the other attributes and the children are as they were.
#[verifier::external_body]
pub(crate) fn document_set_text(document: svg::node::element::SVG, name: &str, value: &str) -> (changed:
    svg::node::element::SVG)
    ensures
        document_attributes(changed) == document_attributes(document).insert(name@, value@),
        document_children(changed) == document_children(document),
{
    document.set(name, value)
}

/// Calls `Document::add` with a `g` element: the children are as they were,
/// and the group comes after them; the attributes are as they were.
#[verifier::external_body]
pub(crate) fn document_add(document: svg::node::element::SVG, group: svg::node::element::Group) -> (grown:
    svg::node::element::SVG)
    ensures
        document_attributes(grown) == document_attributes(document),
        document_children(grown) == document_children(document).push(group_children(group)),
{
    document.add(group)
}

} // verus!
