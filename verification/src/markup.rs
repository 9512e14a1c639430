//! The elements of the `svg` crate that a set of gridlines is assembled
//! from, and what this library takes for granted about them.
//!
//! Nothing in this file is proved. Each function below makes one call into
//! `svg`, and its contract records what that call does to the element it is
//! given. The text that `svg` writes for an element is not spelled out: it
//! is named, as a function of what the element holds.

use svg::node::element::Path;
use svg::node::element::SVG;
use vstd::prelude::*;

verus! {

/// `svg::node::element::Path`, a `path` element.
#[verifier::external_type_specification]
#[verifier::external_body]
pub struct PathElement(Path);

/// `svg::node::element::SVG`, the root element of a document.
#[verifier::external_type_specification]
#[verifier::external_body]
pub struct RootElement(SVG);

/// The attributes of an element: each name with its value.
pub type Attributes = Map<Seq<char>, Seq<char>>;

/// The attributes that a `path` element holds.
pub uninterp spec fn path_attributes(path: Path) -> Attributes;

/// The text that `svg` writes for a `path` element that holds `attributes`
/// and nothing else.
pub uninterp spec fn path_markup(attributes: Attributes) -> Seq<char>;

/// The `path` elements that a document holds, in the order in which they
/// were added, each given by its attributes.
pub uninterp spec fn document_children(document: SVG) -> Seq<Attributes>;

/// The text that `svg` writes for a document that holds the `path` elements
/// `children` and nothing else.
pub uninterp spec fn document_markup(children: Seq<Attributes>) -> Seq<char>;

/// `Path::new`: a `path` element without attributes.
#[verifier::external_body]
pub(crate) fn path_new() -> (path: Path)
    ensures
        path_attributes(path) == Attributes::empty(),
{
    Path::new()
}

/// `Path::set`: the same element with the attribute `name` set to `value`,
/// in place of any value that it had.
#[verifier::external_body]
pub(crate) fn path_set(path: Path, name: &str, value: &str) -> (changed: Path)
    ensures
        path_attributes(changed) == path_attributes(path).insert(name@, value@),
{
    path.set(name, value)
}

/// `to_string` of a `path` element: the text that `svg` writes for it.
#[verifier::external_body]
pub(crate) fn path_to_string(path: &Path) -> (text: String)
    ensures
        text@ == path_markup(path_attributes(*path)),
{
    path.to_string()
}

/// `SVG::new`: a document without children.
#[verifier::external_body]
pub(crate) fn document_new() -> (document: SVG)
    ensures
        document_children(document) == Seq::<Attributes>::empty(),
{
    SVG::new()
}

/// `SVG::add`: the same document with `path` as its last child.
#[verifier::external_body]
pub(crate) fn document_add(document: SVG, path: Path) -> (grown: SVG)
    ensures
        document_children(grown) == document_children(document).push(path_attributes(path)),
{
    document.add(path)
}

/// `to_string` of a document: the text that `svg` writes for it.
#[verifier::external_body]
pub(crate) fn document_to_string(document: &SVG) -> (text: String)
    ensures
        text@ == document_markup(document_children(*document)),
{
    document.to_string()
}

} // verus!
