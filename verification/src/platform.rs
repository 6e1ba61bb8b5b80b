//! What the library takes from the platform's path syntax.
//!
//! Splitting a path into components, extending a path by a component and
//! simplifying a resolved path are the work of `std::path` and of `dunce`.
//! Nothing in this module is proved: each function states what the library
//! relies on.

use vstd::prelude::*;
use crate::component::{parts_of, Component, Part};

verus! {

/// The components that `std::path::Path::components` yields for the path
/// with this text.
pub uninterp spec fn components_of(text: Seq<char>) -> Seq<Part>;

/// The text of the path that `std::path::PathBuf::push` makes of the path
/// with this text and one more component.
pub uninterp spec fn pushed(text: Seq<char>, part: Part) -> Seq<char>;

/// The text of the path that `dunce::simplified` returns for the path with
/// this text.
pub uninterp spec fn simplified_text(text: Seq<char>) -> Seq<char>;

/// Whether the text begins with the marker of a verbatim path, `\\?\`.
pub open spec fn is_verbatim(text: Seq<char>) -> bool {
    &&& text.len() >= 4
    &&& text[0] == '\\'
    &&& text[1] == '\\'
    &&& text[2] == '?'
    &&& text[3] == '\\'
}

/// Whether `simple` is `text` itself, or `text` without the marker of a
/// verbatim path that it begins with.
pub open spec fn is_simplification(text: Seq<char>, simple: Seq<char>) -> bool {
    simple == text || (is_verbatim(text) && simple == text.skip(4))
}

/// Calls `std::path::Path::components` on `path` and hands out each
/// component as a value of the library, a prefix and a named segment with
/// their text.
///
/// The path is given as text, so each component is text and nothing is
/// lost in handing it out. The contract only names the result: the
/// components are those that the path syntax of the platform gives.
#[verifier::external_body]
pub(crate) fn path_components(path: &str) -> (components: Vec<Component>)
    ensures
        parts_of(components@) == components_of(path@),
{
    std::path::Path::new(path).components().map(|c| match c {
        std::path::Component::Prefix(prefix) => Component::Prefix(prefix.as_os_str().to_string_lossy().into_owned()),
        std::path::Component::RootDir => Component::RootDir,
        std::path::Component::CurDir => Component::CurDir,
        std::path::Component::ParentDir => Component::ParentDir,
        std::path::Component::Normal(name) => Component::Normal(name.to_string_lossy().into_owned()),
    }).collect()
}

/// Calls `std::path::PathBuf::push` on `path` with `component` and returns
/// the text of the extended path.
///
/// The contract only names the result: how a component extends a path, and
/// when it replaces it, is for the path syntax of the platform to say.
#[verifier::external_body]
pub(crate) fn push_component(path: &str, component: &Component) -> (extended: String)
    ensures
        extended@ == pushed(path@, component@),
{
    let mut extended = std::path::PathBuf::from(path);
    match component {
        Component::Prefix(text) => extended.push(text),
        Component::RootDir => extended.push(std::path::Component::RootDir),
        Component::CurDir => extended.push(std::path::Component::CurDir),
        Component::ParentDir => extended.push(std::path::Component::ParentDir),
        Component::Normal(text) => extended.push(text),
    }
    extended.to_string_lossy().into_owned()
}

/// Calls `dunce::simplified` on `path` and returns the text of its result.
///
/// `dunce::simplified` returns the path as it is, or, where the platform
/// has verbatim paths and the rest of the path is safe without the marker,
/// the path from its fifth character on. The contract names the result and
/// states that it is one of the two.
#[verifier::external_body]
pub(crate) fn simplified(path: &str) -> (simple: String)
    ensures
        simple@ == simplified_text(path@),
        is_simplification(path@, simple@),
{
    dunce::simplified(std::path::Path::new(path)).to_string_lossy().into_owned()
}

} // verus!
