//! A path as an ordered sequence of components.

use vstd::prelude::*;

verus! {

/// One component of a path, as a mathematical value.
pub enum Part {
    /// A platform prefix, such as a drive or a volume, with its text.
    Prefix(Seq<char>),
    /// The root marker.
    RootDir,
    /// A reference to the current directory (`.`).
    CurDir,
    /// A reference to the parent directory (`..`).
    ParentDir,
    /// A named segment, with its text.
    Normal(Seq<char>),
}

/// One component of a path.
#[derive(Debug, PartialEq, Eq)]
pub enum Component {
    /// A platform prefix, such as a drive or a volume, with its text.
    Prefix(String),
    /// The root marker.
    RootDir,
    /// A reference to the current directory (`.`).
    CurDir,
    /// A reference to the parent directory (`..`).
    ParentDir,
    /// A named segment, with its text.
    Normal(String),
}

impl View for Component {
    type V = Part;

    open spec fn view(&self) -> Part {
        match self {
            Component::Prefix(text) => Part::Prefix(text@),
            Component::RootDir => Part::RootDir,
            Component::CurDir => Part::CurDir,
            Component::ParentDir => Part::ParentDir,
            Component::Normal(text) => Part::Normal(text@),
        }
    }
}

impl Clone for Component {
    fn clone(&self) -> (copy: Self)
        ensures
            copy@ == self@,
    {
        match self {
            Component::Prefix(text) => Component::Prefix(text.clone()),
            Component::RootDir => Component::RootDir,
            Component::CurDir => Component::CurDir,
            Component::ParentDir => Component::ParentDir,
            Component::Normal(text) => Component::Normal(text.clone()),
        }
    }
}

/// The sequence of parts that a sequence of components stands for.
pub open spec fn parts_of(components: Seq<Component>) -> Seq<Part> {
    components.map_values(|c: Component| c@)
}

} // verus!
