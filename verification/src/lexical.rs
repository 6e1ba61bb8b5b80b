//! Resolution of a path against a base by its text alone.

use vstd::prelude::*;
use crate::component::{parts_of, Component, Part};
use crate::platform::{
    components_of, is_simplification, path_components, push_component, pushed, simplified,
    simplified_text,
};

verus! {

/// Whether a path has nothing left to remove: it is empty, or it ends in a
/// root marker or a prefix.
pub open spec fn at_root(path: Seq<Part>) -> bool {
    path.len() == 0 || path.last() is RootDir || path.last() is Prefix
}

/// The path without its last component, or the path itself where it is
/// already at its root.
pub open spec fn parent(path: Seq<Part>) -> Seq<Part> {
    if at_root(path) {
        path
    } else {
        path.drop_last()
    }
}

/// What one component of the input does to the accumulated result.
pub open spec fn apply(acc: Seq<Part>, part: Part) -> Seq<Part> {
    match part {
        Part::ParentDir => parent(acc),
        Part::CurDir => acc,
        _ => acc.push(part),
    }
}

/// The base with the components of `path` applied to it in order.
pub open spec fn resolve(base: Seq<Part>, path: Seq<Part>) -> Seq<Part>
    decreases path.len(),
{
    if path.len() == 0 {
        base
    } else {
        apply(resolve(base, path.drop_last()), path.last())
    }
}

/// Resolves `path` against `base` without consulting the filesystem.
///
/// Starting from the base, a parent-directory component removes the last
/// component of the result, unless the result is at its root; a
/// current-directory component is ignored; every other component is
/// appended.
pub fn resolve_components(base: Vec<Component>, path: &Vec<Component>) -> (resolved: Vec<Component>)
    ensures
        parts_of(resolved@) == resolve(parts_of(base@), parts_of(path@)),
{
    let mut acc = base;
    let mut i: usize = 0;
    while i < path.len()
        invariant
            i <= path.len(),
            parts_of(acc@) == resolve(parts_of(base@), parts_of(path@).take(i as int)),
        decreases path.len() - i,
    {
        match &path[i] {
            Component::ParentDir => {
                let n = acc.len();
                if n > 0 {
                    let removable = match &acc[n - 1] {
                        Component::RootDir => false,
                        Component::Prefix(_) => false,
                        _ => true,
                    };
                    if removable {
                        acc.pop();
                    }
                }
            },
            Component::CurDir => {},
            other => {
                acc.push(other.clone());
            },
        }
        assert(parts_of(path@).take(i + 1).drop_last() == parts_of(path@).take(i as int));
        i += 1;
    }
    assert(parts_of(path@).take(path.len() as int) == parts_of(path@));
    acc
}

/// The text of the path that the components make when each in turn
/// extends the path of those before it, starting from the empty path.
pub open spec fn joined(parts: Seq<Part>) -> Seq<char>
    decreases parts.len(),
{
    if parts.len() == 0 {
        Seq::empty()
    } else {
        pushed(joined(parts.drop_last()), parts.last())
    }
}

/// The text of `path` resolved against `base` by its components, before
/// it is simplified.
pub open spec fn lexical_text(base: Seq<char>, path: Seq<char>) -> Seq<char> {
    joined(resolve(components_of(base), components_of(path)))
}

/// Makes a path of the components, each in turn extending the path of those
/// before it.
pub fn join_components(components: &Vec<Component>) -> (text: String)
    ensures
        text@ == joined(parts_of(components@)),
{
    let mut text = String::new();
    let mut i: usize = 0;
    while i < components.len()
        invariant
            i <= components.len(),
            text@ == joined(parts_of(components@).take(i as int)),
        decreases components.len() - i,
    {
        assert(parts_of(components@).take(i + 1).drop_last() == parts_of(components@).take(
            i as int,
        ));
        text = push_component(text.as_str(), &components[i]);
        i += 1;
    }
    assert(parts_of(components@).take(components.len() as int) == parts_of(components@));
    text
}

/// Resolves `path` against the absolute path `base` by text alone and
/// simplifies the result.
///
/// Both texts are split into components as the platform splits them; the
/// components of `path` are applied to those of `base` as
/// [`resolve_components`] says; the result is made a path again and
/// simplified.
pub fn resolve_lexically(base: &str, path: &str) -> (resolved: String)
    ensures
        resolved@ == simplified_text(lexical_text(base@, path@)),
        is_simplification(lexical_text(base@, path@), resolved@),
{
    let start = path_components(base);
    let steps = path_components(path);
    let end = resolve_components(start, &steps);
    let text = join_components(&end);
    simplified(text.as_str())
}

/// How many components of a path can be removed before it is at its root.
pub open spec fn depth(path: Seq<Part>) -> nat
    decreases path.len(),
{
    if at_root(path) {
        0
    } else {
        1 + depth(path.drop_last())
    }
}

/// The root of a path: what is left of it when nothing more can be removed.
pub open spec fn root_of(path: Seq<Part>) -> Seq<Part> {
    path.take(path.len() - depth(path))
}

/// A path of `count` parent-directory components.
pub open spec fn parents(count: nat) -> Seq<Part> {
    Seq::new(count, |i: int| Part::ParentDir)
}

/// Whether a path holds neither a current-directory nor a parent-directory
/// component.
pub open spec fn is_dot_free(path: Seq<Part>) -> bool {
    forall|i: int| 0 <= i < path.len() ==> !(path[i] is CurDir) && !(path[i] is ParentDir)
}

/// The depth of a path is at most its length, and its root is at its root.
pub proof fn lemma_root_is_at_root(path: Seq<Part>)
    ensures
        depth(path) <= path.len(),
        at_root(root_of(path)),
        depth(root_of(path)) == 0,
    decreases path.len(),
{
    if !at_root(path) {
        lemma_root_is_at_root(path.drop_last());
    }
}

/// Resolving a path in two parts, one after the other, is resolving the
/// whole of it.
pub proof fn lemma_resolve_in_parts(base: Seq<Part>, first: Seq<Part>, second: Seq<Part>)
    ensures
        resolve(base, first + second) == resolve(resolve(base, first), second),
    decreases second.len(),
{
    if second.len() > 0 {
        lemma_resolve_in_parts(base, first, second.drop_last());
        assert((first + second).drop_last() == first + second.drop_last());
    }
}

/// Parent-directory components remove as many components from the end of
/// the base as it has above its root, and no more: those beyond the root
/// are absorbed.
pub proof fn lemma_parents_stop_at_root(base: Seq<Part>, count: nat)
    ensures
        count <= depth(base) ==> resolve(base, parents(count)) == base.take(base.len() - count),
        count >= depth(base) ==> resolve(base, parents(count)) == root_of(base),
    decreases count,
{
    lemma_root_is_at_root(base);
    if count > 0 {
        let fewer = (count - 1) as nat;
        lemma_parents_stop_at_root(base, fewer);
        assert(parents(count).drop_last() == parents(fewer));
        if count <= depth(base) {
            lemma_depth_of_path_above_root(base, fewer);
        }
    }
}

/// A path cut short by fewer components than its depth is that much less
/// deep.
pub proof fn lemma_depth_of_path_above_root(path: Seq<Part>, count: nat)
    requires
        count <= depth(path),
    ensures
        count <= path.len(),
        depth(path.take(path.len() - count)) == depth(path) - count,
    decreases count,
{
    lemma_root_is_at_root(path);
    if count == 0 {
        assert(path.take(path.len() as int) == path);
    } else {
        let fewer = (count - 1) as nat;
        lemma_depth_of_path_above_root(path, fewer);
        let longer = path.take(path.len() - fewer);
        assert(longer.drop_last() == path.take(path.len() - count));
    }
}

/// Against a base that is at least two components deep, two
/// parent-directory components and a name give the base without its last
/// two components, with the name appended.
pub proof fn lemma_two_parents_and_a_name(base: Seq<Part>, name: Seq<char>)
    requires
        depth(base) >= 2,
    ensures
        resolve(base, seq![Part::ParentDir, Part::ParentDir, Part::Normal(name)])
            == base.drop_last().drop_last().push(Part::Normal(name)),
{
    let path = seq![Part::ParentDir, Part::ParentDir, Part::Normal(name)];
    lemma_parents_stop_at_root(base, 2);
    lemma_root_is_at_root(base);
    assert(path.drop_last() == parents(2));
}

/// Against a base that is at its root, parent-directory components change
/// nothing: the result never leaves the root.
pub proof fn lemma_parents_of_root(base: Seq<Part>, count: nat)
    requires
        at_root(base),
    ensures
        resolve(base, parents(count)) == base,
{
    lemma_parents_stop_at_root(base, count);
}

/// Against a base that is at its root, parent-directory components and a
/// name give the base with the name appended.
pub proof fn lemma_parents_and_a_name_at_root(base: Seq<Part>, count: nat, name: Seq<char>)
    requires
        at_root(base),
    ensures
        resolve(base, parents(count).push(Part::Normal(name))) == base.push(Part::Normal(name)),
{
    lemma_parents_of_root(base, count);
    assert(parents(count).push(Part::Normal(name)).drop_last() == parents(count));
}

/// Whatever the path, the result begins with the root of the base.
pub proof fn lemma_root_is_kept(base: Seq<Part>, path: Seq<Part>)
    ensures
        root_of(base).len() <= resolve(base, path).len(),
        resolve(base, path).take(root_of(base).len() as int) == root_of(base),
    decreases path.len(),
{
    lemma_root_is_at_root(base);
    if path.len() > 0 {
        lemma_root_is_kept(base, path.drop_last());
    }
}

/// Against a base without current-directory and parent-directory
/// components the result has none either.
pub proof fn lemma_result_is_dot_free(base: Seq<Part>, path: Seq<Part>)
    requires
        is_dot_free(base),
    ensures
        is_dot_free(resolve(base, path)),
    decreases path.len(),
{
    if path.len() > 0 {
        lemma_result_is_dot_free(base, path.drop_last());
    }
}

} // verus!
