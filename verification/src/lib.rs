//! Normalization of filesystem paths into an absolute, comparable form.
//!
//! The library holds the decisions of the normalization: which paths are
//! reserved device names, how a path is resolved by its text alone, and how
//! the three modes treat a path that the filesystem does not know. It never
//! touches the filesystem itself: the caller asks the platform what the
//! library requests and hands the answer back.

pub mod component;
pub mod lexical;
pub mod mode;
pub mod normalize;
pub mod platform;
pub mod reserved;

pub use component::{Component, Part};
pub use lexical::{join_components, resolve_components, resolve_lexically};
pub use mode::{NormalizeMode, NormalizeOptions};
pub use normalize::{
    normalize_path, normalize_path_with_options, Failure, Pending, Request, Step,
};
pub use reserved::{is_reserved_path, ReservedNameMatcher, RESERVED_NAMES};
