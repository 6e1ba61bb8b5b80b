//! The modes of normalization and the options value that carries one.

use vstd::prelude::*;

verus! {

/// How a path that the filesystem does not know is treated.
#[derive(Clone, Copy, Debug, PartialEq, Eq, Structural)]
pub enum NormalizeMode {
    /// Normalize the path only if the filesystem resolves it; a path that is
    /// not found is an error.
    Strict,
    /// Ask the filesystem first and resolve by the path's text when the path
    /// is not found. No ancestor of a missing path is looked up: a missing
    /// path is resolved exactly as in `Lexical` mode.
    Hybrid,
    /// Resolve by the path's text alone when the path is not found. This is
    /// the default.
    Lexical,
}

impl NormalizeMode {
    /// Whether a path that is not found is resolved by its text in this mode.
    pub open spec fn falls_back(self) -> bool {
        self != NormalizeMode::Strict
    }

    /// Whether a path that is not found is resolved by its text in this mode.
    pub fn tolerates_missing(&self) -> (tolerant: bool)
        ensures
            tolerant == self.falls_back(),
    {
        match self {
            NormalizeMode::Strict => false,
            NormalizeMode::Hybrid => true,
            NormalizeMode::Lexical => true,
        }
    }
}

impl Default for NormalizeMode {
    fn default() -> (mode: Self)
        ensures
            mode == NormalizeMode::Lexical,
    {
        NormalizeMode::Lexical
    }
}

/// The configuration of one normalization: a single mode.
#[derive(Clone, Copy, Debug, PartialEq, Eq, Structural)]
pub struct NormalizeOptions {
    mode: NormalizeMode,
}

impl NormalizeOptions {
    /// The mode that these options carry.
    pub closed spec fn spec_mode(&self) -> NormalizeMode {
        self.mode
    }

    /// The default options: those with the default mode, `Lexical`.
    pub closed spec fn default_options() -> NormalizeOptions {
        NormalizeOptions { mode: NormalizeMode::Lexical }
    }

    /// The mode of the default options is `Lexical`.
    pub proof fn lemma_default_mode()
        ensures
            NormalizeOptions::default_options().spec_mode() == NormalizeMode::Lexical,
    {
    }

    /// Options with the given mode.
    pub fn new(mode: NormalizeMode) -> (options: Self)
        ensures
            options.spec_mode() == mode,
    {
        NormalizeOptions { mode }
    }

    /// The mode that these options carry.
    #[verifier::when_used_as_spec(spec_mode)]
    pub fn mode(&self) -> (mode: NormalizeMode)
        ensures
            mode == self.spec_mode(),
    {
        self.mode
    }
}

impl Default for NormalizeOptions {
    fn default() -> (options: Self)
        ensures
            options == NormalizeOptions::default_options(),
    {
        NormalizeOptions { mode: NormalizeMode::Lexical }
    }
}

} // verus!
