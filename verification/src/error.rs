//! The errors the policy engine reports. Every error is terminal: callers
//! render it once and abort the run.

use vstd::prelude::*;

verus! {

/// An error of this library. Outside failures are carried as their rendered
/// message, taken at the boundary where they arise.
#[derive(Debug)]
pub enum Error {
    /// A configuration was rejected before any file is touched, with a
    /// human-readable explanation (a rename replacement longer than the
    /// original name).
    Message(String),
    /// A `--hidden` or `--default` pattern did not compile.
    Regex(String),
    /// The backend failed to enumerate a symbol table or to build a patch.
    SymTool(String),
}

impl Error {
    /// A configuration error (the only kind this crate phrases itself).
    pub open spec fn is_config_error(self) -> bool {
        self is Message
    }

    /// A pattern-syntax error.
    pub open spec fn is_pattern_error(self) -> bool {
        self is Regex
    }

    /// An enumeration or patch-construction error from the backend.
    pub open spec fn is_backend_error(self) -> bool {
        self is SymTool
    }

    /// The single human-readable line a run prints for this error: in every
    /// variant, exactly the carried text.
    pub fn message(&self) -> (r: &String)
        ensures
            match *self {
                Error::Message(s) => r@ == s@,
                Error::Regex(s) => r@ == s@,
                Error::SymTool(s) => r@ == s@,
            },
    {
        match self {
            Error::Message(s) => s,
            Error::Regex(s) => s,
            Error::SymTool(s) => s,
        }
    }
}

} // verus!
