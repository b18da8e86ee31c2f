//! The single error type surfaced by the rendering engine.

use vstd::prelude::*;

verus! {

/// Errors that can surface while rendering images for a terminal.
///
/// Backend and encoder failures are reported through `Other` with a
/// descriptive message; no error is retried internally.
#[derive(Debug)]
pub enum RimgError {
    /// Standard output is not a terminal, so escape sequences are refused.
    StdoutNotTty,
    /// No input paths were provided.
    MissingInput,
    /// Any other failure, described by its message.
    Other(String),
}

impl RimgError {
    /// What `message` returns for each variant.
    pub open spec fn spec_message(&self) -> Seq<char> {
        match self {
            RimgError::StdoutNotTty =>
                "standard output is not a tty; refusing to emit escape sequences"@,
            RimgError::MissingInput => "no input paths provided"@,
            RimgError::Other(msg) => msg@,
        }
    }

    /// Wrap a descriptive message in the error type.
    pub fn other(msg: String) -> (r: Self)
        ensures
            r == RimgError::Other(msg),
    {
        RimgError::Other(msg)
    }

    /// A human-readable description of the error.
    pub fn message(&self) -> (r: String)
        ensures
            r@ == self.spec_message(),
    {
        match self {
            RimgError::StdoutNotTty => String::from_str(
                "standard output is not a tty; refusing to emit escape sequences"),
            RimgError::MissingInput => String::from_str("no input paths provided"),
            RimgError::Other(msg) => msg.clone(),
        }
    }
}

} // verus!
