use vstd::prelude::*;

use crate::archive::FormatMismatch;
use crate::backend::Backend;
use crate::download::FailureReason;
use crate::resolve::ResolveFailure;

verus! {

/// Why a build-time run failed; any of these aborts the whole run.
#[derive(Debug, Clone, PartialEq, Eq)]
pub enum BuildError {
    /// No backend is enabled.
    NoBackend,
    /// A backend could not be resolved.
    Resolve { backend: Backend, failure: ResolveFailure },
    /// A download failed on every attempt; the reason is that of the last attempt.
    Download { url: String, reason: FailureReason },
    /// A downloaded file is not the archive it should be.
    Format(FormatMismatch),
    /// Reading, extracting or placing files failed.
    Filesystem(String),
    /// The native configure step failed; the text is its diagnostic output.
    Configure(String),
    /// The native build step failed.
    Build(String),
}

} // verus!
