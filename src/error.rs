//! Failures the service reports to its callers.

use vstd::prelude::*;

verus! {

/// What was wrong with a create request.
#[derive(Clone, Copy, Debug, PartialEq, Eq)]
pub enum InputProblem {
    MalformedUrl,
    UnsupportedScheme,
    MalformedCode,
    ExpiryOutOfRange,
}

/// The service's failure kinds.
#[derive(Clone, Copy, Debug, PartialEq, Eq)]
pub enum AppError {
    /// Malformed URL, scheme other than http or https, malformed custom code.
    InvalidInput(InputProblem),
    /// The code is already held by an active link.
    Conflict,
    /// The code is absent or expired.
    NotFound,
    /// A backend the operation depends on failed; the caller may retry.
    Unavailable,
}

/// A failure of the durable store.
#[derive(Clone, Copy, Debug, PartialEq, Eq)]
pub enum StoreFailure {
    /// The short code is already taken.
    UniqueViolation,
    /// Any other backend failure.
    Backend,
}

/// A failure of the cache; readers treat it as a miss.
#[derive(Clone, Copy, Debug, PartialEq, Eq)]
pub struct CacheUnavailable;

} // verus!
