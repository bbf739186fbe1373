//! The library's error types.

use vstd::prelude::*;

verus! {

/// A storage-layer failure: the connection-tracking dump could not produce
/// flow records. Carries the underlying transport error's message.
#[derive(Clone, Debug, PartialEq, Eq)]
pub enum Error {
    Conntrack(String),
}

/// A hard failure of predicate compilation. Unsupported predicate shapes are
/// not errors — they degrade to an unconstrained filter — so this surfaces
/// only when the predicate text itself is rejected, or a constraint set
/// cannot be finalized.
#[derive(Clone, Debug, PartialEq, Eq)]
pub enum ParseSqlToFilterError {
    /// The predicate text is not a well-formed SQL expression; the query is
    /// rejected. Carries the parser's message.
    Parser(String),
    /// A directional constraint set could not be finalized into a filter.
    /// With this filter representation finalization always succeeds, so the
    /// compiler never returns it; it remains part of the error contract as
    /// the defect signal for a failed build step.
    DirFilterBuilder(String),
}

} // verus!
