//! The bridge's error kinds. Engine diagnostics are carried through as
//! values; none of the kinds is recovered internally.
use vstd::prelude::*;

verus! {

// The engine's error types have public payloads, so the verifier can see
// them once they are declared.
#[verifier::external_type_specification]
pub struct ExLanguageError(tree_sitter::LanguageError);

#[verifier::external_type_specification]
pub struct ExQueryErrorKind(tree_sitter::QueryErrorKind);

#[verifier::external_type_specification]
pub struct ExQueryError(tree_sitter::QueryError);

#[verifier::external_type_specification]
pub struct ExIncludedRangesError(tree_sitter::IncludedRangesError);

/// Everything that can go wrong at the bridge boundary.
#[derive(Debug)]
pub enum Error {
    /// The tag names a grammar that is not compiled in.
    UnsupportedLanguage,
    /// The engine rejected the language descriptor.
    LanguageError(tree_sitter::LanguageError),
    /// Included ranges are not ordered or overlap; carries the index of the
    /// first offending range.
    IncludedRangesError(usize),
    /// The query source failed to compile; carries the engine's diagnostic.
    QueryError(tree_sitter::QueryError),
    /// The query source bytes are not valid UTF-8.
    InvalidUtf8,
    /// A prior panic left a handle's lock unusable.
    LockPoisoned,
}

} // verus!
