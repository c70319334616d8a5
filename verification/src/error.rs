use vstd::prelude::*;

verus! {

/// Failures the bridging core reports to its callers.
///
/// The core itself always reports these as values; a debug-oriented build of
/// the unverified glue around it may escalate `TypeMismatch`,
/// `SuperclassNotFound` and `DeclarationFailed` to a fatal abort instead, on
/// the rationale that they indicate a binding programmer error.
#[derive(Clone, Copy, Debug, PartialEq, Eq, Structural, Hash)]
pub enum BridgeError {
    /// A raw foreign boolean matched neither sentinel value.
    UnmarshalError,
    /// A handle's runtime class is not the expected class or a subclass of it.
    TypeMismatch,
    /// Dynamic registration could not resolve the requested superclass.
    SuperclassNotFound,
    /// The foreign runtime rejected a new class declaration.
    DeclarationFailed,
    /// The class cache's lock was poisoned; the operation degrades to a miss.
    CacheUnavailable,
}

} // verus!
