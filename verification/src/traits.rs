use crate::error::BridgeError;
use crate::id::RawId;
use vstd::prelude::*;

verus! {

/// The per-wrapped-type capability to ask the foreign runtime whether a
/// handle is an instance of the wrapped class or a subclass of it.
///
/// Framework wrappers implement this for each typed wrapper; the membership
/// question itself is answered by the runtime, so the method carries no
/// postcondition here. Messaging a null handle is disallowed uniformly.
pub trait IsType {
    type Error;

    /// Returns true if the object is of the type.
    fn is_type(obj: RawId) -> Result<bool, Self::Error>
        requires
            obj != 0,
    ;
}

/// The decision a checked conversion takes once the runtime has answered the
/// class-membership question: membership admits the conversion, a negative
/// answer is a `TypeMismatch`, and a failure to read the answer is passed on.
pub open spec fn spec_downcast_gate(membership: Result<bool, BridgeError>) -> Result<
    (),
    BridgeError,
> {
    match membership {
        Result::Ok(is_member) => if is_member {
            Ok(())
        } else {
            Err(BridgeError::TypeMismatch)
        },
        Result::Err(e) => Err(e),
    }
}

/// Gate a checked conversion on the runtime's class-membership answer.
///
/// Every possible answer is decided into a result value, so a mismatched
/// handle is reported as a recoverable `TypeMismatch` error. Only after
/// `Ok(())` may the caller take its own owned copy of the object and wrap it.
pub fn downcast_gate(membership: Result<bool, BridgeError>) -> (r: Result<(), BridgeError>)
    ensures
        r == spec_downcast_gate(membership),
{
    match membership {
        Ok(is_member) => if is_member {
            Ok(())
        } else {
            Err(BridgeError::TypeMismatch)
        },
        Err(e) => Err(e),
    }
}

/// A handle whose runtime class is unrelated to the target type is refused
/// with `TypeMismatch`, a value the caller can handle.
pub proof fn lemma_downcast_mismatch()
    ensures
        spec_downcast_gate(Ok(false)) == Err::<(), BridgeError>(BridgeError::TypeMismatch),
{
}

} // verus!
