//! The errors with which a bridge request aborts. Every request either
//! commits all of its effects or returns one of these and changes nothing.

use vstd::prelude::*;

verus! {

/// Why a request was rejected.
#[derive(Clone, Copy, Debug, PartialEq, Eq)]
pub enum BridgeError {
    /// The caller is not the signer the operation demands.
    AuthorityError,
    /// A custody or supply invariant would be broken: the custody slot is
    /// already occupied on lock or empty on unlock, a balance is too small,
    /// or a unit-supply ceiling would be exceeded.
    InvariantViolation,
    /// A record or holding that the request reads does not exist and cannot
    /// be created in this context.
    NotFound,
    /// An identifying component is unusable: a seed is over the derivation
    /// limit, or a referenced account has an incompatible shape.
    MalformedInput,
}

} // verus!
