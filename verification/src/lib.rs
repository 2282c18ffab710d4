//! Extraction of the inner value of an `Option` or a `Result` by a caller
//! who has already established that the value is there.
//!
//! The obligation "the container holds its good branch" is the precondition
//! of [`UnwrapUnchecked::unwrap_unchecked`]. A verified caller discharges it
//! statically, so the bad branch is dead code in every verified program and
//! no run-time test stands between the caller and the value.

use vstd::prelude::*;

verus! {

/// A container with one good branch, whose value can be moved out by a
/// caller who knows that the good branch holds.
pub trait UnwrapUnchecked {
    /// The type of the inner value.
    type Output;

    /// Whether the container holds its good branch.
    spec fn is_good(&self) -> bool;

    /// The value held by the good branch. Meaningful only where `is_good`
    /// holds; arbitrary elsewhere.
    spec fn good_value(&self) -> Self::Output;

    /// Moves the inner value out of `self`.
    ///
    /// The container must hold its good branch; the value returned is the
    /// one it held. The container is consumed by the call.
    ///
    /// A caller outside the verifier's sight that hands in a container on its
    /// bad branch has broken the precondition; the implementations below stop
    /// such a caller with a panic instead of returning a value.
    fn unwrap_unchecked(self) -> (value: Self::Output)
        requires
            self.is_good(),
        ensures
            value == self.good_value(),
    ;
}

/// The good branch of an `Option` is `Some`.
impl<T> UnwrapUnchecked for Option<T> {
    type Output = T;

    open spec fn is_good(&self) -> bool {
        self is Some
    }

    open spec fn good_value(&self) -> T {
        self->0
    }

    /// Moves the value out of a `Some`: the container was `Some` of exactly
    /// the value returned.
    #[inline]
    fn unwrap_unchecked(self) -> (value: T)
        ensures
            self == Some(value),
    {
        match self {
            Some(value) => value,
            None => unreached(),
        }
    }
}

/// The good branch of a `Result` is `Ok`, whatever the error type.
impl<T, E> UnwrapUnchecked for Result<T, E> {
    type Output = T;

    open spec fn is_good(&self) -> bool {
        self is Ok
    }

    open spec fn good_value(&self) -> T {
        self->Ok_0
    }

    /// Moves the value out of an `Ok`: the container was `Ok` of exactly the
    /// value returned.
    #[inline]
    fn unwrap_unchecked(self) -> (value: T)
        ensures
            self == Ok::<T, E>(value),
    {
        match self {
            Ok(value) => value,
            Err(_) => unreached(),
        }
    }
}

} // verus!
