//! An algebraic group.
use vstd::prelude::*;

verus! {

/// An algebraic group.
pub trait Group: Sized + PartialEq {
    /// The group operation.
    fn op(&self, other: &Self) -> Self;

    /// The identity element.
    fn id() -> Self;

    /// Whether `self` equals the identity.
    fn is_id(&self) -> bool {
        *self == Self::id()
    }

    /// The inverse element.
    fn inv(&self) -> Self;

    /// `self` composed with its inverse.
    fn cancel(&self) -> Self {
        self.op(&self.inv())
    }
}

} // verus!
