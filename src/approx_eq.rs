//! Equality within a number of units in the last place, lifted from scalars
//! to complex numbers and points.
use vstd::prelude::*;
use num_complex::Complex;
use crate::coord::{Coord, Normal, Poincare};
use crate::scalar::{HaveConstants, Scalar};

verus! {

/// Equality within `ulps` units in the last place.
///
/// Scalar types implement it for their own precision; the impls here lift it
/// component by component.
pub trait ApproxEqUlpsFromInt {
    /// Whether `self` and `other` are within `ulps` units in the last place.
    spec fn approx_eq_spec(&self, other: &Self, ulps: i32) -> bool;

    fn approx_eq_ulps(&self, other: &Self, ulps: i32) -> (r: bool)
        ensures
            r == self.approx_eq_spec(other, ulps),
    ;

    /// The negation of `approx_eq_ulps`.
    fn approx_ne_ulps(&self, other: &Self, ulps: i32) -> (r: bool)
        ensures
            r == !self.approx_eq_spec(other, ulps),
    {
        !self.approx_eq_ulps(other, ulps)
    }
}

impl<T: ApproxEqUlpsFromInt> ApproxEqUlpsFromInt for Complex<T> {
    open spec fn approx_eq_spec(&self, other: &Self, ulps: i32) -> bool {
        self.re.approx_eq_spec(&other.re, ulps) && self.im.approx_eq_spec(&other.im, ulps)
    }

    /// Both the real parts and the imaginary parts are close.
    fn approx_eq_ulps(&self, other: &Self, ulps: i32) -> bool {
        self.re.approx_eq_ulps(&other.re, ulps) && self.im.approx_eq_ulps(&other.im, ulps)
    }
}

impl<T: ApproxEqUlpsFromInt> ApproxEqUlpsFromInt for Normal<T> {
    open spec fn approx_eq_spec(&self, other: &Self, ulps: i32) -> bool {
        self.0.approx_eq_spec(&other.0, ulps)
    }

    fn approx_eq_ulps(&self, other: &Self, ulps: i32) -> bool {
        self.0.approx_eq_ulps(&other.0, ulps)
    }
}

impl<T: HaveConstants + ApproxEqUlpsFromInt> ApproxEqUlpsFromInt for Poincare<T> {
    open spec fn approx_eq_spec(&self, other: &Self, ulps: i32) -> bool {
        self.norm.approx_eq_spec(&other.norm, ulps) && (self.arg.approx_eq_spec(&other.arg, ulps)
            || self.arg.approx_eq_spec(&other.arg.add_spec(T::two_pi_spec()), ulps)
            || self.arg.approx_eq_spec(&other.arg.sub_spec(T::two_pi_spec()), ulps))
    }

    /// The distances are close, and the angles are close once a difference
    /// of a whole turn either way is forgiven.
    fn approx_eq_ulps(&self, other: &Self, ulps: i32) -> bool {
        self.norm.approx_eq_ulps(&other.norm, ulps) && (self.arg.approx_eq_ulps(&other.arg, ulps)
            || self.arg.approx_eq_ulps(&other.arg.add(T::two_pi()), ulps)
            || self.arg.approx_eq_ulps(&other.arg.sub(T::two_pi()), ulps))
    }
}

impl<T: HaveConstants + ApproxEqUlpsFromInt> ApproxEqUlpsFromInt for Coord<T> {
    /// Points in the same encoding compare by their payloads; points in
    /// different encodings are never equal.
    open spec fn approx_eq_spec(&self, other: &Self, ulps: i32) -> bool {
        match (*self, *other) {
            (Coord::Normal(a), Coord::Normal(b)) => a.approx_eq_spec(&b, ulps),
            (Coord::Poincare(a), Coord::Poincare(b)) => a.approx_eq_spec(&b, ulps),
            _ => false,
        }
    }

    fn approx_eq_ulps(&self, other: &Self, ulps: i32) -> (r: bool)
        ensures
            (self is Normal) != (other is Normal) ==> !r,
    {
        match (self, other) {
            (Coord::Normal(a), Coord::Normal(b)) => a.approx_eq_ulps(b, ulps),
            (Coord::Poincare(a), Coord::Poincare(b)) => a.approx_eq_ulps(b, ulps),
            _ => false,
        }
    }
}

} // verus!
