//! The scalar interface the geometry is written against: arithmetic,
//! precision-specific constants, and angle normalisation.
use vstd::prelude::*;

verus! {

/// The arithmetic a scalar type supplies to the geometry routines.
///
/// Implemented once per floating-point precision by the user of the library.
/// Each operation `op` has a spec function `op_spec` that names its result in
/// contracts; the operation returns exactly that value, so every formula of
/// the library is stated over these names.
pub trait Scalar: Sized + Copy {
    spec fn add_spec(self, other: Self) -> Self;

    fn add(self, other: Self) -> (r: Self)
        ensures
            r == self.add_spec(other),
    ;

    spec fn sub_spec(self, other: Self) -> Self;

    fn sub(self, other: Self) -> (r: Self)
        ensures
            r == self.sub_spec(other),
    ;

    spec fn mul_spec(self, other: Self) -> Self;

    fn mul(self, other: Self) -> (r: Self)
        ensures
            r == self.mul_spec(other),
    ;

    spec fn div_spec(self, other: Self) -> Self;

    fn div(self, other: Self) -> (r: Self)
        ensures
            r == self.div_spec(other),
    ;

    spec fn neg_spec(self) -> Self;

    fn neg(self) -> (r: Self)
        ensures
            r == self.neg_spec(),
    ;

    spec fn abs_spec(self) -> Self;

    fn abs(self) -> (r: Self)
        ensures
            r == self.abs_spec(),
    ;

    spec fn floor_spec(self) -> Self;

    fn floor(self) -> (r: Self)
        ensures
            r == self.floor_spec(),
    ;

    /// e^self
    spec fn exp_spec(self) -> Self;

    fn exp(self) -> (r: Self)
        ensures
            r == self.exp_spec(),
    ;

    /// Natural logarithm.
    spec fn ln_spec(self) -> Self;

    fn ln(self) -> (r: Self)
        ensures
            r == self.ln_spec(),
    ;

    spec fn sin_spec(self) -> Self;

    fn sin(self) -> (r: Self)
        ensures
            r == self.sin_spec(),
    ;

    spec fn cos_spec(self) -> Self;

    fn cos(self) -> (r: Self)
        ensures
            r == self.cos_spec(),
    ;

    /// sqrt(self² + other²) without undue overflow.
    spec fn hypot_spec(self, other: Self) -> Self;

    fn hypot(self, other: Self) -> (r: Self)
        ensures
            r == self.hypot_spec(other),
    ;

    /// Four-quadrant arctangent of self / other.
    spec fn atan2_spec(self, other: Self) -> Self;

    fn atan2(self, other: Self) -> (r: Self)
        ensures
            r == self.atan2_spec(other),
    ;

    /// self < other
    spec fn lt_spec(self, other: Self) -> bool;

    fn lt(self, other: Self) -> (r: bool)
        ensures
            r == self.lt_spec(other),
    ;

    /// self <= other
    spec fn le_spec(self, other: Self) -> bool;

    fn le(self, other: Self) -> (r: bool)
        ensures
            r == self.le_spec(other),
    ;

    /// self == other, as numbers
    spec fn same_spec(self, other: Self) -> bool;

    fn same(self, other: Self) -> (r: bool)
        ensures
            r == self.same_spec(other),
    ;
}

/// Precision-specific constants, and normalisation of angles into (−π, π].
pub trait HaveConstants: Scalar {
    spec fn zero_spec() -> Self;

    fn zero() -> (r: Self)
        ensures
            r == Self::zero_spec(),
    ;

    spec fn one_spec() -> Self;

    fn one() -> (r: Self)
        ensures
            r == Self::one_spec(),
    ;

    spec fn two_spec() -> Self;

    fn two() -> (r: Self)
        ensures
            r == Self::two_spec(),
    ;

    fn four() -> Self;

    spec fn eight_spec() -> Self;

    fn eight() -> (r: Self)
        ensures
            r == Self::eight_spec(),
    ;

    spec fn sixteen_spec() -> Self;

    fn sixteen() -> (r: Self)
        ensures
            r == Self::sixteen_spec(),
    ;

    spec fn pi_spec() -> Self;

    fn pi() -> (r: Self)
        ensures
            r == Self::pi_spec(),
    ;

    spec fn two_pi_spec() -> Self;

    fn two_pi() -> (r: Self)
        ensures
            r == Self::two_pi_spec(),
    ;

    fn frac_pi_2() -> Self;

    fn frac_pi_3() -> Self;

    fn frac_pi_4() -> Self;

    fn frac_pi_6() -> Self;

    fn frac_pi_8() -> Self;

    /// Shifts an angle into (−π, π].
    ///
    /// An angle already in range is returned unchanged; otherwise a multiple of
    /// 2π is added, chosen by `floor(1/2 − x/2π)`, and the outcome is checked
    /// once more against both ends so that rounding cannot leave it outside.
    fn principal_arg(&self) -> (r: Self)
        ensures
            r == principal_arg_with(*self, Self::one_spec(), Self::pi_spec(), Self::two_pi_spec()),
    {
        let x = *self;
        let pi = Self::pi();
        let two_pi = Self::two_pi();
        if x.le(pi) && pi.neg().lt(x) {
            x
        } else {
            let one = Self::one();
            let one_half = one.div(one.add(one));
            let shifted = x.add(one_half.sub(x.div(two_pi)).floor().mul(two_pi));
            if pi.lt(shifted) {
                shifted.sub(two_pi)
            } else if shifted.le(pi.neg()) {
                shifted.add(two_pi)
            } else {
                shifted
            }
        }
    }
}

/// Whether an angle lies in (−π, π], for the constant π given.
pub open spec fn in_principal_range<T: Scalar>(x: T, pi: T) -> bool {
    x.le_spec(pi) && pi.neg_spec().lt_spec(x)
}

/// The angle x shifted into (−π, π], for the constants one, π and 2π given:
/// x itself when already there, else x + 2π·floor(1/2 − x/2π), moved by one
/// more turn if rounding left it beyond either end.
pub open spec fn principal_arg_with<T: Scalar>(x: T, one: T, pi: T, two_pi: T) -> T {
    if in_principal_range(x, pi) {
        x
    } else {
        let one_half = one.div_spec(one.add_spec(one));
        let shifted = x.add_spec(one_half.sub_spec(x.div_spec(two_pi)).floor_spec().mul_spec(two_pi));
        if pi.lt_spec(shifted) {
            shifted.sub_spec(two_pi)
        } else if shifted.le_spec(pi.neg_spec()) {
            shifted.add_spec(two_pi)
        } else {
            shifted
        }
    }
}

/// The principal argument of x with the scalar type's own constants.
pub open spec fn principal_arg_of<T: HaveConstants>(x: T) -> T {
    principal_arg_with(x, T::one_spec(), T::pi_spec(), T::two_pi_spec())
}

/// Branch thresholds of the stable composition of translations.
pub trait PoincareAutCalcThres: Sized {
    /// ε_r: how close to the unit circle a radius may come before the
    /// cancellation-free formulas take over.
    spec fn thres_norm_spec() -> Self;

    fn thres_norm() -> (r: Self)
        ensures
            r == Self::thres_norm_spec(),
    ;

    /// ε_η: how small an angle difference may be before the series
    /// evaluation takes over.
    spec fn thres_arg_spec() -> Self;

    fn thres_arg() -> (r: Self)
        ensures
            r == Self::thres_arg_spec(),
    ;
}

} // verus!
