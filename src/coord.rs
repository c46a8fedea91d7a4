//! Points of the disk in two encodings: Euclidean (`Normal`) and by
//! hyperbolic distance and angle (`Poincare`), and a tagged union of the two.
use vstd::prelude::*;
use num_complex::Complex;
use crate::complex::{
    c_arg, c_arg_spec, c_conj, c_conj_spec, c_is_zero, c_is_zero_spec, c_mul, c_mul_spec, c_norm,
    c_norm_spec, from_parts, from_polar, parts, polar_spec,
};
use crate::scalar::{principal_arg_of, HaveConstants, Scalar};

verus! {

/// A disk point as a complex number z with |z| < 1.
#[derive(PartialEq, Eq, Copy, Clone, Hash, Debug, Default)]
#[verifier::reject_recursive_types(T)]
pub struct Normal<T>(pub Complex<T>);

/// A disk point as its hyperbolic distance from the origin and its angle.
#[derive(PartialEq, Eq, Copy, Clone, Hash, Debug, Default)]
pub struct Poincare<T> {
    /// δ ≥ 0, the hyperbolic distance from the origin.
    pub norm: T,
    /// θ, kept in (−π, π] by the constructor and the operations.
    pub arg: T,
}

/// The point at distance `norm` and angle `arg` normalised.
pub open spec fn poincare_spec<T: HaveConstants>(norm: T, arg: T) -> Poincare<T> {
    Poincare { norm, arg: principal_arg_of(arg) }
}

/// The origin, with distance and angle both zero.
pub open spec fn poincare_zero_spec<T: HaveConstants>() -> Poincare<T> {
    Poincare { norm: T::zero_spec(), arg: T::zero_spec() }
}

/// A point turned by θ: same distance, angle θ added and normalised.
pub open spec fn poincare_rotate_spec<T: HaveConstants>(p: Poincare<T>, theta: T) -> Poincare<T> {
    poincare_spec(p.norm, p.arg.add_spec(theta))
}

/// A point's mirror image: same distance, angle negated and normalised.
pub open spec fn poincare_conj_spec<T: HaveConstants>(p: Poincare<T>) -> Poincare<T> {
    poincare_spec(p.norm, p.arg.neg_spec())
}

/// −p, the point turned by π.
pub open spec fn poincare_neg_spec<T: HaveConstants>(p: Poincare<T>) -> Poincare<T> {
    poincare_rotate_spec(p, T::pi_spec())
}

/// z·e^{iθ}
pub open spec fn normal_rotate_spec<T: HaveConstants>(z: Normal<T>, theta: T) -> Normal<T> {
    Normal(c_mul_spec(z.0, polar_spec(T::one_spec(), theta)))
}

/// The Euclidean form of a point: radius (1 − e^{−δ}) / (1 + e^{−δ}) and the
/// same angle.
pub open spec fn to_normal_spec<T: HaveConstants>(p: Poincare<T>) -> Normal<T> {
    let one = T::one_spec();
    let e = p.norm.neg_spec().exp_spec();
    Normal(polar_spec(one.sub_spec(e).div_spec(one.add_spec(e)), p.arg))
}

/// The distance form of a point: δ = ln((1 + r) / (1 − r)) for r = |z|, and
/// the angle of z normalised.
pub open spec fn to_poincare_spec<T: HaveConstants>(z: Normal<T>) -> Poincare<T> {
    let one = T::one_spec();
    let radius = c_norm_spec(z.0);
    poincare_spec(one.add_spec(radius).div_spec(one.sub_spec(radius)).ln_spec(), c_arg_spec(z.0))
}

impl<T: HaveConstants> Poincare<T> {
    /// The point at hyperbolic distance `norm` in direction `arg`, with the
    /// angle normalised.
    pub fn new(norm: T, arg: T) -> (r: Self)
        ensures
            r == poincare_spec(norm, arg),
    {
        Poincare { norm, arg: arg.principal_arg() }
    }

    /// The same point in Euclidean form.
    pub fn to_normal(&self) -> (r: Normal<T>)
        ensures
            r == to_normal_spec(*self),
    {
        let one = T::one();
        let e = self.norm.neg().exp();
        Normal(from_polar(one.sub(e).div(one.add(e)), self.arg))
    }
}

impl<T: HaveConstants> Normal<T> {
    /// The same point by hyperbolic distance and angle.
    pub fn to_poincare(&self) -> (r: Poincare<T>)
        ensures
            r == to_poincare_spec(*self),
    {
        let one = T::one();
        let radius = c_norm(self.0);
        Poincare::new(one.add(radius).div(one.sub(radius)).ln(), c_arg(self.0))
    }
}

/// A disk point in either encoding. Operations keep the encoding; two values
/// in different encodings are never compared equal.
#[derive(PartialEq, Eq, Copy, Clone, Hash, Debug)]
#[verifier::reject_recursive_types(T)]
pub enum Coord<T> {
    Normal(Normal<T>),
    Poincare(Poincare<T>),
}

/// A zero value that does not need an addition.
pub trait LiteralZero: Sized {
    /// Returns `0`.
    fn zero() -> Self;

    /// Sets `self` to `0`.
    fn set_zero(&mut self) {
        *self = Self::zero();
    }

    /// Whether `self` is `0`.
    fn is_zero(&self) -> bool;
}

impl<T: HaveConstants> LiteralZero for Normal<T> {
    fn zero() -> (r: Self)
        ensures
            r == Normal(parts(T::zero_spec(), T::zero_spec())),
    {
        Normal(from_parts(T::zero(), T::zero()))
    }

    fn is_zero(&self) -> (r: bool)
        ensures
            r == c_is_zero_spec(self.0),
    {
        c_is_zero(self.0)
    }
}

impl<T: HaveConstants> LiteralZero for Poincare<T> {
    fn zero() -> (r: Self)
        ensures
            r == poincare_zero_spec::<T>(),
    {
        Poincare { norm: T::zero(), arg: T::zero() }
    }

    fn is_zero(&self) -> (r: bool)
        ensures
            r == (self.norm.same_spec(T::zero_spec()) && self.arg.same_spec(T::zero_spec())),
    {
        self.norm.same(T::zero()) && self.arg.same(T::zero())
    }
}

/// Norm, argument, conjugation and rotation of a point.
///
/// The norm of a `Normal` is its modulus and the norm of a `Poincare` its
/// hyperbolic distance: the two are not comparable.
pub trait CoordOps<T: HaveConstants>: Sized {
    /// The distance from the origin, in the encoding's own measure.
    fn norm(&self) -> T;

    /// The angle of the point.
    fn arg(&self) -> T;

    /// The mirror image across the real axis.
    fn conj(&self) -> Self;

    /// The point turned by θ about the origin, e^{iθ}·self.
    fn rotate(&self, theta: T) -> Self;

    /// The point turned by π, −self.
    fn neg(&self) -> Self {
        self.rotate(T::pi())
    }
}

impl<T: HaveConstants> CoordOps<T> for Normal<T> {
    fn norm(&self) -> (r: T)
        ensures
            r == c_norm_spec(self.0),
    {
        c_norm(self.0)
    }

    fn arg(&self) -> (r: T)
        ensures
            r == c_arg_spec(self.0),
    {
        c_arg(self.0)
    }

    fn conj(&self) -> (r: Self)
        ensures
            r == Normal(c_conj_spec(self.0)),
    {
        Normal(c_conj(self.0))
    }

    fn rotate(&self, theta: T) -> (r: Self)
        ensures
            r == normal_rotate_spec(*self, theta),
    {
        Normal(c_mul(self.0, from_polar(T::one(), theta)))
    }

    fn neg(&self) -> (r: Self)
        ensures
            r == normal_rotate_spec(*self, T::pi_spec()),
    {
        self.rotate(T::pi())
    }
}

impl<T: HaveConstants> CoordOps<T> for Poincare<T> {
    fn norm(&self) -> (r: T)
        ensures
            r == self.norm,
    {
        self.norm
    }

    fn arg(&self) -> (r: T)
        ensures
            r == self.arg,
    {
        self.arg
    }

    fn conj(&self) -> (r: Self)
        ensures
            r == poincare_conj_spec(*self),
    {
        Self::new(self.norm, self.arg.neg())
    }

    fn rotate(&self, theta: T) -> (r: Self)
        ensures
            r == poincare_rotate_spec(*self, theta),
    {
        Self::new(self.norm, self.arg.add(theta))
    }

    fn neg(&self) -> (r: Self)
        ensures
            r == poincare_neg_spec(*self),
    {
        self.rotate(T::pi())
    }
}

impl<T: HaveConstants> CoordOps<T> for Coord<T> {
    fn norm(&self) -> (r: T)
        ensures
            r == match *self {
                Coord::Normal(z) => c_norm_spec(z.0),
                Coord::Poincare(p) => p.norm,
            },
    {
        match self {
            Coord::Normal(inner) => inner.norm(),
            Coord::Poincare(inner) => inner.norm(),
        }
    }

    fn arg(&self) -> (r: T)
        ensures
            r == match *self {
                Coord::Normal(z) => c_arg_spec(z.0),
                Coord::Poincare(p) => p.arg,
            },
    {
        match self {
            Coord::Normal(inner) => inner.arg(),
            Coord::Poincare(inner) => inner.arg(),
        }
    }

    fn conj(&self) -> (r: Self)
        ensures
            r == match *self {
                Coord::Normal(z) => Coord::Normal(Normal(c_conj_spec(z.0))),
                Coord::Poincare(p) => Coord::Poincare(poincare_conj_spec(p)),
            },
    {
        match self {
            Coord::Normal(inner) => Coord::Normal(inner.conj()),
            Coord::Poincare(inner) => Coord::Poincare(inner.conj()),
        }
    }

    fn rotate(&self, theta: T) -> (r: Self)
        ensures
            r == match *self {
                Coord::Normal(z) => Coord::Normal(normal_rotate_spec(z, theta)),
                Coord::Poincare(p) => Coord::Poincare(poincare_rotate_spec(p, theta)),
            },
    {
        match self {
            Coord::Normal(inner) => Coord::Normal(inner.rotate(theta)),
            Coord::Poincare(inner) => Coord::Poincare(inner.rotate(theta)),
        }
    }

    fn neg(&self) -> (r: Self)
        ensures
            r == match *self {
                Coord::Normal(z) => Coord::Normal(normal_rotate_spec(z, T::pi_spec())),
                Coord::Poincare(p) => Coord::Poincare(poincare_neg_spec(p)),
            },
    {
        self.rotate(T::pi())
    }
}

} // verus!
