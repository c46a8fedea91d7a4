//! Complex arithmetic on `num_complex::Complex` over a scalar of this crate,
//! and a cancellation-free evaluation of e^{iθ} − 1.
use vstd::prelude::*;
use num_complex::Complex;
use crate::scalar::{principal_arg_of, HaveConstants, Scalar};

verus! {

#[verifier::external_type_specification]
#[verifier::reject_recursive_types(T)]
pub struct ExComplex<T>(Complex<T>);

/// Relies on the derived `Clone` of `num_complex::Complex`, which points
/// derive their own `Clone` through; nothing is claimed of the copy.
pub assume_specification<T: Clone>[ <Complex<T> as Clone>::clone ](c: &Complex<T>) -> Complex<T>;

/// The most terms a power series is summed to. For the arguments the series
/// branches admit (well below one in size) the terms reach zero long before.
pub const MAX_SERIES_TERMS: u32 = 2048;

pub open spec fn parts<T>(re: T, im: T) -> Complex<T> {
    Complex { re, im }
}

/// r·e^{iθ} = (r cos θ, r sin θ)
pub open spec fn polar_spec<T: Scalar>(r: T, theta: T) -> Complex<T> {
    parts(r.mul_spec(theta.cos_spec()), r.mul_spec(theta.sin_spec()))
}

pub open spec fn c_add_spec<T: Scalar>(a: Complex<T>, b: Complex<T>) -> Complex<T> {
    parts(a.re.add_spec(b.re), a.im.add_spec(b.im))
}

pub open spec fn c_sub_spec<T: Scalar>(a: Complex<T>, b: Complex<T>) -> Complex<T> {
    parts(a.re.sub_spec(b.re), a.im.sub_spec(b.im))
}

/// (a.re b.re − a.im b.im, a.re b.im + a.im b.re)
pub open spec fn c_mul_spec<T: Scalar>(a: Complex<T>, b: Complex<T>) -> Complex<T> {
    parts(
        a.re.mul_spec(b.re).sub_spec(a.im.mul_spec(b.im)),
        a.re.mul_spec(b.im).add_spec(a.im.mul_spec(b.re)),
    )
}

pub open spec fn c_scale_spec<T: Scalar>(a: Complex<T>, k: T) -> Complex<T> {
    parts(a.re.mul_spec(k), a.im.mul_spec(k))
}

pub open spec fn c_unscale_spec<T: Scalar>(a: Complex<T>, k: T) -> Complex<T> {
    parts(a.re.div_spec(k), a.im.div_spec(k))
}

pub open spec fn c_conj_spec<T: Scalar>(a: Complex<T>) -> Complex<T> {
    parts(a.re, a.im.neg_spec())
}

/// |a| = hypot(re, im)
pub open spec fn c_norm_spec<T: Scalar>(a: Complex<T>) -> T {
    a.re.hypot_spec(a.im)
}

/// arg a = atan2(im, re)
pub open spec fn c_arg_spec<T: Scalar>(a: Complex<T>) -> T {
    a.im.atan2_spec(a.re)
}

pub open spec fn c_is_zero_spec<T: HaveConstants>(a: Complex<T>) -> bool {
    a.re.same_spec(T::zero_spec()) && a.im.same_spec(T::zero_spec())
}

/// The scalar n, formed as 1 + 1 + … + 1.
pub open spec fn count_of<T: HaveConstants>(n: nat) -> T
    decreases n,
{
    if n <= 1 {
        T::one_spec()
    } else {
        count_of::<T>((n - 1) as nat).add_spec(T::one_spec())
    }
}

/// The n-th term (iη)ⁿ/n! of the series of e^{iη} − 1, each formed from the
/// one before by multiplying by iη and dividing by n.
pub open spec fn expi_term<T: HaveConstants>(eta: T, n: nat) -> Complex<T>
    decreases n,
{
    if n <= 1 {
        parts(T::zero_spec(), eta)
    } else {
        c_unscale_spec(
            c_mul_spec(expi_term(eta, (n - 1) as nat), parts(T::zero_spec(), eta)),
            count_of::<T>(n),
        )
    }
}

/// The sum of the first n terms of the series of e^{iη} − 1.
pub open spec fn expi_partial<T: HaveConstants>(eta: T, n: nat) -> Complex<T>
    decreases n,
{
    if n <= 1 {
        expi_term(eta, 1)
    } else {
        c_add_spec(expi_partial(eta, (n - 1) as nat), expi_term(eta, n))
    }
}

/// How many terms of the series are summed, counting on from n: up to the
/// last one before the first term that is exactly zero, and at most
/// `MAX_SERIES_TERMS`.
pub open spec fn expi_terms_from<T: HaveConstants>(eta: T, n: nat) -> nat
    decreases MAX_SERIES_TERMS - n,
{
    if n >= MAX_SERIES_TERMS {
        n
    } else if c_is_zero_spec(expi_term(eta, n + 1)) {
        n
    } else {
        expi_terms_from(eta, n + 1)
    }
}

/// e^{iθ} − 1 as computed, for θ normalised to η and the threshold given.
pub open spec fn expi_minus_1_spec<T: HaveConstants>(theta: T, err_thres: T) -> Complex<T> {
    let eta = principal_arg_of(theta);
    if err_thres.le_spec(eta.abs_spec()) {
        c_sub_spec(polar_spec(T::one_spec(), eta), parts(T::one_spec(), T::zero_spec()))
    } else {
        expi_partial(eta, expi_terms_from(eta, 1))
    }
}

pub(crate) fn from_parts<T>(re: T, im: T) -> (r: Complex<T>)
    ensures
        r == parts(re, im),
{
    Complex { re, im }
}

/// r·e^{iθ}
pub(crate) fn from_polar<T: Scalar>(r: T, theta: T) -> (c: Complex<T>)
    ensures
        c == polar_spec(r, theta),
{
    Complex { re: r.mul(theta.cos()), im: r.mul(theta.sin()) }
}

pub(crate) fn c_add<T: Scalar>(a: Complex<T>, b: Complex<T>) -> (r: Complex<T>)
    ensures
        r == c_add_spec(a, b),
{
    Complex { re: a.re.add(b.re), im: a.im.add(b.im) }
}

pub(crate) fn c_sub<T: Scalar>(a: Complex<T>, b: Complex<T>) -> (r: Complex<T>)
    ensures
        r == c_sub_spec(a, b),
{
    Complex { re: a.re.sub(b.re), im: a.im.sub(b.im) }
}

pub(crate) fn c_mul<T: Scalar>(a: Complex<T>, b: Complex<T>) -> (r: Complex<T>)
    ensures
        r == c_mul_spec(a, b),
{
    Complex {
        re: a.re.mul(b.re).sub(a.im.mul(b.im)),
        im: a.re.mul(b.im).add(a.im.mul(b.re)),
    }
}

/// Multiplies both parts by a real factor.
pub(crate) fn c_scale<T: Scalar>(a: Complex<T>, k: T) -> (r: Complex<T>)
    ensures
        r == c_scale_spec(a, k),
{
    Complex { re: a.re.mul(k), im: a.im.mul(k) }
}

/// Divides both parts by a real divisor.
pub(crate) fn c_unscale<T: Scalar>(a: Complex<T>, k: T) -> (r: Complex<T>)
    ensures
        r == c_unscale_spec(a, k),
{
    Complex { re: a.re.div(k), im: a.im.div(k) }
}

pub(crate) fn c_conj<T: Scalar>(a: Complex<T>) -> (r: Complex<T>)
    ensures
        r == c_conj_spec(a),
{
    Complex { re: a.re, im: a.im.neg() }
}

/// The modulus |a|.
pub(crate) fn c_norm<T: Scalar>(a: Complex<T>) -> (r: T)
    ensures
        r == c_norm_spec(a),
{
    a.re.hypot(a.im)
}

/// The argument of a, as atan2 of its parts.
pub(crate) fn c_arg<T: Scalar>(a: Complex<T>) -> (r: T)
    ensures
        r == c_arg_spec(a),
{
    a.im.atan2(a.re)
}

pub(crate) fn c_is_zero<T: HaveConstants>(a: Complex<T>) -> (r: bool)
    ensures
        r == c_is_zero_spec(a),
{
    a.re.same(T::zero()) && a.im.same(T::zero())
}

/// e^{iθ} − 1 for θ taken into (−π, π].
///
/// Where |θ| is at least `err_thres` the polar form is used directly. Below it,
/// subtracting 1 from a number that close to 1 would cancel, so the Taylor
/// series Σ_{n≥1} (iθ)ⁿ/n! is summed until a term is exactly zero.
pub fn expi_minus_1<T: HaveConstants>(theta: T, err_thres: T) -> (r: Complex<T>)
    ensures
        r == expi_minus_1_spec(theta, err_thres),
{
    let eta = theta.principal_arg();
    if err_thres.le(eta.abs()) {
        c_sub(from_polar(T::one(), eta), from_parts(T::one(), T::zero()))
    } else {
        let mut n: T = T::one();
        let mut count: u32 = 1;
        // (iη)^n / n!
        let mut nth_term: Complex<T> = from_parts(T::zero(), eta);
        let mut res: Complex<T> = nth_term;
        let mut done = false;
        while !done && count < MAX_SERIES_TERMS
            invariant
                1 <= count <= MAX_SERIES_TERMS,
                n == count_of::<T>(count as nat),
                nth_term == expi_term(eta, count as nat),
                !done ==> res == expi_partial(eta, count as nat),
                !done ==> expi_terms_from(eta, 1) == expi_terms_from(eta, count as nat),
                done ==> res == expi_partial(eta, expi_terms_from(eta, 1)),
            decreases 2 * (MAX_SERIES_TERMS - count) + (if done { 0int } else { 1int }),
        {
            let next_n = n.add(T::one());
            let next_term = c_unscale(c_mul(nth_term, from_parts(T::zero(), eta)), next_n);
            if c_is_zero(next_term) {
                done = true;
            } else {
                count = count + 1;
                n = next_n;
                nth_term = next_term;
                res = c_add(res, nth_term);
            }
        }
        res
    }
}

} // verus!
