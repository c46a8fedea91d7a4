//! The isometry group of the Poincaré disk, each element a Möbius transform
//! written as an optional reflection after a rotation after a translation.
use vstd::prelude::*;
use num_complex::Complex;
use crate::approx_eq::ApproxEqUlpsFromInt;
use crate::complex::{
    c_add, c_add_spec, c_arg, c_arg_spec, c_conj, c_conj_spec, c_mul, c_mul_spec, c_norm,
    c_norm_spec, c_scale, c_scale_spec, c_sub, c_sub_spec, count_of, expi_minus_1,
    expi_minus_1_spec, from_parts, from_polar, parts, polar_spec, MAX_SERIES_TERMS,
};
use crate::coord::{
    poincare_conj_spec, poincare_neg_spec, poincare_rotate_spec, poincare_spec,
    poincare_zero_spec, CoordOps, LiteralZero, Poincare,
};
use crate::group::Group;
use crate::scalar::{principal_arg_of, HaveConstants, PoincareAutCalcThres, Scalar};

verus! {

/// An automorphism of the Poincaré disk,
///
/// f(z) = †? ( e^{iθ} (z + c) / (c̄ z + 1) ),
///
/// that is f = †? ∘ R_θ ∘ T_c, where T_c(z) = (z + c) / (c̄ z + 1) translates,
/// R_θ(z) = e^{iθ} z rotates, and † flips the disk across the real axis.
#[derive(Clone, Hash, Debug, Default)]
pub struct PoincareAut<T> {
    /// c, the translation.
    pub trsl: Poincare<T>,
    /// θ, the rotation angle.
    pub rotn: T,
    /// Whether the reflection † is applied last.
    pub refl: bool,
}

/// The reflection flag of a composition: the flags of the two factors
/// combined by exclusive or, since two reflections cancel.
pub open spec fn composed_refl(f: bool, g: bool) -> bool {
    f != g
}

/// The reflection flags of automorphisms obey the group axioms exactly under
/// composition: combining them is associative, the identity's unset flag is
/// neutral on either side, and an automorphism composed with its inverse,
/// which keeps its flag, is left without a reflection. (The translation and
/// rotation parts agree only within floating-point tolerance.)
pub proof fn lemma_reflection_flags_obey_group_laws<T>(
    f: PoincareAut<T>,
    g: PoincareAut<T>,
    h: PoincareAut<T>,
)
    ensures
        composed_refl(composed_refl(f.refl, g.refl), h.refl) == composed_refl(
            f.refl,
            composed_refl(g.refl, h.refl),
        ),
        composed_refl(f.refl, false) == f.refl,
        composed_refl(false, f.refl) == f.refl,
        !composed_refl(f.refl, f.refl),
{
}

/// ±1: −1 under a reflection, +1 otherwise.
pub open spec fn reflection_sign<T: HaveConstants>(refl: bool) -> T {
    if refl {
        T::one_spec().neg_spec()
    } else {
        T::one_spec()
    }
}

/// †?(c): the point itself, or its mirror image under a reflection.
pub open spec fn flipped<T: HaveConstants>(c: Poincare<T>, refl: bool) -> Poincare<T> {
    if refl {
        poincare_conj_spec(c)
    } else {
        c
    }
}

/// R_θ: no translation, the angle θ normalised, no reflection.
pub open spec fn rotation_spec<T: HaveConstants>(rotn: T) -> PoincareAut<T> {
    PoincareAut { trsl: poincare_zero_spec(), rotn: principal_arg_of(rotn), refl: false }
}

/// The identity, the rotation by zero.
pub open spec fn identity_spec<T: HaveConstants>() -> PoincareAut<T> {
    rotation_spec(T::zero_spec())
}

/// The inverse of (c, θ, r): with s = −1 under a reflection and +1 otherwise,
/// the translation −rotate(†?(c), s·θ), the angle −s·θ, and the same flag.
pub open spec fn inverse_spec<T: HaveConstants>(f: PoincareAut<T>) -> PoincareAut<T> {
    let s = reflection_sign::<T>(f.refl);
    PoincareAut {
        trsl: poincare_neg_spec(poincare_rotate_spec(flipped(f.trsl, f.refl), s.mul_spec(f.rotn))),
        rotn: f.rotn.mul_spec(s.neg_spec()),
        refl: f.refl,
    }
}

/// The composition f ∘ g: with w̃ = rotate(†?(c_f), −θ_g), the reflection
/// being g's, and (ψ, u) the composition of the translations w̃ and c_g, the
/// translation u, the angle ψ + θ_g ± θ_f (minus under g's reflection), and
/// the flags combined by exclusive or.
pub open spec fn composition_spec<T: HaveConstants + PoincareAutCalcThres>(
    f: PoincareAut<T>,
    g: PoincareAut<T>,
) -> PoincareAut<T> {
    let w_tilde = poincare_rotate_spec(flipped(f.trsl, g.refl), g.rotn.neg_spec());
    let (psi, u) = compose_trsl_spec(w_tilde, g.trsl);
    PoincareAut {
        trsl: u,
        rotn: psi.add_spec(g.rotn).add_spec(f.rotn.mul_spec(reflection_sign::<T>(g.refl))),
        refl: composed_refl(f.refl, g.refl),
    }
}

/// tanh(δ/2) = (1 − e^{−δ}) / (1 + e^{−δ}), from e^{−δ}.
pub open spec fn normal_norm_spec<T: HaveConstants>(exp_neg_norm: T) -> T {
    T::one_spec().sub_spec(exp_neg_norm).div_spec(T::one_spec().add_spec(exp_neg_norm))
}

/// (1 + e^{−δ_v}) (1 + e^{−δ_w})
pub open spec fn radii_denominator<T: HaveConstants>(exp_neg_v_norm: T, exp_neg_w_norm: T) -> T {
    T::one_spec().add_spec(exp_neg_v_norm).mul_spec(T::one_spec().add_spec(exp_neg_w_norm))
}

/// 1 − r_v r_w = 2 (e^{−δ_v} + e^{−δ_w}) / ((1 + e^{−δ_v}) (1 + e^{−δ_w}))
pub open spec fn one_minus_radii_product_spec<T: HaveConstants>(
    exp_neg_v_norm: T,
    exp_neg_w_norm: T,
) -> T {
    T::two_spec().mul_spec(exp_neg_v_norm.add_spec(exp_neg_w_norm)).div_spec(
        radii_denominator(exp_neg_v_norm, exp_neg_w_norm),
    )
}

/// r_v − r_w = 2 (e^{−δ_w} − e^{−δ_v}) / ((1 + e^{−δ_v}) (1 + e^{−δ_w}))
pub open spec fn radii_difference_spec<T: HaveConstants>(exp_neg_v_norm: T, exp_neg_w_norm: T) -> T {
    T::two_spec().mul_spec(exp_neg_w_norm.sub_spec(exp_neg_v_norm)).div_spec(
        radii_denominator(exp_neg_v_norm, exp_neg_w_norm),
    )
}

/// η = θ_w − θ_v + π, normalised.
pub open spec fn eta_spec<T: HaveConstants>(v: Poincare<T>, w: Poincare<T>) -> T {
    principal_arg_of(w.arg.sub_spec(v.arg).add_spec(T::pi_spec()))
}

/// 1 + v̄w as (modulus, argument): directly in polar form, unless both radii
/// are within ε_r of 1 and |η| ≤ ε_η, where it is
/// (1 − r_v r_w) − r_v r_w (e^{iη} − 1).
pub open spec fn one_plus_v_conj_times_w_spec<T: HaveConstants + PoincareAutCalcThres>(
    v: Poincare<T>,
    w: Poincare<T>,
) -> (T, T) {
    let one = T::one_spec();
    let ev = v.norm.neg_spec().exp_spec();
    let ew = w.norm.neg_spec().exp_spec();
    let rv = normal_norm_spec(ev);
    let rw = normal_norm_spec(ew);
    let eta = eta_spec(v, w);
    let near_circle = one.sub_spec(T::thres_norm_spec());
    let ret = if rv.lt_spec(near_circle) || rw.lt_spec(near_circle) || T::thres_arg_spec().lt_spec(
        eta.abs_spec(),
    ) {
        c_add_spec(
            parts(one, T::zero_spec()),
            c_mul_spec(c_conj_spec(polar_spec(rv, v.arg)), polar_spec(rw, w.arg)),
        )
    } else {
        c_sub_spec(
            parts(one_minus_radii_product_spec(ev, ew), T::zero_spec()),
            c_scale_spec(expi_minus_1_spec(eta, T::thres_arg_spec()), rv.mul_spec(rw)),
        )
    };
    (c_norm_spec(ret), c_arg_spec(ret))
}

/// v + w as (modulus, argument): directly as a sum of polar vectors, unless
/// the radii differ by at most ε_r and |η| ≤ ε_η, where e^{−iθ_v}(v + w) is
/// (r_v − r_w) − r_w (e^{iη} − 1) and its angle is turned back by θ_v.
pub open spec fn v_plus_w_spec<T: HaveConstants + PoincareAutCalcThres>(
    v: Poincare<T>,
    w: Poincare<T>,
) -> (T, T) {
    let ev = v.norm.neg_spec().exp_spec();
    let ew = w.norm.neg_spec().exp_spec();
    let rv = normal_norm_spec(ev);
    let rw = normal_norm_spec(ew);
    let eta = eta_spec(v, w);
    if T::thres_norm_spec().lt_spec(rv.sub_spec(rw).abs_spec()) || T::thres_arg_spec().lt_spec(
        eta.abs_spec(),
    ) {
        let ret = c_add_spec(polar_spec(rv, v.arg), polar_spec(rw, w.arg));
        (c_norm_spec(ret), c_arg_spec(ret))
    } else {
        let ret = c_sub_spec(
            parts(radii_difference_spec(ev, ew), T::zero_spec()),
            c_scale_spec(expi_minus_1_spec(eta, T::thres_arg_spec()), rw),
        );
        (c_norm_spec(ret), principal_arg_of(c_arg_spec(ret).add_spec(v.arg)))
    }
}

/// (x/2)^k, each power formed from the one before.
pub open spec fn log_power<T: HaveConstants>(x: T, k: nat) -> T
    decreases k,
{
    if k <= 1 {
        x.div_spec(T::two_spec())
    } else {
        log_power(x, (k - 1) as nat).mul_spec(x).div_spec(T::two_spec())
    }
}

/// The k-th term (x/2)^k / k of the series of −ln(1 − x/2).
pub open spec fn log_term<T: HaveConstants>(x: T, k: nat) -> T {
    log_power(x, k).div_spec(count_of::<T>(k))
}

/// The sum of the first k terms of the series of −ln(1 − x/2).
pub open spec fn log_partial<T: HaveConstants>(x: T, k: nat) -> T
    decreases k,
{
    if k <= 1 {
        log_power(x, 1)
    } else {
        log_partial(x, (k - 1) as nat).add_spec(log_term(x, k))
    }
}

/// How many terms are summed, counting on from k: up to the last one before
/// the first term that is exactly zero, and at most `MAX_SERIES_TERMS`.
pub open spec fn log_terms_from<T: HaveConstants>(x: T, k: nat) -> nat
    decreases MAX_SERIES_TERMS - k,
{
    if k >= MAX_SERIES_TERMS {
        k
    } else if log_term(x, k + 1).same_spec(T::zero_spec()) {
        k
    } else {
        log_terms_from(x, k + 1)
    }
}

/// Σ_{k≥1} (x/2)^k / k, summed until a term is zero.
pub open spec fn log_series_spec<T: HaveConstants>(x: T) -> T {
    log_partial(x, log_terms_from(x, 1))
}

/// (ψ, u) with T_w ∘ T_v = R_ψ ∘ T_u: ψ = 2 arg(1 + v̄w),
/// arg u = arg(v + w) − arg(1 + v̄w), and δ_u = ln(2/κ − 1) for κ above ε_r,
/// else δ_v + δ_w − ln 8 + 2 ln(1+e^{−δ_v}) + 2 ln(1+e^{−δ_w})
/// + ln|1+v̄w| + ln(|1+v̄w| + |v+w|) − Σ_{k≥1} (κ/2)^k / k, where
/// κ = 16 e^{−(δ_v+δ_w)} / [((1+e^{−δ_v})(1+e^{−δ_w}))² |1+v̄w| (|1+v̄w| + |v+w|)].
pub open spec fn compose_trsl_spec<T: HaveConstants + PoincareAutCalcThres>(
    w: Poincare<T>,
    v: Poincare<T>,
) -> (T, Poincare<T>) {
    let one = T::one_spec();
    let two = T::two_spec();
    let ev = v.norm.neg_spec().exp_spec();
    let ew = w.norm.neg_spec().exp_spec();
    let (opvw_norm, opvw_arg) = one_plus_v_conj_times_w_spec(v, w);
    let (vpw_norm, vpw_arg) = v_plus_w_spec(v, w);
    let psi = opvw_arg.add_spec(opvw_arg);
    let u_arg = vpw_arg.sub_spec(opvw_arg);
    let numer = T::sixteen_spec().mul_spec(v.norm.add_spec(w.norm).neg_spec().exp_spec());
    let factor = radii_denominator(ev, ew);
    let denom = factor.mul_spec(factor).mul_spec(opvw_norm).mul_spec(opvw_norm.add_spec(vpw_norm));
    let kappa = numer.div_spec(denom);
    if T::thres_norm_spec().lt_spec(kappa) {
        (psi, poincare_spec(two.div_spec(kappa).sub_spec(one).ln_spec(), u_arg))
    } else {
        let u_norm = v.norm.add_spec(w.norm).sub_spec(T::eight_spec().ln_spec()).add_spec(
            two.mul_spec(one.add_spec(ev).ln_spec()),
        ).add_spec(two.mul_spec(one.add_spec(ew).ln_spec())).add_spec(opvw_norm.ln_spec()).add_spec(
            opvw_norm.add_spec(vpw_norm).ln_spec(),
        ).sub_spec(log_series_spec(kappa));
        (psi, poincare_spec(u_norm, u_arg))
    }
}

impl<T> PoincareAut<T> {
    /// The automorphism with the given translation, rotation and reflection.
    pub fn new(trsl: Poincare<T>, rotn: T, refl: bool) -> (r: Self)
        ensures
            r.trsl == trsl,
            r.rotn == rotn,
            r.refl == refl,
    {
        PoincareAut { trsl, rotn, refl }
    }
}

impl<T: HaveConstants> PoincareAut<T> {
    /// T_c, which takes the origin to the point c.
    pub fn translation(trsl: Poincare<T>) -> (r: Self)
        ensures
            r == (PoincareAut { trsl, rotn: T::zero_spec(), refl: false }),
    {
        Self::new(trsl, T::zero(), false)
    }

    /// R_θ, the rotation about the origin by θ, with θ normalised.
    pub fn rotation(rotn: T) -> (r: Self)
        ensures
            r == rotation_spec(rotn),
    {
        Self::new(Poincare::zero(), rotn.principal_arg(), false)
    }

    /// †, the reflection across the real axis.
    pub fn reflection() -> (r: Self)
        ensures
            r == (PoincareAut { trsl: poincare_zero_spec(), rotn: T::zero_spec(), refl: true }),
    {
        Self::new(Poincare::zero(), T::zero(), true)
    }
}

impl<T: HaveConstants + ApproxEqUlpsFromInt> ApproxEqUlpsFromInt for PoincareAut<T> {
    /// The translations are close as points, the rotations as points e^{iθ}
    /// of the unit circle (so that θ and θ + 2π agree), and the reflection
    /// flags are equal.
    open spec fn approx_eq_spec(&self, other: &Self, ulps: i32) -> bool {
        self.trsl.approx_eq_spec(&other.trsl, ulps) && polar_spec(T::one_spec(), self.rotn).approx_eq_spec(
            &polar_spec(T::one_spec(), other.rotn),
            ulps,
        ) && self.refl == other.refl
    }

    fn approx_eq_ulps(&self, other: &Self, ulps: i32) -> (r: bool) {
        let one = T::one();
        self.trsl.approx_eq_ulps(&other.trsl, ulps) && from_polar(one, self.rotn).approx_eq_ulps(
            &from_polar(one, other.rotn),
            ulps,
        ) && self.refl == other.refl
    }
}

impl<T: HaveConstants + ApproxEqUlpsFromInt> PartialEq for PoincareAut<T> {
    /// Equal within two units in the last place.
    fn eq(&self, other: &Self) -> (r: bool)
        ensures
            r == self.approx_eq_spec(other, 2),
    {
        self.approx_eq_ulps(other, 2)
    }
}

impl<T: HaveConstants + ApproxEqUlpsFromInt> vstd::std_specs::cmp::PartialEqSpecImpl for PoincareAut<T> {
    /// Equality within a tolerance is not an equivalence relation, so `==` on
    /// automorphisms is not spec equality.
    open spec fn obeys_eq_spec() -> bool {
        false
    }

    open spec fn eq_spec(&self, other: &Self) -> bool {
        self.approx_eq_spec(other, 2)
    }
}

impl<T: HaveConstants + PoincareAutCalcThres + ApproxEqUlpsFromInt> Group for PoincareAut<T> {
    /// The composition self ∘ other.
    ///
    /// With self = †ⁿ ∘ R_φ ∘ T_w and other = †ᵐ ∘ R_θ ∘ T_v, the translation w
    /// is first carried through other's rotation and reflection,
    /// w̃ = e^{−iθ} †ᵐ(w); then T_w̃ ∘ T_v = R_ψ ∘ T_u gives the translation u,
    /// and the angles add up with φ's sign flipped under a reflection.
    fn op(&self, other: &Self) -> (r: Self)
        ensures
            r == composition_spec(*self, *other),
            r.refl == composed_refl(self.refl, other.refl),
    {
        let w = self.trsl;
        let v = other.trsl;
        let w_flipped = if other.refl {
            w.conj()
        } else {
            w
        };
        let w_tilde = w_flipped.rotate(other.rotn.neg());
        let (psi, trsl) = compose_trsl(w_tilde, v);
        let refl = self.refl != other.refl;
        let sign = if other.refl {
            T::one().neg()
        } else {
            T::one()
        };
        let rotn = psi.add(other.rotn).add(self.rotn.mul(sign));
        Self::new(trsl, rotn, refl)
    }

    /// The rotation by zero.
    fn id() -> (r: Self)
        ensures
            r == identity_spec::<T>(),
    {
        Self::rotation(T::zero())
    }

    /// Whether `self` equals the identity within two units in the last place.
    fn is_id(&self) -> (r: bool)
        ensures
            r == self.approx_eq_spec(&identity_spec::<T>(), 2),
    {
        self.eq(&Self::id())
    }

    /// `self` composed with its inverse: the identity up to rounding, and
    /// never a reflection.
    fn cancel(&self) -> (r: Self)
        ensures
            r == composition_spec(*self, inverse_spec(*self)),
            !r.refl,
    {
        self.op(&self.inv())
    }

    /// The inverse: with s = −1 under a reflection and +1 otherwise, the
    /// translation is −rotate(†?(c), s·θ), the angle −s·θ, and the reflection
    /// flag stays.
    fn inv(&self) -> (r: Self)
        ensures
            r == inverse_spec(*self),
            r.trsl.norm == self.trsl.norm,
    {
        let v = self.trsl;
        let sign = if self.refl {
            T::one().neg()
        } else {
            T::one()
        };
        let v_flipped = if self.refl {
            v.conj()
        } else {
            v
        };
        let trsl = v_flipped.rotate(sign.mul(self.rotn)).neg();
        let rotn = self.rotn.mul(sign.neg());
        Self::new(trsl, rotn, self.refl)
    }
}

/// The Euclidean radius tanh(δ/2) of a point at hyperbolic distance δ, from e^{−δ}.
fn normal_norm<T: HaveConstants>(exp_neg_norm: T) -> (r: T)
    ensures
        r == normal_norm_spec(exp_neg_norm),
{
    let one = T::one();
    one.sub(exp_neg_norm).div(one.add(exp_neg_norm))
}

/// (1 + e^{−δ_v}) (1 + e^{−δ_w})
fn radii_denom<T: HaveConstants>(exp_neg_v_norm: T, exp_neg_w_norm: T) -> (r: T)
    ensures
        r == radii_denominator(exp_neg_v_norm, exp_neg_w_norm),
{
    let one = T::one();
    one.add(exp_neg_v_norm).mul(one.add(exp_neg_w_norm))
}

/// 1 − r_v r_w, free of cancellation when both radii are close to 1.
fn one_minus_radii_product<T: HaveConstants>(exp_neg_v_norm: T, exp_neg_w_norm: T) -> (r: T)
    ensures
        r == one_minus_radii_product_spec(exp_neg_v_norm, exp_neg_w_norm),
{
    T::two().mul(exp_neg_v_norm.add(exp_neg_w_norm)).div(radii_denom(exp_neg_v_norm, exp_neg_w_norm))
}

/// r_v − r_w, free of cancellation when the two radii are close.
fn radii_difference<T: HaveConstants>(exp_neg_v_norm: T, exp_neg_w_norm: T) -> (r: T)
    ensures
        r == radii_difference_spec(exp_neg_v_norm, exp_neg_w_norm),
{
    T::two().mul(exp_neg_w_norm.sub(exp_neg_v_norm)).div(radii_denom(exp_neg_v_norm, exp_neg_w_norm))
}

/// 1 + v̄w for points v and w of the disk, as (modulus, argument).
///
/// When both points are near the unit circle and nearly opposite, the polar
/// form would subtract numbers of almost equal size; it is then computed as
/// (1 − r_v r_w) − r_v r_w (e^{iη} − 1), with η = θ_w − θ_v + π.
pub fn calc_one_plus_v_conj_times_w<T: HaveConstants + PoincareAutCalcThres>(
    v: Poincare<T>,
    w: Poincare<T>,
) -> (r: (T, T))
    ensures
        r == one_plus_v_conj_times_w_spec(v, w),
{
    let one = T::one();
    let exp_neg_v_norm = v.norm.neg().exp();
    let exp_neg_w_norm = w.norm.neg().exp();
    let v_normal_norm = normal_norm(exp_neg_v_norm);
    let w_normal_norm = normal_norm(exp_neg_w_norm);
    let eta = w.arg.sub(v.arg).add(T::pi()).principal_arg();
    let near_circle = one.sub(T::thres_norm());

    let ret: Complex<T> = if v_normal_norm.lt(near_circle) || w_normal_norm.lt(near_circle)
        || T::thres_arg().lt(eta.abs()) {
        let v_normal = from_polar(v_normal_norm, v.arg);
        let w_normal = from_polar(w_normal_norm, w.arg);
        c_add(from_parts(one, T::zero()), c_mul(c_conj(v_normal), w_normal))
    } else {
        let first_term = from_parts(
            one_minus_radii_product(exp_neg_v_norm, exp_neg_w_norm),
            T::zero(),
        );
        let second_term = c_scale(
            expi_minus_1(eta, T::thres_arg()),
            v_normal_norm.mul(w_normal_norm),
        );
        c_sub(first_term, second_term)
    };
    (c_norm(ret), c_arg(ret))
}

/// v + w for points v and w of the disk, as (modulus, argument).
///
/// When the two radii are nearly equal and the points nearly opposite, the
/// sum is computed in v's direction, e^{−iθ_v}(v + w) = (r_v − r_w) − r_w (e^{iη} − 1),
/// and the angle is turned back by θ_v.
pub fn calc_v_plus_w<T: HaveConstants + PoincareAutCalcThres>(v: Poincare<T>, w: Poincare<T>) -> (r:
    (T, T))
    ensures
        r == v_plus_w_spec(v, w),
{
    let exp_neg_v_norm = v.norm.neg().exp();
    let exp_neg_w_norm = w.norm.neg().exp();
    let v_normal_norm = normal_norm(exp_neg_v_norm);
    let w_normal_norm = normal_norm(exp_neg_w_norm);
    let eta = w.arg.sub(v.arg).add(T::pi()).principal_arg();

    if T::thres_norm().lt(v_normal_norm.sub(w_normal_norm).abs()) || T::thres_arg().lt(
        eta.abs(),
    ) {
        let v_normal = from_polar(v_normal_norm, v.arg);
        let w_normal = from_polar(w_normal_norm, w.arg);
        let ret = c_add(v_normal, w_normal);
        (c_norm(ret), c_arg(ret))
    } else {
        let first_term = from_parts(radii_difference(exp_neg_v_norm, exp_neg_w_norm), T::zero());
        let second_term = c_scale(expi_minus_1(eta, T::thres_arg()), w_normal_norm);
        let ret = c_sub(first_term, second_term);
        (c_norm(ret), c_arg(ret).add(v.arg).principal_arg())
    }
}

/// Σ_{k≥1} (x/2)^k / k, that is −ln(1 − x/2), summed until a term is zero.
fn log_series<T: HaveConstants>(x: T) -> (r: T)
    ensures
        r == log_series_spec(x),
{
    let two = T::two();
    let mut k: T = T::one();
    let mut count: u32 = 1;
    let mut term = x.div(two);
    let mut res = term;
    let mut done = false;
    while !done && count < MAX_SERIES_TERMS
        invariant
            1 <= count <= MAX_SERIES_TERMS,
            two == T::two_spec(),
            k == count_of::<T>(count as nat),
            term == log_power(x, count as nat),
            !done ==> res == log_partial(x, count as nat),
            !done ==> log_terms_from(x, 1) == log_terms_from(x, count as nat),
            done ==> res == log_series_spec(x),
        decreases 2 * (MAX_SERIES_TERMS - count) + (if done { 0int } else { 1int }),
    {
        let next_k = k.add(T::one());
        let next_term = term.mul(x).div(two);
        let term_over_k = next_term.div(next_k);
        if term_over_k.same(T::zero()) {
            done = true;
        } else {
            count = count + 1;
            k = next_k;
            term = next_term;
            res = res.add(term_over_k);
        }
    }
    res
}

/// Composes two translations: returns (ψ, u) with T_w ∘ T_v = R_ψ ∘ T_u.
///
/// ψ = 2 arg(1 + v̄w) and arg u = arg(v + w) − arg(1 + v̄w). For the distance
/// of u, δ_u = ln(2/κ − 1) while κ is above the threshold. Below it, ln(2/κ − 1)
/// is written out term by term with ln(1 − κ/2) as its series, so that 2/κ is
/// never formed.
pub fn compose_trsl<T: HaveConstants + PoincareAutCalcThres>(w: Poincare<T>, v: Poincare<T>) -> (r: (
    T,
    Poincare<T>,
))
    ensures
        r == compose_trsl_spec(w, v),
{
    let one = T::one();
    let two = T::two();
    let exp_neg_v_norm = v.norm.neg().exp();
    let exp_neg_w_norm = w.norm.neg().exp();
    let (opvw_norm, opvw_arg) = calc_one_plus_v_conj_times_w(v, w);
    let (vpw_norm, vpw_arg) = calc_v_plus_w(v, w);

    let psi = opvw_arg.add(opvw_arg);
    let u_arg = vpw_arg.sub(opvw_arg);

    let numer = T::sixteen().mul(v.norm.add(w.norm).neg().exp());
    let factor = radii_denom(exp_neg_v_norm, exp_neg_w_norm);
    let denom = factor.mul(factor).mul(opvw_norm).mul(opvw_norm.add(vpw_norm));
    let kappa = numer.div(denom);

    if T::thres_norm().lt(kappa) {
        let u_norm = two.div(kappa).sub(one).ln();
        return (psi, Poincare::new(u_norm, u_arg));
    }
    let sum = log_series(kappa);
    let u_norm = v.norm.add(w.norm).sub(T::eight().ln()).add(two.mul(one.add(exp_neg_v_norm).ln())).add(
        two.mul(one.add(exp_neg_w_norm).ln()),
    ).add(opvw_norm.ln()).add(opvw_norm.add(vpw_norm).ln()).sub(sum);
    (psi, Poincare::new(u_norm, u_arg))
}

} // verus!
