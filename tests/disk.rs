use float_cmp::ApproxEq;
use num_complex::Complex;
use poincare_disk::approx_eq::ApproxEqUlpsFromInt;
use poincare_disk::complex::expi_minus_1;
use poincare_disk::coord::{Coord, CoordOps, LiteralZero, Normal, Poincare};
use poincare_disk::group::Group;
use poincare_disk::poincare_aut::{calc_one_plus_v_conj_times_w, calc_v_plus_w, PoincareAut};
use poincare_disk::scalar::{HaveConstants, PoincareAutCalcThres, Scalar};

#[derive(Clone, Copy, Debug)]
struct F(f64);

impl Scalar for F {
    fn add_spec(self, o: F) -> F { self.add(o) }
    fn sub_spec(self, o: F) -> F { self.sub(o) }
    fn mul_spec(self, o: F) -> F { self.mul(o) }
    fn div_spec(self, o: F) -> F { self.div(o) }
    fn neg_spec(self) -> F { self.neg() }
    fn abs_spec(self) -> F { self.abs() }
    fn floor_spec(self) -> F { self.floor() }
    fn exp_spec(self) -> F { self.exp() }
    fn ln_spec(self) -> F { self.ln() }
    fn sin_spec(self) -> F { self.sin() }
    fn cos_spec(self) -> F { self.cos() }
    fn hypot_spec(self, o: F) -> F { self.hypot(o) }
    fn atan2_spec(self, o: F) -> F { self.atan2(o) }
    fn lt_spec(self, o: F) -> bool { self.lt(o) }
    fn le_spec(self, o: F) -> bool { self.le(o) }
    fn same_spec(self, o: F) -> bool { self.same(o) }
    fn add(self, o: F) -> F { F(self.0 + o.0) }
    fn sub(self, o: F) -> F { F(self.0 - o.0) }
    fn mul(self, o: F) -> F { F(self.0 * o.0) }
    fn div(self, o: F) -> F { F(self.0 / o.0) }
    fn neg(self) -> F { F(-self.0) }
    fn abs(self) -> F { F(self.0.abs()) }
    fn floor(self) -> F { F(self.0.floor()) }
    fn exp(self) -> F { F(self.0.exp()) }
    fn ln(self) -> F { F(self.0.ln()) }
    fn sin(self) -> F { F(self.0.sin()) }
    fn cos(self) -> F { F(self.0.cos()) }
    fn hypot(self, o: F) -> F { F(self.0.hypot(o.0)) }
    fn atan2(self, o: F) -> F { F(self.0.atan2(o.0)) }
    fn lt(self, o: F) -> bool { self.0 < o.0 }
    fn le(self, o: F) -> bool { self.0 <= o.0 }
    fn same(self, o: F) -> bool { self.0 == o.0 }
}

impl HaveConstants for F {
    fn zero_spec() -> F { F::zero() }
    fn one_spec() -> F { F::one() }
    fn two_spec() -> F { F::two() }
    fn eight_spec() -> F { F::eight() }
    fn sixteen_spec() -> F { F::sixteen() }
    fn pi_spec() -> F { F::pi() }
    fn two_pi_spec() -> F { F::two_pi() }
    fn zero() -> F { F(0.0) }
    fn one() -> F { F(1.0) }
    fn two() -> F { F(2.0) }
    fn four() -> F { F(4.0) }
    fn eight() -> F { F(8.0) }
    fn sixteen() -> F { F(16.0) }
    fn pi() -> F { F(std::f64::consts::PI) }
    fn two_pi() -> F { F(2.0 * std::f64::consts::PI) }
    fn frac_pi_2() -> F { F(std::f64::consts::FRAC_PI_2) }
    fn frac_pi_3() -> F { F(std::f64::consts::FRAC_PI_3) }
    fn frac_pi_4() -> F { F(std::f64::consts::FRAC_PI_4) }
    fn frac_pi_6() -> F { F(std::f64::consts::FRAC_PI_6) }
    fn frac_pi_8() -> F { F(std::f64::consts::FRAC_PI_8) }
}

impl PoincareAutCalcThres for F {
    fn thres_norm_spec() -> F { F::thres_norm() }
    fn thres_arg_spec() -> F { F::thres_arg() }
    fn thres_norm() -> F { F(1e-5) }
    fn thres_arg() -> F { F(1e-5) }
}

impl ApproxEqUlpsFromInt for F {
    fn approx_eq_spec(&self, other: &F, ulps: i32) -> bool {
        self.approx_eq_ulps(other, ulps)
    }
    fn approx_eq_ulps(&self, other: &F, ulps: i32) -> bool {
        self.0.approx_eq(other.0, (0.0, ulps as i64))
    }
}

const PI: f64 = std::f64::consts::PI;
const TOL: f64 = 1e-9;

fn pt(norm: f64, arg: f64) -> Poincare<F> {
    Poincare::new(F(norm), F(arg))
}

fn aut(norm: f64, arg: f64, rotn: f64, refl: bool) -> PoincareAut<F> {
    PoincareAut::new(pt(norm, arg), F(rotn), refl)
}

fn close(a: f64, b: f64) -> bool {
    (a - b).abs() <= TOL
}

fn euclid(p: &Poincare<F>) -> (f64, f64) {
    let r = (p.norm.0 / 2.0).tanh();
    (r * p.arg.0.cos(), r * p.arg.0.sin())
}

/// The two automorphisms agree within `TOL`: translations as Euclidean
/// points, rotations as points of the unit circle, reflections exactly.
fn same_aut(f: &PoincareAut<F>, g: &PoincareAut<F>) -> bool {
    let (fx, fy) = euclid(&f.trsl);
    let (gx, gy) = euclid(&g.trsl);
    close(fx, gx)
        && close(fy, gy)
        && close(f.rotn.0.cos(), g.rotn.0.cos())
        && close(f.rotn.0.sin(), g.rotn.0.sin())
        && f.refl == g.refl
}

fn samples() -> Vec<PoincareAut<F>> {
    vec![
        aut(0.0, 0.0, 0.0, false),
        aut(1.0, 0.0, 0.0, false),
        aut(0.5, 1.2, -0.7, false),
        aut(2.0, -2.5, 3.0, true),
        aut(3.0, PI, 1.0, true),
        aut(0.2, -0.3, -3.0, false),
    ]
}

#[test]
fn principal_arg_keeps_values_in_range() {
    assert_eq!(F(0.5).principal_arg().0, 0.5);
    assert_eq!(F(PI).principal_arg().0, PI);
    assert_eq!(F(-PI).principal_arg().0, PI);
    assert!(close(F(3.0 * PI).principal_arg().0, PI));
    assert!(close(F(PI / 2.0 + 4.0 * PI).principal_arg().0, PI / 2.0));
    assert!(close(F(-PI / 2.0 - 6.0 * PI).principal_arg().0, -PI / 2.0));
}

#[test]
fn principal_arg_is_idempotent_and_periodic() {
    let mut x = -40.0;
    while x < 40.0 {
        let p = F(x).principal_arg().0;
        assert!(p <= PI && p > -PI, "{} gave {}", x, p);
        assert_eq!(F(p).principal_arg().0, p);
        for k in -3..4 {
            let q = F(x + 2.0 * PI * (k as f64)).principal_arg().0;
            let d = (q - p).abs();
            assert!(d < 1e-9 || (d - 2.0 * PI).abs() < 1e-9, "{} {} {}", x, k, q);
        }
        x += 0.37;
    }
}

#[test]
fn group_composition_is_associative() {
    let s = samples();
    for f in &s {
        for g in &s {
            for h in &s {
                let left = f.op(g).op(h);
                let right = f.op(&g.op(h));
                assert!(same_aut(&left, &right), "{:?} {:?} {:?}", f, g, h);
            }
        }
    }
}

#[test]
fn group_identity_is_neutral() {
    let id = PoincareAut::<F>::id();
    assert!(id.is_id());
    for f in &samples() {
        assert!(same_aut(&f.op(&id), f));
        assert!(same_aut(&id.op(f), f));
    }
}

#[test]
fn group_inverse_cancels() {
    let id = PoincareAut::<F>::id();
    for f in &samples() {
        assert!(same_aut(&f.op(&f.inv()), &id), "{:?}", f);
        assert!(same_aut(&f.cancel(), &id), "{:?}", f);
    }
}

#[test]
fn reflection_is_an_involution() {
    let r = PoincareAut::<F>::reflection();
    let rr = r.op(&r);
    assert!(!rr.refl);
    assert!(same_aut(&rr, &PoincareAut::id()));
    assert!(rr == PoincareAut::id());
}

#[test]
fn rotations_compose_by_adding_angles() {
    let angles = [0.0, 0.3, -1.1, 2.9, -3.0, PI];
    for a in angles {
        for b in angles {
            let composed = PoincareAut::rotation(F(a)).op(&PoincareAut::rotation(F(b)));
            let direct = PoincareAut::rotation(F(a + b).principal_arg());
            assert!(same_aut(&composed, &direct), "{} {}", a, b);
        }
    }
}

#[test]
fn translation_composed_with_its_inverse_is_identity() {
    let t = PoincareAut::translation(pt(3.0, 1.2));
    let c = t.op(&t.inv());
    assert!(same_aut(&c, &PoincareAut::id()));
    assert!(c.trsl.norm.0.abs() < 1e-9 && !c.refl);
}

#[test]
fn collinear_translations_add_distances() {
    let t = PoincareAut::translation(pt(1.0, 0.0));
    let tt = t.op(&t);
    assert!(close(tt.trsl.norm.0, 2.0));
    assert!(!tt.refl);
    assert!(same_aut(&tt, &PoincareAut::translation(pt(2.0, 0.0))));
}

#[test]
fn far_translations_stay_finite() {
    let t = PoincareAut::translation(pt(40.0, 0.5));
    let tt = t.op(&t);
    assert!((tt.trsl.norm.0 - 80.0).abs() < 1e-6);
    let back = t.op(&t.inv());
    assert!(same_aut(&back, &PoincareAut::id()));
}

#[test]
fn inverse_keeps_distance_and_flag() {
    for f in &samples() {
        let g = f.inv();
        assert_eq!(g.trsl.norm.0, f.trsl.norm.0);
        assert_eq!(g.refl, f.refl);
    }
    let f = aut(1.5, 0.5, 0.25, false);
    let g = f.inv();
    assert!(close(g.rotn.0, -0.25));
    assert!(close(g.trsl.arg.0, 0.75 - PI));
}

#[test]
fn constructors_set_their_fields() {
    let t = PoincareAut::translation(pt(1.0, 0.5));
    assert_eq!((t.trsl.norm.0, t.trsl.arg.0, t.rotn.0, t.refl), (1.0, 0.5, 0.0, false));
    let r = PoincareAut::<F>::rotation(F(3.0 * PI));
    assert!(r.trsl.is_zero() && !r.refl);
    assert!(close(r.rotn.0, PI));
    let m = PoincareAut::<F>::reflection();
    assert!(m.trsl.is_zero() && m.rotn.0 == 0.0 && m.refl);
    assert!(!m.is_id());
}

#[test]
fn point_round_trip_through_euclidean_form() {
    let mut d = 0.0;
    while d <= 20.0 {
        let mut a = -3.0;
        while a <= PI {
            let p = pt(d, a);
            let q = p.to_normal().to_poincare();
            // The Euclidean form loses relative precision as e^δ grows.
            assert!((q.norm.0 - d).abs() < 1e-12 + 1e-15 * d.exp(), "{} {}", d, a);
            if d > 0.0 {
                assert!(p.approx_eq_ulps(&q, 1 << 20) || close(q.arg.0, a), "{} {}", d, a);
            }
            a += 0.5;
        }
        d += 2.0;
    }
    let n = pt(1.0, 0.0).to_normal();
    assert!(close(n.0.re.0, (0.5f64).tanh()));
    assert!(close(n.0.im.0, 0.0));
}

#[test]
fn rotating_twice_by_half_pi_is_rotating_by_pi_normal() {
    let z = Normal(Complex { re: F(0.3), im: F(-0.4) });
    let twice = z.rotate(F(PI / 2.0)).rotate(F(PI / 2.0));
    let once = z.rotate(F(PI));
    assert!(close(twice.0.re.0, once.0.re.0) && close(twice.0.im.0, once.0.im.0));
    assert!(close(once.0.re.0, -0.3) && close(once.0.im.0, 0.4));
    let neg = z.neg();
    assert!(close(neg.0.re.0, -0.3) && close(neg.0.im.0, 0.4));
}

#[test]
fn rotating_twice_by_half_pi_is_rotating_by_pi_poincare() {
    let p = pt(2.0, 0.7);
    let twice = p.rotate(F(PI / 2.0)).rotate(F(PI / 2.0));
    let once = p.rotate(F(PI));
    assert!(twice.approx_eq_ulps(&once, 4));
    assert_eq!(once.norm.0, 2.0);
    assert!(close(once.arg.0, 0.7 - PI));
    let c = Coord::Poincare(p);
    let ct = c.rotate(F(PI / 2.0)).rotate(F(PI / 2.0));
    assert!(ct.approx_eq_ulps(&Coord::Poincare(once), 4));
}

#[test]
fn coordinate_operations() {
    let z = Normal(Complex { re: F(0.3), im: F(0.4) });
    assert!(close(z.norm().0, 0.5));
    assert!(close(z.arg().0, (0.4f64).atan2(0.3)));
    let c = z.conj();
    assert_eq!((c.0.re.0, c.0.im.0), (0.3, -0.4));
    let p = pt(1.0, 3.0);
    assert_eq!(p.norm().0, 1.0);
    assert_eq!(p.arg().0, 3.0);
    assert_eq!(p.conj().arg.0, -3.0);
    assert!(close(p.rotate(F(1.0)).arg.0, 4.0 - 2.0 * PI));
    let cp = Coord::Poincare(p);
    assert_eq!(cp.norm().0, 1.0);
    assert_eq!(cp.arg().0, 3.0);
    assert!(matches!(cp.conj(), Coord::Poincare(_)));
    assert!(matches!(Coord::Normal(z).neg(), Coord::Normal(_)));
}

#[test]
fn zero_points() {
    let mut z = Normal(Complex { re: F(0.3), im: F(0.4) });
    assert!(!z.is_zero());
    z.set_zero();
    assert!(z.is_zero());
    let mut p = pt(1.0, 1.0);
    assert!(!p.is_zero());
    p.set_zero();
    assert!(p.is_zero());
    assert!(Poincare::<F>::zero().is_zero() && Normal::<F>::zero().is_zero());
}

#[test]
fn tolerant_equality_of_points() {
    let a = Complex { re: F(1.0), im: F(2.0) };
    let b = Complex { re: F(1.0), im: F(2.5) };
    assert!(a.approx_eq_ulps(&a, 2));
    assert!(!a.approx_eq_ulps(&b, 2));
    assert!(a.approx_ne_ulps(&b, 2));
    let p = Poincare { norm: F(1.0), arg: F(PI) };
    let q = Poincare { norm: F(1.0), arg: F(-PI) };
    assert!(p.approx_eq_ulps(&q, 2));
    assert!(!p.approx_eq_ulps(&Poincare { norm: F(1.5), arg: F(PI) }, 2));
    let n = Coord::Normal(Normal(a));
    assert!(n.approx_eq_ulps(&n, 0));
    assert!(!n.approx_eq_ulps(&Coord::Poincare(p), 1000));
    assert!(!Coord::Poincare(p).approx_eq_ulps(&n, 1000));
}

#[test]
fn automorphism_equality_treats_full_turns_alike() {
    let f = aut(1.0, 0.5, 0.25, false);
    let g = PoincareAut::new(Poincare { norm: F(1.0), arg: F(0.5) }, F(0.25 + 4.0 * PI), false);
    assert!(f == f.clone());
    assert!(f.approx_eq_ulps(&g, 64));
    assert!(!f.approx_eq_ulps(&aut(1.0, 0.5, 0.25, true), 64));
    assert!(f != aut(1.0, 0.5, 0.25, true));
    assert!(f != aut(1.0, 0.5, 0.5, false));
}

#[test]
fn expi_minus_1_exact_values() {
    let a = expi_minus_1(F(PI / 2.0), F(1e-5));
    assert!(close(a.re.0, -1.0) && close(a.im.0, 1.0));
    let b = expi_minus_1(F(PI), F(1e-5));
    assert!(close(b.re.0, -2.0) && close(b.im.0, 0.0));
    let s = expi_minus_1(F(1e-7), F(1e-5));
    assert!((s.re.0 - (-5e-15)).abs() < 1e-25);
    assert!((s.im.0 - 1e-7).abs() < 1e-20);
    let z = expi_minus_1(F(0.0), F(1e-5));
    assert_eq!((z.re.0, z.im.0), (0.0, 0.0));
}

#[test]
fn expi_minus_1_is_continuous_at_threshold() {
    let t = 1e-5;
    let below = expi_minus_1(F(t * (1.0 - 1e-9)), F(t));
    let above = expi_minus_1(F(t * (1.0 + 1e-9)), F(t));
    assert!((below.re.0 - above.re.0).abs() < 1e-15);
    assert!((below.im.0 - above.im.0).abs() < 1e-12);
    assert!((below.im.0 - t).abs() < 1e-12);
}

#[test]
fn helpers_are_continuous_across_branches() {
    // Points near the boundary and nearly opposite: η straddles its threshold.
    let eps = 1e-5;
    for d in [12.0, 20.0, 30.0] {
        let v = pt(d, 0.0);
        let w_in = pt(d, PI - eps * (1.0 - 1e-9));
        let w_out = pt(d, PI - eps * (1.0 + 1e-9));
        let (n1, a1) = calc_one_plus_v_conj_times_w(v, w_in);
        let (n2, a2) = calc_one_plus_v_conj_times_w(v, w_out);
        assert!((n1.0 - n2.0).abs() <= 1e-6 * n1.0, "{} {} {}", d, n1.0, n2.0);
        assert!((a1.0 - a2.0).abs() < 1e-6, "{} {} {}", d, a1.0, a2.0);
        let (m1, b1) = calc_v_plus_w(v, w_in);
        let (m2, b2) = calc_v_plus_w(v, w_out);
        assert!((m1.0 - m2.0).abs() <= 1e-6 * m1.0, "{} {} {}", d, m1.0, m2.0);
        assert!((b1.0 - b2.0).abs() < 1e-6, "{} {} {}", d, b1.0, b2.0);
    }
    // Radii whose difference straddles its threshold, points nearly opposite:
    // d(r)/dδ = (1 − r²)/2 at δ = 3 puts the cut near a δ difference of 1.105e-4.
    let v = pt(3.0, 0.0);
    let (m1, b1) = calc_v_plus_w(v, pt(3.0 + 1.100e-4, PI - 1e-7));
    let (m2, b2) = calc_v_plus_w(v, pt(3.0 + 1.110e-4, PI - 1e-7));
    assert!((m1.0 - m2.0).abs() <= 0.02 * m1.0, "{} {}", m1.0, m2.0);
    assert!((b1.0 - b2.0).abs() < 0.02, "{} {}", b1.0, b2.0);
    // Away from both thresholds the helpers give 1 + v̄w and v + w.
    let v = pt(1.0, 0.0);
    let w = pt(1.0, PI / 2.0);
    let r = (0.5f64).tanh();
    let (n, a) = calc_one_plus_v_conj_times_w(v, w);
    assert!(close(n.0, (1.0 + r * r * r * r).sqrt()) && close(a.0, (r * r).atan2(1.0)));
    let (m, b) = calc_v_plus_w(v, w);
    assert!(close(m.0, r * 2f64.sqrt()) && close(b.0, PI / 4.0));
}
