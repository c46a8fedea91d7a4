//! Isometries of the Poincaré disk as Möbius transforms, generic over the
//! scalar type that carries the arithmetic.
//!
//! Points are held either in Euclidean form or by hyperbolic distance and
//! angle; the latter stays well conditioned near the boundary circle, and the
//! composition of automorphisms switches to cancellation-free formulas where
//! the direct ones would lose precision.
pub mod scalar;
pub mod complex;
pub mod coord;
pub mod approx_eq;
pub mod group;
pub mod poincare_aut;
