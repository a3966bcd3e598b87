//! Forward-mode automatic differentiation over dual numbers.
//!
//! The verified part of the library fixes how a dual number is written out:
//! the primal part, then the tangent with its sign taken from the sign bit,
//! then the infinitesimal symbol.
pub mod render;
