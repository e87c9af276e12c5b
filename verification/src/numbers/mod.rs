//! The two number types: real scalars and complex numbers.

pub mod complex;
pub mod scalar;

pub use crate::numbers::complex::Complex;
pub use crate::numbers::scalar::Real;
