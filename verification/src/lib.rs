//! Complex numbers over IEEE 754 double precision, at the level of their encodings.
//!
//! A real scalar is held as the 64 bits of its binary64 encoding, and a complex number as
//! two such scalars. What can be said of a number from its encoding alone is computed here:
//! construction, promotion of a scalar, negation, conjugation, comparison, and the
//! question whether a principal angle exists. Each result is stated both over the encodings
//! and over the numbers that they denote.
//!
//! Arithmetic that rounds (sums, products, quotients, roots, arctangents) is the
//! floating-point unit's work and is left to the caller.

pub mod numbers;
