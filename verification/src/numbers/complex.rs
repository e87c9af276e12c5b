//! Complex numbers: pairs of real scalars.

use crate::numbers::scalar::{
    lemma_flip_sign_twice, lemma_opposite, Number, Real, NAN_BITS, ONE_BITS, ZERO_BITS,
};
use core::ops::Neg;
use vstd::prelude::*;

verus! {

/// What the two encodings of a complex number denote.
pub struct ComplexValue {
    pub real: Number,
    pub imaginary: Number,
}

impl ComplexValue {
    /// Whether both parts are finite.
    pub open spec fn is_finite(self) -> bool {
        self.real is Finite && self.imaginary is Finite
    }

    /// The mirror image in the real axis.
    pub open spec fn conjugated(self) -> ComplexValue {
        ComplexValue { real: self.real, imaginary: self.imaginary.negated() }
    }

    /// The mirror image in the origin.
    pub open spec fn negated(self) -> ComplexValue {
        ComplexValue { real: self.real.negated(), imaginary: self.imaginary.negated() }
    }

    /// Equality part by part, each as IEEE 754 compares numbers.
    pub open spec fn equals(self, other: ComplexValue) -> bool {
        self.real.equals(other.real) && self.imaginary.equals(other.imaginary)
    }
}

/// The complex number `real + imaginary * i`. A value never changes: every operation takes
/// its operands by value and returns a new number.
#[derive(Clone, Copy, Debug)]
pub struct Complex {
    pub real: Real,
    pub imaginary: Real,
}

impl View for Complex {
    type V = ComplexValue;

    open spec fn view(&self) -> ComplexValue {
        ComplexValue { real: self.real@, imaginary: self.imaginary@ }
    }
}

impl Complex {
    /// The complex number with the sign bit of the imaginary part flipped.
    pub open spec fn spec_conjugate(self) -> Complex {
        Complex { real: self.real, imaginary: self.imaginary.opposite() }
    }

    /// The complex number with the sign bits of both parts flipped.
    pub open spec fn opposite(self) -> Complex {
        Complex { real: self.real.opposite(), imaginary: self.imaginary.opposite() }
    }

    /// The imaginary unit: a real part of positive zero and an imaginary part of one.
    pub fn i() -> (z: Complex)
        ensures
            z.real.bits == ZERO_BITS,
            z.imaginary.bits == ONE_BITS,
            z@ == (ComplexValue {
                real: Number::Finite { negative: false, significand: 0, exponent: -1074 },
                imaginary: Number::Finite {
                    negative: false,
                    significand: 0x10_0000_0000_0000,
                    exponent: -52,
                },
            }),
    {
        Complex { real: Real { bits: ZERO_BITS }, imaginary: Real { bits: ONE_BITS } }
    }

    /// The complex number with the given parts, whatever they encode.
    pub fn new(real_part: Real, imaginary_part: Real) -> (z: Complex)
        ensures
            z.real == real_part,
            z.imaginary == imaginary_part,
    {
        Complex { real: real_part, imaginary: imaginary_part }
    }

    /// The principal angle, where `arctangent` is the arctangent of the imaginary part
    /// over the real part as the caller's floating-point unit rounds it. With a real part of
    /// zero, of either sign, there is no such angle and the result is a NaN, whatever the
    /// imaginary part and `arctangent` are; else the result is `arctangent`.
    ///
    /// The angle is that of the ratio alone: it lies within a quarter turn of the real
    /// axis and does not tell a number from its opposite.
    pub fn angle(self, arctangent: Real) -> (r: Real)
        ensures
            self.real@.is_zero() ==> r.bits == NAN_BITS && r@ is Nan,
            !self.real@.is_zero() ==> r == arctangent,
    {
        if self.real.is_zero() {
            Real { bits: NAN_BITS }
        } else {
            arctangent
        }
    }

    /// The conjugate: the real part kept, the imaginary part negated.
    #[verifier::when_used_as_spec(spec_conjugate)]
    pub fn conjugate(self) -> (r: Complex)
        ensures
            r == self.spec_conjugate(),
            r@ == self@.conjugated(),
    {
        proof {
            lemma_opposite(self.imaginary);
        }
        Complex { real: self.real, imaginary: self.imaginary.neg() }
    }
}

impl vstd::std_specs::convert::FromSpecImpl<Real> for Complex {
    open spec fn obeys_from_spec() -> bool {
        true
    }

    open spec fn from_spec(scalar: Real) -> Complex {
        Complex { real: scalar, imaginary: Real { bits: ZERO_BITS } }
    }
}

impl From<Real> for Complex {
    /// The complex number with the given real part and an imaginary part of positive
    /// zero. Nothing of the scalar is lost.
    fn from(scalar: Real) -> (z: Complex) {
        Complex { real: scalar, imaginary: Real { bits: ZERO_BITS } }
    }
}

impl vstd::std_specs::ops::NegSpecImpl for Complex {
    open spec fn obeys_neg_spec() -> bool {
        true
    }

    open spec fn neg_req(self) -> bool {
        true
    }

    open spec fn neg_spec(self) -> Complex {
        self.opposite()
    }
}

impl Neg for Complex {
    type Output = Complex;

    /// The opposite number: both parts negated.
    fn neg(self) -> (r: Complex)
        ensures
            r@ == self@.negated(),
    {
        proof {
            lemma_opposite(self.real);
            lemma_opposite(self.imaginary);
        }
        Complex { real: self.real.neg(), imaginary: self.imaginary.neg() }
    }
}

impl vstd::std_specs::cmp::PartialEqSpecImpl for Complex {
    open spec fn obeys_eq_spec() -> bool {
        true
    }

    /// Equality of the numbers that the parts denote.
    open spec fn eq_spec(&self, other: &Complex) -> bool {
        self@.equals(other@)
    }
}

impl PartialEq for Complex {
    /// Whether the two are equal part by part. A NaN in any part makes them unequal.
    fn eq(&self, other: &Complex) -> (r: bool) {
        self.real == other.real && self.imaginary == other.imaginary
    }
}

/// Conjugating twice gives the number back: for a finite `z` the conjugate of the
/// conjugate of `z` has the encodings of `z`, and so compares equal to it.
pub proof fn lemma_conjugate_twice(z: Complex)
    requires
        z@.is_finite(),
    ensures
        z.conjugate().conjugate() == z,
        z.conjugate().conjugate()@.equals(z@),
{
    lemma_flip_sign_twice(z.imaginary.bits);
}

} // verus!
