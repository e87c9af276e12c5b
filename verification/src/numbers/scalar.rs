//! Real scalars: IEEE 754 binary64 encodings and the numbers that they denote.

use vstd::prelude::*;

verus! {

/// The sign bit of an encoding.
pub const SIGN_BIT: u64 = 0x8000_0000_0000_0000;

/// Every bit of an encoding but the sign bit.
pub const MAGNITUDE_MASK: u64 = 0x7FFF_FFFF_FFFF_FFFF;

/// Two to the fifty-second: the weight of the lowest exponent bit, and the leading
/// significand bit that the encoding of a normal number leaves out.
pub const IMPLICIT_BIT: u64 = 0x0010_0000_0000_0000;

/// The encoding of positive infinity: the exponent field full, the fraction empty.
/// A magnitude above it encodes a NaN.
pub const INFINITY_BITS: u64 = 0x7FF0_0000_0000_0000;

/// The encoding of the quiet NaN that the library hands out.
pub const NAN_BITS: u64 = 0x7FF8_0000_0000_0000;

/// The encoding of positive zero.
pub const ZERO_BITS: u64 = 0;

/// The encoding of one.
pub const ONE_BITS: u64 = 0x3FF0_0000_0000_0000;

/// What an encoding denotes.
pub enum Number {
    /// Not a number.
    Nan,
    /// An infinity.
    Infinite { negative: bool },
    /// The number `(-1)^negative * significand * 2^exponent`. Zero keeps its sign.
    Finite { negative: bool, significand: nat, exponent: int },
}

impl Number {
    /// Whether this is zero, of either sign.
    pub open spec fn is_zero(self) -> bool {
        self matches Number::Finite { significand, .. } && significand == 0
    }

    /// The number with the opposite sign. NaN stays NaN.
    pub open spec fn negated(self) -> Number {
        match self {
            Number::Nan => Number::Nan,
            Number::Infinite { negative } => Number::Infinite { negative: !negative },
            Number::Finite { negative, significand, exponent } => Number::Finite {
                negative: !negative,
                significand,
                exponent,
            },
        }
    }

    /// Equality of numbers as IEEE 754 compares them: NaN equals nothing, itself included,
    /// and the two zeros are equal.
    pub open spec fn equals(self, other: Number) -> bool {
        &&& !(self is Nan)
        &&& !(other is Nan)
        &&& self == other || (self.is_zero() && other.is_zero())
    }
}

/// The number that the 64 bits of a binary64 encoding denote: from the top, one sign bit,
/// eleven bits of biased exponent, and fifty-two bits of fraction.
pub open spec fn decode(bits: u64) -> Number {
    let negative: bool = bits >= SIGN_BIT;
    let magnitude: int = if negative {
        bits - SIGN_BIT
    } else {
        bits as int
    };
    let biased: int = magnitude / IMPLICIT_BIT as int;
    let fraction: int = magnitude % IMPLICIT_BIT as int;
    if biased == 0x7FF {
        if fraction == 0 {
            Number::Infinite { negative }
        } else {
            Number::Nan
        }
    } else if biased == 0 {
        Number::Finite { negative, significand: fraction as nat, exponent: -1074 }
    } else {
        Number::Finite {
            negative,
            significand: (IMPLICIT_BIT + fraction) as nat,
            exponent: biased - 1075,
        }
    }
}

/// A double-precision real scalar, held as its binary64 encoding. Every `u64` is an
/// encoding, so the type has no invariant.
#[derive(Clone, Copy, Debug)]
pub struct Real {
    pub bits: u64,
}

impl View for Real {
    type V = Number;

    open spec fn view(&self) -> Number {
        decode(self.bits)
    }
}

impl Real {
    /// The scalar whose encoding differs from this one in the sign bit alone.
    pub open spec fn opposite(self) -> Real {
        Real { bits: self.bits ^ SIGN_BIT }
    }

    /// The scalar with the given encoding.
    pub fn from_bits(bits: u64) -> (x: Real)
        ensures
            x.bits == bits,
    {
        Real { bits }
    }

    /// The encoding of the scalar.
    pub fn to_bits(self) -> (bits: u64)
        ensures
            bits == self.bits,
    {
        self.bits
    }

    /// Whether the scalar is a NaN.
    pub fn is_nan(self) -> (r: bool)
        ensures
            r == (self@ is Nan),
    {
        proof {
            lemma_magnitude(self.bits);
        }
        self.bits & MAGNITUDE_MASK > INFINITY_BITS
    }

    /// Whether the scalar is zero, of either sign.
    pub fn is_zero(self) -> (r: bool)
        ensures
            r == self@.is_zero(),
    {
        proof {
            lemma_magnitude(self.bits);
        }
        self.bits & MAGNITUDE_MASK == 0
    }
}

impl vstd::std_specs::ops::NegSpecImpl for Real {
    open spec fn obeys_neg_spec() -> bool {
        true
    }

    open spec fn neg_req(self) -> bool {
        true
    }

    open spec fn neg_spec(self) -> Real {
        self.opposite()
    }
}

impl core::ops::Neg for Real {
    type Output = Real;

    /// The opposite scalar: the sign bit flipped and every other bit kept, for a NaN too.
    fn neg(self) -> (r: Real)
        ensures
            r@ == self@.negated(),
    {
        proof {
            lemma_opposite(self);
        }
        Real { bits: self.bits ^ SIGN_BIT }
    }
}

impl vstd::std_specs::cmp::PartialEqSpecImpl for Real {
    open spec fn obeys_eq_spec() -> bool {
        true
    }

    /// Equality of the numbers that the two encodings denote.
    open spec fn eq_spec(&self, other: &Real) -> bool {
        self@.equals(other@)
    }
}

impl PartialEq for Real {
    /// Whether the two scalars are equal numbers: false where either is a NaN, true for
    /// two zeros of any signs, and else whether the encodings are the same.
    fn eq(&self, other: &Real) -> (r: bool) {
        proof {
            lemma_equals(*self, *other);
        }
        if self.is_nan() || other.is_nan() {
            false
        } else {
            self.bits == other.bits || (self.is_zero() && other.is_zero())
        }
    }
}

/// The magnitude of an encoding is what is left of it without the sign bit.
pub proof fn lemma_magnitude(bits: u64)
    ensures
        bits & MAGNITUDE_MASK == if bits >= SIGN_BIT {
            bits - SIGN_BIT
        } else {
            bits as int
        },
{
    assert(bits & 0x7FFF_FFFF_FFFF_FFFF == if bits >= 0x8000_0000_0000_0000 {
        (bits - 0x8000_0000_0000_0000) as u64
    } else {
        bits
    }) by (bit_vector);
}

/// Flipping the sign bit moves an encoding across `SIGN_BIT` and keeps its magnitude.
pub proof fn lemma_flip_sign(bits: u64)
    ensures
        bits ^ SIGN_BIT == if bits >= SIGN_BIT {
            bits - SIGN_BIT
        } else {
            bits + SIGN_BIT
        },
{
    assert(bits ^ 0x8000_0000_0000_0000 == if bits >= 0x8000_0000_0000_0000 {
        (bits - 0x8000_0000_0000_0000) as u64
    } else {
        (bits + 0x8000_0000_0000_0000) as u64
    }) by (bit_vector);
}

/// Flipping the sign bit twice gives the encoding back.
pub proof fn lemma_flip_sign_twice(bits: u64)
    ensures
        (bits ^ SIGN_BIT) ^ SIGN_BIT == bits,
{
    assert((bits ^ 0x8000_0000_0000_0000) ^ 0x8000_0000_0000_0000 == bits) by (bit_vector);
}

/// The scalar with the sign bit flipped denotes the opposite number.
pub proof fn lemma_opposite(x: Real)
    ensures
        x.opposite()@ == x@.negated(),
{
    lemma_flip_sign(x.bits);
}

/// Two scalars are equal numbers exactly when neither is a NaN and their encodings are
/// the same or both encode a zero: apart from the zeros, no number has two encodings.
pub proof fn lemma_equals(x: Real, y: Real)
    ensures
        x@.equals(y@) <==> {
            &&& !(x@ is Nan)
            &&& !(y@ is Nan)
            &&& x.bits == y.bits || (x@.is_zero() && y@.is_zero())
        },
{
}

} // verus!
