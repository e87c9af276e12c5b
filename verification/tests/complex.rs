use vmath::numbers::scalar::NAN_BITS;
use vmath::numbers::{Complex, Real};

use std::f64::consts::{PI, SQRT_2};
use std::ops::Neg;

fn scalar(x: f64) -> Real {
    Real::from_bits(x.to_bits())
}

fn complex(re: f64, im: f64) -> Complex {
    Complex::new(scalar(re), scalar(im))
}

fn value(x: Real) -> f64 {
    f64::from_bits(x.to_bits())
}

/// The angle of `re + im * i`, with the arctangent taken by the hardware.
fn angle(re: f64, im: f64) -> f64 {
    value(complex(re, im).angle(scalar((im / re).atan())))
}

fn parts() -> Vec<f64> {
    vec![
        0.0,
        -0.0,
        1.0,
        -2.0,
        0.1,
        f64::from_bits(1),
        f64::MAX,
        f64::INFINITY,
        f64::NEG_INFINITY,
        f64::NAN,
    ]
}

#[test]
fn new_keeps_both_parts() {
    let z = complex(1.0, 2.0);
    assert_eq!(value(z.real), 1.0);
    assert_eq!(value(z.imaginary), 2.0);
    for re in parts() {
        for im in parts() {
            let z = complex(re, im);
            assert_eq!(z.real.to_bits(), re.to_bits());
            assert_eq!(z.imaginary.to_bits(), im.to_bits());
        }
    }
}

#[test]
fn imaginary_unit_is_zero_plus_one_i() {
    let i = Complex::i();
    assert_eq!(value(i.real), 0.0);
    assert_eq!(value(i.imaginary), 1.0);
    assert_eq!(i.real.to_bits(), 0);
    assert_eq!(i, complex(0.0, 1.0));
}

#[test]
fn from_scalar_has_a_zero_imaginary_part() {
    for x in parts() {
        let z = Complex::from(scalar(x));
        assert_eq!(z.real.to_bits(), x.to_bits());
        assert_eq!(z.imaginary.to_bits(), 0.0_f64.to_bits());
    }
    assert_eq!(Complex::from(scalar(3.0)), complex(3.0, 0.0));
    let z: Complex = scalar(6.0).into();
    assert_eq!(z, complex(6.0, 0.0));
}

#[test]
fn conjugate_of_one_plus_two_i() {
    let z = complex(1.0, 2.0);
    let conjugate = z.conjugate();
    assert_eq!(conjugate, complex(1.0, -2.0));
    assert_eq!(conjugate.imaginary.to_bits(), (-2.0_f64).to_bits());
}

#[test]
fn conjugate_keeps_the_real_part_and_flips_the_imaginary_sign() {
    for re in parts() {
        for im in parts() {
            let c = complex(re, im).conjugate();
            assert_eq!(c.real.to_bits(), re.to_bits());
            assert_eq!(c.imaginary.to_bits(), (-im).to_bits());
        }
    }
}

#[test]
fn conjugate_agrees_with_multiplication_by_minus_one() {
    for im in parts() {
        if !im.is_nan() {
            let c = complex(1.0, im).conjugate();
            assert_eq!(c.imaginary.to_bits(), (im * -1.0).to_bits());
        }
    }
}

#[test]
fn conjugate_twice_is_identity() {
    for re in parts() {
        for im in parts() {
            let z = complex(re, im);
            let back = z.conjugate().conjugate();
            assert_eq!(back.real.to_bits(), z.real.to_bits());
            assert_eq!(back.imaginary.to_bits(), z.imaginary.to_bits());
            if re.is_finite() && im.is_finite() {
                assert_eq!(back, z);
            }
        }
    }
}

#[test]
fn negation_of_one_plus_two_i() {
    let z = complex(1.0, 2.0);
    let negative = -z;
    assert_eq!(negative, complex(-1.0, -2.0));
}

#[test]
fn negation_negates_both_parts() {
    for re in parts() {
        for im in parts() {
            let n = complex(re, im).neg();
            assert_eq!(n.real.to_bits(), (-re).to_bits());
            assert_eq!(n.imaginary.to_bits(), (-im).to_bits());
        }
    }
}

#[test]
fn equality_is_part_by_part() {
    for a in parts() {
        for b in parts() {
            for c in parts() {
                for d in parts() {
                    assert_eq!(complex(a, b) == complex(c, d), a == c && b == d);
                    assert_eq!(complex(a, b) != complex(c, d), !(a == c && b == d));
                }
            }
        }
    }
}

#[test]
fn a_nan_part_makes_a_number_unequal_to_itself() {
    let z = complex(f64::NAN, 1.0);
    assert!(z != z);
    let w = complex(1.0, f64::NAN);
    assert!(w != w);
    assert!(complex(0.0, -0.0) == complex(-0.0, 0.0));
}

#[test]
fn angle_is_nan_for_a_zero_real_part() {
    for re in [0.0, -0.0] {
        for im in parts() {
            let z = complex(re, im);
            assert!(angle(re, im).is_nan());
            assert_eq!(z.angle(scalar(1.25)).to_bits(), NAN_BITS);
            assert_eq!(z.angle(scalar(f64::INFINITY)).to_bits(), NAN_BITS);
        }
    }
    assert!(angle(0.0, 0.0).is_nan());
    assert!(angle(0.0, 1.0).is_nan());
    assert!(angle(-0.0, -1.0).is_nan());
}

#[test]
fn angle_is_the_arctangent_elsewhere() {
    for re in parts() {
        if re != 0.0 {
            for im in parts() {
                let arctangent = (im / re).atan();
                let z = complex(re, im);
                assert_eq!(z.angle(scalar(arctangent)).to_bits(), arctangent.to_bits());
                assert_eq!(z.angle(scalar(0.75)).to_bits(), 0.75_f64.to_bits());
            }
        }
    }
}

#[test]
fn angle_of_thirty_degrees() {
    let found = angle(3.0_f64.sqrt() / 2.0, 0.5);
    assert!((found - PI / 6.0).abs() < f64::EPSILON);
}

#[test]
fn angle_of_forty_five_degrees() {
    let found = angle(SQRT_2 / 2.0, SQRT_2 / 2.0);
    assert!((found - PI / 4.0).abs() < f64::EPSILON);
}

#[test]
fn angle_does_not_tell_opposite_numbers_apart() {
    assert_eq!(angle(-1.0, -1.0), angle(1.0, 1.0));
    assert_eq!(angle(-1.0, 0.0), 0.0);
}
