//! The prime field over which the CPU AIR is stated.
//!
//! Transition constraints are polynomial relations over a 31-bit prime field
//! (the "BabyBear" prime `15 * 2^27 + 1`) and, on the verifier's side of a
//! STARK, over its quartic extension. Both sides evaluate the same formulas,
//! so the constraint code is generic over [`FieldOps`], a small capability
//! set (zero, one, add, sub, mul, from_u64) with an exact contract on each
//! operation.

use vstd::prelude::*;

verus! {

/// The BabyBear prime, `15 * 2^27 + 1`.
pub const FIELD_MODULUS: u64 = 2013265921;

/// The multiplicative inverse of 65536 in the BabyBear field.
pub const INV_65536: u64 = 2013235201;

/// The capability set the constraint formulas need from a field.
///
/// Each operation's contract pins the result to the corresponding spec-level
/// operation, so a generic formula over `FieldOps` has one exact meaning per
/// implementing field.
pub trait FieldOps: Sized + Copy {
    /// Whether the representation is a valid, reduced field element.
    spec fn wf(self) -> bool;

    spec fn spec_zero() -> Self;

    spec fn spec_one() -> Self;

    spec fn spec_from_u64(n: u64) -> Self;

    spec fn spec_add(a: Self, b: Self) -> Self;

    spec fn spec_sub(a: Self, b: Self) -> Self;

    spec fn spec_mul(a: Self, b: Self) -> Self;

    fn zero() -> (r: Self)
        ensures
            r == Self::spec_zero(),
            r.wf(),
    ;

    fn one() -> (r: Self)
        ensures
            r == Self::spec_one(),
            r.wf(),
    ;

    fn from_u64(n: u64) -> (r: Self)
        ensures
            r == Self::spec_from_u64(n),
            r.wf(),
    ;

    fn add(a: Self, b: Self) -> (r: Self)
        requires
            a.wf(),
            b.wf(),
        ensures
            r == Self::spec_add(a, b),
            r.wf(),
    ;

    fn sub(a: Self, b: Self) -> (r: Self)
        requires
            a.wf(),
            b.wf(),
        ensures
            r == Self::spec_sub(a, b),
            r.wf(),
    ;

    fn mul(a: Self, b: Self) -> (r: Self)
        requires
            a.wf(),
            b.wf(),
        ensures
            r == Self::spec_mul(a, b),
            r.wf(),
    ;
}

/// An element of the BabyBear prime field, kept reduced below
/// [`FIELD_MODULUS`].
#[derive(Clone, Copy, Debug, PartialEq, Eq, Structural)]
pub struct Fp {
    pub value: u64,
}

impl Fp {
    /// The canonical representative, as a mathematical integer.
    pub open spec fn as_int(self) -> int {
        self.value as int
    }

    /// The raw reduced representative, for callers that hand elements to an
    /// outside prover framework.
    pub fn raw(self) -> (r: u64)
        ensures
            r == self.as_int(),
    {
        self.value
    }
}

impl FieldOps for Fp {
    open spec fn wf(self) -> bool {
        self.value < FIELD_MODULUS
    }

    open spec fn spec_zero() -> Fp {
        Fp { value: 0 }
    }

    open spec fn spec_one() -> Fp {
        Fp { value: 1 }
    }

    open spec fn spec_from_u64(n: u64) -> Fp {
        Fp { value: (n % FIELD_MODULUS) as u64 }
    }

    open spec fn spec_add(a: Fp, b: Fp) -> Fp {
        Fp { value: ((a.value + b.value) % (FIELD_MODULUS as int)) as u64 }
    }

    open spec fn spec_sub(a: Fp, b: Fp) -> Fp {
        Fp { value: ((a.value + FIELD_MODULUS - b.value) % (FIELD_MODULUS as int)) as u64 }
    }

    open spec fn spec_mul(a: Fp, b: Fp) -> Fp {
        Fp { value: ((a.value * b.value) % (FIELD_MODULUS as int)) as u64 }
    }

    fn zero() -> (r: Fp) {
        Fp { value: 0 }
    }

    fn one() -> (r: Fp) {
        Fp { value: 1 }
    }

    fn from_u64(n: u64) -> (r: Fp) {
        Fp { value: n % FIELD_MODULUS }
    }

    fn add(a: Fp, b: Fp) -> (r: Fp) {
        Fp { value: (a.value + b.value) % FIELD_MODULUS }
    }

    fn sub(a: Fp, b: Fp) -> (r: Fp) {
        Fp { value: (a.value + FIELD_MODULUS - b.value) % FIELD_MODULUS }
    }

    fn mul(a: Fp, b: Fp) -> (r: Fp) {
        proof {
            assert(a.value * b.value <= (FIELD_MODULUS - 1) * (FIELD_MODULUS - 1))
                by (nonlinear_arith)
                requires
                    a.value < FIELD_MODULUS,
                    b.value < FIELD_MODULUS,
            ;
        }
        Fp { value: (a.value * b.value) % FIELD_MODULUS }
    }
}

/// An element of the degree-four extension of the BabyBear field by the
/// irreducible polynomial `x^4 + 11`: coefficients of `1, x, x^2, x^3`.
///
/// A STARK verifier evaluates the same transition formulas over this field;
/// the constraints reach it through the shared [`FieldOps`] capability set.
#[derive(Clone, Copy, Debug, PartialEq, Eq, Structural)]
pub struct Fp4 {
    pub c0: Fp,
    pub c1: Fp,
    pub c2: Fp,
    pub c3: Fp,
}

/// The negated residue of the extension polynomial: `x^4 = -11`.
pub const EXTENSION_BETA: u64 = 11;

impl Fp4 {
    /// The element with only a constant coefficient.
    pub open spec fn spec_from_base(a: Fp) -> Fp4 {
        Fp4 { c0: a, c1: Fp::spec_zero(), c2: Fp::spec_zero(), c3: Fp::spec_zero() }
    }

    /// Embeds a base-field element as a constant polynomial.
    pub fn from_base(a: Fp) -> (r: Fp4)
        requires
            a.wf(),
        ensures
            r == Fp4::spec_from_base(a),
            r.wf(),
    {
        Fp4 { c0: a, c1: Fp::zero(), c2: Fp::zero(), c3: Fp::zero() }
    }
}

impl FieldOps for Fp4 {
    open spec fn wf(self) -> bool {
        self.c0.wf() && self.c1.wf() && self.c2.wf() && self.c3.wf()
    }

    open spec fn spec_zero() -> Fp4 {
        Fp4 {
            c0: Fp::spec_zero(),
            c1: Fp::spec_zero(),
            c2: Fp::spec_zero(),
            c3: Fp::spec_zero(),
        }
    }

    open spec fn spec_one() -> Fp4 {
        Fp4 { c0: Fp::spec_one(), c1: Fp::spec_zero(), c2: Fp::spec_zero(), c3: Fp::spec_zero() }
    }

    open spec fn spec_from_u64(n: u64) -> Fp4 {
        Fp4 {
            c0: Fp::spec_from_u64(n),
            c1: Fp::spec_zero(),
            c2: Fp::spec_zero(),
            c3: Fp::spec_zero(),
        }
    }

    open spec fn spec_add(a: Fp4, b: Fp4) -> Fp4 {
        Fp4 {
            c0: Fp::spec_add(a.c0, b.c0),
            c1: Fp::spec_add(a.c1, b.c1),
            c2: Fp::spec_add(a.c2, b.c2),
            c3: Fp::spec_add(a.c3, b.c3),
        }
    }

    open spec fn spec_sub(a: Fp4, b: Fp4) -> Fp4 {
        Fp4 {
            c0: Fp::spec_sub(a.c0, b.c0),
            c1: Fp::spec_sub(a.c1, b.c1),
            c2: Fp::spec_sub(a.c2, b.c2),
            c3: Fp::spec_sub(a.c3, b.c3),
        }
    }

    /// Polynomial product reduced by `x^4 = -11`.
    open spec fn spec_mul(a: Fp4, b: Fp4) -> Fp4 {
        let beta = Fp::spec_from_u64(EXTENSION_BETA);
        Fp4 {
            c0: Fp::spec_sub(
                Fp::spec_mul(a.c0, b.c0),
                Fp::spec_mul(
                    beta,
                    Fp::spec_add(
                        Fp::spec_add(Fp::spec_mul(a.c1, b.c3), Fp::spec_mul(a.c3, b.c1)),
                        Fp::spec_mul(a.c2, b.c2),
                    ),
                ),
            ),
            c1: Fp::spec_sub(
                Fp::spec_add(Fp::spec_mul(a.c0, b.c1), Fp::spec_mul(a.c1, b.c0)),
                Fp::spec_mul(
                    beta,
                    Fp::spec_add(Fp::spec_mul(a.c2, b.c3), Fp::spec_mul(a.c3, b.c2)),
                ),
            ),
            c2: Fp::spec_sub(
                Fp::spec_add(
                    Fp::spec_add(Fp::spec_mul(a.c0, b.c2), Fp::spec_mul(a.c2, b.c0)),
                    Fp::spec_mul(a.c1, b.c1),
                ),
                Fp::spec_mul(beta, Fp::spec_mul(a.c3, b.c3)),
            ),
            c3: Fp::spec_add(
                Fp::spec_add(Fp::spec_mul(a.c0, b.c3), Fp::spec_mul(a.c3, b.c0)),
                Fp::spec_add(Fp::spec_mul(a.c1, b.c2), Fp::spec_mul(a.c2, b.c1)),
            ),
        }
    }

    fn zero() -> (r: Fp4) {
        Fp4 { c0: Fp::zero(), c1: Fp::zero(), c2: Fp::zero(), c3: Fp::zero() }
    }

    fn one() -> (r: Fp4) {
        Fp4 { c0: Fp::one(), c1: Fp::zero(), c2: Fp::zero(), c3: Fp::zero() }
    }

    fn from_u64(n: u64) -> (r: Fp4) {
        Fp4 { c0: Fp::from_u64(n), c1: Fp::zero(), c2: Fp::zero(), c3: Fp::zero() }
    }

    fn add(a: Fp4, b: Fp4) -> (r: Fp4) {
        Fp4 {
            c0: Fp::add(a.c0, b.c0),
            c1: Fp::add(a.c1, b.c1),
            c2: Fp::add(a.c2, b.c2),
            c3: Fp::add(a.c3, b.c3),
        }
    }

    fn sub(a: Fp4, b: Fp4) -> (r: Fp4) {
        Fp4 {
            c0: Fp::sub(a.c0, b.c0),
            c1: Fp::sub(a.c1, b.c1),
            c2: Fp::sub(a.c2, b.c2),
            c3: Fp::sub(a.c3, b.c3),
        }
    }

    fn mul(a: Fp4, b: Fp4) -> (r: Fp4) {
        let beta = Fp::from_u64(EXTENSION_BETA);
        Fp4 {
            c0: Fp::sub(
                Fp::mul(a.c0, b.c0),
                Fp::mul(
                    beta,
                    Fp::add(Fp::add(Fp::mul(a.c1, b.c3), Fp::mul(a.c3, b.c1)), Fp::mul(a.c2, b.c2)),
                ),
            ),
            c1: Fp::sub(
                Fp::add(Fp::mul(a.c0, b.c1), Fp::mul(a.c1, b.c0)),
                Fp::mul(beta, Fp::add(Fp::mul(a.c2, b.c3), Fp::mul(a.c3, b.c2))),
            ),
            c2: Fp::sub(
                Fp::add(Fp::add(Fp::mul(a.c0, b.c2), Fp::mul(a.c2, b.c0)), Fp::mul(a.c1, b.c1)),
                Fp::mul(beta, Fp::mul(a.c3, b.c3)),
            ),
            c3: Fp::add(
                Fp::add(Fp::mul(a.c0, b.c3), Fp::mul(a.c3, b.c0)),
                Fp::add(Fp::mul(a.c1, b.c2), Fp::mul(a.c2, b.c1)),
            ),
        }
    }
}

} // verus!
