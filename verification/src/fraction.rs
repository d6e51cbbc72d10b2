//! Fractions in the range [0, 1], held as parts per billion.

use vstd::prelude::*;

verus! {

/// The number of parts that make one whole.
pub const ACCURACY: u32 = 1_000_000_000;

/// A fixed-point fraction between zero and one, both included.
///
/// It counts parts per billion, and a value never holds more than
/// [`ACCURACY`] parts.
#[derive(Clone, Copy, Debug, PartialEq, Eq, Structural)]
pub struct Fraction {
    parts: u32,
}

impl Fraction {
    /// The number of parts per billion that the fraction stands for.
    pub closed spec fn parts(self) -> nat {
        self.parts as nat
    }

    /// Whether the fraction lies in [0, 1]. Every value that executable code
    /// holds does.
    #[verifier::type_invariant]
    pub open spec fn wf(self) -> bool {
        self.parts() <= ACCURACY
    }

    /// `floor(x * self)`, as a mathematical integer.
    pub open spec fn spec_mul_floor(self, x: u64) -> int {
        (x as int * self.parts() as int) / (ACCURACY as int)
    }

    /// The fraction of `parts` parts per billion; more than one whole is
    /// clamped to one.
    pub fn from_parts(parts: u32) -> (f: Fraction)
        ensures
            f.wf(),
            f.parts() == if parts <= ACCURACY {
                parts
            } else {
                ACCURACY
            },
    {
        if parts <= ACCURACY {
            Fraction { parts }
        } else {
            Fraction { parts: ACCURACY }
        }
    }

    /// `x` percent; more than a hundred percent is clamped to one.
    pub fn from_percent(x: u32) -> (f: Fraction)
        ensures
            f.wf(),
            f.parts() == if x <= 100 {
                x * 10_000_000
            } else {
                ACCURACY as int
            },
    {
        if x <= 100 {
            Fraction { parts: x * 10_000_000 }
        } else {
            Fraction { parts: ACCURACY }
        }
    }

    /// The fraction zero.
    pub fn zero() -> (f: Fraction)
        ensures
            f.wf(),
            f.parts() == 0,
    {
        Fraction { parts: 0 }
    }

    /// The fraction one.
    pub fn one() -> (f: Fraction)
        ensures
            f.wf(),
            f.parts() == ACCURACY,
    {
        Fraction { parts: ACCURACY }
    }

    /// The parts per billion.
    pub fn deconstruct(self) -> (parts: u32)
        ensures
            parts == self.parts(),
            parts <= ACCURACY,
    {
        proof {
            use_type_invariant(&self);
        }
        self.parts
    }

    /// Whether the fraction is zero.
    pub fn is_zero(self) -> (b: bool)
        ensures
            b == (self.parts() == 0),
    {
        self.parts == 0
    }

    /// Whether the fraction is one.
    pub fn is_one(self) -> (b: bool)
        ensures
            b == (self.parts() == ACCURACY),
    {
        self.parts == ACCURACY
    }

    /// The fraction of `x`, rounded down: the largest integer `y` with
    /// `y * ACCURACY <= x * parts`.
    pub fn mul_floor(self, x: u64) -> (y: u64)
        ensures
            y == self.spec_mul_floor(x),
            y <= x,
    {
        proof {
            use_type_invariant(&self);
            lemma_mul_floor_bounds(self, x);
        }
        let wide: u128 = (x as u128) * (self.parts as u128);
        let quotient: u128 = wide / (ACCURACY as u128);
        quotient as u64
    }
}

/// A fraction of `x` is at least zero and at most `x`, and the product that
/// it is computed from fits in 128 bits.
pub proof fn lemma_mul_floor_bounds(f: Fraction, x: u64)
    requires
        f.wf(),
    ensures
        0 <= f.spec_mul_floor(x) <= x,
        0 <= x as int * f.parts() as int <= u128::MAX,
{
    let p = f.parts() as int;
    let xi = x as int;
    let a = ACCURACY as int;
    assert(0 <= xi * p <= xi * a) by (nonlinear_arith)
        requires
            0 <= xi,
            0 <= p <= a,
    ;
    assert(xi * a <= 0xffff_ffff_ffff_ffff * 1_000_000_000) by (nonlinear_arith)
        requires
            0 <= xi <= 0xffff_ffff_ffff_ffff,
            a == 1_000_000_000,
    ;
    assert((xi * p) / a <= xi) by (nonlinear_arith)
        requires
            0 <= xi * p <= xi * a,
            a > 0,
    ;
    assert(0 <= (xi * p) / a) by (nonlinear_arith)
        requires
            0 <= xi * p,
            a > 0,
    ;
}

/// Taking a larger fraction of the same amount never gives less.
pub proof fn lemma_mul_floor_monotone_in_fraction(f: Fraction, g: Fraction, x: u64)
    requires
        f.parts() <= g.parts(),
    ensures
        f.spec_mul_floor(x) <= g.spec_mul_floor(x),
{
    let p = f.parts() as int;
    let q = g.parts() as int;
    let xi = x as int;
    let a = ACCURACY as int;
    assert(xi * p <= xi * q) by (nonlinear_arith)
        requires
            0 <= xi,
            p <= q,
    ;
    assert((xi * p) / a <= (xi * q) / a) by (nonlinear_arith)
        requires
            xi * p <= xi * q,
            a > 0,
    ;
}

} // verus!
