//! Complex scalars.

use vstd::prelude::*;
use vstd::std_specs::cmp::PartialEqSpecImpl;
use crate::binary64::{
    float_eq, negate, spec_float_eq, spec_is_nan, spec_is_zero, spec_negate, ONE, ZERO,
};

verus! {

/// Complex number whose two parts are IEEE 754 binary64 bit patterns.
#[derive(Debug, Copy, Clone)]
pub struct C64 {
    pub re: u64,
    pub im: u64,
}

impl C64 {
    /// The complex conjugate of `self`, as a specification.
    pub open spec fn spec_conj(self) -> C64 {
        C64 { re: self.re, im: spec_negate(self.im) }
    }

    /// IEEE equality of both parts, as a specification.
    pub open spec fn spec_eq(self, other: C64) -> bool {
        spec_float_eq(self.re, other.re) && spec_float_eq(self.im, other.im)
    }

    /// The number `0 + 0i`, as a specification.
    pub open spec fn spec_zero() -> C64 {
        C64 { re: ZERO, im: ZERO }
    }

    /// The number `1 + 0i`, as a specification.
    pub open spec fn spec_one() -> C64 {
        C64 { re: ONE, im: ZERO }
    }

    /// The imaginary unit `0 + 1i`, as a specification.
    pub open spec fn spec_i() -> C64 {
        C64 { re: ZERO, im: ONE }
    }

    /// The number with the given real and imaginary bit patterns.
    pub fn new(re: u64, im: u64) -> (c: Self)
        ensures
            c == (C64 { re, im }),
    {
        Self { re, im }
    }

    /// The complex conjugate: the imaginary part changes sign, the real part
    /// is untouched.
    #[verifier::when_used_as_spec(spec_conj)]
    pub fn conj(self) -> (c: Self)
        ensures
            c == self.spec_conj(),
    {
        Self { re: self.re, im: negate(self.im) }
    }

    /// The bit pattern of the real part.
    pub fn real_part(&self) -> (r: u64)
        ensures
            r == self.re,
    {
        self.re
    }

    /// The bit pattern of the imaginary part.
    pub fn imag(&self) -> (r: u64)
        ensures
            r == self.im,
    {
        self.im
    }

    /// The number `0 + 0i`.
    #[verifier::when_used_as_spec(spec_zero)]
    pub fn zero() -> (c: Self)
        ensures
            c == Self::spec_zero(),
    {
        Self { re: ZERO, im: ZERO }
    }

    /// The number `1 + 0i`.
    #[verifier::when_used_as_spec(spec_one)]
    pub fn one() -> (c: Self)
        ensures
            c == Self::spec_one(),
    {
        Self { re: ONE, im: ZERO }
    }

    /// The imaginary unit `0 + 1i`.
    #[verifier::when_used_as_spec(spec_i)]
    pub fn i() -> (c: Self)
        ensures
            c == Self::spec_i(),
    {
        Self { re: ZERO, im: ONE }
    }
}

impl Default for C64 {
    fn default() -> (c: Self)
        ensures
            c == C64::spec_zero(),
    {
        Self::zero()
    }
}

impl PartialEq for C64 {
    /// IEEE equality of the real parts and of the imaginary parts.
    fn eq(&self, other: &Self) -> (r: bool) {
        float_eq(self.re, other.re) && float_eq(self.im, other.im)
    }
}

impl PartialEqSpecImpl for C64 {
    open spec fn obeys_eq_spec() -> bool {
        true
    }

    open spec fn eq_spec(&self, other: &Self) -> bool {
        self.spec_eq(*other)
    }
}

/// Conjugating twice restores the number, bit for bit.
pub proof fn lemma_conj_involution(c: C64)
    ensures
        c.spec_conj().spec_conj() == c,
{
}

/// A number equals its own conjugate, in IEEE arithmetic, exactly when its
/// real part is not a NaN and its imaginary part is a zero.
pub proof fn lemma_equal_to_own_conj(c: C64)
    ensures
        c.spec_eq(c.spec_conj()) <==> !spec_is_nan(c.re) && spec_is_zero(c.im),
{
}

} // verus!
