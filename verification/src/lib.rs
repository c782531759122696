//! Bra-ket linear algebra over complex double-precision scalars.
//!
//! Every real number in this crate is carried as the 64-bit pattern of an
//! IEEE 754 binary64 value.  The operations that are exact on that encoding
//! (sign flips, comparisons, the Hermitian symmetry test, conjugate
//! transposition, text layout) are implemented and proved here; rounding
//! arithmetic is left to the caller, who converts with `from_bits` and
//! `to_bits`.

pub mod binary64;
pub mod complex;
pub mod operator;
pub mod text;
pub mod vector;
