//! Bras and kets: fixed-dimension complex vectors tagged with their space.

use core::marker::PhantomData;
use vstd::prelude::*;
use vstd::std_specs::iter::IteratorSpec;
use vstd::string::StringExecFns;
use crate::complex::C64;
use crate::text::{list_text, list_to_text};

verus! {

/// Marker trait for the two sides of the dual space.
pub trait BraKet {

}

/// Marker for a "bra" (row vector) in the bra-ket notation.
#[derive(Debug)]
pub struct Bra;

/// Marker for a "ket" (column vector) in the bra-ket notation.
#[derive(Debug)]
pub struct Ket;

impl BraKet for Bra {

}

impl BraKet for Ket {

}

/// The component-wise complex conjugate of a sequence of scalars.
pub open spec fn conjugated(s: Seq<C64>) -> Seq<C64> {
    Seq::new(s.len(), |i: int| s[i].spec_conj())
}

/// Vector in complex D-dimensional dual space (populated by bras and kets).
#[derive(Debug)]
pub struct Vector<S: BraKet, const D: usize> {
    inner: [C64; D],
    _s: PhantomData<S>,
}

impl<S: BraKet, const D: usize> View for Vector<S, D> {
    type V = Seq<C64>;

    /// The components, first to last.
    closed spec fn view(&self) -> Seq<C64> {
        self.inner@
    }
}

impl<S: BraKet, const D: usize> Vector<S, D> {
    /// The vector whose components are all `0 + 0i`.
    pub fn new() -> (v: Self)
        ensures
            v@.len() == D,
            forall|i: int| 0 <= i < D ==> v@[i] == C64::zero(),
    {
        let zero = C64::zero();
        Self { inner: [zero; D], _s: PhantomData }
    }

    /// The vector with the components of `arr`, in order.
    pub fn from_arr(arr: [C64; D]) -> (v: Self)
        ensures
            v@ == arr@,
            v@.len() == D,
    {
        Self { inner: arr, _s: PhantomData }
    }

    /// An iterator over the components, first to last.
    pub fn iter(&self) -> (it: core::slice::Iter<'_, C64>)
        ensures
            it.remaining() == self@.as_ref(),
    {
        broadcast use vstd::array::group_array_axioms;
        (&self.inner).into_iter()
    }
}

/// The array whose components are the conjugates of those of `arr`.
fn conjugate_all<const D: usize>(arr: [C64; D]) -> (out: [C64; D])
    ensures
        out@ == conjugated(arr@),
{
    let mut out: [C64; D] = arr;
    for i in 0..D
        invariant
            forall|j: int| 0 <= j < i ==> out@[j] == arr@[j].spec_conj(),
            forall|j: int| i <= j < D ==> out@[j] == arr@[j],
    {
        out[i] = out[i].conj();
    }
    out
}

impl<const D: usize> Vector<Bra, D> {
    /// The ket that corresponds to this bra: every component is conjugated,
    /// dimension and order are unchanged.
    pub fn to_ket(&self) -> (ket: Vector<Ket, D>)
        ensures
            ket@ == conjugated(self@),
            ket@.len() == D,
    {
        Vector::<Ket, D> { inner: conjugate_all(self.inner), _s: PhantomData }
    }
}

impl<const D: usize> Vector<Ket, D> {
    /// The bra that corresponds to this ket: every component is conjugated,
    /// dimension and order are unchanged.
    pub fn to_bra(&self) -> (bra: Vector<Bra, D>)
        ensures
            bra@ == conjugated(self@),
            bra@.len() == D,
    {
        Vector::<Bra, D> { inner: conjugate_all(self.inner), _s: PhantomData }
    }
}

/// The text of a bra: the marker `(<|)`, a space, then the components as a
/// bracketed list separated by `, `.
pub open spec fn bra_text(values: Seq<C64>, parts: Seq<(String, String)>) -> Seq<char> {
    seq!['(', '<', '|', ')', ' ', '['] + list_text(values, parts) + seq![']']
}

/// The text of a ket: the marker `(|>)`, a space, then the components as a
/// bracketed list separated by `, `.
pub open spec fn ket_text(values: Seq<C64>, parts: Seq<(String, String)>) -> Seq<char> {
    seq!['(', '|', '>', ')', ' ', '['] + list_text(values, parts) + seq![']']
}

/// Lays out `values` as a bracketed list behind `marker`.
fn marked_list_to_text(
    marker: &str,
    values: &[C64],
    parts: &Vec<(String, String)>,
) -> (text: String)
    requires
        values@.len() == parts@.len(),
    ensures
        text@ == marker@ + list_text(values@, parts@) + seq![']'],
{
    let mut text = String::new();
    text.append(marker);
    let list = list_to_text(values, parts);
    text.append(list.as_str());
    text.append("]");
    proof {
        reveal_strlit("]");
        assert("]"@ =~= seq![']']);
        assert(text@ =~= marker@ + list_text(values@, parts@) + seq![']']);
    }
    text
}

impl<const D: usize> Vector<Bra, D> {
    /// The text of this bra, such as `(<|) [1 + 0i, 0 - 1i]`.  The pair at
    /// position `i` of `parts` holds the decimal text that the caller chose
    /// for the real and the imaginary part of component `i`.
    pub fn to_text(&self, parts: &Vec<(String, String)>) -> (text: String)
        requires
            parts@.len() == D,
        ensures
            text@ == bra_text(self@, parts@),
    {
        proof {
            reveal_strlit("(<|) [");
            assert("(<|) ["@ =~= seq!['(', '<', '|', ')', ' ', '[']);
        }
        marked_list_to_text("(<|) [", self.inner.as_slice(), parts)
    }
}

impl<const D: usize> Vector<Ket, D> {
    /// The text of this ket, such as `(|>) [1 + 0i, 0 - 1i]`.  The pair at
    /// position `i` of `parts` holds the decimal text that the caller chose
    /// for the real and the imaginary part of component `i`.
    pub fn to_text(&self, parts: &Vec<(String, String)>) -> (text: String)
        requires
            parts@.len() == D,
        ensures
            text@ == ket_text(self@, parts@),
    {
        proof {
            reveal_strlit("(|>) [");
            assert("(|>) ["@ =~= seq!['(', '|', '>', ')', ' ', '[']);
        }
        marked_list_to_text("(|>) [", self.inner.as_slice(), parts)
    }
}

/// A space whose vectors each have a counterpart in a dual space, with which
/// they pair to a scalar.
pub trait InnerProductDualSpace {
    /// The vectors of the dual space.
    type Dual;

    /// The scalars that a vector and a dual vector pair to.
    type Scalar;

    /// Whether `dual` is the counterpart of `self` in the dual space.
    spec fn is_dual(&self, dual: &Self::Dual) -> bool;

    /// The counterpart of `self` in the dual space.
    fn to_dual(&self) -> (dual: Self::Dual)
        ensures
            self.is_dual(&dual),
    ;
}

impl<const D: usize> InnerProductDualSpace for Vector<Bra, D> {
    type Dual = Vector<Ket, D>;

    type Scalar = C64;

    open spec fn is_dual(&self, dual: &Vector<Ket, D>) -> bool {
        dual@ == conjugated(self@)
    }

    fn to_dual(&self) -> (dual: Vector<Ket, D>) {
        self.to_ket()
    }
}

impl<const D: usize> InnerProductDualSpace for Vector<Ket, D> {
    type Dual = Vector<Bra, D>;

    type Scalar = C64;

    open spec fn is_dual(&self, dual: &Vector<Bra, D>) -> bool {
        dual@ == conjugated(self@)
    }

    fn to_dual(&self) -> (dual: Vector<Bra, D>) {
        self.to_bra()
    }
}

impl<S: BraKet, const D: usize> core::ops::Index<usize> for Vector<S, D> {
    type Output = C64;

    fn index(&self, index: usize) -> (c: &C64)
        ensures
            *c == self@[index as int],
    {
        &self.inner[index]
    }
}

impl<S: BraKet, const D: usize> vstd::std_specs::core::IndexSpecImpl<usize> for Vector<S, D> {
    open spec fn index_req(&self, index: &usize) -> bool {
        *index < D
    }
}

impl<S: BraKet, const D: usize> core::ops::IndexMut<usize> for Vector<S, D> {
    fn index_mut(&mut self, index: usize) -> (c: &mut C64)
        requires
            index < D,
        ensures
            *c == old(self)@[index as int],
            final(self)@ == old(self)@.update(index as int, *final(c)),
    {
        &mut self.inner[index]
    }
}

impl<'a, S: BraKet, const D: usize> core::iter::IntoIterator for &'a Vector<S, D> {
    type Item = &'a C64;

    type IntoIter = core::slice::Iter<'a, C64>;

    fn into_iter(self) -> (it: core::slice::Iter<'a, C64>)
        ensures
            it.remaining() == self@.as_ref(),
    {
        self.iter()
    }
}

impl<S: BraKet, const D: usize> Clone for Vector<S, D> {
    fn clone(&self) -> (v: Self)
        ensures
            v@ == self@,
            v@.len() == D,
    {
        Self { inner: self.inner, _s: PhantomData }
    }
}

impl<S: BraKet, const D: usize> Default for Vector<S, D> {
    fn default() -> (v: Self)
        ensures
            v@.len() == D,
            forall|i: int| 0 <= i < D ==> v@[i] == C64::zero(),
    {
        Self::new()
    }
}

/// Conjugating every component twice restores the sequence.
pub proof fn lemma_conjugated_involution(s: Seq<C64>)
    ensures
        conjugated(conjugated(s)) == s,
{
    assert(conjugated(conjugated(s)) =~= s);
}

/// Conjugate transposition is an involution on kets: the ket of the bra of
/// a ket is that ket.
pub proof fn lemma_ket_round_trip<const D: usize>(
    ket: Vector<Ket, D>,
    bra: Vector<Bra, D>,
    back: Vector<Ket, D>,
)
    requires
        ket.is_dual(&bra),
        bra.is_dual(&back),
    ensures
        back@ == ket@,
        back == ket,
{
    lemma_conjugated_involution(ket@);
    lemma_same_components(back, ket);
}

/// Conjugate transposition is an involution on bras: the bra of the ket of
/// a bra is that bra.
pub proof fn lemma_bra_round_trip<const D: usize>(
    bra: Vector<Bra, D>,
    ket: Vector<Ket, D>,
    back: Vector<Bra, D>,
)
    requires
        bra.is_dual(&ket),
        ket.is_dual(&back),
    ensures
        back@ == bra@,
        back == bra,
{
    lemma_conjugated_involution(bra@);
    lemma_same_components(back, bra);
}

/// A vector of dimension `D` has exactly `D` components.
pub proof fn lemma_dimension<S: BraKet, const D: usize>(v: Vector<S, D>)
    ensures
        v@.len() == D,
{
    broadcast use vstd::array::group_array_axioms;
}

/// Two vectors of one space with the same components are the same vector.
pub proof fn lemma_same_components<S: BraKet, const D: usize>(a: Vector<S, D>, b: Vector<S, D>)
    requires
        a@ == b@,
    ensures
        a == b,
{
    broadcast use vstd::array::group_array_axioms;
    assert(a.inner =~= b.inner);
}

} // verus!
