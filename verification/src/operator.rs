//! Hermitian operators on kets and bras.

use vstd::prelude::*;
use vstd::string::StringExecFns;
use crate::binary64::{spec_float_eq, spec_is_nan, spec_is_zero, spec_negate};
use crate::complex::{lemma_equal_to_own_conj, C64};
use crate::text::{joined, lemma_joined_next, list_text, list_to_text};
use crate::vector::{Bra, Ket, Vector};

verus! {

/// Why an operator could not be built.
#[derive(Debug)]
pub enum OperatorError {
    /// Some entry differs from the conjugate of its transposed entry.
    HermitianPropertiesNotSatisfied,
}

impl OperatorError {
    /// The message that describes this error.
    pub fn to_string(&self) -> (message: String)
        ensures
            message@ == "Attempt to contruct non-Hermitian operator"@,
    {
        match self {
            OperatorError::HermitianPropertiesNotSatisfied => {
                "Attempt to contruct non-Hermitian operator".to_owned()
            },
        }
    }
}

/// The rows of a square grid, each as a sequence of scalars.
pub open spec fn rows<const D: usize>(arr: [[C64; D]; D]) -> Seq<Seq<C64>> {
    Seq::new(D as nat, |i: int| arr@[i]@)
}

/// Whether the entry at row `i`, column `j` equals, in IEEE arithmetic, the
/// conjugate of the entry at row `j`, column `i`.
pub open spec fn mirrored_at(grid: Seq<Seq<C64>>, i: int, j: int) -> bool {
    grid[i][j].spec_eq(grid[j][i].spec_conj())
}

/// The Hermitian symmetry property of a square grid with `grid.len()` rows:
/// every entry equals the conjugate of its transposed entry.
pub open spec fn is_hermitian(grid: Seq<Seq<C64>>) -> bool {
    forall|i: int, j: int|
        0 <= i < grid.len() && 0 <= j < grid.len() ==> #[trigger] mirrored_at(grid, i, j)
}

/// DxD Hermitian operator.
#[derive(Debug, Copy, Clone)]
pub struct HermitianMatrix<const D: usize> {
    inner: [[C64; D]; D],
}

impl<const D: usize> View for HermitianMatrix<D> {
    type V = Seq<Seq<C64>>;

    /// The rows of the operator, top to bottom.
    closed spec fn view(&self) -> Seq<Seq<C64>> {
        rows(self.inner)
    }
}

impl<const D: usize> HermitianMatrix<D> {
    #[verifier::type_invariant]
    spec fn symmetric(&self) -> bool {
        is_hermitian(rows(self.inner))
    }

    /// Builds the operator with the entries of `arr`, provided that `arr` is
    /// Hermitian; otherwise reports the violation.
    pub fn from_arr(arr: [[C64; D]; D]) -> (r: Result<Self, OperatorError>)
        ensures
            r is Ok <==> is_hermitian(rows(arr)),
            r matches Ok(m) ==> m@ == rows(arr),
            r is Err ==> r == Err::<Self, OperatorError>(
                OperatorError::HermitianPropertiesNotSatisfied,
            ),
    {
        let ghost grid = rows(arr);
        for ridx in 0..D
            invariant
                grid == rows(arr),
                forall|i: int, j: int|
                    0 <= i < ridx && 0 <= j < D ==> #[trigger] mirrored_at(grid, i, j),
        {
            for cidx in 0..D
                invariant
                    ridx < D,
                    grid == rows(arr),
                    forall|i: int, j: int|
                        0 <= i < ridx && 0 <= j < D ==> #[trigger] mirrored_at(grid, i, j),
                    forall|j: int| 0 <= j < cidx ==> #[trigger] mirrored_at(grid, ridx as int, j),
            {
                if arr[ridx][cidx] != arr[cidx][ridx].conj() {
                    assert(!mirrored_at(grid, ridx as int, cidx as int));
                    return Err(OperatorError::HermitianPropertiesNotSatisfied);
                }
            }
        }
        Ok(Self { inner: arr })
    }

    /// The entry at row `row`, column `col`.  It equals, in IEEE arithmetic,
    /// the conjugate of the entry at row `col`, column `row`.
    pub fn entry(&self, row: usize, col: usize) -> (c: C64)
        requires
            row < D,
            col < D,
        ensures
            c == self@[row as int][col as int],
            mirrored_at(self@, row as int, col as int),
    {
        proof {
            use_type_invariant(self);
        }
        self.inner[row][col]
    }
}

impl<const D: usize> HermitianMatrix<D> {
    /// Row `index` as a bra.  Applying the operator to a ket pairs each row
    /// with that ket.
    pub fn row(&self, index: usize) -> (bra: Vector<Bra, D>)
        requires
            index < D,
        ensures
            bra@ == self@[index as int],
            bra@.len() == D,
    {
        Vector::from_arr(self.inner[index])
    }

    /// Column `index` as a ket.  Applying the operator to a bra pairs that
    /// bra with each column.  Every component of the column equals, in IEEE
    /// arithmetic, the conjugate of the component of row `index` at the same
    /// position.
    pub fn column(&self, index: usize) -> (ket: Vector<Ket, D>)
        requires
            index < D,
        ensures
            ket@.len() == D,
            forall|r: int| 0 <= r < D ==> ket@[r] == #[trigger] self@[r][index as int],
            forall|r: int|
                0 <= r < D ==> (#[trigger] ket@[r]).spec_eq(self@[index as int][r].spec_conj()),
    {
        let zero = C64::zero();
        let mut out: [C64; D] = [zero; D];
        for r in 0..D
            invariant
                index < D,
                forall|k: int| 0 <= k < r ==> out@[k] == #[trigger] self@[k][index as int],
        {
            out[r] = self.inner[r][index];
        }
        proof {
            use_type_invariant(self);
            assert forall|r: int| 0 <= r < D implies (#[trigger] out@[r]).spec_eq(
                self@[index as int][r].spec_conj(),
            ) by {
                assert(mirrored_at(self@, r, index as int));
            }
        }
        Vector::from_arr(out)
    }
}

/// The text of each row of `grid`: its entries as a bracketed list separated
/// by `, `.
pub open spec fn row_texts(grid: Seq<Seq<C64>>, parts: Seq<Vec<(String, String)>>) -> Seq<Seq<char>> {
    Seq::new(grid.len(), |r: int| seq!['['] + list_text(grid[r], parts[r]@) + seq![']'])
}

/// The text of a grid: a line break, then the rows in brackets, one per
/// line, each row after the first indented by one space.
pub open spec fn grid_text(grid: Seq<Seq<C64>>, parts: Seq<Vec<(String, String)>>) -> Seq<char> {
    seq!['\n', '['] + joined(row_texts(grid, parts), seq!['\n', ' ']) + seq![']']
}

impl<const D: usize> HermitianMatrix<D> {
    /// The text of this operator: for two rows, a line break, then
    /// `[[a, b]`, a line break, and ` [c, d]]`.  The pair at row `r`,
    /// position `c` of `parts` holds the decimal text that the caller chose
    /// for the real and the imaginary part of the entry at row `r`, column
    /// `c`.
    pub fn to_text(&self, parts: &Vec<Vec<(String, String)>>) -> (text: String)
        requires
            parts@.len() == D,
            forall|r: int| 0 <= r < D ==> (#[trigger] parts@[r])@.len() == D,
        ensures
            text@ == grid_text(self@, parts@),
    {
        let ghost items = row_texts(self@, parts@);
        let ghost separator = seq!['\n', ' '];
        let mut text = String::new();
        text.append("\n[");
        proof {
            reveal_strlit("\n[");
            assert(text@ =~= seq!['\n', '['] + joined(items.take(0), separator));
        }
        for r in 0..D
            invariant
                parts@.len() == D,
                forall|k: int| 0 <= k < D ==> (#[trigger] parts@[k])@.len() == D,
                items == row_texts(self@, parts@),
                separator == seq!['\n', ' '],
                text@ == seq!['\n', '['] + joined(items.take(r as int), separator),
        {
            proof {
                lemma_joined_next(items, separator, r as int);
                reveal_strlit("\n ");
                reveal_strlit("[");
                reveal_strlit("]");
                assert("\n "@ =~= separator);
                assert("["@ =~= seq!['[']);
                assert("]"@ =~= seq![']']);
            }
            if r > 0 {
                text.append("\n ");
            }
            text.append("[");
            let list = list_to_text(self.inner[r].as_slice(), &parts[r]);
            text.append(list.as_str());
            text.append("]");
            assert(text@ =~= seq!['\n', '['] + joined(items.take(r + 1), separator));
        }
        text.append("]");
        proof {
            reveal_strlit("]");
            assert("]"@ =~= seq![']']);
            assert(items.take(D as int) =~= items);
            assert(text@ =~= grid_text(self@, parts@));
        }
        text
    }
}

/// An operator of dimension `D` has `D` rows of `D` entries each.
pub proof fn lemma_square<const D: usize>(m: HermitianMatrix<D>)
    ensures
        m@.len() == D,
        forall|r: int| 0 <= r < D ==> (#[trigger] m@[r]).len() == D,
{
    broadcast use vstd::array::group_array_axioms;
}

/// A grid is Hermitian when every entry off its diagonal is a zero and every
/// entry on its diagonal is real.  The identity grid is one such grid.
pub proof fn lemma_real_diagonal_grid_is_hermitian(grid: Seq<Seq<C64>>)
    requires
        forall|i: int, j: int|
            0 <= i < grid.len() && 0 <= j < grid.len() && i != j ==> {
                &&& spec_is_zero((#[trigger] grid[i][j]).re)
                &&& spec_is_zero(grid[i][j].im)
            },
        forall|i: int|
            0 <= i < grid.len() ==> {
                &&& !spec_is_nan((#[trigger] grid[i][i]).re)
                &&& spec_is_zero(grid[i][i].im)
            },
    ensures
        is_hermitian(grid),
{
    assert forall|i: int, j: int|
        0 <= i < grid.len() && 0 <= j < grid.len() implies #[trigger] mirrored_at(grid, i, j) by {
        if i == j {
            lemma_equal_to_own_conj(grid[i][i]);
        }
    }
}

/// Every diagonal entry of a Hermitian grid is real: its real part is not a
/// NaN and its imaginary part is a zero.
pub proof fn lemma_hermitian_diagonal_is_real(grid: Seq<Seq<C64>>, i: int)
    requires
        is_hermitian(grid),
        0 <= i < grid.len(),
    ensures
        !spec_is_nan(grid[i][i].re),
        spec_is_zero(grid[i][i].im),
{
    assert(mirrored_at(grid, i, i));
    lemma_equal_to_own_conj(grid[i][i]);
}

/// In a Hermitian grid no part of any entry is a NaN, transposed entries have
/// equal real parts, and their imaginary parts are negations of each other.
pub proof fn lemma_hermitian_entry(grid: Seq<Seq<C64>>, i: int, j: int)
    requires
        is_hermitian(grid),
        0 <= i < grid.len(),
        0 <= j < grid.len(),
    ensures
        !spec_is_nan(grid[i][j].re),
        !spec_is_nan(grid[i][j].im),
        spec_float_eq(grid[i][j].re, grid[j][i].re),
        spec_float_eq(grid[i][j].im, spec_negate(grid[j][i].im)),
{
    assert(mirrored_at(grid, i, j));
}

} // verus!
