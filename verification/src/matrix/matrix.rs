use vstd::prelude::*;

use crate::Zero;

verus! {

/// A fixed-size two-dimensional grid with `R` rows and `C` columns, both
/// known at compile time.
///
/// The values are stored column-major: `C` columns, each an `R`-length
/// array. The view and the accessors nevertheless present the grid row by
/// row, in the natural visual layout, whichever constructor built it: the
/// view is the sequence of the `R` rows, each row the sequence of its `C`
/// values in column order.
#[derive(Clone, Debug, Eq, PartialEq)]
pub struct Matrix<T, const R: usize, const C: usize> {
    /// The stored columns: element `[c][r]` is the value at row `r`,
    /// column `c` of the natural layout.
    pub data: [[T; R]; C],
}

impl<T, const R: usize, const C: usize> View for Matrix<T, R, C> {
    type V = Seq<Seq<T>>;

    open spec fn view(&self) -> Seq<Seq<T>> {
        Seq::new(R as nat, |r: int| Seq::new(C as nat, |c: int| self.data@[c]@[r]))
    }
}

impl<T: Zero, const R: usize, const C: usize> Matrix<T, R, C> {
    /// Creates a matrix from a literal in natural order: `R` rows of `C`
    /// values, laid out as the matrix is read. The literal is transposed
    /// into the column-major store; the view equals the literal.
    ///
    /// To hand over data already in the internal column-major shape without
    /// paying the transposition, see [`Matrix::new`].
    pub fn natural(data: [[T; C]; R]) -> (m: Self)
        ensures
            m@.len() == R,
            forall|r: int| 0 <= r < R ==> #[trigger] m@[r].len() == C,
            forall|r: int, c: int| 0 <= r < R && 0 <= c < C ==> #[trigger] m@[r][c]
                == data@[r]@[c],
    {
        let z = T::zero();
        let zcol: [T; R] = [z; R];
        let mut cols: [[T; R]; C] = [zcol; C];
        let mut c: usize = 0;
        while c < C
            invariant
                c <= C,
                forall|cc: int, rr: int| 0 <= cc < c && 0 <= rr < R ==> #[trigger] cols@[cc]@[rr]
                    == data@[rr]@[cc],
            decreases C - c,
        {
            let mut col: [T; R] = [z; R];
            let mut r: usize = 0;
            while r < R
                invariant
                    r <= R,
                    c < C,
                    forall|rr: int| 0 <= rr < r ==> #[trigger] col@[rr] == data@[rr]@[c as int],
                decreases R - r,
            {
                col[r] = data[r][c];
                r += 1;
            }
            cols[c] = col;
            c += 1;
        }
        Matrix { data: cols }
    }
}

impl<T, const R: usize, const C: usize> Matrix<T, R, C> {
    /// Creates a matrix from data already in the internal column-major
    /// shape: `C` columns of `R` values. The data is stored as it stands,
    /// with no transposition; element `[c][r]` of the literal becomes the
    /// value at row `r`, column `c` of the view.
    ///
    /// To write the literal as the matrix is read, see [`Matrix::natural`].
    pub fn new(data: [[T; R]; C]) -> (m: Self)
        ensures
            m@.len() == R,
            forall|r: int| 0 <= r < R ==> #[trigger] m@[r].len() == C,
            forall|r: int, c: int| 0 <= r < R && 0 <= c < C ==> #[trigger] m@[r][c]
                == data@[c]@[r],
    {
        Matrix { data }
    }
}

impl<T: Zero, const R: usize, const C: usize> Matrix<T, R, C> {
    /// Returns the row at index `r` of the natural layout: its `C` values
    /// in column order. Indexing at or past `R` is excluded.
    pub fn row(&self, r: usize) -> (out: [T; C])
        requires
            r < R,
        ensures
            out@.len() == C,
            forall|c: int| 0 <= c < C ==> #[trigger] out@[c] == self@[r as int][c],
    {
        let z = T::zero();
        let mut out: [T; C] = [z; C];
        let mut c: usize = 0;
        while c < C
            invariant
                c <= C,
                r < R,
                forall|cc: int| 0 <= cc < c ==> #[trigger] out@[cc] == self.data@[cc]@[r as int],
            decreases C - c,
        {
            out[c] = self.data[c][r];
            c += 1;
        }
        out
    }
}

impl<T: Copy, const R: usize, const C: usize> Matrix<T, R, C> {
    /// Replaces the row at index `r` of the natural layout with the given
    /// `C` values, leaving every other row unchanged. Indexing at or past
    /// `R` is excluded.
    pub fn set_row(&mut self, r: usize, vals: [T; C])
        requires
            r < R,
        ensures
            final(self)@.len() == R,
            forall|c: int| 0 <= c < C ==> #[trigger] final(self)@[r as int][c] == vals@[c],
            forall|rr: int, c: int|
                0 <= rr < R && rr != r && 0 <= c < C ==> #[trigger] final(self)@[rr][c] == old(
                    self,
                )@[rr][c],
    {
        let mut c: usize = 0;
        while c < C
            invariant
                c <= C,
                r < R,
                forall|cc: int| 0 <= cc < c ==> #[trigger] self.data@[cc]@[r as int] == vals@[cc],
                forall|cc: int, rr: int|
                    0 <= cc < C && 0 <= rr < R && !(cc < c && rr == r)
                        ==> #[trigger] self.data@[cc]@[rr] == old(self).data@[cc]@[rr],
            decreases C - c,
        {
            let mut col = self.data[c];
            col[r] = vals[c];
            self.data[c] = col;
            c += 1;
        }
    }

    /// Returns the value at row `r`, column `c` of the natural layout.
    /// Indexing outside the grid is excluded.
    pub fn entry(&self, r: usize, c: usize) -> (v: T)
        requires
            r < R,
            c < C,
        ensures
            v == self@[r as int][c as int],
    {
        let col = self.data[c];
        col[r]
    }

    /// Replaces the value at row `r`, column `c` of the natural layout,
    /// leaving every other value unchanged. Indexing outside the grid is
    /// excluded.
    pub fn set_entry(&mut self, r: usize, c: usize, v: T)
        requires
            r < R,
            c < C,
        ensures
            final(self)@.len() == R,
            final(self)@[r as int][c as int] == v,
            forall|rr: int, cc: int|
                0 <= rr < R && 0 <= cc < C && !(rr == r && cc == c)
                    ==> #[trigger] final(self)@[rr][cc] == old(self)@[rr][cc],
    {
        let mut col = self.data[c];
        col[r] = v;
        self.data[c] = col;
    }
}

/// Law: building a matrix from a natural-order literal and then reading a
/// row returns the literal's row unchanged, whatever the internal storage
/// order. The hypotheses are exactly what [`Matrix::natural`] ensures of
/// `m == Matrix::natural(data)` and what [`Matrix::row`] ensures of
/// `out == m.row(r)`.
pub proof fn lemma_transpose_duality<T, const R: usize, const C: usize>(
    m: Matrix<T, R, C>,
    data: [[T; C]; R],
    r: int,
    out: [T; C],
)
    requires
        0 <= r < R,
        forall|rr: int, cc: int| 0 <= rr < R && 0 <= cc < C ==> #[trigger] m@[rr][cc]
            == data@[rr]@[cc],
        forall|cc: int| 0 <= cc < C ==> #[trigger] out@[cc] == m@[r][cc],
    ensures
        out == data@[r],
{
    assert forall|cc: int| 0 <= cc < C implies out@[cc] == data@[r]@[cc] by {
        assert(m@[r][cc] == data@[r]@[cc]);
    }
    assert(out =~= data@[r]);
}

} // verus!
