use crate::alg::mat4::Mat4;
use crate::alg::scalar::{one, zero, Scalar};
use vstd::prelude::*;

verus! {

/// The three indices that are left of 0, 1, 2, 3 when `row` is struck out,
/// in ascending order. Striking something else out leaves 0, 1, 2.
pub open spec fn remaining(row: int) -> (int, int, int) {
    (
        if 0 < row {
            0
        } else {
            1
        },
        if 1 < row {
            1
        } else {
            2
        },
        if 2 < row {
            2
        } else {
            3
        },
    )
}

impl<S: Scalar> Mat4<S> {
    /// The product of four slots, multiplied from the first to the last.
    pub open spec fn quad(self, a: int, b: int, c: int, d: int) -> S {
        self.0[a].product(self.0[b]).product(self.0[c]).product(self.0[d])
    }

    /// The determinant, by its full expansion: for each of the twenty-four
    /// ways of picking one slot from every row and every column the product
    /// of the four slots, added where the picking is an even permutation and
    /// subtracted where it is odd, in this order.
    pub open spec fn det(self) -> S {
        self.quad(0, 5, 10, 15).difference(self.quad(0, 5, 11, 14)).sum(
            self.quad(0, 6, 11, 13),
        ).difference(self.quad(0, 6, 9, 15)).sum(self.quad(0, 7, 9, 14)).difference(
            self.quad(0, 7, 10, 13),
        ).difference(self.quad(1, 4, 10, 15)).sum(self.quad(1, 4, 11, 14)).sum(
            self.quad(1, 6, 8, 15),
        ).difference(self.quad(1, 6, 12, 11)).difference(self.quad(1, 7, 8, 14)).sum(
            self.quad(1, 7, 10, 12),
        ).sum(self.quad(2, 7, 8, 13)).difference(self.quad(2, 7, 9, 12)).sum(
            self.quad(2, 4, 9, 15),
        ).difference(self.quad(2, 4, 11, 13)).sum(self.quad(2, 5, 11, 12)).difference(
            self.quad(2, 5, 8, 15),
        ).difference(self.quad(3, 4, 9, 14)).sum(self.quad(3, 4, 10, 13)).sum(
            self.quad(3, 5, 8, 14),
        ).difference(self.quad(3, 5, 10, 12)).difference(self.quad(3, 6, 8, 13)).sum(
            self.quad(3, 6, 9, 12),
        )
    }

    /// The product of three entries, multiplied from the first to the last.
    pub open spec fn triple(self, a: (int, int), b: (int, int), c: (int, int)) -> S {
        self.entry(a.0, a.1).product(self.entry(b.0, b.1)).product(self.entry(c.0, c.1))
    }

    /// The determinant of the three by three matrix that is left without
    /// row `i` and column `j`: three products added to zero, then three
    /// products subtracted.
    pub open spec fn minor(self, i: int, j: int) -> S {
        let (i0, i1, i2) = remaining(i);
        let (j0, j1, j2) = remaining(j);
        zero::<S>().sum(self.triple((i0, j0), (i1, j1), (i2, j2))).sum(
            self.triple((i1, j0), (i2, j1), (i0, j2)),
        ).sum(self.triple((i2, j0), (i0, j1), (i1, j2))).difference(
            self.triple((i2, j0), (i1, j1), (i0, j2)),
        ).difference(self.triple((i1, j0), (i0, j1), (i2, j2))).difference(
            self.triple((i0, j0), (i2, j1), (i1, j2)),
        )
    }

    /// The sign of the cofactor at `(i, j)`: one where `i + j` is even, minus
    /// one where it is odd.
    pub open spec fn sign(i: int, j: int) -> S {
        if (i + j) % 2 == 0 {
            S::of_i32(1)
        } else {
            S::of_i32(-1i32)
        }
    }

    /// The cofactor at `(i, j)`: the minor times the sign. Outside the matrix
    /// it is zero.
    pub open spec fn cofactor(self, i: int, j: int) -> S {
        if i >= 4 || j >= 4 {
            zero()
        } else {
            self.minor(i, j).product(Self::sign(i, j))
        }
    }

    /// The matrix of cofactors: its entry `(i, j)` is the cofactor at
    /// `(i, j)`.
    pub open spec fn cofactors(self) -> Self {
        Mat4(
            [
                self.cofactor(0, 0),
                self.cofactor(1, 0),
                self.cofactor(2, 0),
                self.cofactor(3, 0),
                self.cofactor(0, 1),
                self.cofactor(1, 1),
                self.cofactor(2, 1),
                self.cofactor(3, 1),
                self.cofactor(0, 2),
                self.cofactor(1, 2),
                self.cofactor(2, 2),
                self.cofactor(3, 2),
                self.cofactor(0, 3),
                self.cofactor(1, 3),
                self.cofactor(2, 3),
                self.cofactor(3, 3),
            ],
        )
    }

    /// The adjugate: the transposed matrix of cofactors. Its entry `(i, j)`
    /// is the cofactor at `(j, i)`.
    pub open spec fn adjugate(self) -> Self {
        self.cofactors().transposed()
    }

    /// The inverse by the adjugate: none where the determinant compares equal
    /// to zero, else the adjugate times one over the determinant.
    pub open spec fn inverted(self) -> Option<Self> {
        if self.det().vanishes() {
            None
        } else {
            Some(self.adjugate().scaled(one::<S>().quotient(self.det())))
        }
    }

    /// The three indices that remain of 0, 1, 2, 3 without `row`, ascending.
    pub fn get_row_indexes_removing_row(row: usize) -> (kept: (usize, usize, usize))
        ensures
            (kept.0 as int, kept.1 as int, kept.2 as int) == remaining(row as int),
            kept.0 < kept.1 < kept.2 < 4,
            kept.0 != row && kept.1 != row && kept.2 != row,
    {
        let mut mi: [usize; 3] = [0, 0, 0];
        for i in 0..3usize
            invariant
                forall|n: int|
                    0 <= n < i ==> (#[trigger] mi[n]) == if n < row {
                        n
                    } else {
                        n + 1
                    },
        {
            let increment: usize = if i < row {
                0
            } else {
                1
            };
            mi[i] = i + increment;
        }
        (mi[0], mi[1], mi[2])
    }

    /// The matrix inverse, where the determinant does not compare equal to
    /// zero. The comparison is exact: a matrix that is nearly singular is
    /// inverted all the same.
    pub fn inverse(&self) -> (inv: Option<Mat4<S>>)
        ensures
            inv == self.inverted(),
    {
        let determinant = self.determinant();
        if determinant.is_zero() {
            return None;
        }
        let adjugate = self.aggiunta();
        Some(adjugate.scalar(S::from_i32(1).div(determinant)))
    }

    /// The adjugate: the transposed matrix of cofactors.
    pub fn aggiunta(&self) -> (m: Self)
        ensures
            m == self.adjugate(),
    {
        let mut m = Mat4::new();
        for i in 0..4usize
            invariant
                forall|n: int|
                    0 <= n < 16 && n % 4 < i ==> (#[trigger] m.0[n]) == self.cofactor(n / 4, n % 4),
        {
            for j in 0..4usize
                invariant
                    i < 4,
                    forall|n: int|
                        0 <= n < 16 && (n % 4 < i || (n % 4 == i && n / 4 < j)) ==> (
                        #[trigger] m.0[n]) == self.cofactor(n / 4, n % 4),
            {
                m.0[i + 4 * j] = self.complemento_algebrico(j, i);
            }
        }
        assert(m =~= self.adjugate());
        m
    }

    /// The cofactor at row `i` and column `j`, and zero for an index outside
    /// the matrix.
    pub fn complemento_algebrico(&self, i: usize, j: usize) -> (value: S)
        ensures
            value == self.cofactor(i as int, j as int),
    {
        if i >= 4 || j >= 4 {
            return S::from_i32(0);
        }
        let (i0, i1, i2) = Self::get_row_indexes_removing_row(i);
        let (j0, j1, j2) = Self::get_row_indexes_removing_row(j);
        let sign = if (i + j) % 2 == 0 {
            S::from_i32(1)
        } else {
            S::from_i32(-1)
        };
        let mut determinant = S::from_i32(0);
        determinant = determinant.add(self.get(i0, j0).mul(*self.get(i1, j1)).mul(*self.get(i2, j2)));
        determinant = determinant.add(self.get(i1, j0).mul(*self.get(i2, j1)).mul(*self.get(i0, j2)));
        determinant = determinant.add(self.get(i2, j0).mul(*self.get(i0, j1)).mul(*self.get(i1, j2)));
        determinant = determinant.sub(self.get(i2, j0).mul(*self.get(i1, j1)).mul(*self.get(i0, j2)));
        determinant = determinant.sub(self.get(i1, j0).mul(*self.get(i0, j1)).mul(*self.get(i2, j2)));
        determinant = determinant.sub(self.get(i0, j0).mul(*self.get(i2, j1)).mul(*self.get(i1, j2)));
        determinant.mul(sign)
    }

    /// The product of the slots `a`, `b`, `c` and `d`.
    fn term(&self, a: usize, b: usize, c: usize, d: usize) -> (value: S)
        requires
            a < 16 && b < 16 && c < 16 && d < 16,
        ensures
            value == self.quad(a as int, b as int, c as int, d as int),
    {
        self.0[a].mul(self.0[b]).mul(self.0[c]).mul(self.0[d])
    }

    /// The determinant, by its full expansion into twenty-four products.
    pub fn determinant(&self) -> (value: S)
        ensures
            value == self.det(),
    {
        let det = self.term(0, 5, 10, 15)
            .sub(self.term(0, 5, 11, 14))
            .add(self.term(0, 6, 11, 13))
            .sub(self.term(0, 6, 9, 15))
            .add(self.term(0, 7, 9, 14))
            .sub(self.term(0, 7, 10, 13))
            .sub(self.term(1, 4, 10, 15))
            .add(self.term(1, 4, 11, 14))
            .add(self.term(1, 6, 8, 15))
            .sub(self.term(1, 6, 12, 11))
            .sub(self.term(1, 7, 8, 14))
            .add(self.term(1, 7, 10, 12))
            .add(self.term(2, 7, 8, 13))
            .sub(self.term(2, 7, 9, 12))
            .add(self.term(2, 4, 9, 15))
            .sub(self.term(2, 4, 11, 13))
            .add(self.term(2, 5, 11, 12))
            .sub(self.term(2, 5, 8, 15))
            .sub(self.term(3, 4, 9, 14))
            .add(self.term(3, 4, 10, 13))
            .add(self.term(3, 5, 8, 14))
            .sub(self.term(3, 5, 10, 12))
            .sub(self.term(3, 6, 8, 13))
            .add(self.term(3, 6, 9, 12));
        det
    }
}

} // verus!
