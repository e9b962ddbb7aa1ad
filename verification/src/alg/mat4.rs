use crate::alg::scalar::{is_cos_of, is_sin_of, one, zero, Real, Scalar};
use crate::alg::vec4::Vec4;
use vstd::prelude::*;
use vstd::std_specs::ops::{AddSpecImpl, MulSpecImpl, SubSpecImpl};
use vstd::string::StringExecFns;

verus! {

/// A four by four matrix: sixteen scalars in sixteen numbered slots.
///
/// The entry in row `i` and column `j` is in slot `i + 4 * j`: the slots run
/// down the columns. [`Mat4::get`] reads by row and column, and every
/// operation goes by the same layout: slots 12, 13 and 14 hold a
/// translation, and slots 3, 7, 11 and 15 are the bottom row.
#[derive(Debug)]
#[verifier::ext_equal]
pub struct Mat4<S>(pub [S; 16]);

impl<S: Copy> Copy for Mat4<S> {

}

impl<S: Copy> Clone for Mat4<S> {
    fn clone(&self) -> (copy: Self)
        ensures
            copy == *self,
    {
        *self
    }
}

impl<S: Scalar> Mat4<S> {
    /// The matrix of sixteen zeros.
    pub open spec fn zeros() -> Self {
        Mat4(
            [
                zero(),
                zero(),
                zero(),
                zero(),
                zero(),
                zero(),
                zero(),
                zero(),
                zero(),
                zero(),
                zero(),
                zero(),
                zero(),
                zero(),
                zero(),
                zero(),
            ],
        )
    }

    /// The identity: one in slots 0, 5, 10 and 15, zero elsewhere.
    pub open spec fn unit() -> Self {
        Mat4(
            [
                one(),
                zero(),
                zero(),
                zero(),
                zero(),
                one(),
                zero(),
                zero(),
                zero(),
                zero(),
                one(),
                zero(),
                zero(),
                zero(),
                zero(),
                one(),
            ],
        )
    }

    /// Slot by slot sum.
    pub open spec fn plus(self, rhs: Self) -> Self {
        Mat4(
            [
                self.0[0].sum(rhs.0[0]),
                self.0[1].sum(rhs.0[1]),
                self.0[2].sum(rhs.0[2]),
                self.0[3].sum(rhs.0[3]),
                self.0[4].sum(rhs.0[4]),
                self.0[5].sum(rhs.0[5]),
                self.0[6].sum(rhs.0[6]),
                self.0[7].sum(rhs.0[7]),
                self.0[8].sum(rhs.0[8]),
                self.0[9].sum(rhs.0[9]),
                self.0[10].sum(rhs.0[10]),
                self.0[11].sum(rhs.0[11]),
                self.0[12].sum(rhs.0[12]),
                self.0[13].sum(rhs.0[13]),
                self.0[14].sum(rhs.0[14]),
                self.0[15].sum(rhs.0[15]),
            ],
        )
    }

    /// Slot by slot difference.
    pub open spec fn minus(self, rhs: Self) -> Self {
        Mat4(
            [
                self.0[0].difference(rhs.0[0]),
                self.0[1].difference(rhs.0[1]),
                self.0[2].difference(rhs.0[2]),
                self.0[3].difference(rhs.0[3]),
                self.0[4].difference(rhs.0[4]),
                self.0[5].difference(rhs.0[5]),
                self.0[6].difference(rhs.0[6]),
                self.0[7].difference(rhs.0[7]),
                self.0[8].difference(rhs.0[8]),
                self.0[9].difference(rhs.0[9]),
                self.0[10].difference(rhs.0[10]),
                self.0[11].difference(rhs.0[11]),
                self.0[12].difference(rhs.0[12]),
                self.0[13].difference(rhs.0[13]),
                self.0[14].difference(rhs.0[14]),
                self.0[15].difference(rhs.0[15]),
            ],
        )
    }

    /// The entry in row `i` and column `j`: slot `i + 4 * j`.
    pub open spec fn entry(self, i: int, j: int) -> S {
        self.0[i + 4 * j]
    }

    /// Row `i` as a vector: the entries `(i, 0)` to `(i, 3)`.
    pub open spec fn row(self, i: int) -> Vec4<S> {
        Vec4([self.entry(i, 0), self.entry(i, 1), self.entry(i, 2), self.entry(i, 3)])
    }

    /// Column `j` as a vector: the entries `(0, j)` to `(3, j)`.
    pub open spec fn column(self, j: int) -> Vec4<S> {
        Vec4([self.entry(0, j), self.entry(1, j), self.entry(2, j), self.entry(3, j)])
    }

    /// Row `i` of `self` times column `j` of `rhs`: the products of
    /// `self.entry(i, k)` and `rhs.entry(k, j)`, added up from `k` zero to
    /// three.
    pub open spec fn cell(self, rhs: Self, i: int, j: int) -> S {
        self.row(i).dot(rhs.column(j))
    }

    /// The matrix product: its entry `(i, j)` is [`Mat4::cell`] `(i, j)`.
    pub open spec fn times(self, rhs: Self) -> Self {
        Mat4(
            [
                self.cell(rhs, 0, 0),
                self.cell(rhs, 1, 0),
                self.cell(rhs, 2, 0),
                self.cell(rhs, 3, 0),
                self.cell(rhs, 0, 1),
                self.cell(rhs, 1, 1),
                self.cell(rhs, 2, 1),
                self.cell(rhs, 3, 1),
                self.cell(rhs, 0, 2),
                self.cell(rhs, 1, 2),
                self.cell(rhs, 2, 2),
                self.cell(rhs, 3, 2),
                self.cell(rhs, 0, 3),
                self.cell(rhs, 1, 3),
                self.cell(rhs, 2, 3),
                self.cell(rhs, 3, 3),
            ],
        )
    }

    /// Every slot multiplied by `k`.
    pub open spec fn scaled(self, k: S) -> Self {
        Mat4(
            [
                self.0[0].product(k),
                self.0[1].product(k),
                self.0[2].product(k),
                self.0[3].product(k),
                self.0[4].product(k),
                self.0[5].product(k),
                self.0[6].product(k),
                self.0[7].product(k),
                self.0[8].product(k),
                self.0[9].product(k),
                self.0[10].product(k),
                self.0[11].product(k),
                self.0[12].product(k),
                self.0[13].product(k),
                self.0[14].product(k),
                self.0[15].product(k),
            ],
        )
    }

    /// Rows and columns exchanged: entry `(i, j)` holds what entry `(j, i)`
    /// held.
    pub open spec fn transposed(self) -> Self {
        Mat4(
            [
                self.0[0],
                self.0[4],
                self.0[8],
                self.0[12],
                self.0[1],
                self.0[5],
                self.0[9],
                self.0[13],
                self.0[2],
                self.0[6],
                self.0[10],
                self.0[14],
                self.0[3],
                self.0[7],
                self.0[11],
                self.0[15],
            ],
        )
    }

    /// The translation by the first three components of `v`: the identity
    /// with them in the last column, in slots 12, 13 and 14.
    pub open spec fn translation(v: Vec4<S>) -> Self {
        Mat4(
            [
                one(),
                zero(),
                zero(),
                zero(),
                zero(),
                one(),
                zero(),
                zero(),
                zero(),
                zero(),
                one(),
                zero(),
                v.0[0],
                v.0[1],
                v.0[2],
                one(),
            ],
        )
    }

    /// The identity with the first three components of `v` in slots 0, 5
    /// and 10.
    pub open spec fn scaling(v: Vec4<S>) -> Self {
        Mat4(
            [
                v.0[0],
                zero(),
                zero(),
                zero(),
                zero(),
                v.0[1],
                zero(),
                zero(),
                zero(),
                zero(),
                v.0[2],
                zero(),
                zero(),
                zero(),
                zero(),
                one(),
            ],
        )
    }

    /// The rotation about the first axis for an angle of the given cosine
    /// and sine: the identity with `cos` in slots 5 and 10, `-sin` in slot 6
    /// and `sin` in slot 9.
    pub open spec fn turn_x(cos: S, sin: S) -> Self {
        Mat4(
            [
                one(),
                zero(),
                zero(),
                zero(),
                zero(),
                cos,
                sin.negation(),
                zero(),
                zero(),
                sin,
                cos,
                zero(),
                zero(),
                zero(),
                zero(),
                one(),
            ],
        )
    }

    /// The rotation about the second axis: the identity with `cos` in slots
    /// 0 and 10, `-sin` in slot 2 and `sin` in slot 8.
    pub open spec fn turn_y(cos: S, sin: S) -> Self {
        Mat4(
            [
                cos,
                zero(),
                sin.negation(),
                zero(),
                zero(),
                one(),
                zero(),
                zero(),
                sin,
                zero(),
                cos,
                zero(),
                zero(),
                zero(),
                zero(),
                one(),
            ],
        )
    }

    /// The rotation about the third axis: the identity with `cos` in slots
    /// 0 and 5, `-sin` in slot 1 and `sin` in slot 4. A quarter turn, of
    /// cosine zero and sine one, takes the first axis to the opposite of the
    /// second.
    pub open spec fn turn_z(cos: S, sin: S) -> Self {
        Mat4(
            [
                cos,
                sin.negation(),
                zero(),
                zero(),
                sin,
                cos,
                zero(),
                zero(),
                zero(),
                zero(),
                one(),
                zero(),
                zero(),
                zero(),
                zero(),
                one(),
            ],
        )
    }

    /// The cosines and sines are what the scalar's `cos` and `sin` may
    /// return for the first three components of `angles`.
    pub open spec fn are_turns_of(angles: Vec4<S>, cx: S, sx: S, cy: S, sy: S, cz: S, sz: S) -> bool where
        S: Real,
     {
        &&& is_cos_of(angles.0[0], cx)
        &&& is_sin_of(angles.0[0], sx)
        &&& is_cos_of(angles.0[1], cy)
        &&& is_sin_of(angles.0[1], sy)
        &&& is_cos_of(angles.0[2], cz)
        &&& is_sin_of(angles.0[2], sz)
    }

    /// The three elementary rotations multiplied onto the identity, first
    /// about the first axis, then the second, then the third.
    pub open spec fn turns(cx: S, sx: S, cy: S, sy: S, cz: S, sz: S) -> Self {
        Self::unit().times(Self::turn_x(cx, sx)).times(Self::turn_y(cy, sy)).times(
            Self::turn_z(cz, sz),
        )
    }

    /// The matrix applied to a vector: component `i` is row `i` times `v`,
    /// the products of `entry(i, j)` and `v[j]` added up from `j` zero to
    /// three.
    pub open spec fn apply(self, v: Vec4<S>) -> Vec4<S> {
        Vec4([self.row(0).dot(v), self.row(1).dot(v), self.row(2).dot(v), self.row(3).dot(v)])
    }

    /// The first column divided by `k`.
    pub open spec fn first_column_over(self, k: S) -> Vec4<S> {
        self.column(0).over(k)
    }

    /// The matrix with `x` in slot `n` and every other slot unchanged.
    pub open spec fn with_slot(self, n: int, x: S) -> Self {
        Mat4(
            [
                if n == 0 {
                    x
                } else {
                    self.0[0]
                },
                if n == 1 {
                    x
                } else {
                    self.0[1]
                },
                if n == 2 {
                    x
                } else {
                    self.0[2]
                },
                if n == 3 {
                    x
                } else {
                    self.0[3]
                },
                if n == 4 {
                    x
                } else {
                    self.0[4]
                },
                if n == 5 {
                    x
                } else {
                    self.0[5]
                },
                if n == 6 {
                    x
                } else {
                    self.0[6]
                },
                if n == 7 {
                    x
                } else {
                    self.0[7]
                },
                if n == 8 {
                    x
                } else {
                    self.0[8]
                },
                if n == 9 {
                    x
                } else {
                    self.0[9]
                },
                if n == 10 {
                    x
                } else {
                    self.0[10]
                },
                if n == 11 {
                    x
                } else {
                    self.0[11]
                },
                if n == 12 {
                    x
                } else {
                    self.0[12]
                },
                if n == 13 {
                    x
                } else {
                    self.0[13]
                },
                if n == 14 {
                    x
                } else {
                    self.0[14]
                },
                if n == 15 {
                    x
                } else {
                    self.0[15]
                },
            ],
        )
    }

    /// `text` is the sixteen slots as they are shown, in their order and
    /// four to a line: each line is a column.
    pub open spec fn is_text_of(self, text: Seq<char>) -> bool where S: core::fmt::Display {
        exists|a: Seq<char>, b: Seq<char>, c: Seq<char>, d: Seq<char>|
            self.column(0).is_line_of(a) && self.column(1).is_line_of(b) && self.column(
                2,
            ).is_line_of(c) && self.column(3).is_line_of(d) && text == #[trigger] Self::lines(
                a,
                b,
                c,
                d,
            )
    }

    /// Four lines of text with a line break after each but the last.
    pub open spec fn lines(a: Seq<char>, b: Seq<char>, c: Seq<char>, d: Seq<char>) -> Seq<char> {
        a + seq!['\n'] + b + seq!['\n'] + c + seq!['\n'] + d
    }

    /// The all-zero matrix.
    pub fn new() -> (m: Self)
        ensures
            m == Self::zeros(),
    {
        let z = S::from_i32(0);
        let m = Mat4([z, z, z, z, z, z, z, z, z, z, z, z, z, z, z, z]);
        assert(m =~= Self::zeros());
        m
    }

    /// The identity matrix.
    pub fn identity() -> (m: Self)
        ensures
            m == Self::unit(),
    {
        let mut m = Mat4::new();
        let i = S::from_i32(1);
        m.0[0] = i;
        m.0[5] = i;
        m.0[10] = i;
        m.0[15] = i;
        assert(m =~= Self::unit());
        m
    }

    /// Translates, then rotates, then scales: each step multiplies its
    /// elementary matrix on from the right.
    pub fn transform(&self, translation: &Vec4<S>, rotation: &Vec4<S>, scale: &Vec4<S>) -> (m:
        Self) where S: Real
        ensures
            exists|cx: S, sx: S, cy: S, sy: S, cz: S, sz: S|
                Self::are_turns_of(*rotation, cx, sx, cy, sy, cz, sz) && m == self.times(
                    Self::translation(*translation),
                ).times(#[trigger] Self::turns(cx, sx, cy, sy, cz, sz)).times(
                    Self::scaling(*scale),
                ),
    {
        self.translate(translation).rotate(rotation).scale(scale)
    }

    /// The mirror image across the diagonal.
    pub fn transpose(&self) -> (m: Self)
        ensures
            m == self.transposed(),
    {
        let mut m = *self;
        m.0[4] = m.0[1];
        m.0[8] = m.0[2];
        m.0[12] = m.0[3];
        m.0[9] = m.0[6];
        m.0[13] = m.0[7];
        m.0[14] = m.0[11];
        m.0[1] = self.0[4];
        m.0[2] = self.0[8];
        m.0[3] = self.0[12];
        m.0[6] = self.0[9];
        m.0[7] = self.0[13];
        m.0[11] = self.0[14];
        assert(m =~= self.transposed());
        m
    }

    /// The elementary rotation about the first axis for an angle of the
    /// given cosine and sine.
    pub fn rotation_x(cos: S, sin: S) -> (m: Self)
        ensures
            m == Self::turn_x(cos, sin),
    {
        let mut m = Self::identity();
        m.0[5] = cos;
        m.0[6] = sin.neg();
        m.0[9] = sin;
        m.0[10] = cos;
        assert(m =~= Self::turn_x(cos, sin));
        m
    }

    /// The elementary rotation about the second axis for an angle of the
    /// given cosine and sine.
    pub fn rotation_y(cos: S, sin: S) -> (m: Self)
        ensures
            m == Self::turn_y(cos, sin),
    {
        let mut m = Self::identity();
        m.0[0] = cos;
        m.0[2] = sin.neg();
        m.0[8] = sin;
        m.0[10] = cos;
        assert(m =~= Self::turn_y(cos, sin));
        m
    }

    /// The elementary rotation about the third axis for an angle of the
    /// given cosine and sine.
    pub fn rotation_z(cos: S, sin: S) -> (m: Self)
        ensures
            m == Self::turn_z(cos, sin),
    {
        let mut m = Self::identity();
        m.0[0] = cos;
        m.0[1] = sin.neg();
        m.0[4] = sin;
        m.0[5] = cos;
        assert(m =~= Self::turn_z(cos, sin));
        m
    }

    /// The matrix times the rotation about the first axis by `angle`
    /// (radians), for a cosine and a sine as the scalar's `cos` and `sin`
    /// give them.
    pub fn rotate_x(&self, angle: S) -> (m: Self) where S: Real
        ensures
            exists|cos: S, sin: S|
                is_cos_of(angle, cos) && is_sin_of(angle, sin) && m == self.times(
                    #[trigger] Self::turn_x(cos, sin),
                ),
    {
        let turn = Self::rotation_x(angle.cos(), angle.sin());
        *self * turn
    }

    /// The matrix times the rotation about the second axis by `angle`
    /// (radians).
    pub fn rotate_y(&self, angle: S) -> (m: Self) where S: Real
        ensures
            exists|cos: S, sin: S|
                is_cos_of(angle, cos) && is_sin_of(angle, sin) && m == self.times(
                    #[trigger] Self::turn_y(cos, sin),
                ),
    {
        let turn = Self::rotation_y(angle.cos(), angle.sin());
        *self * turn
    }

    /// The matrix times the rotation about the third axis by `angle`
    /// (radians).
    pub fn rotate_z(&self, angle: S) -> (m: Self) where S: Real
        ensures
            exists|cos: S, sin: S|
                is_cos_of(angle, cos) && is_sin_of(angle, sin) && m == self.times(
                    #[trigger] Self::turn_z(cos, sin),
                ),
    {
        let turn = Self::rotation_z(angle.cos(), angle.sin());
        *self * turn
    }

    /// The matrix times the rotations by the first three components of `v`
    /// (radians), about the first, second and third axis in that order.
    pub fn rotate(&self, v: &Vec4<S>) -> (m: Self) where S: Real
        ensures
            exists|cx: S, sx: S, cy: S, sy: S, cz: S, sz: S|
                Self::are_turns_of(*v, cx, sx, cy, sy, cz, sz) && m == self.times(
                    #[trigger] Self::turns(cx, sx, cy, sy, cz, sz),
                ),
    {
        let a = v.0[0];
        let b = v.0[1];
        let c = v.0[2];
        let about_x = Self::identity().rotate_x(a);
        let about_xy = about_x.rotate_y(b);
        let about_xyz = about_xy.rotate_z(c);
        proof {
            let (cx, sx) = choose|cx: S, sx: S|
                is_cos_of(a, cx) && is_sin_of(a, sx) && about_x == Self::unit().times(
                    #[trigger] Self::turn_x(cx, sx),
                );
            let (cy, sy) = choose|cy: S, sy: S|
                is_cos_of(b, cy) && is_sin_of(b, sy) && about_xy == about_x.times(
                    #[trigger] Self::turn_y(cy, sy),
                );
            let (cz, sz) = choose|cz: S, sz: S|
                is_cos_of(c, cz) && is_sin_of(c, sz) && about_xyz == about_xy.times(
                    #[trigger] Self::turn_z(cz, sz),
                );
            assert(about_xyz == Self::turns(cx, sx, cy, sy, cz, sz));
            assert(Self::are_turns_of(*v, cx, sx, cy, sy, cz, sz));
        }
        *self * about_xyz
    }

    /// The matrix times the scaling by the first three components of `v`.
    pub fn scale(&self, v: &Vec4<S>) -> (m: Self)
        ensures
            m == self.times(Self::scaling(*v)),
    {
        let mut e = Self::identity();
        e.0[0] = v.0[0];
        e.0[5] = v.0[1];
        e.0[10] = v.0[2];
        assert(e =~= Self::scaling(*v));
        *self * e
    }

    /// The matrix times the translation by the first three components of `v`.
    pub fn translate(&self, v: &Vec4<S>) -> (m: Self)
        ensures
            m == self.times(Self::translation(*v)),
    {
        let mut e = Self::identity();
        e.0[12] = v.0[0];
        e.0[13] = v.0[1];
        e.0[14] = v.0[2];
        assert(e =~= Self::translation(*v));
        *self * e
    }

    /// The entry in row `i` and column `j`, which is in slot `i + 4 * j`.
    pub fn get(&self, i: usize, j: usize) -> (value: &S)
        requires
            i + 4 * j < 16,
        ensures
            *value == self.entry(i as int, j as int),
    {
        &self.0[i + j * 4]
    }

    /// The matrix with every slot multiplied by `k`.
    pub fn scalar(&self, k: S) -> (m: Self)
        ensures
            m == self.scaled(k),
    {
        let mut m = Mat4::new();
        for i in 0..16usize
            invariant
                forall|n: int| 0 <= n < i ==> m.0[n] == (#[trigger] self.0[n]).product(k),
        {
            m.0[i] = self.0[i].mul(k);
        }
        assert(m =~= self.scaled(k));
        m
    }

    /// The matrix applied to the vector `v`.
    pub fn mul(&self, v: &Vec4<S>) -> (w: Vec4<S>)
        ensures
            w == self.apply(*v),
    {
        let w = Vec4(
            [
                Vec4([self.0[0], self.0[4], self.0[8], self.0[12]]) * *v,
                Vec4([self.0[1], self.0[5], self.0[9], self.0[13]]) * *v,
                Vec4([self.0[2], self.0[6], self.0[10], self.0[14]]) * *v,
                Vec4([self.0[3], self.0[7], self.0[11], self.0[15]]) * *v,
            ],
        );
        assert(w =~= self.apply(*v));
        w
    }

    /// The first column of the matrix, its first four slots, divided by
    /// `k`, as a vector.
    pub fn div(&self, k: S) -> (w: Vec4<S>)
        ensures
            w == self.first_column_over(k),
    {
        Vec4([self.0[0], self.0[1], self.0[2], self.0[3]]).div(k)
    }

    /// The matrix as text: its slots in their order, four to a line in
    /// round brackets, so that each line is a column.
    pub fn to_string(&self) -> (text: String) where S: core::fmt::Display
        ensures
            self.is_text_of(text@),
    {
        let a = Vec4([self.0[0], self.0[1], self.0[2], self.0[3]]).line();
        let b = Vec4([self.0[4], self.0[5], self.0[6], self.0[7]]).line();
        let c = Vec4([self.0[8], self.0[9], self.0[10], self.0[11]]).line();
        let d = Vec4([self.0[12], self.0[13], self.0[14], self.0[15]]).line();
        let ghost first = a@;
        let mut text = a;
        text.append("\n");
        text.append(b.as_str());
        text.append("\n");
        text.append(c.as_str());
        text.append("\n");
        text.append(d.as_str());
        proof {
            reveal_strlit("\n");
            assert(self.column(0) =~= Vec4([self.0[0], self.0[1], self.0[2], self.0[3]]));
            assert(self.column(1) =~= Vec4([self.0[4], self.0[5], self.0[6], self.0[7]]));
            assert(self.column(2) =~= Vec4([self.0[8], self.0[9], self.0[10], self.0[11]]));
            assert(self.column(3) =~= Vec4([self.0[12], self.0[13], self.0[14], self.0[15]]));
            assert(text@ =~= Self::lines(first, b@, c@, d@));
        }
        text
    }

    /// The sixteen slots in order.
    pub fn data(&self) -> (slice: &[S])
        ensures
            slice@ == self.0@,
    {
        self.0.as_slice()
    }

    /// The scalar in slot `i`.
    pub fn index(&self, i: usize) -> (slot: &S)
        requires
            i < 16,
        ensures
            *slot == self.0[i as int],
    {
        &self.0[i]
    }

    /// The scalar in slot `i`, to be written to.
    pub fn index_mut(&mut self, i: usize) -> (slot: &mut S)
        requires
            i < 16,
        ensures
            *slot == old(self).0[i as int],
            final(self).0@ == old(self).0@.update(i as int, *final(slot)),
    {
        &mut self.0[i]
    }
}

impl<S: Scalar> AddSpecImpl for Mat4<S> {
    open spec fn obeys_add_spec() -> bool {
        true
    }

    open spec fn add_req(self, rhs: Mat4<S>) -> bool {
        true
    }

    open spec fn add_spec(self, rhs: Mat4<S>) -> Mat4<S> {
        self.plus(rhs)
    }
}

impl<S: Scalar> core::ops::Add for Mat4<S> {
    type Output = Mat4<S>;

    /// `a + b` adds slot by slot.
    fn add(self, rhs: Mat4<S>) -> (m: Mat4<S>)
        ensures
            m == self.plus(rhs),
    {
        let mut m = Mat4::new();
        for i in 0..16usize
            invariant
                forall|n: int| 0 <= n < i ==> m.0[n] == (#[trigger] self.0[n]).sum(rhs.0[n]),
        {
            m.0[i] = self.0[i].add(rhs.0[i]);
        }
        assert(m =~= self.plus(rhs));
        m
    }
}

impl<S: Scalar> SubSpecImpl for Mat4<S> {
    open spec fn obeys_sub_spec() -> bool {
        true
    }

    open spec fn sub_req(self, rhs: Mat4<S>) -> bool {
        true
    }

    open spec fn sub_spec(self, rhs: Mat4<S>) -> Mat4<S> {
        self.minus(rhs)
    }
}

impl<S: Scalar> core::ops::Sub for Mat4<S> {
    type Output = Mat4<S>;

    /// `a - b` subtracts slot by slot.
    fn sub(self, rhs: Mat4<S>) -> (m: Mat4<S>)
        ensures
            m == self.minus(rhs),
    {
        let mut m = Mat4::new();
        for i in 0..16usize
            invariant
                forall|n: int| 0 <= n < i ==> m.0[n] == (#[trigger] self.0[n]).difference(rhs.0[n]),
        {
            m.0[i] = self.0[i].sub(rhs.0[i]);
        }
        assert(m =~= self.minus(rhs));
        m
    }
}

impl<S: Scalar> MulSpecImpl for Mat4<S> {
    open spec fn obeys_mul_spec() -> bool {
        true
    }

    open spec fn mul_req(self, rhs: Mat4<S>) -> bool {
        true
    }

    open spec fn mul_spec(self, rhs: Mat4<S>) -> Mat4<S> {
        self.times(rhs)
    }
}

impl<S: Scalar> core::ops::Mul for Mat4<S> {
    type Output = Mat4<S>;

    /// `a * b` is the matrix product: entry `(i, j)` is row `i` of `a` times
    /// column `j` of `b`. The order matters.
    fn mul(self, rhs: Mat4<S>) -> (m: Mat4<S>)
        ensures
            m == self.times(rhs),
    {
        let mut m = Mat4::new();
        for j in 0..4usize
            invariant
                forall|n: int| 0 <= n < 4 * j ==> (#[trigger] m.0[n]) == self.cell(rhs, n % 4, n / 4),
        {
            for i in 0..4usize
                invariant
                    j < 4,
                    forall|n: int|
                        0 <= n < 4 * j + i ==> (#[trigger] m.0[n]) == self.cell(rhs, n % 4, n / 4),
            {
                let row = Vec4([self.0[i], self.0[4 + i], self.0[8 + i], self.0[12 + i]]);
                let column = Vec4(
                    [rhs.0[4 * j], rhs.0[4 * j + 1], rhs.0[4 * j + 2], rhs.0[4 * j + 3]],
                );
                m.0[i + 4 * j] = row * column;
            }
        }
        assert(m =~= self.times(rhs));
        m
    }
}

} // verus!
