use crate::alg::scalar::{zero, Scalar};
use vstd::prelude::*;
use vstd::std_specs::ops::{AddSpecImpl, MulSpecImpl, NegSpecImpl, SubSpecImpl};
use vstd::string::{to_string_from_display_ensures, StringExecFns};

verus! {

/// Four scalars `[x, y, z, w]`, used as a point (`w` one) or a direction
/// (`w` zero) in homogeneous coordinates. The type does not look at `w`.
#[derive(Debug)]
#[verifier::ext_equal]
pub struct Vec4<S>(pub [S; 4]);

impl<S: Copy> Copy for Vec4<S> {

}

impl<S: Copy> Clone for Vec4<S> {
    fn clone(&self) -> (copy: Self)
        ensures
            copy == *self,
    {
        *self
    }
}

/// `text` is what `value` is shown as.
pub open spec fn is_text_of<S: core::fmt::Display>(value: S, text: Seq<char>) -> bool {
    exists|shown: String| to_string_from_display_ensures::<S>(&value, shown) && shown@ == text
}

/// Four texts in round brackets, with a comma and a blank between them.
pub open spec fn bracketed(a: Seq<char>, b: Seq<char>, c: Seq<char>, d: Seq<char>) -> Seq<char> {
    seq!['('] + a + seq![',', ' '] + b + seq![',', ' '] + c + seq![',', ' '] + d + seq![')']
}

impl<S: Scalar> Vec4<S> {
    /// `text` is the four components as they are shown, in round brackets.
    pub open spec fn is_line_of(self, text: Seq<char>) -> bool where S: core::fmt::Display {
        exists|a: Seq<char>, b: Seq<char>, c: Seq<char>, d: Seq<char>|
            is_text_of(self.0[0], a) && is_text_of(self.0[1], b) && is_text_of(self.0[2], c)
                && is_text_of(self.0[3], d) && text == #[trigger] bracketed(a, b, c, d)
    }

    /// The vector of four zeros.
    pub open spec fn zeros() -> Self {
        Vec4([zero(), zero(), zero(), zero()])
    }

    /// Component by component sum.
    pub open spec fn plus(self, rhs: Self) -> Self {
        Vec4(
            [
                self.0[0].sum(rhs.0[0]),
                self.0[1].sum(rhs.0[1]),
                self.0[2].sum(rhs.0[2]),
                self.0[3].sum(rhs.0[3]),
            ],
        )
    }

    /// Component by component difference.
    pub open spec fn minus(self, rhs: Self) -> Self {
        Vec4(
            [
                self.0[0].difference(rhs.0[0]),
                self.0[1].difference(rhs.0[1]),
                self.0[2].difference(rhs.0[2]),
                self.0[3].difference(rhs.0[3]),
            ],
        )
    }

    /// Every component with its sign flipped.
    pub open spec fn negated(self) -> Self {
        Vec4(
            [
                self.0[0].negation(),
                self.0[1].negation(),
                self.0[2].negation(),
                self.0[3].negation(),
            ],
        )
    }

    /// Every component multiplied by `k`.
    pub open spec fn scaled(self, k: S) -> Self {
        Vec4(
            [
                self.0[0].product(k),
                self.0[1].product(k),
                self.0[2].product(k),
                self.0[3].product(k),
            ],
        )
    }

    /// Every component divided by `k`.
    pub open spec fn over(self, k: S) -> Self {
        Vec4(
            [
                self.0[0].quotient(k),
                self.0[1].quotient(k),
                self.0[2].quotient(k),
                self.0[3].quotient(k),
            ],
        )
    }

    /// The sum of the products of matching components, added up from the
    /// first to the last.
    pub open spec fn dot(self, rhs: Self) -> S {
        self.0[0].product(rhs.0[0]).sum(self.0[1].product(rhs.0[1])).sum(
            self.0[2].product(rhs.0[2]),
        ).sum(self.0[3].product(rhs.0[3]))
    }

    /// The Euclidean length over all four components.
    pub open spec fn length(self) -> S {
        self.dot(self).root()
    }

    /// The vector divided by its own length.
    pub open spec fn unit(self) -> Self {
        self.over(self.length())
    }

    /// The zero vector.
    pub fn new() -> (v: Self)
        ensures
            v == Self::zeros(),
    {
        let z = S::from_i32(0);
        let v = Vec4([z, z, z, z]);
        assert(v =~= Self::zeros());
        v
    }

    /// The vector of the first four values of `data`.
    pub fn from_data(data: &[S]) -> (v: Self)
        requires
            data@.len() >= 4,
        ensures
            v.0@ == data@.subrange(0, 4),
    {
        let v = Vec4([data[0], data[1], data[2], data[3]]);
        assert(v.0@ =~= data@.subrange(0, 4));
        v
    }

    /// The four components in order.
    pub fn data(&self) -> (slice: &[S])
        ensures
            slice@ == self.0@,
    {
        self.0.as_slice()
    }

    /// The vector scaled by `k`.
    pub fn mul(&self, k: S) -> (v: Self)
        ensures
            v == self.scaled(k),
    {
        let v = Vec4([self.0[0].mul(k), self.0[1].mul(k), self.0[2].mul(k), self.0[3].mul(k)]);
        assert(v =~= self.scaled(k));
        v
    }

    /// The vector divided by `k`. Nothing guards against a zero `k`: the
    /// scalar's own division decides what comes out.
    pub fn div(&self, k: S) -> (v: Self)
        ensures
            v == self.over(k),
    {
        let v = Vec4([self.0[0].div(k), self.0[1].div(k), self.0[2].div(k), self.0[3].div(k)]);
        assert(v =~= self.over(k));
        v
    }

    /// The length of the vector: the square root of its dot product with
    /// itself.
    pub fn modulo(&self) -> (len: S)
        ensures
            len == self.length(),
    {
        let v = *self;
        let squared = v * v;
        squared.sqrt()
    }

    /// The vector divided by its length. For a vector of length zero this is
    /// whatever the scalar's division by zero yields.
    pub fn normalized(&self) -> (v: Self)
        ensures
            v == self.unit(),
    {
        self.div(self.modulo())
    }

    /// Replaces the vector by itself divided by its length.
    pub fn normalize(&mut self)
        ensures
            *final(self) == old(self).unit(),
    {
        *self = self.normalized();
    }

    /// The four components as they are shown, in round brackets.
    pub fn line(&self) -> (text: String) where S: core::fmt::Display
        ensures
            self.is_line_of(text@),
    {
        let a = self.0[0].to_string();
        let b = self.0[1].to_string();
        let c = self.0[2].to_string();
        let d = self.0[3].to_string();
        let mut text = String::from_str("(");
        text.append(a.as_str());
        text.append(", ");
        text.append(b.as_str());
        text.append(", ");
        text.append(c.as_str());
        text.append(", ");
        text.append(d.as_str());
        text.append(")");
        proof {
            reveal_strlit("(");
            reveal_strlit(", ");
            reveal_strlit(")");
            assert(is_text_of(self.0[0], a@));
            assert(is_text_of(self.0[1], b@));
            assert(is_text_of(self.0[2], c@));
            assert(is_text_of(self.0[3], d@));
            assert(text@ =~= bracketed(a@, b@, c@, d@));
        }
        text
    }

    /// The vector as text: its four components in round brackets, and a
    /// line break.
    pub fn to_string(&self) -> (text: String) where S: core::fmt::Display
        ensures
            exists|line: Seq<char>| self.is_line_of(line) && text@ == #[trigger] (line + seq!['\n']),
    {
        let mut text = self.line();
        let ghost line = text@;
        text.append("\n");
        proof {
            reveal_strlit("\n");
            assert(text@ =~= line + seq!['\n']);
        }
        text
    }

    /// The component at position `i`.
    pub fn index(&self, i: usize) -> (component: &S)
        requires
            i < 4,
        ensures
            *component == self.0[i as int],
    {
        &self.0[i]
    }

    /// The component at position `i`, to be written to.
    pub fn index_mut(&mut self, i: usize) -> (component: &mut S)
        requires
            i < 4,
        ensures
            *component == old(self).0[i as int],
            final(self).0@ == old(self).0@.update(i as int, *final(component)),
    {
        &mut self.0[i]
    }
}

impl<S: Scalar> AddSpecImpl for Vec4<S> {
    open spec fn obeys_add_spec() -> bool {
        true
    }

    open spec fn add_req(self, rhs: Vec4<S>) -> bool {
        true
    }

    open spec fn add_spec(self, rhs: Vec4<S>) -> Vec4<S> {
        self.plus(rhs)
    }
}

impl<S: Scalar> core::ops::Add for Vec4<S> {
    type Output = Vec4<S>;

    /// `a + b` adds component by component.
    fn add(self, rhs: Vec4<S>) -> (v: Vec4<S>)
        ensures
            v == self.plus(rhs),
    {
        let v = Vec4(
            [
                self.0[0].add(rhs.0[0]),
                self.0[1].add(rhs.0[1]),
                self.0[2].add(rhs.0[2]),
                self.0[3].add(rhs.0[3]),
            ],
        );
        assert(v =~= self.plus(rhs));
        v
    }
}

impl<S: Scalar> SubSpecImpl for Vec4<S> {
    open spec fn obeys_sub_spec() -> bool {
        true
    }

    open spec fn sub_req(self, rhs: Vec4<S>) -> bool {
        true
    }

    open spec fn sub_spec(self, rhs: Vec4<S>) -> Vec4<S> {
        self.minus(rhs)
    }
}

impl<S: Scalar> core::ops::Sub for Vec4<S> {
    type Output = Vec4<S>;

    /// `a - b` subtracts component by component.
    fn sub(self, rhs: Vec4<S>) -> (v: Vec4<S>)
        ensures
            v == self.minus(rhs),
    {
        let v = Vec4(
            [
                self.0[0].sub(rhs.0[0]),
                self.0[1].sub(rhs.0[1]),
                self.0[2].sub(rhs.0[2]),
                self.0[3].sub(rhs.0[3]),
            ],
        );
        assert(v =~= self.minus(rhs));
        v
    }
}

impl<S: Scalar> NegSpecImpl for Vec4<S> {
    open spec fn obeys_neg_spec() -> bool {
        true
    }

    open spec fn neg_req(self) -> bool {
        true
    }

    open spec fn neg_spec(self) -> Vec4<S> {
        self.negated()
    }
}

impl<S: Scalar> core::ops::Neg for Vec4<S> {
    type Output = Vec4<S>;

    /// `-a` flips the sign of every component.
    fn neg(self) -> (v: Vec4<S>)
        ensures
            v == self.negated(),
    {
        let v = Vec4([self.0[0].neg(), self.0[1].neg(), self.0[2].neg(), self.0[3].neg()]);
        assert(v =~= self.negated());
        v
    }
}

impl<S: Scalar> MulSpecImpl for Vec4<S> {
    open spec fn obeys_mul_spec() -> bool {
        true
    }

    open spec fn mul_req(self, rhs: Vec4<S>) -> bool {
        true
    }

    open spec fn mul_spec(self, rhs: Vec4<S>) -> S {
        self.dot(rhs)
    }
}

impl<S: Scalar> core::ops::Mul for Vec4<S> {
    type Output = S;

    /// `a * b` is the dot product, a scalar.
    fn mul(self, rhs: Vec4<S>) -> (d: S)
        ensures
            d == self.dot(rhs),
    {
        self.0[0].mul(rhs.0[0]).add(self.0[1].mul(rhs.0[1])).add(self.0[2].mul(rhs.0[2])).add(
            self.0[3].mul(rhs.0[3]),
        )
    }
}

} // verus!
