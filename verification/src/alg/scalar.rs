use vstd::prelude::*;

verus! {

/// The arithmetic that vectors and matrices are built from.
///
/// Each operation is total and is a function of its operands alone: the
/// specification function next to it names the value it returns. Nothing
/// else is asked of an implementation. In particular no algebraic law is
/// assumed: an operation may round, saturate or wrap, and the contracts of
/// this crate spell out the order in which operations are applied. Laws that
/// need more (such as the neutral elements) state it as a hypothesis on the
/// values involved, see [`is_neutral_for`].
pub trait Scalar: Copy {
    /// The scalar that stands for the integer `n`.
    spec fn of_i32(n: i32) -> Self;

    /// What `add` returns.
    spec fn sum(self, rhs: Self) -> Self;

    /// What `sub` returns.
    spec fn difference(self, rhs: Self) -> Self;

    /// What `mul` returns.
    spec fn product(self, rhs: Self) -> Self;

    /// What `div` returns. Division is total: the scalar type decides what a
    /// zero divisor yields.
    spec fn quotient(self, rhs: Self) -> Self;

    /// What `neg` returns.
    spec fn negation(self) -> Self;

    /// What `abs` returns.
    spec fn magnitude(self) -> Self;

    /// What `sqrt` returns.
    spec fn root(self) -> Self;

    /// What `pi` returns.
    spec fn pi_value() -> Self;

    /// Whether the scalar compares equal to zero.
    spec fn vanishes(self) -> bool;

    /// Whether the scalar is strictly less than `rhs`.
    spec fn below(self, rhs: Self) -> bool;

    /// Whether the scalar is less than or equal to `rhs`.
    spec fn at_most(self, rhs: Self) -> bool;

    fn from_i32(n: i32) -> (value: Self)
        ensures
            value == Self::of_i32(n),
    ;

    fn add(self, rhs: Self) -> (value: Self)
        ensures
            value == self.sum(rhs),
    ;

    fn sub(self, rhs: Self) -> (value: Self)
        ensures
            value == self.difference(rhs),
    ;

    fn mul(self, rhs: Self) -> (value: Self)
        ensures
            value == self.product(rhs),
    ;

    fn div(self, rhs: Self) -> (value: Self)
        ensures
            value == self.quotient(rhs),
    ;

    fn neg(self) -> (value: Self)
        ensures
            value == self.negation(),
    ;

    fn abs(self) -> (value: Self)
        ensures
            value == self.magnitude(),
    ;

    fn sqrt(self) -> (value: Self)
        ensures
            value == self.root(),
    ;

    /// The scalar that stands for the ratio of a circle's circumference to
    /// its diameter.
    fn pi() -> (value: Self)
        ensures
            value == Self::pi_value(),
    ;

    fn is_zero(self) -> (answer: bool)
        ensures
            answer == self.vanishes(),
    ;

    fn lt(self, rhs: Self) -> (answer: bool)
        ensures
            answer == self.below(rhs),
    ;

    fn le(self, rhs: Self) -> (answer: bool)
        ensures
            answer == self.at_most(rhs),
    ;
}

/// Scalars that also offer the circular functions and powers.
///
/// What these return is left open: an implementation on machine numbers is
/// free in its precision, and may even answer the same question differently
/// from one call to the next. Functions of this crate that call them say
/// which call each value came from, and stand beside a function that takes
/// the value as an argument and is specified exactly.
pub trait Real: Scalar {
    fn sin(self) -> Self;

    fn cos(self) -> Self;

    fn tan(self) -> Self;

    /// The scalar raised to the integer power `n`.
    fn powi(self, n: i32) -> Self;

    /// The scalar raised to the power `exponent`.
    fn powf(self, exponent: Self) -> Self;
}

/// `value` is what a call of `sin` on `angle` may return.
pub open spec fn is_sin_of<S: Real>(angle: S, value: S) -> bool {
    call_ensures(S::sin, (angle,), value)
}

/// `value` is what a call of `cos` on `angle` may return.
pub open spec fn is_cos_of<S: Real>(angle: S, value: S) -> bool {
    call_ensures(S::cos, (angle,), value)
}

/// `value` is what a call of `tan` on `angle` may return.
pub open spec fn is_tan_of<S: Real>(angle: S, value: S) -> bool {
    call_ensures(S::tan, (angle,), value)
}

/// `value` is what a call of `powi` on `base` and `n` may return.
pub open spec fn is_powi_of<S: Real>(base: S, n: i32, value: S) -> bool {
    call_ensures(S::powi, (base, n), value)
}

/// `value` is what a call of `powf` on `base` and `exponent` may return.
pub open spec fn is_powf_of<S: Real>(base: S, exponent: S, value: S) -> bool {
    call_ensures(S::powf, (base, exponent), value)
}

/// The scalar that stands for 0.
pub open spec fn zero<S: Scalar>() -> S {
    S::of_i32(0)
}

/// The scalar that stands for 1.
pub open spec fn one<S: Scalar>() -> S {
    S::of_i32(1)
}

/// The scalar that stands for 2.
pub open spec fn two<S: Scalar>() -> S {
    S::of_i32(2)
}

/// The quotient of the scalars that stand for `n` and `d`.
pub open spec fn fraction<S: Scalar>(n: i32, d: i32) -> S {
    S::of_i32(n).quotient(S::of_i32(d))
}

/// The quotient of the scalars that stand for `n` and `d`: a constant such
/// as one tenth, written as `ratio(1, 10)`.
pub fn ratio<S: Scalar>(n: i32, d: i32) -> (value: S)
    ensures
        value == fraction::<S>(n, d),
{
    S::from_i32(n).div(S::from_i32(d))
}

/// `x` behaves towards zero and one as a number does: one is neutral for
/// multiplication, zero is neutral for addition and subtraction and absorbs
/// in multiplication.
pub open spec fn is_neutral_for<S: Scalar>(x: S) -> bool {
    &&& x.product(one()) == x
    &&& one::<S>().product(x) == x
    &&& x.product(zero()) == zero::<S>()
    &&& zero::<S>().product(x) == zero::<S>()
    &&& x.sum(zero()) == x
    &&& zero::<S>().sum(x) == x
    &&& x.difference(zero()) == x
}

/// Sums and products of `S` obey the laws of a ring as far as products of
/// matrices need them: addition is commutative and associative,
/// multiplication is associative and distributes over addition from both
/// sides.
#[verifier::opaque]
pub open spec fn obeys_ring_laws<S: Scalar>() -> bool {
    &&& forall|x: S, y: S| #[trigger] x.sum(y) == y.sum(x)
    &&& forall|x: S, y: S, z: S| #[trigger] x.sum(y).sum(z) == x.sum(y.sum(z))
    &&& forall|x: S, y: S, z: S| #[trigger] x.product(y).product(z) == x.product(y.product(z))
    &&& forall|x: S, y: S, z: S| #[trigger] x.product(y.sum(z)) == x.product(y).sum(x.product(z))
    &&& forall|x: S, y: S, z: S| #[trigger] x.sum(y).product(z) == x.product(z).sum(y.product(z))
}

} // verus!
