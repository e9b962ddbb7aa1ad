use crate::alg::scalar::{is_neutral_for, obeys_ring_laws, Scalar};
use vstd::arithmetic::div_mod::{lemma_add_mod_noop, lemma_mul_mod_noop_general};
use vstd::prelude::*;
use vstd::wrapping::i64_specs::signed_crop;

verus! {

/// `r` is the square root of `x` rounded down.
pub open spec fn is_floor_root(x: int, r: int) -> bool {
    0 <= r && r * r <= x < (r + 1) * (r + 1)
}

/// Squaring keeps the order of numbers that are not negative.
proof fn lemma_square_is_monotonic(a: int, b: int)
    requires
        0 <= a <= b,
    ensures
        a * a <= b * b,
{
    assert(a * a <= a * b) by (nonlinear_arith)
        requires
            0 <= a <= b,
    ;
    assert(a * b <= b * b) by (nonlinear_arith)
        requires
            0 <= a <= b,
    ;
}

/// A number has at most one rounded-down square root.
pub proof fn lemma_floor_root_is_unique(x: int, r: int, s: int)
    requires
        is_floor_root(x, r),
        is_floor_root(x, s),
    ensures
        r == s,
{
    if r < s {
        lemma_square_is_monotonic(r + 1, s);
    }
    if s < r {
        lemma_square_is_monotonic(s + 1, r);
    }
}

/// Every number that is not negative has a rounded-down square root, and it
/// is no greater than the number.
proof fn lemma_floor_root_exists(x: int) -> (r: int)
    requires
        0 <= x,
    ensures
        is_floor_root(x, r),
        r <= x,
    decreases x,
{
    if x == 0 {
        0
    } else {
        let below = lemma_floor_root_exists(x - 1);
        if x < (below + 1) * (below + 1) {
            assert(below <= x);
            below
        } else {
            assert((below + 2) * (below + 2) > (below + 1) * (below + 1)) by (nonlinear_arith)
                requires
                    0 <= below,
            ;
            assert(below + 1 <= (below + 1) * (below + 1)) by (nonlinear_arith)
                requires
                    0 <= below,
            ;
            below + 1
        }
    }
}

/// The root of an integer that is not negative is its square root rounded
/// down; the root of a negative integer is zero.
pub proof fn lemma_root_rounds_down(x: i64)
    ensures
        x >= 0 ==> is_floor_root(x as int, x.root() as int),
        x < 0 ==> x.root() == 0,
{
    if x >= 0 {
        let r = lemma_floor_root_exists(x as int);
        assert(is_floor_root(x as int, (r as i64) as int));
    }
}

/// The integers modulo two to the sixty-fourth power: sums, differences and
/// products wrap around, so the ring laws hold without exception. Division
/// truncates and yields zero where the machine has no quotient (a zero
/// divisor, or the least integer over minus one). The square root rounds
/// down, and is zero for a negative number. Pi rounds to three.
impl Scalar for i64 {
    open spec fn of_i32(n: i32) -> i64 {
        n as i64
    }

    open spec fn sum(self, rhs: i64) -> i64 {
        self.wrapping_add(rhs)
    }

    open spec fn difference(self, rhs: i64) -> i64 {
        self.wrapping_sub(rhs)
    }

    open spec fn product(self, rhs: i64) -> i64 {
        self.wrapping_mul(rhs)
    }

    open spec fn quotient(self, rhs: i64) -> i64 {
        match self.checked_div(rhs) {
            Some(q) => q,
            None => 0,
        }
    }

    open spec fn negation(self) -> i64 {
        0i64.wrapping_sub(self)
    }

    open spec fn magnitude(self) -> i64 {
        if self < 0 {
            0i64.wrapping_sub(self)
        } else {
            self
        }
    }

    open spec fn root(self) -> i64 {
        if self < 0 {
            0
        } else {
            choose|r: i64| is_floor_root(self as int, r as int)
        }
    }

    open spec fn pi_value() -> i64 {
        3
    }

    open spec fn vanishes(self) -> bool {
        self == 0
    }

    open spec fn below(self, rhs: i64) -> bool {
        self < rhs
    }

    open spec fn at_most(self, rhs: i64) -> bool {
        self <= rhs
    }

    fn from_i32(n: i32) -> (value: i64) {
        n as i64
    }

    fn add(self, rhs: i64) -> (value: i64) {
        self.wrapping_add(rhs)
    }

    fn sub(self, rhs: i64) -> (value: i64) {
        self.wrapping_sub(rhs)
    }

    fn mul(self, rhs: i64) -> (value: i64) {
        self.wrapping_mul(rhs)
    }

    fn div(self, rhs: i64) -> (value: i64) {
        match self.checked_div(rhs) {
            Some(q) => q,
            None => 0,
        }
    }

    fn neg(self) -> (value: i64) {
        0i64.wrapping_sub(self)
    }

    fn abs(self) -> (value: i64) {
        if self < 0 {
            0i64.wrapping_sub(self)
        } else {
            self
        }
    }

    fn sqrt(self) -> (value: i64) {
        if self < 0 {
            return 0;
        }
        let mut low: i64 = 0;
        let mut high: i64 = 3037000500;
        while high - low > 1
            invariant
                0 <= low < high <= 3037000500,
                low * low <= self < high * high,
            decreases high - low,
        {
            let middle: i64 = low + (high - low) / 2;
            proof {
                lemma_square_is_monotonic(middle as int, 3037000499);
            }
            if middle * middle <= self {
                low = middle;
            } else {
                high = middle;
            }
        }
        proof {
            assert(is_floor_root(self as int, low as int));
            let chosen = choose|r: i64| is_floor_root(self as int, r as int);
            lemma_floor_root_is_unique(self as int, low as int, chosen as int);
        }
        low
    }

    fn pi() -> (value: i64) {
        3
    }

    fn is_zero(self) -> (answer: bool) {
        self == 0
    }

    fn lt(self, rhs: i64) -> (answer: bool) {
        self < rhs
    }

    fn le(self, rhs: i64) -> (answer: bool) {
        self <= rhs
    }
}

/// Among the integers zero and one are neutral for every number.
pub proof fn lemma_integers_are_neutral(x: i64)
    ensures
        is_neutral_for(x),
{
}

/// The number of integers that an `i64` tells apart: two to the power of
/// sixty-four.
pub open spec fn modulus() -> int {
    0x1_0000_0000_0000_0000
}

/// The wrapped value of a number leaves the same remainder as the number.
proof fn lemma_crop_keeps_remainder(x: int)
    ensures
        signed_crop(x) as int % modulus() == x % modulus(),
{
}

/// Numbers with the same remainder wrap to the same value.
proof fn lemma_same_remainder_same_crop(x: int, y: int)
    requires
        x % modulus() == y % modulus(),
    ensures
        signed_crop(x) == signed_crop(y),
{
}

/// A wrapping sum is the wrapped value of the sum.
proof fn lemma_sum_is_cropped(x: i64, y: i64)
    ensures
        x.sum(y) == signed_crop(x + y),
{
}

/// Wrapping sums and products obey the laws of a ring.
pub proof fn lemma_integers_form_a_ring()
    ensures
        obeys_ring_laws::<i64>(),
{
    reveal(obeys_ring_laws);
    let m = modulus();
    assert forall|x: i64, y: i64, z: i64| #[trigger] x.sum(y).sum(z) == x.sum(y.sum(z)) by {
        lemma_sum_is_cropped(x, y);
        lemma_sum_is_cropped(y, z);
        lemma_sum_is_cropped(x.sum(y), z);
        lemma_sum_is_cropped(x, y.sum(z));
        lemma_crop_keeps_remainder(x + y);
        lemma_crop_keeps_remainder(y + z);
        lemma_add_mod_noop(x + y, z as int, m);
        lemma_add_mod_noop(signed_crop(x + y) as int, z as int, m);
        lemma_add_mod_noop(x as int, y + z, m);
        lemma_add_mod_noop(x as int, signed_crop(y + z) as int, m);
        lemma_same_remainder_same_crop(x.sum(y) + z, x + y.sum(z));
    }
    assert forall|x: i64, y: i64, z: i64| #[trigger]
        x.product(y).product(z) == x.product(y.product(z)) by {
        lemma_crop_keeps_remainder(x * y);
        lemma_crop_keeps_remainder(y * z);
        lemma_mul_mod_noop_general(x * y, z as int, m);
        lemma_mul_mod_noop_general(signed_crop(x * y) as int, z as int, m);
        lemma_mul_mod_noop_general(x as int, y * z, m);
        lemma_mul_mod_noop_general(x as int, signed_crop(y * z) as int, m);
        assert((x * y) * z == x * (y * z)) by (nonlinear_arith);
        lemma_same_remainder_same_crop(x.product(y) * z, x * y.product(z));
    }
    assert forall|x: i64, y: i64, z: i64| #[trigger]
        x.product(y.sum(z)) == x.product(y).sum(x.product(z)) by {
        lemma_sum_is_cropped(y, z);
        lemma_sum_is_cropped(x.product(y), x.product(z));
        lemma_crop_keeps_remainder(y + z);
        lemma_crop_keeps_remainder(x * y);
        lemma_crop_keeps_remainder(x * z);
        lemma_mul_mod_noop_general(x as int, y + z, m);
        lemma_mul_mod_noop_general(x as int, signed_crop(y + z) as int, m);
        lemma_add_mod_noop(x * y, x * z, m);
        lemma_add_mod_noop(signed_crop(x * y) as int, signed_crop(x * z) as int, m);
        assert(x * (y + z) == x * y + x * z) by (nonlinear_arith);
        lemma_same_remainder_same_crop(x * y.sum(z), x.product(y) + x.product(z));
    }
    assert forall|x: i64, y: i64, z: i64| #[trigger]
        x.sum(y).product(z) == x.product(z).sum(y.product(z)) by {
        lemma_sum_is_cropped(x, y);
        lemma_sum_is_cropped(x.product(z), y.product(z));
        lemma_crop_keeps_remainder(x + y);
        lemma_crop_keeps_remainder(x * z);
        lemma_crop_keeps_remainder(y * z);
        lemma_mul_mod_noop_general(x + y, z as int, m);
        lemma_mul_mod_noop_general(signed_crop(x + y) as int, z as int, m);
        lemma_add_mod_noop(x * z, y * z, m);
        lemma_add_mod_noop(signed_crop(x * z) as int, signed_crop(y * z) as int, m);
        assert((x + y) * z == x * z + y * z) by (nonlinear_arith);
        lemma_same_remainder_same_crop(x.sum(y) * z, x.product(z) + y.product(z));
    }
}

} // verus!
