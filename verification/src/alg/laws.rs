use crate::alg::mat4::Mat4;
use crate::alg::scalar::{is_neutral_for, obeys_ring_laws, one, zero, Scalar};
use crate::alg::vec4::Vec4;
use vstd::prelude::*;

verus! {

/// The sum of four scalars, added up from the first to the last.
pub open spec fn sum4<S: Scalar>(a: S, b: S, c: S, d: S) -> S {
    a.sum(b).sum(c).sum(d)
}

/// Zero and one behave as neutral elements towards every slot of `a`.
pub open spec fn has_neutral_slots<S: Scalar>(a: Mat4<S>) -> bool {
    forall|n: int| 0 <= n < 16 ==> is_neutral_for(#[trigger] a.0[n])
}

/// The product goes by rows and columns: its entry `(i, j)` is the sum of
/// the products of `a.entry(i, k)` and `b.entry(k, j)`, for `k` from zero to
/// three.
pub proof fn lemma_product_goes_by_entries<S: Scalar>(a: Mat4<S>, b: Mat4<S>, i: int, j: int)
    requires
        0 <= i < 4,
        0 <= j < 4,
    ensures
        a.times(b).entry(i, j) == sum4(
            a.entry(i, 0).product(b.entry(0, j)),
            a.entry(i, 1).product(b.entry(1, j)),
            a.entry(i, 2).product(b.entry(2, j)),
            a.entry(i, 3).product(b.entry(3, j)),
        ),
{
    assert(a.times(b).entry(i, j) == a.cell(b, i, j));
}

/// A matrix applied to a vector goes by rows: component `i` is the sum of
/// the products of `a.entry(i, j)` and `v[j]`, for `j` from zero to three.
pub proof fn lemma_apply_goes_by_entries<S: Scalar>(a: Mat4<S>, v: Vec4<S>, i: int)
    requires
        0 <= i < 4,
    ensures
        a.apply(v).0[i] == sum4(
            a.entry(i, 0).product(v.0[0]),
            a.entry(i, 1).product(v.0[1]),
            a.entry(i, 2).product(v.0[2]),
            a.entry(i, 3).product(v.0[3]),
        ),
{
}

/// The adjugate is the transposed matrix of cofactors: its entry `(i, j)`
/// is the cofactor at `(j, i)`.
pub proof fn lemma_adjugate_goes_by_cofactors<S: Scalar>(a: Mat4<S>, i: int, j: int)
    requires
        0 <= i < 4,
        0 <= j < 4,
    ensures
        a.adjugate().entry(i, j) == a.cofactor(j, i),
{
}

/// The identity law: a matrix times the identity, and the identity times a
/// matrix, is the matrix itself, provided that zero and one are neutral
/// towards its slots and towards zero.
pub proof fn lemma_identity_is_neutral<S: Scalar>(a: Mat4<S>)
    requires
        has_neutral_slots(a),
        is_neutral_for(zero::<S>()),
    ensures
        a.times(Mat4::unit()) == a,
        Mat4::<S>::unit().times(a) == a,
{
    assert(is_neutral_for(a.0[0]) && is_neutral_for(a.0[1]) && is_neutral_for(a.0[2])
        && is_neutral_for(a.0[3]));
    assert(is_neutral_for(a.0[4]) && is_neutral_for(a.0[5]) && is_neutral_for(a.0[6])
        && is_neutral_for(a.0[7]));
    assert(is_neutral_for(a.0[8]) && is_neutral_for(a.0[9]) && is_neutral_for(a.0[10])
        && is_neutral_for(a.0[11]));
    assert(is_neutral_for(a.0[12]) && is_neutral_for(a.0[13]) && is_neutral_for(a.0[14])
        && is_neutral_for(a.0[15]));
    assert(a.times(Mat4::unit()) =~= a);
    assert(Mat4::<S>::unit().times(a) =~= a);
}

/// Transposing twice gives the matrix back, slot for slot.
pub proof fn lemma_transpose_is_an_involution<S: Scalar>(a: Mat4<S>)
    ensures
        a.transposed().transposed() == a,
{
    assert(a.transposed().transposed() =~= a);
}

/// The determinant of the identity is one, provided that zero and one are
/// neutral towards each other.
pub proof fn lemma_determinant_of_identity<S: Scalar>()
    requires
        is_neutral_for(zero::<S>()),
        is_neutral_for(one::<S>()),
    ensures
        Mat4::<S>::unit().det() == one::<S>(),
{
}

/// A matrix has no inverse exactly where its determinant compares equal to
/// zero.
pub proof fn lemma_inverse_exists_unless_singular<S: Scalar>(a: Mat4<S>)
    ensures
        a.inverted() is None <==> a.det().vanishes(),
{
}

/// In a ring `(a + b) + (c + d)` is `(a + c) + (b + d)`.
proof fn lemma_sums_interchange<S: Scalar>(a: S, b: S, c: S, d: S)
    requires
        obeys_ring_laws::<S>(),
    ensures
        a.sum(b).sum(c.sum(d)) == a.sum(c).sum(b.sum(d)),
{
    reveal(obeys_ring_laws);
    assert(a.sum(b).sum(c.sum(d)) == a.sum(b.sum(c.sum(d))));
    assert(b.sum(c.sum(d)) == b.sum(c).sum(d));
    assert(b.sum(c) == c.sum(b));
    assert(c.sum(b).sum(d) == c.sum(b.sum(d)));
    assert(a.sum(c.sum(b.sum(d))) == a.sum(c).sum(b.sum(d)));
}

/// In a ring the sum of four sums is the sum of the first summands plus the
/// sum of the second summands.
proof fn lemma_sum4_of_sums<S: Scalar>(a: Vec4<S>, b: Vec4<S>)
    requires
        obeys_ring_laws::<S>(),
    ensures
        sum4(a.0[0].sum(b.0[0]), a.0[1].sum(b.0[1]), a.0[2].sum(b.0[2]), a.0[3].sum(b.0[3]))
            == sum4(a.0[0], a.0[1], a.0[2], a.0[3]).sum(sum4(b.0[0], b.0[1], b.0[2], b.0[3])),
{
    lemma_sums_interchange(a.0[0], b.0[0], a.0[1], b.0[1]);
    lemma_sums_interchange(a.0[0].sum(a.0[1]), b.0[0].sum(b.0[1]), a.0[2], b.0[2]);
    lemma_sums_interchange(
        a.0[0].sum(a.0[1]).sum(a.0[2]),
        b.0[0].sum(b.0[1]).sum(b.0[2]),
        a.0[3],
        b.0[3],
    );
}

/// In a ring sixteen scalars add up to the same, four neighbours at a time
/// or every fourth at a time.
proof fn lemma_rows_and_columns_add_up_alike<S: Scalar>(m: Mat4<S>)
    requires
        obeys_ring_laws::<S>(),
    ensures
        sum4(
            sum4(m.0[0], m.0[1], m.0[2], m.0[3]),
            sum4(m.0[4], m.0[5], m.0[6], m.0[7]),
            sum4(m.0[8], m.0[9], m.0[10], m.0[11]),
            sum4(m.0[12], m.0[13], m.0[14], m.0[15]),
        ) == sum4(
            sum4(m.0[0], m.0[4], m.0[8], m.0[12]),
            sum4(m.0[1], m.0[5], m.0[9], m.0[13]),
            sum4(m.0[2], m.0[6], m.0[10], m.0[14]),
            sum4(m.0[3], m.0[7], m.0[11], m.0[15]),
        ),
{
    let c0 = Vec4([m.0[0], m.0[4], m.0[8], m.0[12]]);
    let c1 = Vec4([m.0[1], m.0[5], m.0[9], m.0[13]]);
    let c2 = Vec4([m.0[2], m.0[6], m.0[10], m.0[14]]);
    let c3 = Vec4([m.0[3], m.0[7], m.0[11], m.0[15]]);
    let c01 = c0.plus(c1);
    let c012 = c01.plus(c2);
    lemma_sum4_of_sums(c0, c1);
    lemma_sum4_of_sums(c01, c2);
    lemma_sum4_of_sums(c012, c3);
}

/// In a ring a sum of four times `z` is the sum of the four products.
proof fn lemma_sum4_times<S: Scalar>(x: Vec4<S>, z: S)
    requires
        obeys_ring_laws::<S>(),
    ensures
        sum4(x.0[0], x.0[1], x.0[2], x.0[3]).product(z) == sum4(
            x.0[0].product(z),
            x.0[1].product(z),
            x.0[2].product(z),
            x.0[3].product(z),
        ),
{
    reveal(obeys_ring_laws);
    assert(x.0[0].sum(x.0[1]).product(z) == x.0[0].product(z).sum(x.0[1].product(z)));
    assert(x.0[0].sum(x.0[1]).sum(x.0[2]).product(z) == x.0[0].sum(x.0[1]).product(z).sum(
        x.0[2].product(z),
    ));
    assert(x.0[0].sum(x.0[1]).sum(x.0[2]).sum(x.0[3]).product(z) == x.0[0].sum(x.0[1]).sum(
        x.0[2],
    ).product(z).sum(x.0[3].product(z)));
}

/// In a ring `z` times a sum of four is the sum of the four products.
proof fn lemma_times_sum4<S: Scalar>(z: S, x: Vec4<S>)
    requires
        obeys_ring_laws::<S>(),
    ensures
        z.product(sum4(x.0[0], x.0[1], x.0[2], x.0[3])) == sum4(
            z.product(x.0[0]),
            z.product(x.0[1]),
            z.product(x.0[2]),
            z.product(x.0[3]),
        ),
{
    reveal(obeys_ring_laws);
    assert(z.product(x.0[0].sum(x.0[1])) == z.product(x.0[0]).sum(z.product(x.0[1])));
    assert(z.product(x.0[0].sum(x.0[1]).sum(x.0[2])) == z.product(x.0[0].sum(x.0[1])).sum(
        z.product(x.0[2]),
    ));
    assert(z.product(x.0[0].sum(x.0[1]).sum(x.0[2]).sum(x.0[3])) == z.product(
        x.0[0].sum(x.0[1]).sum(x.0[2]),
    ).sum(z.product(x.0[3])));
}

/// In a ring `(x * y) * z` is `x * (y * z)`.
proof fn lemma_products_associate<S: Scalar>(x: S, y: S, z: S)
    requires
        obeys_ring_laws::<S>(),
    ensures
        x.product(y).product(z) == x.product(y.product(z)),
{
    reveal(obeys_ring_laws);
}

/// In a ring a row times a matrix, times a column, is the row times the
/// matrix applied to the column.
proof fn lemma_row_matrix_column<S: Scalar>(x: Vec4<S>, b: Mat4<S>, y: Vec4<S>)
    requires
        obeys_ring_laws::<S>(),
    ensures
        Vec4([x.dot(b.column(0)), x.dot(b.column(1)), x.dot(b.column(2)), x.dot(b.column(3))]).dot(
            y,
        ) == x.dot(b.apply(y)),
{
    // a table of the sixteen products x[j] * (b(j, k) * y[k]), four to each j
    let m = Mat4(
        [
            x.0[0].product(b.entry(0, 0).product(y.0[0])),
            x.0[0].product(b.entry(0, 1).product(y.0[1])),
            x.0[0].product(b.entry(0, 2).product(y.0[2])),
            x.0[0].product(b.entry(0, 3).product(y.0[3])),
            x.0[1].product(b.entry(1, 0).product(y.0[0])),
            x.0[1].product(b.entry(1, 1).product(y.0[1])),
            x.0[1].product(b.entry(1, 2).product(y.0[2])),
            x.0[1].product(b.entry(1, 3).product(y.0[3])),
            x.0[2].product(b.entry(2, 0).product(y.0[0])),
            x.0[2].product(b.entry(2, 1).product(y.0[1])),
            x.0[2].product(b.entry(2, 2).product(y.0[2])),
            x.0[2].product(b.entry(2, 3).product(y.0[3])),
            x.0[3].product(b.entry(3, 0).product(y.0[0])),
            x.0[3].product(b.entry(3, 1).product(y.0[1])),
            x.0[3].product(b.entry(3, 2).product(y.0[2])),
            x.0[3].product(b.entry(3, 3).product(y.0[3])),
        ],
    );
    // the left side adds the table up for each k first
    assert forall|k: int| 0 <= k < 4 implies x.dot(b.column(k)).product(y.0[k]) == sum4(
        m.0[k],
        m.0[4 + k],
        m.0[8 + k],
        m.0[12 + k],
    ) by {
        let products = Vec4(
            [
                x.0[0].product(b.entry(0, k)),
                x.0[1].product(b.entry(1, k)),
                x.0[2].product(b.entry(2, k)),
                x.0[3].product(b.entry(3, k)),
            ],
        );
        lemma_sum4_times(products, y.0[k]);
        lemma_products_associate(x.0[0], b.entry(0, k), y.0[k]);
        lemma_products_associate(x.0[1], b.entry(1, k), y.0[k]);
        lemma_products_associate(x.0[2], b.entry(2, k), y.0[k]);
        lemma_products_associate(x.0[3], b.entry(3, k), y.0[k]);
    }
    // the right side adds the table up for each j first
    assert forall|j: int| 0 <= j < 4 implies x.0[j].product(b.row(j).dot(y)) == sum4(
        m.0[4 * j],
        m.0[4 * j + 1],
        m.0[4 * j + 2],
        m.0[4 * j + 3],
    ) by {
        let products = Vec4(
            [
                b.entry(j, 0).product(y.0[0]),
                b.entry(j, 1).product(y.0[1]),
                b.entry(j, 2).product(y.0[2]),
                b.entry(j, 3).product(y.0[3]),
            ],
        );
        lemma_times_sum4(x.0[j], products);
    }
    lemma_rows_and_columns_add_up_alike(m);
    assert(x.dot(b.column(0)).product(y.0[0]) == sum4(m.0[0], m.0[4], m.0[8], m.0[12]));
    assert(x.dot(b.column(1)).product(y.0[1]) == sum4(m.0[1], m.0[5], m.0[9], m.0[13]));
    assert(x.dot(b.column(2)).product(y.0[2]) == sum4(m.0[2], m.0[6], m.0[10], m.0[14]));
    assert(x.dot(b.column(3)).product(y.0[3]) == sum4(m.0[3], m.0[7], m.0[11], m.0[15]));
    assert(x.0[0].product(b.row(0).dot(y)) == sum4(m.0[0], m.0[1], m.0[2], m.0[3]));
    assert(x.0[1].product(b.row(1).dot(y)) == sum4(m.0[4], m.0[5], m.0[6], m.0[7]));
    assert(x.0[2].product(b.row(2).dot(y)) == sum4(m.0[8], m.0[9], m.0[10], m.0[11]));
    assert(x.0[3].product(b.row(3).dot(y)) == sum4(m.0[12], m.0[13], m.0[14], m.0[15]));
}

/// One entry of the associative law.
proof fn lemma_slot_associates<S: Scalar>(a: Mat4<S>, b: Mat4<S>, c: Mat4<S>, r: int, k: int)
    requires
        obeys_ring_laws::<S>(),
        0 <= r < 4,
        0 <= k < 4,
    ensures
        a.times(b).cell(c, r, k) == a.cell(b.times(c), r, k),
{
    lemma_row_matrix_column(a.row(r), b, c.column(k));
}

/// The associative law: where the scalars obey the laws of a ring,
/// `(a * b) * c` is `a * (b * c)`, entry for entry.
pub proof fn lemma_product_is_associative<S: Scalar>(a: Mat4<S>, b: Mat4<S>, c: Mat4<S>)
    requires
        obeys_ring_laws::<S>(),
    ensures
        a.times(b).times(c) == a.times(b.times(c)),
{
    assert forall|r: int, k: int| 0 <= r < 4 && 0 <= k < 4 implies #[trigger] a.times(b).cell(
        c,
        r,
        k,
    ) == a.cell(b.times(c), r, k) by {
        lemma_slot_associates(a, b, c, r, k);
    }
    assert(a.times(b).times(c) =~= a.times(b.times(c)));
}

/// Over the integers the identity law holds of every matrix.
pub proof fn lemma_identity_is_neutral_for_integers(a: Mat4<i64>)
    ensures
        a.times(Mat4::unit()) == a,
        Mat4::<i64>::unit().times(a) == a,
{
    assert forall|n: int| 0 <= n < 16 implies is_neutral_for(#[trigger] a.0[n]) by {
        crate::alg::integer::lemma_integers_are_neutral(a.0[n]);
    }
    crate::alg::integer::lemma_integers_are_neutral(0);
    lemma_identity_is_neutral(a);
}

/// Over the integers the determinant of the identity is one.
pub proof fn lemma_determinant_of_identity_for_integers()
    ensures
        Mat4::<i64>::unit().det() == 1,
{
    crate::alg::integer::lemma_integers_are_neutral(0);
    crate::alg::integer::lemma_integers_are_neutral(1);
    lemma_determinant_of_identity::<i64>();
}

/// Over the integers the product of matrices is associative.
pub proof fn lemma_product_is_associative_for_integers(a: Mat4<i64>, b: Mat4<i64>, c: Mat4<i64>)
    ensures
        a.times(b).times(c) == a.times(b.times(c)),
{
    crate::alg::integer::lemma_integers_form_a_ring();
    lemma_product_is_associative(a, b, c);
}

} // verus!
