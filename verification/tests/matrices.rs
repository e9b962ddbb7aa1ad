use linalg4::alg::mat4::Mat4;
use linalg4::alg::scalar::{Real, Scalar};
use linalg4::alg::vec4::Vec4;

/// Single precision machine numbers as the scalar of the library. The first
/// half of the trait names what each operation returns: for machine numbers
/// that is the operation itself.
#[derive(Clone, Copy, Debug, PartialEq, PartialOrd)]
struct F(f32);

impl Scalar for F {
    fn of_i32(n: i32) -> F {
        F(n as f32)
    }
    fn sum(self, rhs: F) -> F {
        F(self.0 + rhs.0)
    }
    fn difference(self, rhs: F) -> F {
        F(self.0 - rhs.0)
    }
    fn product(self, rhs: F) -> F {
        F(self.0 * rhs.0)
    }
    fn quotient(self, rhs: F) -> F {
        F(self.0 / rhs.0)
    }
    fn negation(self) -> F {
        F(-self.0)
    }
    fn magnitude(self) -> F {
        F(self.0.abs())
    }
    fn root(self) -> F {
        F(self.0.sqrt())
    }
    fn pi_value() -> F {
        F(std::f64::consts::PI as f32)
    }
    fn vanishes(self) -> bool {
        self.0 == 0.0
    }
    fn below(self, rhs: F) -> bool {
        self.0 < rhs.0
    }
    fn at_most(self, rhs: F) -> bool {
        self.0 <= rhs.0
    }
    fn from_i32(n: i32) -> F {
        F(n as f32)
    }
    fn add(self, rhs: F) -> F {
        F(self.0 + rhs.0)
    }
    fn sub(self, rhs: F) -> F {
        F(self.0 - rhs.0)
    }
    fn mul(self, rhs: F) -> F {
        F(self.0 * rhs.0)
    }
    fn div(self, rhs: F) -> F {
        F(self.0 / rhs.0)
    }
    fn neg(self) -> F {
        F(-self.0)
    }
    fn abs(self) -> F {
        F(self.0.abs())
    }
    fn sqrt(self) -> F {
        F(self.0.sqrt())
    }
    fn pi() -> F {
        F(std::f64::consts::PI as f32)
    }
    fn is_zero(self) -> bool {
        self.0 == 0.0
    }
    fn lt(self, rhs: F) -> bool {
        self.0 < rhs.0
    }
    fn le(self, rhs: F) -> bool {
        self.0 <= rhs.0
    }
}

impl std::fmt::Display for F {
    fn fmt(&self, f: &mut std::fmt::Formatter<'_>) -> std::fmt::Result {
        std::fmt::Display::fmt(&self.0, f)
    }
}

impl Real for F {
    fn sin(self) -> F {
        F(self.0.sin())
    }
    fn cos(self) -> F {
        F(self.0.cos())
    }
    fn tan(self) -> F {
        F(self.0.tan())
    }
    fn powi(self, n: i32) -> F {
        F(self.0.powi(n))
    }
    fn powf(self, exponent: F) -> F {
        F(self.0.powf(exponent.0))
    }
}

fn v(x: f32, y: f32, z: f32, w: f32) -> Vec4<F> {
    Vec4([F(x), F(y), F(z), F(w)])
}

fn m(slots: [f32; 16]) -> Mat4<F> {
    let mut out = Mat4::<F>::new();
    for i in 0..16 {
        out.0[i] = F(slots[i]);
    }
    out
}

fn slots(m: Mat4<F>) -> [f32; 16] {
    let mut out = [0.0; 16];
    for i in 0..16 {
        out[i] = m.0[i].0;
    }
    out
}

fn floats(v: Vec4<F>) -> [f32; 4] {
    [v.0[0].0, v.0[1].0, v.0[2].0, v.0[3].0]
}

fn close(a: [f32; 16], b: [f32; 16], tolerance: f32) -> bool {
    (0..16).all(|i| (a[i] - b[i]).abs() <= tolerance)
}

const IDENTITY: [f32; 16] =
    [1.0, 0.0, 0.0, 0.0, 0.0, 1.0, 0.0, 0.0, 0.0, 0.0, 1.0, 0.0, 0.0, 0.0, 0.0, 1.0];

const A: [f32; 16] =
    [3.0, 1.0, 4.0, 1.0, 5.0, 9.0, 2.0, 6.0, 5.0, 3.0, 5.0, 8.0, 9.0, 7.0, 9.0, 3.0];

const B: [f32; 16] =
    [2.0, 7.0, 1.0, 8.0, 2.0, 8.0, 1.0, 8.0, 2.0, 8.0, 4.0, 5.0, 9.0, 0.0, 4.0, 5.0];

const C: [f32; 16] =
    [1.0, 2.0, 0.0, 1.0, 0.0, 1.0, 3.0, 0.0, 2.0, 0.0, 1.0, 1.0, 1.0, 1.0, 0.0, 2.0];

const COUNTING: [f32; 16] =
    [1.0, 2.0, 3.0, 4.0, 5.0, 6.0, 7.0, 8.0, 9.0, 10.0, 11.0, 12.0, 13.0, 14.0, 15.0, 16.0];

#[test]
fn mat4_test() {
    let (a, b, c) = Mat4::<F>::get_row_indexes_removing_row(0);
    println!("{} {} {}", a, b, c);
    assert_eq!((a, b, c), (1, 2, 3));

    let (a, b, c) = Mat4::<F>::get_row_indexes_removing_row(1);
    println!("{} {} {}", a, b, c);
    assert_eq!((a, b, c), (0, 2, 3));

    let (a, b, c) = Mat4::<F>::get_row_indexes_removing_row(2);
    println!("{} {} {}", a, b, c);
    assert_eq!((a, b, c), (0, 1, 3));

    let (a, b, c) = Mat4::<F>::get_row_indexes_removing_row(3);
    println!("{} {} {}", a, b, c);
    assert_eq!((a, b, c), (0, 1, 2));
}

#[test]
fn removing_a_row_that_is_not_there_keeps_the_first_three() {
    assert_eq!(Mat4::<F>::get_row_indexes_removing_row(4), (0, 1, 2));
    assert_eq!(Mat4::<F>::get_row_indexes_removing_row(usize::MAX), (0, 1, 2));
}

#[test]
fn new_is_zero_and_identity_has_ones_on_the_diagonal() {
    assert_eq!(slots(Mat4::<F>::new()), [0.0; 16]);
    assert_eq!(slots(Mat4::<F>::identity()), IDENTITY);
}

#[test]
fn data_exposes_the_slots_in_order() {
    let data: Vec<f32> = m(COUNTING).data().iter().map(|s| s.0).collect();
    assert_eq!(data, COUNTING.to_vec());
}

#[test]
fn get_reads_row_i_and_column_j_from_slot_i_plus_four_j() {
    let c = m(COUNTING);
    assert_eq!(c.get(0, 0).0, 1.0);
    assert_eq!(c.get(1, 0).0, 2.0);
    assert_eq!(c.get(0, 1).0, 5.0);
    assert_eq!(c.get(3, 2).0, 12.0);
    assert_eq!(c.get(3, 3).0, 16.0);
    assert_eq!(c.index(7).0, 8.0);
    for i in 0..4 {
        for j in 0..4 {
            assert_eq!(c.get(i, j).0, COUNTING[i + 4 * j]);
        }
    }
}

fn entry(slots: &[f32; 16], i: usize, j: usize) -> f32 {
    slots[i + 4 * j]
}

#[test]
fn slots_are_written_by_position() {
    let mut c = m(COUNTING);
    *c.index_mut(10) = F(-1.0);
    assert_eq!(c.index(10).0, -1.0);
    assert_eq!(c.index(9).0, 10.0);
    assert_eq!(c.index(11).0, 12.0);
}

#[test]
fn add_and_sub_work_slot_by_slot() {
    let sum = slots(m(A) + m(B));
    let difference = slots(m(A) - m(B));
    for i in 0..16 {
        assert_eq!(sum[i], A[i] + B[i]);
        assert_eq!(difference[i], A[i] - B[i]);
    }
}

#[test]
fn product_is_rows_times_columns() {
    let product = m(A) * m(B);
    assert_eq!(
        slots(product),
        [
            118.0, 124.0, 99.0, 76.0, 123.0, 133.0, 101.0, 82.0, 111.0, 121.0, 89.0, 97.0, 92.0,
            56.0, 101.0, 56.0
        ]
    );
    for i in 0..4 {
        for j in 0..4 {
            let by_entries: f32 = (0..4).map(|k| entry(&A, i, k) * entry(&B, k, j)).sum();
            assert_eq!(product.get(i, j).0, by_entries);
        }
    }
}

#[test]
fn product_is_not_commutative() {
    assert_eq!(
        slots(m(B) * m(A)),
        [
            25.0, 61.0, 24.0, 57.0, 86.0, 123.0, 46.0, 152.0, 98.0, 99.0, 60.0, 129.0, 77.0,
            191.0, 64.0, 188.0
        ]
    );
    let mut one_below = IDENTITY;
    one_below[1] = 1.0;
    let mut one_beside = IDENTITY;
    one_beside[4] = 1.0;
    assert_eq!((m(one_below) * m(one_beside)).get(0, 0).0, 1.0);
    assert_eq!((m(one_below) * m(one_beside)).get(1, 1).0, 2.0);
    assert_eq!((m(one_beside) * m(one_below)).get(0, 0).0, 2.0);
}

#[test]
fn identity_is_neutral_for_the_product() {
    for a in [A, B, C, COUNTING] {
        assert_eq!(slots(m(a) * Mat4::identity()), a);
        assert_eq!(slots(Mat4::identity() * m(a)), a);
    }
}

#[test]
fn product_is_associative_within_tolerance() {
    let left = (m(A) * m(B)) * m(C);
    let right = m(A) * (m(B) * m(C));
    assert!(close(slots(left), slots(right), 1e-3));
    let s = Mat4::<F>::identity().rotate_x(F(0.3)).scale(&v(1.5, 0.5, 2.0, 1.0));
    let t = Mat4::<F>::identity().translate(&v(0.1, -7.0, 3.0, 1.0)).rotate_z(F(1.1));
    let u = Mat4::<F>::identity().rotate_y(F(-2.0));
    assert!(close(slots((s * t) * u), slots(s * (t * u)), 1e-5));
}

#[test]
fn scalar_scales_every_slot() {
    let scaled = slots(m(A).scalar(F(0.5)));
    for i in 0..16 {
        assert_eq!(scaled[i], A[i] * 0.5);
    }
}

#[test]
fn transpose_mirrors_across_the_diagonal() {
    assert_eq!(
        slots(m(COUNTING).transpose()),
        [1.0, 5.0, 9.0, 13.0, 2.0, 6.0, 10.0, 14.0, 3.0, 7.0, 11.0, 15.0, 4.0, 8.0, 12.0, 16.0]
    );
}

#[test]
fn transpose_twice_is_the_matrix_itself() {
    for a in [A, B, C, COUNTING, IDENTITY] {
        assert_eq!(slots(m(a).transpose().transpose()), a);
    }
}

#[test]
fn determinant_of_identity_is_one() {
    assert_eq!(Mat4::<F>::identity().determinant().0, 1.0);
}

fn sign_of(permutation: &[usize; 4]) -> f32 {
    let mut sign = 1.0;
    for a in 0..4 {
        for b in a + 1..4 {
            if permutation[a] > permutation[b] {
                sign = -sign;
            }
        }
    }
    sign
}

fn sum_over_permutations(slots: &[f32; 16]) -> f32 {
    let mut total = 0.0;
    for a in 0..4 {
        for b in 0..4 {
            for c in 0..4 {
                for d in 0..4 {
                    let p = [a, b, c, d];
                    let mut seen = [false; 4];
                    for column in p {
                        seen[column] = true;
                    }
                    if seen == [true; 4] {
                        total += sign_of(&p)
                            * entry(slots, 0, a)
                            * entry(slots, 1, b)
                            * entry(slots, 2, c)
                            * entry(slots, 3, d);
                    }
                }
            }
        }
    }
    total
}

#[test]
fn determinant_is_the_sum_over_the_permutations() {
    assert_eq!(m(A).determinant().0, 98.0);
    assert_eq!(m(B).determinant().0, -189.0);
    assert_eq!(m(C).determinant().0, 16.0);
    assert_eq!(m(COUNTING).determinant().0, 0.0);
    assert_eq!(m([0.0; 16]).determinant().0, 0.0);
    for a in [A, B, C, COUNTING, IDENTITY] {
        assert_eq!(m(a).determinant().0, sum_over_permutations(&a));
        assert_eq!(m(a).transpose().determinant().0, m(a).determinant().0);
    }
}

#[test]
fn determinant_of_a_permutation_matrix_is_its_sign() {
    let mut odd = [0.0; 16];
    odd[1] = 1.0;
    odd[7] = 1.0;
    odd[8] = 1.0;
    odd[14] = 1.0;
    assert_eq!(m(odd).determinant().0, -1.0);
    let mut even = [0.0; 16];
    even[2] = 1.0;
    even[4] = 1.0;
    even[9] = 1.0;
    even[15] = 1.0;
    assert_eq!(m(even).determinant().0, 1.0);
    let inverse = m(even).inverse().unwrap();
    assert_eq!(slots(inverse), slots(m(even).transpose()));
    assert_eq!(slots(m(odd).inverse().unwrap()), slots(m(odd).transpose()));
}

#[test]
fn determinant_of_a_triangular_matrix_is_the_product_of_its_diagonal() {
    let upper = [2.0, 0.0, 0.0, 0.0, 7.0, 3.0, 0.0, 0.0, 1.0, 4.0, 5.0, 0.0, 9.0, 8.0, 6.0, 7.0];
    assert_eq!(m(upper).determinant().0, 2.0 * 3.0 * 5.0 * 7.0);
    assert_eq!(m(upper).transpose().determinant().0, 210.0);
}

#[test]
fn determinant_expands_along_a_column_by_cofactors() {
    for a in [A, B, C, COUNTING] {
        for j in 0..4 {
            let along: f32 =
                (0..4).map(|i| entry(&a, i, j) * m(a).complemento_algebrico(i, j).0).sum();
            assert_eq!(along, m(a).determinant().0);
        }
    }
}

#[test]
fn cofactor_of_identity_at_the_origin_is_one() {
    assert_eq!(Mat4::<F>::identity().complemento_algebrico(0, 0).0, 1.0);
}

#[test]
fn cofactor_outside_the_matrix_is_zero() {
    assert_eq!(m(A).complemento_algebrico(4, 0).0, 0.0);
    assert_eq!(m(A).complemento_algebrico(0, 4).0, 0.0);
    assert_eq!(m(A).complemento_algebrico(17, 99).0, 0.0);
}

#[test]
fn cofactors_carry_alternating_signs() {
    let a = m(A);
    assert_eq!(a.complemento_algebrico(0, 0).0, -467.0);
    assert_eq!(a.complemento_algebrico(1, 0).0, 171.0);
    assert_eq!(a.complemento_algebrico(0, 1).0, -123.0);
    assert_eq!(a.complemento_algebrico(3, 3).0, -18.0);
}

#[test]
fn aggiunta_is_the_transposed_matrix_of_cofactors() {
    assert_eq!(
        slots(m(A).aggiunta()),
        [
            -467.0, -123.0, 79.0, 191.0, 171.0, 57.0, -39.0, -67.0, 326.0, 76.0, -52.0, -122.0,
            24.0, 8.0, 10.0, -18.0
        ]
    );
    assert_eq!(slots(Mat4::<F>::identity().aggiunta()), IDENTITY);
    for a in [A, B, C, COUNTING] {
        let adjugate = m(a).aggiunta();
        for i in 0..4 {
            for j in 0..4 {
                assert_eq!(adjugate.get(i, j).0, m(a).complemento_algebrico(j, i).0);
            }
        }
    }
    let mut corner = IDENTITY;
    corner[3] = 1.0;
    assert_eq!(m(corner).aggiunta().get(3, 0).0, -1.0);
    assert_eq!(m(corner).aggiunta().get(0, 3).0, 0.0);
}

#[test]
fn matrix_times_adjugate_is_the_determinant_on_the_diagonal() {
    for a in [A, B, C, COUNTING] {
        let determinant = m(a).determinant().0;
        let mut expected = [0.0; 16];
        for n in [0, 5, 10, 15] {
            expected[n] = determinant;
        }
        assert_eq!(slots(m(a) * m(a).aggiunta()), expected);
        assert_eq!(slots(m(a).aggiunta() * m(a)), expected);
    }
}

#[test]
fn inverse_of_a_singular_matrix_is_none() {
    assert!(m([0.0; 16]).inverse().is_none());
    let mut rank_three = IDENTITY;
    rank_three[15] = 0.0;
    assert_eq!(m(rank_three).determinant().0, 0.0);
    assert!(m(rank_three).inverse().is_none());
}

#[test]
fn inverse_is_the_adjugate_over_the_determinant() {
    let inverse = m(C).inverse().unwrap();
    let expected = [
        5.0, -3.0, 9.0, -7.0, 9.0, 1.0, -3.0, -3.0, -3.0, 5.0, 1.0, 1.0, -7.0, 1.0, -3.0, 13.0,
    ];
    for i in 0..16 {
        assert_eq!(inverse.0[i].0, expected[i] * (1.0 / 16.0));
    }
}

#[test]
fn matrix_times_inverse_is_the_identity() {
    let b = m([2.0, 0.0, 0.0, 0.0, 0.0, 4.0, 0.0, 0.0, 0.0, 0.0, 8.0, 0.0, 3.0, 5.0, 7.0, 1.0]);
    let inverse = b.inverse().unwrap();
    assert_eq!(
        slots(inverse),
        [
            0.5, 0.0, 0.0, 0.0, 0.0, 0.25, 0.0, 0.0, 0.0, 0.0, 0.125, 0.0, -1.5, -1.25, -0.875,
            1.0
        ]
    );
    assert_eq!(slots(b * inverse), IDENTITY);
    assert_eq!(slots(inverse * b), IDENTITY);
    for a in [A, B, C] {
        assert!(close(slots(m(a) * m(a).inverse().unwrap()), IDENTITY, 1e-5));
        assert!(close(slots(m(a).inverse().unwrap() * m(a)), IDENTITY, 1e-5));
    }
    for seed in 1..40 {
        let a = uneven(seed);
        if m(a).determinant().0.abs() > 1.0 {
            assert!(close(slots(m(a) * m(a).inverse().unwrap()), IDENTITY, 1e-3));
        }
    }
    let t = Mat4::<F>::identity()
        .translate(&v(3.0, -4.0, 5.0, 1.0))
        .rotate_z(F(0.7))
        .scale(&v(2.0, 0.5, 4.0, 1.0));
    assert!(close(slots(t * t.inverse().unwrap()), IDENTITY, 1e-6));
}

#[test]
fn inverse_of_a_matrix_of_dependent_columns_is_none() {
    assert_eq!(m(COUNTING).determinant().0, 0.0);
    assert!(m(COUNTING).inverse().is_none());
}

#[test]
fn nearly_singular_matrix_is_still_inverted() {
    let mut tiny = IDENTITY;
    tiny[0] = 1e-30;
    let inverse = m(tiny).inverse().unwrap();
    assert_eq!(inverse.0[0].0, 1.0 * (1.0 / 1e-30));
}

#[test]
fn translate_moves_the_origin() {
    let t = Mat4::<F>::identity().translate(&v(3.0, 4.0, 5.0, 1.0));
    assert_eq!(floats(t.mul(&v(0.0, 0.0, 0.0, 1.0))), [3.0, 4.0, 5.0, 1.0]);
    assert_eq!(
        slots(t),
        [1.0, 0.0, 0.0, 0.0, 0.0, 1.0, 0.0, 0.0, 0.0, 0.0, 1.0, 0.0, 3.0, 4.0, 5.0, 1.0]
    );
    assert_eq!((t.get(0, 3).0, t.get(1, 3).0, t.get(2, 3).0), (3.0, 4.0, 5.0));
}

#[test]
fn translate_leaves_directions_alone() {
    let t = Mat4::<F>::identity().translate(&v(3.0, 4.0, 5.0, 1.0));
    assert_eq!(floats(t.mul(&v(1.0, 2.0, 3.0, 0.0))), [1.0, 2.0, 3.0, 0.0]);
}

#[test]
fn scale_stretches_each_axis() {
    let s = Mat4::<F>::identity().scale(&v(2.0, 3.0, 4.0, 9.0));
    assert_eq!(floats(s.mul(&v(1.0, 1.0, 1.0, 1.0))), [2.0, 3.0, 4.0, 1.0]);
}

#[test]
fn elementary_transforms_multiply_on_from_the_right() {
    let s = Mat4::<F>::identity().scale(&v(2.0, 2.0, 2.0, 1.0));
    let scale_then_translate = s.translate(&v(1.0, 0.0, 0.0, 1.0));
    assert_eq!(floats(scale_then_translate.mul(&v(0.0, 0.0, 0.0, 1.0))), [2.0, 0.0, 0.0, 1.0]);
    let t = Mat4::<F>::identity().translate(&v(1.0, 0.0, 0.0, 1.0));
    let translate_then_scale = t.scale(&v(2.0, 2.0, 2.0, 1.0));
    assert_eq!(floats(translate_then_scale.mul(&v(0.0, 0.0, 0.0, 1.0))), [1.0, 0.0, 0.0, 1.0]);
}

#[test]
fn rotate_z_by_a_quarter_turn() {
    let quarter = std::f32::consts::PI / 2.0;
    let r = Mat4::<F>::identity().rotate_z(F(quarter));
    let turned = floats(r.mul(&v(1.0, 0.0, 0.0, 1.0)));
    assert!(turned[0].abs() < 1e-6);
    assert!((turned[1] + 1.0).abs() < 1e-6);
    assert_eq!(turned[2], 0.0);
    assert_eq!(turned[3], 1.0);
    assert_eq!(r.0[1].0, -quarter.sin());
    assert_eq!(r.0[4].0, quarter.sin());
    let exact = Mat4::<F>::identity() * Mat4::rotation_z(F(0.0), F(1.0));
    assert_eq!(floats(exact.mul(&v(1.0, 0.0, 0.0, 1.0))), [0.0, -1.0, 0.0, 1.0]);
}

#[test]
fn rotations_place_cosine_and_sine() {
    let (c, s) = (F(0.6), F(0.8));
    assert_eq!(
        slots(Mat4::rotation_x(c, s)),
        [1.0, 0.0, 0.0, 0.0, 0.0, 0.6, -0.8, 0.0, 0.0, 0.8, 0.6, 0.0, 0.0, 0.0, 0.0, 1.0]
    );
    assert_eq!(
        slots(Mat4::rotation_y(c, s)),
        [0.6, 0.0, -0.8, 0.0, 0.0, 1.0, 0.0, 0.0, 0.8, 0.0, 0.6, 0.0, 0.0, 0.0, 0.0, 1.0]
    );
    assert_eq!(
        slots(Mat4::rotation_z(c, s)),
        [0.6, -0.8, 0.0, 0.0, 0.8, 0.6, 0.0, 0.0, 0.0, 0.0, 1.0, 0.0, 0.0, 0.0, 0.0, 1.0]
    );
}

#[test]
fn rotate_by_an_angle_uses_its_cosine_and_sine() {
    let angle = 0.7f32;
    let a = m(A);
    assert_eq!(slots(a.rotate_x(F(angle))), slots(a * Mat4::rotation_x(F(angle.cos()), F(angle.sin()))));
    assert_eq!(slots(a.rotate_y(F(angle))), slots(a * Mat4::rotation_y(F(angle.cos()), F(angle.sin()))));
    assert_eq!(slots(a.rotate_z(F(angle))), slots(a * Mat4::rotation_z(F(angle.cos()), F(angle.sin()))));
}

#[test]
fn rotate_turns_about_the_three_axes_in_order() {
    let angles = v(0.3, -1.2, 2.0, 1.0);
    let a = m(B);
    let in_order = Mat4::<F>::identity().rotate_x(F(0.3)).rotate_y(F(-1.2)).rotate_z(F(2.0));
    assert_eq!(slots(a.rotate(&angles)), slots(a * in_order));
}

#[test]
fn transform_translates_then_rotates_then_scales() {
    let t = v(1.0, 2.0, 3.0, 1.0);
    let r = v(0.1, 0.2, 0.3, 1.0);
    let s = v(2.0, 3.0, 4.0, 1.0);
    let a = m(C);
    assert_eq!(slots(a.transform(&t, &r, &s)), slots(a.translate(&t).rotate(&r).scale(&s)));
    let moved = Mat4::<F>::identity().transform(&t, &v(0.0, 0.0, 0.0, 1.0), &s);
    assert_eq!(floats(moved.mul(&v(1.0, 1.0, 1.0, 1.0))), [3.0, 5.0, 7.0, 1.0]);
}

#[test]
fn matrix_times_vector_dots_each_row() {
    let x = [1.0, 2.0, 3.0, 4.0];
    let applied = floats(m(A).mul(&v(1.0, 2.0, 3.0, 4.0)));
    assert_eq!(applied, [64.0, 56.0, 59.0, 49.0]);
    for i in 0..4 {
        let by_entries: f32 = (0..4).map(|j| entry(&A, i, j) * x[j]).sum();
        assert_eq!(applied[i], by_entries);
    }
    let mut shift = IDENTITY;
    shift[3] = 3.0;
    shift[7] = 4.0;
    shift[11] = 5.0;
    assert_eq!(floats(m(shift).mul(&v(0.0, 0.0, 0.0, 1.0))), [0.0, 0.0, 0.0, 1.0]);
}

#[test]
fn div_divides_the_first_four_slots() {
    assert_eq!(floats(m(A).div(F(2.0))), [1.5, 0.5, 2.0, 0.5]);
}

#[test]
fn matrix_as_text_has_four_slots_to_a_line() {
    assert_eq!(
        Mat4::<F>::identity().to_string(),
        "(1, 0, 0, 0)\n(0, 1, 0, 0)\n(0, 0, 1, 0)\n(0, 0, 0, 1)"
    );
    assert_eq!(
        m(COUNTING).scalar(F(0.5)).to_string(),
        "(0.5, 1, 1.5, 2)\n(2.5, 3, 3.5, 4)\n(4.5, 5, 5.5, 6)\n(6.5, 7, 7.5, 8)"
    );
    assert_eq!(
        Mat4([1i64, 2, 3, 4, 5, 6, 7, 8, 9, 10, 11, 12, 13, 14, 15, -16]).to_string(),
        "(1, 2, 3, 4)\n(5, 6, 7, 8)\n(9, 10, 11, 12)\n(13, 14, 15, -16)"
    );
}

// The expansions written out on machine numbers, operation by operation, to
// hold the library to the order in which it rounds.

fn written_out_determinant(s: [f32; 16]) -> f32 {
    s[0] * s[5] * s[10] * s[15] - s[0] * s[5] * s[11] * s[14] + s[0] * s[6] * s[11] * s[13]
        - s[0] * s[6] * s[9] * s[15]
        + s[0] * s[7] * s[9] * s[14]
        - s[0] * s[7] * s[10] * s[13]
        - s[1] * s[4] * s[10] * s[15]
        + s[1] * s[4] * s[11] * s[14]
        + s[1] * s[6] * s[8] * s[15]
        - s[1] * s[6] * s[12] * s[11]
        - s[1] * s[7] * s[8] * s[14]
        + s[1] * s[7] * s[10] * s[12]
        + s[2] * s[7] * s[8] * s[13]
        - s[2] * s[7] * s[9] * s[12]
        + s[2] * s[4] * s[9] * s[15]
        - s[2] * s[4] * s[11] * s[13]
        + s[2] * s[5] * s[11] * s[12]
        - s[2] * s[5] * s[8] * s[15]
        - s[3] * s[4] * s[9] * s[14]
        + s[3] * s[4] * s[10] * s[13]
        + s[3] * s[5] * s[8] * s[14]
        - s[3] * s[5] * s[10] * s[12]
        - s[3] * s[6] * s[8] * s[13]
        + s[3] * s[6] * s[9] * s[12]
}

fn written_out_product(a: [f32; 16], b: [f32; 16]) -> [f32; 16] {
    let mut out = [0.0; 16];
    for i in 0..4 {
        for j in 0..4 {
            out[i + 4 * j] = a[i] * b[4 * j]
                + a[4 + i] * b[4 * j + 1]
                + a[8 + i] * b[4 * j + 2]
                + a[12 + i] * b[4 * j + 3];
        }
    }
    out
}

fn written_out_cofactor(s: [f32; 16], i: usize, j: usize) -> f32 {
    let keep = |row: usize| -> [usize; 3] {
        let mut kept = [0; 3];
        for n in 0..3 {
            kept[n] = if n < row { n } else { n + 1 };
        }
        kept
    };
    let get = |i: usize, j: usize| s[i + j * 4];
    let [i0, i1, i2] = keep(i);
    let [j0, j1, j2] = keep(j);
    let sign = if (i + j) % 2 == 0 { 1.0 } else { -1.0 };
    let mut determinant = 0.0;
    determinant += get(i0, j0) * get(i1, j1) * get(i2, j2);
    determinant += get(i1, j0) * get(i2, j1) * get(i0, j2);
    determinant += get(i2, j0) * get(i0, j1) * get(i1, j2);
    determinant -= get(i2, j0) * get(i1, j1) * get(i0, j2);
    determinant -= get(i1, j0) * get(i0, j1) * get(i2, j2);
    determinant -= get(i0, j0) * get(i2, j1) * get(i1, j2);
    determinant * sign
}

fn uneven(seed: u32) -> [f32; 16] {
    let mut state = seed;
    let mut out = [0.0; 16];
    for slot in out.iter_mut() {
        state = state.wrapping_mul(1664525).wrapping_add(1013904223);
        *slot = ((state >> 8) as f32 / 16777216.0 - 0.5) * 7.3;
    }
    out
}

#[test]
fn determinant_rounds_as_its_expansion_does() {
    for seed in 1..40 {
        let a = uneven(seed);
        assert_eq!(m(a).determinant().0, written_out_determinant(a));
    }
}

#[test]
fn product_rounds_as_rows_times_columns_do() {
    for seed in 1..40 {
        let (a, b) = (uneven(seed), uneven(seed + 100));
        assert_eq!(slots(m(a) * m(b)), written_out_product(a, b));
        let v = [b[0], b[1], b[2], b[3]];
        let applied = floats(m(a).mul(&Vec4([F(v[0]), F(v[1]), F(v[2]), F(v[3])])));
        for i in 0..4 {
            assert_eq!(
                applied[i],
                a[i] * v[0] + a[4 + i] * v[1] + a[8 + i] * v[2] + a[12 + i] * v[3]
            );
        }
    }
}

#[test]
fn cofactors_and_inverse_round_as_their_expansions_do() {
    for seed in 1..40 {
        let a = uneven(seed);
        let adjugate = slots(m(a).aggiunta());
        for i in 0..4 {
            for j in 0..4 {
                assert_eq!(m(a).complemento_algebrico(i, j).0, written_out_cofactor(a, i, j));
                assert_eq!(adjugate[i + 4 * j], written_out_cofactor(a, j, i));
            }
        }
        let determinant = written_out_determinant(a);
        assert!(determinant != 0.0);
        let inverse = slots(m(a).inverse().unwrap());
        for n in 0..16 {
            assert_eq!(inverse[n], adjugate[n] * (1.0 / determinant));
        }
    }
}
