use crate::alg::mat4::Mat4;
use crate::alg::scalar::{
    fraction, is_cos_of, is_powi_of, is_sin_of, is_tan_of, one, two, zero, Real, Scalar,
};
use crate::alg::vec4::Vec4;
use vstd::prelude::*;

verus! {

/// An angle of `degree` degrees in radians: `degree * pi / 180`.
pub open spec fn radians<S: Scalar>(degree: S) -> S {
    degree.product(S::pi_value()).quotient(S::of_i32(180))
}

/// Whether `a` and `b` are less than `bound` apart.
pub open spec fn apart_by_less<S: Scalar>(a: S, b: S, bound: S) -> bool {
    a.difference(b).magnitude().below(bound)
}

/// The orthographic projection for a view volume `width` wide, `width`
/// over `aspect_ratio` high, and reaching from `near` to `far`.
///
/// It is the scaling by `(1 / width, 1 / height, 2 / (far - near))` times a
/// matrix that shifts depth by `-(far + near) / 2` and has minus one as its
/// depth scale in slot 10.
pub open spec fn orthographic<S: Scalar>(aspect_ratio: S, width: S, near: S, far: S) -> Mat4<S> {
    let height = width.quotient(aspect_ratio);
    let shift = Mat4::unit().times(
        Mat4::translation(
            Vec4([zero(), zero(), far.sum(near).negation().quotient(two()), one()]),
        ),
    ).with_slot(10, S::of_i32(-1i32));
    let shrink = Mat4::unit().times(
        Mat4::scaling(
            Vec4(
                [
                    one::<S>().quotient(width),
                    one::<S>().quotient(height),
                    two::<S>().quotient(far.difference(near)),
                    one(),
                ],
            ),
        ),
    );
    shrink.times(shift)
}

/// The symmetric perspective projection for a field of view whose half
/// angle has the tangent `tangent`.
///
/// With `f = 1 / tangent` and `range = 1 / (near - far)`, its diagonal is
/// `f / aspect_ratio`, `f`, `(far + near) * range` and zero, its entry in
/// row 2 and column 3 (slot 14) is `2 * near * far * range`, and its bottom
/// row is `(0, 0, -1, 0)`: minus one is in slot 11. All else is zero.
pub open spec fn perspective<S: Scalar>(aspect_ratio: S, tangent: S, near: S, far: S) -> Mat4<S> {
    let f = one::<S>().quotient(tangent);
    let range = one::<S>().quotient(near.difference(far));
    Mat4(
        [
            f.quotient(aspect_ratio),
            zero(),
            zero(),
            zero(),
            zero(),
            f,
            zero(),
            zero(),
            zero(),
            zero(),
            far.sum(near).product(range),
            S::of_i32(-1i32),
            zero(),
            zero(),
            two::<S>().product(near).product(far).product(range),
            zero(),
        ],
    )
}

/// The view of a camera at `position` whose pitch and yaw have the given
/// cosines and sines: the identity times the rotation about the first axis,
/// times the rotation about the second axis, times the translation by
/// `-position`.
pub open spec fn view<S: Scalar>(
    position: Vec4<S>,
    pitch_cos: S,
    pitch_sin: S,
    yaw_cos: S,
    yaw_sin: S,
) -> Mat4<S> {
    Mat4::unit().times(Mat4::turn_x(pitch_cos, pitch_sin)).times(
        Mat4::turn_y(yaw_cos, yaw_sin),
    ).times(Mat4::translation(position.negated()))
}

/// The cosines and sines are what the scalar's `cos` and `sin` may return
/// for a pitch of `pitch` degrees and a yaw of `yaw` degrees.
pub open spec fn are_turns_of<S: Real>(
    pitch: S,
    yaw: S,
    pitch_cos: S,
    pitch_sin: S,
    yaw_cos: S,
    yaw_sin: S,
) -> bool {
    &&& is_cos_of(radians(pitch), pitch_cos)
    &&& is_sin_of(radians(pitch), pitch_sin)
    &&& is_cos_of(radians(yaw), yaw_cos)
    &&& is_sin_of(radians(yaw), yaw_sin)
}

/// Degrees to radians: `degree * pi / 180`.
pub fn to_radians<S: Scalar>(degree: S) -> (angle: S)
    ensures
        angle == radians(degree),
{
    degree.mul(S::pi()).div(S::from_i32(180))
}

/// Whether `a` and `b` are less than `bound` apart.
pub fn closer_than<S: Scalar>(a: S, b: S, bound: S) -> (answer: bool)
    ensures
        answer == apart_by_less(a, b, bound),
{
    a.sub(b).abs().lt(bound)
}

/// Whether `a` and `b` agree to `dp` decimal places: whether they are less
/// apart than ten to the power of `-dp`, as the scalar's `powi` gives it.
pub fn approx_equal<S: Real>(a: S, b: S, dp: u8) -> (answer: bool)
    ensures
        exists|bound: S|
            is_powi_of(S::of_i32(10), (0 - dp) as i32, bound) && answer == #[trigger] apart_by_less(
                a,
                b,
                bound,
            ),
{
    let p = S::from_i32(10).powi(-(dp as i32));
    closer_than(a, b, p)
}

/// The orthographic projection for a view volume `width` wide, `width`
/// over `aspect_ratio` high, and reaching from `near` to `far`. Nothing is
/// checked: a zero `aspect_ratio` or `width`, or `far` equal to `near`, gives
/// what the scalar's division by zero gives.
pub fn orthographic_matrix<S: Scalar>(aspect_ratio: S, width: S, near: S, far: S) -> (m: Mat4<S>)
    ensures
        m == orthographic(aspect_ratio, width, near, far),
{
    let zero = S::from_i32(0);
    let one = S::from_i32(1);
    let two = S::from_i32(2);
    let height = width.div(aspect_ratio);
    let mut translation = Mat4::identity().translate(
        &Vec4([zero, zero, far.add(near).neg().div(two), one]),
    );
    translation.0[10] = S::from_i32(-1);
    let scale = Mat4::identity().scale(
        &Vec4([one.div(width), one.div(height), two.div(far.sub(near)), one]),
    );
    assert(translation =~= Mat4::unit().times(
        Mat4::translation(
            Vec4([zero, zero, far.sum(near).negation().quotient(two), one]),
        ),
    ).with_slot(10, S::of_i32(-1i32)));
    scale * translation
}

/// The perspective projection for a field of view whose half angle has the
/// tangent `tangent`.
pub fn perspective_from_tangent<S: Scalar>(aspect_ratio: S, tangent: S, near: S, far: S) -> (m:
    Mat4<S>)
    ensures
        m == perspective(aspect_ratio, tangent, near, far),
{
    let f = S::from_i32(1).div(tangent);
    let range_inv = S::from_i32(1).div(near.sub(far));
    let mut m = Mat4::identity();
    m.0[0] = f.div(aspect_ratio);
    m.0[5] = f;
    m.0[10] = far.add(near).mul(range_inv);
    m.0[14] = S::from_i32(2).mul(near).mul(far).mul(range_inv);
    m.0[11] = S::from_i32(-1);
    m.0[15] = S::from_i32(0);
    assert(m =~= perspective(aspect_ratio, tangent, near, far));
    m
}

/// The perspective projection for a field of view of `fov` degrees: the
/// one for the tangent of half of `fov`, as the scalar's `tan` gives it.
pub fn perspective_matrix<S: Real>(aspect_ratio: S, fov: S, near: S, far: S) -> (m: Mat4<S>)
    ensures
        exists|tangent: S|
            is_tan_of(radians(fov.product(fraction(1, 2))), tangent) && m == #[trigger] perspective(
                aspect_ratio,
                tangent,
                near,
                far,
            ),
{
    let half = S::from_i32(1).div(S::from_i32(2));
    let tangent = to_radians(fov.mul(half)).tan();
    perspective_from_tangent(aspect_ratio, tangent, near, far)
}

/// The view of a camera at `position` that is pitched by `pitch` degrees
/// and turned by `yaw` degrees. The roll is taken and not applied.
pub fn view_matrix<S: Real>(position: &Vec4<S>, pitch: S, yaw: S, _roll: S) -> (m: Mat4<S>)
    ensures
        exists|pitch_cos: S, pitch_sin: S, yaw_cos: S, yaw_sin: S|
            are_turns_of(pitch, yaw, pitch_cos, pitch_sin, yaw_cos, yaw_sin) && m == #[trigger] view(
                *position,
                pitch_cos,
                pitch_sin,
                yaw_cos,
                yaw_sin,
            ),
{
    let m = Mat4::identity();
    let pitched = m.rotate_x(to_radians(pitch));
    let turned = pitched.rotate_y(to_radians(yaw));
    let m = turned.translate(&core::ops::Neg::neg(*position));
    proof {
        let (pitch_cos, pitch_sin) = choose|c: S, s: S|
            is_cos_of(radians(pitch), c) && is_sin_of(radians(pitch), s) && pitched == Mat4::<
                S,
            >::unit().times(#[trigger] Mat4::turn_x(c, s));
        let (yaw_cos, yaw_sin) = choose|c: S, s: S|
            is_cos_of(radians(yaw), c) && is_sin_of(radians(yaw), s) && turned == pitched.times(
                #[trigger] Mat4::turn_y(c, s),
            );
        assert(m == view(*position, pitch_cos, pitch_sin, yaw_cos, yaw_sin));
    }
    m
}

} // verus!
